//! Colours, and the bytes that are written for them.
use vstd::prelude::*;
use crate::utility::scalar::Scalar;
use crate::utility::interval::Interval;
use crate::utility::vec3::Vec3;

verus! {

/// A colour: red in `x`, green in `y`, blue in `z`, each nominally in `0 ..= 1`.
pub type Color = Vec3;

/// Raw value of the greatest intensity that is written out; it maps to 255.
pub const MAX_INTENSITY: i64 = 999_000;

/// The gamma-2 transfer of a linear component: its square root, zero at and below zero.
pub open spec fn spec_linear_to_gamma(linear_component: Scalar) -> Scalar {
    if linear_component.raw > 0 {
        linear_component.spec_sqrt()
    } else {
        Scalar::spec_zero()
    }
}

/// The byte written for a linear component: the gamma transfer, kept within
/// `0 ..= 0.999`, times 256, rounded down.
pub open spec fn spec_to_byte(linear_component: Scalar) -> u8 {
    let g = spec_linear_to_gamma(linear_component);
    let c = Interval { min: Scalar::spec_zero(), max: Scalar { raw: MAX_INTENSITY } }.spec_clamp(g);
    ((256 * c.raw) / 1_000_000) as u8
}

pub fn linear_to_gamma(linear_component: Scalar) -> (r: Scalar)
    ensures
        r == spec_linear_to_gamma(linear_component),
{
    if linear_component.raw > 0 {
        return linear_component.sqrt();
    }
    Scalar::zero()
}

pub fn to_byte(linear_component: Scalar) -> (r: u8)
    ensures
        r == spec_to_byte(linear_component),
{
    let g: Scalar = linear_to_gamma(linear_component);
    let c: Scalar = Interval::new(Scalar::zero(), Scalar { raw: MAX_INTENSITY }).clamp(g);
    ((256 * c.raw) / 1_000_000) as u8
}

/// The three bytes written for a colour.
pub open spec fn spec_color_bytes(c: Color) -> (u8, u8, u8) {
    (spec_to_byte(c.x), spec_to_byte(c.y), spec_to_byte(c.z))
}

/// The three bytes written for a colour.
pub fn color_bytes(c: &Color) -> (r: (u8, u8, u8))
    ensures
        r == spec_color_bytes(*c),
{
    (to_byte(c.x), to_byte(c.y), to_byte(c.z))
}

/// The decimal digits of `n`, as ASCII bytes.
pub open spec fn spec_decimal(n: nat) -> Seq<u8>
    decreases n,
{
    if n < 10 {
        seq![(48 + n) as u8]
    } else {
        spec_decimal(n / 10).push((48 + n % 10) as u8)
    }
}

/// The line written for a colour: its three bytes in decimal, with a
/// space between them and a line feed behind.
pub open spec fn spec_color_line(c: Color) -> Seq<u8> {
    let (r, g, b) = spec_color_bytes(c);
    spec_decimal(r as nat).push(32u8) + spec_decimal(g as nat).push(32u8) + spec_decimal(
        b as nat,
    ).push(10u8)
}

/// Appends the decimal digits of `n` to `out`.
pub fn write_decimal(out: &mut Vec<u8>, n: u64)
    ensures
        final(out)@ == old(out)@ + spec_decimal(n as nat),
    decreases n,
{
    if n < 10 {
        out.push(48 + n as u8);
        assert(final(out)@ =~= old(out)@ + spec_decimal(n as nat));
    } else {
        write_decimal(out, n / 10);
        out.push(48 + (n % 10) as u8);
        assert(final(out)@ =~= old(out)@ + spec_decimal(n as nat));
    }
}

impl Vec3 {
    /// Appends the line for this colour to `out`.
    pub fn write_color(&self, out: &mut Vec<u8>)
        ensures
            final(out)@ == old(out)@ + spec_color_line(*self),
    {
        let (r, g, b) = color_bytes(self);
        write_decimal(out, r as u64);
        out.push(32);
        write_decimal(out, g as u64);
        out.push(32);
        write_decimal(out, b as u64);
        out.push(10);
        assert(final(out)@ =~= old(out)@ + spec_color_line(*self));
    }
}

} // verus!
