//! Elementary functions on scalars, by range reduction and short series.
//!
//! Each function is defined by its approximation: the spec function is the
//! series itself, evaluated in saturating fixed-point arithmetic.
use vstd::prelude::*;
use crate::utility::scalar::{Scalar, SCALE, saturate};

verus! {

/// Raw value of pi.
pub const PI: i64 = 3_141_593;

/// Raw value of pi / 2.
pub const HALF_PI: i64 = 1_570_796;

/// Raw value of pi / 4.
pub const QUARTER_PI: i64 = 785_398;

/// Raw value of 2 pi.
pub const TWO_PI: i64 = 6_283_185;

/// Raw value of the natural logarithm of 2.
pub const LN_2: i64 = 693_147;

/// Raw value of the tangent of pi / 8.
pub const TAN_EIGHTH_PI: i64 = 414_214;

/// Beyond this many doublings or halvings every scalar has reached infinity or zero.
pub const MAX_SHIFT: i64 = 64;

/// One step of a series in nested form: `c + t * p`.
pub open spec fn spec_rise(c: Scalar, t: Scalar, p: Scalar) -> Scalar {
    c.spec_add(t.spec_mul(p))
}

/// One step of an alternating series in nested form: `c - t * p`.
pub open spec fn spec_fall(c: Scalar, t: Scalar, p: Scalar) -> Scalar {
    c.spec_sub(t.spec_mul(p))
}

/// The fraction `1 / d`.
pub open spec fn spec_unit_fraction(d: i64) -> Scalar {
    Scalar::spec_one().spec_div(Scalar::spec_from_int(d))
}

/// An angle brought into `-pi/2 ..= pi/2` without changing its sine.
pub open spec fn spec_reduce_angle(x: Scalar) -> Scalar {
    let turn = x.raw as int % TWO_PI as int;
    let y = if turn > PI {
        turn - TWO_PI
    } else {
        turn
    };
    if y > HALF_PI {
        Scalar { raw: (PI - y) as i64 }
    } else if y < -HALF_PI {
        Scalar { raw: (-PI - y) as i64 }
    } else {
        Scalar { raw: y as i64 }
    }
}

/// The arctangent series `z - z^3/3 + ... - z^11/11`, for small `z`.
pub open spec fn spec_atan_series(z: Scalar) -> Scalar {
    let z2 = z.spec_square();
    z.spec_mul(
        spec_fall(
            Scalar::spec_one(),
            z2,
            spec_fall(
                spec_unit_fraction(3),
                z2,
                spec_fall(
                    spec_unit_fraction(5),
                    z2,
                    spec_fall(
                        spec_unit_fraction(7),
                        z2,
                        spec_fall(spec_unit_fraction(9), z2, spec_unit_fraction(11)),
                    ),
                ),
            ),
        ),
    )
}

/// The arctangent of `z` in `0 ..= 1`: above `tan(pi/8)` it is
/// `pi/4 + atan((z - 1) / (z + 1))`.
pub open spec fn spec_atan_unit(z: Scalar) -> Scalar {
    if z.raw > TAN_EIGHTH_PI {
        Scalar { raw: QUARTER_PI }.spec_add(
            spec_atan_series(
                z.spec_sub(Scalar::spec_one()).spec_div(z.spec_add(Scalar::spec_one())),
            ),
        )
    } else {
        spec_atan_series(z)
    }
}

/// A positive raw value below one, doubled until it is at least one, with
/// the exponent lowered by the number of doublings.
pub open spec fn spec_raise(m: int, k: int) -> (int, int)
    decreases 2 * SCALE - m,
{
    if 1 <= m < SCALE {
        spec_raise(2 * m, k - 1)
    } else {
        (m, k)
    }
}

/// A raw value halved until it is below two, with the exponent raised by
/// the number of halvings.
pub open spec fn spec_lower(m: int, k: int) -> (int, int)
    decreases m,
{
    if m >= 2 * SCALE {
        spec_lower(m / 2, k + 1)
    } else {
        (m, k)
    }
}

/// `p` doubled `k` times.
pub open spec fn spec_doubled(p: Scalar, k: nat) -> Scalar
    decreases k,
{
    if k == 0 {
        p
    } else {
        spec_doubled(p.spec_add(p), (k - 1) as nat)
    }
}

/// `p` halved `k` times, each time rounded down.
pub open spec fn spec_halved(p: Scalar, k: nat) -> Scalar
    decreases k,
{
    if k == 0 {
        p
    } else {
        spec_halved(Scalar { raw: (p.raw as int / 2) as i64 }, (k - 1) as nat)
    }
}

fn rise(c: Scalar, t: Scalar, p: Scalar) -> (r: Scalar)
    ensures
        r == spec_rise(c, t, p),
{
    c.add(t.mul(p))
}

fn fall(c: Scalar, t: Scalar, p: Scalar) -> (r: Scalar)
    ensures
        r == spec_fall(c, t, p),
{
    c.sub(t.mul(p))
}

fn unit_fraction(d: i64) -> (r: Scalar)
    ensures
        r == spec_unit_fraction(d),
{
    Scalar::one().div(Scalar::from_int(d))
}

fn reduce_angle(x: Scalar) -> (r: Scalar)
    ensures
        r == spec_reduce_angle(x),
        -HALF_PI <= r.raw <= HALF_PI,
{
    let part: i64 = x.raw % TWO_PI;
    let turn: i64 = if part < 0 {
        part + TWO_PI
    } else {
        part
    };
    let y: i64 = if turn > PI {
        turn - TWO_PI
    } else {
        turn
    };
    if y > HALF_PI {
        Scalar { raw: PI - y }
    } else if y < -HALF_PI {
        Scalar { raw: -PI - y }
    } else {
        Scalar { raw: y }
    }
}

fn atan_series(z: Scalar) -> (r: Scalar)
    ensures
        r == spec_atan_series(z),
{
    let z2: Scalar = z.square();
    let step5: Scalar = fall(unit_fraction(9), z2, unit_fraction(11));
    let step4: Scalar = fall(unit_fraction(7), z2, step5);
    let step3: Scalar = fall(unit_fraction(5), z2, step4);
    let step2: Scalar = fall(unit_fraction(3), z2, step3);
    z.mul(fall(Scalar::one(), z2, step2))
}

fn atan_unit(z: Scalar) -> (r: Scalar)
    ensures
        r == spec_atan_unit(z),
{
    if z.raw > TAN_EIGHTH_PI {
        Scalar { raw: QUARTER_PI }.add(
            atan_series(z.sub(Scalar::one()).div(z.add(Scalar::one()))),
        )
    } else {
        atan_series(z)
    }
}

fn raise(m: i64) -> (r: (i64, i128))
    requires
        1 <= m,
    ensures
        (r.0 as int, r.1 as int) == spec_raise(m as int, 0),
        SCALE <= r.0,
        -2 * SCALE <= r.1 <= 0,
{
    let mut mantissa: i64 = m;
    let mut exponent: i128 = 0;
    while mantissa < SCALE
        invariant
            1 <= mantissa,
            exponent == 0 || mantissa < 2 * SCALE,
            spec_raise(m as int, 0) == spec_raise(mantissa as int, exponent as int),
            exponent <= 0,
            mantissa + exponent >= m,
        decreases 2 * SCALE - mantissa,
    {
        mantissa = mantissa * 2;
        exponent = exponent - 1;
    }
    (mantissa, exponent)
}

fn lower(m: i64, k: i128) -> (r: (i64, i128))
    requires
        SCALE <= m,
        -2 * SCALE <= k <= 0,
    ensures
        (r.0 as int, r.1 as int) == spec_lower(m as int, k as int),
        SCALE <= r.0 < 2 * SCALE,
        -2 * SCALE <= r.1 <= m,
{
    let mut mantissa: i64 = m;
    let mut exponent: i128 = k;
    while mantissa >= 2 * SCALE
        invariant
            SCALE <= mantissa,
            spec_lower(m as int, k as int) == spec_lower(mantissa as int, exponent as int),
            -2 * SCALE <= k <= exponent,
            k <= 0,
            mantissa + exponent <= m + k,
        decreases mantissa,
    {
        mantissa = mantissa / 2;
        exponent = exponent + 1;
    }
    (mantissa, exponent)
}

fn doubled(p: Scalar, k: i64) -> (r: Scalar)
    requires
        0 <= k <= MAX_SHIFT,
    ensures
        r == spec_doubled(p, k as nat),
{
    let mut value: Scalar = p;
    let mut left: i64 = k;
    while left > 0
        invariant
            0 <= left <= k,
            spec_doubled(p, k as nat) == spec_doubled(value, left as nat),
        decreases left,
    {
        value = value.add(value);
        left = left - 1;
    }
    value
}

fn halved(p: Scalar, k: i64) -> (r: Scalar)
    requires
        0 <= k <= MAX_SHIFT,
    ensures
        r == spec_halved(p, k as nat),
{
    let mut value: Scalar = p;
    let mut left: i64 = k;
    while left > 0
        invariant
            0 <= left <= k,
            spec_halved(p, k as nat) == spec_halved(value, left as nat),
        decreases left,
    {
        let part: i64 = value.raw / 2;
        let half: i64 = if value.raw % 2 < 0 {
            part - 1
        } else {
            part
        };
        value = Scalar { raw: half };
        left = left - 1;
    }
    value
}

impl Scalar {
    pub open spec fn spec_pi() -> Scalar {
        Scalar { raw: PI }
    }

    /// The sine series `y - y^3/3! + ... - y^11/11!` of the reduced angle,
    /// kept within `-1 ..= 1`.
    pub open spec fn spec_sin(self) -> Scalar {
        let y = spec_reduce_angle(self);
        let y2 = y.spec_square();
        let one = Scalar::spec_one();
        y.spec_mul(
            spec_fall(
                one,
                y2.spec_div(Scalar::spec_from_int(6)),
                spec_fall(
                    one,
                    y2.spec_div(Scalar::spec_from_int(20)),
                    spec_fall(
                        one,
                        y2.spec_div(Scalar::spec_from_int(42)),
                        spec_fall(
                            one,
                            y2.spec_div(Scalar::spec_from_int(72)),
                            spec_fall(one, y2.spec_div(Scalar::spec_from_int(110)), one),
                        ),
                    ),
                ),
            ),
        ).spec_min(one).spec_max(one.spec_neg())
    }

    /// The sine of the angle a quarter turn ahead.
    pub open spec fn spec_cos(self) -> Scalar {
        self.spec_add(Scalar { raw: HALF_PI }).spec_sin()
    }

    pub open spec fn spec_tan(self) -> Scalar {
        self.spec_sin().spec_div(self.spec_cos())
    }

    /// The arctangent, within `-pi/2 ..= pi/2`; beyond one in magnitude it
    /// is `pi/2 - atan(1 / |x|)`.
    pub open spec fn spec_atan(self) -> Scalar {
        let a = self.spec_abs();
        let r = if a.raw > SCALE {
            Scalar { raw: HALF_PI }.spec_sub(spec_atan_unit(Scalar::spec_one().spec_div(a)))
        } else {
            spec_atan_unit(a)
        };
        if self.raw < 0 {
            r.spec_neg()
        } else {
            r
        }
    }

    /// The angle of the point `(x, self)` from the positive x axis, within
    /// `-pi ..= pi`.
    pub open spec fn spec_atan2(self, x: Scalar) -> Scalar {
        if x.raw > 0 {
            self.spec_div(x).spec_atan()
        } else if x.raw < 0 {
            if self.raw >= 0 {
                self.spec_div(x).spec_atan().spec_add(Scalar::spec_pi())
            } else {
                self.spec_div(x).spec_atan().spec_sub(Scalar::spec_pi())
            }
        } else if self.raw > 0 {
            Scalar { raw: HALF_PI }
        } else if self.raw < 0 {
            Scalar { raw: (-HALF_PI) as i64 }
        } else {
            Scalar::spec_zero()
        }
    }

    /// The arccosine of the value brought into `-1 ..= 1`.
    pub open spec fn spec_acos(self) -> Scalar {
        let x = self.spec_min(Scalar::spec_one()).spec_max(Scalar::spec_one().spec_neg());
        Scalar::spec_one().spec_sub(x.spec_square()).spec_sqrt().spec_atan2(x)
    }

    /// The natural logarithm; negative infinity at and below zero.
    ///
    /// The value is written as `m * 2^k` with `m` in `1 .. 2`, and the
    /// logarithm of `m` is `2 (z + z^3/3 + ... + z^9/9)` for
    /// `z = (m - 1) / (m + 1)`.
    pub open spec fn spec_ln(self) -> Scalar {
        if self.raw <= 0 {
            Scalar::spec_neg_infinity()
        } else {
            let (m1, k1) = spec_raise(self.raw as int, 0);
            let (m, k) = spec_lower(m1, k1);
            let mant = Scalar { raw: m as i64 };
            let z = mant.spec_sub(Scalar::spec_one()).spec_div(mant.spec_add(Scalar::spec_one()));
            let z2 = z.spec_square();
            let one = Scalar::spec_one();
            let series = spec_rise(
                one,
                z2,
                spec_rise(
                    spec_unit_fraction(3),
                    z2,
                    spec_rise(
                        spec_unit_fraction(5),
                        z2,
                        spec_rise(spec_unit_fraction(7), z2, spec_unit_fraction(9)),
                    ),
                ),
            );
            Scalar { raw: saturate(k * LN_2) }.spec_add(
                Scalar::spec_from_int(2).spec_mul(z.spec_mul(series)),
            )
        }
    }

    /// The exponential function.
    ///
    /// The argument is written as `k ln 2 + r` with `r` in `0 .. ln 2`; the
    /// series `1 + r + r^2/2! + ... + r^9/9!` is then doubled or halved
    /// `|k|` times.
    pub open spec fn spec_exp(self) -> Scalar {
        let k = self.raw as int / LN_2 as int;
        let r = Scalar { raw: (self.raw as int % LN_2 as int) as i64 };
        let one = Scalar::spec_one();
        let series = spec_rise(
            one,
            r,
            spec_rise(
                one,
                r.spec_div(Scalar::spec_from_int(2)),
                spec_rise(
                    one,
                    r.spec_div(Scalar::spec_from_int(3)),
                    spec_rise(
                        one,
                        r.spec_div(Scalar::spec_from_int(4)),
                        spec_rise(
                            one,
                            r.spec_div(Scalar::spec_from_int(5)),
                            spec_rise(
                                one,
                                r.spec_div(Scalar::spec_from_int(6)),
                                spec_rise(
                                    one,
                                    r.spec_div(Scalar::spec_from_int(7)),
                                    spec_rise(
                                        one,
                                        r.spec_div(Scalar::spec_from_int(8)),
                                        spec_rise(one, r.spec_div(Scalar::spec_from_int(9)), one),
                                    ),
                                ),
                            ),
                        ),
                    ),
                ),
            ),
        );
        if k >= MAX_SHIFT {
            spec_doubled(series, MAX_SHIFT as nat)
        } else if k >= 0 {
            spec_doubled(series, k as nat)
        } else if k <= -MAX_SHIFT {
            spec_halved(series, MAX_SHIFT as nat)
        } else {
            spec_halved(series, (-k) as nat)
        }
    }

    /// `self` to the power `exponent`, as `exp(exponent * ln(self))`; zero
    /// for a base at or below zero.
    pub open spec fn spec_powf(self, exponent: Scalar) -> Scalar {
        if self.raw <= 0 {
            Scalar::spec_zero()
        } else {
            exponent.spec_mul(self.spec_ln()).spec_exp()
        }
    }

    pub fn pi() -> (r: Scalar)
        ensures
            r == Scalar::spec_pi(),
    {
        Scalar { raw: PI }
    }

    pub fn sin(self) -> (r: Scalar)
        ensures
            r == self.spec_sin(),
            -SCALE <= r.raw <= SCALE,
    {
        let y: Scalar = reduce_angle(self);
        let y2: Scalar = y.square();
        let one: Scalar = Scalar::one();
        let step5: Scalar = fall(one, y2.div(Scalar::from_int(110)), one);
        let step4: Scalar = fall(one, y2.div(Scalar::from_int(72)), step5);
        let step3: Scalar = fall(one, y2.div(Scalar::from_int(42)), step4);
        let step2: Scalar = fall(one, y2.div(Scalar::from_int(20)), step3);
        let step1: Scalar = fall(one, y2.div(Scalar::from_int(6)), step2);
        y.mul(step1).min(one).max(one.neg())
    }

    pub fn cos(self) -> (r: Scalar)
        ensures
            r == self.spec_cos(),
            -SCALE <= r.raw <= SCALE,
    {
        self.add(Scalar { raw: HALF_PI }).sin()
    }

    pub fn tan(self) -> (r: Scalar)
        ensures
            r == self.spec_tan(),
    {
        self.sin().div(self.cos())
    }

    pub fn atan(self) -> (r: Scalar)
        ensures
            r == self.spec_atan(),
    {
        let a: Scalar = self.abs();
        let r: Scalar = if a.raw > SCALE {
            Scalar { raw: HALF_PI }.sub(atan_unit(Scalar::one().div(a)))
        } else {
            atan_unit(a)
        };
        if self.raw < 0 {
            r.neg()
        } else {
            r
        }
    }

    pub fn atan2(self, x: Scalar) -> (r: Scalar)
        ensures
            r == self.spec_atan2(x),
    {
        if x.raw > 0 {
            self.div(x).atan()
        } else if x.raw < 0 {
            if self.raw >= 0 {
                self.div(x).atan().add(Scalar::pi())
            } else {
                self.div(x).atan().sub(Scalar::pi())
            }
        } else if self.raw > 0 {
            Scalar { raw: HALF_PI }
        } else if self.raw < 0 {
            Scalar { raw: -HALF_PI }
        } else {
            Scalar::zero()
        }
    }

    pub fn acos(self) -> (r: Scalar)
        ensures
            r == self.spec_acos(),
    {
        let x: Scalar = self.min(Scalar::one()).max(Scalar::one().neg());
        Scalar::one().sub(x.square()).sqrt().atan2(x)
    }

    pub fn ln(self) -> (r: Scalar)
        ensures
            r == self.spec_ln(),
    {
        if self.raw <= 0 {
            Scalar::neg_infinity()
        } else {
            let (m1, k1) = raise(self.raw);
            let (m, k) = lower(m1, k1);
            let mant: Scalar = Scalar { raw: m };
            let z: Scalar = mant.sub(Scalar::one()).div(mant.add(Scalar::one()));
            let z2: Scalar = z.square();
            let step4: Scalar = rise(unit_fraction(7), z2, unit_fraction(9));
            let step3: Scalar = rise(unit_fraction(5), z2, step4);
            let step2: Scalar = rise(unit_fraction(3), z2, step3);
            let series: Scalar = rise(Scalar::one(), z2, step2);
            Scalar::from_wide(k * (LN_2 as i128)).add(Scalar::from_int(2).mul(z.mul(series)))
        }
    }

    pub fn exp(self) -> (r: Scalar)
        ensures
            r == self.spec_exp(),
    {
        let part: i64 = self.raw % LN_2;
        let k: i64 = if part < 0 {
            self.raw / LN_2 - 1
        } else {
            self.raw / LN_2
        };
        let r: Scalar = if part < 0 {
            Scalar { raw: part + LN_2 }
        } else {
            Scalar { raw: part }
        };
        let one: Scalar = Scalar::one();
        let step9: Scalar = rise(one, r.div(Scalar::from_int(9)), one);
        let step8: Scalar = rise(one, r.div(Scalar::from_int(8)), step9);
        let step7: Scalar = rise(one, r.div(Scalar::from_int(7)), step8);
        let step6: Scalar = rise(one, r.div(Scalar::from_int(6)), step7);
        let step5: Scalar = rise(one, r.div(Scalar::from_int(5)), step6);
        let step4: Scalar = rise(one, r.div(Scalar::from_int(4)), step5);
        let step3: Scalar = rise(one, r.div(Scalar::from_int(3)), step4);
        let step2: Scalar = rise(one, r.div(Scalar::from_int(2)), step3);
        let series: Scalar = rise(one, r, step2);
        if k >= MAX_SHIFT {
            doubled(series, MAX_SHIFT)
        } else if k >= 0 {
            doubled(series, k)
        } else if k <= -MAX_SHIFT {
            halved(series, MAX_SHIFT)
        } else {
            halved(series, -k)
        }
    }

    pub fn powf(self, exponent: Scalar) -> (r: Scalar)
        ensures
            r == self.spec_powf(exponent),
    {
        if self.raw <= 0 {
            Scalar::zero()
        } else {
            exponent.mul(self.ln()).exp()
        }
    }
}

} // verus!
