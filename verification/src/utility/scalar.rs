//! Saturating fixed-point reals with six decimal places.
use vstd::prelude::*;

verus! {

/// Raw units in one whole.
pub const SCALE: i64 = 1_000_000;

/// Largest raw value; it stands for positive infinity.
pub const RAW_MAX: i64 = i64::MAX;

/// Smallest raw value; it stands for negative infinity.
pub const RAW_MIN: i64 = i64::MIN;

/// A real number held as `raw / SCALE`.
///
/// `raw == RAW_MAX` and `raw == RAW_MIN` stand for the two infinities: sums,
/// differences, products and quotients that leave the range stop there.
#[derive(Clone, Copy, Debug, PartialEq, Eq, Structural)]
pub struct Scalar {
    pub raw: i64,
}

/// The raw value nearest to `x`.
pub open spec fn saturate(x: int) -> i64 {
    if x > RAW_MAX {
        RAW_MAX
    } else if x < RAW_MIN {
        RAW_MIN
    } else {
        x as i64
    }
}

/// The quotient `n / d` rounded toward zero (`d != 0`).
pub open spec fn trunc_div(n: int, d: int) -> int {
    if d > 0 {
        if n >= 0 {
            n / d
        } else {
            -((-n) / d)
        }
    } else {
        if n >= 0 {
            -(n / (-d))
        } else {
            (-n) / (-d)
        }
    }
}

/// `r` is the integer part of the square root of `n`.
pub open spec fn is_floor_sqrt(n: int, r: int) -> bool {
    0 <= r && r * r <= n < (r + 1) * (r + 1)
}

/// The integer part of the square root of `n`; zero for negative `n`.
pub open spec fn floor_sqrt(n: int) -> int {
    if n <= 0 {
        0
    } else {
        choose|r: int| is_floor_sqrt(n, r)
    }
}

/// Two integer square roots of one number are the same.
pub proof fn lemma_floor_sqrt_unique(n: int, a: int, b: int)
    requires
        is_floor_sqrt(n, a),
        is_floor_sqrt(n, b),
    ensures
        a == b,
{
    if a < b {
        assert((a + 1) * (a + 1) <= b * b) by (nonlinear_arith)
            requires
                0 <= a,
                a + 1 <= b,
        ;
    } else if b < a {
        assert((b + 1) * (b + 1) <= a * a) by (nonlinear_arith)
            requires
                0 <= b,
                b + 1 <= a,
        ;
    }
}

/// Every number from zero up has an integer square root.
pub proof fn lemma_floor_sqrt_exists(n: int)
    requires
        n >= 0,
    ensures
        exists|r: int| is_floor_sqrt(n, r),
    decreases n,
{
    if n == 0 {
        assert(is_floor_sqrt(0, 0));
    } else {
        let m = n - 1;
        lemma_floor_sqrt_exists(m);
        let r = choose|r: int| is_floor_sqrt(m, r);
        if (r + 1) * (r + 1) <= n {
            assert((r + 2) * (r + 2) > n) by (nonlinear_arith)
                requires
                    r >= 0,
                    n - 1 < (r + 1) * (r + 1),
            ;
            assert(is_floor_sqrt(n, r + 1));
        } else {
            assert(is_floor_sqrt(n, r));
        }
    }
}

/// Division that rounds toward zero keeps the order of its dividends, for a
/// positive divisor.
pub proof fn lemma_trunc_div_ordered(x: int, y: int, d: int)
    requires
        x <= y,
        d > 0,
    ensures
        trunc_div(x, d) <= trunc_div(y, d),
{
    if x >= 0 {
        vstd::arithmetic::div_mod::lemma_div_is_ordered(x, y, d);
    } else if y < 0 {
        vstd::arithmetic::div_mod::lemma_div_is_ordered(-y, -x, d);
    } else {
        vstd::arithmetic::div_mod::lemma_div_pos_is_pos(-x, d);
        vstd::arithmetic::div_mod::lemma_div_pos_is_pos(y, d);
    }
}

fn clamp_wide(x: i128) -> (r: i64)
    ensures
        r == saturate(x as int),
{
    if x > RAW_MAX as i128 {
        RAW_MAX
    } else if x < RAW_MIN as i128 {
        RAW_MIN
    } else {
        x as i64
    }
}

/// Division of wide integers, rounded toward zero.
fn div_wide(n: i128, d: i128) -> (r: i128)
    requires
        d != 0,
        -0x4000_0000_0000_0000_0000_0000_0000_0000 <= n <= 0x4000_0000_0000_0000_0000_0000_0000_0000,
        -0x4000_0000_0000_0000_0000_0000_0000_0000 <= d <= 0x4000_0000_0000_0000_0000_0000_0000_0000,
    ensures
        r == trunc_div(n as int, d as int),
{
    let nn: u128 = if n < 0 {
        (-n) as u128
    } else {
        n as u128
    };
    let dd: u128 = if d < 0 {
        (-d) as u128
    } else {
        d as u128
    };
    let q: u128 = nn / dd;
    if (n < 0) != (d < 0) {
        -(q as i128)
    } else {
        q as i128
    }
}

/// Integer square root by bisection.
fn sqrt_wide(n: u128) -> (r: u128)
    requires
        n < 0x1_0000_0000_0000_0000_0000_0000u128,
    ensures
        is_floor_sqrt(n as int, r as int),
        r < 0x1_0000_0000_0000u128,
{
    let mut lo: u128 = 0;
    let mut hi: u128 = 0x1_0000_0000_0000u128;
    assert(0x1_0000_0000_0000u128 * 0x1_0000_0000_0000u128
        == 0x1_0000_0000_0000_0000_0000_0000u128) by (nonlinear_arith);
    while hi - lo > 1
        invariant
            lo < hi <= 0x1_0000_0000_0000u128,
            lo * lo <= n < hi * hi,
        decreases hi - lo,
    {
        let mid: u128 = lo + (hi - lo) / 2;
        assert(mid * mid < 0x1_0000_0000_0000_0000_0000_0000u128) by (nonlinear_arith)
            requires
                mid < 0x1_0000_0000_0000u128,
        ;
        if mid * mid <= n {
            lo = mid;
        } else {
            hi = mid;
        }
    }
    lo
}

impl Scalar {
    pub open spec fn spec_zero() -> Scalar {
        Scalar { raw: 0 }
    }

    pub open spec fn spec_one() -> Scalar {
        Scalar { raw: SCALE }
    }

    pub open spec fn spec_infinity() -> Scalar {
        Scalar { raw: RAW_MAX }
    }

    pub open spec fn spec_neg_infinity() -> Scalar {
        Scalar { raw: RAW_MIN }
    }

    pub open spec fn spec_from_int(n: i64) -> Scalar {
        Scalar { raw: saturate(n * SCALE) }
    }

    pub open spec fn spec_from_ratio(num: i64, den: i64) -> Scalar {
        Scalar::spec_from_int(num).spec_div(Scalar::spec_from_int(den))
    }

    pub open spec fn spec_add(self, rhs: Scalar) -> Scalar {
        Scalar { raw: saturate(self.raw + rhs.raw) }
    }

    pub open spec fn spec_sub(self, rhs: Scalar) -> Scalar {
        Scalar { raw: saturate(self.raw - rhs.raw) }
    }

    pub open spec fn spec_neg(self) -> Scalar {
        Scalar { raw: saturate(-self.raw) }
    }

    pub open spec fn spec_abs(self) -> Scalar {
        if self.raw < 0 {
            self.spec_neg()
        } else {
            self
        }
    }

    pub open spec fn spec_mul(self, rhs: Scalar) -> Scalar {
        Scalar { raw: saturate(trunc_div(self.raw * rhs.raw, SCALE as int)) }
    }

    /// Division; a zero divisor gives the infinity of the dividend's sign,
    /// and zero for zero.
    pub open spec fn spec_div(self, rhs: Scalar) -> Scalar {
        if rhs.raw == 0 {
            if self.raw > 0 {
                Scalar::spec_infinity()
            } else if self.raw < 0 {
                Scalar::spec_neg_infinity()
            } else {
                Scalar::spec_zero()
            }
        } else {
            Scalar { raw: saturate(trunc_div(self.raw * SCALE, rhs.raw as int)) }
        }
    }

    pub open spec fn spec_square(self) -> Scalar {
        self.spec_mul(self)
    }

    /// Square root rounded down to a raw unit; zero for a negative argument.
    pub open spec fn spec_sqrt(self) -> Scalar {
        Scalar { raw: floor_sqrt(self.raw * SCALE) as i64 }
    }

    pub open spec fn spec_min(self, rhs: Scalar) -> Scalar {
        if rhs.raw < self.raw {
            rhs
        } else {
            self
        }
    }

    pub open spec fn spec_max(self, rhs: Scalar) -> Scalar {
        if rhs.raw > self.raw {
            rhs
        } else {
            self
        }
    }

    /// The greatest whole number not above the value.
    pub open spec fn spec_floor(self) -> i64 {
        (self.raw as int / SCALE as int) as i64
    }

    /// The value less its floor, within `0 .. 1`.
    pub open spec fn spec_fract(self) -> Scalar {
        Scalar { raw: (self.raw as int % SCALE as int) as i64 }
    }

    /// The square root is not negative, and above zero it is the integer
    /// square root of the raw value times `SCALE`.
    pub proof fn lemma_sqrt_is_floor(self)
        ensures
            0 <= self.spec_sqrt().raw <= 0x1_0000_0000_0000,
            self.raw > 0 ==> is_floor_sqrt(self.raw * SCALE, self.spec_sqrt().raw as int),
    {
        if self.raw > 0 {
            let n = self.raw * SCALE;
            lemma_floor_sqrt_exists(n);
            let r = choose|r: int| is_floor_sqrt(n, r);
            assert(r < 0x1_0000_0000_0000) by (nonlinear_arith)
                requires
                    r >= 0,
                    r * r <= n,
                    n < 0x1_0000_0000_0000_0000_0000_0000,
            ;
        }
    }

    /// The product with the opposite of a scalar is the opposite of the
    /// product, short of negative infinity.
    pub proof fn lemma_mul_neg(self, rhs: Scalar)
        requires
            rhs.raw > RAW_MIN,
        ensures
            self.spec_mul(rhs.spec_neg()).raw == saturate(-trunc_div(self.raw * rhs.raw, SCALE as int)),
    {
        assert(self.raw * (-rhs.raw) == -(self.raw * rhs.raw)) by (nonlinear_arith);
    }

    /// The square of a scalar is not negative.
    pub proof fn lemma_square_nonnegative(self)
        ensures
            self.spec_square().raw >= 0,
    {
        assert(self.raw * self.raw >= 0) by (nonlinear_arith);
    }

    pub fn from_raw(raw: i64) -> (r: Scalar)
        ensures
            r.raw == raw,
    {
        Scalar { raw }
    }

    /// The scalar with the raw value nearest to `x`.
    pub fn from_wide(x: i128) -> (r: Scalar)
        ensures
            r.raw == saturate(x as int),
    {
        Scalar { raw: clamp_wide(x) }
    }

    pub fn zero() -> (r: Scalar)
        ensures
            r == Scalar::spec_zero(),
    {
        Scalar { raw: 0 }
    }

    pub fn one() -> (r: Scalar)
        ensures
            r == Scalar::spec_one(),
    {
        Scalar { raw: SCALE }
    }

    pub fn infinity() -> (r: Scalar)
        ensures
            r == Scalar::spec_infinity(),
    {
        Scalar { raw: RAW_MAX }
    }

    pub fn neg_infinity() -> (r: Scalar)
        ensures
            r == Scalar::spec_neg_infinity(),
    {
        Scalar { raw: RAW_MIN }
    }

    /// The whole number `n`.
    pub fn from_int(n: i64) -> (r: Scalar)
        ensures
            r == Scalar::spec_from_int(n),
    {
        Scalar { raw: clamp_wide((n as i128) * 1_000_000) }
    }

    /// The fraction `num / den`, rounded toward zero.
    pub fn from_ratio(num: i64, den: i64) -> (r: Scalar)
        ensures
            r == Scalar::spec_from_ratio(num, den),
    {
        Scalar::from_int(num).div(Scalar::from_int(den))
    }

    pub fn add(self, rhs: Scalar) -> (r: Scalar)
        ensures
            r == self.spec_add(rhs),
    {
        Scalar { raw: clamp_wide((self.raw as i128) + (rhs.raw as i128)) }
    }

    pub fn sub(self, rhs: Scalar) -> (r: Scalar)
        ensures
            r == self.spec_sub(rhs),
    {
        Scalar { raw: clamp_wide((self.raw as i128) - (rhs.raw as i128)) }
    }

    pub fn neg(self) -> (r: Scalar)
        ensures
            r == self.spec_neg(),
    {
        Scalar { raw: clamp_wide(-(self.raw as i128)) }
    }

    pub fn abs(self) -> (r: Scalar)
        ensures
            r == self.spec_abs(),
    {
        if self.raw < 0 {
            self.neg()
        } else {
            self
        }
    }

    pub fn mul(self, rhs: Scalar) -> (r: Scalar)
        ensures
            r == self.spec_mul(rhs),
    {
        let a: i128 = self.raw as i128;
        let b: i128 = rhs.raw as i128;
        assert(-0x4000_0000_0000_0000_0000_0000_0000_0000 <= a * b
            <= 0x4000_0000_0000_0000_0000_0000_0000_0000) by (nonlinear_arith)
            requires
                -0x8000_0000_0000_0000 <= a <= 0x8000_0000_0000_0000,
                -0x8000_0000_0000_0000 <= b <= 0x8000_0000_0000_0000,
        ;
        Scalar { raw: clamp_wide(div_wide(a * b, 1_000_000)) }
    }

    pub fn div(self, rhs: Scalar) -> (r: Scalar)
        ensures
            r == self.spec_div(rhs),
    {
        if rhs.raw == 0 {
            if self.raw > 0 {
                Scalar::infinity()
            } else if self.raw < 0 {
                Scalar::neg_infinity()
            } else {
                Scalar::zero()
            }
        } else {
            let n: i128 = (self.raw as i128) * 1_000_000;
            Scalar { raw: clamp_wide(div_wide(n, rhs.raw as i128)) }
        }
    }

    pub fn square(self) -> (r: Scalar)
        ensures
            r == self.spec_square(),
    {
        self.mul(self)
    }

    pub fn sqrt(self) -> (r: Scalar)
        ensures
            r == self.spec_sqrt(),
            self.raw > 0 ==> is_floor_sqrt(self.raw * SCALE, r.raw as int),
            self.raw <= 0 ==> r.raw == 0,
            0 <= r.raw <= 0x1_0000_0000_0000,
    {
        if self.raw <= 0 {
            Scalar { raw: 0 }
        } else {
            let n: u128 = (self.raw as u128) * 1_000_000;
            let root: u128 = sqrt_wide(n);
            proof {
                let chosen = choose|c: int| is_floor_sqrt(n as int, c);
                lemma_floor_sqrt_unique(n as int, root as int, chosen);
            }
            Scalar { raw: root as i64 }
        }
    }

    pub fn min(self, rhs: Scalar) -> (r: Scalar)
        ensures
            r == self.spec_min(rhs),
    {
        if rhs.raw < self.raw {
            rhs
        } else {
            self
        }
    }

    pub fn max(self, rhs: Scalar) -> (r: Scalar)
        ensures
            r == self.spec_max(rhs),
    {
        if rhs.raw > self.raw {
            rhs
        } else {
            self
        }
    }

    pub fn floor(self) -> (r: i64)
        ensures
            r == self.spec_floor(),
    {
        let q: i64 = self.raw / SCALE;
        if self.raw % SCALE < 0 {
            q - 1
        } else {
            q
        }
    }

    pub fn fract(self) -> (r: Scalar)
        ensures
            r == self.spec_fract(),
            0 <= r.raw < SCALE,
    {
        let m: i64 = self.raw % SCALE;
        if m < 0 {
            Scalar { raw: m + SCALE }
        } else {
            Scalar { raw: m }
        }
    }
}

impl Default for Scalar {
    fn default() -> (r: Scalar)
        ensures
            r == Scalar::spec_zero(),
    {
        Scalar { raw: 0 }
    }
}

} // verus!
