//! Fixed-point real numbers.
//!
//! A [`Scalar`] holds a whole number of millionths. Sums, differences,
//! products and quotients are rounded toward zero to the nearest millionth and
//! saturate at the ends of the 64-bit range, so that no operation can fail
//! except division by zero, which is excluded by a precondition.

use vstd::prelude::*;

verus! {

/// The number of raw units in one whole.
pub const SCALE: i64 = 1_000_000;

/// A real number with six decimal places: `raw` counts millionths.
#[derive(Clone, Copy, PartialEq, Eq, Structural, Debug)]
pub struct Scalar {
    pub raw: i64,
}

/// The 64-bit value nearest to `x`.
pub open spec fn saturate(x: int) -> i64 {
    if x > i64::MAX {
        i64::MAX
    } else if x < i64::MIN {
        i64::MIN
    } else {
        x as i64
    }
}

/// The quotient of `n` by `d`, rounded toward zero.
pub open spec fn quotient(n: int, d: int) -> int
    recommends
        d != 0,
{
    if d > 0 {
        if n >= 0 {
            n / d
        } else {
            -((-n) / d)
        }
    } else {
        if n >= 0 {
            -(n / (-d))
        } else {
            (-n) / (-d)
        }
    }
}

/// `r` is the integer part of the square root of `n`.
pub open spec fn is_floor_sqrt(n: nat, r: nat) -> bool {
    r * r <= n < (r + 1) * (r + 1)
}

/// The integer part of the square root of `n`.
pub open spec fn floor_sqrt(n: nat) -> nat {
    choose|r: nat| is_floor_sqrt(n, r)
}

proof fn lemma_floor_sqrt_unique(n: nat, r1: nat, r2: nat)
    by (nonlinear_arith)
    requires
        r1 * r1 <= n < (r1 + 1) * (r1 + 1),
        r2 * r2 <= n < (r2 + 1) * (r2 + 1),
    ensures
        r1 == r2,
{
    if r1 < r2 {
        assert((r1 + 1) * (r1 + 1) <= r2 * r2);
    } else if r2 < r1 {
        assert((r2 + 1) * (r2 + 1) <= r1 * r1);
    }
}

/// Any `r` whose square is at most `n`, while the square of `r + 1` exceeds
/// `n`, is the integer square root of `n`.
pub proof fn lemma_floor_sqrt_is(n: nat, r: nat)
    requires
        is_floor_sqrt(n, r),
    ensures
        floor_sqrt(n) == r,
{
    let c = floor_sqrt(n);
    assert(is_floor_sqrt(n, c));
    lemma_floor_sqrt_unique(n, c, r);
}

/// The square of a scalar is never negative.
pub proof fn lemma_square_nonneg(a: Scalar)
    ensures
        a.product(a).raw >= 0,
{
    assert(a.raw * a.raw >= 0) by (nonlinear_arith);
}

/// The product of two scalars that are not negative is not negative.
pub proof fn lemma_product_nonneg(a: Scalar, b: Scalar)
    requires
        a.raw >= 0,
        b.raw >= 0,
    ensures
        a.product(b).raw >= 0,
{
    assert(a.raw * b.raw >= 0) by (nonlinear_arith)
        requires
            a.raw >= 0,
            b.raw >= 0,
    ;
}

/// No power of a scalar that is not negative is negative.
pub proof fn lemma_pow_nonneg(a: Scalar, n: nat)
    requires
        a.raw >= 0,
    ensures
        a.pow_spec(n).raw >= 0,
    decreases n,
{
    if n == 0 {
    } else if n % 2 == 0 {
        lemma_pow_nonneg(a, n / 2);
        lemma_product_nonneg(a.pow_spec(n / 2), a.pow_spec(n / 2));
    } else {
        lemma_pow_nonneg(a, (n - 1) as nat);
        lemma_product_nonneg(a, a.pow_spec((n - 1) as nat));
    }
}

proof fn lemma_product_bound(a: int, b: int)
    by (nonlinear_arith)
    requires
        -0x8000_0000_0000_0000 <= a <= 0x8000_0000_0000_0000,
        -0x8000_0000_0000_0000 <= b <= 0x8000_0000_0000_0000,
    ensures
        -0x4000_0000_0000_0000_0000_0000_0000_0000 <= a * b
            <= 0x4000_0000_0000_0000_0000_0000_0000_0000,
{
}

fn clamp(x: i128) -> (r: i64)
    ensures
        r == saturate(x as int),
{
    if x > i64::MAX as i128 {
        i64::MAX
    } else if x < i64::MIN as i128 {
        i64::MIN
    } else {
        x as i64
    }
}

fn divide(n: i128, d: i128) -> (q: i128)
    requires
        d != 0,
        -0x4000_0000_0000_0000_0000_0000_0000_0000 <= n
            <= 0x4000_0000_0000_0000_0000_0000_0000_0000,
        -0x4000_0000_0000_0000_0000_0000_0000_0000 <= d
            <= 0x4000_0000_0000_0000_0000_0000_0000_0000,
    ensures
        q == quotient(n as int, d as int),
{
    let un: i128 = if n < 0 {
        -n
    } else {
        n
    };
    let ud: i128 = if d < 0 {
        -d
    } else {
        d
    };
    let uq: i128 = un / ud;
    assert(0 <= uq <= un) by (nonlinear_arith)
        requires
            un >= 0,
            ud >= 1,
            uq == un / ud,
    ;
    if (n < 0) == (d < 0) {
        uq
    } else {
        -uq
    }
}

fn isqrt(n: u128) -> (r: u128)
    requires
        n < 0x1_0000_0000_0000_0000_0000_0000,
    ensures
        is_floor_sqrt(n as nat, r as nat),
        r < 0x1_0000_0000_0000,
{
    let mut lo: u128 = 0;
    let mut hi: u128 = 0x1_0000_0000_0000;
    assert(hi * hi == 0x1_0000_0000_0000_0000_0000_0000) by (nonlinear_arith)
        requires
            hi == 0x1_0000_0000_0000,
    ;
    while hi - lo > 1
        invariant
            lo < hi <= 0x1_0000_0000_0000,
            lo * lo <= n < hi * hi,
        decreases hi - lo,
    {
        let mid: u128 = lo + (hi - lo) / 2;
        assert(mid * mid < 0x1_0000_0000_0000_0000_0000_0000) by (nonlinear_arith)
            requires
                mid < 0x1_0000_0000_0000,
        ;
        if mid * mid <= n {
            lo = mid;
        } else {
            hi = mid;
        }
    }
    lo
}

impl Scalar {
    /// The scalar of `raw` millionths.
    pub fn from_micros(raw: i64) -> (r: Scalar)
        ensures
            r.raw == raw,
    {
        Scalar { raw }
    }

    /// The scalar that denotes the whole number `n`, or the nearest end of the
    /// range.
    pub open spec fn whole(n: int) -> Scalar {
        Scalar { raw: saturate(n * SCALE) }
    }

    /// The scalar that denotes the whole number `n`, or the nearest end of the
    /// range.
    pub fn from_int(n: i64) -> (r: Scalar)
        ensures
            r == Scalar::whole(n as int),
    {
        Scalar { raw: clamp(n as i128 * 1_000_000) }
    }

    /// The scalar zero.
    pub fn zero() -> (r: Scalar)
        ensures
            r.raw == 0,
    {
        Scalar { raw: 0 }
    }

    /// The scalar one.
    pub fn one() -> (r: Scalar)
        ensures
            r.raw == SCALE,
    {
        Scalar { raw: SCALE }
    }

    /// The largest scalar. It serves as the open end of an unbounded interval.
    pub fn max_value() -> (r: Scalar)
        ensures
            r.raw == i64::MAX,
    {
        Scalar { raw: i64::MAX }
    }

    /// The sum, saturated.
    pub open spec fn sum(self, rhs: Scalar) -> Scalar {
        Scalar { raw: saturate(self.raw + rhs.raw) }
    }

    /// The difference, saturated.
    pub open spec fn difference(self, rhs: Scalar) -> Scalar {
        Scalar { raw: saturate(self.raw - rhs.raw) }
    }

    /// The negation, saturated.
    pub open spec fn negation(self) -> Scalar {
        Scalar { raw: saturate(-self.raw) }
    }

    /// The product, rounded toward zero to the nearest millionth and
    /// saturated.
    pub open spec fn product(self, rhs: Scalar) -> Scalar {
        Scalar { raw: saturate(quotient(self.raw * rhs.raw, SCALE as int)) }
    }

    /// The quotient by a scalar other than zero, rounded toward zero to the
    /// nearest millionth and saturated.
    pub open spec fn ratio(self, rhs: Scalar) -> Scalar
        recommends
            rhs.raw != 0,
    {
        Scalar { raw: saturate(quotient(self.raw * SCALE, rhs.raw as int)) }
    }

    /// The square root of a scalar that is not negative, rounded down to the
    /// nearest millionth.
    pub open spec fn sqrt_spec(self) -> Scalar
        recommends
            self.raw >= 0,
    {
        Scalar { raw: floor_sqrt((self.raw * SCALE) as nat) as i64 }
    }

    /// The square root, rounded down to the nearest millionth.
    pub fn sqrt(self) -> (r: Scalar)
        requires
            self.raw >= 0,
        ensures
            r == self.sqrt_spec(),
            r.raw >= 0,
            is_floor_sqrt((self.raw * SCALE) as nat, r.raw as nat),
    {
        let n: u128 = self.raw as u128 * (SCALE as u128);
        let r = isqrt(n);
        proof {
            lemma_floor_sqrt_is(n as nat, r as nat);
        }
        Scalar { raw: r as i64 }
    }

    /// `self` raised to the power `n` by repeated squaring, each product
    /// rounded as `*` rounds it.
    pub open spec fn pow_spec(self, n: nat) -> Scalar
        decreases n,
    {
        if n == 0 {
            Scalar { raw: SCALE }
        } else if n % 2 == 0 {
            let h = self.pow_spec(n / 2);
            h.product(h)
        } else {
            self.product(self.pow_spec((n - 1) as nat))
        }
    }

    /// `self` raised to the power `n`.
    pub fn powi(self, n: u32) -> (r: Scalar)
        ensures
            r == self.pow_spec(n as nat),
        decreases n,
    {
        if n == 0 {
            Scalar::one()
        } else if n % 2 == 0 {
            let h = self.powi(n / 2);
            h * h
        } else {
            self * self.powi(n - 1)
        }
    }
}

/// `+` on scalars: the sum, saturated.
impl core::ops::Add for Scalar {
    type Output = Scalar;

    fn add(self, rhs: Scalar) -> (r: Scalar)
        ensures
            r == self.sum(rhs),
    {
        Scalar { raw: clamp(self.raw as i128 + rhs.raw as i128) }
    }
}

impl vstd::std_specs::ops::AddSpecImpl for Scalar {
    open spec fn obeys_add_spec() -> bool {
        true
    }

    open spec fn add_req(self, rhs: Scalar) -> bool {
        true
    }

    open spec fn add_spec(self, rhs: Scalar) -> Scalar {
        self.sum(rhs)
    }
}

/// `-` on scalars: the difference, saturated.
impl core::ops::Sub for Scalar {
    type Output = Scalar;

    fn sub(self, rhs: Scalar) -> (r: Scalar)
        ensures
            r == self.difference(rhs),
    {
        Scalar { raw: clamp(self.raw as i128 - rhs.raw as i128) }
    }
}

impl vstd::std_specs::ops::SubSpecImpl for Scalar {
    open spec fn obeys_sub_spec() -> bool {
        true
    }

    open spec fn sub_req(self, rhs: Scalar) -> bool {
        true
    }

    open spec fn sub_spec(self, rhs: Scalar) -> Scalar {
        self.difference(rhs)
    }
}

/// Negation. The negation of the least scalar is the largest.
impl core::ops::Neg for Scalar {
    type Output = Scalar;

    fn neg(self) -> (r: Scalar)
        ensures
            r == self.negation(),
    {
        Scalar { raw: clamp(-(self.raw as i128)) }
    }
}

impl vstd::std_specs::ops::NegSpecImpl for Scalar {
    open spec fn obeys_neg_spec() -> bool {
        true
    }

    open spec fn neg_req(self) -> bool {
        true
    }

    open spec fn neg_spec(self) -> Scalar {
        self.negation()
    }
}

/// `*` on scalars: the product, rounded toward zero and saturated.
impl core::ops::Mul for Scalar {
    type Output = Scalar;

    fn mul(self, rhs: Scalar) -> (r: Scalar)
        ensures
            r == self.product(rhs),
    {
        let a: i128 = self.raw as i128;
        let b: i128 = rhs.raw as i128;
        proof {
            lemma_product_bound(a as int, b as int);
        }
        Scalar { raw: clamp(divide(a * b, SCALE as i128)) }
    }
}

impl vstd::std_specs::ops::MulSpecImpl for Scalar {
    open spec fn obeys_mul_spec() -> bool {
        true
    }

    open spec fn mul_req(self, rhs: Scalar) -> bool {
        true
    }

    open spec fn mul_spec(self, rhs: Scalar) -> Scalar {
        self.product(rhs)
    }
}

/// `/` on scalars, for a divisor other than zero: the quotient, rounded
/// toward zero and saturated.
impl core::ops::Div for Scalar {
    type Output = Scalar;

    fn div(self, rhs: Scalar) -> (r: Scalar)
        ensures
            r == self.ratio(rhs),
    {
        Scalar { raw: clamp(divide(self.raw as i128 * 1_000_000, rhs.raw as i128)) }
    }
}

impl vstd::std_specs::ops::DivSpecImpl for Scalar {
    open spec fn obeys_div_spec() -> bool {
        true
    }

    open spec fn div_req(self, rhs: Scalar) -> bool {
        rhs.raw != 0
    }

    open spec fn div_spec(self, rhs: Scalar) -> Scalar {
        self.ratio(rhs)
    }
}

} // verus!
