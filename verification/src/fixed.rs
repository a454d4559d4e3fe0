//! The scalar type of the renderer: a saturating Q47.16 fixed-point number.
//!
//! A value is a signed 64-bit mantissa `m` standing for the real number
//! `m / 65536`. Every operation is total: results that would leave the
//! mantissa range saturate at `i64::MIN` / `i64::MAX`, and a division by
//! zero saturates in the direction of the dividend's sign. Multiplication
//! and division round toward zero.

use vstd::prelude::*;

verus! {

/// Mantissa of the scalar 1, i.e. the scale factor of the representation.
pub const FX_ONE: i64 = 65536;

/// A fixed-point scalar; the value represented is `m / 65536`.
#[derive(Clone, Copy, Debug, PartialEq, Eq, Structural)]
pub struct Fx {
    pub m: i64,
}

/// Saturates a mathematical integer into the mantissa range.
pub open spec fn fx_clip(x: int) -> int {
    if x > i64::MAX as int {
        i64::MAX as int
    } else if x < i64::MIN as int {
        i64::MIN as int
    } else {
        x
    }
}

/// Quotient of `a` by `b` rounded toward zero (`b != 0`).
pub open spec fn div_trunc(a: int, b: int) -> int
    recommends
        b != 0,
{
    if a >= 0 {
        if b > 0 {
            a / b
        } else {
            -(a / -b)
        }
    } else {
        if b > 0 {
            -((-a) / b)
        } else {
            (-a) / (-b)
        }
    }
}

/// Mantissa of the sum of two scalars.
pub open spec fn fx_add_m(a: int, b: int) -> int {
    fx_clip(a + b)
}

/// Mantissa of the difference of two scalars.
pub open spec fn fx_sub_m(a: int, b: int) -> int {
    fx_clip(a - b)
}

/// Mantissa of the negation of a scalar.
pub open spec fn fx_neg_m(a: int) -> int {
    fx_clip(-a)
}

/// Mantissa of the product of two scalars: the exact product scaled back
/// down, rounded toward zero, then saturated.
pub open spec fn fx_mul_m(a: int, b: int) -> int {
    fx_clip(div_trunc(a * b, FX_ONE as int))
}

/// Mantissa of the quotient of two scalars. A zero divisor saturates in the
/// direction of the dividend's sign.
pub open spec fn fx_div_m(a: int, b: int) -> int {
    if b == 0 {
        if a > 0 {
            i64::MAX as int
        } else if a < 0 {
            i64::MIN as int
        } else {
            0
        }
    } else {
        fx_clip(div_trunc(a * (FX_ONE as int), b))
    }
}

/// Saturates a wide intermediate result into the mantissa range.
fn clip_i128(x: i128) -> (r: i64)
    ensures
        r as int == fx_clip(x as int),
{
    if x > i64::MAX as i128 {
        i64::MAX
    } else if x < i64::MIN as i128 {
        i64::MIN
    } else {
        x as i64
    }
}

/// Quotient of `a` by a positive divisor `b`, rounded toward zero.
fn div_trunc_i128(a: i128, b: i128) -> (r: i128)
    requires
        b > 0,
        a != i128::MIN,
    ensures
        r as int == div_trunc(a as int, b as int),
        a >= 0 ==> 0 <= r <= a,
        a < 0 ==> a <= r <= 0,
{
    if a >= 0 {
        let mag: u128 = a as u128;
        let q: u128 = mag / (b as u128);
        q as i128
    } else {
        let mag: u128 = (-a) as u128;
        let q: u128 = mag / (b as u128);
        -(q as i128)
    }
}

/// `r` is the integer square root of `x * 65536`, which makes it the
/// mantissa of the square root of the scalar with mantissa `x`.
pub open spec fn is_sqrt_m(x: int, r: int) -> bool {
    &&& r >= 0
    &&& r * r <= x * (FX_ONE as int)
    &&& (r + 1) * (r + 1) > x * (FX_ONE as int)
}

/// Mantissa of the square root of a scalar. A negative argument is taken
/// as zero, so the function is total.
pub open spec fn fx_sqrt_m(x: int) -> int {
    if x <= 0 {
        0
    } else {
        choose|r: int| is_sqrt_m(x, r)
    }
}

/// The integer square root is unique: any two witnesses agree.
pub proof fn lemma_sqrt_m_unique(x: int, r1: int, r2: int)
    requires
        is_sqrt_m(x, r1),
        is_sqrt_m(x, r2),
    ensures
        r1 == r2,
{
    assert(r1 == r2) by (nonlinear_arith)
        requires
            r1 >= 0,
            r2 >= 0,
            r1 * r1 <= x * 65536,
            (r1 + 1) * (r1 + 1) > x * 65536,
            r2 * r2 <= x * 65536,
            (r2 + 1) * (r2 + 1) > x * 65536,
    {}
}

/// Every nonnegative integer has an integer square root.
pub proof fn lemma_int_sqrt_exists(n: int)
    requires
        n >= 0,
    ensures
        exists|r: int| r >= 0 && #[trigger] (r * r) <= n && (r + 1) * (r + 1) > n,
    decreases n,
{
    if n == 0 {
        assert(0 * 0 <= n && (0 + 1) * (0 + 1) > n) by (nonlinear_arith)
            requires
                n == 0,
        {}
        assert(0 >= 0 && 0 * 0 <= n && (0 + 1) * (0 + 1) > n);
    } else {
        lemma_int_sqrt_exists(n - 1);
        let r = choose|r: int| r >= 0 && #[trigger] (r * r) <= n - 1 && (r + 1) * (r + 1) > n - 1;
        if (r + 1) * (r + 1) <= n {
            assert((r + 2) * (r + 2) > n) by (nonlinear_arith)
                requires
                    r >= 0,
                    (r + 1) * (r + 1) > n - 1,
                    (r + 1) * (r + 1) <= n,
            {}
            assert((r + 1) >= 0 && (r + 1) * (r + 1) <= n && (r + 2) * (r + 2) > n);
        } else {
            assert(r >= 0 && r * r <= n && (r + 1) * (r + 1) > n);
        }
    }
}

/// The chosen square-root mantissa really is one: it is nonnegative and
/// squares to at most the scaled argument.
pub proof fn lemma_fx_sqrt_m_is_sqrt(x: int)
    ensures
        x > 0 ==> is_sqrt_m(x, fx_sqrt_m(x)),
        fx_sqrt_m(x) >= 0,
{
    if x > 0 {
        lemma_int_sqrt_exists(x * (FX_ONE as int));
        let r = choose|r: int| r >= 0 && #[trigger] (r * r) <= x * (FX_ONE as int) && (r + 1) * (r
            + 1) > x * (FX_ONE as int);
        assert(is_sqrt_m(x, r));
        assert(is_sqrt_m(x, fx_sqrt_m(x)));
    }
}

/// Division of scalars is monotone in the dividend when the divisor is
/// nonnegative (a zero divisor saturates by the dividend's sign).
pub proof fn lemma_div_m_ordered(a1: int, a2: int, b: int)
    requires
        a1 <= a2,
        b >= 0,
    ensures
        fx_div_m(a1, b) <= fx_div_m(a2, b),
{
    if b == 0 {
    } else {
        assert(a1 * (FX_ONE as int) <= a2 * (FX_ONE as int)) by (nonlinear_arith)
            requires
                a1 <= a2,
        {}
        lemma_div_trunc_ordered(a1 * (FX_ONE as int), a2 * (FX_ONE as int), b);
    }
}

/// The quotient of nonnegative scalars is nonnegative.
pub proof fn lemma_div_m_nonneg(a: int, b: int)
    requires
        a >= 0,
        b >= 0,
    ensures
        fx_div_m(a, b) >= 0,
{
    if b > 0 {
        assert(a * (FX_ONE as int) >= 0) by (nonlinear_arith)
            requires
                a >= 0,
        {}
    }
}

/// Binary search for the integer square root of `x`.
fn isqrt_u128(x: u128) -> (r: u128)
    requires
        x < 0x1_0000_0000_0000_0000_0000,
    ensures
        r * r <= x,
        (r + 1) * (r + 1) > x,
        r < 0x100_0000_0000,
{
    let mut lo: u128 = 0;
    let mut hi: u128 = 0x100_0000_0000;
    while lo + 1 < hi
        invariant
            lo < hi <= 0x100_0000_0000,
            lo * lo <= x,
            hi * hi > x,
        decreases hi - lo,
    {
        let mid: u128 = lo + (hi - lo) / 2;
        proof {
            assert(mid * mid <= 0x100_0000_0000 * 0x100_0000_0000) by (nonlinear_arith)
                requires
                    mid <= 0x100_0000_0000,
            {}
        }
        if mid * mid <= x {
            lo = mid;
        } else {
            hi = mid;
        }
    }
    lo
}

impl Fx {
    /// The scalar 0.
    pub fn zero() -> (r: Fx)
        ensures
            r.m == 0,
    {
        Fx { m: 0 }
    }

    /// The scalar 1.
    pub fn one() -> (r: Fx)
        ensures
            r.m == FX_ONE,
    {
        Fx { m: FX_ONE }
    }

    /// The scalar of greatest magnitude; stands in for an infinite bound.
    pub fn max_value() -> (r: Fx)
        ensures
            r.m == i64::MAX,
    {
        Fx { m: i64::MAX }
    }

    /// The least (most negative) scalar; stands in for a negatively
    /// infinite bound.
    pub fn min_value() -> (r: Fx)
        ensures
            r.m == i64::MIN,
    {
        Fx { m: i64::MIN }
    }

    /// Spec twin of `from_int`.
    pub open spec fn from_int_spec(n: i64) -> Fx {
        Fx { m: fx_clip(n * (FX_ONE as int)) as i64 }
    }

    /// The scalar equal to the integer `n`, saturated if out of range.
    pub fn from_int(n: i64) -> (r: Fx)
        ensures
            r.m == fx_clip(n * (FX_ONE as int)),
            r == Fx::from_int_spec(n),
    {
        Fx { m: clip_i128((n as i128) * 65536) }
    }

    /// The scalar closest to `n / d` from below in magnitude; `d == 0`
    /// saturates like division.
    pub fn from_ratio(n: i64, d: i64) -> (r: Fx)
        ensures
            r.m == fx_div_m(n as int, d as int),
    {
        Fx { m: n }.div(Fx { m: d })
    }

    pub fn add(self, o: Fx) -> (r: Fx)
        ensures
            r.m == fx_add_m(self.m as int, o.m as int),
    {
        Fx { m: clip_i128(self.m as i128 + o.m as i128) }
    }

    pub fn sub(self, o: Fx) -> (r: Fx)
        ensures
            r.m == fx_sub_m(self.m as int, o.m as int),
    {
        Fx { m: clip_i128(self.m as i128 - o.m as i128) }
    }

    pub fn neg(self) -> (r: Fx)
        ensures
            r.m == fx_neg_m(self.m as int),
    {
        Fx { m: clip_i128(-(self.m as i128)) }
    }

    pub fn mul(self, o: Fx) -> (r: Fx)
        ensures
            r.m == fx_mul_m(self.m as int, o.m as int),
    {
        let a: i128 = self.m as i128;
        let b: i128 = o.m as i128;
        proof {
            assert(-0x4000_0000_0000_0000_0000_0000_0000_0000 <= a * b
                <= 0x4000_0000_0000_0000_0000_0000_0000_0000) by (nonlinear_arith)
                requires
                    -0x8000_0000_0000_0000 <= a <= 0x7fff_ffff_ffff_ffff,
                    -0x8000_0000_0000_0000 <= b <= 0x7fff_ffff_ffff_ffff,
            {}
        }
        let p: i128 = a * b;
        let q: i128 = div_trunc_i128(p, 65536);
        Fx { m: clip_i128(q) }
    }

    pub fn div(self, o: Fx) -> (r: Fx)
        ensures
            r.m == fx_div_m(self.m as int, o.m as int),
    {
        if o.m == 0 {
            if self.m > 0 {
                Fx { m: i64::MAX }
            } else if self.m < 0 {
                Fx { m: i64::MIN }
            } else {
                Fx { m: 0 }
            }
        } else {
            let a: i128 = (self.m as i128) * 65536;
            let q: i128 = if o.m > 0 {
                div_trunc_i128(a, o.m as i128)
            } else {
                -div_trunc_i128(a, -(o.m as i128))
            };
            Fx { m: clip_i128(q) }
        }
    }

    /// Square root of a scalar; a negative argument yields zero.
    pub fn sqrt(self) -> (r: Fx)
        ensures
            r.m == fx_sqrt_m(self.m as int),
            r.m >= 0,
    {
        if self.m <= 0 {
            Fx { m: 0 }
        } else {
            let scaled: u128 = (self.m as u128) * 65536;
            let root: u128 = isqrt_u128(scaled);
            proof {
                assert(is_sqrt_m(self.m as int, root as int));
                let picked = fx_sqrt_m(self.m as int);
                assert(is_sqrt_m(self.m as int, picked)) by {
                    assert(is_sqrt_m(self.m as int, root as int));
                }
                lemma_sqrt_m_unique(self.m as int, root as int, picked);
            }
            Fx { m: root as i64 }
        }
    }

    /// Absolute value, saturated (the mantissa `i64::MIN` has no exact negation).
    pub fn abs(self) -> (r: Fx)
        ensures
            r.m == if self.m < 0 {
                fx_neg_m(self.m as int)
            } else {
                self.m as int
            },
    {
        if self.m < 0 {
            self.neg()
        } else {
            self
        }
    }
}

/// Mantissa of pi.
pub const FX_PI: i64 = 205887;

/// Truncated Maclaurin series for the sine: `x - x^3/6 + x^5/120 - x^7/5040`.
pub open spec fn fx_sin_series(x: Fx) -> Fx {
    let x2 = fx_mul_m(x.m as int, x.m as int);
    let x3 = fx_mul_m(x2, x.m as int);
    let x5 = fx_mul_m(x3, x2);
    let x7 = fx_mul_m(x5, x2);
    Fx {
        m: fx_sub_m(
            fx_add_m(
                fx_sub_m(x.m as int, fx_div_m(x3, 6 * (FX_ONE as int))),
                fx_div_m(x5, 120 * (FX_ONE as int)),
            ),
            fx_div_m(x7, 5040 * (FX_ONE as int)),
        ) as i64,
    }
}

/// Truncated Maclaurin series for the cosine: `1 - x^2/2 + x^4/24 - x^6/720`.
pub open spec fn fx_cos_series(x: Fx) -> Fx {
    let x2 = fx_mul_m(x.m as int, x.m as int);
    let x4 = fx_mul_m(x2, x2);
    let x6 = fx_mul_m(x4, x2);
    Fx {
        m: fx_sub_m(
            fx_add_m(
                fx_sub_m(FX_ONE as int, fx_div_m(x2, 2 * (FX_ONE as int))),
                fx_div_m(x4, 24 * (FX_ONE as int)),
            ),
            fx_div_m(x6, 720 * (FX_ONE as int)),
        ) as i64,
    }
}

/// The tangent as the quotient of the two series.
pub open spec fn fx_tan_series(x: Fx) -> Fx {
    Fx { m: fx_div_m(fx_sin_series(x).m as int, fx_cos_series(x).m as int) as i64 }
}

/// Degrees converted to radians: `d * pi / 180`.
pub open spec fn fx_to_radians(d: Fx) -> Fx {
    Fx { m: fx_div_m(fx_mul_m(d.m as int, FX_PI as int), 180 * (FX_ONE as int)) as i64 }
}

impl Fx {
    /// Sine by a truncated Maclaurin series; accurate for the small angles
    /// a camera's field of view produces.
    pub fn sin_approx(self) -> (r: Fx)
        ensures
            r == fx_sin_series(self),
    {
        let x2 = self.mul(self);
        let x3 = x2.mul(self);
        let x5 = x3.mul(x2);
        let x7 = x5.mul(x2);
        self.sub(x3.div(Fx::from_int(6))).add(x5.div(Fx::from_int(120))).sub(
            x7.div(Fx::from_int(5040)),
        )
    }

    /// Cosine by a truncated Maclaurin series.
    pub fn cos_approx(self) -> (r: Fx)
        ensures
            r == fx_cos_series(self),
    {
        let x2 = self.mul(self);
        let x4 = x2.mul(x2);
        let x6 = x4.mul(x2);
        Fx::one().sub(x2.div(Fx::from_int(2))).add(x4.div(Fx::from_int(24))).sub(
            x6.div(Fx::from_int(720)),
        )
    }

    /// Tangent as the quotient of the sine and cosine series.
    pub fn tan_approx(self) -> (r: Fx)
        ensures
            r == fx_tan_series(self),
    {
        self.sin_approx().div(self.cos_approx())
    }

    /// Degrees to radians.
    pub fn to_radians(self) -> (r: Fx)
        ensures
            r == fx_to_radians(self),
    {
        self.mul(Fx { m: FX_PI }).div(Fx::from_int(180))
    }
}

/// The product of two nonnegative scalars is nonnegative.
pub proof fn lemma_mul_m_nonneg(a: int, b: int)
    requires
        a >= 0,
        b >= 0,
    ensures
        fx_mul_m(a, b) >= 0,
{
    assert(a * b >= 0) by (nonlinear_arith)
        requires
            a >= 0,
            b >= 0,
    {}
}

/// The square of any mantissa is nonnegative.
pub proof fn lemma_mul_m_nonneg_square(a: int)
    ensures
        fx_mul_m(a, a) >= 0,
{
    assert(a * a >= 0) by (nonlinear_arith) {}
}

/// Multiplying a mantissa by the scalar 1 is exact.
pub proof fn lemma_mul_m_one(a: int)
    requires
        i64::MIN <= a <= i64::MAX,
    ensures
        fx_mul_m(a, FX_ONE as int) == a,
{
    if a >= 0 {
        assert((a * 65536) / 65536 == a) by (nonlinear_arith)
            requires
                a >= 0,
        {}
    } else {
        assert(((-(a * 65536)) / 65536) == -a) by (nonlinear_arith)
            requires
                a < 0,
        {}
    }
}

/// Multiplying any mantissa by zero gives zero.
pub proof fn lemma_mul_m_zero(a: int)
    ensures
        fx_mul_m(a, 0) == 0,
        fx_mul_m(0, a) == 0,
{
}

/// Truncating division by a positive divisor is monotone in the dividend.
pub proof fn lemma_div_trunc_ordered(a1: int, a2: int, b: int)
    requires
        b > 0,
        a1 <= a2,
    ensures
        div_trunc(a1, b) <= div_trunc(a2, b),
{
    assert(div_trunc(a1, b) <= div_trunc(a2, b)) by (nonlinear_arith)
        requires
            b > 0,
            a1 <= a2,
            div_trunc(a1, b) == (if a1 >= 0 { a1 / b } else { -((-a1) / b) }),
            div_trunc(a2, b) == (if a2 >= 0 { a2 / b } else { -((-a2) / b) }),
    {}
}

} // verus!
