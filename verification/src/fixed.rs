//! Saturating fixed-point scalars.
//!
//! A scalar is stored as a signed 64-bit count of `1 / FX_SCALE` units.
//! Every operation is total: results outside the representable range
//! saturate to the nearest bound, quotients round toward zero, and the
//! square root of a negative number is zero.  Each executable operation
//! is proved to return exactly the value of its specification function,
//! so everything computed from these scalars is a mathematical function
//! of its inputs.

use vstd::arithmetic::mul::lemma_mul_upper_bound;
use vstd::prelude::*;

verus! {

/// Number of raw units per whole unit: a scalar holds `raw / FX_SCALE`.
pub const FX_SCALE: i64 = 0x100_0000_0000;

/// Saturation of a mathematical integer into the `i64` range.
pub open spec fn clamp64(x: int) -> int {
    if x > i64::MAX {
        i64::MAX as int
    } else if x < i64::MIN {
        i64::MIN as int
    } else {
        x
    }
}

/// Absolute value of a mathematical integer.
pub open spec fn abs_s(x: int) -> int {
    if x >= 0 {
        x
    } else {
        -x
    }
}

/// Quotient of `x` by `d` rounded toward zero; meaningful for `d > 0`.
pub open spec fn div_trunc(x: int, d: int) -> int {
    if x >= 0 {
        x / d
    } else {
        -((-x) / d)
    }
}

/// Saturating fixed-point addition.
pub open spec fn fx_add_s(a: int, b: int) -> int {
    clamp64(a + b)
}

/// Saturating fixed-point subtraction.
pub open spec fn fx_sub_s(a: int, b: int) -> int {
    clamp64(a - b)
}

/// Saturating fixed-point negation.
pub open spec fn fx_neg_s(a: int) -> int {
    clamp64(-a)
}

/// Saturating fixed-point multiplication: the product of the two
/// represented values, rescaled with truncation toward zero.
pub open spec fn fx_mul_s(a: int, b: int) -> int {
    clamp64(div_trunc(a * b, FX_SCALE as int))
}

/// Saturating fixed-point division, zero when the divisor is zero.
pub open spec fn fx_div_s(a: int, b: int) -> int {
    if b == 0 {
        0
    } else if b > 0 {
        clamp64(div_trunc(a * (FX_SCALE as int), b))
    } else {
        clamp64(div_trunc(-(a * (FX_SCALE as int)), -b))
    }
}

/// `r` is the integer square root of `n`.
pub open spec fn is_isqrt(n: int, r: int) -> bool {
    0 <= r && r * r <= n && n < (r + 1) * (r + 1)
}

/// The integer square root of `n`, for `n >= 0`.
pub open spec fn isqrt_s(n: int) -> int {
    choose|r: int| is_isqrt(n, r)
}

/// Fixed-point square root: zero for non-positive arguments.
pub open spec fn fx_sqrt_s(a: int) -> int {
    if a <= 0 {
        0
    } else {
        isqrt_s(a * (FX_SCALE as int))
    }
}

/// Fixed-point power with a natural exponent.
pub open spec fn fx_pow_s(b: int, n: nat) -> int
    decreases n,
{
    if n == 0 {
        FX_SCALE as int
    } else {
        fx_mul_s(b, fx_pow_s(b, (n - 1) as nat))
    }
}

/// The integer square root is unique.
pub proof fn lemma_isqrt_unique(n: int, r1: int, r2: int)
    requires
        is_isqrt(n, r1),
        is_isqrt(n, r2),
    ensures
        r1 == r2,
{
    assert(!(r1 < r2)) by (nonlinear_arith)
        requires
            0 <= r1,
            0 <= r2,
            r2 * r2 <= n,
            n < (r1 + 1) * (r1 + 1),
    ;
    assert(!(r2 < r1)) by (nonlinear_arith)
        requires
            0 <= r1,
            0 <= r2,
            r1 * r1 <= n,
            n < (r2 + 1) * (r2 + 1),
    ;
}

/// The rescaled product of the signed values `a` and `b` equals the
/// quotient of their magnitudes with the sign reattached.
proof fn lemma_mul_by_magnitudes(a: int, b: int, ma: int, mb: int, q: int, neg: bool)
    requires
        ma == abs_s(a),
        mb == abs_s(b),
        q == (ma * mb) / (FX_SCALE as int),
        neg == ((a < 0) != (b < 0)),
    ensures
        fx_mul_s(a, b) == clamp64(
            if neg {
                -q
            } else {
                q
            },
        ),
{
    let p = a * b;
    assert(ma * mb == abs_s(p)) by (nonlinear_arith)
        requires
            p == a * b,
            ma == abs_s(a),
            mb == abs_s(b),
            abs_s(a) == (if a >= 0 { a } else { -a }),
            abs_s(b) == (if b >= 0 { b } else { -b }),
            abs_s(p) == (if p >= 0 { p } else { -p }),
    ;
    assert((p > 0 ==> ((a > 0 && b > 0) || (a < 0 && b < 0))) && (p < 0 ==> ((a < 0) != (b < 0)))
        && (p == 0 ==> (a == 0 || b == 0))) by (nonlinear_arith)
        requires
            p == a * b,
    ;
    let s = FX_SCALE as int;
    if p > 0 {
        assert(!neg);
        assert(abs_s(p) == p);
        assert(div_trunc(p, s) == q);
    } else if p == 0 {
        assert(abs_s(p) == 0);
        assert(q == 0int / s);
        assert(div_trunc(p, s) == 0int / s);
    } else {
        assert(neg);
        assert(abs_s(p) == -p);
        assert(div_trunc(p, s) == -((-p) / s));
        assert(div_trunc(p, s) == -q);
    }
}

/// A fixed-point scalar holding the value `raw / FX_SCALE`.
#[derive(Clone, Copy, Debug, PartialEq, Eq, Structural)]
pub struct Fx {
    pub raw: i64,
}

/// Saturation of a signed 128-bit intermediate into the raw range.
fn clamp_i128(x: i128) -> (r: i64)
    ensures
        r as int == clamp64(x as int),
{
    if x > i64::MAX as i128 {
        i64::MAX
    } else if x < i64::MIN as i128 {
        i64::MIN
    } else {
        x as i64
    }
}

/// Magnitude of a raw value, wide enough for products.
fn mag_of(a: i64) -> (r: u128)
    ensures
        r as int == abs_s(a as int),
{
    if a >= 0 {
        a as u128
    } else {
        (-(a as i128)) as u128
    }
}

/// Reattach a sign to a magnitude and saturate into the raw range.
fn signed_clamped(mag: u128, neg: bool) -> (r: i64)
    ensures
        r as int == clamp64(
            if neg {
                -(mag as int)
            } else {
                mag as int
            },
        ),
{
    if neg {
        if mag >= 0x8000_0000_0000_0000u128 {
            i64::MIN
        } else {
            -(mag as i64)
        }
    } else {
        if mag > i64::MAX as u128 {
            i64::MAX
        } else {
            mag as i64
        }
    }
}

impl Fx {
    /// The scalar with the given raw representation.
    pub fn from_raw(raw: i64) -> (r: Fx)
        ensures
            r.raw == raw,
    {
        Fx { raw }
    }

    /// The scalar nearest to the integer `v`.
    pub fn from_int(v: i64) -> (r: Fx)
        ensures
            r.raw as int == clamp64(v * (FX_SCALE as int)),
    {
        proof {
            assert(-0x8000_0000_0000_0000_0000_0000_0000 <= (v as int) * (FX_SCALE as int)
                <= 0x8000_0000_0000_0000_0000_0000_0000) by (nonlinear_arith)
                requires
                    -0x8000_0000_0000_0000 <= v as int <= 0x7fff_ffff_ffff_ffff,
                    FX_SCALE as int == 0x100_0000_0000,
            ;
        }
        let wide: i128 = (v as i128) * (FX_SCALE as i128);
        Fx { raw: clamp_i128(wide) }
    }

    /// The scalar zero.
    pub fn zero() -> (r: Fx)
        ensures
            r.raw == 0,
    {
        Fx { raw: 0 }
    }

    /// The scalar one.
    pub fn one() -> (r: Fx)
        ensures
            r.raw == FX_SCALE,
    {
        Fx { raw: FX_SCALE }
    }

    /// Saturating addition.
    pub fn add(self, other: Fx) -> (r: Fx)
        ensures
            r.raw as int == fx_add_s(self.raw as int, other.raw as int),
    {
        let wide: i128 = (self.raw as i128) + (other.raw as i128);
        Fx { raw: clamp_i128(wide) }
    }

    /// Saturating subtraction.
    pub fn sub(self, other: Fx) -> (r: Fx)
        ensures
            r.raw as int == fx_sub_s(self.raw as int, other.raw as int),
    {
        let wide: i128 = (self.raw as i128) - (other.raw as i128);
        Fx { raw: clamp_i128(wide) }
    }

    /// Saturating negation.
    pub fn neg(self) -> (r: Fx)
        ensures
            r.raw as int == fx_neg_s(self.raw as int),
    {
        let wide: i128 = -(self.raw as i128);
        Fx { raw: clamp_i128(wide) }
    }

    /// Saturating multiplication of the represented values.
    pub fn mul(self, other: Fx) -> (r: Fx)
        ensures
            r.raw as int == fx_mul_s(self.raw as int, other.raw as int),
    {
        let ma = mag_of(self.raw);
        let mb = mag_of(other.raw);
        proof {
            lemma_mul_upper_bound(ma as int, 0x8000_0000_0000_0000, mb as int, 0x8000_0000_0000_0000);
        }
        let pm: u128 = ma * mb;
        let q: u128 = pm / (FX_SCALE as u128);
        let neg = (self.raw < 0) != (other.raw < 0);
        proof {
            lemma_mul_by_magnitudes(
                self.raw as int,
                other.raw as int,
                ma as int,
                mb as int,
                q as int,
                neg,
            );
        }
        Fx { raw: signed_clamped(q, neg) }
    }

    /// Saturating division, zero when the divisor is zero.
    pub fn div(self, other: Fx) -> (r: Fx)
        ensures
            r.raw as int == fx_div_s(self.raw as int, other.raw as int),
    {
        if other.raw == 0 {
            return Fx { raw: 0 };
        }
        let ma = mag_of(self.raw);
        let mb = mag_of(other.raw);
        proof {
            lemma_mul_upper_bound(ma as int, 0x8000_0000_0000_0000, FX_SCALE as int, 0x100_0000_0000);
        }
        let num: u128 = ma * (FX_SCALE as u128);
        let q: u128 = num / mb;
        let neg = (self.raw < 0) != (other.raw < 0);
        Fx { raw: signed_clamped(q, neg) }
    }

    /// Fixed-point square root; zero for non-positive scalars.
    pub fn sqrt(self) -> (r: Fx)
        ensures
            r.raw as int == fx_sqrt_s(self.raw as int),
    {
        if self.raw <= 0 {
            return Fx { raw: 0 };
        }
        proof {
            lemma_mul_upper_bound(self.raw as int, 0x8000_0000_0000_0000, FX_SCALE as int, 0x100_0000_0000);
        }
        let n: u128 = (self.raw as u128) * (FX_SCALE as u128);
        let root = isqrt_u128(n);
        Fx { raw: root as i64 }
    }

    /// Fixed-point power with a natural exponent.
    pub fn powi(self, n: u32) -> (r: Fx)
        ensures
            r.raw as int == fx_pow_s(self.raw as int, n as nat),
    {
        let mut acc = Fx { raw: FX_SCALE };
        let mut i: u32 = 0;
        while i < n
            invariant
                i <= n,
                acc.raw as int == fx_pow_s(self.raw as int, i as nat),
            decreases n - i,
        {
            acc = self.mul(acc);
            i = i + 1;
        }
        acc
    }
}

/// The integer square root, found by bisection.
fn isqrt_u128(n: u128) -> (r: u128)
    requires
        n < 0x100_0000_0000_0000_0000_0000_0000,
    ensures
        is_isqrt(n as int, r as int),
        r as int == isqrt_s(n as int),
        r < 0x10_0000_0000_0000,
{
    let mut lo: u128 = 0;
    let mut hi: u128 = 0x10_0000_0000_0000;
    proof {
        assert(0x10_0000_0000_0000int * 0x10_0000_0000_0000int
            == 0x100_0000_0000_0000_0000_0000_0000int);
    }
    while lo + 1 < hi
        invariant
            lo < hi,
            hi <= 0x10_0000_0000_0000,
            (lo as int) * (lo as int) <= n as int,
            (n as int) < (hi as int) * (hi as int),
        decreases hi - lo,
    {
        let mid = lo + (hi - lo) / 2;
        proof {
            lemma_mul_upper_bound(mid as int, 0x10_0000_0000_0000, mid as int, 0x10_0000_0000_0000);
            assert(0x10_0000_0000_0000int * 0x10_0000_0000_0000int
                == 0x100_0000_0000_0000_0000_0000_0000int);
        }
        let sq = mid * mid;
        if sq <= n {
            lo = mid;
        } else {
            hi = mid;
        }
    }
    proof {
        assert(is_isqrt(n as int, lo as int));
        let c = isqrt_s(n as int);
        assert(is_isqrt(n as int, c));
        lemma_isqrt_unique(n as int, lo as int, c);
    }
    lo
}

} // verus!
