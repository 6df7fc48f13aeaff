//! Fixed-point scalars: the number type every geometric quantity uses.
//!
//! A value is an `i64` count of millionths (`SCALE` raw units make one).
//! Every operation saturates at the `i64` range and truncates quotients
//! toward zero; the spec functions below state those results exactly, so
//! callers reason about the arithmetic with no slack.

use vstd::prelude::*;

verus! {

/// Raw units per one: fixed-point values carry six decimal places.
pub const SCALE: i64 = 1_000_000;

/// Clamp a mathematical integer into the `i64` range.
pub open spec fn sat64(x: int) -> int {
    if x > i64::MAX as int {
        i64::MAX as int
    } else if x < i64::MIN as int {
        i64::MIN as int
    } else {
        x
    }
}

/// Quotient rounded toward zero, for a positive divisor.
pub open spec fn rtz(n: int, d: int) -> int {
    if n >= 0 {
        n / d
    } else {
        -((-n) / d)
    }
}

/// Quotient rounded toward zero, for any nonzero divisor.
pub open spec fn qtz(n: int, d: int) -> int {
    if d < 0 {
        rtz(-n, -d)
    } else {
        rtz(n, d)
    }
}

/// A fixed-point scalar: `raw` millionths.
#[derive(Clone, Copy, PartialEq, Eq, Structural, Debug)]
pub struct Fx {
    pub raw: i64,
}

impl View for Fx {
    type V = int;

    open spec fn view(&self) -> int {
        self.raw as int
    }
}

pub open spec fn fx_add_s(a: int, b: int) -> int {
    sat64(a + b)
}

pub open spec fn fx_sub_s(a: int, b: int) -> int {
    sat64(a - b)
}

pub open spec fn fx_neg_s(a: int) -> int {
    sat64(-a)
}

pub open spec fn fx_abs_s(a: int) -> int {
    sat64(if a < 0 { -a } else { a })
}

pub open spec fn fx_mul_s(a: int, b: int) -> int {
    sat64(rtz(a * b, SCALE as int))
}

pub open spec fn fx_div_s(a: int, b: int) -> int {
    sat64(qtz(a * (SCALE as int), b))
}

pub open spec fn fx_clamp_s(x: int, lo: int, hi: int) -> int {
    if x < lo {
        lo
    } else if x > hi {
        hi
    } else {
        x
    }
}

/// The integer square root: the largest `r` with `r * r <= n`.
pub open spec fn isqrt_s(n: nat) -> nat
    decreases n,
{
    if n == 0 {
        0
    } else {
        let r = isqrt_s((n - 1) as nat);
        if (r + 1) * (r + 1) <= n {
            r + 1
        } else {
            r
        }
    }
}

/// `isqrt_s` deserves its name: its square is at most `n`, the next square above `n`.
pub proof fn lemma_isqrt_bounds(n: nat)
    ensures
        isqrt_s(n) * isqrt_s(n) <= n,
        n < (isqrt_s(n) + 1) * (isqrt_s(n) + 1),
    decreases n,
{
    if n == 0 {
        assert(isqrt_s(0) == 0);
        assert((0 + 1) * (0 + 1) == 1) by (nonlinear_arith);
    } else {
        lemma_isqrt_bounds((n - 1) as nat);
        let r = isqrt_s((n - 1) as nat);
        assert(r * r <= n - 1);
        assert(n - 1 < (r + 1) * (r + 1));
        if (r + 1) * (r + 1) <= n {
            assert(isqrt_s(n) == r + 1);
            assert(n < (r + 1 + 1) * (r + 1 + 1)) by (nonlinear_arith)
                requires
                    n >= 1,
                    r >= 0,
                    (n - 1) < (r + 1) * (r + 1),
            ;
        } else {
            assert(isqrt_s(n) == r);
        }
    }
}

/// Any `r` whose square brackets `n` is the integer square root of `n`.
pub proof fn lemma_isqrt_unique(n: nat, r: nat)
    requires
        r * r <= n,
        n < (r + 1) * (r + 1),
    ensures
        isqrt_s(n) == r,
{
    lemma_isqrt_bounds(n);
    let s = isqrt_s(n);
    assert(s == r) by (nonlinear_arith)
        requires
            r * r <= n,
            n < (r + 1) * (r + 1),
            s * s <= n,
            n < (s + 1) * (s + 1),
            r >= 0,
            s >= 0,
    ;
}

/// Square root of a fixed-point value: `isqrt` of the value scaled once more,
/// so the result is again in fixed-point units.
pub open spec fn fx_sqrt_s(x: int) -> int {
    isqrt_s(((if x >= 0 {
        x
    } else {
        0
    }) * (SCALE as int)) as nat) as int
}

/// Repeated saturating multiplication; the zeroth power is one.
pub open spec fn fx_powi_s(x: int, e: nat) -> int
    decreases e,
{
    if e == 0 {
        SCALE as int
    } else {
        fx_mul_s(x, fx_powi_s(x, (e - 1) as nat))
    }
}

/// Integer square root by bisection.
fn isqrt(n: u128) -> (r: u128)
    requires
        n < 0x40000000000000000000000000000000,
    ensures
        r as nat == isqrt_s(n as nat),
        r * r <= n,
        n < (r + 1) * (r + 1),
{
    if n == 0 {
        proof {
            assert((0 + 1) * (0 + 1) == 1) by (nonlinear_arith);
            lemma_isqrt_unique(0, 0);
        }
        return 0;
    }
    let mut lo: u128 = 0;
    let mut hi: u128 = 1u128 << 63;
    proof {
        assert((1u128 << 63) == 0x8000000000000000u128) by (bit_vector);
        assert(0x8000000000000000 * 0x8000000000000000 == 0x40000000000000000000000000000000)
            by (nonlinear_arith);
    }
    while lo + 1 < hi
        invariant
            lo < hi,
            hi <= 0x8000000000000000,
            lo * lo <= n,
            n < hi * hi,
        decreases hi - lo,
    {
        let mid: u128 = lo + (hi - lo) / 2;
        proof {
            assert(mid * mid < 0x40000000000000000000000000000000) by (nonlinear_arith)
                requires
                    mid < 0x8000000000000000,
            ;
        }
        if mid * mid <= n {
            lo = mid;
        } else {
            hi = mid;
        }
    }
    proof {
        lemma_isqrt_unique(n as nat, lo as nat);
    }
    lo
}

/// A fixed-point square is never negative.
pub proof fn lemma_fx_mul_square_nonneg(a: int)
    ensures
        fx_mul_s(a, a) >= 0,
{
    assert(a * a >= 0) by (nonlinear_arith);
    vstd::arithmetic::div_mod::lemma_div_pos_is_pos(a * a, SCALE as int);
}

/// The product of two `i64`-ranged integers stays inside the `i128` range.
proof fn lemma_i64_prod_fits(x: int, y: int)
    by (nonlinear_arith)
    requires
        i64::MIN as int <= x <= i64::MAX as int,
        i64::MIN as int <= y <= i64::MAX as int,
    ensures
        x * y <= 0x40000000000000000000000000000000,
        x * y >= -0x40000000000000000000000000000000,
{
}

/// Narrow an `i128` to an `i64`, saturating at the bounds.
fn sat_narrow(x: i128) -> (r: i64)
    ensures
        r as int == sat64(x as int),
{
    if x > i64::MAX as i128 {
        i64::MAX
    } else if x < i64::MIN as i128 {
        i64::MIN
    } else {
        x as i64
    }
}

/// Truncating division of an `i128` by a positive divisor.
fn div_trunc(n: i128, d: i128) -> (q: i128)
    requires
        d > 0,
        n > i128::MIN as int,
    ensures
        q as int == rtz(n as int, d as int),
{
    if n >= 0 {
        let un: u128 = n as u128;
        let ud: u128 = d as u128;
        let uq: u128 = un / ud;
        assert(uq <= un) by {
            vstd::arithmetic::div_mod::lemma_div_nonincreasing(un as int, ud as int);
            vstd::arithmetic::div_mod::lemma_div_pos_is_pos(un as int, ud as int);
        }
        uq as i128
    } else {
        let m: i128 = -n;
        let um: u128 = m as u128;
        let ud: u128 = d as u128;
        let uq: u128 = um / ud;
        assert(uq <= um) by {
            vstd::arithmetic::div_mod::lemma_div_nonincreasing(um as int, ud as int);
            vstd::arithmetic::div_mod::lemma_div_pos_is_pos(um as int, ud as int);
        }
        -(uq as i128)
    }
}

impl Fx {
    /// The value zero.
    pub fn zero() -> (r: Fx)
        ensures
            r@ == 0,
    {
        Fx { raw: 0 }
    }

    /// The value one.
    pub fn one() -> (r: Fx)
        ensures
            r@ == SCALE as int,
    {
        Fx { raw: SCALE }
    }

    /// The fixed-point image of an integer, saturated at the `i64` range.
    pub fn from_int(v: i64) -> (r: Fx)
        ensures
            r@ == sat64(v * (SCALE as int)),
    {
        proof {
            lemma_i64_prod_fits(v as int, SCALE as int);
        }
        let wide: i128 = (v as i128) * (SCALE as i128);
        Fx { raw: sat_narrow(wide) }
    }

    /// Saturating addition.
    pub fn add(self, other: Fx) -> (r: Fx)
        ensures
            r@ == fx_add_s(self@, other@),
    {
        let wide: i128 = self.raw as i128 + other.raw as i128;
        Fx { raw: sat_narrow(wide) }
    }

    /// Saturating subtraction.
    pub fn sub(self, other: Fx) -> (r: Fx)
        ensures
            r@ == fx_sub_s(self@, other@),
    {
        let wide: i128 = self.raw as i128 - other.raw as i128;
        Fx { raw: sat_narrow(wide) }
    }

    /// Saturating negation.
    pub fn neg(self) -> (r: Fx)
        ensures
            r@ == fx_neg_s(self@),
    {
        let wide: i128 = -(self.raw as i128);
        Fx { raw: sat_narrow(wide) }
    }

    /// Saturating absolute value.
    pub fn abs(self) -> (r: Fx)
        ensures
            r@ == fx_abs_s(self@),
    {
        if self.raw < 0 {
            self.neg()
        } else {
            self
        }
    }

    /// Saturating product, with the quotient by `SCALE` truncated toward zero.
    pub fn mul(self, other: Fx) -> (r: Fx)
        ensures
            r@ == fx_mul_s(self@, other@),
    {
        let x: i128 = self.raw as i128;
        let y: i128 = other.raw as i128;
        proof {
            lemma_i64_prod_fits(x as int, y as int);
        }
        let p: i128 = x * y;
        let q: i128 = div_trunc(p, SCALE as i128);
        Fx { raw: sat_narrow(q) }
    }

    /// Saturating quotient, truncated toward zero.
    pub fn div(self, other: Fx) -> (r: Fx)
        requires
            other@ != 0,
        ensures
            r@ == fx_div_s(self@, other@),
    {
        proof {
            lemma_i64_prod_fits(self.raw as int, SCALE as int);
        }
        let mut n: i128 = (self.raw as i128) * (SCALE as i128);
        let mut d: i128 = other.raw as i128;
        if d < 0 {
            n = -n;
            d = -d;
        }
        let q: i128 = div_trunc(n, d);
        Fx { raw: sat_narrow(q) }
    }

    /// Clamp into `[lo, hi]`.
    pub fn clamp(self, lo: Fx, hi: Fx) -> (r: Fx)
        requires
            lo@ <= hi@,
        ensures
            r@ == fx_clamp_s(self@, lo@, hi@),
    {
        if self.raw < lo.raw {
            lo
        } else if self.raw > hi.raw {
            hi
        } else {
            self
        }
    }

    /// Square root of a nonnegative value, rounded down to a raw unit.
    pub fn sqrt(self) -> (r: Fx)
        requires
            self@ >= 0,
        ensures
            r@ == fx_sqrt_s(self@),
            r@ >= 0,
    {
        let n: u128 = (self.raw as u128) * (SCALE as u128);
        let root: u128 = isqrt(n);
        proof {
            assert(root < 0x8000000000000000) by (nonlinear_arith)
                requires
                    root * root <= n,
                    n < 0x40000000000000000000000000000000,
            ;
        }
        Fx { raw: root as i64 }
    }

    /// The `e`-th power by repeated saturating multiplication.
    pub fn powi(self, e: u32) -> (r: Fx)
        ensures
            r@ == fx_powi_s(self@, e as nat),
    {
        let mut acc: Fx = Fx { raw: SCALE };
        let mut i: u32 = 0;
        while i < e
            invariant
                i <= e,
                acc@ == fx_powi_s(self@, i as nat),
            decreases e - i,
        {
            acc = self.mul(acc);
            i = i + 1;
        }
        acc
    }

}

} // verus!
