//! Signed Q-format fixed-point scalars and numerator/denominator fractions.
//!
//! A `Fixed<N>` holds a signed 16-bit count of units of `1/N`; the logical
//! value `1` is represented by `N` counts.  Multiplication and division
//! widen to 64 bits, apply the denominator once, and narrow back to 16
//! bits, saturating to the default value `0` on overflow.  Callers must
//! not rely on that sentinel for wrap-around arithmetic: reaching it
//! indicates a configuration error, and the contracts below expose it
//! through `sat16`.

use vstd::arithmetic::div_mod::{lemma_div_nonincreasing, lemma_div_pos_is_pos};
use vstd::math::abs;
use vstd::prelude::*;

verus! {

/// Unit of the force scalar: logical `1.0` is `10_000` counts.
pub const FORCE_LOGICAL_MAX: u64 = 10_000;

/// Unit of the steering-axis scalar: logical `1.0` is `10_000` counts.
pub const STEERING_LOGICAL_MAX: u64 = 10_000;

/// Force scalar in signed Q-format; full-scale motor torque is `±1.0`.
pub type FixedFFB = Fixed<FORCE_LOGICAL_MAX>;

/// Steering-axis scalar in signed Q-format; full axis travel is `±1.0`.
pub type FixedSteering = Fixed<STEERING_LOGICAL_MAX>;

/// Narrowing of a widened 64-bit intermediate back to 16 bits: values
/// outside the `i16` range collapse to the default `0`.
pub open spec fn sat16(v: int) -> int {
    if -0x8000 <= v <= 0x7fff {
        v
    } else {
        0
    }
}

/// Truncating (round-toward-zero) division, as the machine performs it on
/// signed integers; spec-mode `/` alone would round toward minus infinity
/// for mixed signs.
pub open spec fn tdiv(a: int, b: int) -> int
    recommends
        b != 0,
{
    if (a >= 0) == (b > 0) {
        abs(a) as int / abs(b) as int
    } else {
        -(abs(a) as int / abs(b) as int)
    }
}

/// Exact narrowing used by every widened operation.
fn narrow16(v: i64) -> (r: i16)
    ensures
        r as int == sat16(v as int),
{
    if -0x8000 <= v && v <= 0x7fff {
        v as i16
    } else {
        0
    }
}

/// Widened scaling `v * num / den` with truncating division and
/// saturating narrowing, shared by every `Fixed` operation.
fn scale16(v: i16, num: i64, den: i64) -> (r: i16)
    requires
        den != 0,
        -0x7fff_ffff_ffff_ffff <= den,
        -0x10_0000_0000 <= num <= 0x10_0000_0000,
    ensures
        r as int == sat16(tdiv(v as int * num as int, den as int)),
{
    let vneg: bool = v < 0;
    let va: i64 = if v >= 0 {
        v as i64
    } else {
        -(v as i64)
    };
    let nneg: bool = num < 0;
    let na: i64 = if num >= 0 {
        num
    } else {
        -num
    };
    let dneg: bool = den < 0;
    let da: i64 = if den > 0 {
        den
    } else {
        -den
    };
    proof {
        assert(va * na <= 0x8000 * 0x10_0000_0000 && 0 <= va * na) by (nonlinear_arith)
            requires
                0 <= va <= 0x8000,
                0 <= na <= 0x10_0000_0000,
        ;
    }
    let pa: i64 = va * na;
    proof {
        lemma_div_pos_is_pos(pa as int, da as int);
        lemma_div_nonincreasing(pa as int, da as int);
    }
    let qa: i64 = pa / da;
    let q: i64 = if (vneg != nneg) != dneg {
        -qa
    } else {
        qa
    };
    proof {
        let vi = v as int;
        let ni = num as int;
        let p = vi * ni;
        assert(((-vi) * ni == -(vi * ni)) && (vi * (-ni) == -(vi * ni)) && ((-vi) * (-ni) == vi
            * ni)) by (nonlinear_arith);
        assert(vi > 0 && ni > 0 ==> vi * ni > 0) by (nonlinear_arith);
        assert(vi < 0 && ni < 0 ==> vi * ni > 0) by (nonlinear_arith);
        assert(vi > 0 && ni < 0 ==> vi * ni < 0) by (nonlinear_arith);
        assert(vi < 0 && ni > 0 ==> vi * ni < 0) by (nonlinear_arith);
        assert(pa == abs(p));
        assert(qa == abs(p) as int / abs(den as int) as int);
        assert(q as int == tdiv(p, den as int));
    }
    narrow16(q)
}

/// Signed 16-bit scalar counting units of `1/N`.
#[derive(Clone, Copy, PartialEq, Eq, Debug)]
pub struct Fixed<const N: u64>(pub i16);

impl<const N: u64> View for Fixed<N> {
    type V = int;

    open spec fn view(&self) -> int {
        self.0 as int
    }
}

impl<const N: u64> Fixed<N> {
    /// Wraps a raw count of `1/N` units.
    pub fn new(value: i16) -> (r: Self)
        ensures
            r@ == value as int,
    {
        Fixed(value)
    }

    /// The raw count of `1/N` units.
    pub fn value(&self) -> (r: i16)
        ensures
            r as int == self@,
    {
        self.0
    }

    /// The logical value `1.0`, that is `N` counts.
    pub fn one() -> (r: Self)
        requires
            1 <= N <= 0x7fff,
        ensures
            r@ == N as int,
    {
        Fixed(N as i16)
    }

    /// Rescales into units of `1/M`, widening and narrowing saturated.
    pub fn convert<const M: u64>(self) -> (r: Fixed<M>)
        requires
            1 <= N <= 0x7fff,
            1 <= M <= 0x7fff,
        ensures
            r@ == sat16(tdiv(self@ * M as int, N as int)),
    {
        Fixed(scale16(self.0, M as i64, N as i64))
    }

    /// The fraction `(self * denom / N, denom)`.
    pub fn to_frac(self, denom: i16) -> (r: Frac<i16>)
        requires
            1 <= N <= 0x7fff,
        ensures
            r.0 as int == sat16(tdiv(self@ * denom as int, N as int)),
            r.1 == denom,
    {
        Frac(scale16(self.0, denom as i64, N as i64), denom)
    }

    /// Componentwise sum; the caller keeps the result in range.
    pub fn add(self, rhs: Self) -> (r: Self)
        requires
            -0x8000 <= self@ + rhs@ <= 0x7fff,
        ensures
            r@ == self@ + rhs@,
    {
        Fixed(self.0 + rhs.0)
    }

    /// Componentwise difference; the caller keeps the result in range.
    pub fn sub(self, rhs: Self) -> (r: Self)
        requires
            -0x8000 <= self@ - rhs@ <= 0x7fff,
        ensures
            r@ == self@ - rhs@,
    {
        Fixed(self.0 - rhs.0)
    }

    /// Negation; the minimum value has no 16-bit negation.
    pub fn neg(self) -> (r: Self)
        requires
            self@ != -0x8000,
        ensures
            r@ == -self@,
    {
        Fixed(-self.0)
    }

    /// Q-format product: widen, divide by `N` once, narrow saturated.
    pub fn mul(self, rhs: Self) -> (r: Self)
        requires
            1 <= N <= 0x7fff,
        ensures
            r@ == sat16(tdiv(self@ * rhs@, N as int)),
    {
        Fixed(scale16(self.0, rhs.0 as i64, N as i64))
    }

    /// Q-format quotient: widen, multiply by `N` once, narrow saturated.
    pub fn div(self, rhs: Self) -> (r: Self)
        requires
            1 <= N <= 0x7fff,
            rhs@ != 0,
        ensures
            r@ == sat16(tdiv(self@ * N as int, rhs@)),
    {
        Fixed(scale16(self.0, N as i64, rhs.0 as i64))
    }

    /// Scales by a non-negative 32-bit fraction, saturating on overflow.
    pub fn mul_frac_u32(self, rhs: Frac<u32>) -> (r: Self)
        requires
            rhs.1 > 0,
        ensures
            r@ == sat16(tdiv(self@ * rhs.0 as int, rhs.1 as int)),
    {
        Fixed(scale16(self.0, rhs.0 as i64, rhs.1 as i64))
    }

    /// Scales by a signed 64-bit fraction, saturating on overflow.
    pub fn mul_frac_i64(self, rhs: Frac<i64>) -> (r: Self)
        requires
            rhs.1 > 0,
            -0x10_0000_0000 <= rhs.0 <= 0x10_0000_0000,
        ensures
            r@ == sat16(tdiv(self@ * rhs.0 as int, rhs.1 as int)),
    {
        Fixed(scale16(self.0, rhs.0, rhs.1))
    }

    /// The smaller of the two scalars.
    pub fn min(self, rhs: Self) -> (r: Self)
        ensures
            r@ == if self@ <= rhs@ { self@ } else { rhs@ },
    {
        if self.0 <= rhs.0 {
            self
        } else {
            rhs
        }
    }

    /// The larger of the two scalars.
    pub fn max(self, rhs: Self) -> (r: Self)
        ensures
            r@ == if self@ >= rhs@ { self@ } else { rhs@ },
    {
        if self.0 >= rhs.0 {
            self
        } else {
            rhs
        }
    }

    /// Clamps into `[lo, hi]`.
    pub fn clamp(self, lo: Self, hi: Self) -> (r: Self)
        requires
            lo@ <= hi@,
        ensures
            r@ == if self@ < lo@ {
                lo@
            } else if self@ > hi@ {
                hi@
            } else {
                self@
            },
    {
        if self.0 < lo.0 {
            lo
        } else if self.0 > hi.0 {
            hi
        } else {
            self
        }
    }
}

impl<const N: u64> Default for Fixed<N> {
    /// The zero scalar.
    fn default() -> (r: Self)
        ensures
            r@ == 0,
    {
        Fixed(0)
    }
}

/// A numerator/denominator pair that scales a `Fixed` without an
/// intermediate rounding step.
#[derive(Clone, Copy, PartialEq, Eq, Debug)]
pub struct Frac<T: Copy>(pub T, pub T);

/// Fraction of signed 16-bit parts.
pub type Frac16 = Frac<i16>;

/// Fraction of unsigned 32-bit parts.
pub type FracU32 = Frac<u32>;

/// Fraction of signed 64-bit parts, wide enough for waveform ratios.
pub type FracI64 = Frac<i64>;

impl<T: Copy> Frac<T> {
    /// Pairs a numerator with a denominator.
    pub fn new(numerator: T, denominator: T) -> (r: Self)
        ensures
            r.0 == numerator,
            r.1 == denominator,
    {
        Frac(numerator, denominator)
    }

    /// The numerator.
    pub fn value(&self) -> (r: T)
        ensures
            r == self.0,
    {
        self.0
    }

    /// The denominator.
    pub fn denom(&self) -> (r: T)
        ensures
            r == self.1,
    {
        self.1
    }
}

impl Frac<i16> {
    /// Evaluates the fraction in units of `1/M`, narrowing saturated.
    pub fn convert<const M: u64>(self) -> (r: Fixed<M>)
        requires
            1 <= M <= 0x7fff,
            self.1 != 0,
        ensures
            r@ == sat16(tdiv(self.0 as int * M as int, self.1 as int)),
    {
        Fixed(scale16(self.0, M as i64, self.1 as i64))
    }

    /// Negates the numerator.
    pub fn neg(self) -> (r: Self)
        requires
            self.0 != i16::MIN,
        ensures
            r.0 == -self.0 as int,
            r.1 == self.1,
    {
        Frac(-self.0, self.1)
    }
}

impl Frac<i64> {
    /// Negates the numerator.
    pub fn neg(self) -> (r: Self)
        requires
            self.0 != i64::MIN,
        ensures
            r.0 == -self.0 as int,
            r.1 == self.1,
    {
        Frac(-self.0, self.1)
    }
}

/// Clamping of a mathematical integer into a closed interval.
pub open spec fn clamp_i(v: int, lo: int, hi: int) -> int
    recommends
        lo <= hi,
{
    if v < lo {
        lo
    } else if v > hi {
        hi
    } else {
        v
    }
}

/// Truncating division on 64-bit values, exposed for the widened
/// intermediate steps of the force kernels.
pub fn tdiv64(a: i64, b: i64) -> (q: i64)
    requires
        b > 0,
        a > i64::MIN,
    ensures
        q == tdiv(a as int, b as int),
        -abs(a as int) <= q <= abs(a as int),
{
    if a >= 0 {
        proof {
            lemma_div_pos_is_pos(a as int, b as int);
            lemma_div_nonincreasing(a as int, b as int);
        }
        a / b
    } else {
        proof {
            lemma_div_pos_is_pos(-(a as int), b as int);
            lemma_div_nonincreasing(-(a as int), b as int);
        }
        -((-a) / b)
    }
}

/// Scaling by a fraction of magnitude at most one never grows a value:
/// `|a * num / den| <= |a|`.
pub proof fn lemma_frac_shrink(a: int, num: int, den: int)
    requires
        den >= 1,
        -den <= num <= den,
    ensures
        -abs(a) <= tdiv(a * num, den) <= abs(a),
{
    let p = a * num;
    assert(((-a) * num == -(a * num)) && (a * (-num) == -(a * num)) && ((-a) * (-num) == a * num))
        by (nonlinear_arith);
    assert(a > 0 && num > 0 ==> a * num > 0) by (nonlinear_arith);
    assert(a < 0 && num < 0 ==> a * num > 0) by (nonlinear_arith);
    assert(a > 0 && num < 0 ==> a * num < 0) by (nonlinear_arith);
    assert(a < 0 && num > 0 ==> a * num < 0) by (nonlinear_arith);
    assert(abs(a) * abs(num) == abs(p));
    assert(abs(a) * abs(num) <= abs(a) * den) by (nonlinear_arith)
        requires
            abs(num) <= den,
            0 <= abs(a),
    ;
    vstd::arithmetic::div_mod::lemma_div_is_ordered(abs(p) as int, abs(a) * den, den);
    vstd::arithmetic::div_mod::lemma_div_by_multiple(abs(a) as int, den);
    vstd::arithmetic::div_mod::lemma_div_pos_is_pos(abs(p) as int, den);
}

/// The bound carried through one Q-format multiply: scaling a value in
/// `[-10000, 10000]` by a factor in the same range keeps it there.
pub proof fn lemma_unit_mul_bound(a: int, b: int)
    requires
        -10000 <= a <= 10000,
        -10000 <= b <= 10000,
    ensures
        -10000 <= tdiv(a * b, 10000) <= 10000,
{
    lemma_frac_shrink(a, b, 10000);
}

} // verus!
