//! Signed 16.16 fixed-point scalars.
//!
//! Every quantity of the renderer (coordinates, depths, weights, light
//! intensities) is a `Fixed`: an `i32` counting units of 1/65536. All
//! operations are total and saturate at the ends of the `i32` range, so
//! none of them can overflow or trap.

use vstd::prelude::*;
use vstd::arithmetic::div_mod::lemma_fundamental_div_mod;
use vstd::arithmetic::div_mod::lemma_fundamental_div_mod_converse;

verus! {

/// Raw units per 1.0.
pub const ONE_RAW: i32 = 65536;

/// Largest raw value.
pub const MAX_RAW: i32 = 0x7fff_ffff;

/// Smallest raw value.
pub const MIN_RAW: i32 = -0x8000_0000;

/// The nearest value of the `i32` range to `x`.
pub open spec fn sat(x: int) -> int {
    if x < -0x8000_0000 {
        -0x8000_0000
    } else if x > 0x7fff_ffff {
        0x7fff_ffff
    } else {
        x
    }
}

/// `x` is a raw value: it lies in the `i32` range, so `sat` leaves it alone.
pub open spec fn fits(x: int) -> bool {
    -0x8000_0000 <= x <= 0x7fff_ffff
}

/// `x` held between `lo` and `hi`.
pub open spec fn clamp_int(x: int, lo: int, hi: int) -> int {
    if x < lo {
        lo
    } else if x > hi {
        hi
    } else {
        x
    }
}

/// The integer square root: the largest `r` with `r * r <= n`.
pub open spec fn is_floor_sqrt(n: int, r: int) -> bool {
    0 <= r && r * r <= n && n < (r + 1) * (r + 1)
}

/// The integer square root of `n`, zero for a negative `n`.
pub open spec fn floor_sqrt(n: int) -> int {
    if n < 0 {
        0
    } else {
        choose|r: int| is_floor_sqrt(n, r)
    }
}

/// A square root is unique: two candidates for the same `n` coincide.
pub proof fn lemma_floor_sqrt_unique(n: int, r: int, s: int)
    requires
        is_floor_sqrt(n, r),
        is_floor_sqrt(n, s),
    ensures
        r == s,
{
    if r < s {
        assert((r + 1) * (r + 1) <= s * s) by (nonlinear_arith)
            requires
                0 <= r,
                r + 1 <= s,
        ;
    } else if s < r {
        assert((s + 1) * (s + 1) <= r * r) by (nonlinear_arith)
            requires
                0 <= s,
                s + 1 <= r,
        ;
    }
}

/// The floor of the quotient `n / d` for a positive divisor.
pub fn div_floor(n: i128, d: i128) -> (q: i128)
    requires
        d > 0,
        n > -0x4000_0000_0000_0000_0000_0000_0000_0000,
    ensures
        q == n as int / d as int,
{
    if n >= 0 {
        n / d
    } else {
        let m: i128 = -n;
        let qm: i128 = m / d;
        let rm: i128 = m % d;
        proof {
            lemma_fundamental_div_mod(m as int, d as int);
            assert(m as int == d as int * qm as int + rm as int);
            if rm == 0 {
                assert(n as int == (-(qm as int)) * d as int + 0) by (nonlinear_arith)
                    requires
                        m as int == d as int * qm as int + rm as int,
                        rm == 0,
                        n as int == -(m as int),
                ;
                lemma_fundamental_div_mod_converse(n as int, d as int, -(qm as int), 0);
            } else {
                assert(n as int == (-(qm as int) - 1) * d as int + (d as int - rm as int))
                    by (nonlinear_arith)
                    requires
                        m as int == d as int * qm as int + rm as int,
                        n as int == -(m as int),
                ;
                lemma_fundamental_div_mod_converse(
                    n as int,
                    d as int,
                    -(qm as int) - 1,
                    d as int - rm as int,
                );
            }
        }
        if rm == 0 {
            -qm
        } else {
            -qm - 1
        }
    }
}

/// Brings a wide intermediate back into the `i32` range.
pub fn saturate(x: i128) -> (r: i32)
    ensures
        r == sat(x as int),
{
    if x < -0x8000_0000 {
        -0x8000_0000
    } else if x > 0x7fff_ffff {
        0x7fff_ffff
    } else {
        x as i32
    }
}

/// Whatever passes for the square root of `n` is `floor_sqrt(n)`.
pub proof fn lemma_floor_sqrt_is(n: int, r: int)
    requires
        is_floor_sqrt(n, r),
    ensures
        floor_sqrt(n) == r,
{
    assert(0 <= r * r) by (nonlinear_arith);
    let chosen = choose|c: int| is_floor_sqrt(n, c);
    lemma_floor_sqrt_unique(n, r, chosen);
}

/// Every number that is not negative has a square root, and
/// `floor_sqrt` is it.
pub proof fn lemma_floor_sqrt_exists(n: int)
    requires
        0 <= n,
    ensures
        is_floor_sqrt(n, floor_sqrt(n)),
    decreases n,
{
    if n == 0 {
        lemma_floor_sqrt_is(0, 0);
    } else {
        lemma_floor_sqrt_exists(n - 1);
        let r = floor_sqrt(n - 1);
        if n < (r + 1) * (r + 1) {
            lemma_floor_sqrt_is(n, r);
        } else {
            assert((r + 1) * (r + 1) == n);
            assert(n < (r + 2) * (r + 2)) by (nonlinear_arith)
                requires
                    (r + 1) * (r + 1) == n,
                    0 <= r,
            ;
            lemma_floor_sqrt_is(n, r + 1);
        }
    }
}

/// The integer square root of `n`.
pub fn isqrt(n: u64) -> (r: u64)
    ensures
        is_floor_sqrt(n as int, r as int),
        r == floor_sqrt(n as int),
        r < 0x1_0000_0000,
{
    let mut r: u64 = 0;
    let mut step: u64 = 0x1_0000_0000;
    while step > 1
        invariant
            1 <= step <= 0x1_0000_0000,
            r + step <= 0x1_0000_0000,
            r * r <= n,
            n < (r + step) * (r + step),
        decreases step,
    {
        let half: u64 = step / 2;
        let cand: u64 = r + half;
        assert(cand * cand <= 0xffff_ffff * 0xffff_ffff) by (nonlinear_arith)
            requires
                cand <= 0xffff_ffff,
        ;
        if cand * cand <= n {
            assert((cand + (step - half)) * (cand + (step - half)) == (r + step) * (r + step))
                by (nonlinear_arith)
                requires
                    cand == r + half,
            ;
            r = cand;
            step = step - half;
        } else {
            step = half;
        }
    }
    proof {
        lemma_floor_sqrt_is(n as int, r as int);
    }
    r
}

/// The product of two raw values: the exact product, rounded down to a
/// multiple of 1/65536 and saturated.
pub open spec fn mul_raw(a: int, b: int) -> int {
    sat((a * b) / 65536)
}

/// The quotient of two raw values, rounded down and saturated; zero
/// where the divisor is zero.
pub open spec fn div_raw(a: int, b: int) -> int {
    if b > 0 {
        sat((a * 65536) / b)
    } else if b < 0 {
        sat((-a * 65536) / (-b))
    } else {
        0
    }
}

/// A signed fixed-point number with 16 fractional bits.
#[derive(Clone, Copy, Debug, PartialEq, Eq, Structural)]
pub struct Fixed {
    /// The value in units of 1/65536.
    pub raw: i32,
}

impl Fixed {
    pub open spec fn from_int_spec(n: i32) -> Fixed {
        Fixed { raw: sat(n as int * 65536) as i32 }
    }

    pub open spec fn zero_spec() -> Fixed {
        Fixed { raw: 0 }
    }

    pub open spec fn one_spec() -> Fixed {
        Fixed { raw: 65536 }
    }

    pub open spec fn add_spec(self, other: Fixed) -> Fixed {
        Fixed { raw: sat(self.raw + other.raw) as i32 }
    }

    pub open spec fn sub_spec(self, other: Fixed) -> Fixed {
        Fixed { raw: sat(self.raw - other.raw) as i32 }
    }

    pub open spec fn neg_spec(self) -> Fixed {
        Fixed { raw: sat(-self.raw) as i32 }
    }

    pub open spec fn mul_spec(self, other: Fixed) -> Fixed {
        Fixed { raw: mul_raw(self.raw as int, other.raw as int) as i32 }
    }

    pub open spec fn div_spec(self, other: Fixed) -> Fixed {
        Fixed { raw: div_raw(self.raw as int, other.raw as int) as i32 }
    }

    /// The square root of a value, rounded down; zero for a negative one.
    pub open spec fn sqrt_spec(self) -> Fixed {
        Fixed { raw: floor_sqrt(self.raw * 65536) as i32 }
    }

    pub open spec fn min_spec(self, other: Fixed) -> Fixed {
        if self.raw <= other.raw {
            self
        } else {
            other
        }
    }

    pub open spec fn max_spec(self, other: Fixed) -> Fixed {
        if self.raw >= other.raw {
            self
        } else {
            other
        }
    }

    pub open spec fn clamp_spec(self, lo: Fixed, hi: Fixed) -> Fixed {
        Fixed { raw: clamp_int(self.raw as int, lo.raw as int, hi.raw as int) as i32 }
    }

    pub open spec fn abs_spec(self) -> Fixed {
        if self.raw < 0 {
            self.neg_spec()
        } else {
            self
        }
    }

    pub open spec fn floor_spec(self) -> i32 {
        (self.raw as int / 65536) as i32
    }

    pub fn from_raw(raw: i32) -> (f: Fixed)
        ensures
            f.raw == raw,
    {
        Fixed { raw }
    }

    /// The whole number `n`, saturated.
    #[verifier::when_used_as_spec(from_int_spec)]
    pub fn from_int(n: i32) -> (f: Fixed)
        ensures
            f == Self::from_int_spec(n),
    {
        let wide: i128 = n as i128 * 65536;
        Fixed { raw: saturate(wide) }
    }

    #[verifier::when_used_as_spec(zero_spec)]
    pub fn zero() -> (f: Fixed)
        ensures
            f == Self::zero_spec(),
    {
        Fixed { raw: 0 }
    }

    #[verifier::when_used_as_spec(one_spec)]
    pub fn one() -> (f: Fixed)
        ensures
            f == Self::one_spec(),
    {
        Fixed { raw: ONE_RAW }
    }

    /// Saturating sum.
    #[verifier::when_used_as_spec(add_spec)]
    pub fn add(self, other: Fixed) -> (f: Fixed)
        ensures
            f == self.add_spec(other),
    {
        let wide: i128 = self.raw as i128 + other.raw as i128;
        Fixed { raw: saturate(wide) }
    }

    /// Saturating difference.
    #[verifier::when_used_as_spec(sub_spec)]
    pub fn sub(self, other: Fixed) -> (f: Fixed)
        ensures
            f == self.sub_spec(other),
    {
        let wide: i128 = self.raw as i128 - other.raw as i128;
        Fixed { raw: saturate(wide) }
    }

    /// Saturating negation.
    #[verifier::when_used_as_spec(neg_spec)]
    pub fn neg(self) -> (f: Fixed)
        ensures
            f == self.neg_spec(),
    {
        let wide: i128 = -(self.raw as i128);
        Fixed { raw: saturate(wide) }
    }

    /// Saturating product, rounded down.
    #[verifier::when_used_as_spec(mul_spec)]
    pub fn mul(self, other: Fixed) -> (f: Fixed)
        ensures
            f == self.mul_spec(other),
    {
        let a: i128 = self.raw as i128;
        let b: i128 = other.raw as i128;
        assert(-0x4000_0000_0000_0000 <= a * b <= 0x4000_0000_0000_0000) by (nonlinear_arith)
            requires
                -0x8000_0000 <= a <= 0x7fff_ffff,
                -0x8000_0000 <= b <= 0x7fff_ffff,
        ;
        let q: i128 = div_floor(a * b, 65536);
        Fixed { raw: saturate(q) }
    }

    /// Saturating quotient, rounded down. Division by zero gives zero.
    #[verifier::when_used_as_spec(div_spec)]
    pub fn div(self, other: Fixed) -> (f: Fixed)
        ensures
            f == self.div_spec(other),
    {
        let a: i128 = self.raw as i128;
        let b: i128 = other.raw as i128;
        if b > 0 {
            let q: i128 = div_floor(a * 65536, b);
            Fixed { raw: saturate(q) }
        } else if b < 0 {
            let q: i128 = div_floor(-a * 65536, -b);
            Fixed { raw: saturate(q) }
        } else {
            Fixed { raw: 0 }
        }
    }

    /// Square root, rounded down; zero for a negative value.
    #[verifier::when_used_as_spec(sqrt_spec)]
    pub fn sqrt(self) -> (f: Fixed)
        ensures
            f == self.sqrt_spec(),
    {
        if self.raw <= 0 {
            proof {
                if self.raw == 0 {
                    lemma_floor_sqrt_is(0, 0);
                }
            }
            Fixed { raw: 0 }
        } else {
            let n: u64 = self.raw as u64 * 65536;
            let r: u64 = isqrt(n);
            assert(r < 0x8000_0000) by {
                if r >= 0x8000_0000 {
                    assert(r * r >= 0x8000_0000 * 0x8000_0000) by (nonlinear_arith)
                        requires
                            r >= 0x8000_0000,
                    ;
                }
            }
            Fixed { raw: r as i32 }
        }
    }

    /// The smaller of two values.
    #[verifier::when_used_as_spec(min_spec)]
    pub fn min(self, other: Fixed) -> (f: Fixed)
        ensures
            f == self.min_spec(other),
    {
        if self.raw <= other.raw {
            self
        } else {
            other
        }
    }

    /// The larger of two values.
    #[verifier::when_used_as_spec(max_spec)]
    pub fn max(self, other: Fixed) -> (f: Fixed)
        ensures
            f == self.max_spec(other),
    {
        if self.raw >= other.raw {
            self
        } else {
            other
        }
    }

    /// The value held between `lo` and `hi`; `lo` wins where the two cross.
    #[verifier::when_used_as_spec(clamp_spec)]
    pub fn clamp(self, lo: Fixed, hi: Fixed) -> (f: Fixed)
        ensures
            f == self.clamp_spec(lo, hi),
    {
        if self.raw < lo.raw {
            lo
        } else if self.raw > hi.raw {
            hi
        } else {
            self
        }
    }

    /// The absolute value, saturated.
    #[verifier::when_used_as_spec(abs_spec)]
    pub fn abs(self) -> (f: Fixed)
        ensures
            f == self.abs_spec(),
    {
        if self.raw < 0 {
            self.neg()
        } else {
            self
        }
    }

    /// The largest whole number not above the value.
    #[verifier::when_used_as_spec(floor_spec)]
    pub fn floor(self) -> (n: i32)
        ensures
            n == self.floor_spec(),
            n == self.raw as int / 65536,
    {
        let q: i128 = div_floor(self.raw as i128, 65536);
        q as i32
    }
}

} // verus!
