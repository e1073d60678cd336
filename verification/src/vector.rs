//! Three-component vectors of fixed-point numbers.

use vstd::prelude::*;
use crate::fixed::{
    div_floor, div_raw, floor_sqrt, isqrt, lemma_floor_sqrt_exists, mul_raw, sat, saturate, Fixed,
};

verus! {

/// The dot product of two vectors of raw values: the exact sum of the
/// three products, rounded down once and saturated.
pub open spec fn dot_raw(ax: int, ay: int, az: int, bx: int, by: int, bz: int) -> int {
    sat((ax * bx + ay * by + az * bz) / 65536)
}

/// The length of a vector of raw values, rounded down and saturated.
pub open spec fn length_raw(x: int, y: int, z: int) -> int {
    sat(floor_sqrt(x * x + y * y + z * z))
}

/// The product of two raw values lies within the square of the range.
pub proof fn lemma_product_bound(a: int, b: int)
    requires
        -0x8000_0000 <= a <= 0x7fff_ffff,
        -0x8000_0000 <= b <= 0x7fff_ffff,
    ensures
        -0x4000_0000_0000_0000 <= a * b <= 0x4000_0000_0000_0000,
{
    assert(-0x4000_0000_0000_0000 <= a * b <= 0x4000_0000_0000_0000) by (nonlinear_arith)
        requires
            -0x8000_0000 <= a <= 0x7fff_ffff,
            -0x8000_0000 <= b <= 0x7fff_ffff,
    ;
}

/// The length of a vector is never negative.
pub proof fn lemma_length_positive(v: Vec3)
    ensures
        v.length().raw >= 0,
{
    let n = v.x.raw * v.x.raw + v.y.raw * v.y.raw + v.z.raw * v.z.raw;
    assert(0 <= v.x.raw as int * v.x.raw as int) by (nonlinear_arith);
    assert(0 <= v.y.raw as int * v.y.raw as int) by (nonlinear_arith);
    assert(0 <= v.z.raw as int * v.z.raw as int) by (nonlinear_arith);
    lemma_floor_sqrt_exists(n);
}

/// A vector of length zero is the zero vector.
pub proof fn lemma_length_zero(v: Vec3)
    requires
        v.length().raw == 0,
    ensures
        v.x.raw == 0,
        v.y.raw == 0,
        v.z.raw == 0,
{
    let n = v.x.raw * v.x.raw + v.y.raw * v.y.raw + v.z.raw * v.z.raw;
    assert(0 <= v.x.raw as int * v.x.raw as int) by (nonlinear_arith);
    assert(0 <= v.y.raw as int * v.y.raw as int) by (nonlinear_arith);
    assert(0 <= v.z.raw as int * v.z.raw as int) by (nonlinear_arith);
    lemma_floor_sqrt_exists(n);
    let r = floor_sqrt(n);
    assert(r == 0);
    assert((r + 1) * (r + 1) == 1) by (nonlinear_arith)
        requires
            r == 0,
    ;
    assert(n < 1);
    if v.x.raw != 0 {
        assert(v.x.raw as int * v.x.raw as int >= 1) by (nonlinear_arith)
            requires
                v.x.raw != 0,
        ;
    }
    if v.y.raw != 0 {
        assert(v.y.raw as int * v.y.raw as int >= 1) by (nonlinear_arith)
            requires
                v.y.raw != 0,
        ;
    }
    if v.z.raw != 0 {
        assert(v.z.raw as int * v.z.raw as int >= 1) by (nonlinear_arith)
            requires
                v.z.raw != 0,
        ;
    }
}

/// A vector, or a point, in three dimensions.
#[derive(Clone, Copy, Debug, PartialEq, Eq, Structural)]
pub struct Vec3 {
    pub x: Fixed,
    pub y: Fixed,
    pub z: Fixed,
}

/// A pair of texture coordinates.
#[derive(Clone, Copy, Debug, PartialEq, Eq, Structural)]
pub struct Vec2 {
    pub x: Fixed,
    pub y: Fixed,
}

impl Vec3 {
    pub open spec fn add_spec(&self, o: &Vec3) -> Vec3 {
        Vec3 {
            x: Fixed { raw: sat(self.x.raw + o.x.raw) as i32 },
            y: Fixed { raw: sat(self.y.raw + o.y.raw) as i32 },
            z: Fixed { raw: sat(self.z.raw + o.z.raw) as i32 },
        }
    }

    pub open spec fn sub_spec(&self, o: &Vec3) -> Vec3 {
        Vec3 {
            x: Fixed { raw: sat(self.x.raw - o.x.raw) as i32 },
            y: Fixed { raw: sat(self.y.raw - o.y.raw) as i32 },
            z: Fixed { raw: sat(self.z.raw - o.z.raw) as i32 },
        }
    }

    pub open spec fn scale_spec(&self, s: Fixed) -> Vec3 {
        Vec3 {
            x: Fixed { raw: mul_raw(self.x.raw as int, s.raw as int) as i32 },
            y: Fixed { raw: mul_raw(self.y.raw as int, s.raw as int) as i32 },
            z: Fixed { raw: mul_raw(self.z.raw as int, s.raw as int) as i32 },
        }
    }

    pub open spec fn dot_spec(&self, o: &Vec3) -> Fixed {
        Fixed { raw: dot_raw(
            self.x.raw as int,
            self.y.raw as int,
            self.z.raw as int,
            o.x.raw as int,
            o.y.raw as int,
            o.z.raw as int,
        ) as i32 }
    }

    /// The cross product; each component is the exact difference of two
    /// products, rounded down once and saturated.
    pub open spec fn cross_spec(&self, o: &Vec3) -> Vec3 {
        Vec3 {
            x: Fixed { raw: sat((self.y.raw * o.z.raw - self.z.raw * o.y.raw) / 65536) as i32 },
            y: Fixed { raw: sat((self.z.raw * o.x.raw - self.x.raw * o.z.raw) / 65536) as i32 },
            z: Fixed { raw: sat((self.x.raw * o.y.raw - self.y.raw * o.x.raw) / 65536) as i32 },
        }
    }

    pub open spec fn length_spec(&self) -> Fixed {
        Fixed { raw: length_raw(self.x.raw as int, self.y.raw as int, self.z.raw as int) as i32 }
    }

    /// The vector divided by its length; the zero vector, and any vector
    /// too short to have a length, stays as it is.
    pub open spec fn normalize_spec(&self) -> Vec3 {
        let len = self.length_spec().raw as int;
        if len == 0 {
            *self
        } else {
            Vec3 {
                x: Fixed { raw: div_raw(self.x.raw as int, len) as i32 },
                y: Fixed { raw: div_raw(self.y.raw as int, len) as i32 },
                z: Fixed { raw: div_raw(self.z.raw as int, len) as i32 },
            }
        }
    }

    pub fn new(x: Fixed, y: Fixed, z: Fixed) -> (v: Vec3)
        ensures
            v == (Vec3 { x, y, z }),
    {
        Vec3 { x, y, z }
    }

    pub fn zero() -> (v: Vec3)
        ensures
            v == (Vec3 { x: Fixed { raw: 0 }, y: Fixed { raw: 0 }, z: Fixed { raw: 0 } }),
    {
        Vec3 { x: Fixed::zero(), y: Fixed::zero(), z: Fixed::zero() }
    }

    /// Component-wise saturating sum.
    #[verifier::when_used_as_spec(add_spec)]
    pub fn add(&self, o: &Vec3) -> (v: Vec3)
        ensures
            v == self.add_spec(o),
    {
        Vec3 { x: self.x.add(o.x), y: self.y.add(o.y), z: self.z.add(o.z) }
    }

    /// Component-wise saturating difference.
    #[verifier::when_used_as_spec(sub_spec)]
    pub fn sub(&self, o: &Vec3) -> (v: Vec3)
        ensures
            v == self.sub_spec(o),
    {
        Vec3 { x: self.x.sub(o.x), y: self.y.sub(o.y), z: self.z.sub(o.z) }
    }

    /// Every component multiplied by `s`.
    #[verifier::when_used_as_spec(scale_spec)]
    pub fn scale(&self, s: Fixed) -> (v: Vec3)
        ensures
            v == self.scale_spec(s),
    {
        Vec3 { x: self.x.mul(s), y: self.y.mul(s), z: self.z.mul(s) }
    }

    /// Dot product.
    #[verifier::when_used_as_spec(dot_spec)]
    pub fn dot(&self, o: &Vec3) -> (d: Fixed)
        ensures
            d == self.dot_spec(o),
    {
        proof {
            lemma_product_bound(self.x.raw as int, o.x.raw as int);
            lemma_product_bound(self.y.raw as int, o.y.raw as int);
            lemma_product_bound(self.z.raw as int, o.z.raw as int);
        }
        let px: i128 = self.x.raw as i128 * o.x.raw as i128;
        let py: i128 = self.y.raw as i128 * o.y.raw as i128;
        let pz: i128 = self.z.raw as i128 * o.z.raw as i128;
        Fixed { raw: saturate(div_floor(px + py + pz, 65536)) }
    }

    /// Cross product.
    #[verifier::when_used_as_spec(cross_spec)]
    pub fn cross(&self, o: &Vec3) -> (v: Vec3)
        ensures
            v == self.cross_spec(o),
    {
        proof {
            lemma_product_bound(self.y.raw as int, o.z.raw as int);
            lemma_product_bound(self.z.raw as int, o.y.raw as int);
            lemma_product_bound(self.z.raw as int, o.x.raw as int);
            lemma_product_bound(self.x.raw as int, o.z.raw as int);
            lemma_product_bound(self.x.raw as int, o.y.raw as int);
            lemma_product_bound(self.y.raw as int, o.x.raw as int);
        }
        let ax: i128 = self.x.raw as i128;
        let ay: i128 = self.y.raw as i128;
        let az: i128 = self.z.raw as i128;
        let bx: i128 = o.x.raw as i128;
        let by: i128 = o.y.raw as i128;
        let bz: i128 = o.z.raw as i128;
        Vec3 {
            x: Fixed { raw: saturate(div_floor(ay * bz - az * by, 65536)) },
            y: Fixed { raw: saturate(div_floor(az * bx - ax * bz, 65536)) },
            z: Fixed { raw: saturate(div_floor(ax * by - ay * bx, 65536)) },
        }
    }

    /// Euclidean length.
    #[verifier::when_used_as_spec(length_spec)]
    pub fn length(&self) -> (len: Fixed)
        ensures
            len == self.length_spec(),
            len.raw >= 0,
    {
        proof {
            lemma_product_bound(self.x.raw as int, self.x.raw as int);
            lemma_product_bound(self.y.raw as int, self.y.raw as int);
            lemma_product_bound(self.z.raw as int, self.z.raw as int);
            assert(0 <= self.x.raw as int * self.x.raw as int) by (nonlinear_arith);
            assert(0 <= self.y.raw as int * self.y.raw as int) by (nonlinear_arith);
            assert(0 <= self.z.raw as int * self.z.raw as int) by (nonlinear_arith);
        }
        let sx: i128 = self.x.raw as i128 * self.x.raw as i128;
        let sy: i128 = self.y.raw as i128 * self.y.raw as i128;
        let sz: i128 = self.z.raw as i128 * self.z.raw as i128;
        let sum: u64 = (sx + sy + sz) as u64;
        let root: u64 = isqrt(sum);
        Fixed { raw: saturate(root as i128) }
    }

    /// The vector scaled to unit length.
    #[verifier::when_used_as_spec(normalize_spec)]
    pub fn normalize(&self) -> (v: Vec3)
        ensures
            v == self.normalize_spec(),
    {
        let len: Fixed = self.length();
        if len.raw == 0 {
            *self
        } else {
            Vec3 { x: self.x.div(len), y: self.y.div(len), z: self.z.div(len) }
        }
    }
}

} // verus!
