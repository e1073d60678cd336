//! Homogeneous vectors and the 4x4 and 3x3 matrices of the vertex stage.
//!
//! Every entry of a product is one dot product: the exact sum of the
//! products, rounded down once and saturated.

use vstd::prelude::*;
use crate::fixed::{div_floor, sat, saturate, Fixed};
use crate::vector::{lemma_product_bound, Vec3};

verus! {

/// The dot product of two four-component vectors of raw values.
pub open spec fn dot4_raw(
    ax: int,
    ay: int,
    az: int,
    aw: int,
    bx: int,
    by: int,
    bz: int,
    bw: int,
) -> int {
    sat((ax * bx + ay * by + az * bz + aw * bw) / 65536)
}

/// A vector in homogeneous coordinates.
#[derive(Clone, Copy, Debug, PartialEq, Eq, Structural)]
pub struct Vec4 {
    pub x: Fixed,
    pub y: Fixed,
    pub z: Fixed,
    pub w: Fixed,
}

impl Vec4 {
    pub open spec fn dot_spec(&self, o: &Vec4) -> Fixed {
        Fixed {
            raw: dot4_raw(
                self.x.raw as int,
                self.y.raw as int,
                self.z.raw as int,
                self.w.raw as int,
                o.x.raw as int,
                o.y.raw as int,
                o.z.raw as int,
                o.w.raw as int,
            ) as i32,
        }
    }

    /// The point `p` in homogeneous coordinates.
    pub open spec fn from_point_spec(p: &Vec3) -> Vec4 {
        Vec4 { x: p.x, y: p.y, z: p.z, w: Fixed { raw: 65536 } }
    }

    pub fn new(x: Fixed, y: Fixed, z: Fixed, w: Fixed) -> (v: Vec4)
        ensures
            v == (Vec4 { x, y, z, w }),
    {
        Vec4 { x, y, z, w }
    }

    /// The point `p` with `w = 1`.
    #[verifier::when_used_as_spec(from_point_spec)]
    pub fn from_point(p: &Vec3) -> (v: Vec4)
        ensures
            v == Self::from_point_spec(p),
    {
        Vec4 { x: p.x, y: p.y, z: p.z, w: Fixed::one() }
    }

    /// Dot product.
    #[verifier::when_used_as_spec(dot_spec)]
    pub fn dot(&self, o: &Vec4) -> (d: Fixed)
        ensures
            d == self.dot_spec(o),
    {
        proof {
            lemma_product_bound(self.x.raw as int, o.x.raw as int);
            lemma_product_bound(self.y.raw as int, o.y.raw as int);
            lemma_product_bound(self.z.raw as int, o.z.raw as int);
            lemma_product_bound(self.w.raw as int, o.w.raw as int);
        }
        let px: i128 = self.x.raw as i128 * o.x.raw as i128;
        let py: i128 = self.y.raw as i128 * o.y.raw as i128;
        let pz: i128 = self.z.raw as i128 * o.z.raw as i128;
        let pw: i128 = self.w.raw as i128 * o.w.raw as i128;
        Fixed { raw: saturate(div_floor(px + py + pz + pw, 65536)) }
    }
}

/// A 4x4 matrix, held by rows.
#[derive(Clone, Copy, Debug, PartialEq, Eq, Structural)]
pub struct Mat4 {
    pub r0: Vec4,
    pub r1: Vec4,
    pub r2: Vec4,
    pub r3: Vec4,
}

impl Mat4 {
    pub open spec fn identity_spec() -> Mat4 {
        Mat4 {
            r0: Vec4 { x: Fixed { raw: 65536 }, y: Fixed { raw: 0 }, z: Fixed { raw: 0 }, w: Fixed { raw: 0 } },
            r1: Vec4 { x: Fixed { raw: 0 }, y: Fixed { raw: 65536 }, z: Fixed { raw: 0 }, w: Fixed { raw: 0 } },
            r2: Vec4 { x: Fixed { raw: 0 }, y: Fixed { raw: 0 }, z: Fixed { raw: 65536 }, w: Fixed { raw: 0 } },
            r3: Vec4 { x: Fixed { raw: 0 }, y: Fixed { raw: 0 }, z: Fixed { raw: 0 }, w: Fixed { raw: 65536 } },
        }
    }

    /// The first column.
    pub open spec fn c0(&self) -> Vec4 {
        Vec4 { x: self.r0.x, y: self.r1.x, z: self.r2.x, w: self.r3.x }
    }

    /// The second column.
    pub open spec fn c1(&self) -> Vec4 {
        Vec4 { x: self.r0.y, y: self.r1.y, z: self.r2.y, w: self.r3.y }
    }

    /// The third column.
    pub open spec fn c2(&self) -> Vec4 {
        Vec4 { x: self.r0.z, y: self.r1.z, z: self.r2.z, w: self.r3.z }
    }

    /// The fourth column.
    pub open spec fn c3(&self) -> Vec4 {
        Vec4 { x: self.r0.w, y: self.r1.w, z: self.r2.w, w: self.r3.w }
    }

    /// The matrix applied to a vector.
    pub open spec fn mul_vec_spec(&self, v: &Vec4) -> Vec4 {
        Vec4 { x: self.r0.dot(v), y: self.r1.dot(v), z: self.r2.dot(v), w: self.r3.dot(v) }
    }

    /// One row of a matrix product: `row` times the matrix `o`.
    pub open spec fn row_times(row: &Vec4, o: &Mat4) -> Vec4 {
        Vec4 { x: row.dot(&o.c0()), y: row.dot(&o.c1()), z: row.dot(&o.c2()), w: row.dot(&o.c3()) }
    }

    /// The matrix product `self * o`.
    pub open spec fn mul_spec(&self, o: &Mat4) -> Mat4 {
        Mat4 {
            r0: Self::row_times(&self.r0, o),
            r1: Self::row_times(&self.r1, o),
            r2: Self::row_times(&self.r2, o),
            r3: Self::row_times(&self.r3, o),
        }
    }

    /// The upper left 3x3 block.
    pub open spec fn upper_left_spec(&self) -> Mat3 {
        Mat3 {
            r0: Vec3 { x: self.r0.x, y: self.r0.y, z: self.r0.z },
            r1: Vec3 { x: self.r1.x, y: self.r1.y, z: self.r1.z },
            r2: Vec3 { x: self.r2.x, y: self.r2.y, z: self.r2.z },
        }
    }

    pub fn new(r0: Vec4, r1: Vec4, r2: Vec4, r3: Vec4) -> (m: Mat4)
        ensures
            m == (Mat4 { r0, r1, r2, r3 }),
    {
        Mat4 { r0, r1, r2, r3 }
    }

    #[verifier::when_used_as_spec(identity_spec)]
    pub fn identity() -> (m: Mat4)
        ensures
            m == Self::identity_spec(),
    {
        let o: Fixed = Fixed::one();
        let z: Fixed = Fixed::zero();
        Mat4 {
            r0: Vec4 { x: o, y: z, z, w: z },
            r1: Vec4 { x: z, y: o, z, w: z },
            r2: Vec4 { x: z, y: z, z: o, w: z },
            r3: Vec4 { x: z, y: z, z, w: o },
        }
    }

    /// The matrix applied to a vector.
    #[verifier::when_used_as_spec(mul_vec_spec)]
    pub fn mul_vec(&self, v: &Vec4) -> (out: Vec4)
        ensures
            out == self.mul_vec_spec(v),
    {
        Vec4 { x: self.r0.dot(v), y: self.r1.dot(v), z: self.r2.dot(v), w: self.r3.dot(v) }
    }

    /// The matrix product `self * o`.
    #[verifier::when_used_as_spec(mul_spec)]
    pub fn mul(&self, o: &Mat4) -> (m: Mat4)
        ensures
            m == self.mul_spec(o),
    {
        let c0 = Vec4 { x: o.r0.x, y: o.r1.x, z: o.r2.x, w: o.r3.x };
        let c1 = Vec4 { x: o.r0.y, y: o.r1.y, z: o.r2.y, w: o.r3.y };
        let c2 = Vec4 { x: o.r0.z, y: o.r1.z, z: o.r2.z, w: o.r3.z };
        let c3 = Vec4 { x: o.r0.w, y: o.r1.w, z: o.r2.w, w: o.r3.w };
        Mat4 {
            r0: Vec4 { x: self.r0.dot(&c0), y: self.r0.dot(&c1), z: self.r0.dot(&c2), w: self.r0.dot(&c3) },
            r1: Vec4 { x: self.r1.dot(&c0), y: self.r1.dot(&c1), z: self.r1.dot(&c2), w: self.r1.dot(&c3) },
            r2: Vec4 { x: self.r2.dot(&c0), y: self.r2.dot(&c1), z: self.r2.dot(&c2), w: self.r2.dot(&c3) },
            r3: Vec4 { x: self.r3.dot(&c0), y: self.r3.dot(&c1), z: self.r3.dot(&c2), w: self.r3.dot(&c3) },
        }
    }

    /// The upper left 3x3 block: the rotation and scale of a transform.
    #[verifier::when_used_as_spec(upper_left_spec)]
    pub fn upper_left(&self) -> (m: Mat3)
        ensures
            m == self.upper_left_spec(),
    {
        Mat3 {
            r0: Vec3 { x: self.r0.x, y: self.r0.y, z: self.r0.z },
            r1: Vec3 { x: self.r1.x, y: self.r1.y, z: self.r1.z },
            r2: Vec3 { x: self.r2.x, y: self.r2.y, z: self.r2.z },
        }
    }
}

/// The 2x2 determinant `a * d - b * c` of raw values, exact, in units of
/// 2^-32.
pub open spec fn minor_raw(a: int, b: int, c: int, d: int) -> int {
    a * d - b * c
}

/// The determinant of a 3x3 matrix of raw values, exact, in units of 2^-48.
pub open spec fn det3_raw(m: Mat3) -> int {
    m.r0.x.raw * minor_raw(
        m.r1.y.raw as int,
        m.r1.z.raw as int,
        m.r2.y.raw as int,
        m.r2.z.raw as int,
    ) - m.r0.y.raw * minor_raw(
        m.r1.x.raw as int,
        m.r1.z.raw as int,
        m.r2.x.raw as int,
        m.r2.z.raw as int,
    ) + m.r0.z.raw * minor_raw(
        m.r1.x.raw as int,
        m.r1.y.raw as int,
        m.r2.x.raw as int,
        m.r2.y.raw as int,
    )
}

/// One entry of an inverse: the cofactor `cof` (in units of 2^-32) over
/// the determinant `det` (in units of 2^-48, not zero), rounded down and
/// saturated.
pub open spec fn cofactor_over_det(cof: int, det: int) -> int {
    if det > 0 {
        sat((cof * 0x1_0000_0000) / det)
    } else {
        sat((-cof * 0x1_0000_0000) / (-det))
    }
}

/// A 3x3 matrix, held by rows.
#[derive(Clone, Copy, Debug, PartialEq, Eq, Structural)]
pub struct Mat3 {
    pub r0: Vec3,
    pub r1: Vec3,
    pub r2: Vec3,
}

fn minor(a: Fixed, b: Fixed, c: Fixed, d: Fixed) -> (m: i128)
    ensures
        m == minor_raw(a.raw as int, b.raw as int, c.raw as int, d.raw as int),
        -0x8000_0000_0000_0000 <= m <= 0x8000_0000_0000_0000,
{
    proof {
        lemma_product_bound(a.raw as int, d.raw as int);
        lemma_product_bound(b.raw as int, c.raw as int);
    }
    a.raw as i128 * d.raw as i128 - b.raw as i128 * c.raw as i128
}

fn entry_over_det(cof: i128, det: i128) -> (e: Fixed)
    requires
        -0x8000_0000_0000_0000 <= cof <= 0x8000_0000_0000_0000,
        det != 0,
        -0x2_0000_0000_0000_0000_0000_0000 <= det <= 0x2_0000_0000_0000_0000_0000_0000,
    ensures
        e.raw == cofactor_over_det(cof as int, det as int),
{
    if det > 0 {
        Fixed { raw: saturate(div_floor(cof * 0x1_0000_0000, det)) }
    } else {
        Fixed { raw: saturate(div_floor(-cof * 0x1_0000_0000, -det)) }
    }
}

impl Mat3 {
    pub open spec fn identity_spec() -> Mat3 {
        Mat3 {
            r0: Vec3 { x: Fixed { raw: 65536 }, y: Fixed { raw: 0 }, z: Fixed { raw: 0 } },
            r1: Vec3 { x: Fixed { raw: 0 }, y: Fixed { raw: 65536 }, z: Fixed { raw: 0 } },
            r2: Vec3 { x: Fixed { raw: 0 }, y: Fixed { raw: 0 }, z: Fixed { raw: 65536 } },
        }
    }

    pub open spec fn transpose_spec(&self) -> Mat3 {
        Mat3 {
            r0: Vec3 { x: self.r0.x, y: self.r1.x, z: self.r2.x },
            r1: Vec3 { x: self.r0.y, y: self.r1.y, z: self.r2.y },
            r2: Vec3 { x: self.r0.z, y: self.r1.z, z: self.r2.z },
        }
    }

    pub open spec fn mul_vec_spec(&self, v: &Vec3) -> Vec3 {
        Vec3 { x: self.r0.dot(v), y: self.r1.dot(v), z: self.r2.dot(v) }
    }

    /// The matrix has no inverse: its determinant is exactly zero.
    pub open spec fn is_singular(&self) -> bool {
        det3_raw(*self) == 0
    }

    /// The inverse by cofactors: entry `(i, j)` is the cofactor of entry
    /// `(j, i)` over the determinant. `None` for a singular matrix.
    pub open spec fn try_inverse_spec(&self) -> Option<Mat3> {
        let det = det3_raw(*self);
        let (a, b, c) = (self.r0.x.raw as int, self.r0.y.raw as int, self.r0.z.raw as int);
        let (d, e, f) = (self.r1.x.raw as int, self.r1.y.raw as int, self.r1.z.raw as int);
        let (g, h, i) = (self.r2.x.raw as int, self.r2.y.raw as int, self.r2.z.raw as int);
        if det == 0 {
            None
        } else {
            Some(
                Mat3 {
                    r0: Vec3 {
                        x: Fixed { raw: cofactor_over_det(minor_raw(e, f, h, i), det) as i32 },
                        y: Fixed { raw: cofactor_over_det(minor_raw(c, b, i, h), det) as i32 },
                        z: Fixed { raw: cofactor_over_det(minor_raw(b, c, e, f), det) as i32 },
                    },
                    r1: Vec3 {
                        x: Fixed { raw: cofactor_over_det(minor_raw(f, d, i, g), det) as i32 },
                        y: Fixed { raw: cofactor_over_det(minor_raw(a, c, g, i), det) as i32 },
                        z: Fixed { raw: cofactor_over_det(minor_raw(c, a, f, d), det) as i32 },
                    },
                    r2: Vec3 {
                        x: Fixed { raw: cofactor_over_det(minor_raw(d, e, g, h), det) as i32 },
                        y: Fixed { raw: cofactor_over_det(minor_raw(b, a, h, g), det) as i32 },
                        z: Fixed { raw: cofactor_over_det(minor_raw(a, b, d, e), det) as i32 },
                    },
                },
            )
        }
    }

    #[verifier::when_used_as_spec(identity_spec)]
    pub fn identity() -> (m: Mat3)
        ensures
            m == Self::identity_spec(),
    {
        let o: Fixed = Fixed::one();
        let z: Fixed = Fixed::zero();
        Mat3 { r0: Vec3 { x: o, y: z, z }, r1: Vec3 { x: z, y: o, z }, r2: Vec3 { x: z, y: z, z: o } }
    }

    #[verifier::when_used_as_spec(transpose_spec)]
    pub fn transpose(&self) -> (m: Mat3)
        ensures
            m == self.transpose_spec(),
    {
        Mat3 {
            r0: Vec3 { x: self.r0.x, y: self.r1.x, z: self.r2.x },
            r1: Vec3 { x: self.r0.y, y: self.r1.y, z: self.r2.y },
            r2: Vec3 { x: self.r0.z, y: self.r1.z, z: self.r2.z },
        }
    }

    /// The matrix applied to a vector.
    #[verifier::when_used_as_spec(mul_vec_spec)]
    pub fn mul_vec(&self, v: &Vec3) -> (out: Vec3)
        ensures
            out == self.mul_vec_spec(v),
    {
        Vec3 { x: self.r0.dot(v), y: self.r1.dot(v), z: self.r2.dot(v) }
    }

    /// The inverse, or `None` where the determinant is zero.
    #[verifier::when_used_as_spec(try_inverse_spec)]
    pub fn try_inverse(&self) -> (inv: Option<Mat3>)
        ensures
            inv == self.try_inverse_spec(),
            inv.is_none() == self.is_singular(),
    {
        let (a, b, c) = (self.r0.x, self.r0.y, self.r0.z);
        let (d, e, f) = (self.r1.x, self.r1.y, self.r1.z);
        let (g, h, i) = (self.r2.x, self.r2.y, self.r2.z);
        let m0: i128 = minor(e, f, h, i);
        let m1: i128 = minor(d, f, g, i);
        let m2: i128 = minor(d, e, g, h);
        assert(-0x4000_0000_0000_0000_0000_0000 <= a.raw as int * m0 <= 0x4000_0000_0000_0000_0000_0000)
            by (nonlinear_arith)
            requires
                -0x8000_0000 <= a.raw <= 0x8000_0000,
                -0x8000_0000_0000_0000 <= m0 <= 0x8000_0000_0000_0000,
        ;
        assert(-0x4000_0000_0000_0000_0000_0000 <= b.raw as int * m1 <= 0x4000_0000_0000_0000_0000_0000)
            by (nonlinear_arith)
            requires
                -0x8000_0000 <= b.raw <= 0x8000_0000,
                -0x8000_0000_0000_0000 <= m1 <= 0x8000_0000_0000_0000,
        ;
        assert(-0x4000_0000_0000_0000_0000_0000 <= c.raw as int * m2 <= 0x4000_0000_0000_0000_0000_0000)
            by (nonlinear_arith)
            requires
                -0x8000_0000 <= c.raw <= 0x8000_0000,
                -0x8000_0000_0000_0000 <= m2 <= 0x8000_0000_0000_0000,
        ;
        let det: i128 = a.raw as i128 * m0 - b.raw as i128 * m1 + c.raw as i128 * m2;
        if det == 0 {
            None
        } else {
            Some(
                Mat3 {
                    r0: Vec3 {
                        x: entry_over_det(m0, det),
                        y: entry_over_det(minor(c, b, i, h), det),
                        z: entry_over_det(minor(b, c, e, f), det),
                    },
                    r1: Vec3 {
                        x: entry_over_det(minor(f, d, i, g), det),
                        y: entry_over_det(minor(a, c, g, i), det),
                        z: entry_over_det(minor(c, a, f, d), det),
                    },
                    r2: Vec3 {
                        x: entry_over_det(m2, det),
                        y: entry_over_det(minor(b, a, h, g), det),
                        z: entry_over_det(minor(a, b, d, e), det),
                    },
                },
            )
        }
    }
}

} // verus!
