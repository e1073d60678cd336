//! The matrices a draw call is set up with.

use vstd::prelude::*;
use crate::camera::look_at;
use crate::fixed::Fixed;
use crate::matrix::{Mat4, Vec4};
use crate::trig::{cos, sin};
use crate::vector::Vec3;

verus! {

/// The cotangent of half the vertical field of view of 45 degrees:
/// `1 + sqrt(2)`.
pub const FOCAL: i32 = 158218;

/// `(far + near) / (near - far)` for the planes at 0.1 and 1000.
pub const DEPTH_SCALE: i32 = -65549;

/// `2 * far * near / (near - far)` for the planes at 0.1 and 1000.
pub const DEPTH_OFFSET: i32 = -13109;

/// A row of a matrix.
pub open spec fn row_spec(x: Fixed, y: Fixed, z: Fixed, w: Fixed) -> Vec4 {
    Vec4 { x, y, z, w }
}

/// The rotation by `angle` radians about the `x` axis.
pub open spec fn rotation_x_spec(angle: Fixed) -> Mat4 {
    let (s, c) = (sin(angle.raw as i64), cos(angle.raw as i64));
    let (o, l) = (Fixed::zero(), Fixed::one());
    Mat4 {
        r0: row_spec(l, o, o, o),
        r1: row_spec(o, c, s.neg(), o),
        r2: row_spec(o, s, c, o),
        r3: row_spec(o, o, o, l),
    }
}

/// The rotation by `angle` radians about the `y` axis.
pub open spec fn rotation_y_spec(angle: Fixed) -> Mat4 {
    let (s, c) = (sin(angle.raw as i64), cos(angle.raw as i64));
    let (o, l) = (Fixed::zero(), Fixed::one());
    Mat4 {
        r0: row_spec(c, o, s, o),
        r1: row_spec(o, l, o, o),
        r2: row_spec(s.neg(), o, c, o),
        r3: row_spec(o, o, o, l),
    }
}

/// The rotation by `angle` radians about the `z` axis.
pub open spec fn rotation_z_spec(angle: Fixed) -> Mat4 {
    let (s, c) = (sin(angle.raw as i64), cos(angle.raw as i64));
    let (o, l) = (Fixed::zero(), Fixed::one());
    Mat4 {
        r0: row_spec(c, s.neg(), o, o),
        r1: row_spec(s, c, o, o),
        r2: row_spec(o, o, l, o),
        r3: row_spec(o, o, o, l),
    }
}

/// Uniform scaling by `scale` followed by the translation `t`.
pub open spec fn scale_translate_spec(t: &Vec3, scale: Fixed) -> Mat4 {
    let (o, l) = (Fixed::zero(), Fixed::one());
    Mat4 {
        r0: row_spec(scale, o, o, t.x),
        r1: row_spec(o, scale, o, t.y),
        r2: row_spec(o, o, scale, t.z),
        r3: row_spec(o, o, o, l),
    }
}

/// The model matrix: rotation about `x`, then `y`, then `z`, then
/// scaling and translation.
pub open spec fn create_model_matrix_spec(translation: Vec3, scale: Fixed, rotation: Vec3) -> Mat4 {
    scale_translate_spec(&translation, scale).mul(
        &rotation_z_spec(rotation.z).mul(&rotation_y_spec(rotation.y)).mul(
            &rotation_x_spec(rotation.x),
        ),
    )
}

/// The perspective projection with a vertical field of view of 45
/// degrees and the planes at 0.1 and 1000, for a window of the given size.
pub open spec fn create_perspective_matrix_spec(window_width: Fixed, window_height: Fixed) -> Mat4 {
    let (o, l) = (Fixed::zero(), Fixed::one());
    let aspect_ratio = window_width.div(window_height);
    Mat4 {
        r0: row_spec(Fixed { raw: FOCAL }.div(aspect_ratio), o, o, o),
        r1: row_spec(o, Fixed { raw: FOCAL }, o, o),
        r2: row_spec(o, o, Fixed { raw: DEPTH_SCALE }, Fixed { raw: DEPTH_OFFSET }),
        r3: row_spec(o, o, l.neg(), o),
    }
}

/// The viewport matrix: device coordinates in `[-1, 1]` to pixels, with
/// `y` pointing down.
pub open spec fn create_viewport_matrix_spec(width: Fixed, height: Fixed) -> Mat4 {
    let (o, l) = (Fixed::zero(), Fixed::one());
    let half_width = width.div(Fixed::from_int(2));
    let half_height = height.div(Fixed::from_int(2));
    Mat4 {
        r0: row_spec(half_width, o, o, half_width),
        r1: row_spec(o, half_height.neg(), o, half_height),
        r2: row_spec(o, o, l, o),
        r3: row_spec(o, o, o, l),
    }
}

/// A row of a matrix.
#[verifier::when_used_as_spec(row_spec)]
pub fn row(x: Fixed, y: Fixed, z: Fixed, w: Fixed) -> (r: Vec4)
    ensures
        r == row_spec(x, y, z, w),
{
    Vec4 { x, y, z, w }
}

/// The rotation by `angle` radians about the `x` axis.
#[verifier::when_used_as_spec(rotation_x_spec)]
pub fn rotation_x(angle: Fixed) -> (m: Mat4)
    ensures
        m == rotation_x_spec(angle),
{
    let s: Fixed = sin(angle.raw as i64);
    let c: Fixed = cos(angle.raw as i64);
    let o: Fixed = Fixed::zero();
    let l: Fixed = Fixed::one();
    Mat4 { r0: row(l, o, o, o), r1: row(o, c, s.neg(), o), r2: row(o, s, c, o), r3: row(o, o, o, l) }
}

/// The rotation by `angle` radians about the `y` axis.
#[verifier::when_used_as_spec(rotation_y_spec)]
pub fn rotation_y(angle: Fixed) -> (m: Mat4)
    ensures
        m == rotation_y_spec(angle),
{
    let s: Fixed = sin(angle.raw as i64);
    let c: Fixed = cos(angle.raw as i64);
    let o: Fixed = Fixed::zero();
    let l: Fixed = Fixed::one();
    Mat4 { r0: row(c, o, s, o), r1: row(o, l, o, o), r2: row(s.neg(), o, c, o), r3: row(o, o, o, l) }
}

/// The rotation by `angle` radians about the `z` axis.
#[verifier::when_used_as_spec(rotation_z_spec)]
pub fn rotation_z(angle: Fixed) -> (m: Mat4)
    ensures
        m == rotation_z_spec(angle),
{
    let s: Fixed = sin(angle.raw as i64);
    let c: Fixed = cos(angle.raw as i64);
    let o: Fixed = Fixed::zero();
    let l: Fixed = Fixed::one();
    Mat4 { r0: row(c, s.neg(), o, o), r1: row(s, c, o, o), r2: row(o, o, l, o), r3: row(o, o, o, l) }
}

/// Uniform scaling by `scale` followed by the translation `t`.
#[verifier::when_used_as_spec(scale_translate_spec)]
pub fn scale_translate(t: &Vec3, scale: Fixed) -> (m: Mat4)
    ensures
        m == scale_translate_spec(t, scale),
{
    let o: Fixed = Fixed::zero();
    let l: Fixed = Fixed::one();
    Mat4 {
        r0: row(scale, o, o, t.x),
        r1: row(o, scale, o, t.y),
        r2: row(o, o, scale, t.z),
        r3: row(o, o, o, l),
    }
}

/// The model matrix of an object at `translation`, of size `scale`,
/// turned by the angles of `rotation` about the three axes.
#[verifier::when_used_as_spec(create_model_matrix_spec)]
pub fn create_model_matrix(translation: Vec3, scale: Fixed, rotation: Vec3) -> (m: Mat4)
    ensures
        m == create_model_matrix_spec(translation, scale, rotation),
{
    let rotation_matrix_x: Mat4 = rotation_x(rotation.x);
    let rotation_matrix_y: Mat4 = rotation_y(rotation.y);
    let rotation_matrix_z: Mat4 = rotation_z(rotation.z);
    let rotation_matrix: Mat4 = rotation_matrix_z.mul(&rotation_matrix_y).mul(&rotation_matrix_x);
    let transform_matrix: Mat4 = scale_translate(&translation, scale);
    transform_matrix.mul(&rotation_matrix)
}

/// The view matrix of a camera at `eye` looking at `center`.
pub fn create_view_matrix(eye: Vec3, center: Vec3, up: Vec3) -> (m: Mat4)
    ensures
        m == look_at(&eye, &center, &up),
{
    look_at(&eye, &center, &up)
}

/// The projection matrix for a window of the given size.
#[verifier::when_used_as_spec(create_perspective_matrix_spec)]
pub fn create_perspective_matrix(window_width: Fixed, window_height: Fixed) -> (m: Mat4)
    ensures
        m == create_perspective_matrix_spec(window_width, window_height),
{
    let o: Fixed = Fixed::zero();
    let l: Fixed = Fixed::one();
    let aspect_ratio: Fixed = window_width.div(window_height);
    let focal = Fixed { raw: FOCAL };
    Mat4 {
        r0: row(focal.div(aspect_ratio), o, o, o),
        r1: row(o, focal, o, o),
        r2: row(o, o, Fixed { raw: DEPTH_SCALE }, Fixed { raw: DEPTH_OFFSET }),
        r3: row(o, o, l.neg(), o),
    }
}

/// The viewport matrix for a buffer of the given size.
#[verifier::when_used_as_spec(create_viewport_matrix_spec)]
pub fn create_viewport_matrix(width: Fixed, height: Fixed) -> (m: Mat4)
    ensures
        m == create_viewport_matrix_spec(width, height),
{
    let o: Fixed = Fixed::zero();
    let l: Fixed = Fixed::one();
    let half_width: Fixed = width.div(Fixed::from_int(2));
    let half_height: Fixed = height.div(Fixed::from_int(2));
    Mat4 {
        r0: row(half_width, o, o, half_width),
        r1: row(o, half_height.neg(), o, half_height),
        r2: row(o, o, l, o),
        r3: row(o, o, o, l),
    }
}

/// A dot product with a unit vector picks the coordinate.
pub proof fn lemma_unit_dots(v: Vec4)
    ensures
        v.dot(&Mat4::identity().r0) == v.x,
        v.dot(&Mat4::identity().r1) == v.y,
        v.dot(&Mat4::identity().r2) == v.z,
        v.dot(&Mat4::identity().r3) == v.w,
        Mat4::identity().r0.dot(&v) == v.x,
        Mat4::identity().r1.dot(&v) == v.y,
        Mat4::identity().r2.dot(&v) == v.z,
        Mat4::identity().r3.dot(&v) == v.w,
{
    assert(v.x.raw * 65536 / 65536 == v.x.raw);
    assert(v.y.raw * 65536 / 65536 == v.y.raw);
    assert(v.z.raw * 65536 / 65536 == v.z.raw);
    assert(v.w.raw * 65536 / 65536 == v.w.raw);
    assert(65536 * v.x.raw / 65536 == v.x.raw);
    assert(65536 * v.y.raw / 65536 == v.y.raw);
    assert(65536 * v.z.raw / 65536 == v.z.raw);
    assert(65536 * v.w.raw / 65536 == v.w.raw);
    assert(v.x.raw * 0 == 0 && v.y.raw * 0 == 0 && v.z.raw * 0 == 0 && v.w.raw * 0 == 0);
    assert(0 * v.x.raw == 0 && 0 * v.y.raw == 0 && 0 * v.z.raw == 0 && 0 * v.w.raw == 0);
}

/// The identity matrix leaves vectors and matrices as they are, applied
/// from either side.
pub proof fn lemma_identity_is_neutral(m: Mat4, v: Vec4)
    ensures
        Mat4::identity().mul_vec(&v) == v,
        Mat4::identity().mul(&m) == m,
        m.mul(&Mat4::identity()) == m,
{
    lemma_unit_dots(v);
    lemma_unit_dots(m.c0());
    lemma_unit_dots(m.c1());
    lemma_unit_dots(m.c2());
    lemma_unit_dots(m.c3());
    lemma_unit_dots(m.r0);
    lemma_unit_dots(m.r1);
    lemma_unit_dots(m.r2);
    lemma_unit_dots(m.r3);
    let i = Mat4::identity();
    assert(i.c0() == i.r0 && i.c1() == i.r1 && i.c2() == i.r2 && i.c3() == i.r3);
}

/// An object that is not turned has the model matrix of its scale and
/// translation alone.
pub proof fn lemma_model_matrix_unturned(translation: Vec3, scale: Fixed)
    ensures
        create_model_matrix_spec(
            translation,
            scale,
            Vec3 { x: Fixed::zero(), y: Fixed::zero(), z: Fixed::zero() },
        ) == scale_translate_spec(&translation, scale),
{
    crate::trig::lemma_sin_cardinal();
    let still = Fixed::zero();
    assert(sin(0i64).raw == 0);
    assert(cos(0i64).raw == 65536);
    assert(rotation_x_spec(still) == Mat4::identity());
    assert(rotation_y_spec(still) == Mat4::identity());
    assert(rotation_z_spec(still) == Mat4::identity());
    let origin = Vec4 { x: still, y: still, z: still, w: still };
    lemma_identity_is_neutral(Mat4::identity(), origin);
    lemma_identity_is_neutral(scale_translate_spec(&translation, scale), origin);
}

} // verus!
