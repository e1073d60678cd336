use space_renderer::camera::look_at;
use space_renderer::fixed::Fixed;
use space_renderer::matrix::{Mat3, Mat4, Vec4};
use space_renderer::shaders::{guarded_w, normal_matrix, vertex_shader};
use space_renderer::transform::{
    create_model_matrix, create_perspective_matrix, create_view_matrix, create_viewport_matrix,
};
use space_renderer::uniforms::Uniforms;
use space_renderer::vector::{Vec2, Vec3};
use space_renderer::vertex::Vertex;

const ONE: i32 = 65536;
const HALF: i32 = 32768;

fn raw(value: i32) -> Fixed {
    Fixed::from_raw(value)
}

fn vec3(x: i32, y: i32, z: i32) -> Vec3 {
    Vec3::new(raw(x), raw(y), raw(z))
}

fn row(x: i32, y: i32, z: i32, w: i32) -> Vec4 {
    Vec4::new(raw(x), raw(y), raw(z), raw(w))
}

fn vertex(position: Vec3, normal: Vec3) -> Vertex {
    Vertex::new(position, normal, Vec2 { x: raw(100), y: raw(200) })
}

fn plain(model: Mat4) -> Uniforms {
    Uniforms::new(model, Mat4::identity(), Mat4::identity(), Mat4::identity(), 0, 1)
}

fn scene() -> (Mat4, Mat4, Mat4) {
    let view = create_view_matrix(vec3(0, 0, 5 * ONE), vec3(0, 0, 0), vec3(0, ONE, 0));
    let projection = create_perspective_matrix(Fixed::from_int(800), Fixed::from_int(600));
    let viewport = create_viewport_matrix(Fixed::from_int(800), Fixed::from_int(600));
    (view, projection, viewport)
}

#[test]
fn identity_transforms_leave_the_vertex_in_place() {
    let v = vertex(vec3(12345, -54321, 777), vec3(0, ONE, 0));
    let out = vertex_shader(&v, &plain(Mat4::identity()));
    assert_eq!(out.transformed_position, v.position);
    assert_eq!(out.transformed_normal, v.normal);
    assert_eq!(out.position, v.position);
    assert_eq!(out.normal, v.normal);
    assert_eq!(out.tex_coords, v.tex_coords);
    assert_eq!(out.color, v.color);
}

#[test]
fn scene_matrices_have_their_entries() {
    let (view, projection, viewport) = scene();
    assert_eq!(
        view,
        Mat4::new(row(ONE, 0, 0, 0), row(0, ONE, 0, 0), row(0, 0, ONE, -5 * ONE), row(0, 0, 0, ONE))
    );
    assert_eq!(
        projection,
        Mat4::new(
            row(118663, 0, 0, 0),
            row(0, 158218, 0, 0),
            row(0, 0, -65549, -13109),
            row(0, 0, -ONE, 0)
        )
    );
    assert_eq!(
        viewport,
        Mat4::new(
            row(400 * ONE, 0, 0, 400 * ONE),
            row(0, -300 * ONE, 0, 300 * ONE),
            row(0, 0, ONE, 0),
            row(0, 0, 0, ONE)
        )
    );
}

#[test]
fn origin_lands_in_the_middle_of_the_screen() {
    let (view, projection, viewport) = scene();
    let u = Uniforms::new(Mat4::identity(), view, projection, viewport, 0, 1);
    let out = vertex_shader(&vertex(vec3(0, 0, 0), vec3(0, 0, ONE)), &u);
    assert_eq!(out.transformed_position, vec3(400 * ONE, 300 * ONE, 62927));
    let out = vertex_shader(&vertex(vec3(ONE, ONE, 0), vec3(0, 0, ONE)), &u);
    assert_eq!(out.transformed_position, vec3(35707200, 10167900, 62927));
}

#[test]
fn model_matrix_scales_the_vertex_and_shrinks_the_normal() {
    let (view, projection, viewport) = scene();
    let model = create_model_matrix(vec3(0, 0, 0), Fixed::from_int(2), vec3(0, 0, 0));
    let u = Uniforms::new(model, view, projection, viewport, 0, 1);
    let out = vertex_shader(&vertex(vec3(-HALF, 16384, ONE), vec3(0, 0, ONE)), &u);
    assert_eq!(out.transformed_position, vec3(10392400, 11750100, 61179));
    assert_eq!(out.transformed_normal, vec3(0, 0, HALF));
}

#[test]
fn zero_w_is_guarded() {
    assert_eq!(guarded_w(raw(0)).raw, 1);
    assert_eq!(guarded_w(raw(-7)).raw, -7);
    assert_eq!(guarded_w(raw(ONE)).raw, ONE);
    // a projection whose last row is empty gives every vertex w = 0
    let flat = Mat4::new(row(ONE, 0, 0, 0), row(0, ONE, 0, 0), row(0, 0, ONE, 0), row(0, 0, 0, 0));
    let u = Uniforms::new(Mat4::identity(), Mat4::identity(), flat, Mat4::identity(), 0, 1);
    let out = vertex_shader(&vertex(vec3(ONE, -ONE, 0), vec3(0, 0, ONE)), &u);
    assert_eq!(out.transformed_position, vec3(i32::MAX, i32::MIN, 0));
}

#[test]
fn singular_model_falls_back_to_the_identity_for_normals() {
    let empty = Mat4::new(row(0, 0, 0, 0), row(0, 0, 0, 0), row(0, 0, 0, 0), row(0, 0, 0, ONE));
    assert_eq!(normal_matrix(&plain(empty)), Mat3::identity());
    let squashed =
        Mat4::new(row(ONE, 0, 0, 0), row(0, ONE, 0, 0), row(ONE, ONE, 0, 0), row(0, 0, 0, ONE));
    assert_eq!(normal_matrix(&plain(squashed)), Mat3::identity());
    let n = vec3(1000, -2000, 3000);
    let out = vertex_shader(&vertex(vec3(0, 0, 0), n), &plain(squashed));
    assert_eq!(out.transformed_normal, n);
}

#[test]
fn normals_follow_the_inverse_transpose() {
    // stretched by 2 along x and by 4 along y
    let stretch =
        Mat4::new(row(2 * ONE, 0, 0, 0), row(0, 4 * ONE, 0, 0), row(0, 0, ONE, 0), row(0, 0, 0, ONE));
    let m = normal_matrix(&plain(stretch));
    assert_eq!(m.r0, vec3(HALF, 0, 0));
    assert_eq!(m.r1, vec3(0, 16384, 0));
    assert_eq!(m.r2, vec3(0, 0, ONE));
    // a rotation is its own inverse transpose
    let turn = create_model_matrix(vec3(0, 0, 0), Fixed::one(), vec3(0, 102944, 0));
    let m = normal_matrix(&plain(turn));
    assert_eq!(m.r0, vec3(0, 0, ONE));
    assert_eq!(m.r1, vec3(0, ONE, 0));
    assert_eq!(m.r2, vec3(-ONE, 0, 0));
}

#[test]
fn inverse_of_a_matrix() {
    let m = Mat3 { r0: vec3(2 * ONE, 0, 0), r1: vec3(0, ONE, ONE), r2: vec3(0, 0, ONE) };
    let inverse = m.try_inverse().unwrap();
    assert_eq!(inverse.r0, vec3(HALF, 0, 0));
    assert_eq!(inverse.r1, vec3(0, ONE, -ONE));
    assert_eq!(inverse.r2, vec3(0, 0, ONE));
    let singular = Mat3 { r0: vec3(ONE, 2 * ONE, 3 * ONE), r1: vec3(2 * ONE, 4 * ONE, 6 * ONE), r2: vec3(0, 0, ONE) };
    assert_eq!(singular.try_inverse(), None);
    assert_eq!(Mat3::identity().try_inverse(), Some(Mat3::identity()));
    assert_eq!(m.transpose().r1, vec3(0, ONE, 0));
    assert_eq!(m.mul_vec(&vec3(ONE, ONE, ONE)), vec3(2 * ONE, 2 * ONE, ONE));
}

#[test]
fn model_matrix_composes_scale_translation_and_rotation() {
    let m = create_model_matrix(vec3(ONE, 2 * ONE, 3 * ONE), Fixed::from_int(2), vec3(102944, 0, 0));
    assert_eq!(
        m,
        Mat4::new(
            row(2 * ONE, 0, 0, ONE),
            row(0, 0, -2 * ONE, 2 * ONE),
            row(0, 2 * ONE, 0, 3 * ONE),
            row(0, 0, 0, ONE)
        )
    );
    let unrotated = create_model_matrix(vec3(-ONE, 0, 5), Fixed::from_raw(3277), vec3(0, 0, 0));
    assert_eq!(
        unrotated,
        Mat4::new(row(3277, 0, 0, -ONE), row(0, 3277, 0, 0), row(0, 0, 3277, 5), row(0, 0, 0, ONE))
    );
}

#[test]
fn matrix_products() {
    let a = Mat4::new(row(ONE, 2 * ONE, 0, 0), row(0, ONE, 0, 0), row(0, 0, ONE, 3 * ONE), row(0, 0, 0, ONE));
    assert_eq!(a.mul(&Mat4::identity()), a);
    assert_eq!(Mat4::identity().mul(&a), a);
    let squared = a.mul(&a);
    assert_eq!(
        squared,
        Mat4::new(row(ONE, 4 * ONE, 0, 0), row(0, ONE, 0, 0), row(0, 0, ONE, 6 * ONE), row(0, 0, 0, ONE))
    );
    assert_eq!(a.mul_vec(&row(ONE, ONE, ONE, ONE)), row(3 * ONE, ONE, 4 * ONE, ONE));
    assert_eq!(Vec4::from_point(&vec3(1, 2, 3)), row(1, 2, 3, ONE));
    assert_eq!(a.upper_left().r0, vec3(ONE, 2 * ONE, 0));
}

#[test]
fn oblique_view_matrix() {
    let m = look_at(&vec3(3 * ONE, 4 * ONE, 5 * ONE), &vec3(ONE, 0, -ONE), &vec3(0, ONE, 0));
    assert_eq!(
        m,
        Mat4::new(
            row(62173, 0, -20726, -82889),
            row(-11079, 55389, -33234, -22149),
            row(17516, 35031, 52546, -455402),
            row(0, 0, 0, ONE)
        )
    );
}

#[test]
fn degenerate_windows_do_not_trap() {
    let p = create_perspective_matrix(Fixed::from_int(800), Fixed::zero());
    assert_eq!(p.r0.x.raw, 0);
    let p = create_perspective_matrix(Fixed::zero(), Fixed::from_int(600));
    assert_eq!(p.r0.x.raw, 0);
    let v = create_viewport_matrix(Fixed::zero(), Fixed::zero());
    assert_eq!(v.r0, row(0, 0, 0, 0));
}
