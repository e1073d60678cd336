use space_renderer::camera::{pitched, yawed, zoom_step, Camera};
use space_renderer::fixed::Fixed;
use space_renderer::matrix::{Mat4, Vec4};
use space_renderer::vector::Vec3;

const ONE: i32 = 65536;

fn raw(value: i32) -> Fixed {
    Fixed::from_raw(value)
}

fn vec3(x: i32, y: i32, z: i32) -> Vec3 {
    Vec3::new(raw(x), raw(y), raw(z))
}

fn camera(eye: Vec3, center: Vec3) -> Camera {
    Camera::new(eye, center, vec3(0, ONE, 0))
}

fn near(a: Vec3, b: Vec3, units: i32) -> bool {
    (a.x.raw - b.x.raw).abs() <= units
        && (a.y.raw - b.y.raw).abs() <= units
        && (a.z.raw - b.z.raw).abs() <= units
}

#[test]
fn orbit_by_nothing_changes_nothing() {
    let cameras = [
        camera(vec3(0, 0, 5 * ONE), vec3(0, 0, 0)),
        camera(vec3(3 * ONE, 2 * ONE, 4 * ONE), vec3(ONE, ONE, ONE)),
        camera(vec3(1627558, 211866, 61165), vec3(655360, 0, 0)),
        camera(vec3(0, 7 * ONE, 0), vec3(0, 0, 0)),
        camera(vec3(5, 5, 5), vec3(5, 5, 5)),
        camera(vec3(0, 9 * ONE, 1), vec3(0, 0, 0)),
    ];
    for start in cameras.iter() {
        let mut c = *start;
        c.orbit(Fixed::zero(), Fixed::zero());
        assert_eq!(c, *start);
        c.orbit(Fixed::zero(), Fixed::zero());
        assert_eq!(c, *start);
    }
}

#[test]
fn orbit_turns_the_eye_about_the_centre() {
    let mut c = camera(vec3(5 * ONE, 0, 0), vec3(0, 0, 0));
    c.orbit(raw(102944), Fixed::zero());
    assert_eq!(c.eye, vec3(0, 0, 5 * ONE));
    assert_eq!(c.center, vec3(0, 0, 0));
    assert_eq!(c.up, vec3(0, ONE, 0));
    let mut c = camera(vec3(0, 0, 5 * ONE), vec3(0, 0, 0));
    c.orbit(raw(4118), Fixed::zero());
    assert_eq!(c.eye, vec3(-20880, 0, 327020));
    let mut c = camera(vec3(0, 0, 5 * ONE), vec3(0, 0, 0));
    c.orbit(Fixed::zero(), raw(4118));
    assert_eq!(c.eye, vec3(0, -20880, 327020));
    let mut c = camera(vec3(3 * ONE, 2 * ONE, 4 * ONE), vec3(ONE, ONE, ONE));
    c.orbit(raw(4118), raw(-4118));
    assert_eq!(c.eye, vec3(181485, 145998, 266070));
}

#[test]
fn orbit_keeps_the_radius_nearly() {
    let mut c = camera(vec3(3 * ONE, 2 * ONE, 4 * ONE), vec3(ONE, ONE, ONE));
    let radius = c.eye.sub(&c.center).length().raw;
    for _ in 0..25 {
        c.orbit(raw(4118), raw(1000));
        let now = c.eye.sub(&c.center).length().raw;
        assert!((now - radius).abs() < 2000);
    }
}

#[test]
fn pitch_stops_short_of_the_pole() {
    let mut up = camera(vec3(0, 0, 5 * ONE), vec3(0, 0, 0));
    up.orbit(Fixed::zero(), raw(-102944));
    assert_eq!(up.eye, vec3(0, 326045, 32715));
    let mut down = camera(vec3(0, 0, 5 * ONE), vec3(0, 0, 0));
    down.orbit(Fixed::zero(), raw(102944));
    assert_eq!(down.eye, vec3(0, -326045, 32715));
    // further steps towards the pole stay at the limit
    up.orbit(Fixed::zero(), raw(-4118));
    assert!(up.eye.z.raw > 30000);
    assert!(up.eye.y.raw > 320000);
}

#[test]
fn zoom_moves_along_the_line_of_sight() {
    let mut c = camera(vec3(0, 0, 5 * ONE), vec3(0, 0, 0));
    c.zoom(Fixed::one());
    assert_eq!(c.eye, vec3(0, 0, 4 * ONE));
    c.zoom(Fixed::from_int(-1));
    assert_eq!(c.eye, vec3(0, 0, 5 * ONE));
    assert_eq!(c.center, vec3(0, 0, 0));
}

#[test]
fn zoom_in_then_out_returns_within_a_few_units() {
    let start = vec3(3 * ONE, 4 * ONE, 12 * ONE);
    let mut c = camera(start, vec3(0, 0, 0));
    c.zoom(raw(6554));
    assert_eq!(c.eye, vec3(195095, 260127, 780382));
    c.zoom(raw(-6554));
    assert_eq!(c.eye, vec3(196607, 262143, 786431));
    assert!(near(c.eye, start, 2));
    let starts = [
        (vec3(ONE, 2 * ONE, 2 * ONE), vec3(0, 0, 0)),
        (vec3(1627558, 211866, 61165), vec3(655360, 0, 0)),
        (vec3(0, 3276800, 3276800), vec3(0, 0, 0)),
        (vec3(-7 * ONE, ONE, 3 * ONE), vec3(2 * ONE, 2 * ONE, 2 * ONE)),
    ];
    for (eye, center) in starts.iter() {
        for step in [6554, 1000, ONE, -6554, -ONE] {
            let mut c = camera(*eye, *center);
            c.zoom(raw(step));
            c.zoom(raw(-step));
            assert!(near(c.eye, *eye, 4));
        }
    }
}

#[test]
fn zoom_does_not_cross_the_least_radius() {
    let mut c = camera(vec3(0, 0, 9830), vec3(0, 0, 0));
    c.zoom(Fixed::one());
    assert_eq!(c.eye, vec3(0, 0, 6554));
    c.zoom(Fixed::one());
    assert_eq!(c.eye, vec3(0, 0, 6554));
    // an eye already inside stays where it is when zooming in, and may move out
    let mut inside = camera(vec3(0, 0, 3000), vec3(0, 0, 0));
    inside.zoom(Fixed::one());
    assert_eq!(inside.eye, vec3(0, 0, 3000));
    inside.zoom(Fixed::from_int(-1));
    assert_eq!(inside.eye, vec3(0, 0, 68536));
    assert_eq!(zoom_step(raw(5 * ONE), raw(ONE)).raw, ONE);
    assert_eq!(zoom_step(raw(ONE), raw(5 * ONE)).raw, ONE - 6554);
    assert_eq!(zoom_step(raw(100), raw(ONE)).raw, 0);
    assert_eq!(zoom_step(raw(100), raw(-ONE)).raw, -ONE);
}

#[test]
fn zoom_at_the_centre_stays_put() {
    let mut c = camera(vec3(7, 8, 9), vec3(7, 8, 9));
    c.zoom(Fixed::one());
    assert_eq!(c.eye, vec3(7, 8, 9));
    c.zoom(Fixed::from_int(-1));
    assert_eq!(c.eye, vec3(7, 8, 9));
}

#[test]
fn pan_moves_eye_and_centre_alike() {
    let mut c = camera(vec3(ONE, 2 * ONE, 3 * ONE), vec3(0, ONE, 0));
    let before = c.eye.sub(&c.center);
    c.move_center(vec3(-ONE, 5, 2 * ONE));
    assert_eq!(c.eye, vec3(0, 2 * ONE + 5, 5 * ONE));
    assert_eq!(c.center, vec3(-ONE, ONE + 5, 2 * ONE));
    assert_eq!(c.eye.sub(&c.center), before);
    assert_eq!(c.up, vec3(0, ONE, 0));
}

#[test]
fn view_matrix_looks_down_the_axis() {
    let c = camera(vec3(0, 0, 5 * ONE), vec3(0, 0, 0));
    let row = |x: i32, y: i32, z: i32, w: i32| Vec4::new(raw(x), raw(y), raw(z), raw(w));
    assert_eq!(
        c.view_matrix(),
        Mat4::new(row(ONE, 0, 0, 0), row(0, ONE, 0, 0), row(0, 0, ONE, -5 * ONE), row(0, 0, 0, ONE))
    );
}

#[test]
fn turning_and_pitching_offsets() {
    assert_eq!(yawed(&vec3(ONE, 7, 0), raw(102944)), vec3(0, 7, ONE));
    assert_eq!(yawed(&vec3(ONE, 7, 0), raw(0)), vec3(ONE, 7, 0));
    assert_eq!(pitched(&vec3(0, 0, 5 * ONE), raw(0)), vec3(0, 0, 5 * ONE));
    // straight above the centre the eye is carried into the plane of x and y
    let above = pitched(&vec3(0, 5 * ONE, 0), raw(-4118));
    assert_eq!(above.z.raw, 0);
    assert!(above.y.raw > 0);
}

#[test]
fn long_zooms_return_within_the_slack() {
    let starts = [
        (vec3(3 * ONE, 4 * ONE, 12 * ONE), vec3(0, 0, 0)),
        (vec3(-700 * ONE, 650 * ONE, 3 * ONE), vec3(900 * ONE, -40 * ONE, ONE)),
        (vec3(123_456_789, -98_765_432, 55_555_555), vec3(-1, 77, 200_000_000)),
    ];
    for (eye, center) in starts.iter() {
        for whole in [-6, -3, -1, 0, 1, 2, 5] {
            let step = whole * ONE + 12345;
            let slack = 8 * (step.abs() / ONE + 3);
            let mut c = camera(*eye, *center);
            c.zoom(raw(step));
            c.zoom(raw(-step));
            assert!(near(c.eye, *eye, slack));
            assert_eq!(c.center, *center);
        }
    }
}
