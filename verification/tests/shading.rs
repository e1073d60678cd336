use space_renderer::color::Color;
use space_renderer::fixed::Fixed;
use space_renderer::fragment::Fragment;
use space_renderer::lighting::{diffuse, light_direction, lit_factor, pow16, specular, view_direction};
use space_renderer::matrix::Mat4;
use space_renderer::noise::{sample, scaled, time_angle, NoiseQuery};
use space_renderer::shaders::{
    alien_planet_shader, broken_terrain_shader, earth_like_planet_shader, fragment_shader,
    gas_giant_shader, icy_planet_shader, noise_queries, spaceship_shader, star_shader,
    volcanic_planet_shader,
};
use space_renderer::uniforms::Uniforms;
use space_renderer::vector::Vec3;

const ONE: i32 = 65536;
const HALF: i32 = 32768;

fn raw(value: i32) -> Fixed {
    Fixed::from_raw(value)
}

fn vec3(x: i32, y: i32, z: i32) -> Vec3 {
    Vec3::new(raw(x), raw(y), raw(z))
}

fn uniforms(mode: u8, time: u32) -> Uniforms {
    Uniforms::new(Mat4::identity(), Mat4::identity(), Mat4::identity(), Mat4::identity(), time, mode)
}

fn fragment(intensity: i32, position: Vec3, normal: Vec3) -> Fragment {
    Fragment { x: 0, y: 0, depth: raw(0), normal, intensity: raw(intensity), vertex_position: position }
}

fn facing() -> Fragment {
    fragment(ONE, vec3(0, 0, 0), vec3(0, 0, ONE))
}

fn samples(values: &[i32]) -> Vec<Fixed> {
    values.iter().map(|v| raw(*v)).collect()
}

#[test]
fn star_at_frame_zero_with_full_noise_is_bright_times_seven_tenths() {
    let bright = Color::new(255, 223, 0);
    for intensity in [0, 1, 16384, HALF, 50000, ONE] {
        let f = fragment(intensity, vec3(0, 0, 0), vec3(0, 0, ONE));
        let got = star_shader(&f, &uniforms(1, 0), &samples(&[ONE]));
        assert_eq!(got, bright.scale(raw(45875)).scale(raw(intensity)));
    }
    assert_eq!(star_shader(&facing(), &uniforms(1, 0), &samples(&[ONE])), Color::new(178, 156, 0));
    let dim = fragment(HALF, vec3(0, 0, 0), vec3(0, 0, ONE));
    assert_eq!(star_shader(&dim, &uniforms(1, 0), &samples(&[ONE])), Color::new(89, 78, 0));
}

#[test]
fn star_pulsates_with_time() {
    assert_eq!(star_shader(&facing(), &uniforms(1, 7), &samples(&[16384])), Color::new(227, 96, 0));
}

#[test]
fn broken_terrain_thresholds_and_cracks() {
    let u = uniforms(2, 0);
    assert_eq!(broken_terrain_shader(&facing(), &u, &samples(&[0, HALF])), Color::new(150, 135, 148));
    assert_eq!(broken_terrain_shader(&facing(), &u, &samples(&[20000, -ONE])), Color::new(200, 200, 255));
    // at the threshold itself the ground is rock
    assert_eq!(broken_terrain_shader(&facing(), &u, &samples(&[13107, 0])), Color::new(140, 130, 120));
    assert_eq!(broken_terrain_shader(&facing(), &u, &samples(&[13106, 0])), Color::new(100, 70, 40));
}

#[test]
fn gas_giant_bands_and_ring() {
    let u = uniforms(3, 0);
    assert_eq!(gas_giant_shader(&facing(), &u, &samples(&[0, 0, 0])), Color::new(153, 99, 0));
    let on_ring = fragment(ONE, vec3(0, 3277, 0), vec3(0, 0, ONE));
    assert_eq!(gas_giant_shader(&on_ring, &u, &samples(&[50000, ONE, ONE])), Color::new(214, 169, 79));
    // no light, no planet: only the ring is left
    let dark = fragment(0, vec3(0, 3277, 0), vec3(0, 0, ONE));
    assert_eq!(gas_giant_shader(&dark, &u, &samples(&[0, 0, 0])), Color::new(95, 95, 85));
}

#[test]
fn icy_planet_values() {
    let u = uniforms(4, 0);
    assert_eq!(icy_planet_shader(&facing(), &u, &samples(&[0, 0])), Color::new(118, 142, 149));
    let lit = fragment(ONE, vec3(0, 0, 0), vec3(ONE, ONE, HALF));
    assert_eq!(icy_planet_shader(&lit, &u, &samples(&[HALF, -HALF])), Color::new(219, 238, 244));
}

#[test]
fn icy_planet_shines_only_where_the_light_is_mirrored_to_the_viewer() {
    let u = uniforms(4, 0);
    // facing away from the light: ambient light alone, and no highlight
    let away = fragment(ONE, vec3(0, 0, 0), vec3(-ONE, -ONE, -HALF));
    assert_eq!(icy_planet_shader(&away, &u, &samples(&[0, 0])), Color::new(88, 103, 107));
    // halfway between the light and the viewer: the highlight is full
    let mirror = fragment(ONE, vec3(0, 0, 0), vec3(43691, 43691, 21845 + ONE));
    assert_eq!(icy_planet_shader(&mirror, &u, &samples(&[0, 0])), Color::new(255, 255, 255));
    let ship = uniforms(8, 0);
    assert_eq!(spaceship_shader(&away, &ship, &samples(&[0])), Color::new(79, 79, 79));
}

#[test]
fn volcanic_planet_values() {
    let u = uniforms(5, 0);
    assert_eq!(volcanic_planet_shader(&facing(), &u, &samples(&[ONE, ONE, 0, 0])), Color::new(255, 170, 0));
    assert_eq!(volcanic_planet_shader(&facing(), &u, &samples(&[0, 0, ONE, ONE])), Color::new(80, 25, 15));
}

#[test]
fn earth_like_planet_values() {
    let u = uniforms(6, 0);
    assert_eq!(earth_like_planet_shader(&facing(), &u, &samples(&[0, 0])), Color::new(7, 62, 102));
    assert_eq!(earth_like_planet_shader(&facing(), &u, &samples(&[35000, 30000])), Color::new(200, 176, 155));
    assert_eq!(earth_like_planet_shader(&facing(), &u, &samples(&[40000, 0])), Color::new(20, 83, 20));
}

#[test]
fn alien_planet_values() {
    let u = uniforms(7, 0);
    assert_eq!(alien_planet_shader(&facing(), &u, &samples(&[0])), Color::new(53, 1, 66));
    assert_eq!(alien_planet_shader(&facing(), &u, &samples(&[30000])), Color::new(45, 110, 133));
    assert_eq!(alien_planet_shader(&facing(), &u, &samples(&[50000])), Color::new(147, 12, 112));
}

#[test]
fn spaceship_values() {
    let u = uniforms(8, 0);
    assert_eq!(spaceship_shader(&facing(), &u, &samples(&[0])), Color::new(119, 119, 119));
    let lit = fragment(ONE, vec3(0, 0, 0), vec3(ONE, ONE, HALF));
    assert_eq!(spaceship_shader(&lit, &u, &samples(&[ONE])), Color::new(191, 191, 191));
}

#[test]
fn dispatch_follows_the_mode_tag() {
    let f = fragment(50000, vec3(1000, 3000, 0), vec3(ONE, 2 * ONE, HALF));
    let s = samples(&[12345, -30000, 60000, 2222]);
    assert_eq!(fragment_shader(&f, &uniforms(1, 9), &s), star_shader(&f, &uniforms(1, 9), &s));
    assert_eq!(fragment_shader(&f, &uniforms(2, 9), &s), broken_terrain_shader(&f, &uniforms(2, 9), &s));
    assert_eq!(fragment_shader(&f, &uniforms(3, 9), &s), gas_giant_shader(&f, &uniforms(3, 9), &s));
    assert_eq!(fragment_shader(&f, &uniforms(4, 9), &s), icy_planet_shader(&f, &uniforms(4, 9), &s));
    assert_eq!(fragment_shader(&f, &uniforms(5, 9), &s), volcanic_planet_shader(&f, &uniforms(5, 9), &s));
    assert_eq!(fragment_shader(&f, &uniforms(6, 9), &s), earth_like_planet_shader(&f, &uniforms(6, 9), &s));
    assert_eq!(fragment_shader(&f, &uniforms(7, 9), &s), alien_planet_shader(&f, &uniforms(7, 9), &s));
    assert_eq!(fragment_shader(&f, &uniforms(8, 9), &s), spaceship_shader(&f, &uniforms(8, 9), &s));
}

#[test]
fn unknown_mode_shades_black_and_asks_for_nothing() {
    for mode in [0u8, 9, 10, 100, 255] {
        assert_eq!(fragment_shader(&facing(), &uniforms(mode, 3), &samples(&[ONE, ONE])), Color::black());
        assert_eq!(noise_queries(&facing(), &uniforms(mode, 3)).len(), 0);
    }
}

#[test]
fn shading_twice_gives_the_same_colour() {
    let f = fragment(40000, vec3(-20000, 7000, 100), vec3(-ONE, 3 * ONE, 2 * ONE));
    let s = samples(&[-40000, 50000, 123, -65536]);
    for mode in 0u8..=9 {
        for time in [0u32, 1, 59, 100000, u32::MAX] {
            let u = uniforms(mode, time);
            assert_eq!(fragment_shader(&f, &u, &s), fragment_shader(&f, &u, &s));
            assert_eq!(noise_queries(&f, &u), noise_queries(&f, &u));
        }
    }
}

#[test]
fn missing_samples_count_as_zero() {
    let f = facing();
    for mode in 1u8..=8 {
        let u = uniforms(mode, 5);
        assert_eq!(fragment_shader(&f, &u, &samples(&[])), fragment_shader(&f, &u, &samples(&[0, 0, 0, 0])));
    }
    assert_eq!(sample(&samples(&[7, 8]), 1).raw, 8);
    assert_eq!(sample(&samples(&[7, 8]), 2).raw, 0);
}

#[test]
fn queries_name_the_points_of_each_material() {
    let f = fragment(ONE, vec3(HALF, -16384, 0), vec3(0, 0, ONE));
    let mut f_deep = f;
    f_deep.depth = raw(1000);
    assert_eq!(
        noise_queries(&f, &uniforms(1, 40)),
        vec![NoiseQuery::Space { x: 9830400, y: -4915200, z: 131072 }]
    );
    assert_eq!(
        noise_queries(&f, &uniforms(2, 40)),
        vec![
            NoiseQuery::Plane { x: 327680, y: -163840 },
            NoiseQuery::Plane { x: 983040, y: -491520 }
        ]
    );
    assert_eq!(
        noise_queries(&f, &uniforms(3, 2)),
        vec![
            NoiseQuery::Plane { x: 8192000, y: -4096000 },
            NoiseQuery::Plane { x: 327680 + 6553600, y: -163840 + 6553600 },
            NoiseQuery::Plane { x: 163840 + 3276800 + 65536, y: -81920 + 3276800 + 65536 }
        ]
    );
    assert_eq!(
        noise_queries(&f, &uniforms(4, 40)),
        vec![
            NoiseQuery::Plane { x: 163840, y: -81920 },
            NoiseQuery::Plane { x: 327680, y: -163840 }
        ]
    );
    assert_eq!(
        noise_queries(&f_deep, &uniforms(5, 0)),
        vec![
            NoiseQuery::Space { x: 32768000, y: -16384000, z: 1000000 },
            NoiseQuery::Space {
                x: 32768000 + 65536000000,
                y: -16384000 + 65536000000,
                z: 1000000 + 65536000000
            },
            NoiseQuery::Plane { x: 655360, y: -327680 },
            NoiseQuery::Plane { x: 163840, y: -81920 }
        ]
    );
    assert_eq!(
        noise_queries(&f, &uniforms(7, 40)),
        vec![NoiseQuery::Plane { x: 1638400, y: -819200 }]
    );
    assert_eq!(
        noise_queries(&f, &uniforms(8, 40)),
        vec![NoiseQuery::Plane { x: 491520, y: -245760 }]
    );
}

#[test]
fn earth_queries_bend_the_cloud_point() {
    let at_origin = fragment(ONE, vec3(0, 0, 0), vec3(0, 0, ONE));
    let got = noise_queries(&at_origin, &uniforms(6, 0));
    assert_eq!(got.len(), 2);
    assert_eq!(got[0], NoiseQuery::Plane { x: 45875200, y: 39321600 });
    let swing_x = space_renderer::trig::sin(45875200).raw as i64;
    let swing_y = space_renderer::trig::cos(39321600).raw as i64;
    assert_eq!(got[1], NoiseQuery::Plane { x: swing_x * 37, y: swing_y * 37 });
    // the clouds drift with time, the ground does not
    let later = noise_queries(&at_origin, &uniforms(6, 3));
    assert_eq!(later[0], got[0]);
    assert_eq!(
        later[1],
        NoiseQuery::Plane { x: space_renderer::trig::sin(45875200 + 3 * 32768).raw as i64 * 37, y: swing_y * 37 }
    );
}

#[test]
fn volcanic_queries_pulsate_along_z() {
    let f = facing();
    let at_rest = noise_queries(&f, &uniforms(5, 0));
    // a quarter turn of the pulse: sin = 1, so the field is pushed by 0.5
    let pushed = noise_queries(&f, &uniforms(5, 785));
    let swing = space_renderer::trig::sin(time_angle(785, 500)).raw;
    let push = (swing as i64 * 32768).div_euclid(65536) * 1000;
    assert!(push > 32_000_000);
    match (at_rest[0], pushed[0]) {
        (NoiseQuery::Space { z: z0, .. }, NoiseQuery::Space { z: z1, .. }) => {
            assert_eq!(z0, 0);
            assert_eq!(z1, push);
        }
        _ => panic!("the lava samples are taken in space"),
    }
}

#[test]
fn lighting_terms() {
    assert_eq!(light_direction(), vec3(43691, 43691, 21845));
    assert_eq!(view_direction(), vec3(0, 0, ONE));
    assert_eq!(diffuse(&vec3(0, 0, ONE)).raw, 21845);
    assert_eq!(diffuse(&vec3(0, 0, -ONE)).raw, 0);
    assert_eq!(diffuse(&vec3(ONE, ONE, HALF)).raw, 65535);
    assert_eq!(diffuse(&vec3(0, 0, 0)).raw, 0);
    assert_eq!(lit_factor(raw(0)).raw, 26214);
    assert_eq!(lit_factor(raw(ONE)).raw, 65536);
    assert_eq!(lit_factor(raw(21845)).raw, 39321);
    assert_eq!(pow16(raw(ONE)).raw, ONE);
    assert_eq!(pow16(raw(0)).raw, 0);
    assert_eq!(pow16(raw(58982)).raw, 12141);
    assert_eq!(specular(&vec3(0, 0, ONE), &vec3(0, 0, ONE)).raw, ONE);
    assert_eq!(specular(&vec3(0, 0, -ONE), &vec3(0, 0, ONE)).raw, 0);
}

#[test]
fn coordinates_and_angles() {
    assert_eq!(scaled(raw(HALF), 300, 0), 9830400);
    assert_eq!(scaled(raw(-1), 1000, 5), -995);
    assert_eq!(scaled(raw(i32::MIN), 1000, 0), -2147483648000);
    assert_eq!(scaled(raw(3), -5_000_000, 7), -14_999_993);
    assert_eq!(scaled(raw(i32::MAX), 4_294_967_296, -1), 9_223_372_032_559_808_511);
    assert_eq!(scaled(raw(0), i64::MAX, i64::MIN), i64::MIN);
    assert_eq!(time_angle(0, 10), 0);
    assert_eq!(time_angle(10, 10), 65536);
    assert_eq!(time_angle(7, 20), 22937);
    assert_eq!(time_angle(u32::MAX, 500), 4294967295i64 * 65536 / 500);
}
