use space_renderer::camera::Camera;
use space_renderer::fixed::Fixed;
use space_renderer::input::{define_warp_positions, handle_input, movement, KeyState, WarpDestination};
use space_renderer::planets::{
    calculate_planet_transformations, generate_planets, planet_table, point, transformation_of,
    turned, update_planets, Planet,
};
use space_renderer::vector::Vec3;

const ONE: i32 = 65536;

fn raw(value: i32) -> Fixed {
    Fixed::from_raw(value)
}

fn no_keys() -> KeyState {
    KeyState {
        left: false,
        right: false,
        w: false,
        s: false,
        a: false,
        d: false,
        q: false,
        e: false,
        up: false,
        down: false,
        key1: false,
        key2: false,
        key3: false,
        key4: false,
    }
}

fn start() -> Camera {
    Camera::new(point(0, 0, 5 * ONE), point(0, 0, 0), point(0, ONE, 0))
}

struct Outcome {
    camera: Camera,
    position: Vec3,
    target: Vec3,
    index: usize,
}

fn press(keys: &KeyState, destinations: &Vec<WarpDestination>) -> Outcome {
    let mut camera = start();
    let mut position = camera.eye;
    let mut target = camera.center;
    let mut index = 0usize;
    handle_input(keys, &mut camera, destinations, &mut position, &mut target, &mut index);
    Outcome { camera, position, target, index }
}

#[test]
fn planets_are_the_five_of_the_table() {
    let planets = planet_table(raw(1), raw(2), raw(3), raw(4));
    assert_eq!(planets.len(), 5);
    let modes: Vec<u8> = planets.iter().map(|p| p.shader_mode).collect();
    assert_eq!(modes, vec![1, 2, 4, 6, 5]);
    let phases: Vec<i32> = planets.iter().map(|p| p.orbit_phase.raw).collect();
    assert_eq!(phases, vec![0, 1, 2, 3, 4]);
    assert_eq!(
        planets[0],
        Planet {
            position: point(0, 0, 0),
            rotation_speed: raw(0),
            orbit_radius: raw(0),
            orbit_speed: raw(0),
            orbit_phase: raw(0),
            scale: raw(4 * ONE),
            shader_mode: 1,
        }
    );
    assert_eq!(planets[1].position, point(10 * ONE, 0, 0));
    assert_eq!(planets[1].orbit_radius, raw(10 * ONE));
    assert_eq!(planets[2].position, point(0, 0, 18 * ONE));
    assert_eq!(planets[2].orbit_radius, raw(15 * ONE));
    assert_eq!(planets[3].position, point(-26 * ONE, 0, 0));
    assert_eq!(planets[3].scale, raw(144179));
    assert_eq!(planets[4].position, point(0, 0, -34 * ONE));
    assert_eq!(planets[4].rotation_speed, raw(655));
}

#[test]
fn generated_planets_start_within_the_first_turn() {
    for _ in 0..50 {
        let planets = generate_planets();
        assert_eq!(planets.len(), 5);
        for p in planets.iter().skip(1) {
            assert!(0 <= p.orbit_phase.raw && p.orbit_phase.raw < 411775);
        }
        let expected = planet_table(
            planets[1].orbit_phase,
            planets[2].orbit_phase,
            planets[3].orbit_phase,
            planets[4].orbit_phase,
        );
        assert_eq!(planets, expected);
    }
}

#[test]
fn generated_phases_are_drawn_anew() {
    let mut seen = Vec::new();
    for _ in 0..20 {
        seen.push(generate_planets()[1].orbit_phase.raw);
    }
    seen.sort();
    seen.dedup();
    assert!(seen.len() > 1);
}

#[test]
fn planets_move_along_their_orbits() {
    let planets = planet_table(raw(1000), raw(0), raw(0), raw(0));
    let rocky = planets[1];
    assert_eq!(transformation_of(&rocky, 0), (point(655280, 0, 10170), point(0, 0, 0), raw(157286)));
    assert_eq!(
        transformation_of(&rocky, 100),
        (point(-282380, 0, 590930), point(0, 655400, 0), raw(157286))
    );
    assert_eq!(
        transformation_of(&rocky, 4_000_000_000),
        (point(-78250, 0, 650720), point(0, 128768, 0), raw(157286))
    );
    assert_eq!(transformation_of(&planets[0], 12345), (point(0, 0, 0), point(0, 0, 0), raw(4 * ONE)));
    let all = calculate_planet_transformations(&planets, 100);
    assert_eq!(all.len(), 5);
    for (p, t) in planets.iter().zip(all.iter()) {
        assert_eq!(*t, transformation_of(p, 100));
    }
    assert_eq!(calculate_planet_transformations(&Vec::new(), 1).len(), 0);
}

#[test]
fn rotation_is_speed_times_frame() {
    assert_eq!(turned(raw(6554), 0), raw(0));
    assert_eq!(turned(raw(6554), 100), raw(655400));
    assert_eq!(turned(raw(-6554), 100), raw(-655400));
    assert_eq!(turned(raw(6554), 327_660), raw(6554 * 327_660));
    // beyond the range the same angle is taken within the first turn
    assert_eq!(turned(raw(6554), 327_680), raw(202880));
    assert_eq!(turned(raw(6554), 4_000_000_000), raw(128768));
    assert_eq!(turned(raw(1), u32::MAX).raw as i64, 4_294_967_295i64 % 411_776);
}

#[test]
fn planets_are_updated_in_place() {
    let mut planets = planet_table(raw(1000), raw(0), raw(0), raw(0));
    let before = planets.clone();
    update_planets(&mut planets, raw(1092));
    assert_eq!(planets.len(), 5);
    assert_eq!(planets[1].position, point(13216, 0, 222));
    assert_eq!(planets[0].position, point(0, 0, 0));
    for (now, then) in planets.iter().zip(before.iter()) {
        assert_eq!(now.orbit_phase, then.orbit_phase);
        assert_eq!(now.orbit_radius, then.orbit_radius);
        assert_eq!(now.shader_mode, then.shader_mode);
        assert_eq!(now.position.y, then.position.y);
    }
}

#[test]
fn warp_destinations_are_the_four_of_the_table() {
    let destinations = define_warp_positions(&Vec::new());
    assert_eq!(
        destinations,
        vec![
            WarpDestination { position: point(0, 50 * ONE, 50 * ONE), target: point(0, 0, 0) },
            WarpDestination { position: point(0, 0, 6 * ONE), target: point(0, 0, 0) },
            WarpDestination { position: point(1627558, 211866, 61165), target: point(10 * ONE, 0, 0) },
            WarpDestination { position: point(0, 152974, 2903745), target: point(0, 0, 18 * ONE) },
        ]
    );
}

#[test]
fn no_keys_leave_everything_in_place() {
    let destinations = define_warp_positions(&Vec::new());
    let out = press(&no_keys(), &destinations);
    assert_eq!(out.camera, start());
    assert_eq!(out.position, start().eye);
    assert_eq!(out.target, start().center);
    assert_eq!(out.index, 0);
}

#[test]
fn orbit_keys_turn_the_camera() {
    let destinations = define_warp_positions(&Vec::new());
    let left = press(&KeyState { left: true, ..no_keys() }, &destinations);
    assert_eq!(left.camera.eye, point(-20880, 0, 327020));
    let right = press(&KeyState { right: true, ..no_keys() }, &destinations);
    assert_eq!(right.camera.eye, point(20880, 0, 327020));
    let s = press(&KeyState { s: true, ..no_keys() }, &destinations);
    assert_eq!(s.camera.eye, point(0, -20880, 327020));
    let w = press(&KeyState { w: true, ..no_keys() }, &destinations);
    assert_eq!(w.camera.eye, point(0, 20880, 327020));
    for out in [&left, &right, &s, &w] {
        assert_eq!(out.camera.center, point(0, 0, 0));
        assert_eq!(out.index, 0);
    }
}

#[test]
fn movement_keys_pan_the_camera() {
    let destinations = define_warp_positions(&Vec::new());
    assert_eq!(movement(&no_keys()), point(0, 0, 0));
    assert_eq!(movement(&KeyState { a: true, ..no_keys() }), point(-ONE, 0, 0));
    assert_eq!(movement(&KeyState { d: true, q: true, ..no_keys() }), point(ONE, ONE, 0));
    assert_eq!(movement(&KeyState { a: true, d: true, e: true, ..no_keys() }), point(0, -ONE, 0));
    let out = press(&KeyState { d: true, e: true, ..no_keys() }, &destinations);
    assert_eq!(out.camera.eye, point(ONE, -ONE, 5 * ONE));
    assert_eq!(out.camera.center, point(ONE, -ONE, 0));
    let cancelled = press(&KeyState { a: true, d: true, q: true, e: true, ..no_keys() }, &destinations);
    assert_eq!(cancelled.camera, start());
}

#[test]
fn zoom_keys_move_the_eye() {
    let destinations = define_warp_positions(&Vec::new());
    let nearer = press(&KeyState { up: true, ..no_keys() }, &destinations);
    assert_eq!(nearer.camera.eye, point(0, 0, 5 * ONE - 6554));
    let farther = press(&KeyState { down: true, ..no_keys() }, &destinations);
    assert_eq!(farther.camera.eye, point(0, 0, 5 * ONE + 6554));
    let both = press(&KeyState { up: true, down: true, ..no_keys() }, &destinations);
    assert_eq!(both.camera.eye, point(0, 0, 5 * ONE));
}

#[test]
fn warp_keys_jump_to_their_destinations() {
    let destinations = define_warp_positions(&Vec::new());
    let keys = [
        KeyState { key1: true, ..no_keys() },
        KeyState { key2: true, ..no_keys() },
        KeyState { key3: true, ..no_keys() },
        KeyState { key4: true, ..no_keys() },
    ];
    for (i, k) in keys.iter().enumerate() {
        let out = press(k, &destinations);
        assert_eq!(out.index, i);
        assert_eq!(out.camera.eye, destinations[i].position);
        assert_eq!(out.camera.center, destinations[i].target);
        assert_eq!(out.position, destinations[i].position);
        assert_eq!(out.target, destinations[i].target);
        assert_eq!(out.camera.up, start().up);
    }
    // of several warp keys the last one counts, and warps override the steering
    let out = press(&KeyState { key2: true, key3: true, left: true, up: true, ..no_keys() }, &destinations);
    assert_eq!(out.index, 2);
    assert_eq!(out.camera.eye, destinations[2].position);
}

#[test]
fn no_destinations_leave_the_warp_keys_without_effect() {
    let none: Vec<WarpDestination> = Vec::new();
    let idle = press(&no_keys(), &none);
    assert_eq!(idle.camera, start());
    assert_eq!(idle.position, start().eye);
    assert_eq!(idle.target, start().center);
    assert_eq!(idle.index, 0);
    let pressed = press(&KeyState { key1: true, key4: true, ..no_keys() }, &none);
    assert_eq!(pressed.camera, start());
    assert_eq!(pressed.index, 0);
    // steering still works
    let left = press(&KeyState { left: true, key2: true, ..no_keys() }, &none);
    assert_eq!(left.camera.eye, point(-20880, 0, 327020));
}

#[test]
fn warp_keys_beyond_the_table_take_the_last_destination() {
    let all = define_warp_positions(&Vec::new());
    let two = vec![all[0], all[1]];
    let out = press(&KeyState { key4: true, ..no_keys() }, &two);
    assert_eq!(out.index, 1);
    assert_eq!(out.camera.eye, all[1].position);
    let one = vec![all[3]];
    let out = press(&KeyState { key1: true, ..no_keys() }, &one);
    assert_eq!(out.index, 0);
    assert_eq!(out.camera.eye, all[3].position);
    let out = press(&KeyState { key3: true, ..no_keys() }, &one);
    assert_eq!(out.index, 0);
    assert_eq!(out.camera.center, all[3].target);
}
