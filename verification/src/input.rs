//! What the keys do to the camera.

use vstd::prelude::*;
use crate::camera::Camera;
use crate::fixed::Fixed;
use crate::planets::{point, Planet};
use crate::vector::Vec3;

verus! {

/// The angle of one orbit step: `pi / 50`.
pub const ROTATION_SPEED: i32 = 4118;

/// The length of one zoom step: 0.1.
pub const ZOOM_SPEED: i32 = 6554;

/// The length of one pan step: 1.
pub const MOVEMENT_SPEED: i32 = 65536;

/// A place to jump to and the point to look at from there.
#[derive(Clone, Copy, Debug, PartialEq, Eq, Structural)]
pub struct WarpDestination {
    pub position: Vec3,
    pub target: Vec3,
}

/// The keys that matter, as the window reports them for one frame. The
/// four warp keys count only in the frame in which they go down.
#[derive(Clone, Copy, Debug, PartialEq, Eq, Structural)]
pub struct KeyState {
    pub left: bool,
    pub right: bool,
    pub w: bool,
    pub s: bool,
    pub a: bool,
    pub d: bool,
    pub q: bool,
    pub e: bool,
    pub up: bool,
    pub down: bool,
    pub key1: bool,
    pub key2: bool,
    pub key3: bool,
    pub key4: bool,
}

/// What the keys steer: the camera, and the place, target and number of
/// the last warp.
#[derive(Clone, Copy, Debug, PartialEq, Eq, Structural)]
pub struct Controls {
    pub camera: Camera,
    pub position: Vec3,
    pub target: Vec3,
    pub warp_index: usize,
}

/// The four warp destinations: above the whole system, at the sun, at
/// the rocky planet and at the icy planet.
pub open spec fn warp_table() -> Seq<WarpDestination> {
    seq![
        WarpDestination { position: point(0, 3276800, 3276800), target: point(0, 0, 0) },
        WarpDestination { position: point(0, 0, 393216), target: point(0, 0, 0) },
        WarpDestination { position: point(1627558, 211866, 61165), target: point(655360, 0, 0) },
        WarpDestination { position: point(0, 152974, 2903745), target: point(0, 0, 1179648) },
    ]
}

/// The camera after the orbit keys: left and right turn it one step
/// either way, `W` and `S` pitch it.
pub open spec fn after_orbit_keys(camera: Camera, keys: &KeyState) -> Camera {
    let step = Fixed { raw: ROTATION_SPEED };
    let zero = Fixed { raw: 0 };
    let c1 = if keys.left {
        camera.orbit_spec(step, zero)
    } else {
        camera
    };
    let c2 = if keys.right {
        c1.orbit_spec(step.neg(), zero)
    } else {
        c1
    };
    let c3 = if keys.w {
        c2.orbit_spec(zero, step.neg())
    } else {
        c2
    };
    if keys.s {
        c3.orbit_spec(zero, step)
    } else {
        c3
    }
}

/// The pan the movement keys ask for: `A` and `D` along `x`, `Q` and `E`
/// along `y`, one unit each.
pub open spec fn movement_spec(keys: &KeyState) -> Vec3 {
    let step = Fixed { raw: MOVEMENT_SPEED };
    let zero = Fixed { raw: 0 };
    let x1 = if keys.a {
        zero.sub(step)
    } else {
        zero
    };
    let x2 = if keys.d {
        x1.add(step)
    } else {
        x1
    };
    let y1 = if keys.q {
        zero.add(step)
    } else {
        zero
    };
    let y2 = if keys.e {
        y1.sub(step)
    } else {
        y1
    };
    Vec3 { x: x2, y: y2, z: zero }
}

/// The camera after the movement keys: panned, if the pan has any length.
pub open spec fn after_movement_keys(camera: Camera, keys: &KeyState) -> Camera {
    if movement_spec(keys).length().raw > 0 {
        camera.move_center_spec(&movement_spec(keys))
    } else {
        camera
    }
}

/// The camera after the zoom keys: up zooms in one step, down zooms out.
pub open spec fn after_zoom_keys(camera: Camera, keys: &KeyState) -> Camera {
    let c1 = if keys.up {
        camera.zoom_spec(Fixed { raw: ZOOM_SPEED })
    } else {
        camera
    };
    if keys.down {
        c1.zoom_spec(Fixed { raw: ZOOM_SPEED }.neg())
    } else {
        c1
    }
}

/// The controls after warp key `i`, if it went down: the camera jumps to
/// destination `i`, or to the last destination if there are fewer.
pub open spec fn after_warp_key(
    controls: Controls,
    pressed: bool,
    i: int,
    destinations: Seq<WarpDestination>,
) -> Controls {
    if pressed && destinations.len() > 0 {
        let index = if i < destinations.len() - 1 {
            i
        } else {
            destinations.len() - 1
        };
        Controls {
            camera: Camera {
                eye: destinations[index].position,
                center: destinations[index].target,
                up: controls.camera.up,
            },
            position: destinations[index].position,
            target: destinations[index].target,
            warp_index: index as usize,
        }
    } else {
        controls
    }
}

/// The controls after one frame of input: orbit, pan, zoom, then the
/// four warp keys in turn.
pub open spec fn after_input(
    controls: Controls,
    keys: &KeyState,
    destinations: Seq<WarpDestination>,
) -> Controls {
    let steered = Controls {
        camera: after_zoom_keys(
            after_movement_keys(after_orbit_keys(controls.camera, keys), keys),
            keys,
        ),
        ..controls
    };
    after_warp_key(
        after_warp_key(
            after_warp_key(after_warp_key(steered, keys.key1, 0, destinations), keys.key2, 1, destinations),
            keys.key3,
            2,
            destinations,
        ),
        keys.key4,
        3,
        destinations,
    )
}

/// The warp destinations of the scene.
pub fn define_warp_positions(planets: &Vec<Planet>) -> (destinations: Vec<WarpDestination>)
    ensures
        destinations@ == warp_table(),
{
    let mut destinations: Vec<WarpDestination> = Vec::new();
    destinations.push(
        WarpDestination { position: point(0, 3276800, 3276800), target: point(0, 0, 0) },
    );
    destinations.push(WarpDestination { position: point(0, 0, 393216), target: point(0, 0, 0) });
    destinations.push(
        WarpDestination { position: point(1627558, 211866, 61165), target: point(655360, 0, 0) },
    );
    destinations.push(
        WarpDestination { position: point(0, 152974, 2903745), target: point(0, 0, 1179648) },
    );
    assert(destinations@ =~= warp_table());
    destinations
}

/// The pan the movement keys ask for.
#[verifier::when_used_as_spec(movement_spec)]
pub fn movement(keys: &KeyState) -> (m: Vec3)
    ensures
        m == movement_spec(keys),
{
    let movement_speed = Fixed { raw: MOVEMENT_SPEED };
    let mut m = Vec3 { x: Fixed::zero(), y: Fixed::zero(), z: Fixed::zero() };
    if keys.a {
        m.x = m.x.sub(movement_speed);
    }
    if keys.d {
        m.x = m.x.add(movement_speed);
    }
    if keys.q {
        m.y = m.y.add(movement_speed);
    }
    if keys.e {
        m.y = m.y.sub(movement_speed);
    }
    m
}

fn orbit_keys(camera: &mut Camera, keys: &KeyState)
    ensures
        *final(camera) == after_orbit_keys(*old(camera), keys),
{
    let rotation_speed = Fixed { raw: ROTATION_SPEED };
    let still: Fixed = Fixed::zero();
    if keys.left {
        camera.orbit(rotation_speed, still);
    }
    if keys.right {
        camera.orbit(rotation_speed.neg(), still);
    }
    if keys.w {
        camera.orbit(still, rotation_speed.neg());
    }
    if keys.s {
        camera.orbit(still, rotation_speed);
    }
}

fn movement_keys(camera: &mut Camera, keys: &KeyState)
    ensures
        *final(camera) == after_movement_keys(*old(camera), keys),
{
    let pan: Vec3 = movement(keys);
    if pan.length().raw > 0 {
        camera.move_center(pan);
    }
}

fn zoom_keys(camera: &mut Camera, keys: &KeyState)
    ensures
        *final(camera) == after_zoom_keys(*old(camera), keys),
{
    let zoom_speed = Fixed { raw: ZOOM_SPEED };
    if keys.up {
        camera.zoom(zoom_speed);
    }
    if keys.down {
        camera.zoom(zoom_speed.neg());
    }
}

fn warp(
    pressed: bool,
    i: usize,
    camera: &mut Camera,
    warp_destinations: &Vec<WarpDestination>,
    current_position: &mut Vec3,
    current_target: &mut Vec3,
    current_warp_index: &mut usize,
)
    ensures
        (Controls {
            camera: *final(camera),
            position: *final(current_position),
            target: *final(current_target),
            warp_index: *final(current_warp_index),
        }) == after_warp_key(
            Controls {
                camera: *old(camera),
                position: *old(current_position),
                target: *old(current_target),
                warp_index: *old(current_warp_index),
            },
            pressed,
            i as int,
            warp_destinations@,
        ),
{
    if pressed && warp_destinations.len() > 0 {
        let last: usize = warp_destinations.len() - 1;
        let index: usize = if i < last {
            i
        } else {
            last
        };
        *current_warp_index = index;
        let target_position: Vec3 = warp_destinations[index].position;
        let target_target: Vec3 = warp_destinations[index].target;
        camera.eye = target_position;
        camera.center = target_target;
        *current_position = camera.eye;
        *current_target = camera.center;
    }
}

/// Applies one frame of input to the camera and to the record of the
/// last warp. A warp key does nothing where there is no destination.
pub fn handle_input(
    keys: &KeyState,
    camera: &mut Camera,
    warp_destinations: &Vec<WarpDestination>,
    current_position: &mut Vec3,
    current_target: &mut Vec3,
    current_warp_index: &mut usize,
)
    ensures
        (Controls {
            camera: *final(camera),
            position: *final(current_position),
            target: *final(current_target),
            warp_index: *final(current_warp_index),
        }) == after_input(
            Controls {
                camera: *old(camera),
                position: *old(current_position),
                target: *old(current_target),
                warp_index: *old(current_warp_index),
            },
            keys,
            warp_destinations@,
        ),
{
    orbit_keys(camera, keys);
    movement_keys(camera, keys);
    zoom_keys(camera, keys);
    warp(keys.key1, 0, camera, warp_destinations, current_position, current_target, current_warp_index);
    warp(keys.key2, 1, camera, warp_destinations, current_position, current_target, current_warp_index);
    warp(keys.key3, 2, camera, warp_destinations, current_position, current_target, current_warp_index);
    warp(keys.key4, 3, camera, warp_destinations, current_position, current_target, current_warp_index);
}

} // verus!
