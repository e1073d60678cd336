//! The bodies of the scene and where their orbits carry them.

use vstd::prelude::*;
use rand::rngs::ThreadRng;
use rand::Rng;
use crate::fixed::{fits, Fixed};
use crate::trig::{cos, sin, wrap_angle};
use crate::vector::Vec3;

verus! {

/// `rand::rngs::ThreadRng`: the random number generator of the running
/// thread, carried as it is.
#[verifier::external_type_specification]
#[verifier::external_body]
pub struct ExThreadRng(rand::rngs::ThreadRng);

/// `rand::thread_rng`: a handle to the generator of the running thread.
/// Nothing is claimed of it.
pub assume_specification[ rand::thread_rng ]() -> (rng: ThreadRng);

/// `Rng::gen_range` on the half-open range from zero to `bound`, which
/// panics on an empty range: some integer of the range. Which one is
/// left open.
#[verifier::external_body]
fn draw_below(rng: &mut ThreadRng, bound: i32) -> (r: i32)
    requires
        bound > 0,
    ensures
        0 <= r < bound,
{
    rng.gen_range(0..bound)
}

/// The first raw angle past a full turn of `2 pi` radians.
pub const TURN_END: i32 = 411775;

/// Where the earth-like planet starts along `x`: at -26.
pub const EARTH_START: i32 = -1703936;

/// Where the volcanic planet starts along `z`: at -34.
pub const VOLCANIC_START: i32 = -2228224;

/// A body that orbits the origin in the plane of `x` and `z`.
#[derive(Clone, Copy, Debug, PartialEq, Eq, Structural)]
pub struct Planet {
    pub position: Vec3,
    /// Radians per frame about its own axis.
    pub rotation_speed: Fixed,
    pub orbit_radius: Fixed,
    /// Radians per frame along its orbit.
    pub orbit_speed: Fixed,
    /// Where on its orbit it stands at frame zero, in radians.
    pub orbit_phase: Fixed,
    pub scale: Fixed,
    /// The material it is shaded with.
    pub shader_mode: u8,
}

/// A point in space, by its raw coordinates.
pub open spec fn point_spec(x: i32, y: i32, z: i32) -> Vec3 {
    Vec3 { x: Fixed { raw: x }, y: Fixed { raw: y }, z: Fixed { raw: z } }
}

/// The five bodies: the sun at rest in the middle, then a rocky, an icy,
/// an earth-like and a volcanic planet, each starting its orbit at the
/// phase given.
pub open spec fn planet_table_spec(rocky: Fixed, icy: Fixed, earth: Fixed, volcanic: Fixed) -> Seq<
    Planet,
> {
    seq![
        Planet {
            position: point_spec(0, 0, 0),
            rotation_speed: Fixed { raw: 0 },
            orbit_radius: Fixed { raw: 0 },
            orbit_speed: Fixed { raw: 0 },
            orbit_phase: Fixed { raw: 0 },
            scale: Fixed { raw: 262144 },
            shader_mode: 1,
        },
        Planet {
            position: point_spec(655360, 0, 0),
            rotation_speed: Fixed { raw: 6554 },
            orbit_radius: Fixed { raw: 655360 },
            orbit_speed: Fixed { raw: 1311 },
            orbit_phase: rocky,
            scale: Fixed { raw: 157286 },
            shader_mode: 2,
        },
        Planet {
            position: point_spec(0, 0, 1179648),
            rotation_speed: Fixed { raw: 6554 },
            orbit_radius: Fixed { raw: 983040 },
            orbit_speed: Fixed { raw: 655 },
            orbit_phase: icy,
            scale: Fixed { raw: 117965 },
            shader_mode: 4,
        },
        Planet {
            position: point_spec(EARTH_START, 0, 0),
            rotation_speed: Fixed { raw: 6554 },
            orbit_radius: Fixed { raw: 1559757 },
            orbit_speed: Fixed { raw: 983 },
            orbit_phase: earth,
            scale: Fixed { raw: 144179 },
            shader_mode: 6,
        },
        Planet {
            position: point_spec(0, 0, VOLCANIC_START),
            rotation_speed: Fixed { raw: 655 },
            orbit_radius: Fixed { raw: 1913651 },
            orbit_speed: Fixed { raw: 983 },
            orbit_phase: volcanic,
            scale: Fixed { raw: 98304 },
            shader_mode: 5,
        },
    ]
}

/// How far a body has turned about its own axis at a frame: its speed
/// times the frame, as long as that is a `Fixed`; beyond that, the same
/// angle brought into the first full turn.
pub open spec fn turned_spec(rotation_speed: Fixed, time: u32) -> Fixed {
    if fits(rotation_speed.raw * time) {
        Fixed { raw: (rotation_speed.raw * time) as i32 }
    } else {
        Fixed { raw: wrap_angle((rotation_speed.raw * time) as i128) as i32 }
    }
}

/// Where a planet stands and how it is turned at a frame: its place on
/// the orbit, its rotation about the vertical axis, and its size.
pub open spec fn planet_transformation(planet: &Planet, time: u32) -> (Vec3, Vec3, Fixed) {
    let angle = wrap_angle((planet.orbit_speed.raw * time + planet.orbit_phase.raw) as i128);
    let turned = turned_spec(planet.rotation_speed, time);
    (
        Vec3 {
            x: planet.orbit_radius.mul(cos(angle)),
            y: Fixed { raw: 0 },
            z: planet.orbit_radius.mul(sin(angle)),
        },
        Vec3 { x: Fixed { raw: 0 }, y: turned, z: Fixed { raw: 0 } },
        planet.scale,
    )
}

/// A planet after its position has been set for the time `delta_time`.
pub open spec fn updated_planet(planet: &Planet, delta_time: Fixed) -> Planet {
    let reach = planet.orbit_radius.mul(planet.orbit_speed);
    Planet {
        position: Vec3 {
            x: reach.mul(cos(delta_time.raw as i64)).add(planet.rotation_speed.mul(delta_time)),
            y: planet.position.y,
            z: reach.mul(sin(delta_time.raw as i64)),
        },
        ..*planet
    }
}

/// A point in space, by its raw coordinates.
#[verifier::when_used_as_spec(point_spec)]
pub fn point(x: i32, y: i32, z: i32) -> (p: Vec3)
    ensures
        p == point_spec(x, y, z),
{
    Vec3 { x: Fixed { raw: x }, y: Fixed { raw: y }, z: Fixed { raw: z } }
}

/// The five bodies of the scene with the four orbit phases given.
pub fn planet_table(rocky: Fixed, icy: Fixed, earth: Fixed, volcanic: Fixed) -> (planets: Vec<
    Planet,
>)
    ensures
        planets@ == planet_table_spec(rocky, icy, earth, volcanic),
{
    let mut planets: Vec<Planet> = Vec::new();
    planets.push(
        Planet {
            position: point(0, 0, 0),
            rotation_speed: Fixed { raw: 0 },
            orbit_radius: Fixed { raw: 0 },
            orbit_speed: Fixed { raw: 0 },
            orbit_phase: Fixed { raw: 0 },
            scale: Fixed { raw: 262144 },
            shader_mode: 1,
        },
    );
    planets.push(
        Planet {
            position: point(655360, 0, 0),
            rotation_speed: Fixed { raw: 6554 },
            orbit_radius: Fixed { raw: 655360 },
            orbit_speed: Fixed { raw: 1311 },
            orbit_phase: rocky,
            scale: Fixed { raw: 157286 },
            shader_mode: 2,
        },
    );
    planets.push(
        Planet {
            position: point(0, 0, 1179648),
            rotation_speed: Fixed { raw: 6554 },
            orbit_radius: Fixed { raw: 983040 },
            orbit_speed: Fixed { raw: 655 },
            orbit_phase: icy,
            scale: Fixed { raw: 117965 },
            shader_mode: 4,
        },
    );
    planets.push(
        Planet {
            position: point(EARTH_START, 0, 0),
            rotation_speed: Fixed { raw: 6554 },
            orbit_radius: Fixed { raw: 1559757 },
            orbit_speed: Fixed { raw: 983 },
            orbit_phase: earth,
            scale: Fixed { raw: 144179 },
            shader_mode: 6,
        },
    );
    planets.push(
        Planet {
            position: point(0, 0, VOLCANIC_START),
            rotation_speed: Fixed { raw: 655 },
            orbit_radius: Fixed { raw: 1913651 },
            orbit_speed: Fixed { raw: 983 },
            orbit_phase: volcanic,
            scale: Fixed { raw: 98304 },
            shader_mode: 5,
        },
    );
    assert(planets@ =~= planet_table_spec(rocky, icy, earth, volcanic));
    planets
}

/// `phase` is an angle of the first full turn.
pub open spec fn in_turn(phase: Fixed) -> bool {
    0 <= phase.raw < TURN_END
}

/// The five bodies of the scene, each planet starting at a phase drawn
/// at random from the first full turn.
pub fn generate_planets() -> (planets: Vec<Planet>)
    ensures
        exists|rocky: Fixed, icy: Fixed, earth: Fixed, volcanic: Fixed|
            in_turn(rocky) && in_turn(icy) && in_turn(earth) && in_turn(volcanic) && planets@
                == #[trigger] planet_table_spec(rocky, icy, earth, volcanic),
{
    let mut rng = rand::thread_rng();
    let rocky = Fixed { raw: draw_below(&mut rng, TURN_END) };
    let icy = Fixed { raw: draw_below(&mut rng, TURN_END) };
    let earth = Fixed { raw: draw_below(&mut rng, TURN_END) };
    let volcanic = Fixed { raw: draw_below(&mut rng, TURN_END) };
    planet_table(rocky, icy, earth, volcanic)
}

/// How far a body has turned about its own axis at a frame.
#[verifier::when_used_as_spec(turned_spec)]
pub fn turned(rotation_speed: Fixed, time: u32) -> (angle: Fixed)
    ensures
        angle == turned_spec(rotation_speed, time),
{
    assert(-0x8000_0000 * 0x1_0000_0000 <= rotation_speed.raw as int * time as int <= 0x8000_0000
        * 0x1_0000_0000) by (nonlinear_arith)
        requires
            -0x8000_0000 <= rotation_speed.raw <= 0x7fff_ffff,
            0 <= time <= 0xffff_ffff,
    ;
    let whole: i128 = rotation_speed.raw as i128 * time as i128;
    if -0x8000_0000 <= whole && whole <= 0x7fff_ffff {
        Fixed { raw: whole as i32 }
    } else {
        Fixed { raw: wrap_angle(whole) as i32 }
    }
}

/// Place, rotation and size of one planet at a frame.
pub fn transformation_of(planet: &Planet, time: u32) -> (t: (Vec3, Vec3, Fixed))
    ensures
        t == planet_transformation(planet, time),
{
    assert(-0x8000_0000 * 0x1_0000_0000 <= planet.orbit_speed.raw as int * time as int
        <= 0x8000_0000 * 0x1_0000_0000) by (nonlinear_arith)
        requires
            -0x8000_0000 <= planet.orbit_speed.raw <= 0x7fff_ffff,
            0 <= time <= 0xffff_ffff,
    ;
    let angle: i64 = wrap_angle(
        planet.orbit_speed.raw as i128 * time as i128 + planet.orbit_phase.raw as i128,
    );
    let turned: Fixed = turned(planet.rotation_speed, time);
    let orbit_x: Fixed = planet.orbit_radius.mul(cos(angle));
    let orbit_z: Fixed = planet.orbit_radius.mul(sin(angle));
    (
        Vec3 { x: orbit_x, y: Fixed::zero(), z: orbit_z },
        Vec3 { x: Fixed::zero(), y: turned, z: Fixed::zero() },
        planet.scale,
    )
}

/// Place, rotation and size of every planet at a frame.
pub fn calculate_planet_transformations(planets: &Vec<Planet>, time: u32) -> (out: Vec<
    (Vec3, Vec3, Fixed),
>)
    ensures
        out@.len() == planets@.len(),
        forall|i: int|
            0 <= i < planets@.len() ==> #[trigger] out@[i] == planet_transformation(
                &planets@[i],
                time,
            ),
{
    let mut out: Vec<(Vec3, Vec3, Fixed)> = Vec::new();
    let mut i: usize = 0;
    while i < planets.len()
        invariant
            i <= planets@.len(),
            out@.len() == i,
            forall|k: int|
                0 <= k < i ==> #[trigger] out@[k] == planet_transformation(&planets@[k], time),
        decreases planets@.len() - i,
    {
        out.push(transformation_of(&planets[i], time));
        i = i + 1;
    }
    out
}

/// Sets the position of every planet for the time `delta_time`.
pub fn update_planets(planets: &mut Vec<Planet>, delta_time: Fixed)
    ensures
        final(planets)@.len() == old(planets)@.len(),
        forall|i: int|
            0 <= i < old(planets)@.len() ==> #[trigger] final(planets)@[i] == updated_planet(
                &old(planets)@[i],
                delta_time,
            ),
{
    let mut i: usize = 0;
    while i < planets.len()
        invariant
            i <= planets@.len(),
            planets@.len() == old(planets)@.len(),
            forall|k: int|
                0 <= k < i ==> #[trigger] planets@[k] == updated_planet(
                    &old(planets)@[k],
                    delta_time,
                ),
            forall|k: int| i <= k < planets@.len() ==> #[trigger] planets@[k] == old(planets)@[k],
        decreases planets@.len() - i,
    {
        let planet: Planet = planets[i];
        let reach: Fixed = planet.orbit_radius.mul(planet.orbit_speed);
        let mut position: Vec3 = planet.position;
        position.x = reach.mul(cos(delta_time.raw as i64));
        position.z = reach.mul(sin(delta_time.raw as i64));
        position.x = position.x.add(planet.rotation_speed.mul(delta_time));
        planets.set(i, Planet { position, ..planet });
        i = i + 1;
    }
}

} // verus!
