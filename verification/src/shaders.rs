//! The vertex stage and the eight materials.
//!
//! A material is a pure function of a fragment, the frame counter and
//! the noise samples it asked for. Shading a fragment takes two calls:
//! `noise_queries` names the points of the noise field the material
//! wants, and `fragment_shader` turns the samples taken there, in the
//! same order, into the colour.

use vstd::prelude::*;
use crate::color::Color;
use crate::fixed::Fixed;
use crate::fragment::Fragment;
use crate::lighting::{diffuse, light_direction, lit_factor, specular, view_direction};
use crate::matrix::{Mat3, Mat4, Vec4};
use crate::noise::{sample, sample_spec, scaled, time_angle, NoiseQuery};
use crate::trig::{cos, sin};
use crate::uniforms::Uniforms;
use crate::vector::Vec3;
use crate::vertex::Vertex;

verus! {

/// 0.1 in raw units.
pub const TENTH: i32 = 6554;

/// 0.2 in raw units.
pub const FIFTH: i32 = 13107;

/// 0.3 in raw units.
pub const THREE_TENTHS: i32 = 19661;

/// 0.4 in raw units.
pub const TWO_FIFTHS: i32 = 26214;

/// 0.5 in raw units.
pub const HALF: i32 = 32768;

/// 0.7 in raw units.
pub const SEVEN_TENTHS: i32 = 45875;

/// The `w` to divide by: a `w` of exactly zero is replaced by the
/// smallest positive value, so that the division is defined and the
/// vertex lands far off the screen.
pub open spec fn guarded_w_spec(w: Fixed) -> Fixed {
    if w.raw == 0 {
        Fixed { raw: 1 }
    } else {
        w
    }
}

/// The matrix that carries normals: the inverse of the transpose of the
/// rotation and scale of the model, or the identity where that has no
/// inverse.
pub open spec fn normal_matrix_spec(uniforms: &Uniforms) -> Mat3 {
    match uniforms.model_matrix.upper_left().transpose().try_inverse() {
        Some(m) => m,
        None => Mat3::identity(),
    }
}

/// Clip-space position of a vertex: `projection * view * model * [position, 1]`.
pub open spec fn clip_position_spec(vertex: &Vertex, uniforms: &Uniforms) -> Vec4 {
    uniforms.projection_matrix.mul(&uniforms.view_matrix).mul(&uniforms.model_matrix).mul_vec(
        &Vec4::from_point(&vertex.position),
    )
}

/// The vertex after the vertex stage: its screen position is
/// `viewport * (clip / clip.w)`, its normal is carried by the normal
/// matrix, and what the mesh supplied is unchanged.
pub open spec fn vertex_shader_spec(vertex: &Vertex, uniforms: &Uniforms) -> Vertex {
    let clip = clip_position_spec(vertex, uniforms);
    let w = guarded_w_spec(clip.w);
    let device = Vec4 { x: clip.x.div(w), y: clip.y.div(w), z: clip.z.div(w), w: Fixed::one() };
    let on_screen = uniforms.viewport_matrix.mul_vec(&device);
    Vertex {
        position: vertex.position,
        normal: vertex.normal,
        tex_coords: vertex.tex_coords,
        color: vertex.color,
        transformed_position: Vec3 { x: on_screen.x, y: on_screen.y, z: on_screen.z },
        transformed_normal: normal_matrix_spec(uniforms).mul_vec(&vertex.normal),
    }
}

/// The `w` to divide by: never zero.
#[verifier::when_used_as_spec(guarded_w_spec)]
pub fn guarded_w(w: Fixed) -> (g: Fixed)
    ensures
        g == guarded_w_spec(w),
        g.raw != 0,
{
    if w.raw == 0 {
        Fixed { raw: 1 }
    } else {
        w
    }
}

/// The matrix that carries the normals of a draw call.
#[verifier::when_used_as_spec(normal_matrix_spec)]
pub fn normal_matrix(uniforms: &Uniforms) -> (m: Mat3)
    ensures
        m == normal_matrix_spec(uniforms),
        uniforms.model_matrix.upper_left().transpose().is_singular() ==> m == Mat3::identity(),
{
    match uniforms.model_matrix.upper_left().transpose().try_inverse() {
        Some(m) => m,
        None => Mat3::identity(),
    }
}

/// Carries a mesh vertex to the screen.
#[verifier::when_used_as_spec(vertex_shader_spec)]
pub fn vertex_shader(vertex: &Vertex, uniforms: &Uniforms) -> (out: Vertex)
    ensures
        out == vertex_shader_spec(vertex, uniforms),
        out.position == vertex.position,
        out.normal == vertex.normal,
        out.tex_coords == vertex.tex_coords,
        out.color == vertex.color,
{
    let position: Vec4 = Vec4::from_point(&vertex.position);
    let combined = uniforms.projection_matrix.mul(&uniforms.view_matrix).mul(&uniforms.model_matrix);
    let clip: Vec4 = combined.mul_vec(&position);
    let w: Fixed = guarded_w(clip.w);
    let device = Vec4 { x: clip.x.div(w), y: clip.y.div(w), z: clip.z.div(w), w: Fixed::one() };
    let on_screen: Vec4 = uniforms.viewport_matrix.mul_vec(&device);
    let carried: Vec3 = normal_matrix(uniforms).mul_vec(&vertex.normal);
    Vertex {
        position: vertex.position,
        normal: vertex.normal,
        tex_coords: vertex.tex_coords,
        color: vertex.color,
        transformed_position: Vec3 { x: on_screen.x, y: on_screen.y, z: on_screen.z },
        transformed_normal: carried,
    }
}

// ---------------------------------------------------------------- star

/// The star samples the 3D field at its position scaled by 300, moving
/// through the field at a twentieth of a unit per frame.
pub open spec fn star_points(fragment: &Fragment, time: u32) -> Seq<NoiseQuery> {
    seq![
        NoiseQuery::Space {
            x: scaled(fragment.vertex_position.x, 300, 0),
            y: scaled(fragment.vertex_position.y, 300, 0),
            z: time_angle(time, 20),
        },
    ]
}

/// The brightness of the star at a frame: `sin(time / 10) * 0.3 + 0.7`.
pub open spec fn star_pulse_spec(time: u32) -> Fixed {
    sin(time_angle(time, 10)).mul(Fixed { raw: THREE_TENTHS }).add(Fixed { raw: SEVEN_TENTHS })
}

/// The star: from fiery orange to bright yellow by the noise, pulsating
/// with time, times the intensity of the fragment.
pub open spec fn star_color(fragment: &Fragment, time: u32, samples: Seq<Fixed>) -> Color {
    Color::new(255, 69, 0).lerp(&Color::new(255, 223, 0), sample_spec(samples, 0)).scale(
        star_pulse_spec(time),
    ).scale(fragment.intensity)
}

/// The brightness of the star at a frame.
#[verifier::when_used_as_spec(star_pulse_spec)]
pub fn star_pulse(time: u32) -> (p: Fixed)
    ensures
        p == star_pulse_spec(time),
{
    let swing: Fixed = sin(time_angle(time, 10));
    swing.mul(Fixed { raw: THREE_TENTHS }).add(Fixed { raw: SEVEN_TENTHS })
}

/// The points of the noise field that the star samples for a fragment.
pub fn star_queries(fragment: &Fragment, uniforms: &Uniforms) -> (queries: Vec<NoiseQuery>)
    ensures
        queries@ == star_points(fragment, uniforms.time),
{
    let mut queries: Vec<NoiseQuery> = Vec::new();
    queries.push(
        NoiseQuery::Space {
            x: scaled(fragment.vertex_position.x, 300, 0),
            y: scaled(fragment.vertex_position.y, 300, 0),
            z: time_angle(uniforms.time, 20),
        },
    );
    assert(queries@ =~= star_points(fragment, uniforms.time));
    queries
}

/// The colour of a fragment of the star, from the samples taken for it.
pub fn star_shader(fragment: &Fragment, uniforms: &Uniforms, samples: &Vec<Fixed>) -> (c: Color)
    ensures
        c == star_color(fragment, uniforms.time, samples@),
{
    let bright_color = Color::new(255, 223, 0);
    let dark_color = Color::new(255, 69, 0);
    let noise_value: Fixed = sample(samples, 0);
    let intensity: Fixed = star_pulse(uniforms.time);
    let color: Color = dark_color.lerp(&bright_color, noise_value).scale(intensity);
    color.scale(fragment.intensity)
}

// ------------------------------------------------------ broken terrain

/// Broken terrain samples the 2D field twice: at 10 times its position
/// for the ground, at 30 times for the cracks.
pub open spec fn broken_terrain_points(fragment: &Fragment) -> Seq<NoiseQuery> {
    seq![
        NoiseQuery::Plane {
            x: scaled(fragment.vertex_position.x, 10, 0),
            y: scaled(fragment.vertex_position.y, 10, 0),
        },
        NoiseQuery::Plane {
            x: scaled(fragment.vertex_position.x, 30, 0),
            y: scaled(fragment.vertex_position.y, 30, 0),
        },
    ]
}

/// Broken terrain: dirt where the ground noise is below 0.2, rock
/// elsewhere, blended towards the crack colour by the size of the crack
/// noise.
pub open spec fn broken_terrain_color(fragment: &Fragment, samples: Seq<Fixed>) -> Color {
    let ground = if sample_spec(samples, 0).raw < FIFTH {
        Color::new(100, 70, 40)
    } else {
        Color::new(140, 130, 120)
    };
    let crack = sample_spec(samples, 1).abs().clamp(Fixed::zero(), Fixed::one());
    ground.lerp(&Color::new(200, 200, 255), crack).scale(fragment.intensity)
}

/// The points of the noise field that broken terrain samples for a fragment.
pub fn broken_terrain_queries(fragment: &Fragment, uniforms: &Uniforms) -> (queries: Vec<NoiseQuery>)
    ensures
        queries@ == broken_terrain_points(fragment),
{
    let zoom_2d: i64 = 10;
    let crack_zoom: i64 = 30;
    let mut queries: Vec<NoiseQuery> = Vec::new();
    queries.push(
        NoiseQuery::Plane {
            x: scaled(fragment.vertex_position.x, zoom_2d, 0),
            y: scaled(fragment.vertex_position.y, zoom_2d, 0),
        },
    );
    queries.push(
        NoiseQuery::Plane {
            x: scaled(fragment.vertex_position.x, crack_zoom, 0),
            y: scaled(fragment.vertex_position.y, crack_zoom, 0),
        },
    );
    assert(queries@ =~= broken_terrain_points(fragment));
    queries
}

/// The colour of a fragment of broken terrain, from the samples taken for it.
pub fn broken_terrain_shader(fragment: &Fragment, uniforms: &Uniforms, samples: &Vec<Fixed>) -> (c:
    Color)
    ensures
        c == broken_terrain_color(fragment, samples@),
{
    let base_color = Color::new(140, 130, 120);
    let crack_color = Color::new(200, 200, 255);
    let dirt_color = Color::new(100, 70, 40);
    let noise_value: Fixed = sample(samples, 0);
    let crack_noise_value: Fixed = sample(samples, 1);
    let terrain_color = if noise_value.raw < FIFTH {
        dirt_color
    } else {
        base_color
    };
    let crack_intensity: Fixed = crack_noise_value.abs().clamp(Fixed::zero(), Fixed::one());
    let final_color: Color = terrain_color.lerp(&crack_color, crack_intensity);
    final_color.scale(fragment.intensity)
}

// ----------------------------------------------------------- gas giant

/// The gas giant samples the 2D field three times: for its bands, for
/// its clouds, and for its rings, which drift half a unit per frame.
pub open spec fn gas_giant_points(fragment: &Fragment, time: u32) -> Seq<NoiseQuery> {
    let drift = (3276800 + time as int * 32768) as i64;
    seq![
        NoiseQuery::Plane {
            x: scaled(fragment.vertex_position.x, 250, 0),
            y: scaled(fragment.vertex_position.y, 250, 0),
        },
        NoiseQuery::Plane {
            x: scaled(fragment.vertex_position.x, 10, 6553600),
            y: scaled(fragment.vertex_position.y, 10, 6553600),
        },
        NoiseQuery::Plane {
            x: scaled(fragment.vertex_position.x, 5, drift),
            y: scaled(fragment.vertex_position.y, 5, drift),
        },
    ]
}

/// The band of the gas giant for a size of noise.
pub open spec fn gas_giant_band_spec(size: Fixed) -> Color {
    if size.raw < 9830 {
        Color::new(255, 165, 0)
    } else if size.raw < SEVEN_TENTHS {
        Color::new(255, 215, 0)
    } else if size.raw < 49152 {
        Color::new(255, 200, 26)
    } else {
        Color::new(255, 179, 34)
    }
}

/// The ring laid over the gas giant: the ring colour, darkened by its
/// noise, within 0.05 of the height 0.05; black elsewhere.
pub open spec fn gas_giant_ring_spec(fragment: &Fragment, ring_noise: Fixed) -> Color {
    if fragment.vertex_position.y.sub(Fixed { raw: 3277 }).abs().raw < 3277 {
        Color::new(238, 238, 214).lerp(
            &Color::black(),
            ring_noise.abs().mul(Fixed { raw: HALF }).mul(Fixed { raw: SEVEN_TENTHS }),
        )
    } else {
        Color::black()
    }
}

/// The gas giant: a band chosen by the noise, lightened a little by the
/// clouds, lit by three times the intensity held in `[0, 1]`, with the
/// ring blended over it at 0.4.
pub open spec fn gas_giant_color(fragment: &Fragment, samples: Seq<Fixed>) -> Color {
    let band = gas_giant_band_spec(sample_spec(samples, 0).abs());
    let cloud = sample_spec(samples, 1).abs().mul(Fixed { raw: THREE_TENTHS });
    let clouded = band.lerp(&Color::new(255, 255, 255), cloud.mul(Fixed { raw: TENTH }));
    let planet = clouded.scale(
        fragment.intensity.mul(Fixed::from_int(3)).clamp(Fixed::zero(), Fixed::one()),
    );
    planet.blend(gas_giant_ring_spec(fragment, sample_spec(samples, 2)), Fixed { raw: TWO_FIFTHS })
}

/// The band of the gas giant for a size of noise.
#[verifier::when_used_as_spec(gas_giant_band_spec)]
pub fn gas_giant_band(size: Fixed) -> (c: Color)
    ensures
        c == gas_giant_band_spec(size),
{
    if size.raw < 9830 {
        Color::new(255, 165, 0)
    } else if size.raw < SEVEN_TENTHS {
        Color::new(255, 215, 0)
    } else if size.raw < 49152 {
        Color::new(255, 200, 26)
    } else {
        Color::new(255, 179, 34)
    }
}

/// The ring laid over the gas giant at a fragment.
#[verifier::when_used_as_spec(gas_giant_ring_spec)]
pub fn gas_giant_ring(fragment: &Fragment, ring_noise: Fixed) -> (c: Color)
    ensures
        c == gas_giant_ring_spec(fragment, ring_noise),
{
    let ring_color = Color::new(238, 238, 214);
    let ring_distance = Fixed { raw: 3277 };
    let ring_noise_value: Fixed = ring_noise.abs().mul(Fixed { raw: HALF });
    if fragment.vertex_position.y.sub(ring_distance).abs().raw < 3277 {
        ring_color.lerp(&Color::black(), ring_noise_value.mul(Fixed { raw: SEVEN_TENTHS }))
    } else {
        Color::black()
    }
}

/// The points of the noise field that the gas giant samples for a fragment.
pub fn gas_giant_queries(fragment: &Fragment, uniforms: &Uniforms) -> (queries: Vec<NoiseQuery>)
    ensures
        queries@ == gas_giant_points(fragment, uniforms.time),
{
    let x: Fixed = fragment.vertex_position.x;
    let y: Fixed = fragment.vertex_position.y;
    let t: i64 = uniforms.time as i64 * 32768;
    let drift: i64 = 3276800 + t;
    let mut queries: Vec<NoiseQuery> = Vec::new();
    queries.push(NoiseQuery::Plane { x: scaled(x, 250, 0), y: scaled(y, 250, 0) });
    queries.push(
        NoiseQuery::Plane { x: scaled(x, 10, 6553600), y: scaled(y, 10, 6553600) },
    );
    queries.push(NoiseQuery::Plane { x: scaled(x, 5, drift), y: scaled(y, 5, drift) });
    assert(queries@ =~= gas_giant_points(fragment, uniforms.time));
    queries
}

/// The colour of a fragment of the gas giant, from the samples taken for it.
pub fn gas_giant_shader(fragment: &Fragment, uniforms: &Uniforms, samples: &Vec<Fixed>) -> (c: Color)
    ensures
        c == gas_giant_color(fragment, samples@),
{
    let noise_value: Fixed = sample(samples, 0).abs();
    let layer_color: Color = gas_giant_band(noise_value);
    let cloud_noise: Fixed = sample(samples, 1).abs().mul(Fixed { raw: THREE_TENTHS });
    let cloud_color: Color = layer_color.lerp(
        &Color::new(255, 255, 255),
        cloud_noise.mul(Fixed { raw: TENTH }),
    );
    let lit: Fixed = fragment.intensity.mul(Fixed::from_int(3)).clamp(Fixed::zero(), Fixed::one());
    let planet_color: Color = cloud_color.scale(lit);
    let ring_intensity: Color = gas_giant_ring(fragment, sample(samples, 2));
    planet_color.blend(ring_intensity, Fixed { raw: TWO_FIFTHS })
}

// ---------------------------------------------------------- icy planet

/// The icy planet samples the 2D field at 5 and at 10 times its position.
pub open spec fn icy_planet_points(fragment: &Fragment) -> Seq<NoiseQuery> {
    seq![
        NoiseQuery::Plane {
            x: scaled(fragment.vertex_position.x, 5, 0),
            y: scaled(fragment.vertex_position.y, 5, 0),
        },
        NoiseQuery::Plane {
            x: scaled(fragment.vertex_position.x, 10, 0),
            y: scaled(fragment.vertex_position.y, 10, 0),
        },
    ]
}

/// The icy planet: ice blended towards white by the base noise and
/// towards shadow by a fifth of the detail noise; lit, with a white
/// highlight where the mirrored light meets the viewer; then blended
/// towards white by a fifth of the translucency `noise / 2 + 1/2`.
pub open spec fn icy_planet_color(fragment: &Fragment, samples: Seq<Fixed>) -> Color {
    let base_noise = sample_spec(samples, 0);
    let white = Color::new(255, 255, 255);
    let surface = Color::new(173, 216, 230).lerp(&white, base_noise).lerp(
        &Color::new(100, 149, 237),
        sample_spec(samples, 1).mul(Fixed { raw: FIFTH }),
    );
    let shine = specular(&reflection_spec(&fragment.normal.normalize()), &view_direction());
    let lit = surface.scale(lit_factor(diffuse(&fragment.normal))).add(white.scale(shine));
    let translucency = base_noise.mul(Fixed { raw: HALF }).add(Fixed { raw: HALF }).clamp(
        Fixed::zero(),
        Fixed::one(),
    );
    lit.lerp(&white, translucency.mul(Fixed { raw: FIFTH })).scale(fragment.intensity)
}

/// The points of the noise field that the icy planet samples for a fragment.
pub fn icy_planet_queries(fragment: &Fragment, uniforms: &Uniforms) -> (queries: Vec<NoiseQuery>)
    ensures
        queries@ == icy_planet_points(fragment),
{
    let x: Fixed = fragment.vertex_position.x;
    let y: Fixed = fragment.vertex_position.y;
    let mut queries: Vec<NoiseQuery> = Vec::new();
    queries.push(NoiseQuery::Plane { x: scaled(x, 5, 0), y: scaled(y, 5, 0) });
    queries.push(NoiseQuery::Plane { x: scaled(x, 10, 0), y: scaled(y, 10, 0) });
    assert(queries@ =~= icy_planet_points(fragment));
    queries
}

/// The colour of a fragment of the icy planet, from the samples taken for it.
pub fn icy_planet_shader(fragment: &Fragment, uniforms: &Uniforms, samples: &Vec<Fixed>) -> (c:
    Color)
    ensures
        c == icy_planet_color(fragment, samples@),
{
    let base_noise: Fixed = sample(samples, 0);
    let detail_noise: Fixed = sample(samples, 1);
    let ice_color = Color::new(173, 216, 230);
    let highlight_color = Color::new(255, 255, 255);
    let shadow_color = Color::new(100, 149, 237);
    let base_color: Color = ice_color.lerp(&highlight_color, base_noise);
    let detail_variation: Fixed = detail_noise.mul(Fixed { raw: FIFTH });
    let color_with_detail: Color = base_color.lerp(&shadow_color, detail_variation);
    let normal: Vec3 = fragment.normal.normalize();
    let diffuse_intensity: Fixed = diffuse(&fragment.normal);
    let view_dir: Vec3 = view_direction();
    let reflect_dir: Vec3 = reflection(&normal);
    let specular_intensity: Fixed = specular(&reflect_dir, &view_dir);
    let specular_color: Color = highlight_color.scale(specular_intensity);
    let lit_color: Color = color_with_detail.scale(lit_factor(diffuse_intensity)).add(
        specular_color,
    );
    let translucency: Fixed = base_noise.mul(Fixed { raw: HALF }).add(Fixed { raw: HALF }).clamp(
        Fixed::zero(),
        Fixed::one(),
    );
    let final_color: Color = lit_color.lerp(&highlight_color, translucency.mul(Fixed { raw: FIFTH }));
    final_color.scale(fragment.intensity)
}

// ----------------------------------------------------- volcanic planet

/// How far the lava field is pushed along `z` at a frame:
/// `sin(time / 500) / 2`.
pub open spec fn volcanic_pulsate_spec(time: u32) -> Fixed {
    sin(time_angle(time, 500)).mul(Fixed { raw: HALF })
}

/// The volcanic planet samples the 3D field twice, a thousand units
/// apart, at a thousand times the position and the pulsating depth of
/// the fragment, and the 2D field at 20 and at 5 times its position.
pub open spec fn volcanic_planet_points(fragment: &Fragment, time: u32) -> Seq<NoiseQuery> {
    let pulsate = volcanic_pulsate_spec(time);
    let far = 65536000000int;
    seq![
        NoiseQuery::Space {
            x: scaled(fragment.vertex_position.x, 1000, 0),
            y: scaled(fragment.vertex_position.y, 1000, 0),
            z: ((fragment.depth.raw + pulsate.raw) * 1000) as i64,
        },
        NoiseQuery::Space {
            x: scaled(fragment.vertex_position.x, 1000, far as i64),
            y: scaled(fragment.vertex_position.y, 1000, far as i64),
            z: ((fragment.depth.raw + pulsate.raw) * 1000 + far) as i64,
        },
        NoiseQuery::Plane {
            x: scaled(fragment.vertex_position.x, 20, 0),
            y: scaled(fragment.vertex_position.y, 20, 0),
        },
        NoiseQuery::Plane {
            x: scaled(fragment.vertex_position.x, 5, 0),
            y: scaled(fragment.vertex_position.y, 5, 0),
        },
    ]
}

/// The volcanic planet: rock blended towards lava by the mean of the two
/// lava samples times the intensity, and brightened halfway to yellow
/// where that mean exceeds 0.5.
pub open spec fn volcanic_planet_color(fragment: &Fragment, samples: Seq<Fixed>) -> Color {
    let lava_noise = sample_spec(samples, 0).add(sample_spec(samples, 1)).mul(Fixed { raw: HALF });
    let rock = Color::new(30, 30, 30).lerp(
        &Color::new(130, 20, 0),
        sample_spec(samples, 3).mul(Fixed { raw: HALF }),
    );
    let lava = Color::new(255, 100, 0).lerp(
        &Color::new(255, 140, 0),
        sample_spec(samples, 2).mul(Fixed { raw: HALF }),
    );
    let surface = rock.lerp(&lava, lava_noise.mul(fragment.intensity));
    if lava_noise.raw > HALF {
        surface.lerp(&Color::new(255, 240, 0), Fixed { raw: HALF })
    } else {
        surface
    }
}

/// How far the lava field is pushed along `z` at a frame.
#[verifier::when_used_as_spec(volcanic_pulsate_spec)]
pub fn volcanic_pulsate(time: u32) -> (p: Fixed)
    ensures
        p == volcanic_pulsate_spec(time),
{
    sin(time_angle(time, 500)).mul(Fixed { raw: HALF })
}

/// The points of the noise field that the volcanic planet samples for a fragment.
pub fn volcanic_planet_queries(fragment: &Fragment, uniforms: &Uniforms) -> (queries: Vec<
    NoiseQuery,
>)
    ensures
        queries@ == volcanic_planet_points(fragment, uniforms.time),
{
    let x: Fixed = fragment.vertex_position.x;
    let y: Fixed = fragment.vertex_position.y;
    let pulsate: Fixed = volcanic_pulsate(uniforms.time);
    let zoom: i64 = 1000;
    let far: i64 = 65536000000;
    let z: i64 = (fragment.depth.raw as i64 + pulsate.raw as i64) * zoom;
    let mut queries: Vec<NoiseQuery> = Vec::new();
    queries.push(NoiseQuery::Space { x: scaled(x, zoom, 0), y: scaled(y, zoom, 0), z });
    queries.push(
        NoiseQuery::Space { x: scaled(x, zoom, far), y: scaled(y, zoom, far), z: z + far },
    );
    queries.push(NoiseQuery::Plane { x: scaled(x, 20, 0), y: scaled(y, 20, 0) });
    queries.push(NoiseQuery::Plane { x: scaled(x, 5, 0), y: scaled(y, 5, 0) });
    assert(queries@ =~= volcanic_planet_points(fragment, uniforms.time));
    queries
}

/// The colour of a fragment of the volcanic planet, from the samples taken for it.
pub fn volcanic_planet_shader(fragment: &Fragment, uniforms: &Uniforms, samples: &Vec<Fixed>) -> (c:
    Color)
    ensures
        c == volcanic_planet_color(fragment, samples@),
{
    let bright_color = Color::new(255, 240, 0);
    let dark_color = Color::new(130, 20, 0);
    let base_color = Color::new(30, 30, 30);
    let lava_color = Color::new(255, 100, 0);
    let lava_noise_value: Fixed = sample(samples, 0).add(sample(samples, 1)).mul(
        Fixed { raw: HALF },
    );
    let detail_noise: Fixed = sample(samples, 2);
    let rough_noise: Fixed = sample(samples, 3);
    let surface_detail: Color = base_color.lerp(&dark_color, rough_noise.mul(Fixed { raw: HALF }));
    let lava_detail: Color = lava_color.lerp(
        &Color::new(255, 140, 0),
        detail_noise.mul(Fixed { raw: HALF }),
    );
    let final_color: Color = surface_detail.lerp(
        &lava_detail,
        lava_noise_value.mul(fragment.intensity),
    );
    if lava_noise_value.raw > HALF {
        final_color.lerp(&bright_color, Fixed { raw: HALF })
    } else {
        final_color
    }
}

// --------------------------------------------------- earth-like planet

/// The earth-like planet samples the 2D field for its terrain at 170
/// times its position, offset by `(700, 600)`, and for its clouds at a
/// point bent by a sine in `x`, which drifts half a unit per frame, and
/// a cosine in `y`, both stretched to 37.
pub open spec fn earth_like_planet_points(fragment: &Fragment, time: u32) -> Seq<NoiseQuery> {
    let swing_x = sin(scaled(fragment.vertex_position.x, 16, (45875200 + time * 32768) as i64));
    let swing_y = cos(scaled(fragment.vertex_position.y, 19, 39321600));
    seq![
        NoiseQuery::Plane {
            x: scaled(fragment.vertex_position.x, 170, 45875200),
            y: scaled(fragment.vertex_position.y, 170, 39321600),
        },
        NoiseQuery::Plane { x: (swing_x.raw * 37) as i64, y: (swing_y.raw * 37) as i64 },
    ]
}

/// The ground of the earth-like planet for a value of noise: water below
/// 0.5, shore below 0.55, land above.
pub open spec fn earth_ground_spec(noise: Fixed) -> Color {
    if noise.raw < HALF {
        Color::new(13, 105, 171)
    } else if noise.raw < 36045 {
        Color::new(244, 164, 96)
    } else {
        Color::new(34, 139, 34)
    }
}

/// The earth-like planet: lit ground, with white cloud blended over it
/// at one half where the cloud noise exceeds 0.45, times the intensity.
pub open spec fn earth_like_planet_color(fragment: &Fragment, samples: Seq<Fixed>) -> Color {
    let lit = earth_ground_spec(sample_spec(samples, 0)).scale(
        lit_factor(diffuse(&fragment.normal)),
    );
    let clouded = if sample_spec(samples, 1).raw > 29491 {
        lit.blend(Color::new(255, 255, 255), Fixed { raw: HALF })
    } else {
        lit
    };
    clouded.scale(fragment.intensity)
}

/// The ground of the earth-like planet for a value of noise.
#[verifier::when_used_as_spec(earth_ground_spec)]
pub fn earth_ground(noise: Fixed) -> (c: Color)
    ensures
        c == earth_ground_spec(noise),
{
    if noise.raw < HALF {
        Color::new(13, 105, 171)
    } else if noise.raw < 36045 {
        Color::new(244, 164, 96)
    } else {
        Color::new(34, 139, 34)
    }
}

/// The points of the noise field that the earth-like planet samples for a fragment.
pub fn earth_like_planet_queries(fragment: &Fragment, uniforms: &Uniforms) -> (queries: Vec<
    NoiseQuery,
>)
    ensures
        queries@ == earth_like_planet_points(fragment, uniforms.time),
{
    let x: Fixed = fragment.vertex_position.x;
    let y: Fixed = fragment.vertex_position.y;
    let ox: i64 = 45875200;
    let oy: i64 = 39321600;
    let t: i64 = uniforms.time as i64 * 32768;
    let cloud_offset: i64 = 37;
    let oval_x: i64 = sin(scaled(x, 16, ox + t)).raw as i64 * cloud_offset;
    let oval_y: i64 = cos(scaled(y, 19, oy)).raw as i64 * cloud_offset;
    let mut queries: Vec<NoiseQuery> = Vec::new();
    queries.push(NoiseQuery::Plane { x: scaled(x, 170, ox), y: scaled(y, 170, oy) });
    queries.push(NoiseQuery::Plane { x: oval_x, y: oval_y });
    assert(queries@ =~= earth_like_planet_points(fragment, uniforms.time));
    queries
}

/// The colour of a fragment of the earth-like planet, from the samples taken for it.
pub fn earth_like_planet_shader(fragment: &Fragment, uniforms: &Uniforms, samples: &Vec<Fixed>) -> (c:
    Color)
    ensures
        c == earth_like_planet_color(fragment, samples@),
{
    let noise_value: Fixed = sample(samples, 0);
    let base_color: Color = earth_ground(noise_value);
    let diffuse_intensity: Fixed = diffuse(&fragment.normal);
    let lit_color: Color = base_color.scale(lit_factor(diffuse_intensity));
    let cloud_noise_value: Fixed = sample(samples, 1);
    let cloud_color = Color::new(255, 255, 255);
    let final_color: Color = if cloud_noise_value.raw > 29491 {
        lit_color.blend(cloud_color, Fixed { raw: HALF })
    } else {
        lit_color
    };
    final_color.scale(fragment.intensity)
}

// -------------------------------------------------------- alien planet

/// The alien planet samples the 2D field at 50 times its position.
pub open spec fn alien_planet_points(fragment: &Fragment) -> Seq<NoiseQuery> {
    seq![
        NoiseQuery::Plane {
            x: scaled(fragment.vertex_position.x, 50, 0),
            y: scaled(fragment.vertex_position.y, 50, 0),
        },
    ]
}

/// The layer of the alien planet for a value of noise: purple below 0.3,
/// cyan below 0.6, magenta above.
pub open spec fn alien_layer_spec(noise: Fixed) -> Color {
    if noise.raw < THREE_TENTHS {
        Color::new(75, 0, 130)
    } else if noise.raw < 39322 {
        Color::new(0, 255, 255)
    } else {
        Color::new(243, 22, 206)
    }
}

/// The alien planet: seven tenths of its layer plus three tenths of a
/// pink glow of strength `0.5 + 1.5 * noise` held in `[0, 1]`; lit; times
/// the intensity.
pub open spec fn alien_planet_color(fragment: &Fragment, samples: Seq<Fixed>) -> Color {
    let noise = sample_spec(samples, 0);
    let strength = Fixed { raw: HALF }.add(noise.mul(Fixed { raw: 98304 })).clamp(
        Fixed::zero(),
        Fixed::one(),
    );
    let glow = Color::new(255, 20, 147).scale(strength);
    let mixed = alien_layer_spec(noise).scale(Fixed { raw: SEVEN_TENTHS }).add(
        glow.scale(Fixed { raw: THREE_TENTHS }),
    );
    mixed.scale(lit_factor(diffuse(&fragment.normal))).scale(fragment.intensity)
}

/// The layer of the alien planet for a value of noise.
#[verifier::when_used_as_spec(alien_layer_spec)]
pub fn alien_layer(noise: Fixed) -> (c: Color)
    ensures
        c == alien_layer_spec(noise),
{
    if noise.raw < THREE_TENTHS {
        Color::new(75, 0, 130)
    } else if noise.raw < 39322 {
        Color::new(0, 255, 255)
    } else {
        Color::new(243, 22, 206)
    }
}

/// The points of the noise field that the alien planet samples for a fragment.
pub fn alien_planet_queries(fragment: &Fragment, uniforms: &Uniforms) -> (queries: Vec<NoiseQuery>)
    ensures
        queries@ == alien_planet_points(fragment),
{
    let zoom: i64 = 50;
    let mut queries: Vec<NoiseQuery> = Vec::new();
    queries.push(
        NoiseQuery::Plane {
            x: scaled(fragment.vertex_position.x, zoom, 0),
            y: scaled(fragment.vertex_position.y, zoom, 0),
        },
    );
    assert(queries@ =~= alien_planet_points(fragment));
    queries
}

/// The colour of a fragment of the alien planet, from the samples taken for it.
pub fn alien_planet_shader(fragment: &Fragment, uniforms: &Uniforms, samples: &Vec<Fixed>) -> (c:
    Color)
    ensures
        c == alien_planet_color(fragment, samples@),
{
    let noise_value: Fixed = sample(samples, 0);
    let planet_color: Color = alien_layer(noise_value);
    let emission_strength: Fixed = Fixed { raw: HALF }.add(
        noise_value.mul(Fixed { raw: 98304 }),
    ).clamp(Fixed::zero(), Fixed::one());
    let emission_color: Color = Color::new(255, 20, 147).scale(emission_strength);
    let final_color: Color = planet_color.scale(Fixed { raw: SEVEN_TENTHS }).add(
        emission_color.scale(Fixed { raw: THREE_TENTHS }),
    );
    let diffuse_intensity: Fixed = diffuse(&fragment.normal);
    let lit_color: Color = final_color.scale(lit_factor(diffuse_intensity));
    lit_color.scale(fragment.intensity)
}

// ----------------------------------------------------------- spaceship

/// The spaceship samples the 2D field at 15 times its position.
pub open spec fn spaceship_points(fragment: &Fragment) -> Seq<NoiseQuery> {
    seq![
        NoiseQuery::Plane {
            x: scaled(fragment.vertex_position.x, 15, 0),
            y: scaled(fragment.vertex_position.y, 15, 0),
        },
    ]
}

/// The light mirrored at a surface of unit normal `n`: `2 (n . l) n - l`.
pub open spec fn reflection_spec(normal: &Vec3) -> Vec3 {
    let towards = normal.dot(&light_direction());
    normal.scale(towards.add(towards)).sub(&light_direction())
}

/// The spaceship: light grey, varied towards dark grey by a tenth of the
/// noise; lit, with a white highlight where the mirrored light meets the
/// viewer; times the intensity.
pub open spec fn spaceship_color(fragment: &Fragment, samples: Seq<Fixed>) -> Color {
    let metal = Color::new(200, 200, 200).lerp(
        &Color::new(120, 120, 120),
        sample_spec(samples, 0).mul(Fixed { raw: TENTH }),
    );
    let shine = specular(&reflection_spec(&fragment.normal.normalize()), &view_direction());
    metal.scale(lit_factor(diffuse(&fragment.normal))).add(
        Color::new(255, 255, 255).scale(shine),
    ).scale(fragment.intensity)
}

/// The light mirrored at a surface of unit normal.
#[verifier::when_used_as_spec(reflection_spec)]
pub fn reflection(normal: &Vec3) -> (r: Vec3)
    ensures
        r == reflection_spec(normal),
{
    let light: Vec3 = light_direction();
    let towards: Fixed = normal.dot(&light);
    normal.scale(towards.add(towards)).sub(&light)
}

/// The points of the noise field that the spaceship samples for a fragment.
pub fn spaceship_queries(fragment: &Fragment, uniforms: &Uniforms) -> (queries: Vec<NoiseQuery>)
    ensures
        queries@ == spaceship_points(fragment),
{
    let zoom: i64 = 15;
    let mut queries: Vec<NoiseQuery> = Vec::new();
    queries.push(
        NoiseQuery::Plane {
            x: scaled(fragment.vertex_position.x, zoom, 0),
            y: scaled(fragment.vertex_position.y, zoom, 0),
        },
    );
    assert(queries@ =~= spaceship_points(fragment));
    queries
}

/// The colour of a fragment of the spaceship, from the samples taken for it.
pub fn spaceship_shader(fragment: &Fragment, uniforms: &Uniforms, samples: &Vec<Fixed>) -> (c: Color)
    ensures
        c == spaceship_color(fragment, samples@),
{
    let base_color = Color::new(200, 200, 200);
    let highlight_color = Color::new(255, 255, 255);
    let shadow_color = Color::new(120, 120, 120);
    let noise_value: Fixed = sample(samples, 0);
    let color_variation: Color = base_color.lerp(&shadow_color, noise_value.mul(Fixed { raw: TENTH }));
    let normal: Vec3 = fragment.normal.normalize();
    let diffuse_intensity: Fixed = diffuse(&fragment.normal);
    let view_dir: Vec3 = view_direction();
    let reflect_dir: Vec3 = reflection(&normal);
    let specular_intensity: Fixed = specular(&reflect_dir, &view_dir);
    let specular_color: Color = highlight_color.scale(specular_intensity);
    let lit_color: Color = color_variation.scale(lit_factor(diffuse_intensity)).add(specular_color);
    lit_color.scale(fragment.intensity)
}

// ------------------------------------------------------------ dispatch

/// The points the material of `uniforms` wants sampled for `fragment`,
/// in the order in which it reads the samples. An unknown material asks
/// for none.
pub open spec fn noise_points(fragment: &Fragment, uniforms: &Uniforms) -> Seq<NoiseQuery> {
    match uniforms.shader_mode {
        1 => star_points(fragment, uniforms.time),
        2 => broken_terrain_points(fragment),
        3 => gas_giant_points(fragment, uniforms.time),
        4 => icy_planet_points(fragment),
        5 => volcanic_planet_points(fragment, uniforms.time),
        6 => earth_like_planet_points(fragment, uniforms.time),
        7 => alien_planet_points(fragment),
        8 => spaceship_points(fragment),
        _ => Seq::empty(),
    }
}

/// The colour the material of `uniforms` gives `fragment` for the
/// samples taken. An unknown material gives black.
pub open spec fn fragment_color(fragment: &Fragment, uniforms: &Uniforms, samples: Seq<Fixed>) -> Color {
    match uniforms.shader_mode {
        1 => star_color(fragment, uniforms.time, samples),
        2 => broken_terrain_color(fragment, samples),
        3 => gas_giant_color(fragment, samples),
        4 => icy_planet_color(fragment, samples),
        5 => volcanic_planet_color(fragment, samples),
        6 => earth_like_planet_color(fragment, samples),
        7 => alien_planet_color(fragment, samples),
        8 => spaceship_color(fragment, samples),
        _ => Color::black(),
    }
}

/// Names the points of the noise field that shading `fragment` needs.
pub fn noise_queries(fragment: &Fragment, uniforms: &Uniforms) -> (queries: Vec<NoiseQuery>)
    ensures
        queries@ == noise_points(fragment, uniforms),
{
    match uniforms.shader_mode {
        1 => star_queries(fragment, uniforms),
        2 => broken_terrain_queries(fragment, uniforms),
        3 => gas_giant_queries(fragment, uniforms),
        4 => icy_planet_queries(fragment, uniforms),
        5 => volcanic_planet_queries(fragment, uniforms),
        6 => earth_like_planet_queries(fragment, uniforms),
        7 => alien_planet_queries(fragment, uniforms),
        8 => spaceship_queries(fragment, uniforms),
        _ => Vec::new(),
    }
}

/// Shades `fragment` with the material of `uniforms`, from the samples
/// taken at the points that `noise_queries` named.
pub fn fragment_shader(fragment: &Fragment, uniforms: &Uniforms, samples: &Vec<Fixed>) -> (c: Color)
    ensures
        c == fragment_color(fragment, uniforms, samples@),
{
    match uniforms.shader_mode {
        1 => star_shader(fragment, uniforms, samples),
        2 => broken_terrain_shader(fragment, uniforms, samples),
        3 => gas_giant_shader(fragment, uniforms, samples),
        4 => icy_planet_shader(fragment, uniforms, samples),
        5 => volcanic_planet_shader(fragment, uniforms, samples),
        6 => earth_like_planet_shader(fragment, uniforms, samples),
        7 => alien_planet_shader(fragment, uniforms, samples),
        8 => spaceship_shader(fragment, uniforms, samples),
        _ => Color::new(0, 0, 0),
    }
}

/// Shading depends on nothing but the fragment, the frame counter, the
/// material and the samples: two draw calls that agree on these give
/// every fragment the same colour and ask for the same points, whatever
/// their matrices.
pub proof fn lemma_shading_is_pure(
    fragment: &Fragment,
    first: &Uniforms,
    second: &Uniforms,
    samples: Seq<Fixed>,
)
    requires
        first.time == second.time,
        first.shader_mode == second.shader_mode,
    ensures
        fragment_color(fragment, first, samples) == fragment_color(fragment, second, samples),
        noise_points(fragment, first) == noise_points(fragment, second),
{
}

/// The star at frame zero, where the noise is at its maximum of one, is
/// its bright colour times 0.7 times the intensity of the fragment.
pub proof fn lemma_star_at_rest(fragment: &Fragment, samples: Seq<Fixed>)
    requires
        samples.len() >= 1,
        samples[0].raw >= 65536,
    ensures
        star_color(fragment, 0, samples) == Color::new(255, 223, 0).scale(
            Fixed { raw: SEVEN_TENTHS },
        ).scale(fragment.intensity),
{
    crate::trig::lemma_sin_cardinal();
    crate::color::lemma_lerp_endpoints(
        Color::new(255, 69, 0),
        Color::new(255, 223, 0),
        samples[0],
    );
    assert(time_angle(0, 10) == 0);
    assert(sin(0i64).raw == 0);
    assert(star_pulse_spec(0).raw == SEVEN_TENTHS);
}

/// With all four transforms at the identity the vertex stage leaves a
/// vertex where it is: its screen position is its position, and its
/// normal is carried unchanged.
pub proof fn lemma_vertex_stage_at_rest(vertex: &Vertex, uniforms: &Uniforms)
    requires
        uniforms.model_matrix == Mat4::identity(),
        uniforms.view_matrix == Mat4::identity(),
        uniforms.projection_matrix == Mat4::identity(),
        uniforms.viewport_matrix == Mat4::identity(),
    ensures
        vertex_shader_spec(vertex, uniforms).transformed_position == vertex.position,
        vertex_shader_spec(vertex, uniforms).transformed_normal == vertex.normal,
{
    let one = Mat4::identity();
    let place = Vec4::from_point(&vertex.position);
    crate::transform::lemma_identity_is_neutral(one, place);
    assert(one.mul(&one).mul(&one) == one);
    let clip = clip_position_spec(vertex, uniforms);
    assert(clip == place);
    assert(guarded_w_spec(clip.w).raw == 65536);
    assert(clip.x.raw * 65536 / 65536 == clip.x.raw);
    assert(clip.y.raw * 65536 / 65536 == clip.y.raw);
    assert(clip.z.raw * 65536 / 65536 == clip.z.raw);
    // the normal matrix of the identity is the identity
    let block = one.upper_left().transpose();
    assert(block == Mat3::identity());
    assert(crate::matrix::minor_raw(65536, 0, 0, 65536) == 4294967296) by (nonlinear_arith);
    assert(crate::matrix::minor_raw(0, 0, 0, 65536) == 0) by (nonlinear_arith);
    assert(crate::matrix::minor_raw(0, 65536, 0, 0) == 0) by (nonlinear_arith);
    assert(crate::matrix::minor_raw(0, 0, 65536, 0) == 0) by (nonlinear_arith);
    assert(crate::matrix::minor_raw(0, 0, 0, 0) == 0) by (nonlinear_arith);
    assert(crate::matrix::minor_raw(65536, 0, 0, 0) == 0) by (nonlinear_arith);
    assert(crate::matrix::minor_raw(0, 65536, 65536, 0) == -4294967296) by (nonlinear_arith);
    assert(crate::matrix::det3_raw(block) == 281474976710656);
    assert(crate::matrix::cofactor_over_det(4294967296, 281474976710656) == 65536);
    assert(crate::matrix::cofactor_over_det(0, 281474976710656) == 0);
    assert(block.try_inverse() == Some(Mat3::identity()));
    let n = vertex.normal;
    assert(65536 * n.x.raw / 65536 == n.x.raw);
    assert(65536 * n.y.raw / 65536 == n.y.raw);
    assert(65536 * n.z.raw / 65536 == n.z.raw);
    assert(0 * n.x.raw == 0 && 0 * n.y.raw == 0 && 0 * n.z.raw == 0);
    assert(Mat3::identity().r0.dot(&n) == n.x);
    assert(Mat3::identity().r1.dot(&n) == n.y);
    assert(Mat3::identity().r2.dot(&n) == n.z);
    assert(normal_matrix_spec(uniforms) == Mat3::identity());
}

} // verus!
