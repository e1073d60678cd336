//! Mesh vertices.

use vstd::prelude::*;
use crate::color::Color;
use crate::fixed::Fixed;
use crate::vector::{Vec2, Vec3};

verus! {

/// A mesh vertex. The first four fields are what the mesh supplies and
/// are never changed; the last two are filled in by the vertex stage for
/// each draw call.
#[derive(Clone, Copy, Debug, PartialEq, Eq, Structural)]
pub struct Vertex {
    /// Object-space position.
    pub position: Vec3,
    /// Object-space normal.
    pub normal: Vec3,
    pub tex_coords: Vec2,
    pub color: Color,
    /// Screen-space position: `x`, `y` in pixels, `z` the device depth.
    pub transformed_position: Vec3,
    pub transformed_normal: Vec3,
}

impl Vertex {
    /// A vertex as a mesh supplies it: white, and not yet transformed, so
    /// that its screen position and normal repeat the object-space ones.
    pub fn new(position: Vec3, normal: Vec3, tex_coords: Vec2) -> (v: Vertex)
        ensures
            v == (Vertex {
                position,
                normal,
                tex_coords,
                color: Color { r: 255, g: 255, b: 255 },
                transformed_position: position,
                transformed_normal: normal,
            }),
    {
        Vertex {
            position,
            normal,
            tex_coords,
            color: Color::new(255, 255, 255),
            transformed_position: position,
            transformed_normal: normal,
        }
    }

    /// A vertex placed directly on the screen at `(x, y)` with depth `z`.
    pub fn on_screen(x: Fixed, y: Fixed, z: Fixed) -> (v: Vertex)
        ensures
            v.transformed_position == (Vec3 { x, y, z }),
            v.position == (Vec3 { x, y, z }),
            v.normal == (Vec3 { x: Fixed { raw: 0 }, y: Fixed { raw: 0 }, z: Fixed { raw: 65536 } }),
            v.transformed_normal == v.normal,
            v.tex_coords == (Vec2 { x: Fixed { raw: 0 }, y: Fixed { raw: 0 } }),
            v.color == (Color { r: 255, g: 255, b: 255 }),
    {
        let place = Vec3 { x, y, z };
        let facing = Vec3 { x: Fixed::zero(), y: Fixed::zero(), z: Fixed::one() };
        Vertex::new(place, facing, Vec2 { x: Fixed::zero(), y: Fixed::zero() })
    }
}

} // verus!
