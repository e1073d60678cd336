//! The per-draw-call bundle handed through the pipeline.

use vstd::prelude::*;
use crate::matrix::Mat4;

verus! {

/// What one draw call holds fixed: the four transforms, the frame
/// counter and the tag of the material that shades the fragments.
#[derive(Clone, Copy, Debug, PartialEq, Eq, Structural)]
pub struct Uniforms {
    pub model_matrix: Mat4,
    pub view_matrix: Mat4,
    pub projection_matrix: Mat4,
    pub viewport_matrix: Mat4,
    /// Frames drawn so far.
    pub time: u32,
    /// The material: 1 to 8; any other tag shades black.
    pub shader_mode: u8,
}

impl Uniforms {
    pub fn new(
        model_matrix: Mat4,
        view_matrix: Mat4,
        projection_matrix: Mat4,
        viewport_matrix: Mat4,
        time: u32,
        shader_mode: u8,
    ) -> (u: Uniforms)
        ensures
            u == (Uniforms {
                model_matrix,
                view_matrix,
                projection_matrix,
                viewport_matrix,
                time,
                shader_mode,
            }),
    {
        Uniforms { model_matrix, view_matrix, projection_matrix, viewport_matrix, time, shader_mode }
    }
}

} // verus!
