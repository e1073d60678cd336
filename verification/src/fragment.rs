//! Fragments: the candidate pixels a triangle produces.

use vstd::prelude::*;
use crate::fixed::Fixed;
use crate::vector::Vec3;

verus! {

/// One pixel of one triangle, with the attributes interpolated for it.
#[derive(Clone, Copy, Debug, PartialEq, Eq, Structural)]
pub struct Fragment {
    /// Pixel column.
    pub x: usize,
    /// Pixel row.
    pub y: usize,
    /// Interpolated device depth.
    pub depth: Fixed,
    /// Interpolated normal.
    pub normal: Vec3,
    /// Light arriving from the ambient direction, in `[0, 1]`.
    pub intensity: Fixed,
    /// Interpolated object-space position.
    pub vertex_position: Vec3,
}

} // verus!
