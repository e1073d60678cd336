//! What the materials ask of the noise field, and how they read the answers.
//!
//! A material first names the points at which it wants the field
//! sampled, then computes its colour from the samples. The field itself
//! is the caller's: any seeded, deterministic source of values in
//! `[-1, 1]` will do.

use vstd::prelude::*;
use crate::fixed::Fixed;

verus! {

/// A point of the noise field. Coordinates are raw 16.16 values in an
/// `i64`: materials scale positions far beyond the range of a `Fixed`.
#[derive(Clone, Copy, Debug, PartialEq, Eq, Structural)]
pub enum NoiseQuery {
    /// A sample of the two-dimensional field.
    Plane { x: i64, y: i64 },
    /// A sample of the three-dimensional field.
    Space { x: i64, y: i64, z: i64 },
}

/// The `i`-th sample, or zero where the caller supplied fewer.
pub open spec fn sample_spec(samples: Seq<Fixed>, i: int) -> Fixed {
    if 0 <= i < samples.len() {
        samples[i]
    } else {
        Fixed { raw: 0 }
    }
}

/// The coordinate `v * zoom + offset`, with `offset` in raw units.
pub open spec fn scaled_spec(v: Fixed, zoom: i64, offset: i64) -> i64 {
    (v.raw as int * zoom as int + offset as int) as i64
}

/// The angle `time / divisor` radians in raw units, rounded down.
pub open spec fn time_angle_spec(time: u32, divisor: i64) -> i64 {
    (time as int * 65536 / divisor as int) as i64
}

/// The `i`-th sample, or zero where the caller supplied fewer.
pub fn sample(samples: &Vec<Fixed>, i: usize) -> (s: Fixed)
    ensures
        s == sample_spec(samples@, i as int),
{
    if i < samples.len() {
        samples[i]
    } else {
        Fixed::zero()
    }
}

/// The coordinate `v * zoom + offset`, which fits an `i64`.
#[verifier::when_used_as_spec(scaled_spec)]
pub fn scaled(v: Fixed, zoom: i64, offset: i64) -> (c: i64)
    requires
        -0x8000_0000_0000_0000 <= v.raw as int * zoom as int + offset as int
            <= 0x7fff_ffff_ffff_ffff,
    ensures
        c == scaled_spec(v, zoom, offset),
        c == v.raw as int * zoom as int + offset as int,
{
    assert(-0x8000_0000 * 0x8000_0000_0000_0000 <= v.raw as int * zoom as int <= 0x8000_0000
        * 0x8000_0000_0000_0000) by (nonlinear_arith)
        requires
            -0x8000_0000 <= v.raw <= 0x7fff_ffff,
            -0x8000_0000_0000_0000 <= zoom <= 0x7fff_ffff_ffff_ffff,
    ;
    let wide: i128 = v.raw as i128 * zoom as i128 + offset as i128;
    wide as i64
}

/// The angle `time / divisor` radians.
#[verifier::when_used_as_spec(time_angle_spec)]
pub fn time_angle(time: u32, divisor: i64) -> (a: i64)
    requires
        divisor > 0,
    ensures
        a == time_angle_spec(time, divisor),
        a == time as int * 65536 / divisor as int,
        0 <= a <= time as int * 65536,
{
    let n: i64 = time as i64 * 65536;
    assert(0 <= n as int / divisor as int <= n) by (nonlinear_arith)
        requires
            n >= 0,
            divisor > 0,
    ;
    n / divisor
}

} // verus!
