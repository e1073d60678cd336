//! Sine and cosine on fixed-point angles.
//!
//! Angles are raw 16.16 radians held in an `i64`, so that an angle that
//! grows with the frame counter can be taken as it is. Half a turn is
//! `PI_RAW`; on `[0, PI_RAW]` the sine is Bhaskara's rational
//! approximation `16 t (pi - t) / (5 pi^2 - 4 t (pi - t))`, and the rest
//! follows by symmetry.

use vstd::prelude::*;
use crate::fixed::Fixed;

verus! {

/// A quarter turn in raw units.
pub const HALF_PI_RAW: i64 = 102944;

/// Half a turn in raw units.
pub const PI_RAW: i64 = 205888;

/// A full turn in raw units.
pub const TWO_PI_RAW: i64 = 411776;

/// The sine of `t` raw radians, for `t` within the first half turn.
pub open spec fn half_wave(t: int) -> int {
    let y = t * (205888 - t);
    (16 * y * 65536) / (5 * 205888 * 205888 - 4 * y)
}

/// The sine of `angle` raw radians.
pub open spec fn sin_raw(angle: int) -> int {
    let t = angle % 411776;
    if t <= 205888 {
        half_wave(t)
    } else {
        -half_wave(t - 205888)
    }
}

/// The sine of an angle.
pub open spec fn sin_spec(angle: i64) -> Fixed {
    Fixed { raw: sin_raw(angle as int) as i32 }
}

/// The cosine of an angle: the sine a quarter turn on.
pub open spec fn cos_spec(angle: i64) -> Fixed {
    Fixed { raw: sin_raw(angle as int + 102944) as i32 }
}

/// Within the first half turn the sine lies in `[0, 1]`.
pub proof fn lemma_half_wave_range(t: int)
    requires
        0 <= t <= 205888,
    ensures
        0 <= half_wave(t) <= 65536,
        0 <= t * (205888 - t),
        4 * (t * (205888 - t)) <= 205888 * 205888,
{
    let y = t * (205888 - t);
    assert(0 <= y) by (nonlinear_arith)
        requires
            y == t * (205888 - t),
            0 <= t <= 205888,
    ;
    assert(4 * y <= 205888 * 205888) by (nonlinear_arith)
        requires
            y == t * (205888 - t),
    {
        assert((205888 - 2 * t) * (205888 - 2 * t) >= 0);
        assert((205888 - 2 * t) * (205888 - 2 * t) == 205888 * 205888 - 4 * (t * (205888 - t)));
    }
    let den = 5 * 205888 * 205888 - 4 * y;
    assert(den > 0);
    assert(16 * y * 65536 <= 65536 * den);
    assert((16 * y * 65536) / den <= 65536) by (nonlinear_arith)
        requires
            den > 0,
            16 * y * 65536 <= 65536 * den,
    ;
    assert((16 * y * 65536) / den >= 0) by (nonlinear_arith)
        requires
            den > 0,
            16 * y * 65536 >= 0,
    ;
}

/// Every sine lies in `[-1, 1]`.
pub proof fn lemma_sin_range(angle: int)
    ensures
        -65536 <= sin_raw(angle) <= 65536,
{
    let t = angle % 411776;
    if t <= 205888 {
        lemma_half_wave_range(t);
    } else {
        lemma_half_wave_range(t - 205888);
    }
}

/// The sine of zero is zero, and that of a quarter turn is one; so the
/// cosine of zero is one and that of a quarter turn zero.
pub proof fn lemma_sin_cardinal()
    ensures
        sin_raw(0) == 0,
        sin_raw(102944) == 65536,
        sin_raw(205888) == 0,
        sin_raw(308832) == -65536,
{
    assert(0int * (205888 - 0) == 0) by (nonlinear_arith);
    assert(half_wave(0) == 0);
    assert(102944int * (205888 - 102944) == 10597467136) by (nonlinear_arith);
    assert(16 * 10597467136int * 65536 == 11112249699598336);
    assert(5 * 205888int * 205888 - 4 * 10597467136 == 169559474176);
    assert(11112249699598336int / 169559474176 == 65536);
    assert(half_wave(102944) == 65536);
    assert(205888int * (205888 - 205888) == 0) by (nonlinear_arith);
    assert(half_wave(205888) == 0);
}

/// The sine repeats with every full turn.
pub proof fn lemma_sin_periodic(angle: int)
    ensures
        sin_raw(angle + 411776) == sin_raw(angle),
{
    assert((angle + 411776) % 411776 == angle % 411776);
}

/// An angle brought into the first full turn.
pub open spec fn wrap_angle_spec(angle: i128) -> i64 {
    (angle as int % 411776) as i64
}

/// Brings an angle into the first full turn; its sine and cosine stay
/// as they are.
#[verifier::when_used_as_spec(wrap_angle_spec)]
pub fn wrap_angle(angle: i128) -> (wrapped: i64)
    ensures
        wrapped == wrap_angle_spec(angle),
        0 <= wrapped < 411776,
        sin_raw(wrapped as int) == sin_raw(angle as int),
        sin_raw(wrapped as int + 102944) == sin_raw(angle as int + 102944),
{
    let r: i128 = angle % 411776;
    let t: i128 = if r < 0 {
        r + 411776
    } else {
        r
    };
    assert(t == angle as int % 411776);
    assert((t as int) % 411776 == t);
    assert((t as int + 102944) % 411776 == (angle as int + 102944) % 411776);
    t as i64
}

fn half_wave_value(t: i64) -> (s: i64)
    requires
        0 <= t <= 205888,
    ensures
        s == half_wave(t as int),
        0 <= s <= 65536,
{
    proof {
        lemma_half_wave_range(t as int);
    }
    let y: i64 = t * (PI_RAW - t);
    let den: i64 = 5 * PI_RAW * PI_RAW - 4 * y;
    16 * y * 65536 / den
}

/// The sine of `angle` raw radians.
#[verifier::when_used_as_spec(sin_spec)]
pub fn sin(angle: i64) -> (s: Fixed)
    ensures
        s == sin_spec(angle),
        -65536 <= s.raw <= 65536,
{
    let r: i64 = angle % TWO_PI_RAW;
    let t: i64 = if r < 0 {
        r + TWO_PI_RAW
    } else {
        r
    };
    assert(t == angle as int % 411776);
    if t <= PI_RAW {
        Fixed { raw: half_wave_value(t) as i32 }
    } else {
        Fixed { raw: (-half_wave_value(t - PI_RAW)) as i32 }
    }
}

/// The cosine of `angle` raw radians.
#[verifier::when_used_as_spec(cos_spec)]
pub fn cos(angle: i64) -> (c: Fixed)
    ensures
        c == cos_spec(angle),
        -65536 <= c.raw <= 65536,
{
    let r: i64 = angle % TWO_PI_RAW;
    let shifted: i64 = r + HALF_PI_RAW;
    assert((angle as int + 102944) % 411776 == (shifted as int) % 411776);
    let s: Fixed = sin(shifted);
    s
}

} // verus!
