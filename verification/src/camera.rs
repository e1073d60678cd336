//! The camera: an eye that orbits, approaches and follows a centre.

use vstd::prelude::*;
use crate::fixed::{fits, Fixed};
use crate::matrix::{Mat4, Vec4};
use crate::trig::{cos, sin};
use crate::vector::Vec3;

verus! {

/// The cosine of the steepest pitch, 0.1 radians short of the pole.
pub const POLE_COS: i32 = 6543;

/// The sine of the steepest pitch.
pub const POLE_SIN: i32 = 65209;

/// The nearest the eye may come to the centre by zooming: 0.1.
pub const MIN_RADIUS: i32 = 6554;

/// The offset `r` of the eye from the centre, turned about the vertical
/// axis by `delta` radians.
pub open spec fn yawed_spec(r: &Vec3, delta: Fixed) -> Vec3 {
    let c = cos(delta.raw as i64);
    let s = sin(delta.raw as i64);
    Vec3 { x: r.x.mul(c).sub(r.z.mul(s)), y: r.y, z: r.x.mul(s).add(r.z.mul(c)) }
}

/// The offset `r` of the eye from the centre, pitched by `delta` radians
/// about the axis to its right.
///
/// With `h` the length of the level part of `r`, the pitch carries
/// `(h, r.y)` to `(h cos + y sin, y cos - h sin)` and stretches the level
/// part to its new length. A step that would bring the eye nearer the
/// pole than the steepest pitch stops there. An eye straight above or
/// below the centre is carried into the plane of `x` and `y`.
pub open spec fn pitched_spec(r: &Vec3, delta: Fixed) -> Vec3 {
    let c = cos(delta.raw as i64);
    let s = sin(delta.raw as i64);
    let h = Vec3 { x: r.x, y: Fixed { raw: 0 }, z: r.z }.length();
    let raised_h = h.mul(c).add(r.y.mul(s));
    let raised_y = r.y.mul(c).sub(h.mul(s));
    let radius = r.length();
    let least_h = radius.mul(Fixed { raw: POLE_COS });
    let held = raised_h.raw < least_h.raw && raised_h.raw < h.raw;
    let new_h = if held {
        least_h
    } else {
        raised_h
    };
    let new_y = if !held {
        raised_y
    } else if raised_y.raw < 0 {
        radius.mul(Fixed { raw: POLE_SIN }).neg()
    } else {
        radius.mul(Fixed { raw: POLE_SIN })
    };
    if h.raw == 0 {
        Vec3 { x: new_h, y: new_y, z: Fixed { raw: 0 } }
    } else {
        Vec3 { x: r.x.mul(new_h.div(h)), y: new_y, z: r.z.mul(new_h.div(h)) }
    }
}

/// How far a zoom by `delta` moves an eye at `radius` from the centre:
/// by `delta`, but no nearer than the least radius.
pub open spec fn zoom_step_spec(radius: Fixed, delta: Fixed) -> Fixed {
    delta.min(radius.sub(Fixed { raw: MIN_RADIUS }).max(Fixed { raw: 0 }))
}

/// The right-handed look-at matrix of an eye at `eye` looking at `center`.
pub open spec fn look_at_spec(eye: &Vec3, center: &Vec3, up: &Vec3) -> Mat4 {
    let f = center.sub(eye).normalize();
    let s = f.cross(up).normalize();
    let u = s.cross(&f);
    Mat4 {
        r0: Vec4 { x: s.x, y: s.y, z: s.z, w: s.dot(eye).neg() },
        r1: Vec4 { x: u.x, y: u.y, z: u.z, w: u.dot(eye).neg() },
        r2: Vec4 { x: f.x.neg(), y: f.y.neg(), z: f.z.neg(), w: f.dot(eye) },
        r3: Vec4 { x: Fixed { raw: 0 }, y: Fixed { raw: 0 }, z: Fixed { raw: 0 }, w: Fixed { raw: 65536 } },
    }
}

/// An offset turned about the vertical axis.
#[verifier::when_used_as_spec(yawed_spec)]
pub fn yawed(r: &Vec3, delta: Fixed) -> (out: Vec3)
    ensures
        out == yawed_spec(r, delta),
{
    let c: Fixed = cos(delta.raw as i64);
    let s: Fixed = sin(delta.raw as i64);
    Vec3 { x: r.x.mul(c).sub(r.z.mul(s)), y: r.y, z: r.x.mul(s).add(r.z.mul(c)) }
}

/// An offset pitched about the axis to its right.
#[verifier::when_used_as_spec(pitched_spec)]
pub fn pitched(r: &Vec3, delta: Fixed) -> (out: Vec3)
    ensures
        out == pitched_spec(r, delta),
{
    let c: Fixed = cos(delta.raw as i64);
    let s: Fixed = sin(delta.raw as i64);
    let level = Vec3 { x: r.x, y: Fixed::zero(), z: r.z };
    let h: Fixed = level.length();
    let raised_h: Fixed = h.mul(c).add(r.y.mul(s));
    let raised_y: Fixed = r.y.mul(c).sub(h.mul(s));
    let radius: Fixed = r.length();
    let least_h: Fixed = radius.mul(Fixed { raw: POLE_COS });
    let mut new_h: Fixed = raised_h;
    let mut new_y: Fixed = raised_y;
    if raised_h.raw < least_h.raw && raised_h.raw < h.raw {
        new_h = least_h;
        let top: Fixed = radius.mul(Fixed { raw: POLE_SIN });
        new_y = if raised_y.raw < 0 {
            top.neg()
        } else {
            top
        };
    }
    if h.raw == 0 {
        Vec3 { x: new_h, y: new_y, z: Fixed::zero() }
    } else {
        let stretch: Fixed = new_h.div(h);
        Vec3 { x: r.x.mul(stretch), y: new_y, z: r.z.mul(stretch) }
    }
}

/// How far a zoom moves the eye.
#[verifier::when_used_as_spec(zoom_step_spec)]
pub fn zoom_step(radius: Fixed, delta: Fixed) -> (step: Fixed)
    ensures
        step == zoom_step_spec(radius, delta),
{
    let room: Fixed = radius.sub(Fixed { raw: MIN_RADIUS }).max(Fixed::zero());
    delta.min(room)
}

/// The view matrix of an eye at `eye` looking at `center`.
#[verifier::when_used_as_spec(look_at_spec)]
pub fn look_at(eye: &Vec3, center: &Vec3, up: &Vec3) -> (m: Mat4)
    ensures
        m == look_at_spec(eye, center, up),
{
    let f: Vec3 = center.sub(eye).normalize();
    let s: Vec3 = f.cross(up).normalize();
    let u: Vec3 = s.cross(&f);
    Mat4 {
        r0: Vec4 { x: s.x, y: s.y, z: s.z, w: s.dot(eye).neg() },
        r1: Vec4 { x: u.x, y: u.y, z: u.z, w: u.dot(eye).neg() },
        r2: Vec4 { x: f.x.neg(), y: f.y.neg(), z: f.z.neg(), w: f.dot(eye) },
        r3: Vec4 { x: Fixed::zero(), y: Fixed::zero(), z: Fixed::zero(), w: Fixed::one() },
    }
}

/// Where the viewer stands, what it looks at, and which way is up.
#[derive(Clone, Copy, Debug, PartialEq, Eq, Structural)]
pub struct Camera {
    pub eye: Vec3,
    pub center: Vec3,
    pub up: Vec3,
}

impl Camera {
    /// The offset of the eye from the centre is within the range of a
    /// `Fixed`, so that taking it and adding it back loses nothing.
    pub open spec fn in_reach(&self) -> bool {
        &&& fits(self.eye.x.raw - self.center.x.raw)
        &&& fits(self.eye.y.raw - self.center.y.raw)
        &&& fits(self.eye.z.raw - self.center.z.raw)
    }

    /// The camera after an orbit: the offset of the eye from the centre
    /// is turned by `delta_yaw`, then pitched by `delta_pitch`.
    pub open spec fn orbit_spec(&self, delta_yaw: Fixed, delta_pitch: Fixed) -> Camera {
        Camera {
            eye: self.center.add(&pitched(&yawed(&self.eye.sub(&self.center), delta_yaw), delta_pitch)),
            center: self.center,
            up: self.up,
        }
    }

    /// The camera after a zoom: the eye moves towards the centre by the
    /// step that `zoom_step_spec` allows.
    pub open spec fn zoom_spec(&self, delta: Fixed) -> Camera {
        let toward = self.center.sub(&self.eye);
        Camera {
            eye: self.eye.add(
                &toward.normalize().scale(zoom_step(toward.length(), delta)),
            ),
            center: self.center,
            up: self.up,
        }
    }

    /// The camera after a pan: eye and centre move by the same offset.
    pub open spec fn move_center_spec(&self, direction: &Vec3) -> Camera {
        Camera { eye: self.eye.add(direction), center: self.center.add(direction), up: self.up }
    }

    pub open spec fn view_matrix_spec(&self) -> Mat4 {
        look_at(&self.eye, &self.center, &self.up)
    }

    /// A camera at `eye` looking at `center`.
    pub fn new(eye: Vec3, center: Vec3, up: Vec3) -> (camera: Camera)
        ensures
            camera == (Camera { eye, center, up }),
    {
        Camera { eye, center, up }
    }

    /// Turns the eye about the centre: by `delta_yaw` radians about the
    /// vertical axis, then by `delta_pitch` radians about the axis to
    /// its right.
    pub fn orbit(&mut self, delta_yaw: Fixed, delta_pitch: Fixed)
        ensures
            *final(self) == old(self).orbit_spec(delta_yaw, delta_pitch),
    {
        let offset: Vec3 = self.eye.sub(&self.center);
        let turned: Vec3 = yawed(&offset, delta_yaw);
        let raised: Vec3 = pitched(&turned, delta_pitch);
        self.eye = self.center.add(&raised);
    }

    /// Moves the eye towards the centre by `delta`, or away from it by a
    /// negative `delta`, never nearer than the least radius.
    pub fn zoom(&mut self, delta: Fixed)
        ensures
            *final(self) == old(self).zoom_spec(delta),
    {
        let toward: Vec3 = self.center.sub(&self.eye);
        let step: Fixed = zoom_step(toward.length(), delta);
        let direction: Vec3 = toward.normalize();
        self.eye = self.eye.add(&direction.scale(step));
    }

    /// Moves eye and centre by the same offset.
    pub fn move_center(&mut self, direction: Vec3)
        ensures
            *final(self) == old(self).move_center_spec(&direction),
    {
        self.eye = self.eye.add(&direction);
        self.center = self.center.add(&direction);
    }

    /// The view transform: a right-handed look-at matrix.
    #[verifier::when_used_as_spec(view_matrix_spec)]
    pub fn view_matrix(&self) -> (m: Mat4)
        ensures
            m == self.view_matrix_spec(),
    {
        look_at(&self.eye, &self.center, &self.up)
    }
}

/// Multiplying by one changes nothing, and multiplying by zero gives zero.
pub proof fn lemma_mul_unit(x: Fixed)
    ensures
        x.mul(Fixed { raw: 65536 }) == x,
        x.mul(Fixed { raw: 0 }) == (Fixed { raw: 0 }),
{
    assert(x.raw as int * 65536 / 65536 == x.raw);
    assert(x.raw as int * 0 == 0);
}

/// A positive value divided by itself is one.
pub proof fn lemma_div_self(x: Fixed)
    requires
        x.raw > 0,
    ensures
        x.div(x) == (Fixed { raw: 65536 }),
{
    vstd::arithmetic::div_mod::lemma_div_multiples_vanish(65536, x.raw as int);
    assert(x.raw as int * 65536 == x.raw as int * 65536);
    assert((x.raw as int * 65536) / (x.raw as int) == 65536) by {
        assert(x.raw as int * 65536 == (x.raw as int) * 65536);
    }
}

/// An orbit by no angle at all leaves the camera where it is.
pub proof fn lemma_orbit_zero(camera: Camera)
    requires
        camera.in_reach(),
    ensures
        camera.orbit_spec(Fixed { raw: 0 }, Fixed { raw: 0 }) == camera,
{
    crate::trig::lemma_sin_cardinal();
    let zero = Fixed { raw: 0 };
    let r = camera.eye.sub(&camera.center);
    assert(cos(0i64).raw == 65536);
    assert(sin(0i64).raw == 0);
    lemma_mul_unit(r.x);
    lemma_mul_unit(r.y);
    lemma_mul_unit(r.z);
    assert(yawed(&r, zero) == r);
    let h = Vec3 { x: r.x, y: zero, z: r.z }.length();
    lemma_mul_unit(h);
    if h.raw != 0 {
        assert(h.raw > 0) by {
            crate::vector::lemma_length_positive(Vec3 { x: r.x, y: zero, z: r.z });
        }
        lemma_div_self(h);
    } else {
        crate::vector::lemma_length_zero(Vec3 { x: r.x, y: zero, z: r.z });
    }
    assert(pitched(&r, zero) == r);
}

/// A pan keeps the offset of the eye from the centre, and so the viewing
/// direction and the radius, as long as neither end leaves the range.
pub proof fn lemma_pan_keeps_offset(camera: Camera, direction: Vec3)
    requires
        fits(camera.eye.x.raw + direction.x.raw),
        fits(camera.eye.y.raw + direction.y.raw),
        fits(camera.eye.z.raw + direction.z.raw),
        fits(camera.center.x.raw + direction.x.raw),
        fits(camera.center.y.raw + direction.y.raw),
        fits(camera.center.z.raw + direction.z.raw),
    ensures
        camera.move_center_spec(&direction).eye.sub(&camera.move_center_spec(&direction).center)
            == camera.eye.sub(&camera.center),
{
}

} // verus!
