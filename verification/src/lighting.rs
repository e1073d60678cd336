//! The one light of the scene and the terms the materials build on it.

use vstd::prelude::*;
use crate::fixed::Fixed;
use crate::vector::Vec3;

verus! {

/// The direction towards the light: `(1, 1, 0.5)` scaled to unit length,
/// which is `(2/3, 2/3, 1/3)`.
pub open spec fn light_direction_spec() -> Vec3 {
    Vec3 { x: Fixed { raw: 43691 }, y: Fixed { raw: 43691 }, z: Fixed { raw: 21845 } }
}

/// The direction towards the viewer.
pub open spec fn view_direction_spec() -> Vec3 {
    Vec3 { x: Fixed { raw: 0 }, y: Fixed { raw: 0 }, z: Fixed { raw: 65536 } }
}

/// The diffuse term: the cosine between the unit normal and the light,
/// never below zero.
pub open spec fn diffuse_spec(normal: &Vec3) -> Fixed {
    normal.normalize().dot(&light_direction_spec()).max(Fixed::zero())
}

/// Ambient plus diffuse light: `0.4 + 0.6 * diffuse`.
pub open spec fn lit_factor_spec(diffuse: Fixed) -> Fixed {
    Fixed { raw: 26214 }.add(Fixed { raw: 39322 }.mul(diffuse))
}

/// The sixteenth power, by four squarings.
pub open spec fn pow16_spec(x: Fixed) -> Fixed {
    let x2 = x.mul(x);
    let x4 = x2.mul(x2);
    let x8 = x4.mul(x4);
    x8.mul(x8)
}

/// The specular term of a reflection `r` seen from the viewer:
/// `max(0, r . view)` to the sixteenth power.
pub open spec fn specular_spec(reflection: &Vec3, toward: &Vec3) -> Fixed {
    pow16_spec(reflection.dot(toward).max(Fixed::zero()))
}

/// The direction towards the light.
#[verifier::when_used_as_spec(light_direction_spec)]
pub fn light_direction() -> (l: Vec3)
    ensures
        l == light_direction_spec(),
{
    Vec3 { x: Fixed { raw: 43691 }, y: Fixed { raw: 43691 }, z: Fixed { raw: 21845 } }
}

/// The direction towards the viewer.
#[verifier::when_used_as_spec(view_direction_spec)]
pub fn view_direction() -> (v: Vec3)
    ensures
        v == view_direction_spec(),
{
    Vec3 { x: Fixed::zero(), y: Fixed::zero(), z: Fixed::one() }
}

/// The diffuse term of a surface with the given normal.
#[verifier::when_used_as_spec(diffuse_spec)]
pub fn diffuse(normal: &Vec3) -> (d: Fixed)
    ensures
        d == diffuse_spec(normal),
        d.raw >= 0,
{
    let unit: Vec3 = normal.normalize();
    let light: Vec3 = light_direction();
    unit.dot(&light).max(Fixed::zero())
}

/// Ambient plus diffuse light.
#[verifier::when_used_as_spec(lit_factor_spec)]
pub fn lit_factor(diffuse: Fixed) -> (f: Fixed)
    ensures
        f == lit_factor_spec(diffuse),
{
    let ambient = Fixed { raw: 26214 };
    let share = Fixed { raw: 39322 };
    ambient.add(share.mul(diffuse))
}

/// The sixteenth power.
#[verifier::when_used_as_spec(pow16_spec)]
pub fn pow16(x: Fixed) -> (p: Fixed)
    ensures
        p == pow16_spec(x),
{
    let x2: Fixed = x.mul(x);
    let x4: Fixed = x2.mul(x2);
    let x8: Fixed = x4.mul(x4);
    x8.mul(x8)
}

/// The specular term of a reflection seen from `toward`.
#[verifier::when_used_as_spec(specular_spec)]
pub fn specular(reflection: &Vec3, toward: &Vec3) -> (s: Fixed)
    ensures
        s == specular_spec(reflection, toward),
{
    pow16(reflection.dot(toward).max(Fixed::zero()))
}

} // verus!
