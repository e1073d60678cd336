//! RGB colours with 8-bit channels and the blends the materials use.

use vstd::prelude::*;
use crate::fixed::{clamp_int, div_floor, Fixed};

verus! {

/// One channel of a linear interpolation. The weight `t` is held in
/// `[0, 1]` first; the result is rounded to the nearest channel value.
pub open spec fn lerp_channel(a: int, b: int, t: int) -> int {
    let w = clamp_int(t, 0, 65536);
    (a * (65536 - w) + b * w + 32768) / 65536
}

/// One channel multiplied by a factor: rounded down, then held in `[0, 255]`.
pub open spec fn scale_channel(c: int, s: int) -> int {
    clamp_int((c * s) / 65536, 0, 255)
}

/// One channel of a saturating sum.
pub open spec fn add_channel(a: int, b: int) -> int {
    if a + b > 255 {
        255
    } else {
        a + b
    }
}

/// One channel of a weighted blend: each side scaled by its share, then
/// summed with saturation.
pub open spec fn blend_channel(a: int, b: int, w: int) -> int {
    let share = clamp_int(w, 0, 65536);
    add_channel(scale_channel(a, 65536 - share), scale_channel(b, share))
}

/// An RGB colour.
#[derive(Clone, Copy, Debug, PartialEq, Eq, Structural)]
pub struct Color {
    pub r: u8,
    pub g: u8,
    pub b: u8,
}

fn lerp_u8(a: u8, b: u8, t: Fixed) -> (c: u8)
    ensures
        c == lerp_channel(a as int, b as int, t.raw as int),
{
    let w: i128 = if t.raw < 0 {
        0
    } else if t.raw > 65536 {
        65536
    } else {
        t.raw as i128
    };
    let x: i128 = a as i128;
    let y: i128 = b as i128;
    assert(0 <= x * (65536 - w) <= 255 * 65536 && 0 <= y * w <= 255 * 65536
        && x * (65536 - w) + y * w <= 255 * 65536) by (nonlinear_arith)
        requires
            0 <= x <= 255,
            0 <= y <= 255,
            0 <= w <= 65536,
    ;
    let q: i128 = div_floor(x * (65536 - w) + y * w + 32768, 65536);
    q as u8
}

fn scale_u8(c: u8, s: Fixed) -> (out: u8)
    ensures
        out == scale_channel(c as int, s.raw as int),
{
    let x: i128 = c as i128;
    let f: i128 = s.raw as i128;
    assert(-0x100_0000_0000 <= x * f <= 0x100_0000_0000) by (nonlinear_arith)
        requires
            0 <= x <= 255,
            -0x8000_0000 <= f <= 0x7fff_ffff,
    ;
    let q: i128 = div_floor(x * f, 65536);
    if q < 0 {
        0
    } else if q > 255 {
        255
    } else {
        q as u8
    }
}

fn add_u8(a: u8, b: u8) -> (c: u8)
    ensures
        c == add_channel(a as int, b as int),
{
    let sum: u16 = a as u16 + b as u16;
    if sum > 255 {
        255
    } else {
        sum as u8
    }
}

impl Color {
    /// The colour as one integer, `0xRRGGBB`.
    pub open spec fn hex_spec(&self) -> u32 {
        (self.r as int * 65536 + self.g as int * 256 + self.b as int) as u32
    }

    pub open spec fn new_spec(r: u8, g: u8, b: u8) -> Color {
        Color { r, g, b }
    }

    pub open spec fn black_spec() -> Color {
        Color { r: 0, g: 0, b: 0 }
    }

    /// The colour a fraction `t` of the way from `self` to `other`.
    pub open spec fn lerp_spec(&self, other: &Color, t: Fixed) -> Color {
        Color {
            r: lerp_channel(self.r as int, other.r as int, t.raw as int) as u8,
            g: lerp_channel(self.g as int, other.g as int, t.raw as int) as u8,
            b: lerp_channel(self.b as int, other.b as int, t.raw as int) as u8,
        }
    }

    /// The colour with every channel multiplied by `s`.
    pub open spec fn scale_spec(&self, s: Fixed) -> Color {
        Color {
            r: scale_channel(self.r as int, s.raw as int) as u8,
            g: scale_channel(self.g as int, s.raw as int) as u8,
            b: scale_channel(self.b as int, s.raw as int) as u8,
        }
    }

    /// The channel-wise saturating sum.
    pub open spec fn add_spec(&self, other: Color) -> Color {
        Color {
            r: add_channel(self.r as int, other.r as int) as u8,
            g: add_channel(self.g as int, other.g as int) as u8,
            b: add_channel(self.b as int, other.b as int) as u8,
        }
    }

    /// `other` laid over `self` with opacity `weight`.
    pub open spec fn blend_spec(&self, other: Color, weight: Fixed) -> Color {
        Color {
            r: blend_channel(self.r as int, other.r as int, weight.raw as int) as u8,
            g: blend_channel(self.g as int, other.g as int, weight.raw as int) as u8,
            b: blend_channel(self.b as int, other.b as int, weight.raw as int) as u8,
        }
    }

    #[verifier::when_used_as_spec(new_spec)]
    pub fn new(r: u8, g: u8, b: u8) -> (c: Color)
        ensures
            c == (Color { r, g, b }),
    {
        Color { r, g, b }
    }

    #[verifier::when_used_as_spec(black_spec)]
    pub fn black() -> (c: Color)
        ensures
            c == (Color { r: 0, g: 0, b: 0 }),
    {
        Color { r: 0, g: 0, b: 0 }
    }

    /// The colour that `hex` packs as `0xRRGGBB`; higher bits are ignored.
    pub fn from_hex(hex: u32) -> (c: Color)
        ensures
            c.r == (hex as int / 65536) % 256,
            c.g == (hex as int / 256) % 256,
            c.b == hex as int % 256,
            hex < 0x100_0000 ==> c.hex_spec() == hex,
    {
        let r: u32 = (hex / 65536) % 256;
        let g: u32 = (hex / 256) % 256;
        let b: u32 = hex % 256;
        Color { r: r as u8, g: g as u8, b: b as u8 }
    }

    /// Packs the colour as `0xRRGGBB`.
    #[verifier::when_used_as_spec(hex_spec)]
    pub fn to_hex(&self) -> (hex: u32)
        ensures
            hex == self.hex_spec(),
    {
        let r: u32 = self.r as u32;
        let g: u32 = self.g as u32;
        let b: u32 = self.b as u32;
        r * 65536 + g * 256 + b
    }

    /// Linear interpolation from `self` (at `t <= 0`) to `other` (at `t >= 1`).
    #[verifier::when_used_as_spec(lerp_spec)]
    pub fn lerp(&self, other: &Color, t: Fixed) -> (c: Color)
        ensures
            c == self.lerp_spec(other, t),
    {
        Color {
            r: lerp_u8(self.r, other.r, t),
            g: lerp_u8(self.g, other.g, t),
            b: lerp_u8(self.b, other.b, t),
        }
    }

    /// Weighted blend: `self` keeps the share `1 - weight`, `other` gets `weight`.
    #[verifier::when_used_as_spec(blend_spec)]
    pub fn blend(&self, other: Color, weight: Fixed) -> (c: Color)
        ensures
            c == self.blend_spec(other, weight),
    {
        let w: Fixed = weight.clamp(Fixed::zero(), Fixed::one());
        let rest: Fixed = Fixed { raw: 65536 - w.raw };
        Color {
            r: add_u8(scale_u8(self.r, rest), scale_u8(other.r, w)),
            g: add_u8(scale_u8(self.g, rest), scale_u8(other.g, w)),
            b: add_u8(scale_u8(self.b, rest), scale_u8(other.b, w)),
        }
    }

    /// Every channel multiplied by `s`, held in `[0, 255]`.
    #[verifier::when_used_as_spec(scale_spec)]
    pub fn scale(&self, s: Fixed) -> (c: Color)
        ensures
            c == self.scale_spec(s),
    {
        Color { r: scale_u8(self.r, s), g: scale_u8(self.g, s), b: scale_u8(self.b, s) }
    }

    /// Channel-wise saturating sum.
    #[verifier::when_used_as_spec(add_spec)]
    pub fn add(&self, other: Color) -> (c: Color)
        ensures
            c == self.add_spec(other),
    {
        Color {
            r: add_u8(self.r, other.r),
            g: add_u8(self.g, other.g),
            b: add_u8(self.b, other.b),
        }
    }
}

/// Interpolating with weight zero (or less) gives the first colour, with
/// weight one (or more) the second.
pub proof fn lemma_lerp_endpoints(a: Color, b: Color, t: Fixed)
    ensures
        t.raw <= 0 ==> a.lerp_spec(&b, t) == a,
        t.raw >= 65536 ==> a.lerp_spec(&b, t) == b,
{
    lemma_lerp_channel_ends(a.r as int, b.r as int, t.raw as int);
    lemma_lerp_channel_ends(a.g as int, b.g as int, t.raw as int);
    lemma_lerp_channel_ends(a.b as int, b.b as int, t.raw as int);
}

proof fn lemma_lerp_channel_ends(a: int, b: int, t: int)
    ensures
        t <= 0 ==> lerp_channel(a, b, t) == a,
        t >= 65536 ==> lerp_channel(a, b, t) == b,
{
    let w = clamp_int(t, 0, 65536);
    if t <= 0 {
        assert(a * (65536 - w) + b * w + 32768 == a * 65536 + 32768) by (nonlinear_arith)
            requires
                w == 0,
        ;
    }
    if t >= 65536 {
        assert(a * (65536 - w) + b * w + 32768 == b * 65536 + 32768) by (nonlinear_arith)
            requires
                w == 65536,
        ;
    }
}

/// Every channel of an interpolated colour lies between the channels of
/// its two ends.
pub proof fn lemma_lerp_between(a: int, b: int, t: int)
    requires
        0 <= a <= 255,
        0 <= b <= 255,
    ensures
        a <= b ==> a <= lerp_channel(a, b, t) <= b,
        b <= a ==> b <= lerp_channel(a, b, t) <= a,
{
    let w = clamp_int(t, 0, 65536);
    let n = a * (65536 - w) + b * w;
    assert(a <= b ==> a * 65536 <= n <= b * 65536) by (nonlinear_arith)
        requires
            n == a * (65536 - w) + b * w,
            0 <= w <= 65536,
    ;
    assert(b <= a ==> b * 65536 <= n <= a * 65536) by (nonlinear_arith)
        requires
            n == a * (65536 - w) + b * w,
            0 <= w <= 65536,
    ;
}

/// Scaling by one leaves a colour as it is; scaling by zero gives black.
pub proof fn lemma_scale_unit(c: Color)
    ensures
        c.scale_spec(Fixed { raw: 65536 }) == c,
        c.scale_spec(Fixed { raw: 0 }) == (Color { r: 0, g: 0, b: 0 }),
{
}

} // verus!
