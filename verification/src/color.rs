//! RGB colors as three 8-bit channels, with the packed `0xRRGGBB` form the
//! framebuffer stores, linear interpolation, and intensity scaling — all in
//! exact integer arithmetic.

use vstd::prelude::*;
use crate::fixed::{div_trunc, FX_ONE};

verus! {

/// An RGB color with 8-bit channels.
#[derive(Clone, Copy, PartialEq, Eq, Structural, Debug)]
pub struct Color {
    pub r: u8,
    pub g: u8,
    pub b: u8,
}

/// One channel interpolated from `a` toward `b` by the fixed-point factor
/// `t`, clamped to the channel range.
pub open spec fn lerp_channel_spec(a: int, b: int, t: int) -> int {
    let v = a + div_trunc((b - a) * t, FX_ONE as int);
    if v < 0 {
        0
    } else if v > 255 {
        255
    } else {
        v
    }
}

/// One channel scaled by a fixed-point intensity, clamped to the channel
/// range.
pub open spec fn scale_channel_spec(a: int, t: int) -> int {
    let v = div_trunc(a * t, FX_ONE as int);
    if v < 0 {
        0
    } else if v > 255 {
        255
    } else {
        v
    }
}

/// One channel of an additive blend, saturating at full brightness.
pub open spec fn add_channel_spec(a: int, b: int) -> int {
    if a + b > 255 {
        255
    } else {
        a + b
    }
}

fn lerp_channel(a: u8, b: u8, t: i64) -> (r: u8)
    ensures
        r as int == lerp_channel_spec(a as int, b as int, t as int),
{
    proof {
        assert(-0x7fff_ffff_ffff_ffff_ff00i128 <= (b as i128 - a as i128) * (t as i128)
            <= 0x7fff_ffff_ffff_ffff_ff00i128) by (nonlinear_arith)
            requires
                -255 <= b as i128 - a as i128 <= 255,
                -0x8000_0000_0000_0000i128 <= t as i128 <= 0x8000_0000_0000_0000i128,
        ;
    }
    let diff: i128 = (b as i128 - a as i128) * (t as i128);
    let q: i128 = if diff >= 0 {
        ((diff as u128) / 65536u128) as i128
    } else {
        -((((-diff) as u128) / 65536u128) as i128)
    };
    proof {
        assert(vstd::math::abs((b as int - a as int) * t) == vstd::math::abs(
            b as int - a as int,
        ) * vstd::math::abs(t as int)) by (nonlinear_arith);
    }
    let v: i128 = a as i128 + q;
    if v < 0 {
        0
    } else if v > 255 {
        255
    } else {
        v as u8
    }
}

fn scale_channel(a: u8, t: i64) -> (r: u8)
    ensures
        r as int == scale_channel_spec(a as int, t as int),
{
    proof {
        assert(-0x7fff_ffff_ffff_ffff_ff00i128 <= (a as i128) * (t as i128)
            <= 0x7fff_ffff_ffff_ffff_ff00i128) by (nonlinear_arith)
            requires
                0 <= a as i128 <= 255,
                -0x8000_0000_0000_0000i128 <= t as i128 <= 0x8000_0000_0000_0000i128,
        ;
    }
    let p: i128 = (a as i128) * (t as i128);
    let q: i128 = if p >= 0 {
        ((p as u128) / 65536u128) as i128
    } else {
        -((((-p) as u128) / 65536u128) as i128)
    };
    proof {
        assert(vstd::math::abs((a as int) * t) == vstd::math::abs(a as int) * vstd::math::abs(
            t as int,
        )) by (nonlinear_arith);
    }
    if q < 0 {
        0
    } else if q > 255 {
        255
    } else {
        q as u8
    }
}

impl Color {
    pub fn new(r: u8, g: u8, b: u8) -> (c: Color)
        ensures
            c == (Color { r, g, b }),
    {
        Color { r, g, b }
    }

    /// The packed `0xRRGGBB` value of this color.
    pub open spec fn to_hex_spec(self) -> u32 {
        ((self.r as int) * 0x10000 + (self.g as int) * 0x100 + (self.b as int)) as u32
    }

    pub fn to_hex(&self) -> (h: u32)
        ensures
            h == self.to_hex_spec(),
    {
        (self.r as u32) * 0x10000 + (self.g as u32) * 0x100 + (self.b as u32)
    }

    /// The color of a packed `0xRRGGBB` value (upper bits ignored).
    pub open spec fn from_hex_spec(h: u32) -> Color {
        Color {
            r: ((h / 0x10000) % 0x100) as u8,
            g: ((h / 0x100) % 0x100) as u8,
            b: (h % 0x100) as u8,
        }
    }

    pub fn from_hex(h: u32) -> (c: Color)
        ensures
            c == Color::from_hex_spec(h),
    {
        Color {
            r: ((h / 0x10000) % 0x100) as u8,
            g: ((h / 0x100) % 0x100) as u8,
            b: (h % 0x100) as u8,
        }
    }

    /// Channelwise interpolation from this color toward `other` by the
    /// fixed-point factor `t` (0 stays here, `FX_ONE` reaches `other`).
    pub open spec fn lerp_spec(self, other: Color, t: int) -> Color {
        Color {
            r: lerp_channel_spec(self.r as int, other.r as int, t) as u8,
            g: lerp_channel_spec(self.g as int, other.g as int, t) as u8,
            b: lerp_channel_spec(self.b as int, other.b as int, t) as u8,
        }
    }

    pub fn lerp(&self, other: &Color, t: i64) -> (c: Color)
        ensures
            c == self.lerp_spec(*other, t as int),
    {
        Color {
            r: lerp_channel(self.r, other.r, t),
            g: lerp_channel(self.g, other.g, t),
            b: lerp_channel(self.b, other.b, t),
        }
    }

    /// Channelwise scaling by a fixed-point intensity.
    pub open spec fn scale_spec(self, t: int) -> Color {
        Color {
            r: scale_channel_spec(self.r as int, t) as u8,
            g: scale_channel_spec(self.g as int, t) as u8,
            b: scale_channel_spec(self.b as int, t) as u8,
        }
    }

    pub fn scale(&self, t: i64) -> (c: Color)
        ensures
            c == self.scale_spec(t as int),
    {
        Color { r: scale_channel(self.r, t), g: scale_channel(self.g, t), b: scale_channel(self.b, t) }
    }

    /// Channelwise additive blend, saturating at full brightness.
    pub open spec fn blend_add_spec(self, other: Color) -> Color {
        Color {
            r: add_channel_spec(self.r as int, other.r as int) as u8,
            g: add_channel_spec(self.g as int, other.g as int) as u8,
            b: add_channel_spec(self.b as int, other.b as int) as u8,
        }
    }

    pub fn blend_add(&self, other: &Color) -> (c: Color)
        ensures
            c == self.blend_add_spec(*other),
    {
        let r: u16 = self.r as u16 + other.r as u16;
        let g: u16 = self.g as u16 + other.g as u16;
        let b: u16 = self.b as u16 + other.b as u16;
        Color {
            r: if r > 255 { 255 } else { r as u8 },
            g: if g > 255 { 255 } else { g as u8 },
            b: if b > 255 { 255 } else { b as u8 },
        }
    }
}

} // verus!
