//! RGB colors over the fixed-point scalar.
//!
//! Channel values conceptually lie in `[0, 1]`; they are clamped to the
//! display range `[0, 255]` only when a pixel is finally written.

use vstd::prelude::*;
use crate::fx::{Fx, fx_add, fx_mul, tdiv};
use crate::vec3::fxv;

verus! {

/// An RGB color with fixed-point channels.
#[derive(Clone, Copy, PartialEq, Eq, Structural, Debug)]
pub struct Color {
    pub r: Fx,
    pub g: Fx,
    pub b: Fx,
}

/// Componentwise color addition.
pub open spec fn c_add(a: Color, b: Color) -> Color {
    Color {
        r: fxv(fx_add(a.r.raw as int, b.r.raw as int)),
        g: fxv(fx_add(a.g.raw as int, b.g.raw as int)),
        b: fxv(fx_add(a.b.raw as int, b.b.raw as int)),
    }
}

/// Componentwise color modulation.
pub open spec fn c_mul(a: Color, b: Color) -> Color {
    Color {
        r: fxv(fx_mul(a.r.raw as int, b.r.raw as int)),
        g: fxv(fx_mul(a.g.raw as int, b.g.raw as int)),
        b: fxv(fx_mul(a.b.raw as int, b.b.raw as int)),
    }
}

/// Color scaled by a scalar.
pub open spec fn c_scale(a: Color, k: Fx) -> Color {
    Color {
        r: fxv(fx_mul(a.r.raw as int, k.raw as int)),
        g: fxv(fx_mul(a.g.raw as int, k.raw as int)),
        b: fxv(fx_mul(a.b.raw as int, k.raw as int)),
    }
}

/// A channel clamped to one display byte: non-positive values map to 0,
/// values of 1.0 and above map to 255, values between are truncated.
pub open spec fn byte_of(c: int) -> int {
    if c <= 0 {
        0
    } else {
        let v = tdiv(c * 255, 65536);
        if v > 255 {
            255
        } else {
            v
        }
    }
}

impl Color {
    /// The color with the given channels.
    pub fn new(r: Fx, g: Fx, b: Fx) -> (c: Color)
        ensures
            c == (Color { r, g, b }),
    {
        Color { r, g, b }
    }

    /// Black: all channels zero. The background of every miss.
    pub fn black() -> (c: Color)
        ensures
            c == (Color { r: Fx { raw: 0 }, g: Fx { raw: 0 }, b: Fx { raw: 0 } }),
    {
        Color { r: Fx { raw: 0 }, g: Fx { raw: 0 }, b: Fx { raw: 0 } }
    }

    /// Componentwise addition.
    pub fn add(self, o: Color) -> (c: Color)
        ensures
            c == c_add(self, o),
    {
        Color { r: self.r.add(o.r), g: self.g.add(o.g), b: self.b.add(o.b) }
    }

    /// Componentwise modulation.
    pub fn mul(self, o: Color) -> (c: Color)
        ensures
            c == c_mul(self, o),
    {
        Color { r: self.r.mul(o.r), g: self.g.mul(o.g), b: self.b.mul(o.b) }
    }

    /// Scale every channel by a scalar.
    pub fn scale(self, k: Fx) -> (c: Color)
        ensures
            c == c_scale(self, k),
    {
        Color { r: self.r.mul(k), g: self.g.mul(k), b: self.b.mul(k) }
    }

    /// Clamp one channel to a display byte.
    pub fn channel_byte(ch: Fx) -> (v: u8)
        ensures
            v as int == byte_of(ch.raw as int),
    {
        if ch.raw <= 0 {
            0
        } else {
            let w: u128 = (ch.raw as u128) * 255 / 65536;
            if w > 255 {
                255
            } else {
                w as u8
            }
        }
    }

    /// The three channels clamped to display bytes, in RGB order.
    pub fn to_bytes(self) -> (v: (u8, u8, u8))
        ensures
            v.0 as int == byte_of(self.r.raw as int),
            v.1 as int == byte_of(self.g.raw as int),
            v.2 as int == byte_of(self.b.raw as int),
    {
        (
            Color::channel_byte(self.r),
            Color::channel_byte(self.g),
            Color::channel_byte(self.b),
        )
    }
}

} // verus!
