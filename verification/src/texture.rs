//! Surface parameterization, textures and materials.
//!
//! A texture is either a solid color or one of two deterministic
//! procedural patterns dispatched by an operation code. The procedural
//! patterns are pure functions of the `(u, v)` coordinate: the returned
//! color is bit-identical across repeated evaluations.

use vstd::prelude::*;
use crate::fx::Fx;
use crate::color::{Color, byte_of};
use crate::vec3::fxv;

verus! {

/// A 2-D surface coordinate used to sample a texture.
#[derive(Clone, Copy, PartialEq, Eq, Structural, Debug)]
pub struct P2 {
    pub u: Fx,
    pub v: Fx,
}

/// A surface's optical properties, shared by value across any number of
/// primitives; immutable once the scene is built.
#[derive(Clone, Copy, PartialEq, Eq, Structural, Debug)]
pub struct Material {
    pub texture: Texture,
    pub diffuse_coef: Fx,
    pub reflectivity: Fx,
}

/// Per-object shading data attached to every primitive.
#[derive(Clone, Copy, PartialEq, Eq, Structural, Debug)]
pub struct ObjInfo {
    pub material: Material,
}

/// A texture: a solid color, or a procedural pattern selected by
/// operation code (a closed set keeps evaluation deterministic).
#[derive(Clone, Copy, PartialEq, Eq, Structural, Debug)]
pub enum Texture {
    /// The same color everywhere, whatever the uv coordinate.
    Solid(Color),
    /// Integer-lattice XOR pattern.
    Xor,
    /// Hash-noise pattern on a 16-cell lattice.
    Noise,
}

/// Number of lattice cells per uv unit for the noise pattern.
pub const NOISE_LATTICE: u64 = 16;

/// Odd multiplier of the noise hash.
pub const NOISE_MULTIPLIER: u64 = 2364275237;

/// A uv coordinate scaled onto the noise lattice and clamped to the
/// `u32` range (non-positive coordinates map to cell 0).
pub open spec fn lattice16(c: int) -> int {
    if c <= 0 {
        0
    } else {
        let v = (c * 16) / 65536;
        if v > u32::MAX {
            u32::MAX as int
        } else {
            v
        }
    }
}

/// The noise hash: seed derivation from the cell coordinates, one odd
/// multiplication, then a three-step xorshift, all modulo `2^32`.
pub open spec fn noise_hash(x: u32, y: u32) -> u32 {
    let s0 = ((x as int * 3) % 0x100000000) as u32 ^ ((y as int * 7) % 0x100000000) as u32;
    let s1 = ((s0 as int * NOISE_MULTIPLIER as int) % 0x100000000) as u32;
    let s2 = s1 ^ (s1 << 13);
    let s3 = s2 ^ (s2 >> 17);
    s3 ^ (s3 << 5)
}

/// A byte spread back to a fixed-point channel value in `[0, 1]`.
pub open spec fn byte_channel(b: int) -> Fx {
    fxv((b * 65536) / 255)
}

/// Color of the XOR pattern at a uv coordinate: each coordinate scaled
/// to `[0, 255]`, the two bytes XORed, the result replicated across the
/// three channels.
pub open spec fn xor_tex(u: int, v: int) -> Color {
    let c = byte_channel((byte_of(u) as u8 ^ byte_of(v) as u8) as int);
    Color { r: c, g: c, b: c }
}

/// Color of the noise pattern at a uv coordinate: the low byte of the
/// hash of the lattice cell, replicated across the three channels.
pub open spec fn noise_tex(u: int, v: int) -> Color {
    let s = noise_hash(lattice16(u) as u32, lattice16(v) as u32);
    let c = byte_channel((s as int) % 256);
    Color { r: c, g: c, b: c }
}

/// What a texture returns at a uv coordinate; a deterministic function
/// of the texture and the coordinate alone.
pub open spec fn texture_color(t: Texture, p: P2) -> Color {
    match t {
        Texture::Solid(c) => c,
        Texture::Xor => xor_tex(p.u.raw as int, p.v.raw as int),
        Texture::Noise => noise_tex(p.u.raw as int, p.v.raw as int),
    }
}

/// A uv coordinate scaled onto the noise lattice.
fn lattice16_exec(c: Fx) -> (r: u32)
    ensures
        r as int == lattice16(c.raw as int),
{
    if c.raw <= 0 {
        0
    } else {
        let v: u128 = ((c.raw as u128) * 16) / 65536;
        if v > u32::MAX as u128 {
            u32::MAX
        } else {
            v as u32
        }
    }
}

/// The noise hash over the lattice cell coordinates.
pub fn noise_hash_exec(x: u32, y: u32) -> (r: u32)
    ensures
        r == noise_hash(x, y),
{
    let s0: u32 = (((x as u64) * 3) % 0x100000000) as u32 ^ (((y as u64) * 7) % 0x100000000) as u32;
    let s1: u32 = (((s0 as u64) * NOISE_MULTIPLIER) % 0x100000000) as u32;
    let s2: u32 = s1 ^ (s1 << 13u32);
    let s3: u32 = s2 ^ (s2 >> 17u32);
    s3 ^ (s3 << 5u32)
}

/// A byte spread back to a fixed-point channel value.
fn byte_channel_exec(b: u32) -> (r: Fx)
    requires
        b < 256,
    ensures
        r == byte_channel(b as int),
{
    Fx { raw: (((b as u64) * 65536) / 255) as i64 }
}

impl Texture {
    /// Evaluate the texture at a uv coordinate.
    pub fn color(&self, p: P2) -> (c: Color)
        ensures
            c == texture_color(*self, p),
    {
        match *self {
            Texture::Solid(c) => c,
            Texture::Xor => {
                let x = Color::channel_byte(p.u);
                let y = Color::channel_byte(p.v);
                let w: u8 = x ^ y;
                let ch = byte_channel_exec(w as u32);
                Color { r: ch, g: ch, b: ch }
            },
            Texture::Noise => {
                let x = lattice16_exec(p.u);
                let y = lattice16_exec(p.v);
                let s = noise_hash_exec(x, y);
                let ch = byte_channel_exec(s % 256);
                Color { r: ch, g: ch, b: ch }
            },
        }
    }
}

/// The texture that returns the given color everywhere.
pub fn solid_texture(c: Color) -> (t: Texture)
    ensures
        t == Texture::Solid(c),
{
    Texture::Solid(c)
}

impl Material {
    /// A material from its texture and coefficients.
    pub fn new(texture: Texture, diffuse_coef: Fx, reflectivity: Fx) -> (m: Material)
        ensures
            m == (Material { texture, diffuse_coef, reflectivity }),
    {
        Material { texture, diffuse_coef, reflectivity }
    }
}

impl ObjInfo {
    /// Shading data from a material.
    pub fn new(material: Material) -> (o: ObjInfo)
        ensures
            o == (ObjInfo { material }),
    {
        ObjInfo { material }
    }
}

/// Evaluating a texture twice at the same coordinate gives bit-identical
/// colors: the procedural patterns are pure hashes, not stateful
/// generators.
pub proof fn lemma_texture_deterministic(t: Texture, p: P2, c1: Color, c2: Color)
    requires
        c1 == texture_color(t, p),
        c2 == texture_color(t, p),
    ensures
        c1 == c2,
{
}

} // verus!
