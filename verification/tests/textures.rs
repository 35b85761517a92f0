//! Texture evaluation: solid colors, the XOR pattern, and the
//! bit-reproducible hash-noise pattern.

use glimmer::color::Color;
use glimmer::fx::Fx;
use glimmer::texture::{P2, Texture, noise_hash_exec, solid_texture};

fn uv(u: i64, v: i64) -> P2 {
    P2 { u: Fx::new(u), v: Fx::new(v) }
}

#[test]
fn solid_ignores_uv() {
    let c = Color::new(Fx::new(1000), Fx::new(2000), Fx::new(3000));
    let t = solid_texture(c);
    assert_eq!(t.color(uv(0, 0)), c);
    assert_eq!(t.color(uv(32768, -99999)), c);
}

#[test]
fn xor_pattern_exact_value() {
    // u = 0.5 -> byte 127, v = 0.25 -> byte 63; 127 ^ 63 == 64
    let c = Texture::Xor.color(uv(32768, 16384));
    assert_eq!(c.r.raw, 16448);
    assert_eq!(c.g.raw, 16448);
    assert_eq!(c.b.raw, 16448);
}

#[test]
fn xor_pattern_clamps_out_of_range_uv() {
    // negative coordinates clamp to byte 0, large ones to byte 255
    let c = Texture::Xor.color(uv(-65536, 10 * 65536));
    // 0 ^ 255 == 255 -> channel raw (255 << 16) / 255 == 65536
    assert_eq!(c.r.raw, 65536);
}

#[test]
fn noise_hash_follows_the_specified_steps() {
    // cells (8, 4): seed = 24 ^ 28 = 4, times 2364275237, three xorshifts
    assert_eq!(noise_hash_exec(8, 4), 421328522);
}

#[test]
fn noise_pattern_exact_value() {
    // u = 0.5 -> cell 8, v = 0.25 -> cell 4; low byte 138
    let c = Texture::Noise.color(uv(32768, 16384));
    assert_eq!(c.r.raw, 35466);
    assert_eq!(c.g.raw, 35466);
    assert_eq!(c.b.raw, 35466);
}

#[test]
fn noise_pattern_is_bit_identical_across_evaluations() {
    let p = uv(32768, 16384);
    let a = Texture::Noise.color(p);
    let b = Texture::Noise.color(p);
    assert_eq!(a, b);
    let c = Texture::Xor.color(p);
    let d = Texture::Xor.color(p);
    assert_eq!(c, d);
}
