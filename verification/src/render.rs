//! The frame driver: camera rays through every pixel, optional
//! antialiasing, and the clamped RGB byte buffer.

use vstd::prelude::*;
use crate::color::{Color, byte_of, c_add, c_scale};
use crate::fx::{Fx, fx_add, fx_sub, fx_mul, fx_div, sat64};
use crate::geom::Ray;
use crate::scene::Scene;
use crate::shade::{cast, shade_s};
use crate::vec3::{Vec3, fxv, v_normalize};

verus! {

/// Raw value of the antialiasing sample offset (about a third of a
/// pixel each way).
pub const AA_OFFSET_RAW: i64 = 21845;

/// Raw value of one half, the weight of each antialiasing sample.
pub const HALF_RAW: i64 = 32768;

/// The antialiasing configuration: one centered sample per pixel, or a
/// fixed 2x2 kernel of offset samples with equal weights.
#[derive(Clone, Copy, PartialEq, Eq, Structural, Debug)]
pub enum AaMode {
    Off,
    TwoByTwo,
}

/// The pixel-to-camera scale: the reciprocal of the shorter image
/// dimension, which preserves the aspect ratio and keeps the field of
/// view roughly constant whatever the resolution.
pub open spec fn pixel_scale_s(w: u32, h: u32) -> int {
    let m: u32 = if w <= h { w } else { h };
    fx_div(65536, sat64(m * 65536))
}

/// The pinhole camera ray of a sub-pixel sample: pixel coordinates
/// relative to the image center, scaled, depth 1, normalized; the
/// origin is the world origin.
pub open spec fn sample_ray_s(w: u32, h: u32, x: u32, y: u32, xo: int, yo: int) -> Ray {
    let t = pixel_scale_s(w, h);
    let xt = fx_mul(fx_sub(fx_add(sat64(x * 65536), xo), fx_mul(sat64(w * 65536), HALF_RAW as int)), t);
    let yt = fx_mul(fx_sub(fx_add(sat64(y * 65536), yo), fx_mul(sat64(h * 65536), HALF_RAW as int)), t);
    Ray {
        origin: Vec3 { x: fxv(0), y: fxv(0), z: fxv(0) },
        dir: v_normalize(Vec3 { x: fxv(xt), y: fxv(yt), z: fxv(65536) }),
    }
}

/// The shaded color of one sub-pixel sample, at recursion depth zero.
pub open spec fn sample_color_s(scene: Scene, w: u32, h: u32, x: u32, y: u32, xo: int, yo: int) -> Color {
    shade_s(scene, sample_ray_s(w, h, x, y, xo, yo), 0)
}

/// One antialiasing sample weighted by its two kernel coefficients.
pub open spec fn weighted_sample_s(scene: Scene, w: u32, h: u32, x: u32, y: u32, xo: int, yo: int) -> Color {
    c_scale(c_scale(sample_color_s(scene, w, h, x, y, xo, yo), Fx { raw: HALF_RAW }), Fx { raw: HALF_RAW })
}

/// The color of a pixel: the single centered sample, or the sum of the
/// four weighted kernel samples (rows of the kernel in the outer
/// position, matching the evaluation order).
pub open spec fn pixel_color_s(scene: Scene, w: u32, h: u32, x: u32, y: u32, aa: AaMode) -> Color {
    match aa {
        AaMode::Off => sample_color_s(scene, w, h, x, y, 0, 0),
        AaMode::TwoByTwo => c_add(
            c_add(
                c_add(
                    weighted_sample_s(scene, w, h, x, y, -AA_OFFSET_RAW as int, -AA_OFFSET_RAW as int),
                    weighted_sample_s(scene, w, h, x, y, AA_OFFSET_RAW as int, -AA_OFFSET_RAW as int),
                ),
                weighted_sample_s(scene, w, h, x, y, -AA_OFFSET_RAW as int, AA_OFFSET_RAW as int),
            ),
            weighted_sample_s(scene, w, h, x, y, AA_OFFSET_RAW as int, AA_OFFSET_RAW as int),
        ),
    }
}

/// The three display bytes of a pixel.
#[verifier::opaque]
pub open spec fn pixel_bytes_s(scene: Scene, w: u32, h: u32, x: u32, y: u32, aa: AaMode) -> (int, int, int) {
    let c = pixel_color_s(scene, w, h, x, y, aa);
    (byte_of(c.r.raw as int), byte_of(c.g.raw as int), byte_of(c.b.raw as int))
}

/// Shade one sub-pixel sample.
fn sample(scene: &Scene, w: u32, h: u32, x: u32, y: u32, xo: Fx, yo: Fx) -> (c: Color)
    ensures
        c == sample_color_s(*scene, w, h, x, y, xo.raw as int, yo.raw as int),
{
    let m: u32 = if w <= h { w } else { h };
    let t = Fx::one().div(Fx::from_int(m as i64));
    let half = Fx { raw: HALF_RAW };
    let xt = Fx::from_int(x as i64).add(xo).sub(Fx::from_int(w as i64).mul(half)).mul(t);
    let yt = Fx::from_int(y as i64).add(yo).sub(Fx::from_int(h as i64).mul(half)).mul(t);
    let dir = Vec3::new(xt, yt, Fx::one()).normalize();
    let ray = Ray::new(Vec3::zero(), dir);
    cast(scene, &ray, 0)
}

/// Shade one whole pixel under the antialiasing configuration and
/// clamp it to display bytes.
fn render_pixel(scene: &Scene, w: u32, h: u32, x: u32, y: u32, aa: AaMode) -> (v: (u8, u8, u8))
    ensures
        (v.0 as int, v.1 as int, v.2 as int) == pixel_bytes_s(*scene, w, h, x, y, aa),
{
    proof {
        reveal(pixel_bytes_s);
    }
    let c = match aa {
        AaMode::Off => sample(scene, w, h, x, y, Fx { raw: 0 }, Fx { raw: 0 }),
        AaMode::TwoByTwo => {
            let o = Fx { raw: AA_OFFSET_RAW };
            let no = Fx { raw: -AA_OFFSET_RAW };
            let half = Fx { raw: HALF_RAW };
            let s1 = sample(scene, w, h, x, y, no, no).scale(half).scale(half);
            let s2 = sample(scene, w, h, x, y, o, no).scale(half).scale(half);
            let s3 = sample(scene, w, h, x, y, no, o).scale(half).scale(half);
            let s4 = sample(scene, w, h, x, y, o, o).scale(half).scale(half);
            s1.add(s2).add(s3).add(s4)
        },
    };
    c.to_bytes()
}

/// Render one image row into `3 * w` RGB bytes (rows are independent,
/// so a driver may evaluate them in parallel and concatenate).
pub fn render_row(scene: &Scene, w: u32, h: u32, y: u32, aa: AaMode) -> (row: Vec<u8>)
    requires
        w <= 16384,
    ensures
        row@.len() == 3 * w as int,
        forall|xx: u32| xx < w ==> {
            let pb = #[trigger] pixel_bytes_s(*scene, w, h, xx, y, aa);
            &&& row@[3 * xx as int] as int == pb.0
            &&& row@[3 * xx as int + 1] as int == pb.1
            &&& row@[3 * xx as int + 2] as int == pb.2
        },
{
    let mut row: Vec<u8> = Vec::new();
    let mut x: u32 = 0;
    while x < w
        invariant
            x <= w,
            w <= 16384,
            row@.len() == 3 * x as int,
            forall|xx: u32| xx < x ==> {
                let pb = #[trigger] pixel_bytes_s(*scene, w, h, xx, y, aa);
                &&& row@[3 * xx as int] as int == pb.0
                &&& row@[3 * xx as int + 1] as int == pb.1
                &&& row@[3 * xx as int + 2] as int == pb.2
            },
        decreases w - x,
    {
        let (b0, b1, b2) = render_pixel(scene, w, h, x, y, aa);
        row.push(b0);
        row.push(b1);
        row.push(b2);
        x = x + 1;
    }
    row
}

/// A pixel of an earlier row indexes strictly below the rows already
/// emitted.
proof fn lemma_pixel_index_earlier(w: int, xx: int, yy: int, y: int)
    by (nonlinear_arith)
    requires
        0 <= xx < w,
        0 <= yy < y,
    ensures
        0 <= 3 * (yy * w + xx),
        3 * (yy * w + xx) + 2 < 3 * w * y,
{
}

/// A pixel of the row being emitted indexes into that row's bytes.
proof fn lemma_pixel_index_current(w: int, xx: int, y: int)
    by (nonlinear_arith)
    requires
        0 <= xx < w,
        0 <= y,
    ensures
        3 * (y * w + xx) == 3 * w * y + 3 * xx,
{
}

/// One more emitted row grows the buffer by one row's worth of bytes.
proof fn lemma_buffer_len_step(w: int, y: int)
    by (nonlinear_arith)
    requires
        0 <= w,
        0 <= y,
    ensures
        3 * w * y + 3 * w == 3 * w * (y + 1),
{
}

/// Render the whole frame into `3 * w * h` RGB bytes, rows in order
/// from the top.
#[verifier::rlimit(100)]
pub fn render(scene: &Scene, w: u32, h: u32, aa: AaMode) -> (buf: Vec<u8>)
    requires
        w <= 16384,
        h <= 16384,
    ensures
        buf@.len() == 3 * w as int * h as int,
        forall|xx: u32, yy: u32| xx < w && yy < h ==> {
            let pb = #[trigger] pixel_bytes_s(*scene, w, h, xx, yy, aa);
            &&& buf@[3 * (yy as int * w as int + xx as int)] as int == pb.0
            &&& buf@[3 * (yy as int * w as int + xx as int) + 1] as int == pb.1
            &&& buf@[3 * (yy as int * w as int + xx as int) + 2] as int == pb.2
        },
{
    let mut buf: Vec<u8> = Vec::new();
    let mut y: u32 = 0;
    while y < h
        invariant
            y <= h,
            w <= 16384,
            h <= 16384,
            buf@.len() == 3 * w as int * y as int,
            forall|xx: u32, yy: u32| xx < w && yy < y ==> {
                let pb = #[trigger] pixel_bytes_s(*scene, w, h, xx, yy, aa);
                &&& buf@[3 * (yy as int * w as int + xx as int)] as int == pb.0
                &&& buf@[3 * (yy as int * w as int + xx as int) + 1] as int == pb.1
                &&& buf@[3 * (yy as int * w as int + xx as int) + 2] as int == pb.2
            },
        decreases h - y,
    {
        let mut row = render_row(scene, w, h, y, aa);
        let ghost old_buf = buf@;
        let ghost row_snap = row@;
        buf.append(&mut row);
        proof {
            assert forall|xx: u32, yy: u32| xx < w && yy <= y implies {
                let pb = #[trigger] pixel_bytes_s(*scene, w, h, xx, yy, aa);
                &&& buf@[3 * (yy as int * w as int + xx as int)] as int == pb.0
                &&& buf@[3 * (yy as int * w as int + xx as int) + 1] as int == pb.1
                &&& buf@[3 * (yy as int * w as int + xx as int) + 2] as int == pb.2
            } by {
                let base = 3 * (yy as int * w as int + xx as int);
                if yy < y {
                    lemma_pixel_index_earlier(w as int, xx as int, yy as int, y as int);
                    assert(buf@[base] == old_buf[base]);
                    assert(buf@[base + 1] == old_buf[base + 1]);
                    assert(buf@[base + 2] == old_buf[base + 2]);
                } else {
                    lemma_pixel_index_current(w as int, xx as int, y as int);
                    assert(base == old_buf.len() + 3 * xx as int);
                    assert(buf@[base] == row_snap[3 * xx as int]);
                    assert(buf@[base + 1] == row_snap[3 * xx as int + 1]);
                    assert(buf@[base + 2] == row_snap[3 * xx as int + 2]);
                }
            }
            lemma_buffer_len_step(w as int, y as int);
        }
        y = y + 1;
    }
    buf
}

} // verus!
