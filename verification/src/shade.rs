//! Recursive shading: ambient light, per-light diffuse terms with hard
//! shadows, and a depth-capped specular reflection bounce.

use vstd::prelude::*;
use crate::color::{Color, c_add, c_scale};
use crate::fx::{Fx, fx_mul};
use crate::geom::{Intersection, Ray};
use crate::scene::{PointLight, Scene, cast_ray_s};
use crate::texture::texture_color;
use crate::vec3::{fxv, v_add, v_dot, v_dist2, v_normalize, v_scale, v_sub};

verus! {

/// Raw value of the constant ambient coefficient (0.05).
pub const AMBIENT_RAW: i64 = 3277;

/// Raw value of the positional bias applied to shadow and reflection
/// rays (about 0.001), a numerical workaround that keeps a secondary
/// ray from immediately re-hitting the surface it starts on.
pub const SURFACE_BIAS_RAW: i64 = 66;

/// Maximum number of reflection bounces.
pub const MAX_DEPTH: u8 = 3;

/// The shadow ray for a light: from the hit position, biased a little
/// along the direction toward the light.
pub open spec fn shadow_ray_s(it: Intersection, light: PointLight) -> Ray {
    let lv = v_normalize(v_sub(light.pos, it.pos));
    Ray {
        origin: v_add(it.pos, v_scale(lv, Fx { raw: SURFACE_BIAS_RAW })),
        dir: lv,
    }
}

/// Whether the light is occluded at the hit: the shadow ray strikes
/// something whose distance, squared, is less than the light's squared
/// distance.
pub open spec fn occluded_s(scene: Scene, it: Intersection, light: PointLight) -> bool {
    match cast_ray_s(scene, shadow_ray_s(it, light)) {
        Option::Some(lit) => fx_mul(lit.dist.raw as int, lit.dist.raw as int)
            < v_dist2(light.pos, it.pos),
        Option::None => false,
    }
}

/// One light's diffuse contribution at a hit: nothing when occluded,
/// else the Lambertian term `dot(L, N) * surface * coefficient * light`
/// per channel. The dot product is deliberately not clamped to zero, as
/// the reference shading model specifies: a light behind the surface
/// subtracts.
pub open spec fn light_term_s(
    scene: Scene,
    it: Intersection,
    tcolor: Color,
    coef: Fx,
    light: PointLight,
) -> Color {
    if occluded_s(scene, it, light) {
        Color { r: fxv(0), g: fxv(0), b: fxv(0) }
    } else {
        let lv = v_normalize(v_sub(light.pos, it.pos));
        let ldot = v_dot(lv, it.norm);
        Color {
            r: fxv(fx_mul(fx_mul(fx_mul(ldot, tcolor.r.raw as int), coef.raw as int),
                light.color.r.raw as int)),
            g: fxv(fx_mul(fx_mul(fx_mul(ldot, tcolor.g.raw as int), coef.raw as int),
                light.color.g.raw as int)),
            b: fxv(fx_mul(fx_mul(fx_mul(ldot, tcolor.b.raw as int), coef.raw as int),
                light.color.b.raw as int)),
        }
    }
}

/// The summed diffuse contribution of the first `n` lights, in order.
pub open spec fn diffuse_prefix_s(
    scene: Scene,
    it: Intersection,
    tcolor: Color,
    coef: Fx,
    lights: Seq<PointLight>,
    n: int,
) -> Color
    decreases n,
{
    if n <= 0 {
        Color { r: fxv(0), g: fxv(0), b: fxv(0) }
    } else {
        c_add(
            diffuse_prefix_s(scene, it, tcolor, coef, lights, n - 1),
            light_term_s(scene, it, tcolor, coef, lights[n - 1]),
        )
    }
}

/// The reflection ray at a hit: the view vector mirrored about the
/// surface normal, normalized, biased away from the surface.
pub open spec fn reflection_ray_s(it: Intersection, ray: Ray) -> Ray {
    let v = v_sub(ray.origin, it.pos);
    let k = fx_mul(131072, v_dot(it.norm, v));
    let rv = v_normalize(v_sub(v_scale(it.norm, fxv(k)), v));
    Ray {
        origin: v_add(it.pos, v_scale(rv, Fx { raw: SURFACE_BIAS_RAW })),
        dir: rv,
    }
}

/// Remaining recursion budget at a depth; zero at and beyond the cap.
pub open spec fn shade_budget(depth: int) -> int {
    if depth < MAX_DEPTH as int {
        MAX_DEPTH as int - depth
    } else {
        0
    }
}

/// The color the shader returns for a ray at a recursion depth: black
/// on a miss; otherwise the ambient term plus every light's diffuse
/// contribution, plus — below the depth cap, on a reflective material —
/// the recursively shaded reflection scaled by the reflectivity.
pub open spec fn shade_s(scene: Scene, ray: Ray, depth: int) -> Color
    decreases shade_budget(depth),
{
    match cast_ray_s(scene, ray) {
        Option::None => Color { r: fxv(0), g: fxv(0), b: fxv(0) },
        Option::Some(it) => {
            let m = it.info.material;
            let tcolor = texture_color(m.texture, it.uv);
            let dif = diffuse_prefix_s(
                scene, it, tcolor, m.diffuse_coef, scene.lights@, scene.lights@.len() as int,
            );
            let dif2 = if depth < MAX_DEPTH as int && m.reflectivity.raw != 0 {
                c_add(
                    dif,
                    c_scale(
                        shade_s(scene, reflection_ray_s(it, ray), depth + 1),
                        m.reflectivity,
                    ),
                )
            } else {
                dif
            };
            c_add(c_scale(tcolor, Fx { raw: AMBIENT_RAW }), dif2)
        },
    }
}

/// One light's diffuse contribution: shadow test, then the Lambertian
/// term.
fn light_contribution(
    scene: &Scene,
    it: Intersection,
    tcolor: Color,
    coef: Fx,
    light: PointLight,
) -> (c: Color)
    ensures
        c == light_term_s(*scene, it, tcolor, coef, light),
{
    let lv = light.pos.sub(it.pos).normalize();
    let ldist2 = light.pos.dist2(it.pos);
    let lray = Ray::new(it.pos.add(lv.scale(Fx { raw: SURFACE_BIAS_RAW })), lv);
    let occ = match scene.cast_ray(&lray) {
        Some(lit) => lit.dist.mul(lit.dist).raw < ldist2.raw,
        None => false,
    };
    if occ {
        Color::black()
    } else {
        let ldot = lv.dot(it.norm);
        Color::new(
            ldot.mul(tcolor.r).mul(coef).mul(light.color.r),
            ldot.mul(tcolor.g).mul(coef).mul(light.color.g),
            ldot.mul(tcolor.b).mul(coef).mul(light.color.b),
        )
    }
}

/// The reflection ray at a hit.
fn reflect_ray(it: Intersection, ray: &Ray) -> (r: Ray)
    ensures
        r == reflection_ray_s(it, *ray),
{
    let v = ray.origin.sub(it.pos);
    let k = Fx { raw: 131072 }.mul(it.norm.dot(v));
    let rv = it.norm.scale(k).sub(v).normalize();
    Ray::new(it.pos.add(rv.scale(Fx { raw: SURFACE_BIAS_RAW })), rv)
}

/// Cast a ray into the scene and shade what it hits.
#[verifier::rlimit(100)]
pub fn cast(scene: &Scene, ray: &Ray, depth: u8) -> (c: Color)
    ensures
        c == shade_s(*scene, *ray, depth as int),
    decreases shade_budget(depth as int),
{
    match scene.cast_ray(ray) {
        None => Color::black(),
        Some(it) => {
            let m = it.info.material;
            let tcolor = m.texture.color(it.uv);
            let mut diffuse = Color::black();
            let lights = scene.lights();
            let mut li: usize = 0;
            while li < lights.len()
                invariant
                    li <= lights.len(),
                    lights@ == scene.lights@,
                    diffuse == diffuse_prefix_s(
                        *scene, it, tcolor, m.diffuse_coef, scene.lights@, li as int,
                    ),
                decreases lights.len() - li,
            {
                let term = light_contribution(scene, it, tcolor, m.diffuse_coef, lights[li]);
                diffuse = diffuse.add(term);
                li = li + 1;
            }
            if depth < MAX_DEPTH && !m.reflectivity.is_zero() {
                let nray = reflect_ray(it, ray);
                let refl = cast(scene, &nray, depth + 1);
                diffuse = diffuse.add(refl.scale(m.reflectivity));
            }
            tcolor.scale(Fx { raw: AMBIENT_RAW }).add(diffuse)
        },
    }
}

/// A ray that misses all geometry shades to exactly black, whatever
/// the recursion depth.
pub proof fn lemma_miss_shades_black(scene: Scene, ray: Ray, depth: int)
    requires
        cast_ray_s(scene, ray) is None,
    ensures
        shade_s(scene, ray, depth) == (Color { r: fxv(0), g: fxv(0), b: fxv(0) }),
{
}

/// A light fully occluded by geometry between it and the surface
/// contributes nothing to the diffuse sum.
pub proof fn lemma_occluded_light_contributes_nothing(
    scene: Scene,
    it: Intersection,
    tcolor: Color,
    coef: Fx,
    light: PointLight,
)
    requires
        occluded_s(scene, it, light),
    ensures
        light_term_s(scene, it, tcolor, coef, light)
            == (Color { r: fxv(0), g: fxv(0), b: fxv(0) }),
{
}

/// At and beyond the depth cap the shader evaluates no reflection
/// bounce: whatever the material's reflectivity, the result is the
/// ambient term plus the diffuse sum, the same at every such depth.
pub proof fn lemma_shade_depth_capped(scene: Scene, ray: Ray, d1: int, d2: int)
    requires
        d1 >= MAX_DEPTH as int,
        d2 >= MAX_DEPTH as int,
    ensures
        shade_s(scene, ray, d1) == shade_s(scene, ray, d2),
        shade_s(scene, ray, d1) == match cast_ray_s(scene, ray) {
            Option::None => Color { r: fxv(0), g: fxv(0), b: fxv(0) },
            Option::Some(it) => {
                let m = it.info.material;
                let tcolor = texture_color(m.texture, it.uv);
                c_add(
                    c_scale(tcolor, Fx { raw: AMBIENT_RAW }),
                    diffuse_prefix_s(
                        scene, it, tcolor, m.diffuse_coef, scene.lights@,
                        scene.lights@.len() as int,
                    ),
                )
            },
        },
{
}

} // verus!
