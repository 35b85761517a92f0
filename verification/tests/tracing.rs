//! End-to-end tracing scenarios: intersection, tie-breaking, shadows,
//! the reflection depth cap, and whole-frame rendering.

use glimmer::color::Color;
use glimmer::fx::Fx;
use glimmer::geom::{Object, Plane, Ray, Sphere};
use glimmer::render::{AaMode, render, render_row};
use glimmer::scene::{PointLight, Scene, SceneError};
use glimmer::shade::cast;
use glimmer::texture::{Material, ObjInfo, Texture, solid_texture};
use glimmer::vec3::Vec3;

const ONE: i64 = 65536;

fn v(x: i64, y: i64, z: i64) -> Vec3 {
    Vec3::new(Fx::new(x), Fx::new(y), Fx::new(z))
}

fn vi(x: i64, y: i64, z: i64) -> Vec3 {
    Vec3::new(Fx::from_int(x), Fx::from_int(y), Fx::from_int(z))
}

fn mat(color: Color, diffuse_raw: i64, refl_raw: i64) -> ObjInfo {
    ObjInfo::new(Material::new(
        solid_texture(color),
        Fx::new(diffuse_raw),
        Fx::new(refl_raw),
    ))
}

fn white() -> Color {
    Color::new(Fx::one(), Fx::one(), Fx::one())
}

#[test]
fn sphere_at_perpendicular_foot_hits_at_projected_distance_minus_radius() {
    // ray +z from the origin; sphere center (0,0,5), radius 1: the
    // perpendicular foot is the center itself, so the hit distance is
    // exactly 5 - 1 = 4.
    let s = Sphere::new(vi(0, 0, 5), Fx::one(), mat(white(), ONE, 0));
    let ray = Ray::new(vi(0, 0, 0), v(0, 0, ONE));
    let hit = s.hit_test(&ray).expect("the sphere lies ahead of the ray");
    assert_eq!(hit.dist2.raw, 16 * ONE);
    assert_eq!(hit.to_intersection().dist.raw, 4 * ONE);
    assert_eq!(hit.pos, vi(0, 0, 4));
}

#[test]
fn sphere_behind_ray_is_missed() {
    let s = Sphere::new(vi(0, 0, 5), Fx::one(), mat(white(), ONE, 0));
    let away = Ray::new(vi(0, 0, 0), v(0, 0, -ONE));
    assert!(s.hit_test(&away).is_none());
}

#[test]
fn parallel_ray_misses_plane_from_any_origin() {
    let p = Plane::new(vi(0, 0, 4), v(0, 0, -ONE), mat(white(), ONE, 0));
    for origin in [vi(0, 0, 0), vi(7, -3, 2), vi(0, 0, 4)] {
        let ray = Ray::new(origin, v(ONE, 0, 0));
        assert!(p.hit_test(&ray).is_none());
        let ray2 = Ray::new(origin, v(0, ONE, 0));
        assert!(p.hit_test(&ray2).is_none());
    }
}

#[test]
fn equal_distance_tie_selects_the_plane() {
    // both the plane z = 4 and the sphere at (0,0,5) with radius 1 are
    // hit at distance exactly 4 along the +z ray
    let plane_info = mat(white(), 16384, 0);
    let sphere_info = mat(white(), 49152, 0);
    let mut scene = Scene::new();
    scene
        .add_plane(Plane::new(vi(0, 0, 4), v(0, 0, -ONE), plane_info))
        .unwrap();
    scene
        .add_sphere(Sphere::new(vi(0, 0, 5), Fx::one(), sphere_info))
        .unwrap();
    let it = scene
        .cast_ray(&Ray::new(vi(0, 0, 0), v(0, 0, ONE)))
        .expect("both primitives are hit");
    assert_eq!(it.dist.raw, 4 * ONE);
    assert_eq!(it.info, plane_info);
}

fn shadow_scene(with_occluder: bool) -> Scene {
    // a white fully-diffuse plane z = 3 facing the camera, lit by one
    // white light at (0,-3,0); optionally a sphere halfway between the
    // lit point (0,0,3) and the light
    let mut scene = Scene::new();
    scene
        .add_plane(Plane::new(vi(0, 0, 3), v(0, 0, -ONE), mat(white(), ONE, 0)))
        .unwrap();
    if with_occluder {
        scene
            .add_sphere(Sphere::new(
                v(0, -98304, 98304),
                Fx::new(32768),
                mat(white(), ONE, 0),
            ))
            .unwrap();
    }
    scene.add_light(PointLight::new(vi(0, -3, 0), white()));
    scene
}

#[test]
fn occluded_light_leaves_only_the_ambient_term() {
    let scene = shadow_scene(true);
    let c = cast(&scene, &Ray::new(vi(0, 0, 0), v(0, 0, ONE)), 0);
    // ambient = white * 0.05 exactly; the occluded light adds nothing
    assert_eq!(c, Color::new(Fx::new(3277), Fx::new(3277), Fx::new(3277)));
}

#[test]
fn removing_the_occluder_restores_a_positive_contribution() {
    let scene = shadow_scene(false);
    let c = cast(&scene, &Ray::new(vi(0, 0, 0), v(0, 0, ONE)), 0);
    assert_eq!(c, Color::new(Fx::new(49618), Fx::new(49618), Fx::new(49618)));
    assert!(c.r.raw > 3277);
}

#[test]
fn reflection_recursion_stops_after_three_bounces() {
    // two facing perfect mirrors with no lights: each shade invocation
    // contributes exactly the ambient term 0.05, and the recursion is
    // capped after three bounces, so the primary ray sums exactly four
    // ambient contributions: 4 * 3277 = 13108.
    let mirror = mat(white(), 0, ONE);
    let mut scene = Scene::new();
    scene
        .add_plane(Plane::new(vi(0, 0, 2), v(0, 0, -ONE), mirror))
        .unwrap();
    scene
        .add_plane(Plane::new(vi(0, 0, -2), v(0, 0, ONE), mirror))
        .unwrap();
    let c = cast(&scene, &Ray::new(vi(0, 0, 0), v(0, 0, ONE)), 0);
    assert_eq!(c, Color::new(Fx::new(13108), Fx::new(13108), Fx::new(13108)));
}

fn red_sphere_scene() -> Scene {
    // one sphere at (0,0,3), radius 1, solid red, diffuse 0.8, and one
    // white light at (-2,-2,-1)
    let red = Color::new(Fx::new(45875), Fx::zero(), Fx::zero());
    let mut scene = Scene::new();
    scene
        .add_sphere(Sphere::new(vi(0, 0, 3), Fx::one(), mat(red, 52429, 0)))
        .unwrap();
    scene.add_light(PointLight::new(vi(-2, -2, -1), white()));
    scene
}

#[test]
fn front_pole_pixel_is_red_and_miss_pixel_is_black() {
    let scene = red_sphere_scene();
    // the ray through the sphere's front pole
    let c = cast(&scene, &Ray::new(vi(0, 0, 0), v(0, 0, ONE)), 0);
    assert_eq!(c.r.raw, 28995);
    assert!(c.r.raw > 0);
    assert_eq!(c.g.raw, 0);
    assert_eq!(c.b.raw, 0);
    // a ray past all geometry returns exactly black
    let miss = cast(&scene, &Ray::new(vi(0, 0, 0), v(0, ONE, 0)), 0);
    assert_eq!(miss, Color::black());
}

#[test]
fn rendered_frame_has_red_pole_pixel_and_black_miss_pixel() {
    let scene = red_sphere_scene();
    // in a 2x2 frame, pixel (1,1) looks straight down +z at the pole
    let buf = render(&scene, 2, 2, AaMode::Off);
    assert_eq!(buf.len(), 12);
    let at = |x: usize, y: usize| (buf[3 * (y * 2 + x)], buf[3 * (y * 2 + x) + 1], buf[3 * (y * 2 + x) + 2]);
    assert_eq!(at(1, 1), (112, 0, 0));
    assert_eq!(at(0, 0), (0, 0, 0));
}

#[test]
fn render_row_matches_the_frame() {
    let scene = red_sphere_scene();
    let buf = render(&scene, 2, 2, AaMode::TwoByTwo);
    let row0 = render_row(&scene, 2, 2, 0, AaMode::TwoByTwo);
    let row1 = render_row(&scene, 2, 2, 1, AaMode::TwoByTwo);
    assert_eq!(buf.len(), 12);
    assert_eq!(&buf[0..6], &row0[..]);
    assert_eq!(&buf[6..12], &row1[..]);
}

#[test]
fn degenerate_sphere_is_rejected() {
    let mut scene = Scene::new();
    let r = scene.add_sphere(Sphere::new(vi(0, 0, 3), Fx::zero(), mat(white(), ONE, 0)));
    assert_eq!(r, Err(SceneError::NonPositiveRadius));
    let r2 = scene.add_sphere(Sphere::new(vi(0, 0, 3), Fx::new(-ONE), mat(white(), ONE, 0)));
    assert_eq!(r2, Err(SceneError::NonPositiveRadius));
    assert!(scene.cast_ray(&Ray::new(vi(0, 0, 0), v(0, 0, ONE))).is_none());
}

#[test]
fn degenerate_plane_is_rejected() {
    let mut scene = Scene::new();
    let r = scene.add_plane(Plane::new(vi(0, 0, 3), v(0, 0, 0), mat(white(), ONE, 0)));
    assert_eq!(r, Err(SceneError::ZeroNormal));
    assert!(scene.cast_ray(&Ray::new(vi(0, 0, 0), v(0, 0, ONE))).is_none());
}

#[test]
fn empty_scene_shades_to_black_everywhere() {
    let scene = Scene::new();
    let c = cast(&scene, &Ray::new(vi(0, 0, 0), v(0, 0, ONE)), 0);
    assert_eq!(c, Color::black());
    let buf = render(&scene, 3, 2, AaMode::TwoByTwo);
    assert_eq!(buf.len(), 18);
    assert!(buf.iter().all(|&b| b == 0));
}
