//! The surface parameterizations: spherical uv from the normal, planar
//! uv from a tangent basis with its fallback axis.

use glimmer::fx::Fx;
use glimmer::geom::{plane_uv, sphere_uv};
use glimmer::vec3::Vec3;

const ONE: i64 = 65536;

fn v(x: i64, y: i64, z: i64) -> Vec3 {
    Vec3::new(Fx::new(x), Fx::new(y), Fx::new(z))
}

#[test]
fn sphere_uv_at_the_front_pole() {
    // normal (0,0,-1): the azimuth is a quarter turn below the +x axis,
    // the elevation is zero, so (u, v) = (1/4, 1/2) exactly
    let p = sphere_uv(v(0, 0, 2 * ONE), v(0, 0, -ONE));
    assert_eq!(p.u.raw, 16384);
    assert_eq!(p.v.raw, 32768);
}

#[test]
fn sphere_uv_on_the_x_axis() {
    // normal (1,0,0): zero azimuth and zero elevation map to the center
    let p = sphere_uv(v(ONE, 0, 0), v(ONE, 0, 0));
    assert_eq!(p.u.raw, 32768);
    assert_eq!(p.v.raw, 32768);
}

#[test]
fn plane_uv_projects_onto_the_tangent_basis() {
    // normal (0,-1,0): tangents are (0,0,1) and (-1,0,0), tiling 1/8
    let p = plane_uv(v(2 * ONE, 0, 3 * ONE), v(0, -ONE, 0));
    assert_eq!(p.u.raw, 24576); // 3/8
    assert_eq!(p.v.raw, -16384); // -2/8
}

#[test]
fn plane_uv_falls_back_when_normal_is_parallel_to_the_reference_axis() {
    // normal (1,0,0) is parallel to the first reference axis; the basis
    // from the fallback axis is (0,0,1) and (0,-1,0), not degenerate
    let p = plane_uv(v(0, 2 * ONE, 5 * ONE), v(ONE, 0, 0));
    assert_eq!(p.u.raw, 40960); // 5/8
    assert_eq!(p.v.raw, -16384); // -2/8
}
