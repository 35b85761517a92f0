//! Rays, primitives, and the ray/primitive intersection algorithms.

use vstd::prelude::*;
use crate::fx::{
    Fx, SCALE, fx_add, fx_sub, fx_mul, fx_div, fx_sqrt, atan2_turns_s, atan2_turns,
};
use crate::vec3::{
    Vec3, fxv, v_add, v_sub, v_scale, v_div_s, v_dot, v_cross, v_dist2,
};
use crate::texture::{P2, ObjInfo};

verus! {

/// A ray: origin point plus direction vector. Callers are expected to
/// pass a direction of (approximately) unit length; `Vec3::normalize`
/// produces one.
#[derive(Clone, Copy, PartialEq, Eq, Structural, Debug)]
pub struct Ray {
    pub origin: Vec3,
    pub dir: Vec3,
}

impl Ray {
    /// A ray from its origin and direction.
    pub fn new(origin: Vec3, dir: Vec3) -> (r: Ray)
        ensures
            r == (Ray { origin, dir }),
    {
        Ray { origin, dir }
    }
}

/// Which intersection algorithm produced a hit; selects the uv mapping
/// that `to_intersection` applies (a closed operation code in place of
/// open-ended dispatch).
#[derive(Clone, Copy, PartialEq, Eq, Structural, Debug)]
pub enum ShapeKind {
    Sphere,
    Plane,
}

/// A candidate intersection, produced per query with its square
/// distance; the square root and the uv mapping are deferred until the
/// nearest candidate is known.
#[derive(Clone, Copy, PartialEq, Eq, Structural, Debug)]
pub struct Hit {
    pub info: ObjInfo,
    pub pos: Vec3,
    pub dist2: Fx,
    pub norm: Vec3,
    pub shape: ShapeKind,
}

/// The nearest intersection of a cast, consumed immediately by the
/// shader.
#[derive(Clone, Copy, PartialEq, Eq, Structural, Debug)]
pub struct Intersection {
    pub info: ObjInfo,
    pub pos: Vec3,
    pub dist: Fx,
    pub norm: Vec3,
    pub uv: P2,
}

/// Spherical uv mapping of a unit surface normal:
/// `u = 1/2 + atan2(n.z, n.x)` and `v = 1/2 - 2 * atan2(n.y, sqrt(1 - n.y^2))`,
/// with the arctangents measured in turns.
pub open spec fn sphere_uv_s(norm: Vec3) -> P2 {
    let ny = norm.y.raw as int;
    let u = fx_add(32768, atan2_turns_s(norm.z.raw as int, norm.x.raw as int));
    let w = fx_sqrt(fx_sub(SCALE as int, fx_mul(ny, ny)));
    let v = fx_sub(32768, fx_mul(atan2_turns_s(ny, w), 131072));
    P2 { u: fxv(u), v: fxv(v) }
}

/// Spherical uv mapping (position is unused: the normal determines it).
pub fn sphere_uv(_pos: Vec3, norm: Vec3) -> (r: P2)
    ensures
        r == sphere_uv_s(norm),
{
    let u = Fx { raw: 32768 }.add(atan2_turns(norm.z, norm.x));
    let w = Fx { raw: SCALE }.sub(norm.y.mul(norm.y)).sqrt();
    let v = Fx { raw: 32768 }.sub(atan2_turns(norm.y, w).mul(Fx { raw: 131072 }));
    P2 { u, v }
}

/// Tangent basis of a plane normal: the cross product with a reference
/// axis, falling back to a second axis when the normal is parallel to
/// the first (which would give a degenerate, zero-length tangent).
pub open spec fn plane_tangent_s(norm: Vec3) -> Vec3 {
    let v1 = v_cross(norm, Vec3 { x: fxv(SCALE as int), y: fxv(0), z: fxv(0) });
    if v1.x.raw == 0 && v1.y.raw == 0 && v1.z.raw == 0 {
        v_cross(norm, Vec3 { x: fxv(0), y: fxv(SCALE as int), z: fxv(0) })
    } else {
        v1
    }
}

/// Planar uv mapping: the hit position projected onto a tangent basis
/// of the normal, scaled by the 1/8 tiling factor.
pub open spec fn plane_uv_s(pos: Vec3, norm: Vec3) -> P2 {
    let v1 = plane_tangent_s(norm);
    let v2 = v_cross(norm, v1);
    let u = fx_mul(v_dot(v1, pos), 8192);
    let v = fx_mul(v_dot(v2, pos), 8192);
    P2 { u: fxv(u), v: fxv(v) }
}

/// Planar uv mapping.
pub fn plane_uv(pos: Vec3, norm: Vec3) -> (r: P2)
    ensures
        r == plane_uv_s(pos, norm),
{
    let axis = Vec3 { x: Fx { raw: SCALE }, y: Fx { raw: 0 }, z: Fx { raw: 0 } };
    let c = norm.cross(axis);
    let v1 = if c.x.raw == 0 && c.y.raw == 0 && c.z.raw == 0 {
        norm.cross(Vec3 { x: Fx { raw: 0 }, y: Fx { raw: SCALE }, z: Fx { raw: 0 } })
    } else {
        c
    };
    let v2 = norm.cross(v1);
    let u = v1.dot(pos).mul(Fx { raw: 8192 });
    let v = v2.dot(pos).mul(Fx { raw: 8192 });
    P2 { u, v }
}

/// The uv coordinate of a hit, by the shape's mapping.
pub open spec fn hit_uv_s(h: Hit) -> P2 {
    match h.shape {
        ShapeKind::Sphere => sphere_uv_s(h.norm),
        ShapeKind::Plane => plane_uv_s(h.pos, h.norm),
    }
}

/// A candidate hit resolved into an intersection: the true distance is
/// the square root of the stored square distance, and the shape's uv
/// mapping is applied.
pub open spec fn to_intersection_s(h: Hit) -> Intersection {
    Intersection {
        info: h.info,
        pos: h.pos,
        dist: fxv(fx_sqrt(h.dist2.raw as int)),
        norm: h.norm,
        uv: hit_uv_s(h),
    }
}

impl Hit {
    /// Resolve the deferred work: distance and uv mapping.
    pub fn to_intersection(self) -> (r: Intersection)
        ensures
            r == to_intersection_s(self),
    {
        let uv = match self.shape {
            ShapeKind::Sphere => sphere_uv(self.pos, self.norm),
            ShapeKind::Plane => plane_uv(self.pos, self.norm),
        };
        Intersection {
            info: self.info,
            pos: self.pos,
            dist: self.dist2.sqrt(),
            norm: self.norm,
            uv,
        }
    }
}

/// A sphere primitive.
#[derive(Clone, Copy, PartialEq, Eq, Structural, Debug)]
pub struct Sphere {
    pub pos: Vec3,
    pub radius: Fx,
    pub info: ObjInfo,
}

impl Sphere {
    /// A sphere from its center, radius and shading data.
    pub fn new(pos: Vec3, radius: Fx, info: ObjInfo) -> (s: Sphere)
        ensures
            s == (Sphere { pos, radius, info }),
    {
        Sphere { pos, radius, info }
    }
}

/// A plane primitive, given by a point on it and its normal.
#[derive(Clone, Copy, PartialEq, Eq, Structural, Debug)]
pub struct Plane {
    pub center: Vec3,
    pub normal: Vec3,
    pub info: ObjInfo,
}

impl Plane {
    /// A plane from a point on it, its normal and shading data.
    pub fn new(center: Vec3, normal: Vec3, info: ObjInfo) -> (p: Plane)
        ensures
            p == (Plane { center, normal, info }),
    {
        Plane { center, normal, info }
    }
}

/// The sphere intersection algorithm. With ray origin `O`, unit
/// direction `D`, center `C` and radius `r`: `p = O - C`; a positive
/// projection `dot(p, D)` means the sphere lies behind the ray, no hit;
/// a closest-approach vector `a = p - dot(p, D) * D` longer than the
/// radius means a miss; otherwise the hit point is offset from the
/// closest approach by `h = sqrt(r^2 - dot(a, a))` against the ray, the
/// normal is the offset scaled by `1/r`, and the stored square distance
/// is the square distance from the origin to the hit position.
pub open spec fn sphere_hit_s(s: Sphere, ray: Ray) -> Option<Hit> {
    let p = v_sub(ray.origin, s.pos);
    let p_d = v_dot(p, ray.dir);
    if p_d > 0 {
        None
    } else {
        let r2 = fx_mul(s.radius.raw as int, s.radius.raw as int);
        let a = v_sub(p, v_scale(ray.dir, fxv(p_d)));
        let a2 = v_dot(a, a);
        if a2 > r2 {
            None
        } else {
            let h = fx_sqrt(fx_sub(r2, a2));
            let i = v_sub(a, v_scale(ray.dir, fxv(h)));
            let pos = v_add(s.pos, i);
            Some(Hit {
                norm: v_div_s(i, s.radius),
                info: s.info,
                pos: pos,
                dist2: fxv(v_dist2(pos, ray.origin)),
                shape: ShapeKind::Sphere,
            })
        }
    }
}

/// The plane intersection algorithm. With `denom = dot(D, N)`: a zero
/// denominator means the ray is parallel to the plane (lying in the
/// plane counts as parallel), no hit; a negative parameter
/// `t = dot(Pp - O, N) / denom` puts the intersection behind the ray
/// origin, no hit; otherwise the hit is at `O + D * t` with the plane's
/// own normal, and the stored square distance is `t^2`.
pub open spec fn plane_hit_s(p: Plane, ray: Ray) -> Option<Hit> {
    let denom = v_dot(ray.dir, p.normal);
    if denom != 0 {
        let d = fx_div(v_dot(v_sub(p.center, ray.origin), p.normal), denom);
        if d >= 0 {
            Some(Hit {
                norm: p.normal,
                pos: v_add(ray.origin, v_scale(ray.dir, fxv(d))),
                dist2: fxv(fx_mul(d, d)),
                info: p.info,
                shape: ShapeKind::Plane,
            })
        } else {
            None
        }
    } else {
        None
    }
}

/// The capability every primitive offers the scene: report a candidate
/// hit against a ray, and hand out the shading data.
pub trait Object: Sized {
    /// The candidate hit this primitive reports for a ray.
    spec fn hit_spec(&self, ray: Ray) -> Option<Hit>;

    /// The primitive's shading data.
    spec fn info_spec(&self) -> ObjInfo;

    /// Test the ray against this primitive.
    fn hit_test(&self, ray: &Ray) -> (r: Option<Hit>)
        ensures
            r == self.hit_spec(*ray),
    ;

    /// The primitive's shading data.
    fn info(&self) -> (r: ObjInfo)
        ensures
            r == self.info_spec(),
    ;
}

impl Object for Sphere {
    open spec fn hit_spec(&self, ray: Ray) -> Option<Hit> {
        sphere_hit_s(*self, ray)
    }

    open spec fn info_spec(&self) -> ObjInfo {
        self.info
    }

    fn hit_test(&self, ray: &Ray) -> (r: Option<Hit>) {
        let p = ray.origin.sub(self.pos);
        let p_d = p.dot(ray.dir);
        if p_d.raw > 0 {
            return None;
        }
        let r_squared = self.radius.mul(self.radius);
        let a = p.sub(ray.dir.scale(p_d));
        let a_squared = a.dot(a);
        if a_squared.raw > r_squared.raw {
            return None;
        }
        let h = r_squared.sub(a_squared).sqrt();
        let i = a.sub(ray.dir.scale(h));
        let intersection = self.pos.add(i);
        let normal = i.div_s(self.radius);
        Some(Hit {
            norm: normal,
            info: self.info,
            pos: intersection,
            dist2: intersection.dist2(ray.origin),
            shape: ShapeKind::Sphere,
        })
    }

    fn info(&self) -> (r: ObjInfo) {
        self.info
    }
}

impl Object for Plane {
    open spec fn hit_spec(&self, ray: Ray) -> Option<Hit> {
        plane_hit_s(*self, ray)
    }

    open spec fn info_spec(&self) -> ObjInfo {
        self.info
    }

    fn hit_test(&self, ray: &Ray) -> (r: Option<Hit>) {
        let denom = ray.dir.dot(self.normal);
        if denom.raw != 0 {
            let d = self.center.sub(ray.origin).dot(self.normal).div(denom);
            if d.raw >= 0 {
                let pos = ray.origin.add(ray.dir.scale(d));
                return Some(Hit {
                    norm: self.normal,
                    pos,
                    dist2: d.mul(d),
                    info: self.info,
                    shape: ShapeKind::Plane,
                });
            }
        }
        None
    }

    fn info(&self) -> (r: ObjInfo) {
        self.info
    }
}

/// A borrowed reference to a primitive, dispatched over the closed set
/// of shape kinds.
pub enum ObjRef<'a> {
    Sphere(&'a Sphere),
}

impl<'a> Object for ObjRef<'a> {
    open spec fn hit_spec(&self, ray: Ray) -> Option<Hit> {
        match *self {
            ObjRef::Sphere(s) => sphere_hit_s(*s, ray),
        }
    }

    open spec fn info_spec(&self) -> ObjInfo {
        match *self {
            ObjRef::Sphere(s) => s.info,
        }
    }

    fn hit_test(&self, ray: &Ray) -> (r: Option<Hit>) {
        match *self {
            ObjRef::Sphere(s) => s.hit_test(ray),
        }
    }

    fn info(&self) -> (r: ObjInfo) {
        match *self {
            ObjRef::Sphere(s) => s.info(),
        }
    }
}

/// A ray whose origin projects ahead of a sphere's center along the ray
/// (the sphere lies behind, or the ray diverges from it) reports no hit.
pub proof fn lemma_sphere_behind_misses(s: Sphere, ray: Ray)
    requires
        v_dot(v_sub(ray.origin, s.pos), ray.dir) > 0,
    ensures
        sphere_hit_s(s, ray) is None,
{
}

/// A ray exactly parallel to a plane reports no hit, wherever its
/// origin lies.
pub proof fn lemma_plane_parallel_misses(p: Plane, ray: Ray)
    requires
        v_dot(ray.dir, p.normal) == 0,
    ensures
        plane_hit_s(p, ray) is None,
{
}

} // verus!
