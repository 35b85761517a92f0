//! The scene: primitives, point lights, and the nearest-hit query.

use vstd::prelude::*;
use crate::color::Color;
use crate::geom::{
    Hit, Intersection, Object, Plane, Ray, Sphere, to_intersection_s,
};
use crate::vec3::Vec3;

verus! {

/// An idealized zero-size emitter: no falloff beyond shadow occlusion
/// and the Lambertian cosine term.
#[derive(Clone, Copy, PartialEq, Eq, Structural, Debug)]
pub struct PointLight {
    pub pos: Vec3,
    pub color: Color,
}

impl PointLight {
    /// A light from its position and color.
    pub fn new(pos: Vec3, color: Color) -> (l: PointLight)
        ensures
            l == (PointLight { pos, color }),
    {
        PointLight { pos, color }
    }
}

/// Why a primitive was rejected at scene construction.
#[derive(Clone, Copy, PartialEq, Eq, Structural, Debug)]
pub enum SceneError {
    /// A sphere's radius must be strictly positive.
    NonPositiveRadius,
    /// A plane's normal must not be the zero vector.
    ZeroNormal,
}

/// The nearer of two candidate hits; an earlier candidate wins ties.
pub open spec fn closer_hit(acc: Option<Hit>, h: Option<Hit>) -> Option<Hit> {
    match (acc, h) {
        (Option::None, x) => x,
        (Option::Some(a), Option::None) => Option::Some(a),
        (Option::Some(a), Option::Some(b)) => if a.dist2.raw <= b.dist2.raw {
            Option::Some(a)
        } else {
            Option::Some(b)
        },
    }
}

/// The nearest candidate hit among the first `n` primitives, scanned in
/// order.
pub open spec fn best_hit_prefix<T: Object>(objs: Seq<T>, ray: Ray, n: int) -> Option<Hit>
    decreases n,
{
    if n <= 0 {
        Option::None
    } else {
        closer_hit(best_hit_prefix(objs, ray, n - 1), objs[n - 1].hit_spec(ray))
    }
}

/// The nearest candidate hit among a collection of primitives.
pub open spec fn best_hit<T: Object>(objs: Seq<T>, ray: Ray) -> Option<Hit> {
    best_hit_prefix(objs, ray, objs.len() as int)
}

/// The nearest candidate is no candidate exactly when every primitive
/// misses, and otherwise is one of the reported candidates, at a square
/// distance no greater than any reported candidate's.
pub proof fn lemma_best_hit_minimal<T: Object>(objs: Seq<T>, ray: Ray, n: int)
    requires
        0 <= n <= objs.len(),
    ensures
        best_hit_prefix(objs, ray, n) is None <==> forall|i: int|
            0 <= i < n ==> (#[trigger] objs[i].hit_spec(ray)) is None,
        best_hit_prefix(objs, ray, n) matches Some(h) ==> exists|i: int|
            0 <= i < n && (#[trigger] objs[i].hit_spec(ray)) == Some(h),
        best_hit_prefix(objs, ray, n) matches Some(h) ==> forall|i: int|
            0 <= i < n ==> ((#[trigger] objs[i].hit_spec(ray)) matches Some(g)
                ==> h.dist2.raw <= g.dist2.raw),
    decreases n,
{
    if n > 0 {
        lemma_best_hit_minimal(objs, ray, n - 1);
    }
}

/// A linear scan over a collection of primitives for the nearest
/// candidate hit.
pub fn iter_objects<T: Object>(objs: &Vec<T>, ray: &Ray) -> (r: Option<Hit>)
    ensures
        r == best_hit(objs@, *ray),
{
    let mut best: Option<Hit> = None;
    let mut i: usize = 0;
    while i < objs.len()
        invariant
            i <= objs.len(),
            best == best_hit_prefix(objs@, *ray, i as int),
        decreases objs.len() - i,
    {
        let h = objs[i].hit_test(ray);
        best = match (best, h) {
            (None, x) => x,
            (Some(a), None) => Some(a),
            (Some(a), Some(b)) => if a.dist2.raw <= b.dist2.raw {
                Some(a)
            } else {
                Some(b)
            },
        };
        i = i + 1;
    }
    best
}

/// The scene: the primitive and light lists. Built once, then read-only
/// for the whole render.
pub struct Scene {
    pub lights: Vec<PointLight>,
    pub spheres: Vec<Sphere>,
    pub planes: Vec<Plane>,
}

/// The candidate the nearest-hit query selects: the nearest plane
/// candidate against the nearest sphere candidate, the plane preferred
/// on an exact tie (shading artifacts are tie-sensitive at grazing
/// intersections, so the policy is fixed here and must be preserved).
pub open spec fn selected_hit(s: Scene, ray: Ray) -> Option<Hit> {
    let csh = best_hit(s.spheres@, ray);
    let cph = best_hit(s.planes@, ray);
    match (cph, csh) {
        (Option::Some(a), Option::Some(b)) => if a.dist2.raw <= b.dist2.raw {
            Option::Some(a)
        } else {
            Option::Some(b)
        },
        (Option::None, b) => b,
        (a, Option::None) => a,
    }
}

/// What `Scene::cast_ray` returns: the selected candidate, resolved
/// into an intersection; `None` (a normal outcome, not an error) when
/// every primitive misses.
pub open spec fn cast_ray_s(s: Scene, ray: Ray) -> Option<Intersection> {
    match selected_hit(s, ray) {
        Option::None => Option::None,
        Option::Some(h) => Option::Some(to_intersection_s(h)),
    }
}

impl Scene {
    /// An empty scene.
    pub fn new() -> (s: Scene)
        ensures
            s.lights@ =~= Seq::<PointLight>::empty(),
            s.spheres@ =~= Seq::<Sphere>::empty(),
            s.planes@ =~= Seq::<Plane>::empty(),
    {
        Scene { spheres: Vec::new(), lights: Vec::new(), planes: Vec::new() }
    }

    /// Add a sphere. A non-positive radius is degenerate geometry and
    /// is rejected at construction.
    pub fn add_sphere(&mut self, obj: Sphere) -> (r: Result<(), SceneError>)
        ensures
            obj.radius.raw > 0 ==> r is Ok && final(self).spheres@ == old(self).spheres@.push(obj),
            obj.radius.raw <= 0 ==> r == Result::<(), SceneError>::Err(SceneError::NonPositiveRadius)
                && final(self).spheres@ == old(self).spheres@,
            final(self).planes@ == old(self).planes@,
            final(self).lights@ == old(self).lights@,
    {
        if obj.radius.raw <= 0 {
            return Err(SceneError::NonPositiveRadius);
        }
        self.spheres.push(obj);
        Ok(())
    }

    /// Add a plane. A zero-length normal is degenerate geometry and is
    /// rejected at construction.
    pub fn add_plane(&mut self, obj: Plane) -> (r: Result<(), SceneError>)
        ensures
            !(obj.normal.x.raw == 0 && obj.normal.y.raw == 0 && obj.normal.z.raw == 0)
                ==> r is Ok && final(self).planes@ == old(self).planes@.push(obj),
            obj.normal.x.raw == 0 && obj.normal.y.raw == 0 && obj.normal.z.raw == 0
                ==> r == Result::<(), SceneError>::Err(SceneError::ZeroNormal)
                    && final(self).planes@ == old(self).planes@,
            final(self).spheres@ == old(self).spheres@,
            final(self).lights@ == old(self).lights@,
    {
        if obj.normal.x.raw == 0 && obj.normal.y.raw == 0 && obj.normal.z.raw == 0 {
            return Err(SceneError::ZeroNormal);
        }
        self.planes.push(obj);
        Ok(())
    }

    /// Add a point light.
    pub fn add_light(&mut self, light: PointLight)
        ensures
            final(self).lights@ == old(self).lights@.push(light),
            final(self).spheres@ == old(self).spheres@,
            final(self).planes@ == old(self).planes@,
    {
        self.lights.push(light);
    }

    /// The scene's lights.
    pub fn lights(&self) -> (r: &Vec<PointLight>)
        ensures
            r@ == self.lights@,
    {
        &self.lights
    }

    /// The nearest intersection along the ray across all primitives, or
    /// `None` if no primitive is hit (used both for primary rays, as
    /// the background, and for shadow rays, as unoccluded light).
    pub fn cast_ray(&self, ray: &Ray) -> (r: Option<Intersection>)
        ensures
            r == cast_ray_s(*self, *ray),
    {
        let csh = iter_objects(&self.spheres, ray);
        let cph = iter_objects(&self.planes, ray);
        let it = match (cph, csh) {
            (Some(a), Some(b)) => if a.dist2.raw <= b.dist2.raw {
                Some(a)
            } else {
                Some(b)
            },
            (None, b) => b,
            (a, None) => a,
        };
        match it {
            None => None,
            Some(hit) => Some(hit.to_intersection()),
        }
    }
}

/// The nearest-hit query returns `None` exactly when every primitive
/// misses.
pub proof fn lemma_cast_ray_none_iff_all_miss(s: Scene, ray: Ray)
    ensures
        cast_ray_s(s, ray) is None <==> (forall|i: int|
            0 <= i < s.spheres@.len() ==> (#[trigger] s.spheres@[i].hit_spec(ray)) is None)
            && (forall|i: int|
            0 <= i < s.planes@.len() ==> (#[trigger] s.planes@[i].hit_spec(ray)) is None),
{
    lemma_best_hit_minimal(s.spheres@, ray, s.spheres@.len() as int);
    lemma_best_hit_minimal(s.planes@, ray, s.planes@.len() as int);
}

/// The nearest-hit query resolves a candidate that some primitive
/// reported, whose square distance is minimal among all reported
/// candidates.
pub proof fn lemma_cast_ray_nearest(s: Scene, ray: Ray, h: Hit)
    requires
        selected_hit(s, ray) == Some(h),
    ensures
        cast_ray_s(s, ray) == Some(to_intersection_s(h)),
        (exists|i: int|
            0 <= i < s.spheres@.len() && (#[trigger] s.spheres@[i].hit_spec(ray)) == Some(h))
            || (exists|i: int|
            0 <= i < s.planes@.len() && (#[trigger] s.planes@[i].hit_spec(ray)) == Some(h)),
        forall|i: int|
            0 <= i < s.spheres@.len() ==> ((#[trigger] s.spheres@[i].hit_spec(ray))
                matches Some(g) ==> h.dist2.raw <= g.dist2.raw),
        forall|i: int|
            0 <= i < s.planes@.len() ==> ((#[trigger] s.planes@[i].hit_spec(ray))
                matches Some(g) ==> h.dist2.raw <= g.dist2.raw),
{
    lemma_best_hit_minimal(s.spheres@, ray, s.spheres@.len() as int);
    lemma_best_hit_minimal(s.planes@, ray, s.planes@.len() as int);
}

/// A resolved intersection carries a non-negative distance: the square
/// root of the candidate's square distance.
pub proof fn lemma_cast_ray_distance_nonneg(s: Scene, ray: Ray)
    ensures
        cast_ray_s(s, ray) matches Some(it) ==> it.dist.raw >= 0,
{
    match selected_hit(s, ray) {
        Option::Some(h) => {
            crate::fx::lemma_fx_sqrt_in_range(h.dist2.raw as int);
        },
        Option::None => {},
    }
}

/// The tie-break policy: when the nearest plane candidate and the
/// nearest sphere candidate lie at exactly equal square distance, the
/// plane's candidate is selected.
pub proof fn lemma_tie_prefers_plane(s: Scene, ray: Ray, a: Hit, b: Hit)
    requires
        best_hit(s.planes@, ray) == Some(a),
        best_hit(s.spheres@, ray) == Some(b),
        a.dist2.raw == b.dist2.raw,
    ensures
        selected_hit(s, ray) == Some(a),
        cast_ray_s(s, ray) == Some(to_intersection_s(a)),
{
}

} // verus!
