use vstd::prelude::*;

use crate::fixed::{fx, fx_abs, fx_add, fx_div, fx_mul, fx_sqrt, fx_sub, Fixed, ONE_RAW};
use crate::matrix::{invtf_ray, m_mul_point};
use crate::scene::{IntersectData, Scene, ShapeType, Sphere, Triangle};
use crate::vector::{p_add_v, p_sub_p, v_cross, v_dot, v_len, v_norm, v_scale, Point3, Ray, Vector3};

verus! {

/// Tolerances of the triangle test are multiples of one millionth.
pub const MILLION: i128 = 1_000_000;

/// Plane hits closer than 1e-7 along the ray are discarded.
pub const NEAR_SCALE: i128 = 10_000_000;

/// The distance that stands for "nothing hit": 10^6, in raw units.
pub const FAR_RAW: i64 = 1_048_576_000_000;

pub open spec fn two() -> Fixed {
    fx(2 * ONE_RAW)
}

/// The unnormalized face normal, from the two edges at the first vertex.
pub open spec fn tri_normal(t: Triangle) -> Vector3 {
    v_cross(p_sub_p(t.v1, t.v0), p_sub_p(t.v2, t.v0))
}

/// The barycentric coordinates of `p` with respect to `t`, from sub-triangle normals.
/// The third is one minus the other two.
pub open spec fn barycentric(t: Triangle, p: Point3) -> (Fixed, Fixed, Fixed) {
    let n = tri_normal(t);
    let na = v_cross(p_sub_p(t.v2, t.v1), p_sub_p(p, t.v1));
    let nb = v_cross(p_sub_p(t.v0, t.v2), p_sub_p(p, t.v2));
    let nn = v_dot(n, n);
    let alpha = fx_div(v_dot(n, na), nn);
    let beta = fx_div(v_dot(n, nb), nn);
    (alpha, beta, fx_sub(fx_sub(fx(ONE_RAW as int), alpha), beta))
}

/// A barycentric coordinate lies in `[0, 1]` up to a tolerance of one millionth below zero.
pub open spec fn in_unit_range(c: Fixed) -> bool {
    c.raw <= ONE_RAW && c.raw * MILLION > -ONE_RAW
}

pub open spec fn inside_triangle(t: Triangle, p: Point3) -> bool {
    let (a, b, g) = barycentric(t, p);
    in_unit_range(a) && in_unit_range(b) && in_unit_range(g)
}

/// Where an object-space ray meets the plane of `t`: none when the ray is within
/// one millionth of parallel or the hit lies less than 1e-7 along the ray.
pub open spec fn plane_point(t: Triangle, rt: Ray) -> Option<Point3> {
    let n1 = v_norm(tri_normal(t));
    let divisor = v_dot(rt.direction, n1);
    if fx_abs(divisor).raw * MILLION < ONE_RAW {
        None
    } else {
        let s = fx_div(v_dot(p_sub_p(t.v0, rt.position), n1), divisor);
        if s.raw * NEAR_SCALE < ONE_RAW {
            None
        } else {
            Some(p_add_v(rt.position, v_scale(rt.direction, s)))
        }
    }
}

pub open spec fn triangle_hit(t: Triangle, ray: Ray) -> Option<IntersectData> {
    match plane_point(t, invtf_ray(t.transform, ray)) {
        Some(p) => if inside_triangle(t, p) {
            Some(
                IntersectData {
                    index: 0,
                    coords: m_mul_point(t.transform, p),
                    shape: ShapeType::Triangle(t),
                },
            )
        } else {
            None
        },
        None => None,
    }
}

/// The roots `(t1, t2)` of `a t^2 + b t + c` for an object-space ray, or none if
/// the discriminant is negative.
pub open spec fn sphere_roots(s: Sphere, rt: Ray) -> Option<(Fixed, Fixed)> {
    let cp = p_sub_p(rt.position, s.center);
    let a = v_dot(rt.direction, rt.direction);
    let b = fx_mul(v_dot(rt.direction, cp), two());
    let c = fx_sub(v_dot(cp, cp), fx_mul(s.radius, s.radius));
    let disc = fx_sub(fx_mul(b, b), fx_mul(fx_mul(fx(4 * ONE_RAW), a), c));
    if disc.raw < 0 {
        None
    } else {
        let sq = fx_sqrt(disc);
        let den = fx_mul(a, two());
        let nb = fx_sub(fx(0), b);
        Some((fx_div(fx_sub(nb, sq), den), fx_div(fx_add(nb, sq), den)))
    }
}

/// The parameter of the closest hit in front of the origin: `t1` unless it is
/// negative or beyond `t2`.
pub open spec fn pick_root(t1: Fixed, t2: Fixed) -> Fixed {
    if t1.raw < 0 || t2.raw < t1.raw {
        t2
    } else {
        t1
    }
}

pub open spec fn sphere_hit(s: Sphere, ray: Ray) -> Option<IntersectData> {
    let rt = invtf_ray(s.transform, ray);
    match sphere_roots(s, rt) {
        Some((t1, t2)) => if t2.raw < 0 {
            None
        } else {
            Some(
                IntersectData {
                    index: 0,
                    coords: m_mul_point(
                        s.transform,
                        p_add_v(rt.position, v_scale(rt.direction, pick_root(t1, t2))),
                    ),
                    shape: ShapeType::Sphere(s),
                },
            )
        },
        None => None,
    }
}

/// What a primitive can do: meet a world-space ray.
pub trait Intersectable {
    spec fn hit_spec(&self, ray: Ray) -> Option<IntersectData>;

    fn intersect(&self, ray: &Ray) -> (r: Option<IntersectData>)
        ensures
            r == self.hit_spec(*ray),
    ;
}

impl Intersectable for Triangle {
    open spec fn hit_spec(&self, ray: Ray) -> Option<IntersectData> {
        triangle_hit(*self, ray)
    }

    fn intersect(&self, ray: &Ray) -> (r: Option<IntersectData>) {
        let rt = self.transform.mat_invtf_ray(ray);
        let n = self.v1.sub(&self.v0).cross(&self.v2.sub(&self.v0));
        let n1 = n.norm();
        let divisor = rt.direction.dot(&n1);
        if (divisor.abs().raw as i128) * MILLION < ONE_RAW as i128 {
            return None;
        }
        let s = self.v0.sub(&rt.position).dot(&n1).div(divisor);
        if (s.raw as i128) * NEAR_SCALE < ONE_RAW as i128 {
            return None;
        }
        let p = rt.position.add_vec(&rt.direction.scale(s));
        let (alpha, beta, gamma) = self.barycentric(&p);
        if alpha.raw <= ONE_RAW && beta.raw <= ONE_RAW && gamma.raw <= ONE_RAW
            && (alpha.raw as i128) * MILLION > -(ONE_RAW as i128)
            && (beta.raw as i128) * MILLION > -(ONE_RAW as i128)
            && (gamma.raw as i128) * MILLION > -(ONE_RAW as i128) {
            Some(
                IntersectData {
                    index: 0,
                    coords: self.transform.mul_point(&p),
                    shape: ShapeType::Triangle(*self),
                },
            )
        } else {
            None
        }
    }
}

impl Triangle {
    /// The barycentric coordinates of an object-space point.
    pub fn barycentric(&self, p: &Point3) -> (r: (Fixed, Fixed, Fixed))
        ensures
            r == barycentric(*self, *p),
    {
        let n = self.v1.sub(&self.v0).cross(&self.v2.sub(&self.v0));
        let na = self.v2.sub(&self.v1).cross(&p.sub(&self.v1));
        let nb = self.v0.sub(&self.v2).cross(&p.sub(&self.v2));
        let nn = n.dot(&n);
        let alpha = n.dot(&na).div(nn);
        let beta = n.dot(&nb).div(nn);
        (alpha, beta, Fixed::from_raw(ONE_RAW).sub(alpha).sub(beta))
    }
}

proof fn lemma_third_coordinate(a: Fixed, b: Fixed)
    requires
        in_unit_range(a),
        in_unit_range(b),
    ensures
        a.raw + b.raw + fx_sub(fx_sub(fx(ONE_RAW as int), a), b).raw == ONE_RAW,
{
}

/// Every hit on a triangle lies where its barycentric coordinates sum to exactly
/// one and each lies in `[0, 1]` (down to one millionth below zero).
pub proof fn lemma_triangle_hit_barycentric(t: Triangle, ray: Ray)
    ensures
        triangle_hit(t, ray) is Some ==> ({
            let p = plane_point(t, invtf_ray(t.transform, ray))->Some_0;
            let (a, b, g) = barycentric(t, p);
            &&& a.raw + b.raw + g.raw == ONE_RAW
            &&& in_unit_range(a)
            &&& in_unit_range(b)
            &&& in_unit_range(g)
        }),
{
    if triangle_hit(t, ray) is Some {
        let p = plane_point(t, invtf_ray(t.transform, ray))->Some_0;
        assert(inside_triangle(t, p));
        let (a, b, g) = barycentric(t, p);
        lemma_third_coordinate(a, b);
    }
}

impl Intersectable for Sphere {
    open spec fn hit_spec(&self, ray: Ray) -> Option<IntersectData> {
        sphere_hit(*self, ray)
    }

    fn intersect(&self, ray: &Ray) -> (r: Option<IntersectData>) {
        let rt = self.transform.mat_invtf_ray(ray);
        let cp = rt.position.sub(&self.center);
        let two = Fixed::from_raw(2 * ONE_RAW);
        let a = rt.direction.dot(&rt.direction);
        let b = rt.direction.dot(&cp).mul(two);
        let c = cp.dot(&cp).sub(self.radius.mul(self.radius));
        let disc = b.mul(b).sub(Fixed::from_raw(4 * ONE_RAW).mul(a).mul(c));
        if disc.raw < 0 {
            return None;
        }
        let sq = disc.sqrt();
        let den = a.mul(two);
        let nb = Fixed::from_raw(0).sub(b);
        let t1 = nb.sub(sq).div(den);
        let t2 = nb.add(sq).div(den);
        if t2.raw < 0 {
            return None;
        }
        let t = if t1.raw < 0 || t2.raw < t1.raw {
            t2
        } else {
            t1
        };
        Some(
            IntersectData {
                index: 0,
                coords: self.transform.mul_point(&rt.position.add_vec(&rt.direction.scale(t))),
                shape: ShapeType::Sphere(*self),
            },
        )
    }
}

#[verifier::opaque]
pub open spec fn shape_hit(shape: ShapeType, ray: Ray) -> Option<IntersectData> {
    match shape {
        ShapeType::Sphere(s) => sphere_hit(s, ray),
        ShapeType::Triangle(t) => triangle_hit(t, ray),
        ShapeType::Empty => None,
    }
}

/// The hit of primitive `k` of the scene, stamped with its index.
pub open spec fn hit_at(shapes: Seq<ShapeType>, ray: Ray, k: int) -> Option<IntersectData> {
    match shape_hit(shapes[k], ray) {
        Some(d) => Some(IntersectData { index: k as usize, ..d }),
        None => None,
    }
}

/// Distance from the ray's origin to a hit.
#[verifier::opaque]
pub open spec fn hit_distance(ray: Ray, d: IntersectData) -> Fixed {
    v_len(p_sub_p(ray.position, d.coords))
}

pub open spec fn same_kind(a: ShapeType, b: ShapeType) -> bool {
    (a is Sphere && b is Sphere) || (a is Triangle && b is Triangle)
}

/// Whether primitive `k` may be hit: from the camera every primitive may; from a
/// surface only those of the same kind as the surface's shape, other than itself.
pub open spec fn is_candidate(shapes: Seq<ShapeType>, from: Option<IntersectData>, k: int) -> bool {
    match from {
        None => true,
        Some(o) => same_kind(shapes[k], o.shape) && k != o.index,
    }
}

/// Primitive `k` is a candidate with a hit nearer than `bound` (raw units).
pub open spec fn close_hit(
    shapes: Seq<ShapeType>,
    ray: Ray,
    from: Option<IntersectData>,
    k: int,
    bound: int,
) -> bool {
    is_candidate(shapes, from, k) && hit_at(shapes, ray, k) is Some && hit_distance(
        ray,
        hit_at(shapes, ray, k)->Some_0,
    ).raw < bound
}

/// `d` is the nearest candidate hit closer than 10^6; among equally near ones, the
/// first in scene order.
pub open spec fn is_nearest_hit(
    shapes: Seq<ShapeType>,
    ray: Ray,
    from: Option<IntersectData>,
    d: IntersectData,
) -> bool {
    let k = d.index as int;
    let dist = hit_distance(ray, d).raw as int;
    &&& 0 <= k < shapes.len()
    &&& hit_at(shapes, ray, k) == Some(d)
    &&& is_candidate(shapes, from, k)
    &&& dist < FAR_RAW
    &&& forall|j: int| 0 <= j < shapes.len() ==> !#[trigger] close_hit(shapes, ray, from, j, dist)
    &&& forall|j: int| 0 <= j < k ==> !#[trigger] close_hit(shapes, ray, from, j, dist + 1)
}

pub open spec fn nearest_hit(shapes: Seq<ShapeType>, ray: Ray, from: Option<IntersectData>) -> Option<
    IntersectData,
> {
    if exists|d: IntersectData| is_nearest_hit(shapes, ray, from, d) {
        Some(choose|d: IntersectData| is_nearest_hit(shapes, ray, from, d))
    } else {
        None
    }
}

proof fn lemma_nearest_unique(
    shapes: Seq<ShapeType>,
    ray: Ray,
    from: Option<IntersectData>,
    d1: IntersectData,
    d2: IntersectData,
)
    requires
        is_nearest_hit(shapes, ray, from, d1),
        is_nearest_hit(shapes, ray, from, d2),
    ensures
        d1 == d2,
{
    let k1 = d1.index as int;
    let k2 = d2.index as int;
    assert(close_hit(shapes, ray, from, k1, hit_distance(ray, d1).raw + 1));
    assert(close_hit(shapes, ray, from, k2, hit_distance(ray, d2).raw + 1));
    assert(!close_hit(shapes, ray, from, k1, hit_distance(ray, d2).raw as int));
    assert(!close_hit(shapes, ray, from, k2, hit_distance(ray, d1).raw as int));
}

pub(crate) fn shape_intersect(shape: &ShapeType, ray: &Ray) -> (r: Option<IntersectData>)
    ensures
        r == shape_hit(*shape, *ray),
{
    reveal(shape_hit);
    match shape {
        ShapeType::Sphere(s) => s.intersect(ray),
        ShapeType::Triangle(t) => t.intersect(ray),
        ShapeType::Empty => None,
    }
}

fn candidate(scene: &Scene, from: &Option<IntersectData>, k: usize) -> (r: bool)
    requires
        k < scene.shapes.0@.len(),
    ensures
        r == is_candidate(scene.shapes.0@, *from, k as int),
{
    match from {
        None => true,
        Some(o) => {
            let kind = match (&scene.shapes.0[k], &o.shape) {
                (ShapeType::Sphere(_), ShapeType::Sphere(_)) => true,
                (ShapeType::Triangle(_), ShapeType::Triangle(_)) => true,
                _ => false,
            };
            kind && k != o.index
        },
    }
}

/// A hit record carries the shape that was hit.
pub proof fn lemma_hit_carries_shape(shape: ShapeType, ray: Ray)
    ensures
        shape_hit(shape, ray) matches Some(d) ==> d.shape == shape,
{
    reveal(shape_hit);
}

/// The linear scan shared by both scene queries.
fn nearest_in_scene(ray: &Ray, scene: &Scene, from: &Option<IntersectData>) -> (r: Option<
    IntersectData,
>)
    ensures
        r == nearest_hit(scene.shapes.0@, *ray, *from),
        r is None <==> forall|k: int|
            0 <= k < scene.shapes.0@.len() ==> !#[trigger] close_hit(
                scene.shapes.0@,
                *ray,
                *from,
                k,
                FAR_RAW as int,
            ),
{
    let ghost shapes = scene.shapes.0@;
    let n = scene.shapes.0.len();
    let mut min_dist = Fixed::from_raw(FAR_RAW);
    let mut nearest = IntersectData::new();
    let mut i: usize = 0;
    while i < n
        invariant
            n == shapes.len(),
            shapes == scene.shapes.0@,
            i <= n,
            min_dist.raw <= FAR_RAW,
            min_dist.raw < FAR_RAW ==> {
                &&& nearest.index < i
                &&& hit_at(shapes, *ray, nearest.index as int) == Some(nearest)
                &&& is_candidate(shapes, *from, nearest.index as int)
                &&& hit_distance(*ray, nearest) == min_dist
                &&& forall|k: int|
                    0 <= k < nearest.index ==> !#[trigger] close_hit(
                        shapes,
                        *ray,
                        *from,
                        k,
                        min_dist.raw + 1,
                    )
            },
            forall|k: int| 0 <= k < i ==> !#[trigger] close_hit(shapes, *ray, *from, k, min_dist.raw as int),
        decreases n - i,
    {
        let shape = &scene.shapes.0[i];
        let is_cand = candidate(scene, from, i);
        match shape_intersect(shape, ray) {
            Some(hit) => {
                let d = IntersectData { index: i, ..hit };
                assert(hit_at(shapes, *ray, i as int) == Some(d));
                let dist = ray.position.sub(&d.coords).len();
                assert(dist == hit_distance(*ray, d)) by {
                    reveal(hit_distance);
                }
                if is_cand && dist.raw < min_dist.raw {
                    assert forall|k: int| 0 <= k < i implies !#[trigger] close_hit(
                        shapes,
                        *ray,
                        *from,
                        k,
                        dist.raw + 1,
                    ) by {
                        assert(!close_hit(shapes, *ray, *from, k, min_dist.raw as int));
                    }
                    assert forall|k: int| 0 <= k < i implies !#[trigger] close_hit(
                        shapes,
                        *ray,
                        *from,
                        k,
                        dist.raw as int,
                    ) by {
                        assert(!close_hit(shapes, *ray, *from, k, min_dist.raw as int));
                    }
                    min_dist = dist;
                    nearest = d;
                }
                assert(!close_hit(shapes, *ray, *from, i as int, min_dist.raw as int));
            },
            None => {
                assert(!close_hit(shapes, *ray, *from, i as int, min_dist.raw as int));
            },
        }
        i = i + 1;
    }
    proof {
        if min_dist.raw < FAR_RAW {
            assert(is_nearest_hit(shapes, *ray, *from, nearest));
            assert(close_hit(shapes, *ray, *from, nearest.index as int, FAR_RAW as int));
            lemma_nearest_unique(
                shapes,
                *ray,
                *from,
                nearest,
                choose|d: IntersectData| is_nearest_hit(shapes, *ray, *from, d),
            );
        } else {
            assert forall|d: IntersectData| !is_nearest_hit(shapes, *ray, *from, d) by {
                if is_nearest_hit(shapes, *ray, *from, d) {
                    assert(close_hit(shapes, *ray, *from, d.index as int, FAR_RAW as int));
                }
            }
        }
    }
    if min_dist.raw < FAR_RAW {
        Some(nearest)
    } else {
        None
    }
}

/// The nearest primitive hit by a ray from the camera: the first of the least
/// distance, if any lies closer than 10^6.
pub fn intersect_scene_from_view(ray: Ray, scene: &Scene) -> (r: Option<IntersectData>)
    ensures
        r == nearest_hit(scene.shapes.0@, ray, None),
        r is None <==> forall|k: int|
            0 <= k < scene.shapes.0@.len() ==> !#[trigger] close_hit(
                scene.shapes.0@,
                ray,
                None,
                k,
                FAR_RAW as int,
            ),
        r matches Some(d) ==> is_nearest_hit(scene.shapes.0@, ray, None, d),
{
    let r = nearest_in_scene(&ray, scene, &None);
    proof {
        if r is Some {
            let d = choose|d: IntersectData| is_nearest_hit(scene.shapes.0@, ray, None, d);
        }
    }
    r
}

/// The nearest primitive hit by a ray leaving the surface of `origin`: only
/// primitives of the same kind as `origin`'s shape count, and never `origin`'s own
/// index. This exclusion is sound for convex surfaces only.
pub fn intersect_scene_from_shape(ray: Ray, scene: &Scene, origin: IntersectData) -> (r: Option<
    IntersectData,
>)
    ensures
        r == nearest_hit(scene.shapes.0@, ray, Some(origin)),
        r is None <==> forall|k: int|
            0 <= k < scene.shapes.0@.len() ==> !#[trigger] close_hit(
                scene.shapes.0@,
                ray,
                Some(origin),
                k,
                FAR_RAW as int,
            ),
        r matches Some(d) ==> is_nearest_hit(scene.shapes.0@, ray, Some(origin), d),
        r matches Some(d) ==> d.index != origin.index && same_kind(d.shape, origin.shape),
{
    let r = nearest_in_scene(&ray, scene, &Some(origin));
    proof {
        if r is Some {
            let d = r->Some_0;
            lemma_hit_carries_shape(scene.shapes.0@[d.index as int], ray);
        }
    }
    r
}

} // verus!
