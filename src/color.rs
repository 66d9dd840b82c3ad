use vstd::prelude::*;

use crate::fixed::{fx, fx_abs, fx_add, fx_div, fx_max, fx_mul, fx_pow, Fixed, ONE_RAW};
use crate::intersect::{
    intersect_scene_from_shape, nearest_hit, same_kind, shape_hit, shape_intersect, tri_normal,
    two,
};
use crate::matrix::{invtf_norm, invtf_ray};
use crate::scene::{
    default_material, no_falloff, Attenuation, IntersectData, LightStack, LightType, Material,
    PointLight, Scene, ShapeType,
};
use crate::vector::{
    p_sub_p, v_add, v_dot, v_len, v_mul, v_norm, v_scale, v_sub, zero_vec, Point3, RGBColor, Ray,
    Vector3,
};

verus! {

/// The world-space unit normal at a hit. Spheres take the object-space radial
/// direction back through the transform; triangles use their flat face normal.
pub open spec fn surface_normal(ip: IntersectData) -> Vector3 {
    match ip.shape {
        ShapeType::Sphere(s) => {
            let local = invtf_ray(s.transform, Ray { position: ip.coords, direction: zero_vec() });
            invtf_norm(s.transform, v_norm(p_sub_p(local.position, s.center)))
        },
        ShapeType::Triangle(t) => v_norm(tri_normal(t)),
        ShapeType::Empty => zero_vec(),
    }
}

pub open spec fn surface_material(ip: IntersectData) -> Material {
    match ip.shape {
        ShapeType::Sphere(s) => s.material,
        ShapeType::Triangle(t) => t.material,
        ShapeType::Empty => default_material(),
    }
}

/// Blinn-Phong: `(diffuse * max(0, N.L) + specular * max(0, N.H)^shininess) * color`.
pub open spec fn light_intensity(
    l: Vector3,
    color: RGBColor,
    n: Vector3,
    h: Vector3,
    m: Material,
) -> RGBColor {
    let lambert = v_scale(m.diffuse, fx_max(v_dot(n, l), fx(0)));
    let phong = v_scale(m.specular, fx_pow(fx_max(v_dot(n, h), fx(0)), m.shininess as nat));
    v_mul(v_add(lambert, phong), color)
}

pub open spec fn shadow_ray(ip: IntersectData, light_pos: Point3) -> Ray {
    Ray { position: ip.coords, direction: v_norm(p_sub_p(light_pos, ip.coords)) }
}

/// Primitive `k` (other than the hit primitive itself) meets the ray toward the
/// light strictly nearer than the light.
pub open spec fn blocks_light(shapes: Seq<ShapeType>, ip: IntersectData, light_pos: Point3, k: int) -> bool {
    let sr = shadow_ray(ip, light_pos);
    &&& !(same_kind(shapes[k], ip.shape) && k == ip.index)
    &&& match shape_hit(shapes[k], sr) {
        Some(h) => {
            let hv = p_sub_p(h.coords, sr.position);
            let lv = p_sub_p(light_pos, sr.position);
            fx_abs(v_dot(hv, hv)).raw < fx_abs(v_dot(lv, lv)).raw
        },
        None => false,
    }
}

pub open spec fn in_shadow(shapes: Seq<ShapeType>, ip: IntersectData, light_pos: Point3) -> bool {
    exists|k: int| 0 <= k < shapes.len() && #[trigger] blocks_light(shapes, ip, light_pos, k)
}

/// `1 / (constant + linear * d + quadratic * d * d)`.
pub open spec fn attenuation_factor(att: Attenuation, d: Fixed) -> Fixed {
    fx_div(
        fx(ONE_RAW as int),
        fx_add(fx_add(att.constant, fx_mul(att.linear, d)), fx_mul(fx_mul(att.quadratic, d), d)),
    )
}

/// What one light adds at a hit seen along `ray`; none for a shadowed point light.
#[verifier::opaque]
pub open spec fn light_contribution(
    shapes: Seq<ShapeType>,
    ray: Ray,
    ip: IntersectData,
    att: Attenuation,
    light: LightType,
) -> Option<RGBColor> {
    let n = surface_normal(ip);
    let m = surface_material(ip);
    let eye = v_norm(p_sub_p(ray.position, ip.coords));
    match light {
        LightType::Directional(d) => {
            let l = v_norm(d.direction);
            Some(light_intensity(l, d.color, n, v_norm(v_add(l, eye)), m))
        },
        LightType::Point(p) => if in_shadow(shapes, ip, p.position) {
            None
        } else {
            let dist = v_len(p_sub_p(p.position, ip.coords));
            let l = v_norm(p_sub_p(p.position, ip.coords));
            Some(
                v_scale(
                    light_intensity(l, p.color, n, v_norm(v_add(l, eye)), m),
                    attenuation_factor(att, dist),
                ),
            )
        },
    }
}

/// The sum of the contributions of the first `count` lights, in order.
pub open spec fn lights_sum(
    shapes: Seq<ShapeType>,
    ray: Ray,
    ip: IntersectData,
    lights: Seq<LightType>,
    att: Attenuation,
    count: int,
) -> RGBColor
    decreases count,
{
    if count <= 0 {
        zero_vec()
    } else {
        let acc = lights_sum(shapes, ray, ip, lights, att, count - 1);
        match light_contribution(shapes, ray, ip, att, lights[count - 1]) {
            Some(c) => v_add(acc, c),
            None => acc,
        }
    }
}

/// Local shading: the lights' sum, plus ambient, plus emission.
pub open spec fn local_color(
    shapes: Seq<ShapeType>,
    ray: Ray,
    ip: IntersectData,
    lights: Seq<LightType>,
    att: Attenuation,
) -> RGBColor {
    let m = surface_material(ip);
    v_add(v_add(lights_sum(shapes, ray, ip, lights, att, lights.len() as int), m.ambient), m.emission)
}

/// The mirror reflection `D - 2 (D.N) N` of the incoming ray at the hit, normalized.
pub open spec fn reflect_ray(ray: Ray, ip: IntersectData) -> Ray {
    let n = surface_normal(ip);
    Ray {
        position: ip.coords,
        direction: v_norm(v_sub(ray.direction, v_scale(n, fx_mul(two(), v_dot(ray.direction, n))))),
    }
}

/// The single point light, at `pos` and of colour `color`, through which a reflected
/// colour is folded back into the shading of a surface.
pub open spec fn mirror_light(pos: Point3, color: RGBColor) -> Seq<LightType> {
    seq![LightType::Point(PointLight { position: pos, color })]
}

/// The colour of a hit at recursion depth `depth`: black beyond the scene's bound;
/// otherwise the local shading under the scene's lights plus, when the reflected
/// ray meets another primitive, the local shading under a single point light placed
/// at that hit and coloured by its own traced colour, filtered by the specular
/// coefficient.
pub open spec fn traced_color(scene: Scene, ray: Ray, ip: IntersectData, depth: int) -> RGBColor
    decreases scene.max_recurse_depth + 1 - depth,
{
    if depth > scene.max_recurse_depth || depth < 0 {
        zero_vec()
    } else {
        let shapes = scene.shapes.0@;
        let own = local_color(shapes, ray, ip, scene.lights.lights@, scene.lights.attenuation);
        let refl = reflect_ray(ray, ip);
        let bounced = match nearest_hit(shapes, refl, Some(ip)) {
            Some(h) => {
                let rc = traced_color(scene, refl, h, depth + 1);
                v_mul(
                    local_color(shapes, ray, ip, mirror_light(h.coords, rc), no_falloff()),
                    surface_material(ip).specular,
                )
            },
            None => zero_vec(),
        };
        v_add(bounced, own)
    }
}

/// How many shading levels `traced_color` enters from depth `depth`.
pub open spec fn reflection_levels(scene: Scene, ray: Ray, ip: IntersectData, depth: int) -> int
    decreases scene.max_recurse_depth + 1 - depth,
{
    if depth > scene.max_recurse_depth || depth < 0 {
        0
    } else {
        let refl = reflect_ray(ray, ip);
        1 + match nearest_hit(scene.shapes.0@, refl, Some(ip)) {
            Some(h) => reflection_levels(scene, refl, h, depth + 1),
            None => 0,
        }
    }
}

/// Whatever the geometry, tracing from any depth `d` enters at most
/// `max_recurse_depth + 1 - d` shading levels, and none beyond the bound.
pub proof fn lemma_levels_bounded(scene: Scene, ray: Ray, ip: IntersectData, depth: int)
    requires
        0 <= depth,
    ensures
        0 <= reflection_levels(scene, ray, ip, depth),
        reflection_levels(scene, ray, ip, depth) <= if depth > scene.max_recurse_depth {
            0
        } else {
            scene.max_recurse_depth + 1 - depth
        },
    decreases scene.max_recurse_depth + 1 - depth,
{
    if depth <= scene.max_recurse_depth {
        let refl = reflect_ray(ray, ip);
        if let Some(h) = nearest_hit(scene.shapes.0@, refl, Some(ip)) {
            lemma_levels_bounded(scene, refl, h, depth + 1);
        }
    }
}

/// In particular, even between mirrors facing each other, tracing from depth 0
/// enters at most `max_recurse_depth + 1` shading levels.
pub proof fn lemma_recursion_bounded(scene: Scene, ray: Ray, ip: IntersectData)
    ensures
        reflection_levels(scene, ray, ip, 0) <= scene.max_recurse_depth + 1,
{
    lemma_levels_bounded(scene, ray, ip, 0);
}

fn normal_at(ip: &IntersectData) -> (r: Vector3)
    ensures
        r == surface_normal(*ip),
{
    match &ip.shape {
        ShapeType::Sphere(s) => {
            let local = s.transform.mat_invtf_point3(&ip.coords);
            s.transform.mat_invtf_norm_vec3(&local.sub(&s.center).norm())
        },
        ShapeType::Triangle(t) => t.v1.sub(&t.v0).cross(&t.v2.sub(&t.v0)).norm(),
        ShapeType::Empty => Vector3::new_empty(),
    }
}

fn material_at(ip: &IntersectData) -> (r: Material)
    ensures
        r == surface_material(*ip),
{
    match &ip.shape {
        ShapeType::Sphere(s) => s.material,
        ShapeType::Triangle(t) => t.material,
        ShapeType::Empty => Material::new(),
    }
}

fn get_light_intensity(
    light_dir: Vector3,
    light_color: RGBColor,
    surf_norm: Vector3,
    half_vec: Vector3,
    m: &Material,
) -> (r: RGBColor)
    ensures
        r == light_intensity(light_dir, light_color, surf_norm, half_vec, *m),
{
    let zero = Fixed::from_raw(0);
    let lambert = m.diffuse.scale(surf_norm.dot(&light_dir).max(zero));
    let phong = m.specular.scale(surf_norm.dot(&half_vec).max(zero).pow(m.shininess));
    lambert.add(&phong).mul(&light_color)
}

/// Whether a primitive other than the hit one lies strictly between the hit point
/// and the light. Excluding only the hit primitive is sound for convex surfaces.
fn test_shadows(ip: &IntersectData, light_pos: &Point3, scene: &Scene) -> (r: bool)
    ensures
        r == in_shadow(scene.shapes.0@, *ip, *light_pos),
{
    let ghost shapes = scene.shapes.0@;
    let sr = Ray { position: ip.coords, direction: light_pos.sub(&ip.coords).norm() };
    let n = scene.shapes.0.len();
    let mut i: usize = 0;
    while i < n
        invariant
            n == shapes.len(),
            shapes == scene.shapes.0@,
            i <= n,
            sr == shadow_ray(*ip, *light_pos),
            forall|k: int| 0 <= k < i ==> !#[trigger] blocks_light(shapes, *ip, *light_pos, k),
        decreases n - i,
    {
        let shape = &scene.shapes.0[i];
        let own = match (shape, &ip.shape) {
            (ShapeType::Sphere(_), ShapeType::Sphere(_)) => i == ip.index,
            (ShapeType::Triangle(_), ShapeType::Triangle(_)) => i == ip.index,
            _ => false,
        };
        if !own {
            if let Some(h) = shape_intersect(shape, &sr) {
                let hv = h.coords.sub(&sr.position);
                let lv = light_pos.sub(&sr.position);
                if hv.dot(&hv).abs().raw < lv.dot(&lv).abs().raw {
                    assert(blocks_light(shapes, *ip, *light_pos, i as int));
                    return true;
                }
            }
        }
        assert(!blocks_light(shapes, *ip, *light_pos, i as int));
        i = i + 1;
    }
    false
}

fn contribution(
    ray: &Ray,
    scene: &Scene,
    ip: &IntersectData,
    att: &Attenuation,
    light: &LightType,
    n: &Vector3,
    m: &Material,
    eye: &Vector3,
) -> (r: Option<RGBColor>)
    requires
        *n == surface_normal(*ip),
        *m == surface_material(*ip),
        *eye == v_norm(p_sub_p(ray.position, ip.coords)),
    ensures
        r == light_contribution(scene.shapes.0@, *ray, *ip, *att, *light),
{
    reveal(light_contribution);
    match light {
        LightType::Directional(d) => {
            let l = d.direction.norm();
            let h = l.add(eye).norm();
            Some(get_light_intensity(l, d.color, *n, h, m))
        },
        LightType::Point(p) => {
            if test_shadows(ip, &p.position, scene) {
                None
            } else {
                let to_light = p.position.sub(&ip.coords);
                let dist = to_light.len();
                let att_f = Fixed::from_raw(ONE_RAW).div(
                    att.constant.add(att.linear.mul(dist)).add(att.quadratic.mul(dist).mul(dist)),
                );
                let l = to_light.norm();
                let h = l.add(eye).norm();
                Some(get_light_intensity(l, p.color, *n, h, m).scale(att_f))
            }
        },
    }
}

/// Local shading of a hit under `lights`: ambient + emission + the Blinn-Phong
/// terms of every light. Directional lights are never shadowed; point lights are
/// shadow-tested and attenuated with `lights.attenuation`.
pub fn get_color(ray: Ray, scene: &Scene, intersect_pt: IntersectData, lights: &LightStack) -> (r:
    RGBColor)
    ensures
        r == local_color(
            scene.shapes.0@,
            ray,
            intersect_pt,
            lights.lights@,
            lights.attenuation,
        ),
{
    let n = normal_at(&intersect_pt);
    let m = material_at(&intersect_pt);
    let eye = ray.position.sub(&intersect_pt.coords).norm();
    let count = lights.lights.len();
    let mut acc = Vector3::new_empty();
    let mut i: usize = 0;
    while i < count
        invariant
            count == lights.lights@.len(),
            i <= count,
            n == surface_normal(intersect_pt),
            m == surface_material(intersect_pt),
            eye == v_norm(p_sub_p(ray.position, intersect_pt.coords)),
            acc == lights_sum(
                scene.shapes.0@,
                ray,
                intersect_pt,
                lights.lights@,
                lights.attenuation,
                i as int,
            ),
        decreases count - i,
    {
        match contribution(&ray, scene, &intersect_pt, &lights.attenuation, &lights.lights[i], &n, &m, &eye) {
            Some(c) => {
                acc = acc.add(&c);
            },
            None => {},
        }
        i = i + 1;
    }
    acc.add(&m.ambient).add(&m.emission)
}

/// The colour of a hit with mirror reflections, entered at depth 0. Beyond
/// `scene.max_recurse_depth` it is black, which bounds the recursion.
pub fn get_color_recursive(ray: Ray, scene: &Scene, intersect_pt: IntersectData, now_recurse_depth: usize) -> (r:
    RGBColor)
    ensures
        r == traced_color(*scene, ray, intersect_pt, now_recurse_depth as int),
        now_recurse_depth > scene.max_recurse_depth ==> r == zero_vec(),
    decreases scene.max_recurse_depth + 1 - now_recurse_depth,
{
    if now_recurse_depth > scene.max_recurse_depth {
        return Vector3::new_empty();
    }
    let n = normal_at(&intersect_pt);
    let specular = material_at(&intersect_pt).specular;
    let d = ray.direction;
    let refl = Ray {
        position: intersect_pt.coords,
        direction: d.sub(&n.scale(Fixed::from_raw(2 * ONE_RAW).mul(d.dot(&n)))).norm(),
    };
    assert(refl == reflect_ray(ray, intersect_pt));
    let bounced = match intersect_scene_from_shape(refl, scene, intersect_pt) {
        Some(h) => {
            let reflect_color = if now_recurse_depth < usize::MAX {
                get_color_recursive(refl, scene, h, now_recurse_depth + 1)
            } else {
                Vector3::new_empty()
            };
            let mut mirror = LightStack::new();
            mirror.lights.push(LightType::Point(PointLight { position: h.coords, color: reflect_color }));
            assert(mirror.lights@ =~= mirror_light(h.coords, reflect_color));
            assert(reflect_color == traced_color(*scene, refl, h, now_recurse_depth + 1));
            get_color(ray, scene, intersect_pt, &mirror).mul(&specular)
        },
        None => Vector3::new_empty(),
    };
    bounced.add(&get_color(ray, scene, intersect_pt, &scene.lights))
}

} // verus!
