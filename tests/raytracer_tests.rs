use raytracer::color::{get_color, get_color_recursive};
use raytracer::fixed::{Fixed, LIMIT_RAW, ONE_RAW};
use raytracer::intersect::{intersect_scene_from_shape, intersect_scene_from_view, Intersectable};
use raytracer::matrix::Matrix4;
use raytracer::render::{make_ray, render};
use raytracer::scene::{
    Camera, DirectionalLight, IntersectData, LightStack, LightType, Material, PointLight, Scene,
    ShapeType, Sphere, Triangle,
};
use raytracer::vector::{Point3, Ray, Vector3};

fn f(x: f64) -> Fixed {
    Fixed::from_raw((x * ONE_RAW as f64).round() as i64)
}

/// A colour component rounded up to the next raw unit, as scene files are read.
fn fc(x: f64) -> Fixed {
    Fixed::from_raw((x * ONE_RAW as f64).ceil() as i64)
}

fn val(x: Fixed) -> f64 {
    x.raw as f64 / ONE_RAW as f64
}

fn v(x: f64, y: f64, z: f64) -> Vector3 {
    Vector3::new(f(x), f(y), f(z))
}

fn p(x: f64, y: f64, z: f64) -> Point3 {
    Point3::new(f(x), f(y), f(z))
}

fn close(a: Fixed, b: f64, tol: f64) -> bool {
    (val(a) - b).abs() <= tol
}

fn close_point(a: &Point3, x: f64, y: f64, z: f64, tol: f64) -> bool {
    close(a.x, x, tol) && close(a.y, y, tol) && close(a.z, z, tol)
}

fn unit_sphere(center: Point3) -> Sphere {
    let mut s = Sphere::new();
    s.center = center;
    s.radius = f(1.0);
    s
}

fn diffuse_material(r: f64, g: f64, b: f64) -> Material {
    let mut m = Material::new();
    m.ambient = Vector3::new_empty();
    m.diffuse = v(r, g, b);
    m
}

fn empty_scene(w: usize, h: usize) -> Scene {
    let mut scene = Scene::new();
    scene.img_width = w;
    scene.img_height = h;
    scene.camera = Camera {
        eye: v(0.0, 0.0, 5.0),
        center: v(0.0, 0.0, 0.0),
        up: v(0.0, 1.0, 0.0),
        tan_half_fovy: f((22.5f64).to_radians().tan()),
    };
    scene
}

#[test]
fn fixed_arithmetic_exact_values() {
    assert_eq!(f(1.5).mul(f(2.0)), f(3.0));
    assert_eq!(f(3.0).div(f(4.0)), f(0.75));
    assert_eq!(f(-3.0).div(f(4.0)), f(-0.75));
    assert_eq!(f(9.0).sqrt(), f(3.0));
    assert_eq!(f(0.25).sqrt(), f(0.5));
    assert_eq!(f(-4.0).sqrt(), f(0.0));
    assert_eq!(f(2.0).pow(10), f(1024.0));
    assert_eq!(f(0.0).pow(0), f(1.0));
    assert_eq!(f(-2.5).abs(), f(2.5));
    assert_eq!(f(1.0).sub(f(3.0)), f(-2.0));
    assert_eq!(Fixed::from_int(7), f(7.0));
}

#[test]
fn fixed_division_by_zero_is_zero() {
    assert_eq!(f(5.0).div(f(0.0)), f(0.0));
}

#[test]
fn fixed_saturates() {
    let big = Fixed::from_raw(LIMIT_RAW);
    assert_eq!(big.add(big).raw, LIMIT_RAW);
    assert_eq!(big.mul(f(1000.0)).raw, LIMIT_RAW);
    assert_eq!(Fixed::from_raw(-LIMIT_RAW).sub(big).raw, -LIMIT_RAW);
}

#[test]
fn channel_bytes_truncate_and_clamp() {
    assert_eq!(f(0.5).to_channel(), 127);
    assert_eq!(f(1.0).to_channel(), 255);
    assert_eq!(f(3.0).to_channel(), 255);
    assert_eq!(f(-0.5).to_channel(), 0);
    assert_eq!(f(0.75).to_channel(), 191);
}

#[test]
fn vector_products() {
    let a = v(1.0, 2.0, 3.0);
    let b = v(4.0, -5.0, 6.0);
    assert_eq!(a.dot(&b), f(12.0));
    assert_eq!(a.cross(&b), v(27.0, 6.0, -13.0));
    assert_eq!(a.add(&b), v(5.0, -3.0, 9.0));
    assert_eq!(a.sub(&b), v(-3.0, 7.0, -3.0));
    assert_eq!(a.mul(&b), v(4.0, -10.0, 18.0));
    assert_eq!(a.scale(f(2.0)), v(2.0, 4.0, 6.0));
    assert_eq!(v(3.0, 4.0, 0.0).len(), f(5.0));
    let n = v(3.0, 4.0, 0.0).norm();
    assert!(close(n.x, 0.6, 1e-5) && close(n.y, 0.8, 1e-5) && n.z == f(0.0));
    assert_eq!(a.get(1), f(2.0));
}

#[test]
fn normalizing_zero_vector_gives_zero() {
    assert_eq!(Vector3::new_empty().norm(), Vector3::new_empty());
}

#[test]
fn point_operations() {
    let a = p(1.0, 2.0, 3.0);
    let b = p(0.5, 0.5, 0.5);
    assert_eq!(a.sub(&b), v(0.5, 1.5, 2.5));
    assert_eq!(a.add_vec(&v(1.0, 1.0, 1.0)), p(2.0, 3.0, 4.0));
    assert_eq!(a.sub_vec(&v(1.0, 1.0, 1.0)), p(0.0, 1.0, 2.0));
    assert_eq!(a.scale(f(2.0)), p(2.0, 4.0, 6.0));
    assert_eq!(a.pos_rep(), v(1.0, 2.0, 3.0));
}

#[test]
fn matrix_product_and_application() {
    let t = Matrix4::new_translate(f(1.0), f(2.0), f(3.0));
    let s = Matrix4::new_scale(f(2.0), f(2.0), f(2.0));
    let ts = t.mul(&s);
    assert_eq!(ts.mul_point(&p(1.0, 1.0, 1.0)), p(3.0, 4.0, 5.0));
    assert_eq!(ts.mul_vec(&v(1.0, 1.0, 1.0)), v(2.0, 2.0, 2.0));
    assert_eq!(Matrix4::identity().mul(&ts), ts);
    assert_eq!(t.add(&s).get(0, 0), f(3.0));
    assert_eq!(t.sub(&s).get(0, 3), f(1.0));
    assert_eq!(s.scale(f(0.5)).get(1, 1), f(1.0));
    assert_eq!(Matrix4::new_on_diag(f(1.0)), Matrix4::identity());
    assert_eq!(Matrix4::new_with_value(f(2.0)).get(3, 2), f(2.0));
    assert_eq!(Matrix4::new_empty().get(1, 2), f(0.0));
}

#[test]
fn matrix_from_columns() {
    let m = Matrix4::new_with_vec3(&v(1.0, 2.0, 3.0), &v(4.0, 5.0, 6.0), &v(7.0, 8.0, 9.0));
    assert_eq!(m.get(0, 1), f(4.0));
    assert_eq!(m.get(2, 0), f(3.0));
    assert_eq!(m.get(3, 3), f(1.0));
}

#[test]
fn rotation_quarter_turn_about_z() {
    let r = Matrix4::new_rotate(&v(0.0, 0.0, 1.0), f(0.0), f(1.0));
    assert_eq!(r.mul_vec(&v(1.0, 0.0, 0.0)), v(0.0, 1.0, 0.0));
    assert_eq!(r.mul_vec(&v(0.0, 0.0, 1.0)), v(0.0, 0.0, 1.0));
}

#[test]
fn inverse_transform_undoes_translate_and_scale() {
    let m = Matrix4::new_translate(f(1.0), f(2.0), f(3.0)).mul(&Matrix4::new_scale(f(2.0), f(4.0), f(0.5)));
    let pt = p(3.0, -6.0, 5.0);
    let back = m.mat_invtf_point3(&m.mul_point(&pt));
    assert!(close_point(&back, 3.0, -6.0, 5.0, 1e-4));
    assert_eq!(m.mat_invtf_vec3(&v(2.0, 4.0, 0.5)), v(1.0, 1.0, 1.0));
}

#[test]
fn transform_round_trip_on_general_affine_matrix() {
    let m = Matrix4::new(
        f(2.0), f(2.0), f(3.0), f(3.0),
        f(5.0), f(6.0), f(7.0), f(7.0),
        f(9.0), f(10.0), f(11.0), f(11.0),
        f(0.0), f(0.0), f(0.0), f(1.0),
    );
    let ray = Ray { position: p(8.0, 4.0, -2.0), direction: v(-3.0, -4.0, 7.0) };
    let inv_then_fwd = m.mul_ray(&m.mat_invtf_ray(&ray));
    assert!(close_point(&inv_then_fwd.position, 8.0, 4.0, -2.0, 1e-3));
    assert!(close(inv_then_fwd.direction.x, -3.0, 1e-3));
    assert!(close(inv_then_fwd.direction.y, -4.0, 1e-3));
    assert!(close(inv_then_fwd.direction.z, 7.0, 1e-3));
    let fwd_then_inv = m.mat_invtf_ray(&m.mul_ray(&ray));
    assert!(close_point(&fwd_then_inv.position, 8.0, 4.0, -2.0, 1e-3));
    assert!(close(fwd_then_inv.direction.z, 7.0, 1e-3));
}

#[test]
fn singular_transform_leaves_ray_unchanged() {
    let m = Matrix4::new_scale(f(0.0), f(1.0), f(1.0));
    let ray = Ray { position: p(1.0, 2.0, 3.0), direction: v(0.0, 1.0, 0.0) };
    assert_eq!(m.mat_invtf_ray(&ray), ray);
}

#[test]
fn normal_transform_is_renormalized() {
    let m = Matrix4::new_scale(f(2.0), f(1.0), f(1.0));
    let n = m.mat_invtf_norm_vec3(&v(1.0, 1.0, 0.0).norm());
    assert!(close(n.len(), 1.0, 1e-4));
    assert!(close(n.x, 1.0 / 5.0f64.sqrt(), 1e-4));
    assert!(close(n.y, 2.0 / 5.0f64.sqrt(), 1e-4));
}

#[test]
fn sphere_hit_at_analytic_distance() {
    let s = unit_sphere(Point3::new_empty());
    let ray = Ray { position: p(0.0, 0.0, 6.0), direction: v(0.0, 0.0, -1.0) };
    let hit = s.intersect(&ray).expect("ray along the axis must hit");
    assert!(close_point(&hit.coords, 0.0, 0.0, 1.0, 1e-5));
    assert_eq!(hit.shape, ShapeType::Sphere(s));
}

#[test]
fn sphere_missed_ray_returns_none() {
    let s = unit_sphere(Point3::new_empty());
    let ray = Ray { position: p(0.0, 2.0, 6.0), direction: v(0.0, 0.0, -1.0) };
    assert!(s.intersect(&ray).is_none());
}

#[test]
fn sphere_behind_origin_is_not_hit() {
    let s = unit_sphere(Point3::new_empty());
    let ray = Ray { position: p(0.0, 0.0, 6.0), direction: v(0.0, 0.0, 1.0) };
    assert!(s.intersect(&ray).is_none());
}

#[test]
fn sphere_hit_from_inside_takes_far_root() {
    let s = unit_sphere(Point3::new_empty());
    let ray = Ray { position: p(0.0, 0.0, 0.0), direction: v(1.0, 0.0, 0.0) };
    let hit = s.intersect(&ray).expect("a ray from inside leaves the sphere");
    assert!(close_point(&hit.coords, 1.0, 0.0, 0.0, 1e-5));
}

#[test]
fn transformed_sphere_hit_in_world_space() {
    let mut s = unit_sphere(Point3::new_empty());
    s.transform = Matrix4::new_translate(f(3.0), f(0.0), f(0.0)).mul(&Matrix4::new_scale(f(2.0), f(2.0), f(2.0)));
    let ray = Ray { position: p(3.0, 0.0, 10.0), direction: v(0.0, 0.0, -1.0) };
    let hit = s.intersect(&ray).expect("must hit the moved sphere");
    assert!(close_point(&hit.coords, 3.0, 0.0, 2.0, 1e-4));
}

fn unit_triangle() -> Triangle {
    let mut t = Triangle::new();
    t.v0 = p(0.0, 0.0, 0.0);
    t.v1 = p(1.0, 0.0, 0.0);
    t.v2 = p(0.0, 1.0, 0.0);
    t
}

#[test]
fn triangle_hit_inside() {
    let t = unit_triangle();
    let ray = Ray { position: p(0.25, 0.25, 3.0), direction: v(0.0, 0.0, -1.0) };
    let hit = t.intersect(&ray).expect("must hit the triangle");
    assert!(close_point(&hit.coords, 0.25, 0.25, 0.0, 1e-5));
    let (a, b, g) = t.barycentric(&p(0.25, 0.25, 0.0));
    assert_eq!(a.raw + b.raw + g.raw, ONE_RAW);
    assert!(val(a) >= 0.0 && val(a) <= 1.0);
    assert!(val(b) >= 0.0 && val(b) <= 1.0);
    assert!(val(g) >= 0.0 && val(g) <= 1.0);
}

#[test]
fn triangle_miss_outside_and_parallel() {
    let t = unit_triangle();
    let outside = Ray { position: p(0.8, 0.8, 3.0), direction: v(0.0, 0.0, -1.0) };
    assert!(t.intersect(&outside).is_none());
    let parallel = Ray { position: p(0.2, 0.2, 3.0), direction: v(1.0, 0.0, 0.0) };
    assert!(t.intersect(&parallel).is_none());
    let behind = Ray { position: p(0.2, 0.2, 3.0), direction: v(0.0, 0.0, 1.0) };
    assert!(t.intersect(&behind).is_none());
}

#[test]
fn triangle_edge_point_is_accepted() {
    let t = unit_triangle();
    let ray = Ray { position: p(0.5, 0.0, 3.0), direction: v(0.0, 0.0, -1.0) };
    assert!(t.intersect(&ray).is_some());
}

fn two_sphere_scene() -> Scene {
    let mut scene = empty_scene(1, 1);
    scene.shapes.0.push(ShapeType::Sphere(unit_sphere(p(0.0, 0.0, -5.0))));
    scene.shapes.0.push(ShapeType::Sphere(unit_sphere(p(0.0, 0.0, 0.0))));
    scene
}

#[test]
fn view_query_returns_nearest_hit() {
    let scene = two_sphere_scene();
    let ray = Ray { position: p(0.0, 0.0, 5.0), direction: v(0.0, 0.0, -1.0) };
    let hit = intersect_scene_from_view(ray, &scene).expect("two spheres on the axis");
    assert_eq!(hit.index, 1);
    assert!(close_point(&hit.coords, 0.0, 0.0, 1.0, 1e-5));
}

#[test]
fn view_query_misses_return_none() {
    let scene = two_sphere_scene();
    let ray = Ray { position: p(0.0, 5.0, 5.0), direction: v(0.0, 0.0, -1.0) };
    assert!(intersect_scene_from_view(ray, &scene).is_none());
}

#[test]
fn view_query_equal_distances_keep_first() {
    let mut scene = empty_scene(1, 1);
    scene.shapes.0.push(ShapeType::Sphere(unit_sphere(p(0.0, 0.0, 0.0))));
    scene.shapes.0.push(ShapeType::Sphere(unit_sphere(p(0.0, 0.0, 0.0))));
    let ray = Ray { position: p(0.0, 0.0, 5.0), direction: v(0.0, 0.0, -1.0) };
    assert_eq!(intersect_scene_from_view(ray, &scene).unwrap().index, 0);
}

#[test]
fn shape_query_excludes_origin_primitive() {
    let scene = two_sphere_scene();
    let ray = Ray { position: p(0.0, 0.0, 5.0), direction: v(0.0, 0.0, -1.0) };
    let first = intersect_scene_from_view(ray, &scene).unwrap();
    let onward = Ray { position: first.coords, direction: v(0.0, 0.0, -1.0) };
    let next = intersect_scene_from_shape(onward, &scene, first).expect("the far sphere");
    assert_ne!(next.index, first.index);
    assert_eq!(next.index, 0);
    let mut alone = empty_scene(1, 1);
    alone.shapes.0.push(ShapeType::Sphere(unit_sphere(p(0.0, 0.0, 0.0))));
    let only = intersect_scene_from_view(ray, &alone).unwrap();
    let back = Ray { position: only.coords, direction: v(0.0, 0.0, -1.0) };
    assert!(intersect_scene_from_shape(back, &alone, only).is_none());
}

#[test]
fn shape_query_ignores_other_kinds() {
    let mut scene = two_sphere_scene();
    let mut t = unit_triangle();
    t.v0 = p(-5.0, -5.0, -2.0);
    t.v1 = p(5.0, -5.0, -2.0);
    t.v2 = p(0.0, 5.0, -2.0);
    scene.shapes.0.push(ShapeType::Triangle(t));
    let ray = Ray { position: p(0.0, 0.0, 5.0), direction: v(0.0, 0.0, -1.0) };
    let first = intersect_scene_from_view(ray, &scene).unwrap();
    let onward = Ray { position: first.coords, direction: v(0.0, 0.0, -1.0) };
    let next = intersect_scene_from_shape(onward, &scene, first).unwrap();
    assert_eq!(next.index, 0);
}

fn lit_sphere_scene(depth: usize) -> Scene {
    let mut scene = empty_scene(1, 1);
    scene.max_recurse_depth = depth;
    let mut s = unit_sphere(Point3::new_empty());
    s.material = diffuse_material(0.75, 0.5, 0.25);
    scene.shapes.0.push(ShapeType::Sphere(s));
    scene.lights.lights.push(LightType::Point(PointLight { position: p(0.0, 0.0, 5.0), color: v(1.0, 1.0, 1.0) }));
    scene
}

#[test]
fn end_to_end_single_lit_sphere() {
    let scene = lit_sphere_scene(0);
    let pixels = render(&scene);
    assert_eq!(pixels, vec![191, 127, 63]);
}

#[test]
fn no_geometry_renders_black() {
    let mut scene = empty_scene(3, 2);
    scene.lights.lights.push(LightType::Point(PointLight { position: p(0.0, 0.0, 5.0), color: v(1.0, 1.0, 1.0) }));
    let pixels = render(&scene);
    assert_eq!(pixels.len(), 18);
    assert!(pixels.iter().all(|&b| b == 0));
}

#[test]
fn render_misses_are_black_and_hits_are_not() {
    let mut scene = lit_sphere_scene(0);
    scene.img_width = 3;
    scene.img_height = 3;
    scene.camera.tan_half_fovy = f(1.0);
    let pixels = render(&scene);
    assert_eq!(pixels.len(), 27);
    assert_eq!(&pixels[0..3], &[0, 0, 0]);
    assert!(pixels[12] > 0);
}

#[test]
fn camera_ray_through_centre_pixel() {
    let scene = empty_scene(1, 1);
    let ray = make_ray(&scene, (0, 0));
    assert_eq!(ray.position, p(0.0, 0.0, 5.0));
    assert_eq!(ray.direction, v(0.0, 0.0, -1.0));
}

#[test]
fn camera_ray_offsets_follow_pixel_position() {
    let mut scene = empty_scene(2, 2);
    scene.camera.tan_half_fovy = f(1.0);
    let top_left = make_ray(&scene, (0, 0));
    assert!(val(top_left.direction.x) < 0.0);
    assert!(val(top_left.direction.y) > 0.0);
    let bottom_right = make_ray(&scene, (1, 1));
    assert!(val(bottom_right.direction.x) > 0.0);
    assert!(val(bottom_right.direction.y) < 0.0);
}

#[test]
fn point_light_in_shadow_gives_ambient_only() {
    let mut scene = empty_scene(1, 1);
    let mut s = unit_sphere(Point3::new_empty());
    s.material = diffuse_material(1.0, 1.0, 1.0);
    s.material.ambient = v(0.25, 0.25, 0.25);
    scene.shapes.0.push(ShapeType::Sphere(s));
    scene.shapes.0.push(ShapeType::Sphere(unit_sphere(p(0.0, 0.0, 4.0))));
    scene.lights.lights.push(LightType::Point(PointLight { position: p(0.0, 0.0, 8.0), color: v(1.0, 1.0, 1.0) }));
    let ray = Ray { position: p(0.0, 2.0, 2.0), direction: v(0.0, -1.0, -1.0).norm() };
    let hit = IntersectData { index: 0, coords: p(0.0, 0.0, 1.0), shape: scene.shapes.0[0] };
    let c = get_color(ray, &scene, hit, &scene.lights);
    assert_eq!(c, v(0.25, 0.25, 0.25));
}

#[test]
fn shadowed_light_keeps_earlier_contributions() {
    let mut scene = empty_scene(1, 1);
    let mut s = unit_sphere(Point3::new_empty());
    s.material = diffuse_material(0.5, 0.5, 0.5);
    scene.shapes.0.push(ShapeType::Sphere(s));
    scene.shapes.0.push(ShapeType::Sphere(unit_sphere(p(0.0, 0.0, 4.0))));
    scene.lights.lights.push(LightType::Directional(DirectionalLight { direction: v(0.0, 0.0, 1.0), color: v(1.0, 1.0, 1.0) }));
    scene.lights.lights.push(LightType::Point(PointLight { position: p(0.0, 0.0, 8.0), color: v(1.0, 1.0, 1.0) }));
    let ray = Ray { position: p(0.0, 0.0, 2.0), direction: v(0.0, 0.0, -1.0) };
    let hit = IntersectData { index: 0, coords: p(0.0, 0.0, 1.0), shape: scene.shapes.0[0] };
    let c = get_color(ray, &scene, hit, &scene.lights);
    assert_eq!(c, v(0.5, 0.5, 0.5));
}

#[test]
fn directional_light_with_specular_highlight() {
    let mut scene = empty_scene(1, 1);
    let mut s = unit_sphere(Point3::new_empty());
    s.material = diffuse_material(0.5, 0.0, 0.0);
    s.material.specular = v(0.0, 0.25, 0.0);
    s.material.shininess = 3;
    s.material.emission = v(0.0, 0.0, 0.125);
    scene.shapes.0.push(ShapeType::Sphere(s));
    scene.lights.lights.push(LightType::Directional(DirectionalLight { direction: v(0.0, 0.0, 2.0), color: v(1.0, 1.0, 1.0) }));
    let ray = Ray { position: p(0.0, 0.0, 5.0), direction: v(0.0, 0.0, -1.0) };
    let hit = IntersectData { index: 0, coords: p(0.0, 0.0, 1.0), shape: scene.shapes.0[0] };
    let c = get_color(ray, &scene, hit, &scene.lights);
    assert_eq!(c, v(0.5, 0.25, 0.125));
}

#[test]
fn point_light_attenuation_divides_intensity() {
    let mut scene = lit_sphere_scene(0);
    scene.lights.attenuation.quadratic = f(1.0);
    let ray = Ray { position: p(0.0, 0.0, 5.0), direction: v(0.0, 0.0, -1.0) };
    let hit = IntersectData { index: 0, coords: p(0.0, 0.0, 1.0), shape: scene.shapes.0[0] };
    let c = get_color(ray, &scene, hit, &scene.lights);
    assert!(close(c.x, 0.75 / 17.0, 1e-4));
    assert!(close(c.y, 0.5 / 17.0, 1e-4));
}

#[test]
fn recursion_beyond_bound_is_black() {
    let scene = lit_sphere_scene(2);
    let ray = Ray { position: p(0.0, 0.0, 5.0), direction: v(0.0, 0.0, -1.0) };
    let hit = intersect_scene_from_view(ray, &scene).unwrap();
    assert_eq!(get_color_recursive(ray, &scene, hit, 3), Vector3::new_empty());
    assert_ne!(get_color_recursive(ray, &scene, hit, 2), Vector3::new_empty());
}

fn mirror_scene(depth: usize) -> Scene {
    let mut scene = empty_scene(1, 1);
    scene.max_recurse_depth = depth;
    let mut mirror = Material::new();
    mirror.specular = v(0.5, 0.5, 0.5);
    mirror.diffuse = v(0.25, 0.25, 0.25);
    let mut a = unit_sphere(p(-1.5, 0.0, 0.0));
    a.material = mirror;
    let mut b = unit_sphere(p(1.5, 0.0, 0.0));
    b.material = mirror;
    scene.shapes.0.push(ShapeType::Sphere(a));
    scene.shapes.0.push(ShapeType::Sphere(b));
    scene.lights.lights.push(LightType::Point(PointLight { position: p(0.0, 3.0, 0.0), color: v(1.0, 1.0, 1.0) }));
    scene
}

#[test]
fn facing_mirrors_terminate_at_every_bound() {
    let ray = Ray { position: p(0.0, 0.0, 0.0), direction: v(-1.0, 0.0, 0.0) };
    for depth in [0usize, 1, 5, 40] {
        let scene = mirror_scene(depth);
        let hit = intersect_scene_from_view(ray, &scene).expect("the left mirror");
        let c = get_color_recursive(ray, &scene, hit, 0);
        assert!(val(c.x) >= 0.0);
    }
}

#[test]
fn reflection_adds_to_local_shading() {
    let ray = Ray { position: p(0.0, 0.0, 0.0), direction: v(-1.0, 0.0, 0.0) };
    let scene = mirror_scene(1);
    let hit = intersect_scene_from_view(ray, &scene).unwrap();
    let local = get_color(ray, &scene, hit, &scene.lights);
    let traced = get_color_recursive(ray, &scene, hit, 0);
    assert!(traced.x.raw >= local.x.raw);
}

#[test]
fn fresh_values() {
    let scene = Scene::new();
    assert_eq!(scene.max_recurse_depth, 5);
    assert_eq!(scene.lights.attenuation.constant, f(1.0));
    assert!(scene.shapes.0.is_empty());
    let m = Material::new();
    assert_eq!(m.ambient, Vector3::new_with_value(Fixed::from_raw(209715)));
    assert_eq!(LightStack::new().lights.len(), 0);
    assert_eq!(IntersectData::new().shape, ShapeType::Empty);
    assert_eq!(Ray::new().direction, Vector3::new_empty());
    assert_eq!(Ray::from_origin(&v(1.0, 0.0, 0.0)).position, Point3::new_empty());
    assert_eq!(Ray::no_direction(&p(1.0, 0.0, 0.0)).direction, Vector3::new_empty());
    assert_eq!(Point3::new_with_value(f(2.0)), p(2.0, 2.0, 2.0));
    assert_eq!(Camera::new().tan_half_fovy, f(0.0));
}

#[test]
fn short_vectors_normalize_to_unit_length() {
    let n = Vector3::new(Fixed::from_raw(1100), Fixed::from_raw(0), Fixed::from_raw(0)).norm();
    assert_eq!(n, v(1.0, 0.0, 0.0));
    let d = Vector3::new(Fixed::from_raw(3), Fixed::from_raw(4), Fixed::from_raw(0)).norm();
    assert!(close(d.x, 0.6, 1e-5) && close(d.y, 0.8, 1e-5));
    assert!(close(d.len(), 1.0, 4e-6));
}

#[test]
fn short_normal_is_renormalized_through_transform() {
    let n = Matrix4::identity().mat_invtf_norm_vec3(&Vector3::new(Fixed::from_raw(500), Fixed::from_raw(0), Fixed::from_raw(0)));
    assert_eq!(n, v(1.0, 0.0, 0.0));
}

#[test]
fn rotation_about_non_unit_axis() {
    let r = Matrix4::new_rotate(&v(0.0, 0.0, 2.0), f(0.0), f(1.0));
    assert_eq!(r.mul_vec(&v(1.0, 0.0, 0.0)), v(0.0, 1.0, 0.0));
    assert_eq!(r.mul_vec(&v(0.0, 0.0, 1.0)), v(0.0, 0.0, 1.0));
}

#[test]
fn division_by_scalar() {
    assert_eq!(v(1.0, -2.0, 3.0).div(f(2.0)), v(0.5, -1.0, 1.5));
    assert_eq!(p(1.0, -2.0, 3.0).div(f(4.0)), p(0.25, -0.5, 0.75));
    assert_eq!(Matrix4::new_scale(f(2.0), f(4.0), f(8.0)).div(f(2.0)).get(2, 2), f(4.0));
    assert_eq!(v(1.0, 1.0, 1.0).div(f(0.0)), Vector3::new_empty());
}

#[test]
fn small_triangle_is_hit() {
    let mut t = unit_triangle();
    t.v1 = p(0.03, 0.0, 0.0);
    t.v2 = p(0.0, 0.03, 0.0);
    let ray = Ray { position: p(0.01, 0.01, 3.0), direction: v(0.0, 0.0, -1.0) };
    let hit = t.intersect(&ray).expect("a ray through the small triangle");
    assert!(close_point(&hit.coords, 0.01, 0.01, 0.0, 1e-5));
}

#[test]
fn end_to_end_decimal_diffuse_colour() {
    let mut scene = empty_scene(1, 1);
    scene.max_recurse_depth = 0;
    scene.camera.eye = v(0.0, 0.0, 10.0);
    let mut s = unit_sphere(Point3::new_empty());
    s.material = diffuse_material(0.0, 0.0, 0.0);
    s.material.diffuse = Vector3::new(fc(0.8), fc(0.4), fc(0.2));
    s.material.shininess = 1;
    scene.shapes.0.push(ShapeType::Sphere(s));
    scene.lights.lights.push(LightType::Point(PointLight { position: p(0.0, 0.0, 5.0), color: v(1.0, 1.0, 1.0) }));
    assert_eq!(render(&scene), vec![204, 102, 51]);
}

#[test]
fn channel_byte_is_plain_truncation() {
    assert_eq!(Fixed::from_raw(4112).to_channel(), 0);
    assert_eq!(Fixed::from_raw(4113).to_channel(), 1);
    assert_eq!(f(0.4).to_channel(), 101);
    assert_eq!(fc(0.4).to_channel(), 102);
}

#[test]
fn dim_ambient_sphere_renders_black() {
    let mut scene = empty_scene(1, 1);
    scene.max_recurse_depth = 0;
    let mut s = unit_sphere(Point3::new_empty());
    s.material = diffuse_material(0.0, 0.0, 0.0);
    s.material.ambient = Vector3::new(Fixed::from_raw(4112), f(0.0), f(0.0));
    scene.shapes.0.push(ShapeType::Sphere(s));
    assert_eq!(render(&scene), vec![0, 0, 0]);
}
