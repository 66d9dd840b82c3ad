use raytracer::fixed::{Fixed, ONE_RAW};
use raytracer::loader::{Command, LoadError, SceneBuilder};
use raytracer::matrix::Matrix4;
use raytracer::render::render;
use raytracer::scene::{Camera, LightType, PointLight, ShapeType};
use raytracer::vector::{Point3, Vector3};

fn f(x: f64) -> Fixed {
    Fixed::from_raw((x * ONE_RAW as f64).round() as i64)
}

fn p(x: f64, y: f64, z: f64) -> Point3 {
    Point3::new(f(x), f(y), f(z))
}

fn v(x: f64, y: f64, z: f64) -> Vector3 {
    Vector3::new(f(x), f(y), f(z))
}

#[test]
fn shapes_snapshot_current_transform_and_material() {
    let mut b = SceneBuilder::new();
    b.apply(Command::Diffuse(v(0.5, 0.5, 0.5))).unwrap();
    b.apply(Command::PushTransform).unwrap();
    b.apply(Command::Translate(f(1.0), f(2.0), f(3.0))).unwrap();
    b.apply(Command::Sphere(p(0.0, 0.0, 0.0), f(1.0))).unwrap();
    b.apply(Command::PopTransform).unwrap();
    b.apply(Command::Diffuse(v(0.25, 0.25, 0.25))).unwrap();
    b.apply(Command::Sphere(p(0.0, 0.0, 0.0), f(2.0))).unwrap();
    let scene = b.finish();
    match (&scene.shapes.0[0], &scene.shapes.0[1]) {
        (ShapeType::Sphere(first), ShapeType::Sphere(second)) => {
            assert_eq!(first.transform, Matrix4::new_translate(f(1.0), f(2.0), f(3.0)));
            assert_eq!(first.material.diffuse, v(0.5, 0.5, 0.5));
            assert_eq!(second.transform, Matrix4::identity());
            assert_eq!(second.material.diffuse, v(0.25, 0.25, 0.25));
            assert_eq!(second.radius, f(2.0));
        }
        _ => panic!("two spheres expected"),
    }
}

#[test]
fn transforms_compose_by_right_multiplication() {
    let mut b = SceneBuilder::new();
    b.apply(Command::Translate(f(1.0), f(0.0), f(0.0))).unwrap();
    b.apply(Command::Scale(f(2.0), f(2.0), f(2.0))).unwrap();
    let expected = Matrix4::new_translate(f(1.0), f(0.0), f(0.0)).mul(&Matrix4::new_scale(f(2.0), f(2.0), f(2.0)));
    assert_eq!(b.top(), expected);
    assert_eq!(b.top().mul_point(&p(1.0, 0.0, 0.0)), p(3.0, 0.0, 0.0));
}

#[test]
fn rotate_command_uses_given_cosine_and_sine() {
    let mut b = SceneBuilder::new();
    b.apply(Command::Rotate(v(0.0, 0.0, 1.0), f(0.0), f(1.0))).unwrap();
    assert_eq!(b.top().mul_vec(&v(1.0, 0.0, 0.0)), v(0.0, 1.0, 0.0));
}

#[test]
fn pop_never_removes_base_transform() {
    let mut b = SceneBuilder::new();
    b.apply(Command::PopTransform).unwrap();
    b.apply(Command::PopTransform).unwrap();
    assert_eq!(b.transf_stack.len(), 1);
    assert_eq!(b.top(), Matrix4::identity());
    b.apply(Command::PushTransform).unwrap();
    assert_eq!(b.transf_stack.len(), 2);
}

#[test]
fn triangle_takes_declared_vertices() {
    let mut b = SceneBuilder::new();
    b.apply(Command::Vertex(p(0.0, 0.0, 0.0))).unwrap();
    b.apply(Command::Vertex(p(1.0, 0.0, 0.0))).unwrap();
    b.apply(Command::Vertex(p(0.0, 1.0, 0.0))).unwrap();
    b.apply(Command::Tri(Some(2), Some(1), None)).unwrap();
    match b.scene.shapes.0[0] {
        ShapeType::Triangle(t) => {
            assert_eq!(t.v0, p(0.0, 1.0, 0.0));
            assert_eq!(t.v1, p(1.0, 0.0, 0.0));
            assert_eq!(t.v2, Point3::new_empty());
        }
        _ => panic!("a triangle expected"),
    }
}

#[test]
fn triangle_on_undeclared_vertex_is_refused() {
    let mut b = SceneBuilder::new();
    b.apply(Command::Vertex(p(0.0, 0.0, 0.0))).unwrap();
    assert_eq!(b.apply(Command::Tri(Some(0), Some(3), Some(0))), Err(LoadError::VertexIndex(3)));
    assert!(b.scene.shapes.0.is_empty());
}

#[test]
fn settings_commands_update_scene() {
    let mut b = SceneBuilder::new();
    b.apply(Command::Size(4, 3)).unwrap();
    b.apply(Command::MaxDepth(2)).unwrap();
    b.apply(Command::Shininess(20)).unwrap();
    b.apply(Command::Ambient(v(0.0, 0.0, 0.0))).unwrap();
    b.apply(Command::Specular(v(0.5, 0.5, 0.5))).unwrap();
    b.apply(Command::Emission(v(0.125, 0.0, 0.0))).unwrap();
    let mut att = b.scene.lights.attenuation;
    att.linear = f(0.5);
    b.apply(Command::Attenuation(att)).unwrap();
    b.apply(Command::Point(PointLight { position: p(0.0, 0.0, 5.0), color: v(1.0, 1.0, 1.0) })).unwrap();
    assert_eq!(b.scene.img_width, 4);
    assert_eq!(b.scene.img_height, 3);
    assert_eq!(b.scene.max_recurse_depth, 2);
    assert_eq!(b.current_material.shininess, 20);
    assert_eq!(b.current_material.emission, v(0.125, 0.0, 0.0));
    assert_eq!(b.scene.lights.attenuation.linear, f(0.5));
    assert!(matches!(b.scene.lights.lights[0], LightType::Point(_)));
}

#[test]
fn built_scene_renders() {
    let mut b = SceneBuilder::new();
    b.apply(Command::Size(1, 1)).unwrap();
    b.apply(Command::MaxDepth(0)).unwrap();
    b.apply(Command::Camera(Camera {
        eye: v(0.0, 0.0, 5.0),
        center: v(0.0, 0.0, 0.0),
        up: v(0.0, 1.0, 0.0),
        tan_half_fovy: f(0.5),
    }))
    .unwrap();
    b.apply(Command::Ambient(v(0.0, 0.0, 0.0))).unwrap();
    b.apply(Command::Diffuse(v(0.5, 0.25, 0.75))).unwrap();
    b.apply(Command::Sphere(p(0.0, 0.0, 0.0), f(1.0))).unwrap();
    b.apply(Command::Point(PointLight { position: p(0.0, 0.0, 5.0), color: v(1.0, 1.0, 1.0) })).unwrap();
    assert_eq!(render(&b.finish()), vec![127, 63, 191]);
}
