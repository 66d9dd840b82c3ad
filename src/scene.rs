use vstd::prelude::*;

use crate::fixed::{fx, Fixed, ONE_RAW};
use crate::matrix::{identity, Matrix4};
use crate::vector::{origin, vec3, zero_vec, Point3, RGBColor, Vector3};

verus! {

/// Ambient reflectance of a fresh material in every channel: 0.2 in raw units.
pub const DEFAULT_AMBIENT_RAW: i64 = 209715;

/// Surface reflectance. Components lie in `[0, 1]` by convention; nothing enforces it.
#[derive(Clone, Copy, Debug, PartialEq, Eq, Structural)]
pub struct Material {
    pub ambient: RGBColor,
    pub diffuse: RGBColor,
    pub specular: RGBColor,
    pub emission: RGBColor,
    /// Exponent of the specular highlight, a whole number: the highlight is
    /// `max(0, N.H)` multiplied by itself this many times. A scene file's fractional
    /// exponent is rounded to the nearest whole number when it is read.
    pub shininess: u32,
}

pub open spec fn default_material() -> Material {
    let a = fx(DEFAULT_AMBIENT_RAW as int);
    Material {
        ambient: vec3(a, a, a),
        diffuse: zero_vec(),
        specular: zero_vec(),
        emission: zero_vec(),
        shininess: 0,
    }
}

impl Material {
    pub fn new() -> (r: Material)
        ensures
            r == default_material(),
    {
        Material {
            ambient: Vector3::new_with_value(Fixed::from_raw(DEFAULT_AMBIENT_RAW)),
            diffuse: Vector3::new_empty(),
            specular: Vector3::new_empty(),
            emission: Vector3::new_empty(),
            shininess: 0,
        }
    }
}

/// A triangle given by its vertices in object space.
#[derive(Clone, Copy, Debug, PartialEq, Eq, Structural)]
pub struct Triangle {
    pub v0: Point3,
    pub v1: Point3,
    pub v2: Point3,
    /// Object-to-world transform, a snapshot taken when the shape was made.
    pub transform: Matrix4,
    pub material: Material,
}

/// A sphere in object space.
#[derive(Clone, Copy, Debug, PartialEq, Eq, Structural)]
pub struct Sphere {
    pub radius: Fixed,
    pub center: Point3,
    /// Object-to-world transform, a snapshot taken when the shape was made.
    pub transform: Matrix4,
    pub material: Material,
}

#[derive(Clone, Copy, Debug, PartialEq, Eq, Structural)]
pub enum ShapeType {
    Triangle(Triangle),
    Sphere(Sphere),
    Empty,
}

impl Sphere {
    /// A sphere of radius zero at the origin with the identity transform.
    pub fn new() -> (r: Sphere)
        ensures
            r == (Sphere {
                radius: fx(0),
                center: origin(),
                transform: identity(),
                material: default_material(),
            }),
    {
        Sphere {
            radius: Fixed::from_raw(0),
            center: Point3::new_empty(),
            transform: Matrix4::identity(),
            material: Material::new(),
        }
    }
}

impl Triangle {
    /// A triangle with all vertices at the origin and the identity transform.
    pub fn new() -> (r: Triangle)
        ensures
            r == (Triangle {
                v0: origin(),
                v1: origin(),
                v2: origin(),
                transform: identity(),
                material: default_material(),
            }),
    {
        Triangle {
            v0: Point3::new_empty(),
            v1: Point3::new_empty(),
            v2: Point3::new_empty(),
            transform: Matrix4::identity(),
            material: Material::new(),
        }
    }
}

/// The vertices declared so far while a scene is being read.
#[derive(Clone, Debug)]
pub struct VertexStack(pub Vec<Point3>);

/// The primitives of a scene, in scene order.
#[derive(Clone, Debug)]
pub struct Shapes(pub Vec<ShapeType>);

impl VertexStack {
    pub fn new() -> (r: VertexStack)
        ensures
            r.0@.len() == 0,
    {
        VertexStack(Vec::new())
    }
}

impl Shapes {
    pub fn new() -> (r: Shapes)
        ensures
            r.0@.len() == 0,
    {
        Shapes(Vec::new())
    }
}

#[derive(Clone, Copy, Debug, PartialEq, Eq, Structural)]
pub struct DirectionalLight {
    pub direction: Vector3,
    pub color: RGBColor,
}

#[derive(Clone, Copy, Debug, PartialEq, Eq, Structural)]
pub struct PointLight {
    pub position: Point3,
    pub color: RGBColor,
}

#[derive(Clone, Copy, Debug, PartialEq, Eq, Structural)]
pub enum LightType {
    Directional(DirectionalLight),
    Point(PointLight),
}

/// Point-light intensity is divided by `constant + linear * d + quadratic * d^2`.
#[derive(Clone, Copy, Debug, PartialEq, Eq, Structural)]
pub struct Attenuation {
    pub constant: Fixed,
    pub linear: Fixed,
    pub quadratic: Fixed,
}

/// The lights of a scene with the attenuation that applies to its point lights.
#[derive(Clone, Debug)]
pub struct LightStack {
    pub attenuation: Attenuation,
    pub lights: Vec<LightType>,
}

pub open spec fn no_falloff() -> Attenuation {
    Attenuation { constant: fx(ONE_RAW as int), linear: fx(0), quadratic: fx(0) }
}

impl LightStack {
    /// No lights, and attenuation `(1, 0, 0)`: no falloff.
    pub fn new() -> (r: LightStack)
        ensures
            r.attenuation == no_falloff(),
            r.lights@.len() == 0,
    {
        LightStack {
            attenuation: Attenuation {
                constant: Fixed::from_raw(ONE_RAW),
                linear: Fixed::from_raw(0),
                quadratic: Fixed::from_raw(0),
            },
            lights: Vec::new(),
        }
    }
}

/// The viewpoint. The caller supplies the tangent of half the vertical field of view.
#[derive(Clone, Copy, Debug, PartialEq, Eq, Structural)]
pub struct Camera {
    pub eye: Vector3,
    pub center: Vector3,
    pub up: Vector3,
    pub tan_half_fovy: Fixed,
}

impl Camera {
    pub fn new() -> (r: Camera)
        ensures
            r == (Camera {
                eye: zero_vec(),
                center: zero_vec(),
                up: zero_vec(),
                tan_half_fovy: fx(0),
            }),
    {
        Camera {
            eye: Vector3::new_empty(),
            center: Vector3::new_empty(),
            up: Vector3::new_empty(),
            tan_half_fovy: Fixed::from_raw(0),
        }
    }
}

/// A hit: the scene index of the primitive, the world-space point and a copy of the shape.
#[derive(Clone, Copy, Debug, PartialEq, Eq, Structural)]
pub struct IntersectData {
    pub index: usize,
    pub coords: Point3,
    pub shape: ShapeType,
}

impl IntersectData {
    pub fn new() -> (r: IntersectData)
        ensures
            r == (IntersectData { index: 0, coords: origin(), shape: ShapeType::Empty }),
    {
        IntersectData { index: 0, coords: Point3::new_empty(), shape: ShapeType::Empty }
    }
}

/// Everything a render needs; read-only while rendering.
#[derive(Clone, Debug)]
pub struct Scene {
    pub img_width: usize,
    pub img_height: usize,
    pub max_recurse_depth: usize,
    pub camera: Camera,
    pub shapes: Shapes,
    pub vertices: VertexStack,
    pub lights: LightStack,
}

/// Recursion bound of a fresh scene.
pub const DEFAULT_MAX_DEPTH: usize = 5;

impl Scene {
    /// An empty 0x0 scene with recursion bound 5 and no falloff.
    pub fn new() -> (r: Scene)
        ensures
            r.img_width == 0,
            r.img_height == 0,
            r.max_recurse_depth == DEFAULT_MAX_DEPTH,
            r.camera == (Camera {
                eye: zero_vec(),
                center: zero_vec(),
                up: zero_vec(),
                tan_half_fovy: fx(0),
            }),
            r.shapes.0@.len() == 0,
            r.vertices.0@.len() == 0,
            r.lights.lights@.len() == 0,
            r.lights.attenuation == no_falloff(),
    {
        Scene {
            img_width: 0,
            img_height: 0,
            max_recurse_depth: DEFAULT_MAX_DEPTH,
            camera: Camera::new(),
            shapes: Shapes::new(),
            vertices: VertexStack::new(),
            lights: LightStack::new(),
        }
    }
}

} // verus!
