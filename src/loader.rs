use vstd::prelude::*;

use crate::fixed::{fx, Fixed, ONE_RAW};
use crate::matrix::{identity, m_mul, mat4, rotation, row4, Matrix4};
use crate::scene::{
    default_material, Attenuation, Camera, DirectionalLight, LightType, Material, PointLight,
    Scene, ShapeType, Sphere, Triangle,
};
use crate::vector::{origin, Point3, RGBColor, Vector3};

verus! {

/// One scene-description command, with its arguments already read.
#[derive(Clone, Copy, Debug)]
pub enum Command {
    Size(usize, usize),
    MaxDepth(usize),
    Camera(Camera),
    Directional(DirectionalLight),
    Point(PointLight),
    Attenuation(Attenuation),
    Ambient(RGBColor),
    Diffuse(RGBColor),
    Specular(RGBColor),
    Emission(RGBColor),
    Shininess(u32),
    Vertex(Point3),
    /// A triangle on three declared vertices; an index that could not be read
    /// leaves that corner at the origin.
    Tri(Option<usize>, Option<usize>, Option<usize>),
    /// A sphere with the given centre and radius.
    Sphere(Point3, Fixed),
    Scale(Fixed, Fixed, Fixed),
    Translate(Fixed, Fixed, Fixed),
    /// Rotation about an axis by the angle with the given cosine and sine.
    Rotate(Vector3, Fixed, Fixed),
    PushTransform,
    PopTransform,
}

#[derive(Clone, Copy, Debug, PartialEq, Eq, Structural)]
pub enum LoadError {
    /// A triangle named a vertex that has not been declared.
    VertexIndex(usize),
}

/// The state of a scene under construction, as values.
pub struct BuildState {
    pub img_width: usize,
    pub img_height: usize,
    pub max_recurse_depth: usize,
    pub camera: Camera,
    pub shapes: Seq<ShapeType>,
    pub vertices: Seq<Point3>,
    pub lights: Seq<LightType>,
    pub attenuation: Attenuation,
    /// The transform stack; its last entry is the current transform.
    pub stack: Seq<Matrix4>,
    pub material: Material,
}

/// Reads a scene description command by command. Shapes take a snapshot of the
/// current transform and material when they are declared.
pub struct SceneBuilder {
    pub transf_stack: Vec<Matrix4>,
    pub current_material: Material,
    pub scene: Scene,
}

impl View for SceneBuilder {
    type V = BuildState;

    open spec fn view(&self) -> BuildState {
        BuildState {
            img_width: self.scene.img_width,
            img_height: self.scene.img_height,
            max_recurse_depth: self.scene.max_recurse_depth,
            camera: self.scene.camera,
            shapes: self.scene.shapes.0@,
            vertices: self.scene.vertices.0@,
            lights: self.scene.lights.lights@,
            attenuation: self.scene.lights.attenuation,
            stack: self.transf_stack@,
            material: self.current_material,
        }
    }
}

pub open spec fn corner(s: BuildState, idx: Option<usize>) -> Point3 {
    match idx {
        Some(i) => s.vertices[i as int],
        None => origin(),
    }
}

pub open spec fn valid_corner(s: BuildState, idx: Option<usize>) -> bool {
    match idx {
        Some(i) => i < s.vertices.len(),
        None => true,
    }
}

/// The stack with its top replaced by `top * m`.
pub open spec fn right_mul_top(stack: Seq<Matrix4>, m: Matrix4) -> Seq<Matrix4> {
    stack.update(stack.len() - 1, m_mul(stack.last(), m))
}

pub open spec fn translation(dx: Fixed, dy: Fixed, dz: Fixed) -> Matrix4 {
    let o = fx(ONE_RAW as int);
    let z = fx(0);
    mat4(row4(o, z, z, dx), row4(z, o, z, dy), row4(z, z, o, dz), row4(z, z, z, o))
}

pub open spec fn scaling(sx: Fixed, sy: Fixed, sz: Fixed) -> Matrix4 {
    let o = fx(ONE_RAW as int);
    let z = fx(0);
    mat4(row4(sx, z, z, z), row4(z, sy, z, z), row4(z, z, sz, z), row4(z, z, z, o))
}

/// Whether `cmd` can be applied: a triangle must name declared vertices.
pub open spec fn accepts(s: BuildState, cmd: Command) -> bool {
    match cmd {
        Command::Tri(i, j, k) => valid_corner(s, i) && valid_corner(s, j) && valid_corner(s, k),
        _ => true,
    }
}

/// The state after `cmd`. The transform stack never loses its base entry.
pub open spec fn step(s: BuildState, cmd: Command) -> BuildState {
    match cmd {
        Command::Size(w, h) => BuildState { img_width: w, img_height: h, ..s },
        Command::MaxDepth(d) => BuildState { max_recurse_depth: d, ..s },
        Command::Camera(c) => BuildState { camera: c, ..s },
        Command::Directional(d) => BuildState { lights: s.lights.push(LightType::Directional(d)), ..s },
        Command::Point(p) => BuildState { lights: s.lights.push(LightType::Point(p)), ..s },
        Command::Attenuation(a) => BuildState { attenuation: a, ..s },
        Command::Ambient(c) => BuildState { material: Material { ambient: c, ..s.material }, ..s },
        Command::Diffuse(c) => BuildState { material: Material { diffuse: c, ..s.material }, ..s },
        Command::Specular(c) => BuildState { material: Material { specular: c, ..s.material }, ..s },
        Command::Emission(c) => BuildState { material: Material { emission: c, ..s.material }, ..s },
        Command::Shininess(n) => BuildState { material: Material { shininess: n, ..s.material }, ..s },
        Command::Vertex(p) => BuildState { vertices: s.vertices.push(p), ..s },
        Command::Tri(i, j, k) => BuildState {
            shapes: s.shapes.push(
                ShapeType::Triangle(
                    Triangle {
                        v0: corner(s, i),
                        v1: corner(s, j),
                        v2: corner(s, k),
                        transform: s.stack.last(),
                        material: s.material,
                    },
                ),
            ),
            ..s
        },
        Command::Sphere(c, r) => BuildState {
            shapes: s.shapes.push(
                ShapeType::Sphere(
                    Sphere { radius: r, center: c, transform: s.stack.last(), material: s.material },
                ),
            ),
            ..s
        },
        Command::Scale(x, y, z) => BuildState { stack: right_mul_top(s.stack, scaling(x, y, z)), ..s },
        Command::Translate(x, y, z) => BuildState {
            stack: right_mul_top(s.stack, translation(x, y, z)),
            ..s
        },
        Command::Rotate(axis, c, si) => BuildState {
            stack: right_mul_top(s.stack, rotation(axis, c, si)),
            ..s
        },
        Command::PushTransform => BuildState { stack: s.stack.push(s.stack.last()), ..s },
        Command::PopTransform => if s.stack.len() > 1 {
            BuildState { stack: s.stack.drop_last(), ..s }
        } else {
            s
        },
    }
}

impl SceneBuilder {
    pub open spec fn wf(&self) -> bool {
        self.transf_stack@.len() >= 1
    }

    /// An empty scene, the identity as the only transform, the default material.
    pub fn new() -> (r: SceneBuilder)
        ensures
            r.wf(),
            r@.stack == seq![identity()],
            r@.material == default_material(),
            r@.shapes.len() == 0,
            r@.vertices.len() == 0,
            r@.lights.len() == 0,
            r.scene.max_recurse_depth == crate::scene::DEFAULT_MAX_DEPTH,
    {
        let mut transf_stack: Vec<Matrix4> = Vec::new();
        transf_stack.push(Matrix4::identity());
        SceneBuilder { transf_stack, current_material: Material::new(), scene: Scene::new() }
    }

    /// The current transform.
    pub fn top(&self) -> (r: Matrix4)
        requires
            self.wf(),
        ensures
            r == self@.stack.last(),
    {
        self.transf_stack[self.transf_stack.len() - 1]
    }

    fn right_mul(&mut self, m: &Matrix4)
        requires
            old(self).wf(),
        ensures
            final(self).wf(),
            final(self)@ == (BuildState { stack: right_mul_top(old(self)@.stack, *m), ..old(self)@ }),
    {
        let last = self.transf_stack.len() - 1;
        let t = self.transf_stack[last].mul(m);
        self.transf_stack.set(last, t);
    }

    fn corner(&self, idx: Option<usize>) -> (r: Result<Point3, LoadError>)
        ensures
            r matches Ok(p) ==> valid_corner(self@, idx) && p == corner(self@, idx),
            r is Err ==> !valid_corner(self@, idx),
    {
        match idx {
            Some(i) => if i < self.scene.vertices.0.len() {
                Ok(self.scene.vertices.0[i])
            } else {
                Err(LoadError::VertexIndex(i))
            },
            None => Ok(Point3::new_empty()),
        }
    }

    /// Applies one command. A triangle on an undeclared vertex is refused and
    /// changes nothing.
    pub fn apply(&mut self, cmd: Command) -> (r: Result<(), LoadError>)
        requires
            old(self).wf(),
        ensures
            final(self).wf(),
            r is Ok <==> accepts(old(self)@, cmd),
            r is Ok ==> final(self)@ == step(old(self)@, cmd),
            r is Err ==> final(self)@ == old(self)@,
    {
        match cmd {
            Command::Size(w, h) => {
                self.scene.img_width = w;
                self.scene.img_height = h;
            },
            Command::MaxDepth(d) => {
                self.scene.max_recurse_depth = d;
            },
            Command::Camera(c) => {
                self.scene.camera = c;
            },
            Command::Directional(d) => {
                self.scene.lights.lights.push(LightType::Directional(d));
            },
            Command::Point(p) => {
                self.scene.lights.lights.push(LightType::Point(p));
            },
            Command::Attenuation(a) => {
                self.scene.lights.attenuation = a;
            },
            Command::Ambient(c) => {
                self.current_material.ambient = c;
            },
            Command::Diffuse(c) => {
                self.current_material.diffuse = c;
            },
            Command::Specular(c) => {
                self.current_material.specular = c;
            },
            Command::Emission(c) => {
                self.current_material.emission = c;
            },
            Command::Shininess(n) => {
                self.current_material.shininess = n;
            },
            Command::Vertex(p) => {
                self.scene.vertices.0.push(p);
            },
            Command::Tri(i, j, k) => {
                let v0 = match self.corner(i) {
                    Ok(p) => p,
                    Err(e) => return Err(e),
                };
                let v1 = match self.corner(j) {
                    Ok(p) => p,
                    Err(e) => return Err(e),
                };
                let v2 = match self.corner(k) {
                    Ok(p) => p,
                    Err(e) => return Err(e),
                };
                let tri = Triangle {
                    v0,
                    v1,
                    v2,
                    transform: self.top(),
                    material: self.current_material,
                };
                self.scene.shapes.0.push(ShapeType::Triangle(tri));
            },
            Command::Sphere(c, r) => {
                let sphere = Sphere {
                    radius: r,
                    center: c,
                    transform: self.top(),
                    material: self.current_material,
                };
                self.scene.shapes.0.push(ShapeType::Sphere(sphere));
            },
            Command::Scale(x, y, z) => {
                self.right_mul(&Matrix4::new_scale(x, y, z));
            },
            Command::Translate(x, y, z) => {
                self.right_mul(&Matrix4::new_translate(x, y, z));
            },
            Command::Rotate(axis, c, s) => {
                self.right_mul(&Matrix4::new_rotate(&axis, c, s));
            },
            Command::PushTransform => {
                let t = self.top();
                self.transf_stack.push(t);
            },
            Command::PopTransform => {
                if self.transf_stack.len() > 1 {
                    self.transf_stack.pop();
                }
            },
        }
        proof {
            assert(self@.stack =~= step(old(self)@, cmd).stack);
            assert(self@.shapes =~= step(old(self)@, cmd).shapes);
            assert(self@.vertices =~= step(old(self)@, cmd).vertices);
            assert(self@.lights =~= step(old(self)@, cmd).lights);
        }
        Ok(())
    }

    /// The finished scene.
    pub fn finish(self) -> (r: Scene)
        ensures
            r == self.scene,
    {
        self.scene
    }
}

/// Pushing and then popping the transform stack restores it.
pub proof fn lemma_push_pop(s: BuildState)
    requires
        s.stack.len() >= 1,
    ensures
        step(step(s, Command::PushTransform), Command::PopTransform) == s,
{
    assert(s.stack.push(s.stack.last()).drop_last() =~= s.stack);
}

} // verus!
