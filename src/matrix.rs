use vstd::prelude::*;

use crate::fixed::{fx, fx_abs, fx_add, fx_div, fx_mul, fx_sub, Fixed, ONE_RAW};
use crate::vector::{
    is_unit, p_sub_v, sq_len, v_cross, v_dot, v_norm, vec3, zero_vec, Point3, Ray, Vector3, origin,
};

verus! {

/// One row of a 4x4 matrix.
#[derive(Clone, Copy, Debug, PartialEq, Eq, Structural)]
pub struct Row4 {
    pub c0: Fixed,
    pub c1: Fixed,
    pub c2: Fixed,
    pub c3: Fixed,
}

/// A 4x4 matrix in homogeneous coordinates, stored by rows.
#[derive(Clone, Copy, Debug, PartialEq, Eq, Structural)]
pub struct Matrix4 {
    pub r0: Row4,
    pub r1: Row4,
    pub r2: Row4,
    pub r3: Row4,
}

pub open spec fn row4(c0: Fixed, c1: Fixed, c2: Fixed, c3: Fixed) -> Row4 {
    Row4 { c0, c1, c2, c3 }
}

pub open spec fn mat4(r0: Row4, r1: Row4, r2: Row4, r3: Row4) -> Matrix4 {
    Matrix4 { r0, r1, r2, r3 }
}

impl Row4 {
    pub open spec fn col(self, j: int) -> Fixed {
        if j == 0 {
            self.c0
        } else if j == 1 {
            self.c1
        } else if j == 2 {
            self.c2
        } else {
            self.c3
        }
    }
}

impl Matrix4 {
    pub open spec fn row(self, i: int) -> Row4 {
        if i == 0 {
            self.r0
        } else if i == 1 {
            self.r1
        } else if i == 2 {
            self.r2
        } else {
            self.r3
        }
    }

    /// The entry in row `i` and column `j`.
    pub open spec fn at(self, i: int, j: int) -> Fixed {
        self.row(i).col(j)
    }

    /// Column `j` of the upper 3x3 block (for `j == 3`: the translation).
    pub open spec fn column3(self, j: int) -> Vector3 {
        vec3(self.at(0, j), self.at(1, j), self.at(2, j))
    }
}

pub open spec fn identity() -> Matrix4 {
    let o = fx(ONE_RAW as int);
    let z = fx(0);
    mat4(row4(o, z, z, z), row4(z, o, z, z), row4(z, z, o, z), row4(z, z, z, o))
}

pub open spec fn row_add(a: Row4, b: Row4) -> Row4 {
    row4(fx_add(a.c0, b.c0), fx_add(a.c1, b.c1), fx_add(a.c2, b.c2), fx_add(a.c3, b.c3))
}

pub open spec fn row_sub(a: Row4, b: Row4) -> Row4 {
    row4(fx_sub(a.c0, b.c0), fx_sub(a.c1, b.c1), fx_sub(a.c2, b.c2), fx_sub(a.c3, b.c3))
}

pub open spec fn row_scale(a: Row4, s: Fixed) -> Row4 {
    row4(fx_mul(a.c0, s), fx_mul(a.c1, s), fx_mul(a.c2, s), fx_mul(a.c3, s))
}

pub open spec fn m_add(a: Matrix4, b: Matrix4) -> Matrix4 {
    mat4(row_add(a.r0, b.r0), row_add(a.r1, b.r1), row_add(a.r2, b.r2), row_add(a.r3, b.r3))
}

pub open spec fn m_sub(a: Matrix4, b: Matrix4) -> Matrix4 {
    mat4(row_sub(a.r0, b.r0), row_sub(a.r1, b.r1), row_sub(a.r2, b.r2), row_sub(a.r3, b.r3))
}

pub open spec fn row_div(a: Row4, s: Fixed) -> Row4 {
    row4(fx_div(a.c0, s), fx_div(a.c1, s), fx_div(a.c2, s), fx_div(a.c3, s))
}

/// Every entry divided by `s` (by zero: zero).
pub open spec fn m_div(a: Matrix4, s: Fixed) -> Matrix4 {
    mat4(row_div(a.r0, s), row_div(a.r1, s), row_div(a.r2, s), row_div(a.r3, s))
}

pub open spec fn m_scale(a: Matrix4, s: Fixed) -> Matrix4 {
    mat4(row_scale(a.r0, s), row_scale(a.r1, s), row_scale(a.r2, s), row_scale(a.r3, s))
}

/// Entry `(i, j)` of the product `a * b`, summed over `k` in order.
pub open spec fn mm_entry(a: Matrix4, b: Matrix4, i: int, j: int) -> Fixed {
    fx_add(
        fx_add(
            fx_add(fx_mul(a.at(i, 0), b.at(0, j)), fx_mul(a.at(i, 1), b.at(1, j))),
            fx_mul(a.at(i, 2), b.at(2, j)),
        ),
        fx_mul(a.at(i, 3), b.at(3, j)),
    )
}

pub open spec fn mm_row(a: Matrix4, b: Matrix4, i: int) -> Row4 {
    row4(mm_entry(a, b, i, 0), mm_entry(a, b, i, 1), mm_entry(a, b, i, 2), mm_entry(a, b, i, 3))
}

pub open spec fn m_mul(a: Matrix4, b: Matrix4) -> Matrix4 {
    mat4(mm_row(a, b, 0), mm_row(a, b, 1), mm_row(a, b, 2), mm_row(a, b, 3))
}

/// Row `i` of the upper 3x3 block applied to `(v0, v1, v2)`.
pub open spec fn block_row(m: Matrix4, i: int, v0: Fixed, v1: Fixed, v2: Fixed) -> Fixed {
    fx_add(fx_add(fx_mul(m.at(i, 0), v0), fx_mul(m.at(i, 1), v1)), fx_mul(m.at(i, 2), v2))
}

/// The homogeneous weight of a transformed position.
pub open spec fn homogeneous_w(m: Matrix4, p: Point3) -> Fixed {
    fx_add(block_row(m, 3, p.x, p.y, p.z), m.at(3, 3))
}

pub open spec fn mv_pos(m: Matrix4, p: Point3, i: int) -> Fixed {
    fx_div(fx_add(block_row(m, i, p.x, p.y, p.z), m.at(i, 3)), homogeneous_w(m, p))
}

pub open spec fn mv_dir(m: Matrix4, d: Vector3, i: int) -> Fixed {
    block_row(m, i, d.x, d.y, d.z)
}

/// `m` applied to a ray: positions get the translation and the homogeneous
/// divide, directions only the linear block.
pub open spec fn m_mul_ray(m: Matrix4, r: Ray) -> Ray {
    Ray {
        position: Point3 {
            x: mv_pos(m, r.position, 0),
            y: mv_pos(m, r.position, 1),
            z: mv_pos(m, r.position, 2),
        },
        direction: vec3(
            mv_dir(m, r.direction, 0),
            mv_dir(m, r.direction, 1),
            mv_dir(m, r.direction, 2),
        ),
    }
}

pub open spec fn m_mul_point(m: Matrix4, p: Point3) -> Point3 {
    m_mul_ray(m, Ray { position: p, direction: zero_vec() }).position
}

pub open spec fn m_mul_vec(m: Matrix4, v: Vector3) -> Vector3 {
    m_mul_ray(m, Ray { position: origin(), direction: v }).direction
}

/// Determinant of the upper 3x3 block, as the triple product of its columns.
pub open spec fn block_det(m: Matrix4) -> Fixed {
    v_dot(m.column3(0), v_cross(m.column3(1), m.column3(2)))
}

/// Determinants up to this fraction of one (1e-7) count as singular.
pub const SINGULAR_SCALE: i128 = 10_000_000;

/// The block counts as invertible when `|det| > 1e-7`.
pub open spec fn is_invertible(m: Matrix4) -> bool {
    fx_abs(block_det(m)).raw * SINGULAR_SCALE > ONE_RAW
}

pub open spec fn div_row(v: Vector3, d: Fixed) -> Row4 {
    row4(fx_div(v.x, d), fx_div(v.y, d), fx_div(v.z, d), fx(0))
}

pub open spec fn cofactor0(m: Matrix4) -> Vector3 {
    v_cross(m.column3(1), m.column3(2))
}

pub open spec fn cofactor1(m: Matrix4) -> Vector3 {
    v_cross(m.column3(2), m.column3(0))
}

pub open spec fn cofactor2(m: Matrix4) -> Vector3 {
    v_cross(m.column3(0), m.column3(1))
}

/// Inverse of the 3x3 block: cofactor vectors over the determinant, one per row.
pub open spec fn inverse_block(m: Matrix4) -> Matrix4 {
    let d = block_det(m);
    let z = fx(0);
    mat4(
        div_row(cofactor0(m), d),
        div_row(cofactor1(m), d),
        div_row(cofactor2(m), d),
        row4(z, z, z, fx(ONE_RAW as int)),
    )
}

/// The same cofactors laid out by columns, for transforming normals.
pub open spec fn inverse_block_transposed(m: Matrix4) -> Matrix4 {
    let d = block_det(m);
    let y0 = cofactor0(m);
    let y1 = cofactor1(m);
    let y2 = cofactor2(m);
    let z = fx(0);
    mat4(
        row4(fx_div(y0.x, d), fx_div(y1.x, d), fx_div(y2.x, d), z),
        row4(fx_div(y0.y, d), fx_div(y1.y, d), fx_div(y2.y, d), z),
        row4(fx_div(y0.z, d), fx_div(y1.z, d), fx_div(y2.z, d), z),
        row4(z, z, z, fx(ONE_RAW as int)),
    )
}

/// A world-space ray taken into the object space of the transform `m`;
/// a singular block leaves the ray unchanged.
pub open spec fn invtf_ray(m: Matrix4, r: Ray) -> Ray {
    if is_invertible(m) {
        m_mul_ray(
            inverse_block(m),
            Ray { position: p_sub_v(r.position, m.column3(3)), direction: r.direction },
        )
    } else {
        r
    }
}

/// A world-space normal taken into object space, before renormalizing.
pub open spec fn normal_direction(m: Matrix4, v: Vector3) -> Vector3 {
    if is_invertible(m) {
        m_mul_vec(inverse_block_transposed(m), v)
    } else {
        v
    }
}

/// A world-space normal taken into object space, renormalized.
pub open spec fn invtf_norm(m: Matrix4, v: Vector3) -> Vector3 {
    v_norm(normal_direction(m, v))
}

pub open spec fn rotation(axis: Vector3, cos_t: Fixed, sin_t: Fixed) -> Matrix4 {
    let a = v_norm(axis);
    let z = fx(0);
    let o = fx(ONE_RAW as int);
    let outer = mat4(
        row4(fx_mul(a.x, a.x), fx_mul(a.x, a.y), fx_mul(a.x, a.z), z),
        row4(fx_mul(a.x, a.y), fx_mul(a.y, a.y), fx_mul(a.y, a.z), z),
        row4(fx_mul(a.x, a.z), fx_mul(a.y, a.z), fx_mul(a.z, a.z), z),
        row4(z, z, z, o),
    );
    let crossm = mat4(
        row4(z, fx_sub(z, a.z), a.y, z),
        row4(a.z, z, fx_sub(z, a.x), z),
        row4(fx_sub(z, a.y), a.x, z, z),
        row4(z, z, z, o),
    );
    let s = m_add(
        m_add(m_scale(identity(), cos_t), m_scale(outer, fx_sub(o, cos_t))),
        m_scale(crossm, sin_t),
    );
    mat4(s.r0, s.r1, s.r2, row4(s.r3.c0, s.r3.c1, s.r3.c2, o))
}

impl Row4 {
    pub fn get(&self, j: usize) -> (r: Fixed)
        requires
            j < 4,
        ensures
            r == self.col(j as int),
    {
        if j == 0 {
            self.c0
        } else if j == 1 {
            self.c1
        } else if j == 2 {
            self.c2
        } else {
            self.c3
        }
    }

    fn add(&self, o: &Row4) -> (r: Row4)
        ensures
            r == row_add(*self, *o),
    {
        Row4 { c0: self.c0.add(o.c0), c1: self.c1.add(o.c1), c2: self.c2.add(o.c2), c3: self.c3.add(o.c3) }
    }

    fn sub(&self, o: &Row4) -> (r: Row4)
        ensures
            r == row_sub(*self, *o),
    {
        Row4 { c0: self.c0.sub(o.c0), c1: self.c1.sub(o.c1), c2: self.c2.sub(o.c2), c3: self.c3.sub(o.c3) }
    }

    fn div(&self, s: Fixed) -> (r: Row4)
        ensures
            r == row_div(*self, s),
    {
        Row4 { c0: self.c0.div(s), c1: self.c1.div(s), c2: self.c2.div(s), c3: self.c3.div(s) }
    }

    fn scale(&self, s: Fixed) -> (r: Row4)
        ensures
            r == row_scale(*self, s),
    {
        Row4 { c0: self.c0.mul(s), c1: self.c1.mul(s), c2: self.c2.mul(s), c3: self.c3.mul(s) }
    }
}

impl Matrix4 {
    #[allow(clippy::too_many_arguments)]
    pub fn new(
        e00: Fixed, e01: Fixed, e02: Fixed, e03: Fixed,
        e10: Fixed, e11: Fixed, e12: Fixed, e13: Fixed,
        e20: Fixed, e21: Fixed, e22: Fixed, e23: Fixed,
        e30: Fixed, e31: Fixed, e32: Fixed, e33: Fixed,
    ) -> (r: Matrix4)
        ensures
            r == mat4(
                row4(e00, e01, e02, e03),
                row4(e10, e11, e12, e13),
                row4(e20, e21, e22, e23),
                row4(e30, e31, e32, e33),
            ),
    {
        Matrix4 {
            r0: Row4 { c0: e00, c1: e01, c2: e02, c3: e03 },
            r1: Row4 { c0: e10, c1: e11, c2: e12, c3: e13 },
            r2: Row4 { c0: e20, c1: e21, c2: e22, c3: e23 },
            r3: Row4 { c0: e30, c1: e31, c2: e32, c3: e33 },
        }
    }

    pub fn new_with_value(v: Fixed) -> (r: Matrix4)
        ensures
            forall|i: int, j: int| 0 <= i < 4 && 0 <= j < 4 ==> r.at(i, j) == v,
    {
        let row = Row4 { c0: v, c1: v, c2: v, c3: v };
        Matrix4 { r0: row, r1: row, r2: row, r3: row }
    }

    pub fn new_empty() -> (r: Matrix4)
        ensures
            forall|i: int, j: int| 0 <= i < 4 && 0 <= j < 4 ==> r.at(i, j) == fx(0),
    {
        Self::new_with_value(Fixed::from_raw(0))
    }

    /// `v` on the diagonal, zero elsewhere.
    pub fn new_on_diag(v: Fixed) -> (r: Matrix4)
        ensures
            forall|i: int, j: int|
                0 <= i < 4 && 0 <= j < 4 ==> r.at(i, j) == (if i == j {
                    v
                } else {
                    fx(0)
                }),
    {
        let z = Fixed::from_raw(0);
        Self::new(v, z, z, z, z, v, z, z, z, z, v, z, z, z, z, v)
    }

    pub fn identity() -> (r: Matrix4)
        ensures
            r == identity(),
    {
        let o = Fixed::from_raw(ONE_RAW);
        let z = Fixed::from_raw(0);
        Self::new(o, z, z, z, z, o, z, z, z, z, o, z, z, z, z, o)
    }

    /// The linear map whose block has the columns `c0`, `c1`, `c2`.
    pub fn new_with_vec3(c0: &Vector3, c1: &Vector3, c2: &Vector3) -> (r: Matrix4)
        ensures
            r.column3(0) == *c0,
            r.column3(1) == *c1,
            r.column3(2) == *c2,
            r.column3(3) == zero_vec(),
            r.r3 == row4(fx(0), fx(0), fx(0), fx(ONE_RAW as int)),
    {
        let o = Fixed::from_raw(ONE_RAW);
        let z = Fixed::from_raw(0);
        Self::new(c0.x, c1.x, c2.x, z, c0.y, c1.y, c2.y, z, c0.z, c1.z, c2.z, z, z, z, z, o)
    }

    pub fn new_translate(dx: Fixed, dy: Fixed, dz: Fixed) -> (r: Matrix4)
        ensures
            r == mat4(
                row4(fx(ONE_RAW as int), fx(0), fx(0), dx),
                row4(fx(0), fx(ONE_RAW as int), fx(0), dy),
                row4(fx(0), fx(0), fx(ONE_RAW as int), dz),
                row4(fx(0), fx(0), fx(0), fx(ONE_RAW as int)),
            ),
    {
        let o = Fixed::from_raw(ONE_RAW);
        let z = Fixed::from_raw(0);
        Self::new(o, z, z, dx, z, o, z, dy, z, z, o, dz, z, z, z, o)
    }

    pub fn new_scale(sx: Fixed, sy: Fixed, sz: Fixed) -> (r: Matrix4)
        ensures
            r == mat4(
                row4(sx, fx(0), fx(0), fx(0)),
                row4(fx(0), sy, fx(0), fx(0)),
                row4(fx(0), fx(0), sz, fx(0)),
                row4(fx(0), fx(0), fx(0), fx(ONE_RAW as int)),
            ),
    {
        let o = Fixed::from_raw(ONE_RAW);
        let z = Fixed::from_raw(0);
        Self::new(sx, z, z, z, z, sy, z, z, z, z, sz, z, z, z, z, o)
    }

    /// Rotation about `axis` by the angle whose cosine and sine are given
    /// (Rodrigues' formula; the caller supplies the trigonometry).
    pub fn new_rotate(axis: &Vector3, cos_t: Fixed, sin_t: Fixed) -> (r: Matrix4)
        ensures
            r == rotation(*axis, cos_t, sin_t),
    {
        let a = axis.norm();
        let z = Fixed::from_raw(0);
        let o = Fixed::from_raw(ONE_RAW);
        let outer = Self::new(
            a.x.mul(a.x), a.x.mul(a.y), a.x.mul(a.z), z,
            a.x.mul(a.y), a.y.mul(a.y), a.y.mul(a.z), z,
            a.x.mul(a.z), a.y.mul(a.z), a.z.mul(a.z), z,
            z, z, z, o,
        );
        let crossm = Self::new(
            z, z.sub(a.z), a.y, z,
            a.z, z, z.sub(a.x), z,
            z.sub(a.y), a.x, z, z,
            z, z, z, o,
        );
        let s = Self::identity().scale(cos_t).add(&outer.scale(o.sub(cos_t))).add(&crossm.scale(sin_t));
        Matrix4 { r0: s.r0, r1: s.r1, r2: s.r2, r3: Row4 { c0: s.r3.c0, c1: s.r3.c1, c2: s.r3.c2, c3: o } }
    }

    pub fn row_at(&self, i: usize) -> (r: Row4)
        requires
            i < 4,
        ensures
            r == self.row(i as int),
    {
        if i == 0 {
            self.r0
        } else if i == 1 {
            self.r1
        } else if i == 2 {
            self.r2
        } else {
            self.r3
        }
    }

    /// The entry in row `i` and column `j`.
    pub fn get(&self, i: usize, j: usize) -> (r: Fixed)
        requires
            i < 4,
            j < 4,
        ensures
            r == self.at(i as int, j as int),
    {
        self.row_at(i).get(j)
    }

    pub fn add(&self, o: &Matrix4) -> (r: Matrix4)
        ensures
            r == m_add(*self, *o),
    {
        Matrix4 { r0: self.r0.add(&o.r0), r1: self.r1.add(&o.r1), r2: self.r2.add(&o.r2), r3: self.r3.add(&o.r3) }
    }

    pub fn sub(&self, o: &Matrix4) -> (r: Matrix4)
        ensures
            r == m_sub(*self, *o),
    {
        Matrix4 { r0: self.r0.sub(&o.r0), r1: self.r1.sub(&o.r1), r2: self.r2.sub(&o.r2), r3: self.r3.sub(&o.r3) }
    }

    pub fn scale(&self, s: Fixed) -> (r: Matrix4)
        ensures
            r == m_scale(*self, s),
    {
        Matrix4 { r0: self.r0.scale(s), r1: self.r1.scale(s), r2: self.r2.scale(s), r3: self.r3.scale(s) }
    }

    /// Every entry divided by `s`; division by zero gives zero entries.
    pub fn div(&self, s: Fixed) -> (r: Matrix4)
        ensures
            r == m_div(*self, s),
    {
        Matrix4 { r0: self.r0.div(s), r1: self.r1.div(s), r2: self.r2.div(s), r3: self.r3.div(s) }
    }

    fn product_entry(&self, o: &Matrix4, i: usize, j: usize) -> (r: Fixed)
        requires
            i < 4,
            j < 4,
        ensures
            r == mm_entry(*self, *o, i as int, j as int),
    {
        self.get(i, 0).mul(o.get(0, j))
            .add(self.get(i, 1).mul(o.get(1, j)))
            .add(self.get(i, 2).mul(o.get(2, j)))
            .add(self.get(i, 3).mul(o.get(3, j)))
    }

    fn product_row(&self, o: &Matrix4, i: usize) -> (r: Row4)
        requires
            i < 4,
        ensures
            r == mm_row(*self, *o, i as int),
    {
        Row4 {
            c0: self.product_entry(o, i, 0),
            c1: self.product_entry(o, i, 1),
            c2: self.product_entry(o, i, 2),
            c3: self.product_entry(o, i, 3),
        }
    }

    /// The product `self * o`; composing transforms multiplies on the right.
    pub fn mul(&self, o: &Matrix4) -> (r: Matrix4)
        ensures
            r == m_mul(*self, *o),
    {
        Matrix4 {
            r0: self.product_row(o, 0),
            r1: self.product_row(o, 1),
            r2: self.product_row(o, 2),
            r3: self.product_row(o, 3),
        }
    }

    fn apply_block_row(&self, i: usize, v0: Fixed, v1: Fixed, v2: Fixed) -> (r: Fixed)
        requires
            i < 4,
        ensures
            r == block_row(*self, i as int, v0, v1, v2),
    {
        self.get(i, 0).mul(v0).add(self.get(i, 1).mul(v1)).add(self.get(i, 2).mul(v2))
    }

    /// The matrix applied to a ray: the position as a homogeneous point, the direction
    /// through the linear block alone.
    pub fn mul_ray(&self, ray: &Ray) -> (r: Ray)
        ensures
            r == m_mul_ray(*self, *ray),
    {
        let p = ray.position;
        let d = ray.direction;
        let w = self.apply_block_row(3, p.x, p.y, p.z).add(self.r3.c3);
        let px = self.apply_block_row(0, p.x, p.y, p.z).add(self.r0.c3).div(w);
        let py = self.apply_block_row(1, p.x, p.y, p.z).add(self.r1.c3).div(w);
        let pz = self.apply_block_row(2, p.x, p.y, p.z).add(self.r2.c3).div(w);
        Ray {
            position: Point3 { x: px, y: py, z: pz },
            direction: Vector3 {
                x: self.apply_block_row(0, d.x, d.y, d.z),
                y: self.apply_block_row(1, d.x, d.y, d.z),
                z: self.apply_block_row(2, d.x, d.y, d.z),
            },
        }
    }

    pub fn mul_point(&self, p: &Point3) -> (r: Point3)
        ensures
            r == m_mul_point(*self, *p),
    {
        self.mul_ray(&Ray::no_direction(p)).position
    }

    pub fn mul_vec(&self, v: &Vector3) -> (r: Vector3)
        ensures
            r == m_mul_vec(*self, *v),
    {
        self.mul_ray(&Ray::from_origin(v)).direction
    }

    fn column(&self, j: usize) -> (r: Vector3)
        requires
            j < 4,
        ensures
            r == self.column3(j as int),
    {
        Vector3 { x: self.get(0, j), y: self.get(1, j), z: self.get(2, j) }
    }

    /// Applies the inverse of this transform to a ray without inverting the 4x4
    /// matrix: the block's inverse is built from cofactors over the determinant and
    /// applied after undoing the translation. A singular block leaves the ray as it is.
    pub fn mat_invtf_ray(&self, ray: &Ray) -> (r: Ray)
        ensures
            r == invtf_ray(*self, *ray),
            !is_invertible(*self) ==> r == *ray,
    {
        let x0 = self.column(0);
        let x1 = self.column(1);
        let x2 = self.column(2);
        let x3 = self.column(3);
        let det = x0.dot(&x1.cross(&x2));
        if det.abs().raw as i128 * SINGULAR_SCALE > ONE_RAW as i128 {
            let y0 = x1.cross(&x2);
            let y1 = x2.cross(&x0);
            let y2 = x0.cross(&x1);
            let z = Fixed::from_raw(0);
            let block = Matrix4::new(
                y0.x.div(det), y0.y.div(det), y0.z.div(det), z,
                y1.x.div(det), y1.y.div(det), y1.z.div(det), z,
                y2.x.div(det), y2.y.div(det), y2.z.div(det), z,
                z, z, z, Fixed::from_raw(ONE_RAW),
            );
            let moved = Ray { position: ray.position.sub_vec(&x3), direction: ray.direction };
            block.mul_ray(&moved)
        } else {
            *ray
        }
    }

    pub fn mat_invtf_point3(&self, p: &Point3) -> (r: Point3)
        ensures
            r == invtf_ray(*self, Ray { position: *p, direction: zero_vec() }).position,
    {
        self.mat_invtf_ray(&Ray::no_direction(p)).position
    }

    pub fn mat_invtf_vec3(&self, v: &Vector3) -> (r: Vector3)
        ensures
            r == invtf_ray(*self, Ray { position: origin(), direction: *v }).direction,
    {
        self.mat_invtf_ray(&Ray::from_origin(v)).direction
    }

    /// Takes a normal into object space with the cofactor inverse laid out by
    /// columns, then renormalizes it.
    pub fn mat_invtf_norm_vec3(&self, n: &Vector3) -> (r: Vector3)
        ensures
            r == invtf_norm(*self, *n),
            sq_len(normal_direction(*self, *n)) > 0 ==> is_unit(r),
    {
        let x0 = self.column(0);
        let x1 = self.column(1);
        let x2 = self.column(2);
        let det = x0.dot(&x1.cross(&x2));
        let v = if det.abs().raw as i128 * SINGULAR_SCALE > ONE_RAW as i128 {
            let y0 = x1.cross(&x2);
            let y1 = x2.cross(&x0);
            let y2 = x0.cross(&x1);
            let z = Fixed::from_raw(0);
            let block = Matrix4::new(
                y0.x.div(det), y1.x.div(det), y2.x.div(det), z,
                y0.y.div(det), y1.y.div(det), y2.y.div(det), z,
                y0.z.div(det), y1.z.div(det), y2.z.div(det), z,
                z, z, z, Fixed::from_raw(ONE_RAW),
            );
            block.mul_vec(n)
        } else {
            *n
        };
        v.norm()
    }
}

} // verus!
