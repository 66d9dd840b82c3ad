use vstd::prelude::*;

use vstd::arithmetic::div_mod::{lemma_fundamental_div_mod, lemma_mod_pos_bound};

use crate::fixed::{
    clamp_raw, clamp_wide, div_trunc, div_trunc_wide, fx, fx_add, fx_div, fx_mul, fx_sub, isqrt, isqrt_wide,
    is_isqrt, Fixed, ONE_RAW, abs_int,
};

verus! {

/// A free direction, displacement or RGB colour.
#[derive(Clone, Copy, Debug, PartialEq, Eq, Structural)]
pub struct Vector3 {
    pub x: Fixed,
    pub y: Fixed,
    pub z: Fixed,
}

/// A position in space. Only point - point, point +/- vector and scaling are defined.
#[derive(Clone, Copy, Debug, PartialEq, Eq, Structural)]
pub struct Point3 {
    pub x: Fixed,
    pub y: Fixed,
    pub z: Fixed,
}

/// Colours are vectors of red, green and blue intensities.
pub type RGBColor = Vector3;

/// An origin and a direction; the direction need not be of unit length.
#[derive(Clone, Copy, Debug, PartialEq, Eq, Structural)]
pub struct Ray {
    pub position: Point3,
    pub direction: Vector3,
}

pub open spec fn vec3(x: Fixed, y: Fixed, z: Fixed) -> Vector3 {
    Vector3 { x, y, z }
}

pub open spec fn zero_vec() -> Vector3 {
    vec3(fx(0), fx(0), fx(0))
}

pub open spec fn origin() -> Point3 {
    Point3 { x: fx(0), y: fx(0), z: fx(0) }
}

pub open spec fn v_add(a: Vector3, b: Vector3) -> Vector3 {
    vec3(fx_add(a.x, b.x), fx_add(a.y, b.y), fx_add(a.z, b.z))
}

pub open spec fn v_sub(a: Vector3, b: Vector3) -> Vector3 {
    vec3(fx_sub(a.x, b.x), fx_sub(a.y, b.y), fx_sub(a.z, b.z))
}

/// Componentwise product, as used to filter a light's colour by a material.
pub open spec fn v_mul(a: Vector3, b: Vector3) -> Vector3 {
    vec3(fx_mul(a.x, b.x), fx_mul(a.y, b.y), fx_mul(a.z, b.z))
}

pub open spec fn v_scale(a: Vector3, s: Fixed) -> Vector3 {
    vec3(fx_mul(a.x, s), fx_mul(a.y, s), fx_mul(a.z, s))
}

pub open spec fn v_dot(a: Vector3, b: Vector3) -> Fixed {
    fx_add(fx_add(fx_mul(a.x, b.x), fx_mul(a.y, b.y)), fx_mul(a.z, b.z))
}

pub open spec fn v_cross(a: Vector3, b: Vector3) -> Vector3 {
    vec3(
        fx_sub(fx_mul(a.y, b.z), fx_mul(a.z, b.y)),
        fx_sub(fx_mul(a.z, b.x), fx_mul(a.x, b.z)),
        fx_sub(fx_mul(a.x, b.y), fx_mul(a.y, b.x)),
    )
}

/// The exact squared length, in raw units squared.
pub open spec fn sq_len(a: Vector3) -> int {
    a.x.raw * a.x.raw + a.y.raw * a.y.raw + a.z.raw * a.z.raw
}

/// Below this squared raw length (2^86) a length is taken with 20 extra bits.
pub const FINE_SQ_LIMIT: u128 = 0x40_0000_0000_0000_0000_0000;

/// The length, rounded down to a raw unit, from the exact squared length.
pub open spec fn v_len(a: Vector3) -> Fixed {
    fx(clamp_raw(isqrt(sq_len(a))))
}

/// The factor by which a length is refined before it divides the components.
pub open spec fn norm_scale(a: Vector3) -> int {
    if sq_len(a) < FINE_SQ_LIMIT {
        ONE_RAW as int
    } else {
        1
    }
}

/// The length times `norm_scale`, rounded down.
pub open spec fn norm_length(a: Vector3) -> int {
    isqrt(sq_len(a) * norm_scale(a) * norm_scale(a))
}

pub open spec fn unit_part(c: Fixed, scale: int, l: int) -> Fixed {
    fx(clamp_raw(div_trunc(c.raw * ONE_RAW * scale, l)))
}

/// `a` divided by its length: each component is `c / |a|`, rounded toward zero;
/// the zero vector stays zero.
pub open spec fn v_norm(a: Vector3) -> Vector3 {
    let l = norm_length(a);
    let s = norm_scale(a);
    if l == 0 {
        zero_vec()
    } else {
        vec3(unit_part(a.x, s, l), unit_part(a.y, s, l), unit_part(a.z, s, l))
    }
}

pub open spec fn p_add_v(p: Point3, v: Vector3) -> Point3 {
    Point3 { x: fx_add(p.x, v.x), y: fx_add(p.y, v.y), z: fx_add(p.z, v.z) }
}

pub open spec fn p_sub_v(p: Point3, v: Vector3) -> Point3 {
    Point3 { x: fx_sub(p.x, v.x), y: fx_sub(p.y, v.y), z: fx_sub(p.z, v.z) }
}

pub open spec fn p_sub_p(p: Point3, q: Point3) -> Vector3 {
    vec3(fx_sub(p.x, q.x), fx_sub(p.y, q.y), fx_sub(p.z, q.z))
}

/// Every component divided by `s` (by zero: zero).
pub open spec fn v_div(a: Vector3, s: Fixed) -> Vector3 {
    vec3(fx_div(a.x, s), fx_div(a.y, s), fx_div(a.z, s))
}

pub open spec fn p_div(p: Point3, s: Fixed) -> Point3 {
    Point3 { x: fx_div(p.x, s), y: fx_div(p.y, s), z: fx_div(p.z, s) }
}

pub open spec fn p_scale(p: Point3, s: Fixed) -> Point3 {
    Point3 { x: fx_mul(p.x, s), y: fx_mul(p.y, s), z: fx_mul(p.z, s) }
}

/// The position vector of a point.
pub open spec fn p_as_vec(p: Point3) -> Vector3 {
    vec3(p.x, p.y, p.z)
}

/// Unit length up to rounding: the squared raw length lies within a few raw units
/// of `ONE_RAW^2`, so the length is within four millionths of one.
pub open spec fn is_unit(v: Vector3) -> bool {
    (ONE_RAW * ONE_RAW - 7 * ONE_RAW) < sq_len(v) < (ONE_RAW * ONE_RAW + 3 * ONE_RAW)
}

fn abs_wide(v: i64) -> (r: u128)
    ensures
        r == abs_int(v as int),
        r <= 0x8000_0000_0000_0000,
{
    if v < 0 {
        (-(v as i128)) as u128
    } else {
        v as u128
    }
}

proof fn lemma_isqrt_exists(n: int)
    requires
        n >= 0,
    ensures
        exists|r: int| #[trigger] is_isqrt(r, n),
    decreases n,
{
    if n == 0 {
        assert(is_isqrt(0, 0));
    } else {
        lemma_isqrt_exists(n - 1);
        let r = choose|r: int| #[trigger] is_isqrt(r, n - 1);
        if (r + 1) * (r + 1) <= n {
            assert(is_isqrt(r + 1, n)) by (nonlinear_arith)
                requires
                    0 <= r,
                    (r + 1) * (r + 1) <= n,
                    n - 1 < (r + 1) * (r + 1),
            ;
        } else {
            assert(is_isqrt(r, n));
        }
    }
}

proof fn lemma_isqrt(n: int)
    requires
        n >= 0,
    ensures
        is_isqrt(isqrt(n), n),
{
    if n > 0 {
        lemma_isqrt_exists(n);
    }
}

proof fn lemma_div_trunc_bounds(n: int, d: int)
    requires
        d > 0,
    ensures
        abs_int(div_trunc(n, d)) * d <= abs_int(n) < (abs_int(div_trunc(n, d)) + 1) * d,
{
    let m = abs_int(n);
    lemma_fundamental_div_mod(m, d);
    lemma_mod_pos_bound(m, d);
    let q = m / d;
    assert(abs_int(div_trunc(n, d)) == q);
    assert(q * d <= m < (q + 1) * d) by (nonlinear_arith)
        requires
            m == d * q + m % d,
            0 <= m % d < d,
    ;
}

/// Below and above in one coordinate: `u * l <= |q| < (u + 1) * l` squared.
proof fn lemma_square_bounds(u: int, q: int, l: int)
    requires
        u >= 0,
        l > 0,
        u * l <= abs_int(q) < (u + 1) * l,
    ensures
        u * u * (l * l) <= q * q,
        q * q < (u + 1) * (u + 1) * (l * l),
{
    let m = abs_int(q);
    assert(m * m == q * q) by (nonlinear_arith)
        requires
            m == abs_int(q),
    ;
    assert(u * u * (l * l) <= m * m) by (nonlinear_arith)
        requires
            0 <= u * l <= m,
    ;
    assert(m * m < (u + 1) * (u + 1) * (l * l)) by (nonlinear_arith)
        requires
            0 <= m < (u + 1) * l,
    ;
}

proof fn lemma_scaled_square(x: int, o: int, s: int)
    ensures
        (x * o * s) * (x * o * s) == (x * x) * ((o * s) * (o * s)),
{
    assert((x * o * s) * (x * o * s) == (x * x) * ((o * s) * (o * s))) by (nonlinear_arith);
}

/// `o^2 (l + 1)^2 <= (o^2 + 3 o) l^2` once `l >= o >= 1`.
proof fn lemma_unit_slack(o: int, l: int)
    requires
        1 <= o <= l,
    ensures
        o * o * ((l + 1) * (l + 1)) <= (o * o + 3 * o) * (l * l),
{
    assert(o * (2 * l + 1) <= l * (2 * l + 1)) by (nonlinear_arith)
        requires
            1 <= o <= l,
    ;
    assert(l * (2 * l + 1) <= 3 * (l * l)) by (nonlinear_arith)
        requires
            1 <= l,
    ;
    assert(o * (o * (2 * l + 1)) <= o * (3 * (l * l))) by (nonlinear_arith)
        requires
            o * (2 * l + 1) <= 3 * (l * l),
            o >= 1,
    ;
    assert(o * o * ((l + 1) * (l + 1)) == o * o * (l * l) + o * (o * (2 * l + 1))) by (nonlinear_arith);
    assert((o * o + 3 * o) * (l * l) == o * o * (l * l) + o * (3 * (l * l))) by (nonlinear_arith);
}

/// `x * c < y * c` with `c > 0` gives `x < y`.
proof fn lemma_cancel_lt(x: int, y: int, c: int)
    requires
        c > 0,
        x * c < y * c,
    ensures
        x < y,
{
    if x >= y {
        assert(x * c >= y * c) by (nonlinear_arith)
            requires
                x >= y,
                c > 0,
        ;
    }
}

/// A nonzero vector normalizes to unit length, up to a few raw units.
pub proof fn lemma_norm_unit(a: Vector3)
    requires
        sq_len(a) > 0,
    ensures
        is_unit(v_norm(a)),
{
    let o = ONE_RAW as int;
    let big = sq_len(a);
    let s = norm_scale(a);
    let t = big * s * s;
    let l = norm_length(a);
    assert(t >= o * o) by (nonlinear_arith)
        requires
            big >= 1,
            o == 0x100000,
            t == big * s * s,
            (s == o) || (s == 1 && big >= 0x40_0000_0000_0000_0000_0000),
    ;
    lemma_isqrt(t);
    assert(l >= o) by (nonlinear_arith)
        requires
            0 <= l,
            t < (l + 1) * (l + 1),
            t >= o * o,
            o > 0,
    ;
    let k = o * s;
    let qx = a.x.raw * o * s;
    let qy = a.y.raw * o * s;
    let qz = a.z.raw * o * s;
    lemma_scaled_square(a.x.raw as int, o, s);
    lemma_scaled_square(a.y.raw as int, o, s);
    lemma_scaled_square(a.z.raw as int, o, s);
    let xx = a.x.raw * a.x.raw;
    let yy = a.y.raw * a.y.raw;
    let zz = a.z.raw * a.z.raw;
    assert(xx * (k * k) + yy * (k * k) + zz * (k * k) == big * (k * k)) by (nonlinear_arith)
        requires
            big == xx + yy + zz,
    ;
    assert(big * (k * k) == o * o * t) by (nonlinear_arith)
        requires
            k == o * s,
            t == big * s * s,
    ;
    lemma_div_trunc_bounds(qx, l);
    lemma_div_trunc_bounds(qy, l);
    lemma_div_trunc_bounds(qz, l);
    let rx = div_trunc(qx, l);
    let ry = div_trunc(qy, l);
    let rz = div_trunc(qz, l);
    let ux = abs_int(rx);
    let uy = abs_int(ry);
    let uz = abs_int(rz);
    lemma_square_bounds(ux, qx, l);
    lemma_square_bounds(uy, qy, l);
    lemma_square_bounds(uz, qz, l);
    let ll = l * l;
    let sum = ux * ux + uy * uy + uz * uz;
    let q2 = qx * qx + qy * qy + qz * qz;
    assert(q2 == o * o * t);
    // Upper bound.
    assert(sum * ll == ux * ux * ll + uy * uy * ll + uz * uz * ll) by (nonlinear_arith)
        requires
            sum == ux * ux + uy * uy + uz * uz,
    ;
    assert(o * o * t < o * o * ((l + 1) * (l + 1))) by (nonlinear_arith)
        requires
            t < (l + 1) * (l + 1),
            o > 0,
    ;
    lemma_unit_slack(o, l);
    lemma_cancel_lt(sum, o * o + 3 * o, ll);
    assert(ux < o + 2 && uy < o + 2 && uz < o + 2) by (nonlinear_arith)
        requires
            ux >= 0,
            uy >= 0,
            uz >= 0,
            ux * ux + uy * uy + uz * uz < o * o + 3 * o,
            o > 0,
    ;
    // Lower bound.
    let p = (ux + 1) * (ux + 1) + (uy + 1) * (uy + 1) + (uz + 1) * (uz + 1);
    assert(p * ll == (ux + 1) * (ux + 1) * ll + (uy + 1) * (uy + 1) * ll + (uz + 1) * (uz + 1) * ll)
        by (nonlinear_arith)
        requires
            p == (ux + 1) * (ux + 1) + (uy + 1) * (uy + 1) + (uz + 1) * (uz + 1),
    ;
    assert(o * o * t >= o * o * ll) by (nonlinear_arith)
        requires
            t >= l * l,
            ll == l * l,
    ;
    lemma_cancel_lt(o * o, p, ll);
    assert(p == sum + 2 * (ux + uy + uz) + 3) by (nonlinear_arith)
        requires
            p == (ux + 1) * (ux + 1) + (uy + 1) * (uy + 1) + (uz + 1) * (uz + 1),
            sum == ux * ux + uy * uy + uz * uz,
    ;
    assert(sum > o * o - 7 * o);
    assert(rx * rx == ux * ux && ry * ry == uy * uy && rz * rz == uz * uz) by (nonlinear_arith)
        requires
            ux == abs_int(rx),
            uy == abs_int(ry),
            uz == abs_int(rz),
    ;
    let r = v_norm(a);
    assert(r.x.raw == rx && r.y.raw == ry && r.z.raw == rz);
}

impl Vector3 {
    pub fn new(x: Fixed, y: Fixed, z: Fixed) -> (r: Vector3)
        ensures
            r == vec3(x, y, z),
    {
        Vector3 { x, y, z }
    }

    pub fn new_empty() -> (r: Vector3)
        ensures
            r == zero_vec(),
    {
        Self::new_with_value(Fixed::from_raw(0))
    }

    pub fn new_with_value(v: Fixed) -> (r: Vector3)
        ensures
            r == vec3(v, v, v),
    {
        Vector3 { x: v, y: v, z: v }
    }

    /// The component at `i`: x, y, z for 0, 1, 2.
    pub fn get(&self, i: usize) -> (r: Fixed)
        requires
            i < 3,
        ensures
            r == (if i == 0 {
                self.x
            } else if i == 1 {
                self.y
            } else {
                self.z
            }),
    {
        if i == 0 {
            self.x
        } else if i == 1 {
            self.y
        } else {
            self.z
        }
    }

    pub fn add(self, o: &Vector3) -> (r: Vector3)
        ensures
            r == v_add(self, *o),
    {
        Vector3 { x: self.x.add(o.x), y: self.y.add(o.y), z: self.z.add(o.z) }
    }

    pub fn sub(self, o: &Vector3) -> (r: Vector3)
        ensures
            r == v_sub(self, *o),
    {
        Vector3 { x: self.x.sub(o.x), y: self.y.sub(o.y), z: self.z.sub(o.z) }
    }

    pub fn mul(self, o: &Vector3) -> (r: Vector3)
        ensures
            r == v_mul(self, *o),
    {
        Vector3 { x: self.x.mul(o.x), y: self.y.mul(o.y), z: self.z.mul(o.z) }
    }

    pub fn scale(self, s: Fixed) -> (r: Vector3)
        ensures
            r == v_scale(self, s),
    {
        Vector3 { x: self.x.mul(s), y: self.y.mul(s), z: self.z.mul(s) }
    }

    /// Every component divided by `s`; division by zero gives the zero vector.
    pub fn div(self, s: Fixed) -> (r: Vector3)
        ensures
            r == v_div(self, s),
    {
        Vector3 { x: self.x.div(s), y: self.y.div(s), z: self.z.div(s) }
    }

    pub fn dot(self, o: &Vector3) -> (r: Fixed)
        ensures
            r == v_dot(self, *o),
    {
        self.x.mul(o.x).add(self.y.mul(o.y)).add(self.z.mul(o.z))
    }

    pub fn cross(self, o: &Vector3) -> (r: Vector3)
        ensures
            r == v_cross(self, *o),
    {
        Vector3 {
            x: self.y.mul(o.z).sub(self.z.mul(o.y)),
            y: self.z.mul(o.x).sub(self.x.mul(o.z)),
            z: self.x.mul(o.y).sub(self.y.mul(o.x)),
        }
    }

    /// The exact squared length.
    pub fn sq_len(&self) -> (r: u128)
        ensures
            r == sq_len(*self),
    {
        let ax = abs_wide(self.x.raw);
        let ay = abs_wide(self.y.raw);
        let az = abs_wide(self.z.raw);
        assert(ax * ax + ay * ay + az * az <= 3 * 0x4000_0000_0000_0000_0000_0000_0000_0000)
            by (nonlinear_arith)
            requires
                ax <= 0x8000_0000_0000_0000,
                ay <= 0x8000_0000_0000_0000,
                az <= 0x8000_0000_0000_0000,
        ;
        assert(ax * ax == self.x.raw * self.x.raw && ay * ay == self.y.raw * self.y.raw && az * az
            == self.z.raw * self.z.raw) by (nonlinear_arith)
            requires
                ax == abs_int(self.x.raw as int),
                ay == abs_int(self.y.raw as int),
                az == abs_int(self.z.raw as int),
        ;
        ax * ax + ay * ay + az * az
    }

    /// The length, rounded down to a raw unit.
    pub fn len(&self) -> (r: Fixed)
        ensures
            r == v_len(*self),
    {
        let sq = self.sq_len();
        let l = isqrt_wide(sq);
        assert(l < 0x1_0000_0000_0000_0000) by (nonlinear_arith)
            requires
                l * l <= sq,
                sq < 0x1_0000_0000_0000_0000 * 0x1_0000_0000_0000_0000,
        ;
        Fixed { raw: clamp_wide(l as i128) }
    }

    /// The vector scaled to unit length; the zero vector is returned unchanged.
    /// Every other vector comes out with a length within four millionths of one.
    pub fn norm(&self) -> (r: Vector3)
        ensures
            r == v_norm(*self),
            *self == zero_vec() ==> r == zero_vec(),
            sq_len(*self) > 0 ==> is_unit(r),
    {
        proof {
            if sq_len(*self) > 0 {
                lemma_norm_unit(*self);
            }
        }
        let sq = self.sq_len();
        let (scale, target) = if sq < FINE_SQ_LIMIT {
            assert(sq * 0x100_0000_0000 == sq * 0x100000 * 0x100000) by (nonlinear_arith);
            (ONE_RAW as i128, sq * 0x100_0000_0000)
        } else {
            (1i128, sq)
        };
        assert(scale == norm_scale(*self));
        assert(target == sq_len(*self) * norm_scale(*self) * norm_scale(*self)) by (nonlinear_arith)
            requires
                sq == sq_len(*self),
                scale == norm_scale(*self),
                scale == 1 ==> target == sq,
                scale == 0x100000 ==> target == sq * 0x100000 * 0x100000,
                scale == 1 || scale == 0x100000,
        ;
        let l = isqrt_wide(target);
        if l == 0 {
            return Vector3::new_empty();
        }
        assert(l < 0x1_0000_0000_0000_0000) by (nonlinear_arith)
            requires
                l * l <= target,
                target < 0x1_0000_0000_0000_0000 * 0x1_0000_0000_0000_0000,
        ;
        let li = l as i128;
        Vector3 {
            x: Fixed { raw: clamp_wide(div_trunc_wide(self.x.raw as i128 * ONE_RAW as i128 * scale, li)) },
            y: Fixed { raw: clamp_wide(div_trunc_wide(self.y.raw as i128 * ONE_RAW as i128 * scale, li)) },
            z: Fixed { raw: clamp_wide(div_trunc_wide(self.z.raw as i128 * ONE_RAW as i128 * scale, li)) },
        }
    }
}

impl Point3 {
    pub fn new(x: Fixed, y: Fixed, z: Fixed) -> (r: Point3)
        ensures
            r == (Point3 { x, y, z }),
    {
        Point3 { x, y, z }
    }

    pub fn new_empty() -> (r: Point3)
        ensures
            r == origin(),
    {
        Self::new_with_value(Fixed::from_raw(0))
    }

    pub fn new_with_value(v: Fixed) -> (r: Point3)
        ensures
            r == (Point3 { x: v, y: v, z: v }),
    {
        Point3 { x: v, y: v, z: v }
    }

    /// The position vector of this point.
    pub fn pos_rep(self) -> (r: Vector3)
        ensures
            r == p_as_vec(self),
    {
        Vector3 { x: self.x, y: self.y, z: self.z }
    }

    pub fn add_vec(self, v: &Vector3) -> (r: Point3)
        ensures
            r == p_add_v(self, *v),
    {
        Point3 { x: self.x.add(v.x), y: self.y.add(v.y), z: self.z.add(v.z) }
    }

    pub fn sub_vec(self, v: &Vector3) -> (r: Point3)
        ensures
            r == p_sub_v(self, *v),
    {
        Point3 { x: self.x.sub(v.x), y: self.y.sub(v.y), z: self.z.sub(v.z) }
    }

    pub fn sub(self, q: &Point3) -> (r: Vector3)
        ensures
            r == p_sub_p(self, *q),
    {
        Vector3 { x: self.x.sub(q.x), y: self.y.sub(q.y), z: self.z.sub(q.z) }
    }

    /// Every coordinate divided by `s`; division by zero gives the origin.
    pub fn div(self, s: Fixed) -> (r: Point3)
        ensures
            r == p_div(self, s),
    {
        Point3 { x: self.x.div(s), y: self.y.div(s), z: self.z.div(s) }
    }

    pub fn scale(self, s: Fixed) -> (r: Point3)
        ensures
            r == p_scale(self, s),
    {
        Point3 { x: self.x.mul(s), y: self.y.mul(s), z: self.z.mul(s) }
    }
}

impl Ray {
    /// The ray at the origin with zero direction.
    pub fn new() -> (r: Ray)
        ensures
            r == (Ray { position: origin(), direction: zero_vec() }),
    {
        Ray { position: Point3::new_empty(), direction: Vector3::new_empty() }
    }

    /// A direction promoted to a ray from the origin.
    pub fn from_origin(direction: &Vector3) -> (r: Ray)
        ensures
            r == (Ray { position: origin(), direction: *direction }),
    {
        Ray { position: Point3::new_empty(), direction: *direction }
    }

    /// A point promoted to a ray with zero direction.
    pub fn no_direction(position: &Point3) -> (r: Ray)
        ensures
            r == (Ray { position: *position, direction: zero_vec() }),
    {
        Ray { position: *position, direction: Vector3::new_empty() }
    }
}

} // verus!
