use vstd::prelude::*;

verus! {

// Exact-arithmetic facts behind the cofactor inverse of `Matrix4::mat_invtf_ray`.
// A transform's linear block is given by its columns `c0`, `c1`, `c2`; the inverse
// has the cofactor rows `c1 x c2`, `c2 x c0`, `c0 x c1` over the determinant
// `c0 . (c1 x c2)`.

pub open spec fn dot3(a: (int, int, int), b: (int, int, int)) -> int {
    a.0 * b.0 + a.1 * b.1 + a.2 * b.2
}

pub open spec fn cross3(a: (int, int, int), b: (int, int, int)) -> (int, int, int) {
    (a.1 * b.2 - a.2 * b.1, a.2 * b.0 - a.0 * b.2, a.0 * b.1 - a.1 * b.0)
}

pub open spec fn scale3(s: int, a: (int, int, int)) -> (int, int, int) {
    (s * a.0, s * a.1, s * a.2)
}

/// The block with columns `c0`, `c1`, `c2` applied to `p`.
pub open spec fn block_apply(
    c0: (int, int, int),
    c1: (int, int, int),
    c2: (int, int, int),
    p: (int, int, int),
) -> (int, int, int) {
    (
        p.0 * c0.0 + p.1 * c1.0 + p.2 * c2.0,
        p.0 * c0.1 + p.1 * c1.1 + p.2 * c2.1,
        p.0 * c0.2 + p.1 * c1.2 + p.2 * c2.2,
    )
}

/// The cofactor rows applied to `q`: the inverse block before its division by the
/// determinant.
pub open spec fn cofactor_apply(
    c0: (int, int, int),
    c1: (int, int, int),
    c2: (int, int, int),
    q: (int, int, int),
) -> (int, int, int) {
    (dot3(cross3(c1, c2), q), dot3(cross3(c2, c0), q), dot3(cross3(c0, c1), q))
}

proof fn lemma_sum3(k: int, u: int, v: int, w: int)
    ensures
        k * (u + v + w) == k * u + k * v + k * w,
        (u + v + w) * k == u * k + v * k + w * k,
{
    assert(k * (u + v + w) == k * u + k * v + k * w) by (nonlinear_arith);
    assert((u + v + w) * k == u * k + v * k + w * k) by (nonlinear_arith);
}

proof fn lemma_swap(k: int, x: int, a: int)
    ensures
        k * (x * a) == x * (k * a),
        (a * x) * k == x * (a * k),
{
    assert(k * (x * a) == x * (k * a)) by (nonlinear_arith);
    assert((a * x) * k == x * (a * k)) by (nonlinear_arith);
}

proof fn lemma_distribute(k: int, x: int, a: int, y: int, b: int, z: int, d: int)
    ensures
        k * (x * a + y * b + z * d) == x * (k * a) + y * (k * b) + z * (k * d),
        (a * x + b * y + d * z) * k == x * (a * k) + y * (b * k) + z * (d * k),
{
    lemma_sum3(k, x * a, y * b, z * d);
    lemma_sum3(k, a * x, b * y, d * z);
    lemma_swap(k, x, a);
    lemma_swap(k, y, b);
    lemma_swap(k, z, d);
}

proof fn lemma_factor(x: int, p: int, q: int, r: int)
    ensures
        x * p + x * q + x * r == x * (p + q + r),
{
    assert(x * p + x * q + x * r == x * (p + q + r)) by (nonlinear_arith);
}

/// The block times its adjugate, both ways round: the determinant on the diagonal,
/// zero elsewhere. Each product is expanded into monomials in a fixed factor order.
proof fn lemma_adjugate(c0: (int, int, int), c1: (int, int, int), c2: (int, int, int))
    ensures
        dot3(cross3(c1, c2), c0) == dot3(c0, cross3(c1, c2)),
        dot3(cross3(c1, c2), c1) == 0,
        dot3(cross3(c1, c2), c2) == 0,
        dot3(cross3(c2, c0), c0) == 0,
        dot3(cross3(c2, c0), c1) == dot3(c0, cross3(c1, c2)),
        dot3(cross3(c2, c0), c2) == 0,
        dot3(cross3(c0, c1), c0) == 0,
        dot3(cross3(c0, c1), c1) == 0,
        dot3(cross3(c0, c1), c2) == dot3(c0, cross3(c1, c2)),
        cross3(c1, c2).0 * c0.0 + cross3(c2, c0).0 * c1.0 + cross3(c0, c1).0 * c2.0 == dot3(c0, cross3(c1, c2)),
        cross3(c1, c2).0 * c0.1 + cross3(c2, c0).0 * c1.1 + cross3(c0, c1).0 * c2.1 == 0,
        cross3(c1, c2).0 * c0.2 + cross3(c2, c0).0 * c1.2 + cross3(c0, c1).0 * c2.2 == 0,
        cross3(c1, c2).1 * c0.0 + cross3(c2, c0).1 * c1.0 + cross3(c0, c1).1 * c2.0 == 0,
        cross3(c1, c2).1 * c0.1 + cross3(c2, c0).1 * c1.1 + cross3(c0, c1).1 * c2.1 == dot3(c0, cross3(c1, c2)),
        cross3(c1, c2).1 * c0.2 + cross3(c2, c0).1 * c1.2 + cross3(c0, c1).1 * c2.2 == 0,
        cross3(c1, c2).2 * c0.0 + cross3(c2, c0).2 * c1.0 + cross3(c0, c1).2 * c2.0 == 0,
        cross3(c1, c2).2 * c0.1 + cross3(c2, c0).2 * c1.1 + cross3(c0, c1).2 * c2.1 == 0,
        cross3(c1, c2).2 * c0.2 + cross3(c2, c0).2 * c1.2 + cross3(c0, c1).2 * c2.2 == dot3(c0, cross3(c1, c2)),
{
    let (a0, a1, a2) = c0;
    let (b0, b1, b2) = c1;
    let (d0, d1, d2) = c2;
    assert(a0 * (b1 * d2 - b2 * d1) == (b1 * d2 - b2 * d1) * a0) by (nonlinear_arith);
    assert((b1 * d2 - b2 * d1) * a0 == (b1 * d2) * a0 - (b2 * d1) * a0) by (nonlinear_arith);
    assert((b1 * d2) * a0 == (a0 * b1) * d2) by (nonlinear_arith);
    assert((b2 * d1) * a0 == (a0 * b2) * d1) by (nonlinear_arith);
    assert(a1 * (b2 * d0 - b0 * d2) == (b2 * d0 - b0 * d2) * a1) by (nonlinear_arith);
    assert((b2 * d0 - b0 * d2) * a1 == (b2 * d0) * a1 - (b0 * d2) * a1) by (nonlinear_arith);
    assert((b2 * d0) * a1 == (a1 * b2) * d0) by (nonlinear_arith);
    assert((b0 * d2) * a1 == (a1 * b0) * d2) by (nonlinear_arith);
    assert(a2 * (b0 * d1 - b1 * d0) == (b0 * d1 - b1 * d0) * a2) by (nonlinear_arith);
    assert((b0 * d1 - b1 * d0) * a2 == (b0 * d1) * a2 - (b1 * d0) * a2) by (nonlinear_arith);
    assert((b0 * d1) * a2 == (a2 * b0) * d1) by (nonlinear_arith);
    assert((b1 * d0) * a2 == (a2 * b1) * d0) by (nonlinear_arith);
    assert((b1 * d2 - b2 * d1) * b0 == (b1 * d2) * b0 - (b2 * d1) * b0) by (nonlinear_arith);
    assert((b1 * d2) * b0 == (b0 * b1) * d2) by (nonlinear_arith);
    assert((b2 * d1) * b0 == (b0 * b2) * d1) by (nonlinear_arith);
    assert((b2 * d0 - b0 * d2) * b1 == (b2 * d0) * b1 - (b0 * d2) * b1) by (nonlinear_arith);
    assert((b2 * d0) * b1 == (b1 * b2) * d0) by (nonlinear_arith);
    assert((b0 * d2) * b1 == (b0 * b1) * d2) by (nonlinear_arith);
    assert((b0 * d1 - b1 * d0) * b2 == (b0 * d1) * b2 - (b1 * d0) * b2) by (nonlinear_arith);
    assert((b0 * d1) * b2 == (b0 * b2) * d1) by (nonlinear_arith);
    assert((b1 * d0) * b2 == (b1 * b2) * d0) by (nonlinear_arith);
    assert((b1 * d2 - b2 * d1) * d0 == (b1 * d2) * d0 - (b2 * d1) * d0) by (nonlinear_arith);
    assert((b1 * d2) * d0 == (b1 * d0) * d2) by (nonlinear_arith);
    assert((b2 * d1) * d0 == (b2 * d0) * d1) by (nonlinear_arith);
    assert((b2 * d0 - b0 * d2) * d1 == (b2 * d0) * d1 - (b0 * d2) * d1) by (nonlinear_arith);
    assert((b0 * d2) * d1 == (b0 * d1) * d2) by (nonlinear_arith);
    assert((b0 * d1 - b1 * d0) * d2 == (b0 * d1) * d2 - (b1 * d0) * d2) by (nonlinear_arith);
    assert((d1 * a2 - d2 * a1) * a0 == (d1 * a2) * a0 - (d2 * a1) * a0) by (nonlinear_arith);
    assert((d1 * a2) * a0 == (a0 * a2) * d1) by (nonlinear_arith);
    assert((d2 * a1) * a0 == (a0 * a1) * d2) by (nonlinear_arith);
    assert((d2 * a0 - d0 * a2) * a1 == (d2 * a0) * a1 - (d0 * a2) * a1) by (nonlinear_arith);
    assert((d2 * a0) * a1 == (a0 * a1) * d2) by (nonlinear_arith);
    assert((d0 * a2) * a1 == (a1 * a2) * d0) by (nonlinear_arith);
    assert((d0 * a1 - d1 * a0) * a2 == (d0 * a1) * a2 - (d1 * a0) * a2) by (nonlinear_arith);
    assert((d0 * a1) * a2 == (a1 * a2) * d0) by (nonlinear_arith);
    assert((d1 * a0) * a2 == (a0 * a2) * d1) by (nonlinear_arith);
    assert((d1 * a2 - d2 * a1) * b0 == (d1 * a2) * b0 - (d2 * a1) * b0) by (nonlinear_arith);
    assert((d1 * a2) * b0 == (a2 * b0) * d1) by (nonlinear_arith);
    assert((d2 * a1) * b0 == (a1 * b0) * d2) by (nonlinear_arith);
    assert((d2 * a0 - d0 * a2) * b1 == (d2 * a0) * b1 - (d0 * a2) * b1) by (nonlinear_arith);
    assert((d2 * a0) * b1 == (a0 * b1) * d2) by (nonlinear_arith);
    assert((d0 * a2) * b1 == (a2 * b1) * d0) by (nonlinear_arith);
    assert((d0 * a1 - d1 * a0) * b2 == (d0 * a1) * b2 - (d1 * a0) * b2) by (nonlinear_arith);
    assert((d0 * a1) * b2 == (a1 * b2) * d0) by (nonlinear_arith);
    assert((d1 * a0) * b2 == (a0 * b2) * d1) by (nonlinear_arith);
    assert((d1 * a2 - d2 * a1) * d0 == (d1 * a2) * d0 - (d2 * a1) * d0) by (nonlinear_arith);
    assert((d1 * a2) * d0 == (a2 * d0) * d1) by (nonlinear_arith);
    assert((d2 * a1) * d0 == (a1 * d0) * d2) by (nonlinear_arith);
    assert((d2 * a0 - d0 * a2) * d1 == (d2 * a0) * d1 - (d0 * a2) * d1) by (nonlinear_arith);
    assert((d2 * a0) * d1 == (a0 * d1) * d2) by (nonlinear_arith);
    assert((d0 * a2) * d1 == (a2 * d0) * d1) by (nonlinear_arith);
    assert((d0 * a1 - d1 * a0) * d2 == (d0 * a1) * d2 - (d1 * a0) * d2) by (nonlinear_arith);
    assert((d0 * a1) * d2 == (a1 * d0) * d2) by (nonlinear_arith);
    assert((d1 * a0) * d2 == (a0 * d1) * d2) by (nonlinear_arith);
    assert((a1 * b2 - a2 * b1) * a0 == (a1 * b2) * a0 - (a2 * b1) * a0) by (nonlinear_arith);
    assert((a1 * b2) * a0 == (a0 * a1) * b2) by (nonlinear_arith);
    assert((a2 * b1) * a0 == (a0 * a2) * b1) by (nonlinear_arith);
    assert((a2 * b0 - a0 * b2) * a1 == (a2 * b0) * a1 - (a0 * b2) * a1) by (nonlinear_arith);
    assert((a2 * b0) * a1 == (a1 * a2) * b0) by (nonlinear_arith);
    assert((a0 * b2) * a1 == (a0 * a1) * b2) by (nonlinear_arith);
    assert((a0 * b1 - a1 * b0) * a2 == (a0 * b1) * a2 - (a1 * b0) * a2) by (nonlinear_arith);
    assert((a0 * b1) * a2 == (a0 * a2) * b1) by (nonlinear_arith);
    assert((a1 * b0) * a2 == (a1 * a2) * b0) by (nonlinear_arith);
    assert((a1 * b2 - a2 * b1) * b0 == (a1 * b2) * b0 - (a2 * b1) * b0) by (nonlinear_arith);
    assert((a1 * b2) * b0 == (a1 * b0) * b2) by (nonlinear_arith);
    assert((a2 * b1) * b0 == (a2 * b0) * b1) by (nonlinear_arith);
    assert((a2 * b0 - a0 * b2) * b1 == (a2 * b0) * b1 - (a0 * b2) * b1) by (nonlinear_arith);
    assert((a0 * b2) * b1 == (a0 * b1) * b2) by (nonlinear_arith);
    assert((a0 * b1 - a1 * b0) * b2 == (a0 * b1) * b2 - (a1 * b0) * b2) by (nonlinear_arith);
    assert((a1 * b2 - a2 * b1) * d0 == (a1 * b2) * d0 - (a2 * b1) * d0) by (nonlinear_arith);
    assert((a2 * b0 - a0 * b2) * d1 == (a2 * b0) * d1 - (a0 * b2) * d1) by (nonlinear_arith);
    assert((a0 * b1 - a1 * b0) * d2 == (a0 * b1) * d2 - (a1 * b0) * d2) by (nonlinear_arith);
    assert((b1 * d2 - b2 * d1) * a1 == (b1 * d2) * a1 - (b2 * d1) * a1) by (nonlinear_arith);
    assert((b1 * d2) * a1 == (a1 * b1) * d2) by (nonlinear_arith);
    assert((b2 * d1) * a1 == (a1 * b2) * d1) by (nonlinear_arith);
    assert((d1 * a2 - d2 * a1) * b1 == (d1 * a2) * b1 - (d2 * a1) * b1) by (nonlinear_arith);
    assert((d1 * a2) * b1 == (a2 * b1) * d1) by (nonlinear_arith);
    assert((d2 * a1) * b1 == (a1 * b1) * d2) by (nonlinear_arith);
    assert((a1 * b2 - a2 * b1) * d1 == (a1 * b2) * d1 - (a2 * b1) * d1) by (nonlinear_arith);
    assert((b1 * d2 - b2 * d1) * a2 == (b1 * d2) * a2 - (b2 * d1) * a2) by (nonlinear_arith);
    assert((b1 * d2) * a2 == (a2 * b1) * d2) by (nonlinear_arith);
    assert((b2 * d1) * a2 == (a2 * b2) * d1) by (nonlinear_arith);
    assert((d1 * a2 - d2 * a1) * b2 == (d1 * a2) * b2 - (d2 * a1) * b2) by (nonlinear_arith);
    assert((d1 * a2) * b2 == (a2 * b2) * d1) by (nonlinear_arith);
    assert((d2 * a1) * b2 == (a1 * b2) * d2) by (nonlinear_arith);
    assert((a1 * b2 - a2 * b1) * d2 == (a1 * b2) * d2 - (a2 * b1) * d2) by (nonlinear_arith);
    assert((b2 * d0 - b0 * d2) * a0 == (b2 * d0) * a0 - (b0 * d2) * a0) by (nonlinear_arith);
    assert((b2 * d0) * a0 == (a0 * b2) * d0) by (nonlinear_arith);
    assert((b0 * d2) * a0 == (a0 * b0) * d2) by (nonlinear_arith);
    assert((d2 * a0 - d0 * a2) * b0 == (d2 * a0) * b0 - (d0 * a2) * b0) by (nonlinear_arith);
    assert((d2 * a0) * b0 == (a0 * b0) * d2) by (nonlinear_arith);
    assert((d0 * a2) * b0 == (a2 * b0) * d0) by (nonlinear_arith);
    assert((a2 * b0 - a0 * b2) * d0 == (a2 * b0) * d0 - (a0 * b2) * d0) by (nonlinear_arith);
    assert((b2 * d0 - b0 * d2) * a2 == (b2 * d0) * a2 - (b0 * d2) * a2) by (nonlinear_arith);
    assert((b2 * d0) * a2 == (a2 * b2) * d0) by (nonlinear_arith);
    assert((b0 * d2) * a2 == (a2 * b0) * d2) by (nonlinear_arith);
    assert((d2 * a0 - d0 * a2) * b2 == (d2 * a0) * b2 - (d0 * a2) * b2) by (nonlinear_arith);
    assert((d2 * a0) * b2 == (a0 * b2) * d2) by (nonlinear_arith);
    assert((d0 * a2) * b2 == (a2 * b2) * d0) by (nonlinear_arith);
    assert((a2 * b0 - a0 * b2) * d2 == (a2 * b0) * d2 - (a0 * b2) * d2) by (nonlinear_arith);
    assert((b0 * d1 - b1 * d0) * a0 == (b0 * d1) * a0 - (b1 * d0) * a0) by (nonlinear_arith);
    assert((b0 * d1) * a0 == (a0 * b0) * d1) by (nonlinear_arith);
    assert((b1 * d0) * a0 == (a0 * b1) * d0) by (nonlinear_arith);
    assert((d0 * a1 - d1 * a0) * b0 == (d0 * a1) * b0 - (d1 * a0) * b0) by (nonlinear_arith);
    assert((d0 * a1) * b0 == (a1 * b0) * d0) by (nonlinear_arith);
    assert((d1 * a0) * b0 == (a0 * b0) * d1) by (nonlinear_arith);
    assert((a0 * b1 - a1 * b0) * d0 == (a0 * b1) * d0 - (a1 * b0) * d0) by (nonlinear_arith);
    assert((b0 * d1 - b1 * d0) * a1 == (b0 * d1) * a1 - (b1 * d0) * a1) by (nonlinear_arith);
    assert((b0 * d1) * a1 == (a1 * b0) * d1) by (nonlinear_arith);
    assert((b1 * d0) * a1 == (a1 * b1) * d0) by (nonlinear_arith);
    assert((d0 * a1 - d1 * a0) * b1 == (d0 * a1) * b1 - (d1 * a0) * b1) by (nonlinear_arith);
    assert((d0 * a1) * b1 == (a1 * b1) * d0) by (nonlinear_arith);
    assert((d1 * a0) * b1 == (a0 * b1) * d1) by (nonlinear_arith);
    assert((a0 * b1 - a1 * b0) * d1 == (a0 * b1) * d1 - (a1 * b0) * d1) by (nonlinear_arith);
}

/// In exact integer arithmetic the cofactor inverse undoes the block and the block
/// undoes the cofactor inverse: either composition scales a vector by the
/// determinant `c0 . (c1 x c2)`, which the inverse then divides out; the translation
/// column is subtracted before and added after, so it cancels. This is the algebra
/// of `Matrix4::mat_invtf_ray`; the fixed-point functions round every product and
/// quotient, so for them the round trip holds only approximately.
pub proof fn lemma_cofactor_round_trip(
    c0: (int, int, int),
    c1: (int, int, int),
    c2: (int, int, int),
    p: (int, int, int),
)
    ensures
        cofactor_apply(c0, c1, c2, block_apply(c0, c1, c2, p)) == scale3(dot3(c0, cross3(c1, c2)), p),
        block_apply(c0, c1, c2, cofactor_apply(c0, c1, c2, p)) == scale3(dot3(c0, cross3(c1, c2)), p),
{
    lemma_adjugate(c0, c1, c2);
    let det = dot3(c0, cross3(c1, c2));
    let (x, y, z) = p;
    let y0 = cross3(c1, c2);
    let y1 = cross3(c2, c0);
    let y2 = cross3(c0, c1);
    // Forward, then cofactors.
    lemma_distribute(y0.0, x, c0.0, y, c1.0, z, c2.0);
    lemma_distribute(y0.1, x, c0.1, y, c1.1, z, c2.1);
    lemma_distribute(y0.2, x, c0.2, y, c1.2, z, c2.2);
    lemma_factor(x, y0.0 * c0.0, y0.1 * c0.1, y0.2 * c0.2);
    lemma_factor(y, y0.0 * c1.0, y0.1 * c1.1, y0.2 * c1.2);
    lemma_factor(z, y0.0 * c2.0, y0.1 * c2.1, y0.2 * c2.2);
    lemma_distribute(y1.0, x, c0.0, y, c1.0, z, c2.0);
    lemma_distribute(y1.1, x, c0.1, y, c1.1, z, c2.1);
    lemma_distribute(y1.2, x, c0.2, y, c1.2, z, c2.2);
    lemma_factor(x, y1.0 * c0.0, y1.1 * c0.1, y1.2 * c0.2);
    lemma_factor(y, y1.0 * c1.0, y1.1 * c1.1, y1.2 * c1.2);
    lemma_factor(z, y1.0 * c2.0, y1.1 * c2.1, y1.2 * c2.2);
    lemma_distribute(y2.0, x, c0.0, y, c1.0, z, c2.0);
    lemma_distribute(y2.1, x, c0.1, y, c1.1, z, c2.1);
    lemma_distribute(y2.2, x, c0.2, y, c1.2, z, c2.2);
    lemma_factor(x, y2.0 * c0.0, y2.1 * c0.1, y2.2 * c0.2);
    lemma_factor(y, y2.0 * c1.0, y2.1 * c1.1, y2.2 * c1.2);
    lemma_factor(z, y2.0 * c2.0, y2.1 * c2.1, y2.2 * c2.2);
    assert(x * det == det * x && y * det == det * y && z * det == det * z) by (nonlinear_arith);
    // Cofactors, then forward.
    let q = cofactor_apply(c0, c1, c2, p);
    lemma_distribute(c0.0, x, y0.0, y, y0.1, z, y0.2);
    lemma_distribute(c1.0, x, y1.0, y, y1.1, z, y1.2);
    lemma_distribute(c2.0, x, y2.0, y, y2.1, z, y2.2);
    lemma_distribute(c0.1, x, y0.0, y, y0.1, z, y0.2);
    lemma_distribute(c1.1, x, y1.0, y, y1.1, z, y1.2);
    lemma_distribute(c2.1, x, y2.0, y, y2.1, z, y2.2);
    lemma_distribute(c0.2, x, y0.0, y, y0.1, z, y0.2);
    lemma_distribute(c1.2, x, y1.0, y, y1.1, z, y1.2);
    lemma_distribute(c2.2, x, y2.0, y, y2.1, z, y2.2);
    lemma_factor(x, y0.0 * c0.0, y1.0 * c1.0, y2.0 * c2.0);
    lemma_factor(y, y0.1 * c0.0, y1.1 * c1.0, y2.1 * c2.0);
    lemma_factor(z, y0.2 * c0.0, y1.2 * c1.0, y2.2 * c2.0);
    lemma_factor(x, y0.0 * c0.1, y1.0 * c1.1, y2.0 * c2.1);
    lemma_factor(y, y0.1 * c0.1, y1.1 * c1.1, y2.1 * c2.1);
    lemma_factor(z, y0.2 * c0.1, y1.2 * c1.1, y2.2 * c2.1);
    lemma_factor(x, y0.0 * c0.2, y1.0 * c1.2, y2.0 * c2.2);
    lemma_factor(y, y0.1 * c0.2, y1.1 * c1.2, y2.1 * c2.2);
    lemma_factor(z, y0.2 * c0.2, y1.2 * c1.2, y2.2 * c2.2);
    assert(q.0 * c0.0 + q.1 * c1.0 + q.2 * c2.0 == det * x);
    assert(q.0 * c0.1 + q.1 * c1.1 + q.2 * c2.1 == det * y);
    assert(q.0 * c0.2 + q.1 * c1.2 + q.2 * c2.2 == det * z);
}

} // verus!
