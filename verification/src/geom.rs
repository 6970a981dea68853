//! Exact integer vector algebra: differences, cross and dot products, and a
//! verified coplanarity test over point sequences.

use vstd::prelude::*;

use vstd::arithmetic::mul::{
    lemma_mul_by_zero_is_zero, lemma_mul_is_associative, lemma_mul_is_commutative,
    lemma_mul_is_distributive_add, lemma_mul_is_distributive_add_other_way,
    lemma_mul_is_distributive_sub, lemma_mul_nonzero, lemma_mul_unary_negation,
};

use crate::math::Point;

verus! {

/// The difference `a - b`, as a mathematical vector.
pub open spec fn sub_pt(a: Point, b: Point) -> (int, int, int) {
    (a.x - b.x, a.y - b.y, a.z - b.z)
}

/// The cross product.
pub open spec fn cross(u: (int, int, int), v: (int, int, int)) -> (int, int, int) {
    (u.1 * v.2 - u.2 * v.1, u.2 * v.0 - u.0 * v.2, u.0 * v.1 - u.1 * v.0)
}

/// The dot product.
pub open spec fn dot(u: (int, int, int), v: (int, int, int)) -> int {
    u.0 * v.0 + u.1 * v.1 + u.2 * v.2
}

/// The zero vector test.
pub open spec fn is_zero3(u: (int, int, int)) -> bool {
    u.0 == 0 && u.1 == 0 && u.2 == 0
}

/// Whether `n` is orthogonal to the difference of every point of `pts` from
/// the first: `n` is then a normal of a plane through all of them.
pub open spec fn normal_fits(n: (int, int, int), pts: Seq<Point>) -> bool {
    forall|i: int| 0 <= i < pts.len() ==> dot(n, sub_pt(#[trigger] pts[i], pts[0])) == 0
}

/// A point sequence is coplanar when some plane holds every point: there is
/// a nonzero normal orthogonal to all differences from the first point.
pub open spec fn coplanar(pts: Seq<Point>) -> bool {
    pts.len() == 0 || exists|n: (int, int, int)| !is_zero3(n) && #[trigger] normal_fits(n, pts)
}

/// The magnitude of a product is bounded by the product of the magnitudes.
proof fn lemma_mul_bound(a: int, b: int, aa: int, bb: int)
    requires
        -aa <= a <= aa,
        -bb <= b <= bb,
        0 <= aa,
        0 <= bb,
    ensures
        -(aa * bb) <= a * b <= aa * bb,
{
    assert(-(aa * bb) <= a * b <= aa * bb) by (nonlinear_arith)
        requires
            -aa <= a <= aa,
            -bb <= b <= bb,
            0 <= aa,
            0 <= bb,
    ;
}

/// Exchange the two leading factors of a triple product.
proof fn lemma_mul_swap(a: int, b: int, c: int)
    ensures
        a * (b * c) == b * (a * c),
{
    lemma_mul_is_associative(a, b, c);
    lemma_mul_is_commutative(a, b);
    lemma_mul_is_associative(b, a, c);
}

proof fn lemma_expand_a(n0: int, n1: int, n2: int, u0: int, u1: int, u2: int, v0: int, v1: int, v2: int)
    ensures
        n1 * (u0 * v1 - u1 * v0) - n2 * (u2 * v0 - u0 * v2) == u0 * (n0 * v0 + n1 * v1 + n2 * v2)
            - v0 * (n0 * u0 + n1 * u1 + n2 * u2),
{
    lemma_mul_is_distributive_sub(n1, u0 * v1, u1 * v0);
    lemma_mul_is_distributive_sub(n2, u2 * v0, u0 * v2);
    lemma_mul_is_distributive_add(u0, n0 * v0 + n1 * v1, n2 * v2);
    lemma_mul_is_distributive_add(u0, n0 * v0, n1 * v1);
    lemma_mul_is_distributive_add(v0, n0 * u0 + n1 * u1, n2 * u2);
    lemma_mul_is_distributive_add(v0, n0 * u0, n1 * u1);
    lemma_mul_swap(n1, u0, v1);
    lemma_mul_swap(n2, u0, v2);
    lemma_mul_is_commutative(u1, v0);
    lemma_mul_swap(n1, v0, u1);
    lemma_mul_is_commutative(u2, v0);
    lemma_mul_swap(n2, v0, u2);
    lemma_mul_swap(u0, n0, v0);
    lemma_mul_swap(v0, n0, u0);
    lemma_mul_is_commutative(u0, v0);
}

proof fn lemma_expand_b(n0: int, n1: int, n2: int, u0: int, u1: int, u2: int, v0: int, v1: int, v2: int)
    ensures
        n2 * (u1 * v2 - u2 * v1) - n0 * (u0 * v1 - u1 * v0) == u1 * (n0 * v0 + n1 * v1 + n2 * v2)
            - v1 * (n0 * u0 + n1 * u1 + n2 * u2),
{
    lemma_mul_is_distributive_sub(n2, u1 * v2, u2 * v1);
    lemma_mul_is_distributive_sub(n0, u0 * v1, u1 * v0);
    lemma_mul_is_distributive_add(u1, n0 * v0 + n1 * v1, n2 * v2);
    lemma_mul_is_distributive_add(u1, n0 * v0, n1 * v1);
    lemma_mul_is_distributive_add(v1, n0 * u0 + n1 * u1, n2 * u2);
    lemma_mul_is_distributive_add(v1, n0 * u0, n1 * u1);
    lemma_mul_swap(n2, u1, v2);
    lemma_mul_swap(n0, u1, v0);
    lemma_mul_is_commutative(u2, v1);
    lemma_mul_swap(n2, v1, u2);
    lemma_mul_is_commutative(u0, v1);
    lemma_mul_swap(n0, v1, u0);
    lemma_mul_swap(u1, n1, v1);
    lemma_mul_swap(v1, n1, u1);
    lemma_mul_is_commutative(u1, v1);
}

proof fn lemma_expand_c(n0: int, n1: int, n2: int, u0: int, u1: int, u2: int, v0: int, v1: int, v2: int)
    ensures
        n0 * (u2 * v0 - u0 * v2) - n1 * (u1 * v2 - u2 * v1) == u2 * (n0 * v0 + n1 * v1 + n2 * v2)
            - v2 * (n0 * u0 + n1 * u1 + n2 * u2),
{
    lemma_mul_is_distributive_sub(n0, u2 * v0, u0 * v2);
    lemma_mul_is_distributive_sub(n1, u1 * v2, u2 * v1);
    lemma_mul_is_distributive_add(u2, n0 * v0 + n1 * v1, n2 * v2);
    lemma_mul_is_distributive_add(u2, n0 * v0, n1 * v1);
    lemma_mul_is_distributive_add(v2, n0 * u0 + n1 * u1, n2 * u2);
    lemma_mul_is_distributive_add(v2, n0 * u0, n1 * u1);
    lemma_mul_swap(n0, u2, v0);
    lemma_mul_swap(n1, u2, v1);
    lemma_mul_is_commutative(u0, v2);
    lemma_mul_swap(n0, v2, u0);
    lemma_mul_is_commutative(u1, v2);
    lemma_mul_swap(n1, v2, u1);
    lemma_mul_swap(u2, n2, v2);
    lemma_mul_swap(v2, n2, u2);
    lemma_mul_is_commutative(u2, v2);
}

/// A vector orthogonal to `u` and to `v` is parallel to their cross
/// product.
proof fn lemma_cross_of_perps(n: (int, int, int), u: (int, int, int), v: (int, int, int))
    requires
        dot(n, u) == 0,
        dot(n, v) == 0,
    ensures
        is_zero3(cross(n, cross(u, v))),
{
    lemma_expand_a(n.0, n.1, n.2, u.0, u.1, u.2, v.0, v.1, v.2);
    lemma_expand_b(n.0, n.1, n.2, u.0, u.1, u.2, v.0, v.1, v.2);
    lemma_expand_c(n.0, n.1, n.2, u.0, u.1, u.2, v.0, v.1, v.2);
}

proof fn lemma_factor_x(n0: int, n1: int, n2: int, m0: int, m1: int, m2: int, w0: int, w1: int, w2: int)
    requires
        n0 * m1 - n1 * m0 == 0,
        n2 * m0 - n0 * m2 == 0,
    ensures
        (m0 * w0 + m1 * w1 + m2 * w2) * n0 == m0 * (n0 * w0 + n1 * w1 + n2 * w2),
{
    lemma_mul_is_distributive_add_other_way(n0, m0 * w0 + m1 * w1, m2 * w2);
    lemma_mul_is_distributive_add_other_way(n0, m0 * w0, m1 * w1);
    lemma_mul_is_distributive_add(m0, n0 * w0 + n1 * w1, n2 * w2);
    lemma_mul_is_distributive_add(m0, n0 * w0, n1 * w1);
    lemma_mul_is_associative(m0, w0, n0);
    lemma_mul_is_commutative(w0, n0);
    lemma_mul_is_commutative(m1 * w1, n0);
    lemma_mul_is_associative(n0, m1, w1);
    lemma_mul_is_associative(n1, m0, w1);
    lemma_mul_swap(n1, m0, w1);
    lemma_mul_is_commutative(m2 * w2, n0);
    lemma_mul_is_associative(n0, m2, w2);
    lemma_mul_is_associative(n2, m0, w2);
    lemma_mul_swap(n2, m0, w2);
}

proof fn lemma_factor_y(n0: int, n1: int, n2: int, m0: int, m1: int, m2: int, w0: int, w1: int, w2: int)
    requires
        n0 * m1 - n1 * m0 == 0,
        n1 * m2 - n2 * m1 == 0,
    ensures
        (m0 * w0 + m1 * w1 + m2 * w2) * n1 == m1 * (n0 * w0 + n1 * w1 + n2 * w2),
{
    lemma_mul_is_distributive_add_other_way(n1, m0 * w0 + m1 * w1, m2 * w2);
    lemma_mul_is_distributive_add_other_way(n1, m0 * w0, m1 * w1);
    lemma_mul_is_distributive_add(m1, n0 * w0 + n1 * w1, n2 * w2);
    lemma_mul_is_distributive_add(m1, n0 * w0, n1 * w1);
    lemma_mul_is_commutative(m0 * w0, n1);
    lemma_mul_is_associative(n1, m0, w0);
    lemma_mul_is_associative(n0, m1, w0);
    lemma_mul_swap(n0, m1, w0);
    lemma_mul_is_associative(m1, w1, n1);
    lemma_mul_is_commutative(w1, n1);
    lemma_mul_is_commutative(m2 * w2, n1);
    lemma_mul_is_associative(n1, m2, w2);
    lemma_mul_is_associative(n2, m1, w2);
    lemma_mul_swap(n2, m1, w2);
}

proof fn lemma_factor_z(n0: int, n1: int, n2: int, m0: int, m1: int, m2: int, w0: int, w1: int, w2: int)
    requires
        n1 * m2 - n2 * m1 == 0,
        n2 * m0 - n0 * m2 == 0,
    ensures
        (m0 * w0 + m1 * w1 + m2 * w2) * n2 == m2 * (n0 * w0 + n1 * w1 + n2 * w2),
{
    lemma_mul_is_distributive_add_other_way(n2, m0 * w0 + m1 * w1, m2 * w2);
    lemma_mul_is_distributive_add_other_way(n2, m0 * w0, m1 * w1);
    lemma_mul_is_distributive_add(m2, n0 * w0 + n1 * w1, n2 * w2);
    lemma_mul_is_distributive_add(m2, n0 * w0, n1 * w1);
    lemma_mul_is_commutative(m0 * w0, n2);
    lemma_mul_is_associative(n2, m0, w0);
    lemma_mul_is_associative(n0, m2, w0);
    lemma_mul_swap(n0, m2, w0);
    lemma_mul_is_commutative(m1 * w1, n2);
    lemma_mul_is_associative(n2, m1, w1);
    lemma_mul_is_associative(n1, m2, w1);
    lemma_mul_swap(n1, m2, w1);
    lemma_mul_is_associative(m2, w2, n2);
    lemma_mul_is_commutative(w2, n2);
}

proof fn lemma_zero_product(a: int, b: int)
    requires
        a * b == 0,
        b != 0,
    ensures
        a == 0,
{
    lemma_mul_nonzero(a, b);
}

/// Two parallel vectors, one of them nonzero, are orthogonal to the same
/// vectors.
proof fn lemma_parallel_perp(n: (int, int, int), m: (int, int, int), w: (int, int, int))
    requires
        is_zero3(cross(n, m)),
        !is_zero3(n),
        dot(n, w) == 0,
    ensures
        dot(m, w) == 0,
{
    if n.0 != 0 {
        lemma_factor_x(n.0, n.1, n.2, m.0, m.1, m.2, w.0, w.1, w.2);
        lemma_zero_product(dot(m, w), n.0);
    } else if n.1 != 0 {
        lemma_factor_y(n.0, n.1, n.2, m.0, m.1, m.2, w.0, w.1, w.2);
        lemma_zero_product(dot(m, w), n.1);
    } else {
        lemma_factor_z(n.0, n.1, n.2, m.0, m.1, m.2, w.0, w.1, w.2);
        lemma_zero_product(dot(m, w), n.2);
    }
}

/// A vector every difference is parallel to gives a normal: each of the
/// three listed perpendiculars of `u` is orthogonal to any `w` with
/// `cross(u, w) == 0`.
proof fn lemma_collinear_perp(u: (int, int, int), w: (int, int, int))
    requires
        is_zero3(cross(u, w)),
    ensures
        dot((-u.1, u.0, 0), w) == 0,
        dot((u.2, 0, -u.0), w) == 0,
{
    lemma_perp_xy(u.0, u.1, u.2, w.0, w.1, w.2);
    lemma_perp_zx(u.0, u.1, u.2, w.0, w.1, w.2);
}

proof fn lemma_perp_xy(u0: int, u1: int, u2: int, w0: int, w1: int, w2: int)
    requires
        u0 * w1 - u1 * w0 == 0,
    ensures
        (-u1) * w0 + u0 * w1 + 0 * w2 == 0,
{
    lemma_mul_unary_negation(u1, w0);
    lemma_mul_by_zero_is_zero(w2);
}

proof fn lemma_perp_zx(u0: int, u1: int, u2: int, w0: int, w1: int, w2: int)
    requires
        u2 * w0 - u0 * w2 == 0,
    ensures
        u2 * w0 + 0 * w1 + (-u0) * w2 == 0,
{
    lemma_mul_unary_negation(u0, w2);
    lemma_mul_by_zero_is_zero(w1);
}

/// The coordinate difference of two points, exactly.
fn diff(a: &Point, b: &Point) -> (d: (i64, i64, i64))
    ensures
        (d.0 as int, d.1 as int, d.2 as int) == sub_pt(*a, *b),
        -0x1_0000_0000 <= d.0 <= 0x1_0000_0000,
        -0x1_0000_0000 <= d.1 <= 0x1_0000_0000,
        -0x1_0000_0000 <= d.2 <= 0x1_0000_0000,
{
    (
        (a.x as i64) - (b.x as i64),
        (a.y as i64) - (b.y as i64),
        (a.z as i64) - (b.z as i64),
    )
}

/// The cross product of two bounded difference vectors, exactly.
fn cross_wide(u: (i64, i64, i64), v: (i64, i64, i64)) -> (m: (i128, i128, i128))
    requires
        -0x1_0000_0000 <= u.0 <= 0x1_0000_0000,
        -0x1_0000_0000 <= u.1 <= 0x1_0000_0000,
        -0x1_0000_0000 <= u.2 <= 0x1_0000_0000,
        -0x1_0000_0000 <= v.0 <= 0x1_0000_0000,
        -0x1_0000_0000 <= v.1 <= 0x1_0000_0000,
        -0x1_0000_0000 <= v.2 <= 0x1_0000_0000,
    ensures
        (m.0 as int, m.1 as int, m.2 as int) == cross(
            (u.0 as int, u.1 as int, u.2 as int),
            (v.0 as int, v.1 as int, v.2 as int),
        ),
        -0x2_0000_0000_0000_0000 <= m.0 <= 0x2_0000_0000_0000_0000,
        -0x2_0000_0000_0000_0000 <= m.1 <= 0x2_0000_0000_0000_0000,
        -0x2_0000_0000_0000_0000 <= m.2 <= 0x2_0000_0000_0000_0000,
{
    proof {
        lemma_mul_bound(u.1 as int, v.2 as int, 0x1_0000_0000, 0x1_0000_0000);
        lemma_mul_bound(u.2 as int, v.1 as int, 0x1_0000_0000, 0x1_0000_0000);
        lemma_mul_bound(u.2 as int, v.0 as int, 0x1_0000_0000, 0x1_0000_0000);
        lemma_mul_bound(u.0 as int, v.2 as int, 0x1_0000_0000, 0x1_0000_0000);
        lemma_mul_bound(u.0 as int, v.1 as int, 0x1_0000_0000, 0x1_0000_0000);
        lemma_mul_bound(u.1 as int, v.0 as int, 0x1_0000_0000, 0x1_0000_0000);
    }
    (
        (u.1 as i128) * (v.2 as i128) - (u.2 as i128) * (v.1 as i128),
        (u.2 as i128) * (v.0 as i128) - (u.0 as i128) * (v.2 as i128),
        (u.0 as i128) * (v.1 as i128) - (u.1 as i128) * (v.0 as i128),
    )
}

/// The dot product of a bounded cross product with a bounded difference,
/// exactly.
fn dot_wide(m: (i128, i128, i128), w: (i64, i64, i64)) -> (r: i128)
    requires
        -0x2_0000_0000_0000_0000 <= m.0 <= 0x2_0000_0000_0000_0000,
        -0x2_0000_0000_0000_0000 <= m.1 <= 0x2_0000_0000_0000_0000,
        -0x2_0000_0000_0000_0000 <= m.2 <= 0x2_0000_0000_0000_0000,
        -0x1_0000_0000 <= w.0 <= 0x1_0000_0000,
        -0x1_0000_0000 <= w.1 <= 0x1_0000_0000,
        -0x1_0000_0000 <= w.2 <= 0x1_0000_0000,
    ensures
        r as int == dot(
            (m.0 as int, m.1 as int, m.2 as int),
            (w.0 as int, w.1 as int, w.2 as int),
        ),
{
    proof {
        lemma_mul_bound(m.0 as int, w.0 as int, 0x2_0000_0000_0000_0000, 0x1_0000_0000);
        lemma_mul_bound(m.1 as int, w.1 as int, 0x2_0000_0000_0000_0000, 0x1_0000_0000);
        lemma_mul_bound(m.2 as int, w.2 as int, 0x2_0000_0000_0000_0000, 0x1_0000_0000);
    }
    (m.0) * (w.0 as i128) + (m.1) * (w.1 as i128) + (m.2) * (w.2 as i128)
}

/// Find a point whose difference from the first point does not vanish.
fn find_nonzero_diff(pts: &Vec<Point>) -> (r: Option<usize>)
    requires
        pts@.len() >= 1,
    ensures
        match r {
            Option::None => forall|j: int|
                0 <= j < pts@.len() ==> sub_pt(#[trigger] pts@[j], pts@[0]) == (0int, 0int, 0int),
            Option::Some(i) => 0 <= i < pts@.len() && sub_pt(pts@[i as int], pts@[0]) != (
                0int,
                0int,
                0int,
            ),
        },
{
    let n = pts.len();
    for i in 0..n
        invariant
            n == pts@.len(),
            n >= 1,
            forall|j: int|
                0 <= j < i ==> sub_pt(#[trigger] pts@[j], pts@[0]) == (0int, 0int, 0int),
    {
        let d = diff(&pts[i], &pts[0]);
        if d.0 != 0 || d.1 != 0 || d.2 != 0 {
            return Option::Some(i);
        }
    }
    Option::None
}

/// Find a point whose difference from the first point is not parallel to
/// `u`.
fn find_independent(pts: &Vec<Point>, u: (i64, i64, i64)) -> (r: Option<usize>)
    requires
        pts@.len() >= 1,
        -0x1_0000_0000 <= u.0 <= 0x1_0000_0000,
        -0x1_0000_0000 <= u.1 <= 0x1_0000_0000,
        -0x1_0000_0000 <= u.2 <= 0x1_0000_0000,
    ensures
        ({
            let uu = (u.0 as int, u.1 as int, u.2 as int);
            match r {
                Option::None => forall|j: int|
                    0 <= j < pts@.len() ==> is_zero3(
                        cross(uu, sub_pt(#[trigger] pts@[j], pts@[0])),
                    ),
                Option::Some(i) => 0 <= i < pts@.len() && !is_zero3(
                    cross(uu, sub_pt(pts@[i as int], pts@[0])),
                ),
            }
        }),
{
    let n = pts.len();
    for i in 0..n
        invariant
            n == pts@.len(),
            n >= 1,
            -0x1_0000_0000 <= u.0 <= 0x1_0000_0000,
            -0x1_0000_0000 <= u.1 <= 0x1_0000_0000,
            -0x1_0000_0000 <= u.2 <= 0x1_0000_0000,
            forall|j: int|
                0 <= j < i ==> is_zero3(
                    cross((u.0 as int, u.1 as int, u.2 as int), sub_pt(#[trigger] pts@[j], pts@[0])),
                ),
    {
        let d = diff(&pts[i], &pts[0]);
        let m = cross_wide(u, d);
        if m.0 != 0 || m.1 != 0 || m.2 != 0 {
            return Option::Some(i);
        }
    }
    Option::None
}

/// Decide whether every point of `pts` lies in one plane.
pub fn coplanar_check(pts: &Vec<Point>) -> (r: bool)
    ensures
        r == coplanar(pts@),
{
    let n = pts.len();
    if n == 0 {
        return true;
    }
    let iu = match find_nonzero_diff(pts) {
        Option::None => {
            // every point coincides with the first: any plane through it fits
            proof {
                let w: (int, int, int) = (0, 0, 1);
                assert forall|i: int| 0 <= i < pts@.len() implies dot(
                    w,
                    sub_pt(#[trigger] pts@[i], pts@[0]),
                ) == 0 by {
                    let d = sub_pt(pts@[i], pts@[0]);
                    assert(d == (0int, 0int, 0int));
                    assert(d.0 == 0 && d.1 == 0 && d.2 == 0);
                    assert(dot(w, d) == 0 * d.0 + 0 * d.1 + 1 * d.2);
                    assert(dot(w, d) == 0);
                }
                assert(normal_fits(w, pts@));
                assert(!is_zero3(w) && normal_fits(w, pts@));
            }
            return true;
        },
        Option::Some(i) => i,
    };
    let u = diff(&pts[iu], &pts[0]);
    let ghost uu = (u.0 as int, u.1 as int, u.2 as int);
    let iv = match find_independent(pts, u) {
        Option::None => {
            // every difference is parallel to u: a perpendicular of u fits
            proof {
                if u.0 != 0 || u.1 != 0 {
                    let w = (-uu.1, uu.0, 0int);
                    assert forall|j: int| 0 <= j < pts@.len() implies dot(
                        w,
                        sub_pt(#[trigger] pts@[j], pts@[0]),
                    ) == 0 by {
                        lemma_collinear_perp(uu, sub_pt(pts@[j], pts@[0]));
                    }
                    assert(!is_zero3(w) && normal_fits(w, pts@));
                } else {
                    let w = (uu.2, 0int, -uu.0);
                    assert forall|j: int| 0 <= j < pts@.len() implies dot(
                        w,
                        sub_pt(#[trigger] pts@[j], pts@[0]),
                    ) == 0 by {
                        lemma_collinear_perp(uu, sub_pt(pts@[j], pts@[0]));
                    }
                    assert(!is_zero3(w) && normal_fits(w, pts@));
                }
            }
            return true;
        },
        Option::Some(i) => i,
    };
    let v = diff(&pts[iv], &pts[0]);
    let ghost vv = (v.0 as int, v.1 as int, v.2 as int);
    let m = cross_wide(u, v);
    let ghost mm = (m.0 as int, m.1 as int, m.2 as int);
    for k in 0..n
        invariant
            n == pts@.len(),
            n >= 1,
            0 <= iu < n,
            0 <= iv < n,
            uu == sub_pt(pts@[iu as int], pts@[0]),
            vv == sub_pt(pts@[iv as int], pts@[0]),
            mm == cross(uu, vv),
            !is_zero3(mm),
            -0x2_0000_0000_0000_0000 <= m.0 <= 0x2_0000_0000_0000_0000,
            -0x2_0000_0000_0000_0000 <= m.1 <= 0x2_0000_0000_0000_0000,
            -0x2_0000_0000_0000_0000 <= m.2 <= 0x2_0000_0000_0000_0000,
            mm == (m.0 as int, m.1 as int, m.2 as int),
            forall|j: int| 0 <= j < k ==> dot(mm, sub_pt(#[trigger] pts@[j], pts@[0])) == 0,
    {
        let d = diff(&pts[k], &pts[0]);
        let s = dot_wide(m, d);
        if s != 0 {
            // some point leaves the plane of u and v: no normal can fit
            proof {
                assert forall|nn: (int, int, int)| !(!is_zero3(nn) && normal_fits(
                    nn,
                    pts@,
                )) by {
                    if !is_zero3(nn) && normal_fits(nn, pts@) {
                        assert(dot(nn, sub_pt(pts@[iu as int], pts@[0])) == 0);
                        assert(dot(nn, sub_pt(pts@[iv as int], pts@[0])) == 0);
                        lemma_cross_of_perps(nn, uu, vv);
                        assert(dot(nn, sub_pt(pts@[k as int], pts@[0])) == 0);
                        lemma_parallel_perp(nn, mm, sub_pt(pts@[k as int], pts@[0]));
                    }
                }
            }
            return false;
        }
    }
    // the cross product of u and v is a nonzero normal for every point
    proof {
        assert(normal_fits(mm, pts@));
        assert(!is_zero3(mm) && normal_fits(mm, pts@));
    }
    true
}

} // verus!
