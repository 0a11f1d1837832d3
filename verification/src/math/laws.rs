//! Algebraic laws of the vector types, stated over the specifications that their
//! operations' contracts use.
use std::ops::{Add, Mul, Neg, Sub};

use vstd::prelude::*;
use vstd::std_specs::ops::{AddSpec, MulSpec, NegSpec, SubSpec};

use crate::math::vec2::{lemma_add_view, lemma_neg_view, lemma_sub_view};
use crate::math::{One, Vec2, Vec3};

verus! {

/// `to_array` followed by `from_array` gives back the same two-dimensional vector:
/// an array whose elements are `v`'s components rebuilds `v`.
pub proof fn lemma_vec2_array_round_trip<T>(v: Vec2<T>, a: [T; 2])
    requires
        a@ == seq![v@.0, v@.1],
    ensures
        (a[0], a[1]) == v@,
{
    assert(a@[0] == v@.0 && a@[1] == v@.1);
}

/// `from_array` followed by `to_array` gives back the same array.
pub proof fn lemma_vec2_from_array_round_trip<T>(a: [T; 2], v: Vec2<T>)
    requires
        v@ == (a[0], a[1]),
    ensures
        seq![v@.0, v@.1] == a@,
{
    assert(seq![v@.0, v@.1] =~= a@);
}

/// `to_array` followed by `from_array` gives back the same three-dimensional vector.
pub proof fn lemma_vec3_array_round_trip<T>(v: Vec3<T>, a: [T; 3])
    requires
        a@ == seq![v.x, v.y, v.z],
    ensures
        (Vec3 { x: a[0], y: a[1], z: a[2] }) == v,
{
    assert(a@[0] == v.x && a@[1] == v.y && a@[2] == v.z);
}

/// `from_array` followed by `to_array` gives back the same array.
pub proof fn lemma_vec3_from_array_round_trip<T>(a: [T; 3], v: Vec3<T>)
    requires
        v == (Vec3 { x: a[0], y: a[1], z: a[2] }),
    ensures
        seq![v.x, v.y, v.z] == a@,
{
    assert(seq![v.x, v.y, v.z] =~= a@);
}

// ---------------------------------------------------------------------------
// Laws of the scalars that the vector laws rest on. Each is stated only where the
// scalar operations involved are defined (their `*_req` holds).
// ---------------------------------------------------------------------------

/// Scalar multiplication commutes, and is defined on `(p, q)` exactly when on `(q, p)`.
pub open spec fn mul_commutes<T: Mul<Output = T>>() -> bool {
    forall|p: T, q: T|
        #![trigger p.mul_spec(q)]
        p.mul_spec(q) == q.mul_spec(p) && p.mul_req(q) == q.mul_req(p)
}

/// Scalar addition commutes, and is defined on `(p, q)` exactly when on `(q, p)`.
pub open spec fn add_commutes<T: Add<Output = T>>() -> bool {
    forall|p: T, q: T|
        #![trigger p.add_spec(q)]
        p.add_spec(q) == q.add_spec(p) && p.add_req(q) == q.add_req(p)
}

/// Scalar addition associates wherever both groupings are defined.
pub open spec fn add_associates<T: Add<Output = T>>() -> bool {
    forall|p: T, q: T, r: T|
        #![trigger p.add_spec(q).add_spec(r), p.add_spec(q.add_spec(r))]
        p.add_req(q) && p.add_spec(q).add_req(r) && q.add_req(r) && p.add_req(q.add_spec(r))
            ==> p.add_spec(q).add_spec(r) == p.add_spec(q.add_spec(r))
}

/// Subtracting `q` undoes adding it: `(p + q) - q == p`, and the subtraction is
/// defined, wherever the addition is.
pub open spec fn add_then_sub_cancels<T: Add<Output = T> + Sub<Output = T>>() -> bool {
    forall|p: T, q: T|
        #![trigger p.add_spec(q)]
        p.add_req(q) ==> p.add_spec(q).sub_req(q) && p.add_spec(q).sub_spec(q) == p
}

/// Adding `q` undoes subtracting it: `(p - q) + q == p`, and the addition is
/// defined, wherever the subtraction is.
pub open spec fn sub_then_add_cancels<T: Add<Output = T> + Sub<Output = T>>() -> bool {
    forall|p: T, q: T|
        #![trigger p.sub_spec(q)]
        p.sub_req(q) ==> p.sub_spec(q).add_req(q) && p.sub_spec(q).add_spec(q) == p
}

/// `p - p` is the scalar `zero`, and is defined, for every `p`.
pub open spec fn sub_self_is<T: Sub<Output = T>>(zero: T) -> bool {
    forall|p: T| #![trigger p.sub_spec(p)] p.sub_req(p) && p.sub_spec(p) == zero
}

/// `p - q == -(q - p)` wherever both differences are defined, and the negation is
/// defined there.
pub open spec fn sub_antisymmetric<T: Sub<Output = T> + Neg<Output = T>>() -> bool {
    forall|p: T, q: T|
        #![trigger p.sub_spec(q), q.sub_spec(p)]
        p.sub_req(q) && q.sub_req(p) ==> q.sub_spec(p).neg_req() && p.sub_spec(q) == q.sub_spec(
            p,
        ).neg_spec()
}

/// Negating twice gives back `p`, and the second negation is defined, wherever the
/// first is.
pub open spec fn neg_involutive<T: Neg<Output = T>>() -> bool {
    forall|p: T|
        #![trigger p.neg_spec()]
        p.neg_req() ==> p.neg_spec().neg_req() && p.neg_spec().neg_spec() == p
}

/// `p + (-p)` is the scalar `zero`, and is defined, wherever `-p` is.
pub open spec fn add_neg_is<T: Add<Output = T> + Neg<Output = T>>(zero: T) -> bool {
    forall|p: T|
        #![trigger p.neg_spec()]
        p.neg_req() ==> p.add_req(p.neg_spec()) && p.add_spec(p.neg_spec()) == zero
}

/// `i64`, with the operator specifications that vstd gives it, has all of the
/// scalar laws above (with `0` as its zero).
pub proof fn lemma_i64_scalar_laws()
    ensures
        mul_commutes::<i64>(),
        add_commutes::<i64>(),
        add_associates::<i64>(),
        add_then_sub_cancels::<i64>(),
        sub_then_add_cancels::<i64>(),
        sub_self_is::<i64>(0),
        sub_antisymmetric::<i64>(),
        neg_involutive::<i64>(),
        add_neg_is::<i64>(0),
{
    assert forall|p: i64, q: i64| #![trigger p.mul_spec(q)]
        p.mul_spec(q) == q.mul_spec(p) && p.mul_req(q) == q.mul_req(p) by {
        assert(p * q == q * p) by (nonlinear_arith);
    }
}

// ---------------------------------------------------------------------------
// map
// ---------------------------------------------------------------------------

/// Mapping a closure that returns its argument unchanged gives back the vector:
/// if `r` is a result of `v.map(f)` and `f` only returns its argument, `r == v`.
pub proof fn lemma_vec3_map_identity<T, F: Fn(T) -> T>(v: Vec3<T>, f: F, r: Vec3<T>)
    requires
        forall|c: T, o: T| #[trigger] f.ensures((c,), o) ==> o == c,
        f.ensures((v.x,), r.x),
        f.ensures((v.y,), r.y),
        f.ensures((v.z,), r.z),
    ensures
        r == v,
{
}

/// Mapping `f` and then `g` is mapping their composition `h`: if `r1` is a result
/// of `v.map(f)`, `r2` of `r1.map(g)` and `r3` of `v.map(h)`, where `f` and `g` are
/// deterministic and every result of `h` is a result of `g` on a result of `f`,
/// then `r2 == r3`.
pub proof fn lemma_vec3_map_composition<T, F: Fn(T) -> T, G: Fn(T) -> T, H: Fn(T) -> T>(
    v: Vec3<T>,
    f: F,
    g: G,
    h: H,
    r1: Vec3<T>,
    r2: Vec3<T>,
    r3: Vec3<T>,
)
    requires
        forall|c: T, o1: T, o2: T|
            #[trigger] f.ensures((c,), o1) && #[trigger] f.ensures((c,), o2) ==> o1 == o2,
        forall|c: T, o1: T, o2: T|
            #[trigger] g.ensures((c,), o1) && #[trigger] g.ensures((c,), o2) ==> o1 == o2,
        forall|c: T, o: T|
            #[trigger] h.ensures((c,), o) ==> exists|m: T|
                #[trigger] f.ensures((c,), m) && g.ensures((m,), o),
        f.ensures((v.x,), r1.x),
        f.ensures((v.y,), r1.y),
        f.ensures((v.z,), r1.z),
        g.ensures((r1.x,), r2.x),
        g.ensures((r1.y,), r2.y),
        g.ensures((r1.z,), r2.z),
        h.ensures((v.x,), r3.x),
        h.ensures((v.y,), r3.y),
        h.ensures((v.z,), r3.z),
    ensures
        r2 == r3,
{
    let mx = choose|m: T| f.ensures((v.x,), m) && g.ensures((m,), r3.x);
    let my = choose|m: T| f.ensures((v.y,), m) && g.ensures((m,), r3.y);
    let mz = choose|m: T| f.ensures((v.z,), m) && g.ensures((m,), r3.z);
    assert(mx == r1.x && my == r1.y && mz == r1.z);
}

/// Mapping a closure that returns its argument unchanged gives back the vector.
pub proof fn lemma_vec2_map_identity<T, F: Fn(T) -> T>(v: Vec2<T>, f: F, r: Vec2<T>)
    requires
        forall|c: T, o: T| #[trigger] f.ensures((c,), o) ==> o == c,
        f.ensures((v@.0,), r@.0),
        f.ensures((v@.1,), r@.1),
    ensures
        r@ == v@,
{
}

/// Mapping `f` and then `g` is mapping their composition `h` (as for `Vec3`).
pub proof fn lemma_vec2_map_composition<T, F: Fn(T) -> T, G: Fn(T) -> T, H: Fn(T) -> T>(
    v: Vec2<T>,
    f: F,
    g: G,
    h: H,
    r1: Vec2<T>,
    r2: Vec2<T>,
    r3: Vec2<T>,
)
    requires
        forall|c: T, o1: T, o2: T|
            #[trigger] f.ensures((c,), o1) && #[trigger] f.ensures((c,), o2) ==> o1 == o2,
        forall|c: T, o1: T, o2: T|
            #[trigger] g.ensures((c,), o1) && #[trigger] g.ensures((c,), o2) ==> o1 == o2,
        forall|c: T, o: T|
            #[trigger] h.ensures((c,), o) ==> exists|m: T|
                #[trigger] f.ensures((c,), m) && g.ensures((m,), o),
        f.ensures((v@.0,), r1@.0),
        f.ensures((v@.1,), r1@.1),
        g.ensures((r1@.0,), r2@.0),
        g.ensures((r1@.1,), r2@.1),
        h.ensures((v@.0,), r3@.0),
        h.ensures((v@.1,), r3@.1),
    ensures
        r2@ == r3@,
{
    let m0 = choose|m: T| f.ensures((v@.0,), m) && g.ensures((m,), r3@.0);
    let m1 = choose|m: T| f.ensures((v@.1,), m) && g.ensures((m,), r3@.1);
    assert(m0 == r1@.0 && m1 == r1@.1);
}

// ---------------------------------------------------------------------------
// dot and cross products
// ---------------------------------------------------------------------------

/// The dot product of two-dimensional vectors is symmetric, `u . v == v . u`, and
/// one is defined when the other is, when the scalar multiplication commutes.
pub proof fn lemma_vec2_dot_symmetric<T: Copy + Add<Output = T> + Mul<Output = T>>(
    u: Vec2<T>,
    v: Vec2<T>,
)
    requires
        mul_commutes::<T>(),
    ensures
        u.dot_spec(v) == v.dot_spec(u),
        u.dot_defined(v) == v.dot_defined(u),
{
    assert(u@.0.mul_spec(v@.0) == v@.0.mul_spec(u@.0));
    assert(u@.1.mul_spec(v@.1) == v@.1.mul_spec(u@.1));
}

/// The dot product of three-dimensional vectors is symmetric, `u . v == v . u`, and
/// one is defined when the other is, when the scalar multiplication commutes.
pub proof fn lemma_vec3_dot_symmetric<T: Copy + Add<Output = T> + Mul<Output = T>>(
    u: Vec3<T>,
    v: Vec3<T>,
)
    requires
        mul_commutes::<T>(),
    ensures
        u.dot_spec(v) == v.dot_spec(u),
        u.dot_defined(v) == v.dot_defined(u),
{
    assert(u.x.mul_spec(v.x) == v.x.mul_spec(u.x));
    assert(u.y.mul_spec(v.y) == v.y.mul_spec(u.y));
    assert(u.z.mul_spec(v.z) == v.z.mul_spec(u.z));
}

/// The cross product is anti-commutative, `a x b == -(b x a)`, wherever both are
/// defined (and then the negation is defined too), when the scalar multiplication
/// commutes and `p - q == -(q - p)`.
pub proof fn lemma_cross_anticommutative<
    T: Copy + Sub<Output = T> + Mul<Output = T> + Neg<Output = T>,
>(a: Vec3<T>, b: Vec3<T>)
    requires
        mul_commutes::<T>(),
        sub_antisymmetric::<T>(),
        Vec3::cross_defined(a, b),
        Vec3::cross_defined(b, a),
    ensures
        Vec3::cross_spec(b, a).neg_req(),
        Vec3::cross_spec(a, b) == Vec3::cross_spec(b, a).neg_spec(),
{
    assert(a.y.mul_spec(b.z) == b.z.mul_spec(a.y));
    assert(a.z.mul_spec(b.y) == b.y.mul_spec(a.z));
    assert(a.z.mul_spec(b.x) == b.x.mul_spec(a.z));
    assert(a.x.mul_spec(b.z) == b.z.mul_spec(a.x));
    assert(a.x.mul_spec(b.y) == b.y.mul_spec(a.x));
    assert(a.y.mul_spec(b.x) == b.x.mul_spec(a.y));
    assert(a.y.mul_spec(b.z).sub_spec(a.z.mul_spec(b.y)) == a.z.mul_spec(b.y).sub_spec(
        a.y.mul_spec(b.z),
    ).neg_spec());
    assert(a.z.mul_spec(b.x).sub_spec(a.x.mul_spec(b.z)) == a.x.mul_spec(b.z).sub_spec(
        a.z.mul_spec(b.x),
    ).neg_spec());
    assert(a.x.mul_spec(b.y).sub_spec(a.y.mul_spec(b.x)) == a.y.mul_spec(b.x).sub_spec(
        a.x.mul_spec(b.y),
    ).neg_spec());
}

/// The cross product of a vector with itself is the zero vector, when the scalar
/// multiplication commutes and `p - p` is `zero`.
pub proof fn lemma_cross_self_is_zero<T: Copy + Sub<Output = T> + Mul<Output = T>>(
    a: Vec3<T>,
    zero: T,
)
    requires
        mul_commutes::<T>(),
        sub_self_is::<T>(zero),
    ensures
        Vec3::cross_spec(a, a) == (Vec3 { x: zero, y: zero, z: zero }),
{
    assert(a.y.mul_spec(a.z) == a.z.mul_spec(a.y));
    assert(a.z.mul_spec(a.x) == a.x.mul_spec(a.z));
    assert(a.x.mul_spec(a.y) == a.y.mul_spec(a.x));
    assert(a.y.mul_spec(a.z).sub_spec(a.y.mul_spec(a.z)) == zero);
    assert(a.z.mul_spec(a.x).sub_spec(a.z.mul_spec(a.x)) == zero);
    assert(a.x.mul_spec(a.y).sub_spec(a.x.mul_spec(a.y)) == zero);
}

/// The cross product of two integer vectors is orthogonal to both of them:
/// `a . (a x b) == 0` and `b . (a x b) == 0`, wherever these products are defined
/// (no operation overflows).
pub proof fn lemma_cross_orthogonal(a: Vec3<i64>, b: Vec3<i64>)
    requires
        Vec3::cross_defined(a, b),
        a.dot_defined(Vec3::cross_spec(a, b)),
        b.dot_defined(Vec3::cross_spec(a, b)),
    ensures
        a.dot_spec(Vec3::cross_spec(a, b)) == 0,
        b.dot_spec(Vec3::cross_spec(a, b)) == 0,
{
    let c = Vec3::cross_spec(a, b);
    let (ax, ay, az) = (a.x as int, a.y as int, a.z as int);
    let (bx, by, bz) = (b.x as int, b.y as int, b.z as int);
    assert(c.x == ay * bz - az * by);
    assert(c.y == az * bx - ax * bz);
    assert(c.z == ax * by - ay * bx);
    assert(ax * (ay * bz - az * by) + ay * (az * bx - ax * bz) + az * (ax * by - ay * bx) == 0)
        by (nonlinear_arith);
    assert(bx * (ay * bz - az * by) + by * (az * bx - ax * bz) + bz * (ax * by - ay * bx) == 0)
        by (nonlinear_arith);
}

proof fn lemma_square_of_difference(p: int, q: int)
    ensures
        (p - q) * (p - q) == p * p - 2 * (p * q) + q * q,
{
    assert((p - q) * (p - q) == p * p - 2 * (p * q) + q * q) by (nonlinear_arith);
}

proof fn lemma_regroup_products(a: int, b: int, c: int, d: int)
    ensures
        (a * a) * (b * b) == (a * b) * (a * b),
        (a * b) * (c * d) == (a * d) * (c * b),
        (a * b) * (c * d) == (c * d) * (a * b),
{
    assert((a * a) * (b * b) == (a * b) * (a * b)) by (nonlinear_arith);
    assert((a * b) * (c * d) == (a * d) * (c * b)) by (nonlinear_arith);
    assert((a * b) * (c * d) == (c * d) * (a * b)) by (nonlinear_arith);
}

proof fn lemma_distribute(a1: int, a2: int, a3: int, b: int)
    ensures
        (a1 + a2 + a3) * b == a1 * b + a2 * b + a3 * b,
{
    assert((a1 + a2 + a3) * b == a1 * b + a2 * b + a3 * b) by (nonlinear_arith);
}

proof fn lemma_product_of_sums(a1: int, a2: int, a3: int, b1: int, b2: int, b3: int)
    ensures
        (a1 + a2 + a3) * (b1 + b2 + b3) == a1 * b1 + a1 * b2 + a1 * b3 + a2 * b1 + a2 * b2 + a2 * b3
            + a3 * b1 + a3 * b2 + a3 * b3,
{
    lemma_distribute(a1, a2, a3, b1 + b2 + b3);
    lemma_distribute(b1, b2, b3, a1);
    lemma_distribute(b1, b2, b3, a2);
    lemma_distribute(b1, b2, b3, a3);
    assert(a1 * (b1 + b2 + b3) == (b1 + b2 + b3) * a1) by (nonlinear_arith);
    assert(a2 * (b1 + b2 + b3) == (b1 + b2 + b3) * a2) by (nonlinear_arith);
    assert(a3 * (b1 + b2 + b3) == (b1 + b2 + b3) * a3) by (nonlinear_arith);
    assert(b1 * a1 == a1 * b1 && b2 * a1 == a1 * b2 && b3 * a1 == a1 * b3) by (nonlinear_arith);
    assert(b1 * a2 == a2 * b1 && b2 * a2 == a2 * b2 && b3 * a2 == a2 * b3) by (nonlinear_arith);
    assert(b1 * a3 == a3 * b1 && b2 * a3 == a3 * b2 && b3 * a3 == a3 * b3) by (nonlinear_arith);
}

/// Lagrange's identity on integers: `|a x b|^2 == |a|^2 |b|^2 - (a . b)^2`.
proof fn lemma_lagrange_identity(ax: int, ay: int, az: int, bx: int, by: int, bz: int)
    ensures
        (ay * bz - az * by) * (ay * bz - az * by) + (az * bx - ax * bz) * (az * bx - ax * bz) + (ax
            * by - ay * bx) * (ax * by - ay * bx) == (ax * ax + ay * ay + az * az) * (bx * bx + by
            * by + bz * bz) - (ax * bx + ay * by + az * bz) * (ax * bx + ay * by + az * bz),
{
    lemma_square_of_difference(ay * bz, az * by);
    lemma_square_of_difference(az * bx, ax * bz);
    lemma_square_of_difference(ax * by, ay * bx);
    lemma_product_of_sums(ax * ax, ay * ay, az * az, bx * bx, by * by, bz * bz);
    lemma_product_of_sums(ax * bx, ay * by, az * bz, ax * bx, ay * by, az * bz);
    lemma_regroup_products(ax, bx, ax, bx);
    lemma_regroup_products(ax, by, ax, by);
    lemma_regroup_products(ax, bz, ax, bz);
    lemma_regroup_products(ay, bx, ay, bx);
    lemma_regroup_products(ay, by, ay, by);
    lemma_regroup_products(ay, bz, ay, bz);
    lemma_regroup_products(az, bx, az, bx);
    lemma_regroup_products(az, by, az, by);
    lemma_regroup_products(az, bz, az, bz);
    lemma_regroup_products(ay, bz, az, by);
    lemma_regroup_products(az, bx, ax, bz);
    lemma_regroup_products(ax, by, ay, bx);
    lemma_regroup_products(ax, bx, ay, by);
    lemma_regroup_products(ax, bx, az, bz);
    lemma_regroup_products(ay, by, az, bz);
}

/// The squared length of the cross product of two integer vectors is
/// `|a|^2 |b|^2 - (a . b)^2` (Lagrange's identity), wherever these products are
/// defined (no operation overflows); so the cross product of two orthogonal unit
/// vectors is a unit vector.
pub proof fn lemma_cross_length_squared(a: Vec3<i64>, b: Vec3<i64>)
    requires
        Vec3::cross_defined(a, b),
        Vec3::cross_spec(a, b).dot_defined(Vec3::cross_spec(a, b)),
        a.dot_defined(a),
        b.dot_defined(b),
        a.dot_defined(b),
    ensures
        Vec3::cross_spec(a, b).dot_spec(Vec3::cross_spec(a, b)) as int == (a.dot_spec(a) as int) * (
        b.dot_spec(b) as int) - (a.dot_spec(b) as int) * (a.dot_spec(b) as int),
{
    let c = Vec3::cross_spec(a, b);
    let (ax, ay, az) = (a.x as int, a.y as int, a.z as int);
    let (bx, by, bz) = (b.x as int, b.y as int, b.z as int);
    assert(c.x == ay * bz - az * by);
    assert(c.y == az * bx - ax * bz);
    assert(c.z == ax * by - ay * bx);
    assert(c.dot_spec(c) == c.x * c.x + c.y * c.y + c.z * c.z);
    assert(a.dot_spec(a) == ax * ax + ay * ay + az * az);
    assert(b.dot_spec(b) == bx * bx + by * by + bz * bz);
    assert(a.dot_spec(b) == ax * bx + ay * by + az * bz);
    lemma_lagrange_identity(ax, ay, az, bx, by, bz);
}

// ---------------------------------------------------------------------------
// Vector addition, subtraction and negation
// ---------------------------------------------------------------------------

/// Vector addition commutes, `u + v == v + u`, when scalar addition does.
pub proof fn lemma_vec3_add_commutative<T: Add<Output = T>>(u: Vec3<T>, v: Vec3<T>)
    requires
        add_commutes::<T>(),
    ensures
        u.add_spec(v) == v.add_spec(u),
        u.add_req(v) == v.add_req(u),
{
    assert(u.x.add_spec(v.x) == v.x.add_spec(u.x));
    assert(u.y.add_spec(v.y) == v.y.add_spec(u.y));
    assert(u.z.add_spec(v.z) == v.z.add_spec(u.z));
}

/// Vector addition associates, `(a + b) + c == a + (b + c)`, wherever both groupings
/// are defined, when scalar addition does.
pub proof fn lemma_vec3_add_associative<T: Add<Output = T>>(a: Vec3<T>, b: Vec3<T>, c: Vec3<T>)
    requires
        add_associates::<T>(),
        a.add_req(b),
        a.add_spec(b).add_req(c),
        b.add_req(c),
        a.add_req(b.add_spec(c)),
    ensures
        a.add_spec(b).add_spec(c) == a.add_spec(b.add_spec(c)),
{
    assert(a.x.add_spec(b.x).add_spec(c.x) == a.x.add_spec(b.x.add_spec(c.x)));
    assert(a.y.add_spec(b.y).add_spec(c.y) == a.y.add_spec(b.y.add_spec(c.y)));
    assert(a.z.add_spec(b.z).add_spec(c.z) == a.z.add_spec(b.z.add_spec(c.z)));
}

/// Subtracting `b` undoes adding it: `(a + b) - b == a`, wherever `a + b` is defined.
pub proof fn lemma_vec3_add_then_sub<T: Add<Output = T> + Sub<Output = T>>(a: Vec3<T>, b: Vec3<T>)
    requires
        add_then_sub_cancels::<T>(),
        a.add_req(b),
    ensures
        a.add_spec(b).sub_req(b),
        a.add_spec(b).sub_spec(b) == a,
{
    assert(a.x.add_spec(b.x).sub_spec(b.x) == a.x);
    assert(a.y.add_spec(b.y).sub_spec(b.y) == a.y);
    assert(a.z.add_spec(b.z).sub_spec(b.z) == a.z);
}

/// Adding `b` undoes subtracting it: `(a - b) + b == a`, wherever `a - b` is defined.
pub proof fn lemma_vec3_sub_then_add<T: Add<Output = T> + Sub<Output = T>>(a: Vec3<T>, b: Vec3<T>)
    requires
        sub_then_add_cancels::<T>(),
        a.sub_req(b),
    ensures
        a.sub_spec(b).add_req(b),
        a.sub_spec(b).add_spec(b) == a,
{
    assert(a.x.sub_spec(b.x).add_spec(b.x) == a.x);
    assert(a.y.sub_spec(b.y).add_spec(b.y) == a.y);
    assert(a.z.sub_spec(b.z).add_spec(b.z) == a.z);
}

/// `a - a` is the zero vector when `p - p` is the scalar `zero`.
pub proof fn lemma_vec3_sub_self<T: Sub<Output = T>>(a: Vec3<T>, zero: T)
    requires
        sub_self_is::<T>(zero),
    ensures
        a.sub_req(a),
        a.sub_spec(a) == (Vec3 { x: zero, y: zero, z: zero }),
{
    assert(a.x.sub_spec(a.x) == zero && a.y.sub_spec(a.y) == zero && a.z.sub_spec(a.z) == zero);
}

/// `-=` undoes `+=`: if `a1` is what `a0 += b` leaves and `a2` what `a1 -= b` then
/// leaves, `a2 == a0`.
pub proof fn lemma_sub_assign_undoes_add_assign<T: Add<Output = T> + Sub<Output = T>>(
    a0: Vec3<T>,
    b: Vec3<T>,
    a1: Vec3<T>,
    a2: Vec3<T>,
)
    requires
        add_then_sub_cancels::<T>(),
        a0.add_req(b),
        a1 == a0.add_spec(b),
        a2 == a1.sub_spec(b),
    ensures
        a1.sub_req(b),
        a2 == a0,
{
    lemma_vec3_add_then_sub(a0, b);
}

/// Negating twice gives back the vector, `-(-v) == v`, wherever `-v` is defined.
pub proof fn lemma_vec3_neg_involutive<T: Neg<Output = T>>(v: Vec3<T>)
    requires
        neg_involutive::<T>(),
        v.neg_req(),
    ensures
        v.neg_spec().neg_req(),
        v.neg_spec().neg_spec() == v,
{
    assert(v.x.neg_spec().neg_spec() == v.x);
    assert(v.y.neg_spec().neg_spec() == v.y);
    assert(v.z.neg_spec().neg_spec() == v.z);
}

/// `v + (-v)` is the zero vector, wherever `-v` is defined, when `p + (-p)` is the
/// scalar `zero`.
pub proof fn lemma_vec3_add_neg<T: Add<Output = T> + Neg<Output = T>>(v: Vec3<T>, zero: T)
    requires
        add_neg_is::<T>(zero),
        v.neg_req(),
    ensures
        v.add_req(v.neg_spec()),
        v.add_spec(v.neg_spec()) == (Vec3 { x: zero, y: zero, z: zero }),
{
    assert(v.x.add_spec(v.x.neg_spec()) == zero);
    assert(v.y.add_spec(v.y.neg_spec()) == zero);
    assert(v.z.add_spec(v.z.neg_spec()) == zero);
}

/// Addition of two-dimensional vectors commutes, `u + v == v + u`, when scalar
/// addition does.
pub proof fn lemma_vec2_add_commutative<T: Add<Output = T>>(u: Vec2<T>, v: Vec2<T>)
    requires
        add_commutes::<T>(),
    ensures
        u.add_spec(v)@ == v.add_spec(u)@,
        u.add_req(v) == v.add_req(u),
{
    lemma_add_view(u, v);
    lemma_add_view(v, u);
    assert(u@.0.add_spec(v@.0) == v@.0.add_spec(u@.0));
    assert(u@.1.add_spec(v@.1) == v@.1.add_spec(u@.1));
}

/// `(a + b) - b == a` for two-dimensional vectors, wherever `a + b` is defined.
pub proof fn lemma_vec2_add_then_sub<T: Add<Output = T> + Sub<Output = T>>(a: Vec2<T>, b: Vec2<T>)
    requires
        add_then_sub_cancels::<T>(),
        a.add_req(b),
    ensures
        a.add_spec(b).sub_req(b),
        a.add_spec(b).sub_spec(b)@ == a@,
{
    lemma_add_view(a, b);
    lemma_sub_view(a.add_spec(b), b);
    assert(a@.0.add_spec(b@.0).sub_spec(b@.0) == a@.0);
    assert(a@.1.add_spec(b@.1).sub_spec(b@.1) == a@.1);
}

/// `(a - b) + b == a` for two-dimensional vectors, wherever `a - b` is defined.
pub proof fn lemma_vec2_sub_then_add<T: Add<Output = T> + Sub<Output = T>>(a: Vec2<T>, b: Vec2<T>)
    requires
        sub_then_add_cancels::<T>(),
        a.sub_req(b),
    ensures
        a.sub_spec(b).add_req(b),
        a.sub_spec(b).add_spec(b)@ == a@,
{
    lemma_sub_view(a, b);
    lemma_add_view(a.sub_spec(b), b);
    assert(a@.0.sub_spec(b@.0).add_spec(b@.0) == a@.0);
    assert(a@.1.sub_spec(b@.1).add_spec(b@.1) == a@.1);
}

/// Negating a two-dimensional vector twice gives it back, wherever `-v` is defined.
pub proof fn lemma_vec2_neg_involutive<T: Neg<Output = T>>(v: Vec2<T>)
    requires
        neg_involutive::<T>(),
        v.neg_req(),
    ensures
        v.neg_spec().neg_req(),
        v.neg_spec().neg_spec()@ == v@,
{
    lemma_neg_view(v);
    lemma_neg_view(v.neg_spec());
    assert(v@.0.neg_spec().neg_spec() == v@.0);
    assert(v@.1.neg_spec().neg_spec() == v@.1);
}

// ---------------------------------------------------------------------------
// lerp
// ---------------------------------------------------------------------------

/// Interpolating at a zero `z` of the scalars gives the left end point:
/// `lerp(lhs, rhs, z) == lhs`.
pub proof fn lemma_lerp_at_zero<T: Copy + Add<Output = T> + Sub<Output = T> + Mul<Output = T> + One>(
    lhs: Vec3<T>,
    rhs: Vec3<T>,
    z: T,
)
    requires
        T::ONE.sub_spec(z) == T::ONE,
        forall|v: T| #[trigger] v.mul_spec(T::ONE) == v,
        forall|v: T| #[trigger] v.mul_spec(z) == z,
        forall|v: T| #[trigger] v.add_spec(z) == v,
    ensures
        Vec3::lerp_spec(lhs, rhs, z) == lhs,
{
    assert(lhs.x.mul_spec(T::ONE) == lhs.x && rhs.x.mul_spec(z) == z);
    assert(lhs.y.mul_spec(T::ONE) == lhs.y && rhs.y.mul_spec(z) == z);
    assert(lhs.z.mul_spec(T::ONE) == lhs.z && rhs.z.mul_spec(z) == z);
    assert(lhs.x.add_spec(z) == lhs.x && lhs.y.add_spec(z) == lhs.y && lhs.z.add_spec(z) == lhs.z);
}

/// Interpolating at `ONE` gives the right end point: `lerp(lhs, rhs, ONE) == rhs`,
/// when `ONE - ONE` is a zero `z` of the scalars.
pub proof fn lemma_lerp_at_one<T: Copy + Add<Output = T> + Sub<Output = T> + Mul<Output = T> + One>(
    lhs: Vec3<T>,
    rhs: Vec3<T>,
    z: T,
)
    requires
        T::ONE.sub_spec(T::ONE) == z,
        forall|v: T| #[trigger] v.mul_spec(T::ONE) == v,
        forall|v: T| #[trigger] v.mul_spec(z) == z,
        forall|v: T| #[trigger] z.add_spec(v) == v,
    ensures
        Vec3::lerp_spec(lhs, rhs, T::ONE) == rhs,
{
    assert(lhs.x.mul_spec(z) == z && rhs.x.mul_spec(T::ONE) == rhs.x);
    assert(lhs.y.mul_spec(z) == z && rhs.y.mul_spec(T::ONE) == rhs.y);
    assert(lhs.z.mul_spec(z) == z && rhs.z.mul_spec(T::ONE) == rhs.z);
    assert(z.add_spec(rhs.x) == rhs.x && z.add_spec(rhs.y) == rhs.y && z.add_spec(rhs.z) == rhs.z);
}

/// `ONE` is an identity of scalar multiplication: `p * ONE == p`.
pub open spec fn one_is_mul_identity<T: Mul<Output = T> + One>() -> bool {
    forall|p: T| #[trigger] p.mul_spec(T::ONE) == p
}

/// Scalar multiplication distributes over subtraction, from either side:
/// `p * (q - r) == p * q - p * r` and `(p - q) * r == p * r - q * r`.
pub open spec fn mul_distributes_over_sub<T: Sub<Output = T> + Mul<Output = T>>() -> bool {
    &&& forall|p: T, q: T, r: T|
        #![trigger p.mul_spec(q.sub_spec(r))]
        p.mul_spec(q.sub_spec(r)) == p.mul_spec(q).sub_spec(p.mul_spec(r))
    &&& forall|p: T, q: T, r: T|
        #![trigger p.sub_spec(q).mul_spec(r)]
        p.sub_spec(q).mul_spec(r) == p.mul_spec(r).sub_spec(q.mul_spec(r))
}

/// A difference and a sum may be regrouped: `(p - q) + r == p + (r - q)`.
pub open spec fn sub_add_regroups<T: Add<Output = T> + Sub<Output = T>>() -> bool {
    forall|p: T, q: T, r: T|
        #![trigger p.sub_spec(q).add_spec(r)]
        p.sub_spec(q).add_spec(r) == p.add_spec(r.sub_spec(q))
}

/// Interpolation is affine in `t`: `lerp(lhs, rhs, t) == lhs + (rhs - lhs) * t`,
/// where the weight of `rhs` is `t` itself, for every `t`, when the scalars obey
/// the ring laws this takes (`ONE` is a multiplicative identity, multiplication
/// distributes over subtraction, and `(p - q) + r == p + (r - q)`), as exact
/// integer or rational arithmetic does.
pub proof fn lemma_lerp_is_affine<
    T: Copy + Add<Output = T> + Sub<Output = T> + Mul<Output = T> + One,
>(lhs: Vec3<T>, rhs: Vec3<T>, t: T)
    requires
        one_is_mul_identity::<T>(),
        mul_distributes_over_sub::<T>(),
        sub_add_regroups::<T>(),
    ensures
        Vec3::lerp_spec(lhs, rhs, t) == lhs.add_spec(rhs.sub_spec(lhs).mul_spec(t)),
{
    lemma_lerp_term_is_affine(lhs.x, rhs.x, t);
    lemma_lerp_term_is_affine(lhs.y, rhs.y, t);
    lemma_lerp_term_is_affine(lhs.z, rhs.z, t);
}

proof fn lemma_lerp_term_is_affine<
    T: Copy + Add<Output = T> + Sub<Output = T> + Mul<Output = T> + One,
>(a: T, b: T, t: T)
    requires
        one_is_mul_identity::<T>(),
        mul_distributes_over_sub::<T>(),
        sub_add_regroups::<T>(),
    ensures
        Vec3::lerp_term(a, b, t) == a.add_spec(b.sub_spec(a).mul_spec(t)),
{
    assert(a.mul_spec(T::ONE.sub_spec(t)) == a.mul_spec(T::ONE).sub_spec(a.mul_spec(t)));
    assert(a.mul_spec(T::ONE) == a);
    assert(a.sub_spec(a.mul_spec(t)).add_spec(b.mul_spec(t)) == a.add_spec(
        b.mul_spec(t).sub_spec(a.mul_spec(t)),
    ));
    assert(b.sub_spec(a).mul_spec(t) == b.mul_spec(t).sub_spec(a.mul_spec(t)));
}

/// Two interpolations between the same end points differ by the difference of
/// their parameters: `lerp(lhs, rhs, t) - lerp(lhs, rhs, u) == (rhs - lhs) * t -
/// (rhs - lhs) * u`, componentwise, under the same ring laws (and
/// `(p + q) - (p + r) == q - r`).
pub proof fn lemma_lerp_difference<
    T: Copy + Add<Output = T> + Sub<Output = T> + Mul<Output = T> + One,
>(lhs: Vec3<T>, rhs: Vec3<T>, t: T, u: T)
    requires
        one_is_mul_identity::<T>(),
        mul_distributes_over_sub::<T>(),
        sub_add_regroups::<T>(),
        forall|p: T, q: T, r: T|
            #![trigger p.add_spec(q).sub_spec(p.add_spec(r))]
            p.add_spec(q).sub_spec(p.add_spec(r)) == q.sub_spec(r),
    ensures
        Vec3::lerp_spec(lhs, rhs, t).sub_spec(Vec3::lerp_spec(lhs, rhs, u)) == rhs.sub_spec(
            lhs,
        ).mul_spec(t).sub_spec(rhs.sub_spec(lhs).mul_spec(u)),
{
    lemma_lerp_is_affine(lhs, rhs, t);
    lemma_lerp_is_affine(lhs, rhs, u);
    let d = rhs.sub_spec(lhs);
    assert(lhs.x.add_spec(d.x.mul_spec(t)).sub_spec(lhs.x.add_spec(d.x.mul_spec(u))) == d.x.mul_spec(
        t,
    ).sub_spec(d.x.mul_spec(u)));
    assert(lhs.y.add_spec(d.y.mul_spec(t)).sub_spec(lhs.y.add_spec(d.y.mul_spec(u))) == d.y.mul_spec(
        t,
    ).sub_spec(d.y.mul_spec(u)));
    assert(lhs.z.add_spec(d.z.mul_spec(t)).sub_spec(lhs.z.add_spec(d.z.mul_spec(u))) == d.z.mul_spec(
        t,
    ).sub_spec(d.z.mul_spec(u)));
}

/// On integers the dot product is additive in its left argument:
/// `(a + b) . c == a . c + b . c`, wherever these are defined (nothing overflows).
pub proof fn lemma_vec3_dot_additive(a: Vec3<i64>, b: Vec3<i64>, c: Vec3<i64>)
    requires
        a.add_req(b),
        a.add_spec(b).dot_defined(c),
        a.dot_defined(c),
        b.dot_defined(c),
    ensures
        a.add_spec(b).dot_spec(c) as int == a.dot_spec(c) as int + b.dot_spec(c) as int,
{
    let (ax, ay, az) = (a.x as int, a.y as int, a.z as int);
    let (bx, by, bz) = (b.x as int, b.y as int, b.z as int);
    let (cx, cy, cz) = (c.x as int, c.y as int, c.z as int);
    assert((ax + bx) * cx == ax * cx + bx * cx) by (nonlinear_arith);
    assert((ay + by) * cy == ay * cy + by * cy) by (nonlinear_arith);
    assert((az + bz) * cz == az * cz + bz * cz) by (nonlinear_arith);
}

/// On integers `v . v` is never negative, and is zero only for the zero vector,
/// wherever it is defined (nothing overflows).
pub proof fn lemma_vec3_dot_self_positive(v: Vec3<i64>)
    requires
        v.dot_defined(v),
    ensures
        v.dot_spec(v) >= 0,
        v.dot_spec(v) == 0 <==> v == (Vec3 { x: 0i64, y: 0i64, z: 0i64 }),
{
    let (x, y, z) = (v.x as int, v.y as int, v.z as int);
    assert(x * x >= 0 && y * y >= 0 && z * z >= 0) by (nonlinear_arith);
    assert(x * x == 0 ==> x == 0) by (nonlinear_arith);
    assert(y * y == 0 ==> y == 0) by (nonlinear_arith);
    assert(z * z == 0 ==> z == 0) by (nonlinear_arith);
}

/// On integers the dot product of two-dimensional vectors is additive in its left
/// argument: `(a + b) . c == a . c + b . c`, wherever these are defined.
pub proof fn lemma_vec2_dot_additive(a: Vec2<i64>, b: Vec2<i64>, c: Vec2<i64>)
    requires
        a.add_req(b),
        a.add_spec(b).dot_defined(c),
        a.dot_defined(c),
        b.dot_defined(c),
    ensures
        a.add_spec(b).dot_spec(c) as int == a.dot_spec(c) as int + b.dot_spec(c) as int,
{
    lemma_add_view(a, b);
    let (ax, ay) = (a@.0 as int, a@.1 as int);
    let (bx, by) = (b@.0 as int, b@.1 as int);
    let (cx, cy) = (c@.0 as int, c@.1 as int);
    assert((ax + bx) * cx == ax * cx + bx * cx) by (nonlinear_arith);
    assert((ay + by) * cy == ay * cy + by * cy) by (nonlinear_arith);
}

/// On integers `v . v` of a two-dimensional vector is never negative, and is zero
/// only for the zero vector, wherever it is defined.
pub proof fn lemma_vec2_dot_self_positive(v: Vec2<i64>)
    requires
        v.dot_defined(v),
    ensures
        v.dot_spec(v) >= 0,
        v.dot_spec(v) == 0 <==> v@ == (0i64, 0i64),
{
    let (x, y) = (v@.0 as int, v@.1 as int);
    assert(x * x >= 0 && y * y >= 0) by (nonlinear_arith);
    assert(x * x == 0 ==> x == 0) by (nonlinear_arith);
    assert(y * y == 0 ==> y == 0) by (nonlinear_arith);
}

/// On integers the dot product of two-dimensional vectors is unchanged when both
/// are turned a quarter turn: if `ra = (-a.y, a.x)` and `rb = (-b.y, b.x)`, then
/// `ra . rb == a . b`, wherever these are defined.
pub proof fn lemma_vec2_dot_rotation_invariant(a: Vec2<i64>, b: Vec2<i64>, ra: Vec2<i64>, rb: Vec2<i64>)
    requires
        ra@.0 == -a@.1,
        ra@.1 == a@.0,
        rb@.0 == -b@.1,
        rb@.1 == b@.0,
        a.dot_defined(b),
        ra.dot_defined(rb),
    ensures
        ra.dot_spec(rb) == a.dot_spec(b),
{
    let (ax, ay) = (a@.0 as int, a@.1 as int);
    let (bx, by) = (b@.0 as int, b@.1 as int);
    assert((-ay) * (-by) == ay * by) by (nonlinear_arith);
    assert(ax * bx + ay * by == ay * by + ax * bx);
}

} // verus!
