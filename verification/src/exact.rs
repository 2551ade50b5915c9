//! Arithmetic that is exact.
//!
//! The contracts of this crate hold for every arithmetic, and so say nothing
//! that only an exact arithmetic makes true. An arithmetic is exact under a
//! reading of its scalars as real numbers if every operation does to the
//! readings what its name says. This module says what the point transforms
//! do under such a reading; the laws of the meshes build on it.
use vstd::prelude::*;
use crate::scalar::{
    Scalar, is_ratio, is_count, is_sum, is_difference, is_product, is_quotient, is_negation,
    is_sqrt, is_sin, is_cos,
};
use crate::point_transform3d::{
    is_rotated, is_rotated_x, is_rotated_y, is_rotated_z, is_translated, is_scaled, is_length,
    is_cross, is_mul_sub, is_mul_add, mul_sub_steps, mul_add_steps, rotate_steps, rotate_x_steps,
    rotate_y_steps, rotate_z_steps, length_steps,
};
use crate::vertex3d::Vertex;
use crate::mesh::Mesh;
use crate::spherify::{is_edge, edge_steps};

verus! {

/// The product of two real numbers. It is kept out of sight of the proofs,
/// which use what they need of multiplication through the lemmas below.
#[verifier::opaque]
pub open spec fn times(a: real, b: real) -> real {
    a * b
}

/// Multiplication spreads over a sum, on either side.
pub proof fn lemma_times_distributes(a: real, b: real, c: real)
    ensures
        times(a + b, c) == times(a, c) + times(b, c),
        times(c, a + b) == times(c, a) + times(c, b),
{
    reveal(times);
    assert((a + b) * c == a * c + b * c) by (nonlinear_arith);
    assert(c * (a + b) == c * a + c * b) by (nonlinear_arith);
}

/// Zero times anything is zero, on either side.
pub proof fn lemma_times_zero(c: real)
    ensures
        times(0real, c) == 0real,
        times(c, 0real) == 0real,
{
    reveal(times);
    assert(0real * c == 0real) by (nonlinear_arith);
    assert(c * 0real == 0real) by (nonlinear_arith);
}

/// One times anything is that thing, and minus one times anything is its
/// negation.
pub proof fn lemma_times_one(c: real)
    ensures
        times(c, 1real) == c,
        times(c, -1real) == -c,
{
    reveal(times);
    assert(c * 1real == c) by (nonlinear_arith);
    assert(c * (-1real) == -c) by (nonlinear_arith);
}

/// The product with a negation is the negation of the product.
pub proof fn lemma_times_negation(a: real, b: real)
    ensures
        times(a, -b) == -times(a, b),
        times(-a, b) == -times(a, b),
{
    reveal(times);
    assert(a * (-b) == -(a * b)) by (nonlinear_arith);
    assert((-a) * b == -(a * b)) by (nonlinear_arith);
}

/// What is equal after multiplying by a number other than zero was equal
/// before.
pub proof fn lemma_times_cancel(x: real, y: real, n: real)
    requires
        n != 0real,
        times(x, n) == times(y, n),
    ensures
        x == y,
{
    reveal(times);
    assert(x == y) by (nonlinear_arith)
        requires
            n != 0real,
            x * n == y * n,
    ;
}

/// A square is not negative, and positive unless it is the square of zero.
pub proof fn lemma_square(x: real)
    ensures
        times(x, x) >= 0real,
        x != 0real ==> times(x, x) > 0real,
{
    reveal(times);
    assert(x * x >= 0real) by (nonlinear_arith);
    if x != 0real {
        assert(x * x > 0real) by (nonlinear_arith)
            requires
                x != 0real,
        ;
    }
}

/// The square of a product is the product of the squares.
pub proof fn lemma_square_of_product(x: real, f: real)
    ensures
        times(times(x, f), times(x, f)) == times(times(x, x), times(f, f)),
        times(times(f, x), times(f, x)) == times(times(x, x), times(f, f)),
{
    reveal(times);
    assert((x * f) * (x * f) == (x * x) * (f * f)) by (nonlinear_arith);
    assert((f * x) * (f * x) == (x * x) * (f * f)) by (nonlinear_arith);
}

/// The reading of the cosine of `a`.
pub open spec fn cos_value<S: Scalar>(value: spec_fn(S) -> real, a: S) -> real {
    value(choose|r: S| is_cos(a, r))
}

/// The reading of the sine of `a`.
pub open spec fn sin_value<S: Scalar>(value: spec_fn(S) -> real, a: S) -> real {
    value(choose|r: S| is_sin(a, r))
}

/// The arithmetic of `S` is exact under the reading `value`: constants read
/// as the numbers they stand for, and sums, differences, products,
/// quotients, negations and square roots read as those of the readings.
/// Sine and cosine have one reading for each angle, which is 0 and 1 for an
/// angle that reads 0.
pub open spec fn is_exact<S: Scalar>(value: spec_fn(S) -> real) -> bool {
    &&& forall|n: i32, d: i32, r: S| #[trigger]
        is_ratio(n, d, r) && d != 0 ==> times(value(r), d as real) == n as real
    &&& forall|n: usize, r: S| #[trigger] is_count(n, r) ==> value(r) == n as real
    &&& forall|a: S, b: S, r: S| #[trigger] is_sum(a, b, r) ==> value(r) == value(a) + value(b)
    &&& forall|a: S, b: S, r: S| #[trigger]
        is_difference(a, b, r) ==> value(r) == value(a) - value(b)
    &&& forall|a: S, b: S, r: S| #[trigger]
        is_product(a, b, r) ==> value(r) == times(value(a), value(b))
    &&& forall|a: S, b: S, r: S| #[trigger]
        is_quotient(a, b, r) && value(b) != 0real ==> times(value(r), value(b)) == value(a)
    &&& forall|a: S, r: S| #[trigger] is_negation(a, r) ==> value(r) == -value(a)
    &&& forall|a: S, r: S| #[trigger]
        is_sqrt(a, r) && value(a) >= 0real ==> value(r) >= 0real && times(value(r), value(r))
            == value(a)
    &&& forall|a: S, r: S| #[trigger] is_sin(a, r) ==> value(r) == sin_value(value, a)
    &&& forall|a: S, r: S| #[trigger] is_cos(a, r) ==> value(r) == cos_value(value, a)
    &&& forall|a: S, r: S| #[trigger] is_sin(a, r) && value(a) == 0real ==> value(r) == 0real
    &&& forall|a: S, r: S| #[trigger] is_cos(a, r) && value(a) == 0real ==> value(r) == 1real
}

/// A point of real numbers.
pub struct RealPoint {
    pub x: real,
    pub y: real,
    pub z: real,
}

impl RealPoint {
    /// The origin.
    pub open spec fn zero() -> RealPoint {
        RealPoint { x: 0real, y: 0real, z: 0real }
    }

    /// `self + other`.
    pub open spec fn plus(self, other: RealPoint) -> RealPoint {
        RealPoint { x: self.x + other.x, y: self.y + other.y, z: self.z + other.z }
    }

    /// `self - other`.
    pub open spec fn minus(self, other: RealPoint) -> RealPoint {
        RealPoint { x: self.x - other.x, y: self.y - other.y, z: self.z - other.z }
    }

    /// `self * factor`.
    pub open spec fn scaled(self, factor: real) -> RealPoint {
        RealPoint {
            x: times(self.x, factor),
            y: times(self.y, factor),
            z: times(self.z, factor),
        }
    }

    /// The square of the length of `self`.
    pub open spec fn norm_squared(self) -> real {
        times(self.x, self.x) + times(self.y, self.y) + times(self.z, self.z)
    }
}

/// The cross product `a x b`.
pub open spec fn cross(a: RealPoint, b: RealPoint) -> RealPoint {
    RealPoint {
        x: times(a.y, b.z) - times(a.z, b.y),
        y: times(a.z, b.x) - times(a.x, b.z),
        z: times(a.x, b.y) - times(a.y, b.x),
    }
}

/// The cosines and sines of a turn about the x, y and z axes.
pub struct Turn {
    pub cos_x: real,
    pub sin_x: real,
    pub cos_y: real,
    pub sin_y: real,
    pub cos_z: real,
    pub sin_z: real,
}

/// `p` turned about the x axis by the angle of cosine `c` and sine `s`.
pub open spec fn turned_x(c: real, s: real, p: RealPoint) -> RealPoint {
    RealPoint { x: p.x, y: times(p.y, c) - times(p.z, s), z: times(p.y, s) + times(p.z, c) }
}

/// `p` turned about the y axis by the angle of cosine `c` and sine `s`.
pub open spec fn turned_y(c: real, s: real, p: RealPoint) -> RealPoint {
    RealPoint { x: times(p.z, s) + times(p.x, c), y: p.y, z: times(p.z, c) - times(p.x, s) }
}

/// `p` turned about the z axis by the angle of cosine `c` and sine `s`.
pub open spec fn turned_z(c: real, s: real, p: RealPoint) -> RealPoint {
    RealPoint { x: times(p.x, c) - times(p.y, s), y: times(p.x, s) + times(p.y, c), z: p.z }
}

/// `p` turned about the x axis, then the y axis, then the z axis.
pub open spec fn turned(t: Turn, p: RealPoint) -> RealPoint {
    turned_z(t.cos_z, t.sin_z, turned_y(t.cos_y, t.sin_y, turned_x(t.cos_x, t.sin_x, p)))
}

/// The reading of a point.
pub open spec fn point_value<S: Scalar>(value: spec_fn(S) -> real, p: [S; 3]) -> RealPoint {
    RealPoint { x: value(p[0]), y: value(p[1]), z: value(p[2]) }
}

/// The reading of the turn by `angles`.
pub open spec fn turn_value<S: Scalar>(value: spec_fn(S) -> real, angles: [S; 3]) -> Turn {
    Turn {
        cos_x: cos_value(value, angles[0]),
        sin_x: sin_value(value, angles[0]),
        cos_y: cos_value(value, angles[1]),
        sin_y: sin_value(value, angles[1]),
        cos_z: cos_value(value, angles[2]),
        sin_z: sin_value(value, angles[2]),
    }
}

/// The sum of the readings of the positions of `vertices`.
pub open spec fn total_value<S: Scalar>(
    value: spec_fn(S) -> real,
    vertices: Seq<Vertex<S>>,
) -> RealPoint
    decreases vertices.len(),
{
    if vertices.len() == 0 {
        RealPoint::zero()
    } else {
        total_value(value, vertices.drop_last()).plus(point_value(value, vertices.last().position))
    }
}

/// `a` and `b` read alike: vertex by vertex, the positions read the same and
/// texture coordinate and material are the same, and normal by normal, the
/// directions read the same.
pub open spec fn read_alike<S: Scalar>(value: spec_fn(S) -> real, a: Mesh<S>, b: Mesh<S>) -> bool {
    &&& a.vertices.len() == b.vertices.len()
    &&& a.normals.len() == b.normals.len()
    &&& forall|i: int|
        0 <= i < a.vertices.len() ==> {
            &&& point_value(value, a.vertices[i].position) == point_value(
                value,
                (#[trigger] b.vertices[i]).position,
            )
            &&& a.vertices[i].texture == b.vertices[i].texture
            &&& a.vertices[i].material_id == b.vertices[i].material_id
        }
    &&& forall|i: int|
        0 <= i < a.normals.len() ==> point_value(value, a.normals[i].normal) == point_value(
            value,
            (#[trigger] b.normals[i]).normal,
        )
}

/// Turning about the x axis takes sums to sums.
proof fn lemma_turned_x_is_linear(c: real, s: real, a: RealPoint, b: RealPoint)
    ensures
        turned_x(c, s, a.plus(b)) == turned_x(c, s, a).plus(turned_x(c, s, b)),
{
    lemma_times_distributes(a.y, b.y, c);
    lemma_times_distributes(a.z, b.z, s);
    lemma_times_distributes(a.y, b.y, s);
    lemma_times_distributes(a.z, b.z, c);
}

/// Turning about the y axis takes sums to sums.
proof fn lemma_turned_y_is_linear(c: real, s: real, a: RealPoint, b: RealPoint)
    ensures
        turned_y(c, s, a.plus(b)) == turned_y(c, s, a).plus(turned_y(c, s, b)),
{
    lemma_times_distributes(a.z, b.z, s);
    lemma_times_distributes(a.x, b.x, c);
    lemma_times_distributes(a.z, b.z, c);
    lemma_times_distributes(a.x, b.x, s);
}

/// Turning about the z axis takes sums to sums.
proof fn lemma_turned_z_is_linear(c: real, s: real, a: RealPoint, b: RealPoint)
    ensures
        turned_z(c, s, a.plus(b)) == turned_z(c, s, a).plus(turned_z(c, s, b)),
{
    lemma_times_distributes(a.x, b.x, c);
    lemma_times_distributes(a.y, b.y, s);
    lemma_times_distributes(a.x, b.x, s);
    lemma_times_distributes(a.y, b.y, c);
}

/// A turn takes sums to sums, and the origin to the origin.
pub proof fn lemma_turn_is_linear(t: Turn, a: RealPoint, b: RealPoint)
    ensures
        turned(t, a.plus(b)) == turned(t, a).plus(turned(t, b)),
        turned(t, RealPoint::zero()) == RealPoint::zero(),
{
    let ax = turned_x(t.cos_x, t.sin_x, a);
    let bx = turned_x(t.cos_x, t.sin_x, b);
    lemma_turned_x_is_linear(t.cos_x, t.sin_x, a, b);
    let ay = turned_y(t.cos_y, t.sin_y, ax);
    let by = turned_y(t.cos_y, t.sin_y, bx);
    lemma_turned_y_is_linear(t.cos_y, t.sin_y, ax, bx);
    lemma_turned_z_is_linear(t.cos_z, t.sin_z, ay, by);
    lemma_times_zero(t.cos_x);
    lemma_times_zero(t.sin_x);
    lemma_times_zero(t.cos_y);
    lemma_times_zero(t.sin_y);
    lemma_times_zero(t.cos_z);
    lemma_times_zero(t.sin_z);
}

/// Where the arithmetic is exact, `x * c - y * s` reads as it is written.
pub proof fn lemma_mul_sub_value<S: Scalar>(
    value: spec_fn(S) -> real,
    x: S,
    c: S,
    y: S,
    s: S,
    r: S,
)
    requires
        is_exact(value),
        is_mul_sub(x, c, y, s, r),
    ensures
        value(r) == times(value(x), value(c)) - times(value(y), value(s)),
{
    let (t1, t2) = choose|t1: S, t2: S| mul_sub_steps(x, c, y, s, t1, t2, r);
    assert(mul_sub_steps(x, c, y, s, t1, t2, r));
}

/// Where the arithmetic is exact, `x * c + y * s` reads as it is written.
pub proof fn lemma_mul_add_value<S: Scalar>(
    value: spec_fn(S) -> real,
    x: S,
    c: S,
    y: S,
    s: S,
    r: S,
)
    requires
        is_exact(value),
        is_mul_add(x, c, y, s, r),
    ensures
        value(r) == times(value(x), value(c)) + times(value(y), value(s)),
{
    let (t1, t2) = choose|t1: S, t2: S| mul_add_steps(x, c, y, s, t1, t2, r);
    assert(mul_add_steps(x, c, y, s, t1, t2, r));
}

/// Where the arithmetic is exact, a point turned about the x axis reads as
/// the reading of the point, turned.
pub proof fn lemma_rotated_x_value<S: Scalar>(
    value: spec_fn(S) -> real,
    p: [S; 3],
    a: S,
    r: [S; 3],
)
    requires
        is_exact(value),
        is_rotated_x(p, a, r),
    ensures
        point_value(value, r) == turned_x(
            cos_value(value, a),
            sin_value(value, a),
            point_value(value, p),
        ),
{
    let (c, s) = choose|c: S, s: S| rotate_x_steps(p, a, c, s, r);
    assert(rotate_x_steps(p, a, c, s, r));
    lemma_mul_sub_value(value, p[1], c, p[2], s, r[1]);
    lemma_mul_add_value(value, p[1], s, p[2], c, r[2]);
}

/// Where the arithmetic is exact, a point turned about the y axis reads as
/// the reading of the point, turned.
pub proof fn lemma_rotated_y_value<S: Scalar>(
    value: spec_fn(S) -> real,
    p: [S; 3],
    a: S,
    r: [S; 3],
)
    requires
        is_exact(value),
        is_rotated_y(p, a, r),
    ensures
        point_value(value, r) == turned_y(
            cos_value(value, a),
            sin_value(value, a),
            point_value(value, p),
        ),
{
    let (c, s) = choose|c: S, s: S| rotate_y_steps(p, a, c, s, r);
    assert(rotate_y_steps(p, a, c, s, r));
    lemma_mul_add_value(value, p[2], s, p[0], c, r[0]);
    lemma_mul_sub_value(value, p[2], c, p[0], s, r[2]);
}

/// Where the arithmetic is exact, a point turned about the z axis reads as
/// the reading of the point, turned.
pub proof fn lemma_rotated_z_value<S: Scalar>(
    value: spec_fn(S) -> real,
    p: [S; 3],
    a: S,
    r: [S; 3],
)
    requires
        is_exact(value),
        is_rotated_z(p, a, r),
    ensures
        point_value(value, r) == turned_z(
            cos_value(value, a),
            sin_value(value, a),
            point_value(value, p),
        ),
{
    let (c, s) = choose|c: S, s: S| rotate_z_steps(p, a, c, s, r);
    assert(rotate_z_steps(p, a, c, s, r));
    lemma_mul_sub_value(value, p[0], c, p[1], s, r[0]);
    lemma_mul_add_value(value, p[0], s, p[1], c, r[1]);
}

/// Where the arithmetic is exact, a point turned about the three axes reads
/// as the reading of the point, turned.
pub proof fn lemma_rotated_value<S: Scalar>(
    value: spec_fn(S) -> real,
    p: [S; 3],
    angles: [S; 3],
    r: [S; 3],
)
    requires
        is_exact(value),
        is_rotated(p, angles, r),
    ensures
        point_value(value, r) == turned(turn_value(value, angles), point_value(value, p)),
{
    let (px, py) = choose|px: [S; 3], py: [S; 3]| rotate_steps(p, angles, px, py, r);
    assert(rotate_steps(p, angles, px, py, r));
    lemma_rotated_x_value(value, p, angles[0], px);
    lemma_rotated_y_value(value, px, angles[1], py);
    lemma_rotated_z_value(value, py, angles[2], r);
}

/// Where the arithmetic is exact, a point moved by `d` reads as the sum of
/// the readings.
pub proof fn lemma_translated_value<S: Scalar>(
    value: spec_fn(S) -> real,
    p: [S; 3],
    d: [S; 3],
    r: [S; 3],
)
    requires
        is_exact(value),
        is_translated(p, d, r),
    ensures
        point_value(value, r) == point_value(value, p).plus(point_value(value, d)),
{
}

/// Where the arithmetic is exact, a point scaled by `factor` reads as its
/// reading times that of `factor`.
pub proof fn lemma_scaled_value<S: Scalar>(
    value: spec_fn(S) -> real,
    p: [S; 3],
    factor: S,
    r: [S; 3],
)
    requires
        is_exact(value),
        is_scaled(p, factor, r),
    ensures
        point_value(value, r) == point_value(value, p).scaled(value(factor)),
{
}

/// Where the arithmetic is exact, the vector from `from` to `to` reads as
/// the reading of `to` less that of `from`.
pub proof fn lemma_edge_value<S: Scalar>(
    value: spec_fn(S) -> real,
    from: [S; 3],
    to: [S; 3],
    neg_one: S,
    r: [S; 3],
)
    requires
        is_exact(value),
        is_ratio(-1i32, 1, neg_one),
        is_edge(from, to, neg_one, r),
    ensures
        point_value(value, r) == point_value(value, to).minus(point_value(value, from)),
{
    let m = choose|m: [S; 3]| edge_steps(from, to, neg_one, m, r);
    assert(edge_steps(from, to, neg_one, m, r));
    lemma_times_one(value(neg_one));
    assert(value(neg_one) == -1real);
    let f = point_value(value, from);
    lemma_times_one(f.x);
    lemma_times_one(f.y);
    lemma_times_one(f.z);
}

/// Where the arithmetic is exact, the length of a point reads as a number
/// that is not negative and whose square is the sum of the squares of the
/// readings of its components.
pub proof fn lemma_length_value<S: Scalar>(value: spec_fn(S) -> real, p: [S; 3], r: S)
    requires
        is_exact(value),
        is_length(p, r),
    ensures
        value(r) >= 0real,
        times(value(r), value(r)) == point_value(value, p).norm_squared(),
{
    let (xx, yy, zz, s1, s2) = choose|xx: S, yy: S, zz: S, s1: S, s2: S|
        length_steps(p, xx, yy, zz, s1, s2, r);
    assert(length_steps(p, xx, yy, zz, s1, s2, r));
    lemma_square(value(p[0]));
    lemma_square(value(p[1]));
    lemma_square(value(p[2]));
}

/// Where the arithmetic is exact, a cross product reads as the cross product
/// of the readings.
pub proof fn lemma_cross_value<S: Scalar>(
    value: spec_fn(S) -> real,
    v0: [S; 3],
    v1: [S; 3],
    r: [S; 3],
)
    requires
        is_exact(value),
        is_cross(v0, v1, r),
    ensures
        point_value(value, r) == cross(point_value(value, v0), point_value(value, v1)),
{
    lemma_mul_sub_value(value, v0[1], v1[2], v0[2], v1[1], r[0]);
    lemma_mul_sub_value(value, v0[2], v1[0], v0[0], v1[2], r[1]);
    lemma_mul_sub_value(value, v0[0], v1[1], v0[1], v1[0], r[2]);
}

} // verus!
