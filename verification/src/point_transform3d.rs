//! Transforms of a single point: rotation about each axis, translation,
//! uniform scaling, length and cross product.
//!
//! A point is an array of three scalars, `[x, y, z]`. Each function comes with
//! a relation of the same shape that says which results the scalar arithmetic
//! allows; the intermediate values that the formula passes through are bound
//! by `exists`.
use vstd::prelude::*;
use crate::scalar::{Scalar, is_sum, is_difference, is_product, is_sqrt, is_sin, is_cos};

verus! {

/// `r` is `x * c - y * s`, through the products `t1` and `t2`.
pub open spec fn mul_sub_steps<S: Scalar>(x: S, c: S, y: S, s: S, t1: S, t2: S, r: S) -> bool {
    &&& is_product(x, c, t1)
    &&& is_product(y, s, t2)
    &&& is_difference(t1, t2, r)
}

/// `r` is a value of `x * c - y * s`.
pub open spec fn is_mul_sub<S: Scalar>(x: S, c: S, y: S, s: S, r: S) -> bool {
    exists|t1: S, t2: S| #[trigger] mul_sub_steps(x, c, y, s, t1, t2, r)
}

/// `r` is `x * c + y * s`, through the products `t1` and `t2`.
pub open spec fn mul_add_steps<S: Scalar>(x: S, c: S, y: S, s: S, t1: S, t2: S, r: S) -> bool {
    &&& is_product(x, c, t1)
    &&& is_product(y, s, t2)
    &&& is_sum(t1, t2, r)
}

/// `r` is a value of `x * c + y * s`.
pub open spec fn is_mul_add<S: Scalar>(x: S, c: S, y: S, s: S, r: S) -> bool {
    exists|t1: S, t2: S| #[trigger] mul_add_steps(x, c, y, s, t1, t2, r)
}

/// `x * c - y * s`.
fn mul_sub<S: Scalar>(x: S, c: S, y: S, s: S) -> (r: S)
    ensures
        is_mul_sub(x, c, y, s, r),
{
    let t1 = x.mul(c);
    let t2 = y.mul(s);
    let r = t1.sub(t2);
    assert(mul_sub_steps(x, c, y, s, t1, t2, r));
    r
}

/// `x * c + y * s`.
fn mul_add<S: Scalar>(x: S, c: S, y: S, s: S) -> (r: S)
    ensures
        is_mul_add(x, c, y, s, r),
{
    let t1 = x.mul(c);
    let t2 = y.mul(s);
    let r = t1.add(t2);
    assert(mul_add_steps(x, c, y, s, t1, t2, r));
    r
}

/// `r` is `p` turned about the x axis, where `c` and `s` are the cosine and
/// the sine of the angle `a`.
pub open spec fn rotate_x_steps<S: Scalar>(p: [S; 3], a: S, c: S, s: S, r: [S; 3]) -> bool {
    &&& is_cos(a, c)
    &&& is_sin(a, s)
    &&& r[0] == p[0]
    &&& is_mul_sub(p[1], c, p[2], s, r[1])
    &&& is_mul_add(p[1], s, p[2], c, r[2])
}

/// `r` is `p` turned by the angle `a` about the x axis:
/// `[x, y cos a - z sin a, y sin a + z cos a]`.
pub open spec fn is_rotated_x<S: Scalar>(p: [S; 3], a: S, r: [S; 3]) -> bool {
    exists|c: S, s: S| #[trigger] rotate_x_steps(p, a, c, s, r)
}

/// `r` is `p` turned about the y axis, where `c` and `s` are the cosine and
/// the sine of the angle `a`.
pub open spec fn rotate_y_steps<S: Scalar>(p: [S; 3], a: S, c: S, s: S, r: [S; 3]) -> bool {
    &&& is_cos(a, c)
    &&& is_sin(a, s)
    &&& is_mul_add(p[2], s, p[0], c, r[0])
    &&& r[1] == p[1]
    &&& is_mul_sub(p[2], c, p[0], s, r[2])
}

/// `r` is `p` turned by the angle `a` about the y axis:
/// `[z sin a + x cos a, y, z cos a - x sin a]`.
pub open spec fn is_rotated_y<S: Scalar>(p: [S; 3], a: S, r: [S; 3]) -> bool {
    exists|c: S, s: S| #[trigger] rotate_y_steps(p, a, c, s, r)
}

/// `r` is `p` turned about the z axis, where `c` and `s` are the cosine and
/// the sine of the angle `a`.
pub open spec fn rotate_z_steps<S: Scalar>(p: [S; 3], a: S, c: S, s: S, r: [S; 3]) -> bool {
    &&& is_cos(a, c)
    &&& is_sin(a, s)
    &&& is_mul_sub(p[0], c, p[1], s, r[0])
    &&& is_mul_add(p[0], s, p[1], c, r[1])
    &&& r[2] == p[2]
}

/// `r` is `p` turned by the angle `a` about the z axis:
/// `[x cos a - y sin a, x sin a + y cos a, z]`.
pub open spec fn is_rotated_z<S: Scalar>(p: [S; 3], a: S, r: [S; 3]) -> bool {
    exists|c: S, s: S| #[trigger] rotate_z_steps(p, a, c, s, r)
}

/// `r` is `p` turned about x, then y, then z, through the points `px` and `py`.
pub open spec fn rotate_steps<S: Scalar>(
    p: [S; 3],
    angles: [S; 3],
    px: [S; 3],
    py: [S; 3],
    r: [S; 3],
) -> bool {
    &&& is_rotated_x(p, angles[0], px)
    &&& is_rotated_y(px, angles[1], py)
    &&& is_rotated_z(py, angles[2], r)
}

/// `r` is `p` turned by `angles[0]` about the x axis, then by `angles[1]` about
/// the y axis, then by `angles[2]` about the z axis, in that order.
pub open spec fn is_rotated<S: Scalar>(p: [S; 3], angles: [S; 3], r: [S; 3]) -> bool {
    exists|px: [S; 3], py: [S; 3]| #[trigger] rotate_steps(p, angles, px, py, r)
}

/// `r` is `p + d`, component by component.
pub open spec fn is_translated<S: Scalar>(p: [S; 3], d: [S; 3], r: [S; 3]) -> bool {
    &&& is_sum(p[0], d[0], r[0])
    &&& is_sum(p[1], d[1], r[1])
    &&& is_sum(p[2], d[2], r[2])
}

/// `r` is `p` with each component multiplied by `factor`.
pub open spec fn is_scaled<S: Scalar>(p: [S; 3], factor: S, r: [S; 3]) -> bool {
    &&& is_product(p[0], factor, r[0])
    &&& is_product(p[1], factor, r[1])
    &&& is_product(p[2], factor, r[2])
}

/// `r` is the length of `p`, through the squares `xx`, `yy`, `zz` and the
/// sums `s1 = xx + yy` and `s2 = s1 + zz`.
pub open spec fn length_steps<S: Scalar>(
    p: [S; 3],
    xx: S,
    yy: S,
    zz: S,
    s1: S,
    s2: S,
    r: S,
) -> bool {
    &&& is_product(p[0], p[0], xx)
    &&& is_product(p[1], p[1], yy)
    &&& is_product(p[2], p[2], zz)
    &&& is_sum(xx, yy, s1)
    &&& is_sum(s1, zz, s2)
    &&& is_sqrt(s2, r)
}

/// `r` is the Euclidean norm of `p`: the square root of `x x + y y + z z`.
pub open spec fn is_length<S: Scalar>(p: [S; 3], r: S) -> bool {
    exists|xx: S, yy: S, zz: S, s1: S, s2: S| #[trigger] length_steps(p, xx, yy, zz, s1, s2, r)
}

/// `r` is the right-handed cross product `v0 x v1`.
pub open spec fn is_cross<S: Scalar>(v0: [S; 3], v1: [S; 3], r: [S; 3]) -> bool {
    &&& is_mul_sub(v0[1], v1[2], v0[2], v1[1], r[0])
    &&& is_mul_sub(v0[2], v1[0], v0[0], v1[2], r[1])
    &&& is_mul_sub(v0[0], v1[1], v0[1], v1[0], r[2])
}

/// Turns `p` by the angle `a`, in radians, about the x axis.
#[allow(non_snake_case)]
pub fn protate_X<S: Scalar>(p: [S; 3], a: S) -> (r: [S; 3])
    ensures
        is_rotated_x(p, a, r),
{
    let c = a.cos();
    let s = a.sin();
    let r = [p[0], mul_sub(p[1], c, p[2], s), mul_add(p[1], s, p[2], c)];
    assert(rotate_x_steps(p, a, c, s, r));
    r
}

/// Turns `p` by the angle `a`, in radians, about the y axis.
#[allow(non_snake_case)]
pub fn protate_Y<S: Scalar>(p: [S; 3], a: S) -> (r: [S; 3])
    ensures
        is_rotated_y(p, a, r),
{
    let c = a.cos();
    let s = a.sin();
    let r = [mul_add(p[2], s, p[0], c), p[1], mul_sub(p[2], c, p[0], s)];
    assert(rotate_y_steps(p, a, c, s, r));
    r
}

/// Turns `p` by the angle `a`, in radians, about the z axis.
#[allow(non_snake_case)]
pub fn protate_Z<S: Scalar>(p: [S; 3], a: S) -> (r: [S; 3])
    ensures
        is_rotated_z(p, a, r),
{
    let c = a.cos();
    let s = a.sin();
    let r = [mul_sub(p[0], c, p[1], s), mul_add(p[0], s, p[1], c), p[2]];
    assert(rotate_z_steps(p, a, c, s, r));
    r
}

/// Turns `p` about the x axis, then the y axis, then the z axis, by the three
/// angles of `angles`. The order is fixed, and the three turns do not commute.
pub fn protate<S: Scalar>(p: [S; 3], angles: [S; 3]) -> (r: [S; 3])
    ensures
        is_rotated(p, angles, r),
{
    let px = protate_X(p, angles[0]);
    let py = protate_Y(px, angles[1]);
    let r = protate_Z(py, angles[2]);
    assert(rotate_steps(p, angles, px, py, r));
    r
}

/// Moves `p` by `relative`.
pub fn ptranslate<S: Scalar>(p: [S; 3], relative: [S; 3]) -> (r: [S; 3])
    ensures
        is_translated(p, relative, r),
{
    [p[0].add(relative[0]), p[1].add(relative[1]), p[2].add(relative[2])]
}

/// Multiplies each component of `p` by `factor`.
pub fn pscale<S: Scalar>(p: [S; 3], factor: S) -> (r: [S; 3])
    ensures
        is_scaled(p, factor, r),
{
    [p[0].mul(factor), p[1].mul(factor), p[2].mul(factor)]
}

/// The Euclidean norm of `p`.
pub fn plength<S: Scalar>(p: [S; 3]) -> (r: S)
    ensures
        is_length(p, r),
{
    let xx = p[0].mul(p[0]);
    let yy = p[1].mul(p[1]);
    let zz = p[2].mul(p[2]);
    let s1 = xx.add(yy);
    let s2 = s1.add(zz);
    let r = s2.sqrt();
    assert(length_steps(p, xx, yy, zz, s1, s2, r));
    r
}

/// The cross product `v0 x v1`.
pub fn vcross<S: Scalar>(v0: [S; 3], v1: [S; 3]) -> (r: [S; 3])
    ensures
        is_cross(v0, v1, r),
{
    [
        mul_sub(v0[1], v1[2], v0[2], v1[1]),
        mul_sub(v0[2], v1[0], v0[0], v1[2]),
        mul_sub(v0[0], v1[1], v0[1], v1[0]),
    ]
}

} // verus!
