//! What the transforms and the primitives do where the scalar arithmetic is
//! exact: turning by nothing and moving there and back change nothing,
//! turning about the centroid keeps the centroid, projecting onto a sphere
//! puts every vertex on the sphere, and a cube has its corners and its
//! normals where they belong.
//!
//! An arithmetic that rounds has these laws up to its rounding, which
//! nothing here measures.
use vstd::prelude::*;
use crate::scalar::{Scalar, is_ratio};
use crate::point_transform3d::{
    is_rotated, is_translated, rotate_steps, rotate_x_steps, rotate_y_steps, rotate_z_steps,
};
use crate::vertex3d::Vertex;
use crate::normal3d::Normal;
use crate::mesh::{Mesh, lemma_joined_index, lemma_joined_len};
use crate::rigid::{
    is_negated_point, is_zero_point, are_running_sums, centroid_steps, is_turned_about,
    turn_about_steps,
};
use crate::spherify::{is_projected, project_steps, is_vertex_projected};
use crate::shapes::quad::{is_quad, quad_steps};
use crate::shapes::cube::{is_cube, cube_steps};
use crate::exact::{
    is_exact, times, cross, RealPoint, Turn, turned, point_value, turn_value, total_value,
    read_alike, lemma_times_distributes, lemma_times_zero, lemma_times_one, lemma_times_negation,
    lemma_times_cancel, lemma_square, lemma_square_of_product, lemma_turn_is_linear,
    lemma_mul_sub_value, lemma_mul_add_value, lemma_rotated_value, lemma_translated_value,
    lemma_scaled_value, lemma_edge_value, lemma_length_value, lemma_cross_value,
};

verus! {

/// Where the arithmetic is exact, a point turned by three angles that read
/// zero reads as it did before.
pub proof fn lemma_point_rotated_by_zero<S: Scalar>(
    value: spec_fn(S) -> real,
    p: [S; 3],
    angles: [S; 3],
    r: [S; 3],
)
    requires
        is_exact(value),
        value(angles[0]) == 0real,
        value(angles[1]) == 0real,
        value(angles[2]) == 0real,
        is_rotated(p, angles, r),
    ensures
        point_value(value, r) == point_value(value, p),
{
    let (px, py) = choose|px: [S; 3], py: [S; 3]| rotate_steps(p, angles, px, py, r);
    assert(rotate_steps(p, angles, px, py, r));

    let (cx, sx) = choose|c: S, s: S| rotate_x_steps(p, angles[0], c, s, px);
    assert(rotate_x_steps(p, angles[0], cx, sx, px));
    lemma_mul_sub_value(value, p[1], cx, p[2], sx, px[1]);
    lemma_mul_add_value(value, p[1], sx, p[2], cx, px[2]);
    lemma_times_one(value(p[1]));
    lemma_times_one(value(p[2]));
    lemma_times_zero(value(p[1]));
    lemma_times_zero(value(p[2]));
    assert(point_value(value, px) == point_value(value, p));

    let (cy, sy) = choose|c: S, s: S| rotate_y_steps(px, angles[1], c, s, py);
    assert(rotate_y_steps(px, angles[1], cy, sy, py));
    lemma_mul_add_value(value, px[2], sy, px[0], cy, py[0]);
    lemma_mul_sub_value(value, px[2], cy, px[0], sy, py[2]);
    lemma_times_one(value(px[0]));
    lemma_times_one(value(px[2]));
    lemma_times_zero(value(px[0]));
    lemma_times_zero(value(px[2]));
    assert(point_value(value, py) == point_value(value, px));

    let (cz, sz) = choose|c: S, s: S| rotate_z_steps(py, angles[2], c, s, r);
    assert(rotate_z_steps(py, angles[2], cz, sz, r));
    lemma_mul_sub_value(value, py[0], cz, py[1], sz, r[0]);
    lemma_mul_add_value(value, py[0], sz, py[1], cz, r[1]);
    lemma_times_one(value(py[0]));
    lemma_times_one(value(py[1]));
    lemma_times_zero(value(py[0]));
    lemma_times_zero(value(py[1]));
    assert(point_value(value, r) == point_value(value, py));
}

/// Where the arithmetic is exact, a mesh turned about the world origin by
/// three angles that read zero reads as it did before.
pub proof fn lemma_rotate_by_zero<S: Scalar>(
    value: spec_fn(S) -> real,
    m: Mesh<S>,
    angles: [S; 3],
    r: Mesh<S>,
)
    requires
        is_exact(value),
        value(angles[0]) == 0real,
        value(angles[1]) == 0real,
        value(angles[2]) == 0real,
        m.is_rotated(angles, r),
    ensures
        read_alike(value, m, r),
{
    assert forall|i: int| 0 <= i < m.vertices.len() implies {
        &&& point_value(value, m.vertices[i].position) == point_value(
            value,
            (#[trigger] r.vertices[i]).position,
        )
        &&& m.vertices[i].texture == r.vertices[i].texture
        &&& m.vertices[i].material_id == r.vertices[i].material_id
    } by {
        assert(m.vertices[i].is_rotated(angles, r.vertices[i]));
        lemma_point_rotated_by_zero(value, m.vertices[i].position, angles, r.vertices[i].position);
    }
    assert forall|i: int| 0 <= i < m.normals.len() implies point_value(
        value,
        m.normals[i].normal,
    ) == point_value(value, (#[trigger] r.normals[i]).normal) by {
        assert(m.normals[i].is_rotated(angles, r.normals[i]));
        lemma_point_rotated_by_zero(value, m.normals[i].normal, angles, r.normals[i].normal);
    }
}

/// Where the arithmetic is exact, a mesh moved by `v` and then by `w`, which
/// reads as `-v`, reads as it did before, and has the normals it had.
pub proof fn lemma_translate_there_and_back<S: Scalar>(
    value: spec_fn(S) -> real,
    m: Mesh<S>,
    v: [S; 3],
    w: [S; 3],
    there: Mesh<S>,
    back: Mesh<S>,
)
    requires
        is_exact(value),
        point_value(value, w) == RealPoint::zero().minus(point_value(value, v)),
        m.is_translated(v, there),
        there.is_translated(w, back),
    ensures
        read_alike(value, m, back),
        back.normals == m.normals,
{
    assert forall|i: int| 0 <= i < m.vertices.len() implies {
        &&& point_value(value, m.vertices[i].position) == point_value(
            value,
            (#[trigger] back.vertices[i]).position,
        )
        &&& m.vertices[i].texture == back.vertices[i].texture
        &&& m.vertices[i].material_id == back.vertices[i].material_id
    } by {
        assert(m.vertices[i].is_translated(v, there.vertices[i]));
        assert(there.vertices[i].is_translated(w, back.vertices[i]));
    }
}

/// Where the arithmetic is exact, the running sums of positions read as the
/// sums of the readings.
proof fn lemma_running_sums_value<S: Scalar>(
    value: spec_fn(S) -> real,
    vertices: Seq<Vertex<S>>,
    sums: Seq<[S; 3]>,
    j: int,
)
    requires
        is_exact(value),
        are_running_sums(vertices, sums),
        0 <= j <= vertices.len(),
    ensures
        point_value(value, sums[j]) == total_value(value, vertices.take(j)),
    decreases j,
{
    if j == 0 {
        assert(is_zero_point(sums[0]));
        lemma_times_one(value(sums[0][0]));
        lemma_times_one(value(sums[0][1]));
        lemma_times_one(value(sums[0][2]));
        assert(vertices.take(0).len() == 0);
    } else {
        lemma_running_sums_value(value, vertices, sums, j - 1);
        let upto = vertices.take(j);
        assert(upto.drop_last() =~= vertices.take(j - 1));
        assert(upto.last() == vertices[j - 1]);
        assert(is_translated(sums[j - 1], vertices[j - 1].position, sums[(j - 1) + 1]));
    }
}

/// Where the arithmetic is exact, a centroid of a mesh, times the number of
/// its vertices, reads as the sum of the readings of their positions.
pub proof fn lemma_centroid_value<S: Scalar>(value: spec_fn(S) -> real, m: Mesh<S>, c: [S; 3])
    requires
        is_exact(value),
        0 < m.vertices.len() <= usize::MAX,
        m.is_centroid(c),
    ensures
        point_value(value, c).scaled(m.vertices.len() as real) == total_value(value, m.vertices),
{
    let (total, n) = choose|total: [S; 3], n: S| centroid_steps(m.vertices, total, n, c);
    assert(centroid_steps(m.vertices, total, n, c));
    let sums = choose|sums: Seq<[S; 3]>|
        #[trigger] are_running_sums(m.vertices, sums) && sums[m.vertices.len() as int] == total;
    lemma_running_sums_value(value, m.vertices, sums, m.vertices.len() as int);
    assert(m.vertices.take(m.vertices.len() as int) =~= m.vertices);
    assert(value(n) == m.vertices.len() as real);
}

/// Where the arithmetic is exact, a vertex turned about `origin` reads as
/// its reading less that of `origin`, turned, plus that of `origin`.
proof fn lemma_turned_about_value<S: Scalar>(
    value: spec_fn(S) -> real,
    v: Vertex<S>,
    origin: [S; 3],
    neg_origin: [S; 3],
    angles: [S; 3],
    r: Vertex<S>,
)
    requires
        is_exact(value),
        is_negated_point(origin, neg_origin),
        is_turned_about(v, origin, neg_origin, angles, r),
    ensures
        point_value(value, r.position) == turned(
            turn_value(value, angles),
            point_value(value, v.position).minus(point_value(value, origin)),
        ).plus(point_value(value, origin)),
{
    let (v1, v2) = choose|v1: Vertex<S>, v2: Vertex<S>|
        turn_about_steps(v, origin, neg_origin, angles, v1, v2, r);
    assert(turn_about_steps(v, origin, neg_origin, angles, v1, v2, r));
    lemma_translated_value(value, v.position, neg_origin, v1.position);
    lemma_rotated_value(value, v1.position, angles, v2.position);
    lemma_translated_value(value, v2.position, origin, r.position);
    assert(point_value(value, v1.position) == point_value(value, v.position).minus(
        point_value(value, origin),
    ));
}

/// If every position of `b` reads as that of `a` less `o`, turned, plus `o`,
/// then the sum of the positions of `b` reads as the sum of those of `a`
/// less `o` for each, turned, plus `o` for each.
proof fn lemma_total_turned<S: Scalar>(
    value: spec_fn(S) -> real,
    a: Seq<Vertex<S>>,
    b: Seq<Vertex<S>>,
    t: Turn,
    o: RealPoint,
)
    requires
        a.len() == b.len(),
        forall|i: int|
            0 <= i < a.len() ==> point_value(value, (#[trigger] b[i]).position) == turned(
                t,
                point_value(value, a[i].position).minus(o),
            ).plus(o),
    ensures
        total_value(value, b) == turned(
            t,
            total_value(value, a).minus(o.scaled(a.len() as real)),
        ).plus(o.scaled(a.len() as real)),
    decreases a.len(),
{
    if a.len() == 0 {
        lemma_turn_is_linear(t, RealPoint::zero(), RealPoint::zero());
        lemma_times_zero(o.x);
        lemma_times_zero(o.y);
        lemma_times_zero(o.z);
        assert(total_value(value, a).minus(o.scaled(0real)) == RealPoint::zero());
    } else {
        let before_a = a.drop_last();
        let before_b = b.drop_last();
        let n = before_a.len() as real;
        assert forall|i: int| 0 <= i < before_a.len() implies point_value(
            value,
            (#[trigger] before_b[i]).position,
        ) == turned(t, point_value(value, before_a[i].position).minus(o)).plus(o) by {
            assert(before_b[i] == b[i]);
        }
        lemma_total_turned(value, before_a, before_b, t, o);
        let rest = total_value(value, before_a).minus(o.scaled(n));
        let last = point_value(value, a.last().position).minus(o);
        lemma_turn_is_linear(t, rest, last);
        assert(point_value(value, b.last().position) == turned(t, last).plus(o)) by {
            assert(b.last() == b[b.len() - 1]);
        }
        assert(a.len() as real == n + 1real);
        lemma_times_distributes(n, 1real, o.x);
        lemma_times_distributes(n, 1real, o.y);
        lemma_times_distributes(n, 1real, o.z);
        lemma_times_one(o.x);
        lemma_times_one(o.y);
        lemma_times_one(o.z);
        assert(o.scaled(n + 1real) == o.scaled(n).plus(o));
        assert(rest.plus(last) == total_value(value, a).minus(o.scaled(a.len() as real)));
    }
}

/// Where the arithmetic is exact, a mesh turned about its centroid has the
/// centroid that it had: any centroid of the one reads as any centroid of
/// the other.
pub proof fn lemma_rotated_about_centroid_keeps_centroid<S: Scalar>(
    value: spec_fn(S) -> real,
    m: Mesh<S>,
    angles: [S; 3],
    r: Mesh<S>,
    c: [S; 3],
    c2: [S; 3],
)
    requires
        is_exact(value),
        0 < m.vertices.len() <= usize::MAX,
        m.is_rotated_about_centroid(angles, r),
        m.is_centroid(c),
        r.is_centroid(c2),
    ensures
        point_value(value, c2) == point_value(value, c),
{
    let (origin, neg_origin) = choose|origin: [S; 3], neg_origin: [S; 3]|
        m.rotate_about_steps(origin, neg_origin, angles, r);
    assert(m.rotate_about_steps(origin, neg_origin, angles, r));
    let o = point_value(value, origin);
    let t = turn_value(value, angles);
    let n = m.vertices.len() as real;
    assert forall|i: int| 0 <= i < m.vertices.len() implies point_value(
        value,
        (#[trigger] r.vertices[i]).position,
    ) == turned(t, point_value(value, m.vertices[i].position).minus(o)).plus(o) by {
        lemma_turned_about_value(
            value,
            m.vertices[i],
            origin,
            neg_origin,
            angles,
            r.vertices[i],
        );
    }
    lemma_total_turned(value, m.vertices, r.vertices, t, o);
    lemma_centroid_value(value, m, origin);
    assert(total_value(value, m.vertices).minus(o.scaled(n)) == RealPoint::zero());
    lemma_turn_is_linear(t, RealPoint::zero(), RealPoint::zero());
    assert(total_value(value, r.vertices) == o.scaled(n));
    lemma_centroid_value(value, r, c2);
    lemma_centroid_value(value, m, c);
    let pc = point_value(value, c);
    let pc2 = point_value(value, c2);
    lemma_times_cancel(pc2.x, o.x, n);
    lemma_times_cancel(pc2.y, o.y, n);
    lemma_times_cancel(pc2.z, o.z, n);
    lemma_times_cancel(pc.x, o.x, n);
    lemma_times_cancel(pc.y, o.y, n);
    lemma_times_cancel(pc.z, o.z, n);
}

/// The square of the length of a point scaled by `f` is that of the point
/// times the square of `f`; where `f` is `r / l` for the length `l` of the
/// point, it is the square of `r`.
proof fn lemma_scaled_norm(d: RealPoint, f: real, l: real, r: real)
    requires
        times(l, l) == d.norm_squared(),
        times(f, l) == r,
    ensures
        d.scaled(f).norm_squared() == times(r, r),
{
    let ff = times(f, f);
    lemma_square_of_product(d.x, f);
    lemma_square_of_product(d.y, f);
    lemma_square_of_product(d.z, f);
    lemma_times_distributes(times(d.x, d.x), times(d.y, d.y), ff);
    lemma_times_distributes(times(d.x, d.x) + times(d.y, d.y), times(d.z, d.z), ff);
    assert(d.scaled(f).norm_squared() == times(d.norm_squared(), ff));
    lemma_square_of_product(l, f);
    assert(times(times(l, l), ff) == times(times(f, l), times(f, l)));
}

/// Where the arithmetic is exact, a point projected onto the sphere about
/// `c` lies on it: the square of its distance from `c` reads as the square
/// of the radius. The point must not read as `c` does, or there is no
/// direction to project it in.
pub proof fn lemma_projected_value<S: Scalar>(
    value: spec_fn(S) -> real,
    p: [S; 3],
    c: [S; 3],
    neg_one: S,
    radius: S,
    q: [S; 3],
)
    requires
        is_exact(value),
        is_ratio(-1i32, 1, neg_one),
        is_projected(p, c, neg_one, radius, q),
        point_value(value, p) != point_value(value, c),
    ensures
        point_value(value, q).minus(point_value(value, c)).norm_squared() == times(
            value(radius),
            value(radius),
        ),
{
    let (diff, len, f, arm) = choose|diff: [S; 3], len: S, f: S, arm: [S; 3]|
        project_steps(p, c, neg_one, radius, diff, len, f, arm, q);
    assert(project_steps(p, c, neg_one, radius, diff, len, f, arm, q));
    lemma_edge_value(value, c, p, neg_one, diff);
    lemma_length_value(value, diff, len);
    let d = point_value(value, diff);
    lemma_square(d.x);
    lemma_square(d.y);
    lemma_square(d.z);
    assert(d.norm_squared() > 0real);
    let l = value(len);
    assert(l != 0real) by {
        if l == 0real {
            lemma_times_zero(l);
        }
    }
    lemma_scaled_value(value, diff, f, arm);
    lemma_translated_value(value, c, arm, q);
    lemma_scaled_norm(d, value(f), l, value(radius));
    assert(point_value(value, q).minus(point_value(value, c)) == d.scaled(value(f)));
}

/// Where the arithmetic is exact, every vertex of a mesh projected onto a
/// sphere about its centroid lies on the sphere: the square of its distance
/// from the centroid reads as the square of the radius. No vertex of the
/// mesh may read as the centroid does.
pub proof fn lemma_spherified_lies_on_sphere<S: Scalar>(
    value: spec_fn(S) -> real,
    m: Mesh<S>,
    radius: S,
    r: Mesh<S>,
    c: [S; 3],
)
    requires
        is_exact(value),
        m.is_triangle_list(),
        0 < m.vertices.len() <= usize::MAX,
        m.is_spherified(radius, r),
        m.is_centroid(c),
        forall|i: int|
            0 <= i < m.vertices.len() ==> point_value(value, (#[trigger] m.vertices[i]).position)
                != point_value(value, c),
    ensures
        r.vertices.len() == m.vertices.len(),
        forall|i: int|
            0 <= i < r.vertices.len() ==> point_value(
                value,
                (#[trigger] r.vertices[i]).position,
            ).minus(point_value(value, c)).norm_squared() == times(value(radius), value(radius)),
{
    let (center, neg_one) = choose|center: [S; 3], neg_one: S|
        m.spherify_steps(center, neg_one, radius, r);
    assert(m.spherify_steps(center, neg_one, radius, r));
    let n = m.vertices.len() as real;
    lemma_centroid_value(value, m, center);
    lemma_centroid_value(value, m, c);
    let pc = point_value(value, c);
    let pcenter = point_value(value, center);
    lemma_times_cancel(pcenter.x, pc.x, n);
    lemma_times_cancel(pcenter.y, pc.y, n);
    lemma_times_cancel(pcenter.z, pc.z, n);
    assert(pcenter == pc);
    assert forall|i: int| 0 <= i < r.vertices.len() implies point_value(
        value,
        (#[trigger] r.vertices[i]).position,
    ).minus(point_value(value, c)).norm_squared() == times(value(radius), value(radius)) by {
        let t = i / 3;
        assert(0 <= t < m.triangle_count());
        assert(m.is_rounded_at(t, center, neg_one, radius, r));
        assert(i == 3 * t || i == 3 * t + 1 || i == 3 * t + 2);
        assert(is_vertex_projected(m.vertices[i], center, neg_one, radius, r.vertices[i]));
        assert(point_value(value, m.vertices[i].position) != pc);
        lemma_projected_value(
            value,
            m.vertices[i].position,
            center,
            neg_one,
            radius,
            r.vertices[i].position,
        );
    }
}

/// Corner `j` of the six of the quad at `b` with the edges `e0` and `e1`:
/// `b`, `b + e0` and `b + e0 + e1` for the first triangle, and `b`,
/// `b + e0 + e1` and `b + e1` for the second.
pub open spec fn quad_corner(j: int, b: RealPoint, e0: RealPoint, e1: RealPoint) -> RealPoint {
    if j == 0 || j == 3 {
        b
    } else if j == 1 {
        b.plus(e0)
    } else if j == 2 || j == 4 {
        b.plus(e0).plus(e1)
    } else {
        b.plus(e1)
    }
}

/// Where the arithmetic is exact, the six vertices of a quad read as the
/// corners of its parallelogram, and its six normals as the cross product of
/// its edges.
pub proof fn lemma_quad_value<S: Scalar>(
    value: spec_fn(S) -> real,
    bottom_left: [S; 3],
    plane: [[S; 3]; 2],
    material_id: i32,
    q: Mesh<S>,
)
    requires
        is_exact(value),
        is_quad(bottom_left, plane, material_id, q),
    ensures
        q.vertices.len() == 6,
        q.normals.len() == 6,
        forall|j: int|
            0 <= j < 6 ==> point_value(value, (#[trigger] q.vertices[j]).position) == quad_corner(
                j,
                point_value(value, bottom_left),
                point_value(value, plane[0]),
                point_value(value, plane[1]),
            ),
        forall|j: int|
            0 <= j < 6 ==> point_value(value, (#[trigger] q.normals[j]).normal) == cross(
                point_value(value, plane[0]),
                point_value(value, plane[1]),
            ),
{
    let (zero, one, right, top, left, n) = choose|
        zero: S,
        one: S,
        right: [S; 3],
        top: [S; 3],
        left: [S; 3],
        n: Normal<S>,
    | quad_steps(bottom_left, plane, material_id, zero, one, right, top, left, n, q);
    assert(quad_steps(bottom_left, plane, material_id, zero, one, right, top, left, n, q));
    lemma_translated_value(value, bottom_left, plane[0], right);
    lemma_translated_value(value, right, plane[1], top);
    lemma_translated_value(value, bottom_left, plane[1], left);
    lemma_cross_value(value, plane[0], plane[1], n.normal);
}

/// Each coordinate of `p` is that of `c`, or that of `c` plus `s`: `p` is a
/// corner of the cube that reaches from `c` by `s` along each axis.
pub open spec fn is_box_corner(c: RealPoint, s: real, p: RealPoint) -> bool {
    &&& p.x == c.x || p.x == c.x + s
    &&& p.y == c.y || p.y == c.y + s
    &&& p.z == c.z || p.z == c.z + s
}

/// The normal of face `k` of a cube of the side `s`: the square of `s`
/// along the axis that the face is across, from the face towards the face
/// opposite to it where `s` is positive. The faces are top, bottom, front,
/// rear, left and right.
pub open spec fn cube_normal(k: int, s: real) -> RealPoint {
    let ss = times(s, s);
    if k == 0 {
        RealPoint { x: 0real, y: -ss, z: 0real }
    } else if k == 1 {
        RealPoint { x: 0real, y: ss, z: 0real }
    } else if k == 2 {
        RealPoint { x: 0real, y: 0real, z: ss }
    } else if k == 3 {
        RealPoint { x: 0real, y: 0real, z: -ss }
    } else if k == 4 {
        RealPoint { x: ss, y: 0real, z: 0real }
    } else {
        RealPoint { x: -ss, y: 0real, z: 0real }
    }
}

/// Where the arithmetic is exact, the vertices of face `k` of a cube read as
/// corners of the cube, and its normals as the normal of the face.
proof fn lemma_cube_face_value<S: Scalar>(
    value: spec_fn(S) -> real,
    corner: [S; 3],
    side: S,
    material_id: i32,
    zero: S,
    neg: S,
    x1: S,
    y1: S,
    z1: S,
    quads: Seq<Mesh<S>>,
    r: Mesh<S>,
    k: int,
)
    requires
        is_exact(value),
        cube_steps(corner, side, material_id, zero, neg, x1, y1, z1, quads, r),
        0 <= k < 6,
    ensures
        quads[k].vertices.len() == 6,
        quads[k].normals.len() == 6,
        forall|j: int|
            0 <= j < 6 ==> is_box_corner(
                point_value(value, corner),
                value(side),
                point_value(value, (#[trigger] quads[k].vertices[j]).position),
            ),
        forall|j: int|
            0 <= j < 6 ==> point_value(value, (#[trigger] quads[k].normals[j]).normal)
                == cube_normal(k, value(side)),
{
    let s = value(side);
    lemma_times_one(value(zero));
    assert(value(zero) == 0real);
    assert(value(neg) == -s);
    lemma_times_zero(s);
    lemma_times_zero(-s);
    lemma_times_zero(0real);
    lemma_times_negation(s, s);
    if k == 0 {
        lemma_quad_value(
            value,
            [corner[0], y1, corner[2]],
            [[side, zero, zero], [zero, zero, side]],
            material_id,
            quads[0],
        );
    } else if k == 1 {
        lemma_quad_value(
            value,
            [corner[0], corner[1], z1],
            [[side, zero, zero], [zero, zero, neg]],
            material_id,
            quads[1],
        );
    } else if k == 2 {
        lemma_quad_value(
            value,
            corner,
            [[side, zero, zero], [zero, side, zero]],
            material_id,
            quads[2],
        );
    } else if k == 3 {
        lemma_quad_value(
            value,
            [x1, corner[1], z1],
            [[neg, zero, zero], [zero, side, zero]],
            material_id,
            quads[3],
        );
    } else if k == 4 {
        lemma_quad_value(
            value,
            [corner[0], corner[1], z1],
            [[zero, zero, neg], [zero, side, zero]],
            material_id,
            quads[4],
        );
    } else {
        lemma_quad_value(
            value,
            [x1, corner[1], corner[2]],
            [[zero, zero, side], [zero, side, zero]],
            material_id,
            quads[5],
        );
    }
}

/// Where the arithmetic is exact, every vertex of a cube reads as a corner
/// of the box that reaches from `corner` by `side` along each axis, and the
/// six normals of face `k` read as the normal of that face: all six faces
/// are wound alike, and the normals of opposite faces are opposite.
pub proof fn lemma_cube_value<S: Scalar>(
    value: spec_fn(S) -> real,
    corner: [S; 3],
    side: S,
    material_id: i32,
    r: Mesh<S>,
)
    requires
        is_exact(value),
        is_cube(corner, side, material_id, r),
    ensures
        r.vertices.len() == 36,
        r.normals.len() == 36,
        forall|i: int|
            0 <= i < 36 ==> is_box_corner(
                point_value(value, corner),
                value(side),
                point_value(value, (#[trigger] r.vertices[i]).position),
            ),
        forall|i: int|
            0 <= i < 36 ==> point_value(value, (#[trigger] r.normals[i]).normal) == cube_normal(
                i / 6,
                value(side),
            ),
{
    let (zero, neg, x1, y1, z1, quads) = choose|
        zero: S,
        neg: S,
        x1: S,
        y1: S,
        z1: S,
        quads: Seq<Mesh<S>>,
    | cube_steps(corner, side, material_id, zero, neg, x1, y1, z1, quads, r);
    assert(cube_steps(corner, side, material_id, zero, neg, x1, y1, z1, quads, r));
    assert forall|k: int| 0 <= k < quads.len() implies {
        &&& (#[trigger] quads[k]).vertices.len() == 6
        &&& quads[k].normals.len() == 6
    } by {
        lemma_cube_face_value(
            value, corner, side, material_id, zero, neg, x1, y1, z1, quads, r, k,
        );
    }
    lemma_joined_len(quads, 6);
    assert forall|i: int| 0 <= i < 36 implies is_box_corner(
        point_value(value, corner),
        value(side),
        point_value(value, (#[trigger] r.vertices[i]).position),
    ) by {
        let k = i / 6;
        let j = i % 6;
        lemma_cube_face_value(
            value, corner, side, material_id, zero, neg, x1, y1, z1, quads, r, k,
        );
        lemma_joined_index(quads, 6, k, j);
        assert(r.vertices[i] == quads[k].vertices[j]);
    }
    assert forall|i: int| 0 <= i < 36 implies point_value(
        value,
        (#[trigger] r.normals[i]).normal,
    ) == cube_normal(i / 6, value(side)) by {
        let k = i / 6;
        let j = i % 6;
        lemma_cube_face_value(
            value, corner, side, material_id, zero, neg, x1, y1, z1, quads, r, k,
        );
        lemma_joined_index(quads, 6, k, j);
        assert(r.normals[i] == quads[k].normals[j]);
    }
}

} // verus!
