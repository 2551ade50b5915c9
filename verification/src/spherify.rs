//! Projection of a mesh onto a sphere about its centroid, with a new flat
//! normal for every triangle.
use vstd::prelude::*;
use crate::scalar::{Scalar, is_ratio, is_quotient};
use crate::point_transform3d::{
    is_translated, is_scaled, is_length, is_cross, ptranslate, pscale, plength, vcross,
};
use crate::vertex3d::Vertex;
use crate::normal3d::Normal;
use crate::mesh::Mesh;

verus! {

/// `r` is `to - from`, computed as `to + from * neg_one`, through the
/// product `m`.
pub open spec fn edge_steps<S: Scalar>(
    from: [S; 3],
    to: [S; 3],
    neg_one: S,
    m: [S; 3],
    r: [S; 3],
) -> bool {
    &&& is_scaled(from, neg_one, m)
    &&& is_translated(to, m, r)
}

/// `r` is the vector that leads from `from` to `to`.
pub open spec fn is_edge<S: Scalar>(from: [S; 3], to: [S; 3], neg_one: S, r: [S; 3]) -> bool {
    exists|m: [S; 3]| #[trigger] edge_steps(from, to, neg_one, m, r)
}

/// `r` is `p` projected onto the sphere about `c`: `diff` leads from `c` to
/// `p` and is `len` long, `f` is `radius / len`, and `arm` is `diff * f`.
pub open spec fn project_steps<S: Scalar>(
    p: [S; 3],
    c: [S; 3],
    neg_one: S,
    radius: S,
    diff: [S; 3],
    len: S,
    f: S,
    arm: [S; 3],
    r: [S; 3],
) -> bool {
    &&& is_edge(c, p, neg_one, diff)
    &&& is_length(diff, len)
    &&& is_quotient(radius, len, f)
    &&& is_scaled(diff, f, arm)
    &&& is_translated(c, arm, r)
}

/// `r` is the point at the distance `radius` from `c` in the direction of
/// `p`: `c + (p - c) * (radius / |p - c|)`.
pub open spec fn is_projected<S: Scalar>(
    p: [S; 3],
    c: [S; 3],
    neg_one: S,
    radius: S,
    r: [S; 3],
) -> bool {
    exists|diff: [S; 3], len: S, f: S, arm: [S; 3]| #[trigger]
        project_steps(p, c, neg_one, radius, diff, len, f, arm, r)
}

/// `n` is the normal of the triangle `q0 q1 q2`: the cross product of its
/// edges `e1`, from `q0` to `q1`, and `e2`, from `q1` to `q2`.
pub open spec fn face_normal_steps<S: Scalar>(
    q0: [S; 3],
    q1: [S; 3],
    q2: [S; 3],
    neg_one: S,
    e1: [S; 3],
    e2: [S; 3],
    n: [S; 3],
) -> bool {
    &&& is_edge(q0, q1, neg_one, e1)
    &&& is_edge(q1, q2, neg_one, e2)
    &&& is_cross(e1, e2, n)
}

/// `n` is the flat normal of the triangle `q0 q1 q2`.
pub open spec fn is_face_normal<S: Scalar>(
    q0: [S; 3],
    q1: [S; 3],
    q2: [S; 3],
    neg_one: S,
    n: [S; 3],
) -> bool {
    exists|e1: [S; 3], e2: [S; 3]| #[trigger] face_normal_steps(q0, q1, q2, neg_one, e1, e2, n)
}

/// `r` is `v` projected onto the sphere of `radius` about `c`, texture
/// coordinate and material kept.
pub open spec fn is_vertex_projected<S: Scalar>(
    v: Vertex<S>,
    c: [S; 3],
    neg_one: S,
    radius: S,
    r: Vertex<S>,
) -> bool {
    &&& is_projected(v.position, c, neg_one, radius, r.position)
    &&& r.texture == v.texture
    &&& r.material_id == v.material_id
}

impl<S: Scalar> Mesh<S> {
    /// Triangle `t` of `r` is triangle `t` of this mesh on the sphere of
    /// `radius` about `c`: each vertex projected, and the three normals set to
    /// the flat normal of the projected triangle.
    pub open spec fn is_rounded_at(
        self,
        t: int,
        c: [S; 3],
        neg_one: S,
        radius: S,
        r: Mesh<S>,
    ) -> bool {
        &&& is_vertex_projected(self.vertices[3 * t], c, neg_one, radius, r.vertices[3 * t])
        &&& is_vertex_projected(self.vertices[3 * t + 1], c, neg_one, radius, r.vertices[3 * t + 1])
        &&& is_vertex_projected(self.vertices[3 * t + 2], c, neg_one, radius, r.vertices[3 * t + 2])
        &&& is_face_normal(
            r.vertices[3 * t].position,
            r.vertices[3 * t + 1].position,
            r.vertices[3 * t + 2].position,
            neg_one,
            r.normals[3 * t].normal,
        )
        &&& r.normals[3 * t + 1] == r.normals[3 * t]
        &&& r.normals[3 * t + 2] == r.normals[3 * t]
    }

    /// `r` is this mesh on the sphere of `radius` about `c`, its centroid,
    /// where `neg_one` is the scalar for minus one.
    pub open spec fn spherify_steps(self, c: [S; 3], neg_one: S, radius: S, r: Mesh<S>) -> bool {
        &&& self.is_centroid(c)
        &&& is_ratio(-1i32, 1, neg_one)
        &&& r.vertices.len() == self.vertices.len()
        &&& r.normals.len() == self.normals.len()
        &&& forall|t: int|
            0 <= t < self.triangle_count() ==> #[trigger] self.is_rounded_at(
                t,
                c,
                neg_one,
                radius,
                r,
            )
    }

    /// `r` is this mesh projected onto the sphere of `radius` about its
    /// centroid: every position becomes
    /// `centroid + (position - centroid) * (radius / |position - centroid|)`,
    /// and every triangle gets the cross product of its new edges as the
    /// normal of its three vertices.
    pub open spec fn is_spherified(self, radius: S, r: Mesh<S>) -> bool {
        exists|c: [S; 3], neg_one: S| #[trigger] self.spherify_steps(c, neg_one, radius, r)
    }
}

/// The vector that leads from `from` to `to`.
fn edge<S: Scalar>(from: [S; 3], to: [S; 3], neg_one: S) -> (r: [S; 3])
    ensures
        is_edge(from, to, neg_one, r),
{
    let m = pscale(from, neg_one);
    let r = ptranslate(to, m);
    assert(edge_steps(from, to, neg_one, m, r));
    r
}

/// `v` projected onto the sphere of `radius` about `c`.
fn project_vertex<S: Scalar>(v: &Vertex<S>, c: [S; 3], neg_one: S, radius: S) -> (r: Vertex<S>)
    ensures
        is_vertex_projected(*v, c, neg_one, radius, r),
{
    let diff = edge(c, v.position, neg_one);
    let len = plength(diff);
    let f = radius.div(len);
    let arm = pscale(diff, f);
    let position = ptranslate(c, arm);
    assert(project_steps(v.position, c, neg_one, radius, diff, len, f, arm, position));
    Vertex { position, texture: v.texture, material_id: v.material_id }
}

/// The flat normal of the triangle `q0 q1 q2`.
fn face_normal<S: Scalar>(q0: [S; 3], q1: [S; 3], q2: [S; 3], neg_one: S) -> (n: Normal<S>)
    ensures
        is_face_normal(q0, q1, q2, neg_one, n.normal),
{
    let e1 = edge(q0, q1, neg_one);
    let e2 = edge(q1, q2, neg_one);
    let normal = vcross(e1, e2);
    assert(face_normal_steps(q0, q1, q2, neg_one, e1, e2, normal));
    Normal { normal }
}

/// The vertices projected onto the sphere of `radius` about `c`, and the
/// flat normals of the projected triangles.
pub(crate) fn spherify_lists<S: Scalar>(
    vertices: &Vec<Vertex<S>>,
    normals: &Vec<Normal<S>>,
    c: [S; 3],
    radius: S,
) -> (out: (Vec<Vertex<S>>, Vec<Normal<S>>))
    requires
        Mesh::of(vertices@, normals@).is_triangle_list(),
        Mesh::of(vertices@, normals@).is_centroid(c),
    ensures
        Mesh::of(vertices@, normals@).is_spherified(radius, Mesh::of(out.0@, out.1@)),
{
    let ghost before = Mesh::of(vertices@, normals@);
    let neg_one = S::from_ratio(-1, 1);
    let count = vertices.len() / 3;
    let mut out_v: Vec<Vertex<S>> = Vec::new();
    let mut out_n: Vec<Normal<S>> = Vec::new();
    let mut t: usize = 0;
    while t < count
        invariant
            t <= count,
            count == before.triangle_count(),
            before == Mesh::of(vertices@, normals@),
            before.is_triangle_list(),
            out_v.len() == 3 * t,
            out_n.len() == 3 * t,
            forall|u: int|
                0 <= u < t ==> #[trigger] before.is_rounded_at(
                    u,
                    c,
                    neg_one,
                    radius,
                    Mesh::of(out_v@, out_n@),
                ),
        decreases count - t,
    {
        let ghost old_v = out_v@;
        let ghost old_n = out_n@;
        assert(3 * t + 2 < vertices.len());
        let q0 = project_vertex(&vertices[3 * t], c, neg_one, radius);
        let q1 = project_vertex(&vertices[3 * t + 1], c, neg_one, radius);
        let q2 = project_vertex(&vertices[3 * t + 2], c, neg_one, radius);
        let n = face_normal(q0.position, q1.position, q2.position, neg_one);
        out_v.push(q0);
        out_v.push(q1);
        out_v.push(q2);
        out_n.push(n);
        out_n.push(n);
        out_n.push(n);
        proof {
            let after = Mesh::of(out_v@, out_n@);
            assert(before.is_rounded_at(t as int, c, neg_one, radius, after));
            assert forall|u: int| 0 <= u < t implies #[trigger] before.is_rounded_at(
                u,
                c,
                neg_one,
                radius,
                after,
            ) by {
                assert(before.is_rounded_at(u, c, neg_one, radius, Mesh::of(old_v, old_n)));
            }
        }
        t += 1;
    }
    proof {
        assert(before.spherify_steps(c, neg_one, radius, Mesh::of(out_v@, out_n@)));
    }
    (out_v, out_n)
}

/// Projecting a triangle list onto a sphere gives a triangle list of as many
/// triangles.
pub proof fn lemma_spherified_is_triangle_list<S: Scalar>(m: Mesh<S>, radius: S, r: Mesh<S>)
    requires
        m.is_triangle_list(),
        m.is_spherified(radius, r),
    ensures
        r.is_triangle_list(),
        r.triangle_count() == m.triangle_count(),
{
    let (c, neg_one) = choose|c: [S; 3], neg_one: S| m.spherify_steps(c, neg_one, radius, r);
    assert(m.spherify_steps(c, neg_one, radius, r));
}

} // verus!
