//! The centroid of a mesh, and the transforms that keep its triangles as
//! they are: turning, moving and uniform scaling.
use vstd::prelude::*;
use crate::scalar::{Scalar, is_ratio, is_count, is_quotient, is_negation};
use crate::point_transform3d::{is_translated, ptranslate};
use crate::vertex3d::Vertex;
use crate::normal3d::Normal;
use crate::mesh::Mesh;

verus! {

/// Each component of `r` is a zero of the scalar type.
pub open spec fn is_zero_point<S: Scalar>(r: [S; 3]) -> bool {
    &&& is_ratio(0, 1, r[0])
    &&& is_ratio(0, 1, r[1])
    &&& is_ratio(0, 1, r[2])
}

/// `r` is `-p`, component by component.
pub open spec fn is_negated_point<S: Scalar>(p: [S; 3], r: [S; 3]) -> bool {
    &&& is_negation(p[0], r[0])
    &&& is_negation(p[1], r[1])
    &&& is_negation(p[2], r[2])
}

/// `sums` holds the running sums of the positions of `vertices`: a zero
/// point first, and after it each sum with the next position added.
pub open spec fn are_running_sums<S: Scalar>(vertices: Seq<Vertex<S>>, sums: Seq<[S; 3]>) -> bool {
    &&& sums.len() == vertices.len() + 1
    &&& is_zero_point(sums[0])
    &&& forall|i: int|
        0 <= i < vertices.len() ==> is_translated(
            sums[i],
            vertices[i].position,
            #[trigger] sums[i + 1],
        )
}

/// `total` is the sum of the positions of `vertices`: a zero point to which
/// the positions were added one after the other, first to last.
pub open spec fn is_position_sum<S: Scalar>(vertices: Seq<Vertex<S>>, total: [S; 3]) -> bool {
    exists|sums: Seq<[S; 3]>|
        #[trigger] are_running_sums(vertices, sums) && sums[vertices.len() as int] == total
}

/// `c` is the mean of the positions of `vertices`: their sum `total`, each
/// component divided by `n`, the number of vertices as a scalar.
pub open spec fn centroid_steps<S: Scalar>(
    vertices: Seq<Vertex<S>>,
    total: [S; 3],
    n: S,
    c: [S; 3],
) -> bool {
    &&& is_position_sum(vertices, total)
    &&& is_count(vertices.len() as usize, n)
    &&& is_quotient(total[0], n, c[0])
    &&& is_quotient(total[1], n, c[1])
    &&& is_quotient(total[2], n, c[2])
}

/// `r` holds the vertices of `a`, each turned about the world origin.
pub open spec fn vertices_rotated<S: Scalar>(
    a: Seq<Vertex<S>>,
    angles: [S; 3],
    r: Seq<Vertex<S>>,
) -> bool {
    &&& r.len() == a.len()
    &&& forall|i: int| 0 <= i < a.len() ==> a[i].is_rotated(angles, #[trigger] r[i])
}

/// `r` holds the normals of `a`, each turned about the world origin.
pub open spec fn normals_rotated<S: Scalar>(
    a: Seq<Normal<S>>,
    angles: [S; 3],
    r: Seq<Normal<S>>,
) -> bool {
    &&& r.len() == a.len()
    &&& forall|i: int| 0 <= i < a.len() ==> a[i].is_rotated(angles, #[trigger] r[i])
}

/// `r` holds the vertices of `a`, each moved by `relative`.
pub open spec fn vertices_translated<S: Scalar>(
    a: Seq<Vertex<S>>,
    relative: [S; 3],
    r: Seq<Vertex<S>>,
) -> bool {
    &&& r.len() == a.len()
    &&& forall|i: int| 0 <= i < a.len() ==> a[i].is_translated(relative, #[trigger] r[i])
}

/// `r` is `v` turned about `origin`: moved by `neg_origin` to `v1`, turned
/// about the world origin to `v2`, and moved back by `origin`.
pub open spec fn turn_about_steps<S: Scalar>(
    v: Vertex<S>,
    origin: [S; 3],
    neg_origin: [S; 3],
    angles: [S; 3],
    v1: Vertex<S>,
    v2: Vertex<S>,
    r: Vertex<S>,
) -> bool {
    &&& v.is_translated(neg_origin, v1)
    &&& v1.is_rotated(angles, v2)
    &&& v2.is_translated(origin, r)
}

/// `r` is `v` turned by `angles` about the point `origin`, whose negation is
/// `neg_origin`.
pub open spec fn is_turned_about<S: Scalar>(
    v: Vertex<S>,
    origin: [S; 3],
    neg_origin: [S; 3],
    angles: [S; 3],
    r: Vertex<S>,
) -> bool {
    exists|v1: Vertex<S>, v2: Vertex<S>| #[trigger]
        turn_about_steps(v, origin, neg_origin, angles, v1, v2, r)
}

/// `r` holds the vertices of `a`, each turned about `origin`.
pub open spec fn vertices_turned_about<S: Scalar>(
    a: Seq<Vertex<S>>,
    origin: [S; 3],
    neg_origin: [S; 3],
    angles: [S; 3],
    r: Seq<Vertex<S>>,
) -> bool {
    &&& r.len() == a.len()
    &&& forall|i: int|
        0 <= i < a.len() ==> is_turned_about(a[i], origin, neg_origin, angles, #[trigger] r[i])
}

/// `r` is `v` scaled from `origin`: moved by `neg_origin` to `v1`, multiplied
/// by `factor` to `v2`, and moved back by `origin`.
pub open spec fn scale_from_steps<S: Scalar>(
    v: Vertex<S>,
    origin: [S; 3],
    neg_origin: [S; 3],
    factor: S,
    v1: Vertex<S>,
    v2: Vertex<S>,
    r: Vertex<S>,
) -> bool {
    &&& v.is_translated(neg_origin, v1)
    &&& v1.is_scaled(factor, v2)
    &&& v2.is_translated(origin, r)
}

/// `r` is `v` scaled by `factor` as seen from the point `origin`, whose
/// negation is `neg_origin`.
pub open spec fn is_scaled_from<S: Scalar>(
    v: Vertex<S>,
    origin: [S; 3],
    neg_origin: [S; 3],
    factor: S,
    r: Vertex<S>,
) -> bool {
    exists|v1: Vertex<S>, v2: Vertex<S>| #[trigger]
        scale_from_steps(v, origin, neg_origin, factor, v1, v2, r)
}

/// `r` holds the vertices of `a`, each scaled from `origin`.
pub open spec fn vertices_scaled_from<S: Scalar>(
    a: Seq<Vertex<S>>,
    origin: [S; 3],
    neg_origin: [S; 3],
    factor: S,
    r: Seq<Vertex<S>>,
) -> bool {
    &&& r.len() == a.len()
    &&& forall|i: int|
        0 <= i < a.len() ==> is_scaled_from(a[i], origin, neg_origin, factor, #[trigger] r[i])
}

impl<S: Scalar> Mesh<S> {
    /// `c` is the arithmetic mean of the vertex positions.
    pub open spec fn is_centroid(self, c: [S; 3]) -> bool {
        exists|total: [S; 3], n: S| #[trigger] centroid_steps(self.vertices, total, n, c)
    }

    /// `r` is this mesh turned about the world origin: every position and
    /// every normal turned alike.
    pub open spec fn is_rotated(self, angles: [S; 3], r: Mesh<S>) -> bool {
        &&& vertices_rotated(self.vertices, angles, r.vertices)
        &&& normals_rotated(self.normals, angles, r.normals)
    }

    /// `r` is this mesh turned about `origin`, whose negation is `neg_origin`.
    pub open spec fn rotate_about_steps(
        self,
        origin: [S; 3],
        neg_origin: [S; 3],
        angles: [S; 3],
        r: Mesh<S>,
    ) -> bool {
        &&& self.is_centroid(origin)
        &&& is_negated_point(origin, neg_origin)
        &&& vertices_turned_about(self.vertices, origin, neg_origin, angles, r.vertices)
        &&& normals_rotated(self.normals, angles, r.normals)
    }

    /// `r` is this mesh turned about its centroid: every position is moved so
    /// that the centroid lies at the world origin, turned, and moved back;
    /// every normal is turned, and never moved.
    pub open spec fn is_rotated_about_centroid(self, angles: [S; 3], r: Mesh<S>) -> bool {
        exists|origin: [S; 3], neg_origin: [S; 3]| #[trigger]
            self.rotate_about_steps(origin, neg_origin, angles, r)
    }

    /// `r` is this mesh moved by `relative`: the positions move, the normals
    /// stay.
    pub open spec fn is_translated(self, relative: [S; 3], r: Mesh<S>) -> bool {
        &&& vertices_translated(self.vertices, relative, r.vertices)
        &&& r.normals == self.normals
    }

    /// `r` is this mesh scaled from `origin`, whose negation is `neg_origin`.
    pub open spec fn scale_about_steps(
        self,
        origin: [S; 3],
        neg_origin: [S; 3],
        factor: S,
        r: Mesh<S>,
    ) -> bool {
        &&& self.is_centroid(origin)
        &&& is_negated_point(origin, neg_origin)
        &&& vertices_scaled_from(self.vertices, origin, neg_origin, factor, r.vertices)
        &&& r.normals == self.normals
    }

    /// `r` is this mesh scaled by `factor` about its centroid: every position
    /// is moved so that the centroid lies at the world origin, multiplied by
    /// `factor`, and moved back; the normals stay.
    pub open spec fn is_scaled_about_centroid(self, factor: S, r: Mesh<S>) -> bool {
        exists|origin: [S; 3], neg_origin: [S; 3]| #[trigger]
            self.scale_about_steps(origin, neg_origin, factor, r)
    }
}

/// The sum of the positions of `vertices`, added up from first to last.
pub(crate) fn sum_positions<S: Scalar>(vertices: &Vec<Vertex<S>>) -> (total: [S; 3])
    ensures
        is_position_sum(vertices@, total),
{
    let zero = S::from_ratio(0, 1);
    let mut total = [zero, zero, zero];
    let ghost mut sums: Seq<[S; 3]> = seq![total];
    let mut i: usize = 0;
    while i < vertices.len()
        invariant
            i <= vertices.len(),
            are_running_sums(vertices@.take(i as int), sums),
            sums[i as int] == total,
        decreases vertices.len() - i,
    {
        let next = ptranslate(total, vertices[i].position);
        proof {
            sums = sums.push(next);
        }
        total = next;
        i += 1;
    }
    assert(vertices@.take(vertices.len() as int) =~= vertices@);
    total
}

/// `-p`.
pub(crate) fn negate_point<S: Scalar>(p: [S; 3]) -> (r: [S; 3])
    ensures
        is_negated_point(p, r),
{
    [p[0].neg(), p[1].neg(), p[2].neg()]
}

/// The vertices of `vertices`, each turned about the world origin.
pub(crate) fn rotate_vertices<S: Scalar>(
    vertices: &Vec<Vertex<S>>,
    angles: [S; 3],
) -> (out: Vec<Vertex<S>>)
    ensures
        vertices_rotated(vertices@, angles, out@),
{
    let mut out: Vec<Vertex<S>> = Vec::new();
    let mut i: usize = 0;
    while i < vertices.len()
        invariant
            i <= vertices.len(),
            out.len() == i,
            forall|j: int| 0 <= j < i ==> vertices@[j].is_rotated(angles, #[trigger] out@[j]),
        decreases vertices.len() - i,
    {
        out.push(vertices[i].rotate(angles));
        i += 1;
    }
    out
}

/// The normals of `normals`, each turned about the world origin.
pub(crate) fn rotate_normals<S: Scalar>(
    normals: &Vec<Normal<S>>,
    angles: [S; 3],
) -> (out: Vec<Normal<S>>)
    ensures
        normals_rotated(normals@, angles, out@),
{
    let mut out: Vec<Normal<S>> = Vec::new();
    let mut i: usize = 0;
    while i < normals.len()
        invariant
            i <= normals.len(),
            out.len() == i,
            forall|j: int| 0 <= j < i ==> normals@[j].is_rotated(angles, #[trigger] out@[j]),
        decreases normals.len() - i,
    {
        out.push(normals[i].rotate(angles));
        i += 1;
    }
    out
}

/// The vertices of `vertices`, each moved by `relative`.
pub(crate) fn translate_vertices<S: Scalar>(
    vertices: &Vec<Vertex<S>>,
    relative: [S; 3],
) -> (out: Vec<Vertex<S>>)
    ensures
        vertices_translated(vertices@, relative, out@),
{
    let mut out: Vec<Vertex<S>> = Vec::new();
    let mut i: usize = 0;
    while i < vertices.len()
        invariant
            i <= vertices.len(),
            out.len() == i,
            forall|j: int| 0 <= j < i ==> vertices@[j].is_translated(relative, #[trigger] out@[j]),
        decreases vertices.len() - i,
    {
        out.push(vertices[i].translate(relative));
        i += 1;
    }
    out
}

/// The vertices of `vertices`, each turned about `origin`.
pub(crate) fn turn_vertices_about<S: Scalar>(
    vertices: &Vec<Vertex<S>>,
    origin: [S; 3],
    neg_origin: [S; 3],
    angles: [S; 3],
) -> (out: Vec<Vertex<S>>)
    ensures
        vertices_turned_about(vertices@, origin, neg_origin, angles, out@),
{
    let mut out: Vec<Vertex<S>> = Vec::new();
    let mut i: usize = 0;
    while i < vertices.len()
        invariant
            i <= vertices.len(),
            out.len() == i,
            forall|j: int|
                0 <= j < i ==> is_turned_about(
                    vertices@[j],
                    origin,
                    neg_origin,
                    angles,
                    #[trigger] out@[j],
                ),
        decreases vertices.len() - i,
    {
        let v1 = vertices[i].translate(neg_origin);
        let v2 = v1.rotate(angles);
        let v3 = v2.translate(origin);
        assert(turn_about_steps(vertices@[i as int], origin, neg_origin, angles, v1, v2, v3));
        out.push(v3);
        i += 1;
    }
    out
}

/// The vertices of `vertices`, each scaled from `origin`.
pub(crate) fn scale_vertices_from<S: Scalar>(
    vertices: &Vec<Vertex<S>>,
    origin: [S; 3],
    neg_origin: [S; 3],
    factor: S,
) -> (out: Vec<Vertex<S>>)
    ensures
        vertices_scaled_from(vertices@, origin, neg_origin, factor, out@),
{
    let mut out: Vec<Vertex<S>> = Vec::new();
    let mut i: usize = 0;
    while i < vertices.len()
        invariant
            i <= vertices.len(),
            out.len() == i,
            forall|j: int|
                0 <= j < i ==> is_scaled_from(
                    vertices@[j],
                    origin,
                    neg_origin,
                    factor,
                    #[trigger] out@[j],
                ),
        decreases vertices.len() - i,
    {
        let v1 = vertices[i].translate(neg_origin);
        let v2 = v1.scale(factor);
        let v3 = v2.translate(origin);
        assert(scale_from_steps(vertices@[i as int], origin, neg_origin, factor, v1, v2, v3));
        out.push(v3);
        i += 1;
    }
    out
}

/// A copy of `normals`.
pub(crate) fn copy_normals<S: Scalar>(normals: &Vec<Normal<S>>) -> (out: Vec<Normal<S>>)
    ensures
        out@ == normals@,
{
    let mut out: Vec<Normal<S>> = Vec::new();
    let mut i: usize = 0;
    while i < normals.len()
        invariant
            i <= normals.len(),
            out@ == normals@.take(i as int),
        decreases normals.len() - i,
    {
        out.push(normals[i]);
        assert(normals@.take(i + 1) =~= normals@.take(i as int).push(normals@[i as int]));
        i += 1;
    }
    assert(normals@.take(normals.len() as int) =~= normals@);
    out
}

/// Turning a triangle list about the world origin gives a triangle list of
/// as many triangles.
pub proof fn lemma_rotated_is_triangle_list<S: Scalar>(m: Mesh<S>, angles: [S; 3], r: Mesh<S>)
    requires
        m.is_triangle_list(),
        m.is_rotated(angles, r),
    ensures
        r.is_triangle_list(),
        r.triangle_count() == m.triangle_count(),
{
}

/// Turning a triangle list about its centroid gives a triangle list of as
/// many triangles.
pub proof fn lemma_rotated_about_centroid_is_triangle_list<S: Scalar>(
    m: Mesh<S>,
    angles: [S; 3],
    r: Mesh<S>,
)
    requires
        m.is_triangle_list(),
        m.is_rotated_about_centroid(angles, r),
    ensures
        r.is_triangle_list(),
        r.triangle_count() == m.triangle_count(),
{
    let (origin, neg_origin) = choose|origin: [S; 3], neg_origin: [S; 3]|
        m.rotate_about_steps(origin, neg_origin, angles, r);
    assert(m.rotate_about_steps(origin, neg_origin, angles, r));
}

/// Moving a triangle list gives a triangle list of as many triangles.
pub proof fn lemma_translated_is_triangle_list<S: Scalar>(m: Mesh<S>, relative: [S; 3], r: Mesh<S>)
    requires
        m.is_triangle_list(),
        m.is_translated(relative, r),
    ensures
        r.is_triangle_list(),
        r.triangle_count() == m.triangle_count(),
{
}

/// Scaling a triangle list about its centroid gives a triangle list of as
/// many triangles.
pub proof fn lemma_scaled_about_centroid_is_triangle_list<S: Scalar>(
    m: Mesh<S>,
    factor: S,
    r: Mesh<S>,
)
    requires
        m.is_triangle_list(),
        m.is_scaled_about_centroid(factor, r),
    ensures
        r.is_triangle_list(),
        r.triangle_count() == m.triangle_count(),
{
    let (origin, neg_origin) = choose|origin: [S; 3], neg_origin: [S; 3]|
        m.scale_about_steps(origin, neg_origin, factor, r);
    assert(m.scale_about_steps(origin, neg_origin, factor, r));
}

} // verus!
