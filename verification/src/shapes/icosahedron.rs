//! A regular icosahedron of twenty triangles.
use vstd::prelude::*;
use crate::scalar::{Scalar, is_ratio, is_sum, is_product, is_quotient, is_negation, is_sqrt};
use crate::vertex3d::Vertex;
use crate::normal3d::Normal;
use crate::mesh::{Mesh, joined, lemma_joined_is_triangle_list, lemma_joined_len};
use crate::rigid::{lemma_scaled_about_centroid_is_triangle_list, lemma_translated_is_triangle_list};
use crate::shape3d::Shape3D;
use crate::shapes::{AShape, combine_shapes, meshes_of};
use crate::shapes::triangle::{Triangle, is_triangle, lemma_triangle_is_triangle_list};

verus! {

/// `inv` is `1 / phi` for the golden ratio `phi = 1/2 + sqrt(5) * 1/2`, and
/// `one` is the scalar for 1; `half`, `five`, `root` and `t` are the values
/// that the formula passes through.
pub open spec fn golden_steps<S: Scalar>(
    half: S,
    five: S,
    root: S,
    t: S,
    phi: S,
    one: S,
    inv: S,
) -> bool {
    &&& is_ratio(1, 2, half)
    &&& is_ratio(5, 1, five)
    &&& is_sqrt(five, root)
    &&& is_product(root, half, t)
    &&& is_sum(half, t, phi)
    &&& is_ratio(1, 1, one)
    &&& is_quotient(one, phi, inv)
}

/// `one` is the scalar for 1 and `inv` is the inverse of the golden ratio:
/// the two lengths that the corners of an icosahedron are made of.
pub open spec fn is_golden_pair<S: Scalar>(one: S, inv: S) -> bool {
    exists|half: S, five: S, root: S, t: S, phi: S| #[trigger]
        golden_steps(half, five, root, t, phi, one, inv)
}

/// The twelve corners of the icosahedron about the origin: `(0, ±v1, ±v0)`
/// and its two cyclic shifts, where `n0` is `-v0` and `n1` is `-v1`.
pub open spec fn icosahedron_points<S: Scalar>(zero: S, v0: S, v1: S, n0: S, n1: S) -> Seq<[S; 3]> {
    seq![
        [zero, v1, n0],
        [v1, v0, zero],
        [n1, v0, zero],
        [zero, v1, v0],
        [zero, n1, v0],
        [n0, zero, v1],
        [zero, n1, n0],
        [v0, zero, n1],
        [v0, zero, v1],
        [n0, zero, n1],
        [v1, n0, zero],
        [n1, n0, zero],
    ]
}

/// The corners of the twenty faces of the icosahedron, as indices into its
/// twelve points.
pub open spec fn icosahedron_faces() -> Seq<(int, int, int)> {
    seq![
        (0, 1, 2),
        (3, 2, 1),
        (3, 4, 5),
        (3, 8, 4),
        (0, 6, 7),
        (0, 9, 6),
        (4, 10, 11),
        (6, 11, 10),
        (2, 5, 9),
        (11, 9, 5),
        (1, 7, 8),
        (10, 8, 7),
        (3, 5, 2),
        (3, 1, 8),
        (0, 2, 9),
        (0, 7, 1),
        (6, 9, 11),
        (6, 10, 7),
        (4, 11, 5),
        (4, 8, 10),
    ]
}

/// `r` is face `k` of the icosahedron over `points`.
pub open spec fn is_icosahedron_face<S: Scalar>(
    k: int,
    points: Seq<[S; 3]>,
    material_id: i32,
    r: Mesh<S>,
) -> bool {
    let f = icosahedron_faces()[k];
    is_triangle([points[f.0], points[f.1], points[f.2]], material_id, r)
}

/// `r` is the icosahedron about `centroid`: `unit`, the twenty `faces` over
/// the twelve points made of `zero`, `v0`, `v1` and their negations `n0` and
/// `n1`, is scaled by `radius` to `scaled` and then moved by `centroid`.
pub open spec fn icosahedron_steps<S: Scalar>(
    centroid: [S; 3],
    radius: S,
    material_id: i32,
    zero: S,
    v0: S,
    v1: S,
    n0: S,
    n1: S,
    faces: Seq<Mesh<S>>,
    unit: Mesh<S>,
    scaled: Mesh<S>,
    r: Mesh<S>,
) -> bool {
    &&& is_ratio(0, 1, zero)
    &&& is_golden_pair(v0, v1)
    &&& is_negation(v0, n0)
    &&& is_negation(v1, n1)
    &&& faces.len() == 20
    &&& forall|k: int|
        0 <= k < 20 ==> is_icosahedron_face(
            k,
            icosahedron_points(zero, v0, v1, n0, n1),
            material_id,
            #[trigger] faces[k],
        )
    &&& unit == joined(faces)
    &&& unit.is_scaled_about_centroid(radius, scaled)
    &&& scaled.is_translated(centroid, r)
}

/// `r` is the regular icosahedron about `centroid`: twenty triangles over the
/// twelve corners `(0, ±1/phi, ±1)`, `(±1/phi, ±1, 0)` and `(±1, 0, ±1/phi)`,
/// scaled by `radius` about their centroid and moved by `centroid`.
pub open spec fn is_icosahedron<S: Scalar>(
    centroid: [S; 3],
    radius: S,
    material_id: i32,
    r: Mesh<S>,
) -> bool {
    exists|
        zero: S,
        v0: S,
        v1: S,
        n0: S,
        n1: S,
        faces: Seq<Mesh<S>>,
        unit: Mesh<S>,
        scaled: Mesh<S>,
    | #[trigger]
        icosahedron_steps(
            centroid,
            radius,
            material_id,
            zero,
            v0,
            v1,
            n0,
            n1,
            faces,
            unit,
            scaled,
            r,
        )
}

/// An icosahedron of twenty triangles.
pub struct Icosahedron<S> {
    pub vertices: Vec<Vertex<S>>,
    pub normals: Vec<Normal<S>>,
}

/// The scalar for 1 and the inverse of the golden ratio.
fn golden_pair<S: Scalar>() -> (pair: (S, S))
    ensures
        is_golden_pair(pair.0, pair.1),
{
    let half = S::from_ratio(1, 2);
    let five = S::from_ratio(5, 1);
    let root = five.sqrt();
    let t = root.mul(half);
    let phi = half.add(t);
    let one = S::from_ratio(1, 1);
    let inv = one.div(phi);
    assert(golden_steps(half, five, root, t, phi, one, inv));
    (one, inv)
}

/// The corners of face `k`, as indices into the twelve points.
fn icosahedron_face(k: usize) -> (f: [usize; 3])
    requires
        k < 20,
    ensures
        f[0] == icosahedron_faces()[k as int].0,
        f[1] == icosahedron_faces()[k as int].1,
        f[2] == icosahedron_faces()[k as int].2,
        f[0] < 12,
        f[1] < 12,
        f[2] < 12,
{
    let faces: [[usize; 3]; 20] = [
        [0, 1, 2],
        [3, 2, 1],
        [3, 4, 5],
        [3, 8, 4],
        [0, 6, 7],
        [0, 9, 6],
        [4, 10, 11],
        [6, 11, 10],
        [2, 5, 9],
        [11, 9, 5],
        [1, 7, 8],
        [10, 8, 7],
        [3, 5, 2],
        [3, 1, 8],
        [0, 2, 9],
        [0, 7, 1],
        [6, 9, 11],
        [6, 10, 7],
        [4, 11, 5],
        [4, 8, 10],
    ];
    faces[k]
}

/// References to all of `shapes`, in order.
fn borrow_all<'a, S: Scalar>(shapes: &'a Vec<AShape<S>>) -> (refs: Vec<&'a AShape<S>>)
    ensures
        refs@.len() == shapes@.len(),
        forall|i: int| 0 <= i < shapes@.len() ==> (#[trigger] refs@[i])@ == shapes@[i]@,
{
    let mut refs: Vec<&'a AShape<S>> = Vec::new();
    let mut i: usize = 0;
    while i < shapes.len()
        invariant
            i <= shapes.len(),
            refs@.len() == i,
            forall|j: int| 0 <= j < i ==> (#[trigger] refs@[j])@ == shapes@[j]@,
        decreases shapes.len() - i,
    {
        refs.push(&shapes[i]);
        i += 1;
    }
    refs
}

impl<S: Scalar> Icosahedron<S> {
    /// The regular icosahedron about `centroid`, scaled by `radius`.
    pub fn new(centroid: [S; 3], radius: S, material_id: i32) -> (r: AShape<S>)
        ensures
            is_icosahedron(centroid, radius, material_id, r@),
            r@.is_triangle_list(),
            r@.triangle_count() == 20,
    {
        let zero = S::from_ratio(0, 1);
        let (v0, v1): (S, S) = golden_pair();
        let n0 = v0.neg();
        let n1 = v1.neg();
        let points: [[S; 3]; 12] = [
            [zero, v1, n0],
            [v1, v0, zero],
            [n1, v0, zero],
            [zero, v1, v0],
            [zero, n1, v0],
            [n0, zero, v1],
            [zero, n1, n0],
            [v0, zero, n1],
            [v0, zero, v1],
            [n0, zero, n1],
            [v1, n0, zero],
            [n1, n0, zero],
        ];
        let ghost corners = icosahedron_points(zero, v0, v1, n0, n1);
        assert(points@ =~= corners);

        let mut triangles: Vec<AShape<S>> = Vec::new();
        let mut k: usize = 0;
        while k < 20
            invariant
                k <= 20,
                triangles@.len() == k,
                points@ == corners,
                forall|j: int|
                    0 <= j < k ==> is_icosahedron_face(
                        j,
                        corners,
                        material_id,
                        (#[trigger] triangles@[j])@,
                    ),
                forall|j: int|
                    0 <= j < k ==> (#[trigger] triangles@[j])@.is_triangle_list()
                        && triangles@[j]@.vertices.len() == 3 && triangles@[j]@.normals.len() == 3,
            decreases 20 - k,
        {
            let f = icosahedron_face(k);
            let t = Triangle::new([points[f[0]], points[f[1]], points[f[2]]], material_id);
            assert(is_icosahedron_face(k as int, corners, material_id, t@));
            triangles.push(t);
            k += 1;
        }

        let refs = borrow_all(&triangles);
        let ghost faces = meshes_of(refs@);
        let mut shape = combine_shapes(refs);
        let ghost unit = shape@;
        proof {
            assert forall|j: int| 0 <= j < 20 implies is_icosahedron_face(
                j,
                corners,
                material_id,
                #[trigger] faces[j],
            ) by {
                assert(faces[j] == triangles@[j]@);
            }
            assert forall|j: int| 0 <= j < faces.len() implies
                (#[trigger] faces[j]).vertices.len() == 3 && faces[j].normals.len() == 3 by {
                assert(faces[j] == triangles@[j]@);
            }
            lemma_joined_len(faces, 3);
            assert forall|j: int| 0 <= j < faces.len() implies
                (#[trigger] faces[j]).is_triangle_list() by {
                assert(faces[j] == triangles@[j]@);
            }
            lemma_joined_is_triangle_list(faces);
        }
        shape.scale_mut_O(radius);
        let ghost scaled = shape@;
        shape.translate_mut(centroid);
        proof {
            assert(icosahedron_steps(
                centroid, radius, material_id, zero, v0, v1, n0, n1, faces, unit, scaled, shape@,
            ));
        }
        shape
    }
}

impl<S: Scalar> Shape3D<S> for Icosahedron<S> {
    open spec fn mesh(&self) -> Mesh<S> {
        Mesh { vertices: self.vertices@, normals: self.normals@ }
    }

    fn get_vertices(&self) -> (r: &Vec<Vertex<S>>) {
        &self.vertices
    }

    fn get_normals(&self) -> (r: &Vec<Normal<S>>) {
        &self.normals
    }

    fn get_mut_vertices(&mut self) -> (r: &mut Vec<Vertex<S>>) {
        &mut self.vertices
    }

    fn get_mut_normals(&mut self) -> (r: &mut Vec<Normal<S>>) {
        &mut self.normals
    }
}

/// An icosahedron is a triangle list of twenty triangles.
pub proof fn lemma_icosahedron_is_triangle_list<S: Scalar>(
    centroid: [S; 3],
    radius: S,
    material_id: i32,
    r: Mesh<S>,
)
    requires
        is_icosahedron(centroid, radius, material_id, r),
    ensures
        r.is_triangle_list(),
        r.triangle_count() == 20,
{
    let (zero, v0, v1, n0, n1, faces, unit, scaled) = choose|
        zero: S,
        v0: S,
        v1: S,
        n0: S,
        n1: S,
        faces: Seq<Mesh<S>>,
        unit: Mesh<S>,
        scaled: Mesh<S>,
    |
        icosahedron_steps(
            centroid,
            radius,
            material_id,
            zero,
            v0,
            v1,
            n0,
            n1,
            faces,
            unit,
            scaled,
            r,
        );
    assert(icosahedron_steps(
        centroid, radius, material_id, zero, v0, v1, n0, n1, faces, unit, scaled, r,
    ));
    let points = icosahedron_points(zero, v0, v1, n0, n1);
    assert forall|k: int| 0 <= k < faces.len() implies (#[trigger] faces[k]).is_triangle_list()
        && faces[k].vertices.len() == 3 && faces[k].normals.len() == 3 by {
        let f = icosahedron_faces()[k];
        assert(is_icosahedron_face(k, points, material_id, faces[k]));
        lemma_triangle_is_triangle_list(
            [points[f.0], points[f.1], points[f.2]],
            material_id,
            faces[k],
        );
    }
    lemma_joined_is_triangle_list(faces);
    lemma_joined_len(faces, 3);
    lemma_scaled_about_centroid_is_triangle_list(unit, radius, scaled);
    lemma_translated_is_triangle_list(scaled, centroid, r);
}

/// Edge `e` of face `k` of the icosahedron: the indices of the points that
/// it leads from and to. Edge 0 leads from the first corner of the face to
/// the second, edge 1 from the second to the third, edge 2 from the third
/// back to the first.
pub open spec fn icosahedron_edge(k: int, e: int) -> (int, int) {
    let f = icosahedron_faces()[k];
    if e == 0 {
        (f.0, f.1)
    } else if e == 1 {
        (f.1, f.2)
    } else {
        (f.2, f.0)
    }
}

/// The face and the edge that lie across edge `e` of face `k`.
pub open spec fn icosahedron_twin(k: int, e: int) -> (int, int) {
    seq![
        (15, 2), (1, 1), (14, 0),
        (12, 2), (0, 1), (13, 0),
        (3, 2), (18, 2), (12, 0),
        (13, 2), (19, 0), (2, 0),
        (5, 2), (17, 2), (15, 0),
        (14, 2), (16, 0), (4, 0),
        (19, 2), (7, 1), (18, 0),
        (16, 2), (6, 1), (17, 0),
        (12, 1), (9, 1), (14, 1),
        (16, 1), (8, 1), (18, 1),
        (15, 1), (11, 1), (13, 1),
        (19, 1), (10, 1), (17, 1),
        (2, 2), (8, 0), (1, 0),
        (1, 2), (10, 2), (3, 0),
        (0, 2), (8, 2), (5, 0),
        (4, 2), (10, 0), (0, 0),
        (5, 1), (9, 0), (7, 0),
        (7, 2), (11, 2), (4, 1),
        (6, 2), (9, 2), (2, 1),
        (3, 1), (11, 0), (6, 0),
    ][3 * k + e]
}

/// The edge that leads from point `a` to point `b`, as three times its face
/// plus its place in the face, or -1 where no edge leads that way.
pub open spec fn icosahedron_edge_between(a: int, b: int) -> int {
    seq![
        -1, 0, 42, -1, -1, -1, 12, 45, -1, 15, -1, -1,
        47, -1, 1, 5, -1, -1, -1, 30, 40, -1, -1, -1,
        2, 4, -1, 38, -1, 24, -1, -1, -1, 43, -1, -1,
        -1, 39, 3, -1, 6, 36, -1, -1, 9, -1, -1, -1,
        -1, -1, -1, 11, -1, 7, -1, -1, 57, -1, 18, 54,
        -1, -1, 37, 8, 56, -1, -1, -1, -1, 25, -1, 29,
        17, -1, -1, -1, -1, -1, -1, 13, -1, 48, 51, 21,
        14, 46, -1, -1, -1, -1, 53, -1, 31, -1, 35, -1,
        -1, 32, -1, 41, 10, -1, -1, 34, -1, -1, 58, -1,
        44, -1, 26, -1, -1, 28, 16, -1, -1, -1, -1, 49,
        -1, -1, -1, -1, 59, -1, 23, 52, 33, -1, -1, 19,
        -1, -1, -1, -1, 20, 55, 50, -1, -1, 27, 22, -1,
    ][12 * a + b]
}

/// Every edge of every face of the icosahedron lies between two of the
/// twelve points, and is the only edge that leads from the one to the other.
pub proof fn lemma_icosahedron_edges_are_unique(k: int, e: int)
    requires
        0 <= k < 20,
        0 <= e < 3,
    ensures
        0 <= icosahedron_edge(k, e).0 < 12,
        0 <= icosahedron_edge(k, e).1 < 12,
        icosahedron_edge(k, e).0 != icosahedron_edge(k, e).1,
        icosahedron_edge_between(icosahedron_edge(k, e).0, icosahedron_edge(k, e).1) == 3 * k + e,
{
    if k == 0 {
    } else if k == 1 {
    } else if k == 2 {
    } else if k == 3 {
    } else if k == 4 {
    } else if k == 5 {
    } else if k == 6 {
    } else if k == 7 {
    } else if k == 8 {
    } else if k == 9 {
    } else if k == 10 {
    } else if k == 11 {
    } else if k == 12 {
    } else if k == 13 {
    } else if k == 14 {
    } else if k == 15 {
    } else if k == 16 {
    } else if k == 17 {
    } else if k == 18 {
    } else {
    }
}

/// Across every edge of every face of the icosahedron lies an edge of
/// another face that runs the other way.
pub proof fn lemma_icosahedron_edges_have_twins(k: int, e: int)
    requires
        0 <= k < 20,
        0 <= e < 3,
    ensures
        0 <= icosahedron_twin(k, e).0 < 20,
        0 <= icosahedron_twin(k, e).1 < 3,
        icosahedron_twin(k, e).0 != k,
        icosahedron_edge(icosahedron_twin(k, e).0, icosahedron_twin(k, e).1) == (
            icosahedron_edge(k, e).1,
            icosahedron_edge(k, e).0,
        ),
{
    if k == 0 {
    } else if k == 1 {
    } else if k == 2 {
    } else if k == 3 {
    } else if k == 4 {
    } else if k == 5 {
    } else if k == 6 {
    } else if k == 7 {
    } else if k == 8 {
    } else if k == 9 {
    } else if k == 10 {
    } else if k == 11 {
    } else if k == 12 {
    } else if k == 13 {
    } else if k == 14 {
    } else if k == 15 {
    } else if k == 16 {
    } else if k == 17 {
    } else if k == 18 {
    } else {
    }
}

/// The twenty faces of the icosahedron close up to a surface without a
/// border: every edge of a face is shared with exactly one other face, which
/// runs through it the other way.
pub proof fn lemma_icosahedron_is_closed()
    ensures
        forall|k: int, e: int|
            0 <= k < 20 && 0 <= e < 3 ==> {
                let t = #[trigger] icosahedron_twin(k, e);
                &&& 0 <= t.0 < 20
                &&& 0 <= t.1 < 3
                &&& t.0 != k
                &&& icosahedron_edge(t.0, t.1) == (
                    icosahedron_edge(k, e).1,
                    icosahedron_edge(k, e).0,
                )
            },
        forall|k1: int, e1: int, k2: int, e2: int|
            {
                &&& 0 <= k1 < 20 && 0 <= e1 < 3
                &&& 0 <= k2 < 20 && 0 <= e2 < 3
                &&& #[trigger] icosahedron_edge(k1, e1) == #[trigger] icosahedron_edge(k2, e2)
            } ==> k1 == k2 && e1 == e2,
{
    assert forall|k: int, e: int| 0 <= k < 20 && 0 <= e < 3 implies {
        let t = #[trigger] icosahedron_twin(k, e);
        &&& 0 <= t.0 < 20
        &&& 0 <= t.1 < 3
        &&& t.0 != k
        &&& icosahedron_edge(t.0, t.1) == (icosahedron_edge(k, e).1, icosahedron_edge(k, e).0)
    } by {
        lemma_icosahedron_edges_have_twins(k, e);
    }
    assert forall|k1: int, e1: int, k2: int, e2: int|
        {
            &&& 0 <= k1 < 20 && 0 <= e1 < 3
            &&& 0 <= k2 < 20 && 0 <= e2 < 3
            &&& #[trigger] icosahedron_edge(k1, e1) == #[trigger] icosahedron_edge(k2, e2)
        } implies k1 == k2 && e1 == e2 by {
        lemma_icosahedron_edges_are_unique(k1, e1);
        lemma_icosahedron_edges_are_unique(k2, e2);
    }
}

} // verus!
