//! The model of a shape: a flat triangle list.
//!
//! Vertices `3t`, `3t + 1` and `3t + 2` are triangle `t`, and the normal at an
//! index belongs to the vertex at the same index. No vertex is shared between
//! triangles, so whatever is done to one triangle leaves the others alone.
use vstd::prelude::*;
use crate::scalar::Scalar;
use crate::vertex3d::Vertex;
use crate::normal3d::Normal;

verus! {

/// The content of a shape: its vertices and its normals, in order.
pub struct Mesh<S> {
    pub vertices: Seq<Vertex<S>>,
    pub normals: Seq<Normal<S>>,
}

impl<S: Scalar> Mesh<S> {
    /// The mesh of these vertices and these normals.
    pub open spec fn of(vertices: Seq<Vertex<S>>, normals: Seq<Normal<S>>) -> Mesh<S> {
        Mesh { vertices, normals }
    }

    /// The mesh is a list of whole triangles, with a normal for each vertex.
    pub open spec fn is_triangle_list(self) -> bool {
        &&& self.vertices.len() == self.normals.len()
        &&& self.vertices.len() % 3 == 0
    }

    /// The number of whole triangles.
    pub open spec fn triangle_count(self) -> nat {
        self.vertices.len() / 3
    }
}

/// The vertices of all of `meshes`, mesh after mesh.
pub open spec fn joined_vertices<S>(meshes: Seq<Mesh<S>>) -> Seq<Vertex<S>>
    decreases meshes.len(),
{
    if meshes.len() == 0 {
        Seq::empty()
    } else {
        joined_vertices(meshes.drop_last()) + meshes.last().vertices
    }
}

/// The normals of all of `meshes`, mesh after mesh.
pub open spec fn joined_normals<S>(meshes: Seq<Mesh<S>>) -> Seq<Normal<S>>
    decreases meshes.len(),
{
    if meshes.len() == 0 {
        Seq::empty()
    } else {
        joined_normals(meshes.drop_last()) + meshes.last().normals
    }
}

/// The one mesh that holds all of `meshes`, in order.
pub open spec fn joined<S>(meshes: Seq<Mesh<S>>) -> Mesh<S> {
    Mesh { vertices: joined_vertices(meshes), normals: joined_normals(meshes) }
}

/// Joining triangle lists gives a triangle list: the lists stay of equal
/// length, and that length stays a multiple of three.
pub proof fn lemma_joined_is_triangle_list<S: Scalar>(meshes: Seq<Mesh<S>>)
    requires
        forall|i: int| 0 <= i < meshes.len() ==> (#[trigger] meshes[i]).is_triangle_list(),
    ensures
        joined(meshes).is_triangle_list(),
    decreases meshes.len(),
{
    if meshes.len() > 0 {
        lemma_joined_is_triangle_list(meshes.drop_last());
        assert(meshes.last().is_triangle_list());
    }
}

/// Joining `meshes` that have `n` vertices and `n` normals each gives
/// `n` times their number of either.
pub proof fn lemma_joined_len<S: Scalar>(meshes: Seq<Mesh<S>>, n: nat)
    requires
        forall|i: int|
            0 <= i < meshes.len() ==> {
                &&& (#[trigger] meshes[i]).vertices.len() == n
                &&& meshes[i].normals.len() == n
            },
    ensures
        joined(meshes).vertices.len() == n * meshes.len(),
        joined(meshes).normals.len() == n * meshes.len(),
    decreases meshes.len(),
{
    if meshes.len() > 0 {
        lemma_joined_len(meshes.drop_last(), n);
        assert(meshes.last().vertices.len() == n);
        assert(n * (meshes.len() - 1) + n == n * meshes.len()) by (nonlinear_arith);
    }
}

/// Joining `meshes` that have `n` vertices and `n` normals each puts vertex
/// and normal `j` of mesh `k` at the index `n * k + j`.
pub proof fn lemma_joined_index<S: Scalar>(meshes: Seq<Mesh<S>>, n: nat, k: int, j: int)
    requires
        forall|i: int|
            0 <= i < meshes.len() ==> {
                &&& (#[trigger] meshes[i]).vertices.len() == n
                &&& meshes[i].normals.len() == n
            },
        0 <= k < meshes.len(),
        0 <= j < n,
    ensures
        0 <= n * k + j < joined(meshes).vertices.len(),
        joined(meshes).vertices.len() == joined(meshes).normals.len(),
        joined(meshes).vertices[n * k + j] == meshes[k].vertices[j],
        joined(meshes).normals[n * k + j] == meshes[k].normals[j],
    decreases meshes.len(),
{
    let before = meshes.drop_last();
    let last = meshes.len() - 1;
    lemma_joined_len(meshes, n);
    lemma_joined_len(before, n);
    assert(meshes.last().vertices.len() == n);
    assert(n * last + n == n * meshes.len()) by (nonlinear_arith)
        requires
            last == meshes.len() - 1,
    ;
    if k == last {
        assert(n * k == n * last);
    } else {
        assert(n * k + n <= n * last) by (nonlinear_arith)
            requires
                0 <= k < last,
                n >= 0,
        ;
        lemma_joined_index(before, n, k, j);
        assert(before[k] == meshes[k]);
    }
}

} // verus!
