//! The shapes: a general one, the primitives that build it, and the joining
//! of several shapes into one.
pub mod triangle;
pub mod quad;
pub mod cube;
pub mod tetrahedron;
pub mod icosahedron;
pub mod sphere;

use vstd::prelude::*;
use crate::scalar::Scalar;
use crate::vertex3d::Vertex;
use crate::normal3d::Normal;
use crate::mesh::{Mesh, joined, joined_vertices, joined_normals, lemma_joined_is_triangle_list};
use crate::shape3d::Shape3D;
pub use crate::shapes::triangle::Triangle;
pub use crate::shapes::quad::Quad;
pub use crate::shapes::cube::Cube;
pub use crate::shapes::tetrahedron::Tetrahedron;
pub use crate::shapes::icosahedron::Icosahedron;
pub use crate::shapes::sphere::Sphere;

verus! {

/// A shape of any form: a list of vertices and the list of their normals.
#[derive(Clone)]
pub struct AShape<S> {
    pub vertices: Vec<Vertex<S>>,
    pub normals: Vec<Normal<S>>,
}

impl<S> View for AShape<S> {
    type V = Mesh<S>;

    open spec fn view(&self) -> Mesh<S> {
        Mesh { vertices: self.vertices@, normals: self.normals@ }
    }
}

impl<S: Scalar> AShape<S> {
    /// The shape of these vertices and these normals, if they make a
    /// triangle list: as many normals as vertices, and three vertices to
    /// the triangle.
    pub fn new(vertices: Vec<Vertex<S>>, normals: Vec<Normal<S>>) -> (r: Option<AShape<S>>)
        ensures
            Mesh::of(vertices@, normals@).is_triangle_list() ==> r == Some(
                AShape { vertices, normals },
            ),
            !Mesh::of(vertices@, normals@).is_triangle_list() ==> r is None,
    {
        if vertices.len() == normals.len() && vertices.len() % 3 == 0 {
            Some(AShape { vertices, normals })
        } else {
            None
        }
    }
}

impl<S: Scalar> Shape3D<S> for AShape<S> {
    open spec fn mesh(&self) -> Mesh<S> {
        Mesh { vertices: self.vertices@, normals: self.normals@ }
    }

    fn get_vertices(&self) -> (r: &Vec<Vertex<S>>) {
        &self.vertices
    }

    fn get_normals(&self) -> (r: &Vec<Normal<S>>) {
        &self.normals
    }

    fn get_mut_vertices(&mut self) -> (r: &mut Vec<Vertex<S>>) {
        &mut self.vertices
    }

    fn get_mut_normals(&mut self) -> (r: &mut Vec<Normal<S>>) {
        &mut self.normals
    }
}

/// The meshes of `shapes`, in order.
pub open spec fn meshes_of<S>(shapes: Seq<&AShape<S>>) -> Seq<Mesh<S>> {
    Seq::new(shapes.len(), |i: int| shapes[i]@)
}

/// Puts the vertices of `more` at the end of `out`.
fn append_vertices<S: Scalar>(out: &mut Vec<Vertex<S>>, more: &Vec<Vertex<S>>)
    ensures
        final(out)@ == old(out)@ + more@,
{
    let mut j: usize = 0;
    while j < more.len()
        invariant
            j <= more.len(),
            out@ == old(out)@ + more@.take(j as int),
        decreases more.len() - j,
    {
        out.push(more[j]);
        assert(more@.take(j + 1) =~= more@.take(j as int).push(more@[j as int]));
        assert(out@ =~= old(out)@ + more@.take(j + 1));
        j += 1;
    }
    assert(more@.take(more.len() as int) =~= more@);
}

/// Puts the normals of `more` at the end of `out`.
fn append_normals<S: Scalar>(out: &mut Vec<Normal<S>>, more: &Vec<Normal<S>>)
    ensures
        final(out)@ == old(out)@ + more@,
{
    let mut j: usize = 0;
    while j < more.len()
        invariant
            j <= more.len(),
            out@ == old(out)@ + more@.take(j as int),
        decreases more.len() - j,
    {
        out.push(more[j]);
        assert(more@.take(j + 1) =~= more@.take(j as int).push(more@[j as int]));
        assert(out@ =~= old(out)@ + more@.take(j + 1));
        j += 1;
    }
    assert(more@.take(more.len() as int) =~= more@);
}

/// Joins `shapes` into one: its vertices are those of the first shape, then
/// those of the second, and so on, and its normals likewise. Nothing is
/// merged or shared.
pub fn combine_shapes<S: Scalar>(shapes: Vec<&AShape<S>>) -> (r: AShape<S>)
    ensures
        r@ == joined(meshes_of(shapes@)),
        (forall|i: int| 0 <= i < shapes@.len() ==> (#[trigger] shapes@[i])@.is_triangle_list())
            ==> r@.is_triangle_list(),
{
    let mut vertices: Vec<Vertex<S>> = Vec::new();
    let mut normals: Vec<Normal<S>> = Vec::new();
    let ghost meshes = meshes_of(shapes@);
    let mut i: usize = 0;
    assert(meshes.take(0) =~= Seq::empty());
    while i < shapes.len()
        invariant
            i <= shapes.len(),
            meshes == meshes_of(shapes@),
            vertices@ == joined_vertices(meshes.take(i as int)),
            normals@ == joined_normals(meshes.take(i as int)),
        decreases shapes.len() - i,
    {
        let shape: &AShape<S> = shapes[i];
        append_vertices(&mut vertices, shape.get_vertices());
        append_normals(&mut normals, shape.get_normals());
        proof {
            let upto = meshes.take(i + 1);
            assert(upto.drop_last() =~= meshes.take(i as int));
            assert(upto.last() == shapes@[i as int]@);
        }
        i += 1;
    }
    let r = AShape { vertices, normals };
    proof {
        assert(meshes.take(shapes.len() as int) =~= meshes);
        if forall|i: int| 0 <= i < shapes@.len() ==> (#[trigger] shapes@[i])@.is_triangle_list() {
            assert forall|i: int| 0 <= i < meshes.len() implies
                (#[trigger] meshes[i]).is_triangle_list() by {
                assert(shapes@[i]@.is_triangle_list());
            }
            lemma_joined_is_triangle_list(meshes);
        }
    }
    r
}

} // verus!
