//! A parallelogram of two triangles.
use vstd::prelude::*;
use crate::scalar::{Scalar, is_ratio};
use crate::point_transform3d::{is_translated, ptranslate};
use crate::vertex3d::{Vertex, vertex_at};
use crate::normal3d::Normal;
use crate::mesh::Mesh;
use crate::shape3d::Shape3D;
use crate::shapes::AShape;

verus! {

/// `r` is the parallelogram at `bottom_left` that `plane[0]` and `plane[1]`
/// span, where `zero` and `one` are the scalars for 0 and 1, `right`, `top` and
/// `left` are its other corners, counterclockwise, and `n` is its normal.
pub open spec fn quad_steps<S: Scalar>(
    bottom_left: [S; 3],
    plane: [[S; 3]; 2],
    material_id: i32,
    zero: S,
    one: S,
    right: [S; 3],
    top: [S; 3],
    left: [S; 3],
    n: Normal<S>,
    r: Mesh<S>,
) -> bool {
    &&& is_ratio(0, 1, zero)
    &&& is_ratio(1, 1, one)
    &&& is_translated(bottom_left, plane[0], right)
    &&& is_translated(right, plane[1], top)
    &&& is_translated(bottom_left, plane[1], left)
    &&& Normal::is_normal_of(plane, n)
    &&& r.vertices == seq![
        vertex_at(bottom_left, zero, zero, material_id),
        vertex_at(right, one, zero, material_id),
        vertex_at(top, one, one, material_id),
        vertex_at(bottom_left, zero, zero, material_id),
        vertex_at(top, one, one, material_id),
        vertex_at(left, zero, one, material_id),
    ]
    &&& r.normals == Seq::new(6, |k: int| n)
}

/// `r` is the parallelogram with the corners `bottom_left`,
/// `bottom_left + plane[0]`, `bottom_left + plane[0] + plane[1]` and
/// `bottom_left + plane[1]`, as two triangles: the first over the first three
/// corners, the second over the first, the third and the fourth. The texture
/// coordinates are the corners of the unit square, and all six normals are
/// `plane[0] x plane[1]`.
pub open spec fn is_quad<S: Scalar>(
    bottom_left: [S; 3],
    plane: [[S; 3]; 2],
    material_id: i32,
    r: Mesh<S>,
) -> bool {
    exists|zero: S, one: S, right: [S; 3], top: [S; 3], left: [S; 3], n: Normal<S>| #[trigger]
        quad_steps(bottom_left, plane, material_id, zero, one, right, top, left, n, r)
}

/// A parallelogram of two triangles.
pub struct Quad<S> {
    pub vertices: Vec<Vertex<S>>,
    pub normals: Vec<Normal<S>>,
}

impl<S: Scalar> Quad<S> {
    /// The parallelogram at `bottom_left` that the two edges of `plane` span.
    pub fn new(bottom_left: [S; 3], plane: [[S; 3]; 2], material_id: i32) -> (r: AShape<S>)
        ensures
            is_quad(bottom_left, plane, material_id, r@),
            r@.is_triangle_list(),
            r@.triangle_count() == 2,
    {
        let zero = S::from_ratio(0, 1);
        let one = S::from_ratio(1, 1);
        let right = ptranslate(bottom_left, plane[0]);
        let top = ptranslate(right, plane[1]);
        let left = ptranslate(bottom_left, plane[1]);
        let n = Normal::normal(plane);

        let mut vertices: Vec<Vertex<S>> = Vec::new();
        vertices.push(Vertex { position: bottom_left, texture: [zero, zero], material_id });
        vertices.push(Vertex { position: right, texture: [one, zero], material_id });
        vertices.push(Vertex { position: top, texture: [one, one], material_id });

        vertices.push(Vertex { position: bottom_left, texture: [zero, zero], material_id });
        vertices.push(Vertex { position: top, texture: [one, one], material_id });
        vertices.push(Vertex { position: left, texture: [zero, one], material_id });

        let mut normals: Vec<Normal<S>> = Vec::new();
        normals.push(n);
        normals.push(n);
        normals.push(n);
        normals.push(n);
        normals.push(n);
        normals.push(n);

        let r = AShape { vertices, normals };
        proof {
            assert(r@.vertices =~= seq![
                vertex_at(bottom_left, zero, zero, material_id),
                vertex_at(right, one, zero, material_id),
                vertex_at(top, one, one, material_id),
                vertex_at(bottom_left, zero, zero, material_id),
                vertex_at(top, one, one, material_id),
                vertex_at(left, zero, one, material_id),
            ]);
            assert(r@.normals =~= Seq::new(6, |k: int| n));
            assert(quad_steps(bottom_left, plane, material_id, zero, one, right, top, left, n, r@));
        }
        r
    }
}

impl<S: Scalar> Shape3D<S> for Quad<S> {
    open spec fn mesh(&self) -> Mesh<S> {
        Mesh { vertices: self.vertices@, normals: self.normals@ }
    }

    fn get_vertices(&self) -> (r: &Vec<Vertex<S>>) {
        &self.vertices
    }

    fn get_normals(&self) -> (r: &Vec<Normal<S>>) {
        &self.normals
    }

    fn get_mut_vertices(&mut self) -> (r: &mut Vec<Vertex<S>>) {
        &mut self.vertices
    }

    fn get_mut_normals(&mut self) -> (r: &mut Vec<Normal<S>>) {
        &mut self.normals
    }
}

/// A quad is a triangle list of two triangles.
pub proof fn lemma_quad_is_triangle_list<S: Scalar>(
    bottom_left: [S; 3],
    plane: [[S; 3]; 2],
    material_id: i32,
    r: Mesh<S>,
)
    requires
        is_quad(bottom_left, plane, material_id, r),
    ensures
        r.is_triangle_list(),
        r.triangle_count() == 2,
{
    let (zero, one, right, top, left, n) = choose|
        zero: S,
        one: S,
        right: [S; 3],
        top: [S; 3],
        left: [S; 3],
        n: Normal<S>,
    | quad_steps(bottom_left, plane, material_id, zero, one, right, top, left, n, r);
    assert(quad_steps(bottom_left, plane, material_id, zero, one, right, top, left, n, r));
}

} // verus!
