//! A single triangle.
use vstd::prelude::*;
use crate::scalar::{Scalar, is_ratio, is_difference};
use crate::point_transform3d::is_cross;
use crate::vertex3d::{Vertex, vertex_at};
use crate::normal3d::Normal;
use crate::mesh::Mesh;
use crate::shape3d::Shape3D;
use crate::shapes::AShape;

verus! {

/// `r` is `a - b`, component by component.
pub open spec fn is_point_difference<S: Scalar>(a: [S; 3], b: [S; 3], r: [S; 3]) -> bool {
    &&& is_difference(a[0], b[0], r[0])
    &&& is_difference(a[1], b[1], r[1])
    &&& is_difference(a[2], b[2], r[2])
}

/// `r` is the triangle over `points`, where `zero`, `one` and `half` are the
/// scalars for 0, 1 and 1/2, `e1` and `e2` are the edges from the first point
/// to the second and to the third, and `n` is their cross product.
pub open spec fn triangle_steps<S: Scalar>(
    points: [[S; 3]; 3],
    material_id: i32,
    zero: S,
    one: S,
    half: S,
    e1: [S; 3],
    e2: [S; 3],
    n: Normal<S>,
    r: Mesh<S>,
) -> bool {
    &&& is_ratio(0, 1, zero)
    &&& is_ratio(1, 1, one)
    &&& is_ratio(1, 2, half)
    &&& is_point_difference(points[1], points[0], e1)
    &&& is_point_difference(points[2], points[0], e2)
    &&& is_cross(e1, e2, n.normal)
    &&& r.vertices == seq![
        vertex_at(points[0], zero, one, material_id),
        vertex_at(points[1], one, one, material_id),
        vertex_at(points[2], half, zero, material_id),
    ]
    &&& r.normals == seq![n, n, n]
}

/// `r` is the one triangle over `points`: three vertices with the texture
/// coordinates `(0, 1)`, `(1, 1)` and `(1/2, 0)`, and three times the normal
/// `(points[1] - points[0]) x (points[2] - points[0])`.
pub open spec fn is_triangle<S: Scalar>(points: [[S; 3]; 3], material_id: i32, r: Mesh<S>) -> bool {
    exists|zero: S, one: S, half: S, e1: [S; 3], e2: [S; 3], n: Normal<S>| #[trigger]
        triangle_steps(points, material_id, zero, one, half, e1, e2, n, r)
}

/// A single triangle.
pub struct Triangle<S> {
    pub vertices: Vec<Vertex<S>>,
    pub normals: Vec<Normal<S>>,
}

/// `a - b`.
fn point_difference<S: Scalar>(a: [S; 3], b: [S; 3]) -> (r: [S; 3])
    ensures
        is_point_difference(a, b, r),
{
    [a[0].sub(b[0]), a[1].sub(b[1]), a[2].sub(b[2])]
}

impl<S: Scalar> Triangle<S> {
    /// The triangle over the three `points`, with one flat normal.
    pub fn new(points: [[S; 3]; 3], material_id: i32) -> (r: AShape<S>)
        ensures
            is_triangle(points, material_id, r@),
            r@.is_triangle_list(),
            r@.triangle_count() == 1,
    {
        let zero = S::from_ratio(0, 1);
        let one = S::from_ratio(1, 1);
        let half = S::from_ratio(1, 2);
        let mut vertices: Vec<Vertex<S>> = Vec::new();
        vertices.push(Vertex { position: points[0], texture: [zero, one], material_id });
        vertices.push(Vertex { position: points[1], texture: [one, one], material_id });
        vertices.push(Vertex { position: points[2], texture: [half, zero], material_id });

        let e1 = point_difference(points[1], points[0]);
        let e2 = point_difference(points[2], points[0]);
        let norm = Normal::normal([e1, e2]);
        let mut normals: Vec<Normal<S>> = Vec::new();
        normals.push(norm);
        normals.push(norm);
        normals.push(norm);

        let r = AShape { vertices, normals };
        proof {
            assert(r@.vertices =~= seq![
                vertex_at(points[0], zero, one, material_id),
                vertex_at(points[1], one, one, material_id),
                vertex_at(points[2], half, zero, material_id),
            ]);
            assert(r@.normals =~= seq![norm, norm, norm]);
            assert(triangle_steps(points, material_id, zero, one, half, e1, e2, norm, r@));
        }
        r
    }
}

impl<S: Scalar> Shape3D<S> for Triangle<S> {
    open spec fn mesh(&self) -> Mesh<S> {
        Mesh { vertices: self.vertices@, normals: self.normals@ }
    }

    fn get_vertices(&self) -> (r: &Vec<Vertex<S>>) {
        &self.vertices
    }

    fn get_normals(&self) -> (r: &Vec<Normal<S>>) {
        &self.normals
    }

    fn get_mut_vertices(&mut self) -> (r: &mut Vec<Vertex<S>>) {
        &mut self.vertices
    }

    fn get_mut_normals(&mut self) -> (r: &mut Vec<Normal<S>>) {
        &mut self.normals
    }
}

/// A triangle is a triangle list of one triangle.
pub proof fn lemma_triangle_is_triangle_list<S: Scalar>(
    points: [[S; 3]; 3],
    material_id: i32,
    r: Mesh<S>,
)
    requires
        is_triangle(points, material_id, r),
    ensures
        r.is_triangle_list(),
        r.triangle_count() == 1,
{
    let (zero, one, half, e1, e2, n) = choose|
        zero: S,
        one: S,
        half: S,
        e1: [S; 3],
        e2: [S; 3],
        n: Normal<S>,
    | triangle_steps(points, material_id, zero, one, half, e1, e2, n, r);
    assert(triangle_steps(points, material_id, zero, one, half, e1, e2, n, r));
}

} // verus!
