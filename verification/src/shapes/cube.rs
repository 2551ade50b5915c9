//! An axis-aligned cube of six quads.
use vstd::prelude::*;
use crate::scalar::{Scalar, is_ratio, is_sum, is_negation};
use crate::vertex3d::Vertex;
use crate::normal3d::Normal;
use crate::mesh::{Mesh, joined, lemma_joined_is_triangle_list, lemma_joined_len};
use crate::shape3d::Shape3D;
use crate::shapes::{AShape, combine_shapes, meshes_of};
use crate::shapes::quad::{Quad, is_quad, lemma_quad_is_triangle_list};

verus! {

/// `r` is the cube at `corner` with the side `side`, where `zero` is the
/// scalar for 0, `neg` is `-side`, and `x1`, `y1` and `z1` are the
/// coordinates of the corner opposite to `corner`. `quads` are its faces:
/// top, bottom, front, rear, left and right.
pub open spec fn cube_steps<S: Scalar>(
    corner: [S; 3],
    side: S,
    material_id: i32,
    zero: S,
    neg: S,
    x1: S,
    y1: S,
    z1: S,
    quads: Seq<Mesh<S>>,
    r: Mesh<S>,
) -> bool {
    &&& is_ratio(0, 1, zero)
    &&& is_negation(side, neg)
    &&& is_sum(corner[0], side, x1)
    &&& is_sum(corner[1], side, y1)
    &&& is_sum(corner[2], side, z1)
    &&& quads.len() == 6
    &&& is_quad(
        [corner[0], y1, corner[2]],
        [[side, zero, zero], [zero, zero, side]],
        material_id,
        quads[0],
    )
    &&& is_quad(
        [corner[0], corner[1], z1],
        [[side, zero, zero], [zero, zero, neg]],
        material_id,
        quads[1],
    )
    &&& is_quad(corner, [[side, zero, zero], [zero, side, zero]], material_id, quads[2])
    &&& is_quad(
        [x1, corner[1], z1],
        [[neg, zero, zero], [zero, side, zero]],
        material_id,
        quads[3],
    )
    &&& is_quad(
        [corner[0], corner[1], z1],
        [[zero, zero, neg], [zero, side, zero]],
        material_id,
        quads[4],
    )
    &&& is_quad(
        [x1, corner[1], corner[2]],
        [[zero, zero, side], [zero, side, zero]],
        material_id,
        quads[5],
    )
    &&& r == joined(quads)
}

/// `r` is the axis-aligned cube that reaches from `corner`, its bottom front
/// left corner, by `side` along each axis: six quads, joined in the order
/// top, bottom, front, rear, left, right.
pub open spec fn is_cube<S: Scalar>(corner: [S; 3], side: S, material_id: i32, r: Mesh<S>) -> bool {
    exists|zero: S, neg: S, x1: S, y1: S, z1: S, quads: Seq<Mesh<S>>| #[trigger]
        cube_steps(corner, side, material_id, zero, neg, x1, y1, z1, quads, r)
}

/// A cube of six quads.
pub struct Cube<S> {
    pub vertices: Vec<Vertex<S>>,
    pub normals: Vec<Normal<S>>,
}

impl<S: Scalar> Cube<S> {
    /// The axis-aligned cube with the bottom front left corner
    /// `bottom_front_left` and the side `side_length`.
    pub fn new(bottom_front_left: [S; 3], side_length: S, material_id: i32) -> (r: AShape<S>)
        ensures
            is_cube(bottom_front_left, side_length, material_id, r@),
            r@.is_triangle_list(),
            r@.triangle_count() == 12,
    {
        let sl = side_length;
        let bfl = bottom_front_left;
        let zero = S::from_ratio(0, 1);
        let neg = sl.neg();
        let x1 = bfl[0].add(sl);
        let y1 = bfl[1].add(sl);
        let z1 = bfl[2].add(sl);

        let top = Quad::new(
            [bfl[0], y1, bfl[2]],
            [[sl, zero, zero], [zero, zero, sl]],
            material_id,
        );
        let bottom = Quad::new(
            [bfl[0], bfl[1], z1],
            [[sl, zero, zero], [zero, zero, neg]],
            material_id,
        );
        let front = Quad::new(bfl, [[sl, zero, zero], [zero, sl, zero]], material_id);
        let rear = Quad::new([x1, bfl[1], z1], [[neg, zero, zero], [zero, sl, zero]], material_id);
        let left = Quad::new(
            [bfl[0], bfl[1], z1],
            [[zero, zero, neg], [zero, sl, zero]],
            material_id,
        );
        let right = Quad::new(
            [x1, bfl[1], bfl[2]],
            [[zero, zero, sl], [zero, sl, zero]],
            material_id,
        );

        let quads: Vec<&AShape<S>> = vec![&top, &bottom, &front, &rear, &left, &right];
        let ghost faces = meshes_of(quads@);
        let r = combine_shapes(quads);
        proof {
            assert(faces =~= seq![top@, bottom@, front@, rear@, left@, right@]);
            assert(cube_steps(bfl, sl, material_id, zero, neg, x1, y1, z1, faces, r@));
            lemma_joined_is_triangle_list(faces);
            lemma_joined_len(faces, 6);
        }
        r
    }
}

impl<S: Scalar> Shape3D<S> for Cube<S> {
    open spec fn mesh(&self) -> Mesh<S> {
        Mesh { vertices: self.vertices@, normals: self.normals@ }
    }

    fn get_vertices(&self) -> (r: &Vec<Vertex<S>>) {
        &self.vertices
    }

    fn get_normals(&self) -> (r: &Vec<Normal<S>>) {
        &self.normals
    }

    fn get_mut_vertices(&mut self) -> (r: &mut Vec<Vertex<S>>) {
        &mut self.vertices
    }

    fn get_mut_normals(&mut self) -> (r: &mut Vec<Normal<S>>) {
        &mut self.normals
    }
}

/// A cube is a triangle list of twelve triangles.
pub proof fn lemma_cube_is_triangle_list<S: Scalar>(
    corner: [S; 3],
    side: S,
    material_id: i32,
    r: Mesh<S>,
)
    requires
        is_cube(corner, side, material_id, r),
    ensures
        r.is_triangle_list(),
        r.triangle_count() == 12,
{
    let (zero, neg, x1, y1, z1, quads) = choose|
        zero: S,
        neg: S,
        x1: S,
        y1: S,
        z1: S,
        quads: Seq<Mesh<S>>,
    | cube_steps(corner, side, material_id, zero, neg, x1, y1, z1, quads, r);
    assert(cube_steps(corner, side, material_id, zero, neg, x1, y1, z1, quads, r));
    lemma_quad_is_triangle_list(
        [corner[0], y1, corner[2]],
        [[side, zero, zero], [zero, zero, side]],
        material_id,
        quads[0],
    );
    lemma_quad_is_triangle_list(
        [corner[0], corner[1], z1],
        [[side, zero, zero], [zero, zero, neg]],
        material_id,
        quads[1],
    );
    lemma_quad_is_triangle_list(
        corner,
        [[side, zero, zero], [zero, side, zero]],
        material_id,
        quads[2],
    );
    lemma_quad_is_triangle_list(
        [x1, corner[1], z1],
        [[neg, zero, zero], [zero, side, zero]],
        material_id,
        quads[3],
    );
    lemma_quad_is_triangle_list(
        [corner[0], corner[1], z1],
        [[zero, zero, neg], [zero, side, zero]],
        material_id,
        quads[4],
    );
    lemma_quad_is_triangle_list(
        [x1, corner[1], corner[2]],
        [[zero, zero, side], [zero, side, zero]],
        material_id,
        quads[5],
    );
    lemma_joined_is_triangle_list(quads);
    lemma_joined_len(quads, 6);
}

} // verus!
