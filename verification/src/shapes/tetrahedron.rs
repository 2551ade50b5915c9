//! A tetrahedron of four triangles.
use vstd::prelude::*;
use crate::scalar::{Scalar, is_ratio, is_cos, is_asin, is_radians};
use crate::point_transform3d::{
    is_translated, is_scaled, is_rotated_y, ptranslate, pscale, protate_Y,
};
use crate::vertex3d::Vertex;
use crate::normal3d::Normal;
use crate::mesh::{Mesh, joined, lemma_joined_is_triangle_list, lemma_joined_len};
use crate::shape3d::Shape3D;
use crate::shapes::{AShape, combine_shapes, meshes_of};
use crate::shapes::triangle::{Triangle, is_triangle, lemma_triangle_is_triangle_list};

verus! {

/// `a` is the angle of `degrees` degrees in radians, where `d` is the scalar
/// for `degrees`.
pub open spec fn degrees_steps<S: Scalar>(degrees: i32, d: S, a: S) -> bool {
    &&& is_ratio(degrees, 1, d)
    &&& is_radians(d, a)
}

/// `a` is the angle of `degrees` degrees, in radians.
pub open spec fn is_degrees<S: Scalar>(degrees: i32, a: S) -> bool {
    exists|d: S| #[trigger] degrees_steps(degrees, d, a)
}

/// `p` is `direction * radius + centroid`, through the product `arm`.
pub open spec fn placed_steps<S: Scalar>(
    direction: [S; 3],
    radius: S,
    centroid: [S; 3],
    arm: [S; 3],
    p: [S; 3],
) -> bool {
    &&& is_scaled(direction, radius, arm)
    &&& is_translated(arm, centroid, p)
}

/// `p` is the point that lies `radius` times `direction` away from
/// `centroid`.
pub open spec fn is_placed<S: Scalar>(
    direction: [S; 3],
    radius: S,
    centroid: [S; 3],
    p: [S; 3],
) -> bool {
    exists|arm: [S; 3]| #[trigger] placed_steps(direction, radius, centroid, arm, p)
}

/// `base` is `[cos(asin(1/4)), -1/4, 0]`, where `quarter` is the scalar for
/// 1/4 and `angle` its arcsine.
pub open spec fn tetrahedron_base_steps<S: Scalar>(
    quarter: S,
    angle: S,
    x: S,
    y: S,
    zero: S,
    base: [S; 3],
) -> bool {
    &&& is_ratio(1, 4, quarter)
    &&& is_asin(quarter, angle)
    &&& is_cos(angle, x)
    &&& is_ratio(-1i32, 4, y)
    &&& is_ratio(0, 1, zero)
    &&& base == [x, y, zero]
}

/// `base` is the direction from the center of a tetrahedron of radius 1 with
/// its apex straight up to a corner of its base: `[cos(asin(1/4)), -1/4, 0]`.
pub open spec fn is_tetrahedron_base<S: Scalar>(base: [S; 3]) -> bool {
    exists|quarter: S, angle: S, x: S, y: S, zero: S| #[trigger]
        tetrahedron_base_steps(quarter, angle, x, y, zero, base)
}

/// `p` is the corner that `base`, turned about the y axis by `a`, the angle
/// of `degrees` degrees, to `direction`, points at.
pub open spec fn base_corner_steps<S: Scalar>(
    base: [S; 3],
    degrees: i32,
    radius: S,
    centroid: [S; 3],
    a: S,
    direction: [S; 3],
    p: [S; 3],
) -> bool {
    &&& is_degrees(degrees, a)
    &&& is_rotated_y(base, a, direction)
    &&& is_placed(direction, radius, centroid, p)
}

/// `p` is the corner of the base of the tetrahedron about `centroid` that
/// lies `degrees` degrees about the y axis from `base`.
pub open spec fn is_base_corner<S: Scalar>(
    base: [S; 3],
    degrees: i32,
    radius: S,
    centroid: [S; 3],
    p: [S; 3],
) -> bool {
    exists|a: S, direction: [S; 3]| #[trigger]
        base_corner_steps(base, degrees, radius, centroid, a, direction, p)
}

/// `p` lies `radius` straight up from `centroid`, where `zero` and `one` are
/// the scalars for 0 and 1.
pub open spec fn apex_steps<S: Scalar>(
    radius: S,
    centroid: [S; 3],
    zero: S,
    one: S,
    p: [S; 3],
) -> bool {
    &&& is_ratio(0, 1, zero)
    &&& is_ratio(1, 1, one)
    &&& is_placed([zero, one, zero], radius, centroid, p)
}

/// `p` is the apex of the tetrahedron about `centroid`.
pub open spec fn is_apex<S: Scalar>(radius: S, centroid: [S; 3], p: [S; 3]) -> bool {
    exists|zero: S, one: S| #[trigger] apex_steps(radius, centroid, zero, one, p)
}

/// `r` is the tetrahedron about `centroid` with the base corners `a`, `b`
/// and `c`, the apex `apex` and the triangles `faces`.
pub open spec fn tetrahedron_steps<S: Scalar>(
    centroid: [S; 3],
    radius: S,
    material_id: i32,
    base: [S; 3],
    a: [S; 3],
    b: [S; 3],
    c: [S; 3],
    apex: [S; 3],
    faces: Seq<Mesh<S>>,
    r: Mesh<S>,
) -> bool {
    &&& is_tetrahedron_base(base)
    &&& is_base_corner(base, 150, radius, centroid, a)
    &&& is_base_corner(base, 30, radius, centroid, b)
    &&& is_base_corner(base, -90i32, radius, centroid, c)
    &&& is_apex(radius, centroid, apex)
    &&& faces.len() == 4
    &&& is_triangle([a, b, apex], material_id, faces[0])
    &&& is_triangle([b, c, apex], material_id, faces[1])
    &&& is_triangle([c, a, apex], material_id, faces[2])
    &&& is_triangle([a, c, b], material_id, faces[3])
    &&& r == joined(faces)
}

/// `r` is the tetrahedron with corners at the distance `radius` from
/// `centroid`: one straight up, three below at 150, 30 and -90 degrees about
/// the y axis; the three sides first, then the base.
pub open spec fn is_tetrahedron<S: Scalar>(
    centroid: [S; 3],
    radius: S,
    material_id: i32,
    r: Mesh<S>,
) -> bool {
    exists|
        base: [S; 3],
        a: [S; 3],
        b: [S; 3],
        c: [S; 3],
        apex: [S; 3],
        faces: Seq<Mesh<S>>,
    | #[trigger]
        tetrahedron_steps(centroid, radius, material_id, base, a, b, c, apex, faces, r)
}

/// A tetrahedron of four triangles.
pub struct Tetrahedron<S> {
    pub vertices: Vec<Vertex<S>>,
    pub normals: Vec<Normal<S>>,
}

/// The angle of `degrees` degrees, in radians.
fn angle_of<S: Scalar>(degrees: i32) -> (a: S)
    ensures
        is_degrees(degrees, a),
{
    let d = S::from_ratio(degrees, 1);
    let a = d.to_radians();
    assert(degrees_steps(degrees, d, a));
    a
}

/// The point that lies `radius` times `direction` away from `centroid`.
fn place<S: Scalar>(direction: [S; 3], radius: S, centroid: [S; 3]) -> (p: [S; 3])
    ensures
        is_placed(direction, radius, centroid, p),
{
    let arm = pscale(direction, radius);
    let p = ptranslate(arm, centroid);
    assert(placed_steps(direction, radius, centroid, arm, p));
    p
}

/// The corner of the base that lies `deg` degrees about the y axis from
/// `base`.
fn base_corner<S: Scalar>(base: [S; 3], deg: i32, radius: S, centroid: [S; 3]) -> (p: [S; 3])
    ensures
        is_base_corner(base, deg, radius, centroid, p),
{
    let a = angle_of(deg);
    let direction = protate_Y(base, a);
    let p = place(direction, radius, centroid);
    assert(base_corner_steps(base, deg, radius, centroid, a, direction, p));
    p
}

impl<S: Scalar> Tetrahedron<S> {
    /// The tetrahedron about `centroid` whose corners lie `radius` away from
    /// it.
    pub fn new(centroid: [S; 3], radius: S, material_id: i32) -> (r: AShape<S>)
        ensures
            is_tetrahedron(centroid, radius, material_id, r@),
            r@.is_triangle_list(),
            r@.triangle_count() == 4,
    {
        let quarter = S::from_ratio(1, 4);
        let angle = quarter.asin();
        let x = angle.cos();
        let y = S::from_ratio(-1, 4);
        let zero = S::from_ratio(0, 1);
        let base = [x, y, zero];
        assert(tetrahedron_base_steps(quarter, angle, x, y, zero, base));

        let a = base_corner(base, 150, radius, centroid);
        let b = base_corner(base, 30, radius, centroid);
        let c = base_corner(base, -90, radius, centroid);

        let one = S::from_ratio(1, 1);
        let apex = place([zero, one, zero], radius, centroid);
        assert(apex_steps(radius, centroid, zero, one, apex));

        let t0 = Triangle::new([a, b, apex], material_id);
        let t1 = Triangle::new([b, c, apex], material_id);
        let t2 = Triangle::new([c, a, apex], material_id);
        let t3 = Triangle::new([a, c, b], material_id);

        let triangles: Vec<&AShape<S>> = vec![&t0, &t1, &t2, &t3];
        let ghost faces = meshes_of(triangles@);
        let r = combine_shapes(triangles);
        proof {
            assert(faces =~= seq![t0@, t1@, t2@, t3@]);
            assert(tetrahedron_steps(
                centroid, radius, material_id, base, a, b, c, apex, faces, r@,
            ));
            lemma_joined_is_triangle_list(faces);
            lemma_joined_len(faces, 3);
        }
        r
    }
}

impl<S: Scalar> Shape3D<S> for Tetrahedron<S> {
    open spec fn mesh(&self) -> Mesh<S> {
        Mesh { vertices: self.vertices@, normals: self.normals@ }
    }

    fn get_vertices(&self) -> (r: &Vec<Vertex<S>>) {
        &self.vertices
    }

    fn get_normals(&self) -> (r: &Vec<Normal<S>>) {
        &self.normals
    }

    fn get_mut_vertices(&mut self) -> (r: &mut Vec<Vertex<S>>) {
        &mut self.vertices
    }

    fn get_mut_normals(&mut self) -> (r: &mut Vec<Normal<S>>) {
        &mut self.normals
    }
}

/// A tetrahedron is a triangle list of four triangles.
pub proof fn lemma_tetrahedron_is_triangle_list<S: Scalar>(
    centroid: [S; 3],
    radius: S,
    material_id: i32,
    r: Mesh<S>,
)
    requires
        is_tetrahedron(centroid, radius, material_id, r),
    ensures
        r.is_triangle_list(),
        r.triangle_count() == 4,
{
    let (base, a, b, c, apex, faces) = choose|
        base: [S; 3],
        a: [S; 3],
        b: [S; 3],
        c: [S; 3],
        apex: [S; 3],
        faces: Seq<Mesh<S>>,
    | tetrahedron_steps(centroid, radius, material_id, base, a, b, c, apex, faces, r);
    assert(tetrahedron_steps(centroid, radius, material_id, base, a, b, c, apex, faces, r));
    lemma_triangle_is_triangle_list([a, b, apex], material_id, faces[0]);
    lemma_triangle_is_triangle_list([b, c, apex], material_id, faces[1]);
    lemma_triangle_is_triangle_list([c, a, apex], material_id, faces[2]);
    lemma_triangle_is_triangle_list([a, c, b], material_id, faces[3]);
    lemma_joined_is_triangle_list(faces);
    lemma_joined_len(faces, 3);
}

} // verus!
