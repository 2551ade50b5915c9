//! A geodesic sphere: an icosahedron, refined.
use vstd::prelude::*;
use crate::scalar::Scalar;
use crate::vertex3d::Vertex;
use crate::normal3d::Normal;
use crate::mesh::Mesh;
use crate::shape3d::Shape3D;
use crate::shapes::AShape;
use crate::subdivide::lemma_subdivided_is_triangle_list;
use crate::spherify::lemma_spherified_is_triangle_list;
use crate::shapes::icosahedron::{Icosahedron, is_icosahedron, lemma_icosahedron_is_triangle_list};

verus! {

/// Four to the power of `n`.
pub open spec fn pow4(n: nat) -> nat
    decreases n,
{
    if n == 0 {
        1
    } else {
        4 * pow4((n - 1) as nat)
    }
}

/// Four to any power is at least one.
pub proof fn lemma_pow4_positive(n: nat)
    ensures
        pow4(n) >= 1,
    decreases n,
{
    if n > 0 {
        lemma_pow4_positive((n - 1) as nat);
    }
}

/// `r` is `m` refined once: subdivided to `split`, which is then projected
/// onto the sphere of `radius` about its centroid.
pub open spec fn refine_steps<S: Scalar>(
    m: Mesh<S>,
    radius: S,
    split: Mesh<S>,
    r: Mesh<S>,
) -> bool {
    &&& m.is_subdivided(split)
    &&& split.is_spherified(radius, r)
}

/// `r` is `m` with every triangle split in four and every vertex then put on
/// the sphere of `radius` about the centroid.
pub open spec fn is_refined<S: Scalar>(m: Mesh<S>, radius: S, r: Mesh<S>) -> bool {
    exists|split: Mesh<S>| #[trigger] refine_steps(m, radius, split, r)
}

/// The number of refinements that `precision` asks for: none if it is
/// negative.
pub open spec fn sphere_rounds(precision: i32) -> nat {
    if precision > 0 {
        precision as nat
    } else {
        0
    }
}

/// `stages` are the meshes that building the sphere passes through: an
/// icosahedron first, then one refinement of the stage before it for each
/// step of `precision`, the last of which is `r`.
pub open spec fn sphere_steps<S: Scalar>(
    centroid: [S; 3],
    radius: S,
    precision: i32,
    material_id: i32,
    stages: Seq<Mesh<S>>,
    r: Mesh<S>,
) -> bool {
    &&& stages.len() == sphere_rounds(precision) + 1
    &&& is_icosahedron(centroid, radius, material_id, stages[0])
    &&& forall|i: int|
        0 <= i < sphere_rounds(precision) ==> is_refined(
            stages[i],
            radius,
            #[trigger] stages[i + 1],
        )
    &&& r == stages.last()
}

/// `r` is the geodesic sphere about `centroid`: an icosahedron, refined
/// `precision` times.
pub open spec fn is_sphere<S: Scalar>(
    centroid: [S; 3],
    radius: S,
    precision: i32,
    material_id: i32,
    r: Mesh<S>,
) -> bool {
    exists|stages: Seq<Mesh<S>>| #[trigger]
        sphere_steps(centroid, radius, precision, material_id, stages, r)
}

/// An approximation of a sphere by triangles.
pub struct Sphere<S> {
    pub vertices: Vec<Vertex<S>>,
    pub normals: Vec<Normal<S>>,
}

impl<S: Scalar> Sphere<S> {
    /// The geodesic sphere of `radius` about `centroid`. Each step of
    /// `precision` splits every triangle in four and puts the new corners on
    /// the sphere, so the number of triangles is twenty times four to the
    /// power of `precision`.
    pub fn new(centroid: [S; 3], radius: S, precision: i32, material_id: i32) -> (r: AShape<S>)
        ensures
            is_sphere(centroid, radius, precision, material_id, r@),
            r@.is_triangle_list(),
            r@.triangle_count() == 20 * pow4(sphere_rounds(precision)),
    {
        let mut icosahedron = Icosahedron::new(centroid, radius, material_id);
        let ghost mut stages: Seq<Mesh<S>> = seq![icosahedron@];
        let mut i: i32 = 0;
        while i < precision
            invariant
                0 <= i <= sphere_rounds(precision),
                stages.len() == i + 1,
                is_icosahedron(centroid, radius, material_id, stages[0]),
                forall|j: int|
                    0 <= j < i ==> is_refined(stages[j], radius, #[trigger] stages[j + 1]),
                icosahedron@ == stages.last(),
                icosahedron@.is_triangle_list(),
                icosahedron@.triangle_count() == 20 * pow4(i as nat),
            decreases precision - i,
        {
            let ghost before = icosahedron@;
            icosahedron.subdivide_mut();
            let ghost split = icosahedron@;
            assert(pow4(i as nat) >= 1) by {
                lemma_pow4_positive(i as nat);
            }
            icosahedron.spherify_mut(radius);
            proof {
                assert(refine_steps(before, radius, split, icosahedron@));
                stages = stages.push(icosahedron@);
                assert(pow4((i + 1) as nat) == 4 * pow4(i as nat));
            }
            i += 1;
        }
        proof {
            assert(sphere_steps(centroid, radius, precision, material_id, stages, icosahedron@));
        }
        icosahedron
    }
}

impl<S: Scalar> Shape3D<S> for Sphere<S> {
    open spec fn mesh(&self) -> Mesh<S> {
        Mesh { vertices: self.vertices@, normals: self.normals@ }
    }

    fn get_vertices(&self) -> (r: &Vec<Vertex<S>>) {
        &self.vertices
    }

    fn get_normals(&self) -> (r: &Vec<Normal<S>>) {
        &self.normals
    }

    fn get_mut_vertices(&mut self) -> (r: &mut Vec<Vertex<S>>) {
        &mut self.vertices
    }

    fn get_mut_normals(&mut self) -> (r: &mut Vec<Normal<S>>) {
        &mut self.normals
    }
}

/// A sphere is a triangle list of twenty triangles for each power of four
/// that its precision gives.
pub proof fn lemma_sphere_is_triangle_list<S: Scalar>(
    centroid: [S; 3],
    radius: S,
    precision: i32,
    material_id: i32,
    r: Mesh<S>,
)
    requires
        is_sphere(centroid, radius, precision, material_id, r),
    ensures
        r.is_triangle_list(),
        r.triangle_count() == 20 * pow4(sphere_rounds(precision)),
{
    let stages = choose|stages: Seq<Mesh<S>>|
        sphere_steps(centroid, radius, precision, material_id, stages, r);
    assert(sphere_steps(centroid, radius, precision, material_id, stages, r));
    lemma_icosahedron_is_triangle_list(centroid, radius, material_id, stages[0]);
    lemma_refinements_are_triangle_lists(stages, radius, sphere_rounds(precision));
}

/// Each refinement of a triangle list is a triangle list of four times as
/// many triangles: stage `n` has four to the power of `n` times the
/// triangles of the first.
pub proof fn lemma_refinements_are_triangle_lists<S: Scalar>(
    stages: Seq<Mesh<S>>,
    radius: S,
    n: nat,
)
    requires
        n < stages.len(),
        stages[0].is_triangle_list(),
        forall|i: int| 0 <= i < n ==> is_refined(stages[i], radius, #[trigger] stages[i + 1]),
    ensures
        stages[n as int].is_triangle_list(),
        stages[n as int].triangle_count() == stages[0].triangle_count() * pow4(n),
    decreases n,
{
    if n > 0 {
        let before = stages[n - 1];
        let after = stages[n as int];
        lemma_refinements_are_triangle_lists(stages, radius, (n - 1) as nat);
        assert(is_refined(before, radius, stages[(n - 1) + 1]));
        let split = choose|split: Mesh<S>| refine_steps(before, radius, split, after);
        assert(refine_steps(before, radius, split, after));
        lemma_subdivided_is_triangle_list(before, split);
        lemma_spherified_is_triangle_list(split, radius, after);
        assert(stages[0].triangle_count() * pow4(n) == 4 * (stages[0].triangle_count() * pow4(
            (n - 1) as nat,
        ))) by (nonlinear_arith)
            requires
                pow4(n) == 4 * pow4((n - 1) as nat),
        ;
    } else {
        assert(stages[0].triangle_count() * pow4(0) == stages[0].triangle_count()) by (
            nonlinear_arith
        )
            requires
                pow4(0) == 1,
        ;
    }
}

} // verus!
