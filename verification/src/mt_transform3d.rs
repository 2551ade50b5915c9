//! Turning a run of vertices or of normals in place.
//!
//! No element depends on another, so a caller may cut a long list into runs
//! and hand the runs out to workers.
use vstd::prelude::*;
use crate::scalar::Scalar;
use crate::vertex3d::Vertex;
use crate::normal3d::Normal;
use crate::rigid::{vertices_rotated, normals_rotated};

verus! {

/// Turns every vertex of `vslice` about the world origin.
pub fn vslice_rotate<S: Scalar>(vslice: &mut [Vertex<S>], angles: [S; 3])
    ensures
        vertices_rotated(old(vslice)@, angles, final(vslice)@),
{
    let n = vslice.len();
    let mut i: usize = 0;
    while i < n
        invariant
            i <= n,
            n == old(vslice)@.len(),
            vslice@.len() == n,
            forall|j: int| 0 <= j < i ==> old(vslice)@[j].is_rotated(angles, #[trigger] vslice@[j]),
            forall|j: int| i <= j < n ==> vslice@[j] == old(vslice)@[j],
        decreases n - i,
    {
        let turned = vslice[i].rotate(angles);
        vslice[i] = turned;
        i += 1;
    }
}

/// Turns every normal of `nslice` about the world origin.
pub fn nslice_rotate<S: Scalar>(nslice: &mut [Normal<S>], angles: [S; 3])
    ensures
        normals_rotated(old(nslice)@, angles, final(nslice)@),
{
    let n = nslice.len();
    let mut i: usize = 0;
    while i < n
        invariant
            i <= n,
            n == old(nslice)@.len(),
            nslice@.len() == n,
            forall|j: int| 0 <= j < i ==> old(nslice)@[j].is_rotated(angles, #[trigger] nslice@[j]),
            forall|j: int| i <= j < n ==> nslice@[j] == old(nslice)@[j],
        decreases n - i,
    {
        let turned = nslice[i].rotate(angles);
        nslice[i] = turned;
        i += 1;
    }
}

} // verus!
