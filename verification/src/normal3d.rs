//! The normal that goes with a vertex.
use vstd::prelude::*;
use crate::scalar::Scalar;
use crate::point_transform3d::{is_rotated, is_cross, protate, vcross};

verus! {

/// A direction, not necessarily of unit length: the renderer normalizes.
///
/// A normal can be turned, and nothing else: to move or to scale a direction
/// has no meaning.
#[derive(Clone, Copy)]
pub struct Normal<S> {
    pub normal: [S; 3],
}

impl<S: Scalar> Normal<S> {
    /// `r` is the normal of the plane that `plane[0]` and `plane[1]` span:
    /// their cross product, in that order.
    pub open spec fn is_normal_of(plane: [[S; 3]; 2], r: Self) -> bool {
        is_cross(plane[0], plane[1], r.normal)
    }

    /// `r` is this normal turned about the world origin by `angles`.
    pub open spec fn is_rotated(self, angles: [S; 3], r: Self) -> bool {
        is_rotated(self.normal, angles, r.normal)
    }

    /// The face normal of the plane spanned by two edges that leave a common
    /// point: `plane[0] x plane[1]`, not normalized.
    pub fn normal(plane: [[S; 3]; 2]) -> (r: Normal<S>)
        ensures
            Self::is_normal_of(plane, r),
    {
        let a = plane[0];
        let b = plane[1];
        Normal { normal: vcross(a, b) }
    }

    /// Turns the direction about the x, y and z axes, in that order.
    pub fn rotate(&self, angles: [S; 3]) -> (r: Normal<S>)
        ensures
            self.is_rotated(angles, r),
    {
        Normal { normal: protate(self.normal, angles) }
    }
}

} // verus!
