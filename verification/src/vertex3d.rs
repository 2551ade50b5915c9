//! A vertex of a mesh: a position with a texture coordinate and a material.
use vstd::prelude::*;
use crate::scalar::Scalar;
use crate::point_transform3d::{is_rotated, is_translated, is_scaled, protate, ptranslate, pscale};

verus! {

/// A corner of a triangle.
///
/// `texture` is a coordinate in the unit square, by convention only: nothing
/// enforces it. `material_id` is a tag that the renderer looks up.
#[derive(Clone, Copy)]
pub struct Vertex<S> {
    pub position: [S; 3],
    pub texture: [S; 2],
    pub material_id: i32,
}

/// The vertex at `position` with the texture coordinate `(u, v)`.
pub open spec fn vertex_at<S: Scalar>(position: [S; 3], u: S, v: S, material_id: i32) -> Vertex<S> {
    Vertex { position, texture: [u, v], material_id }
}

impl<S: Scalar> Vertex<S> {
    /// `r` is this vertex turned about the world origin by `angles`.
    pub open spec fn is_rotated(self, angles: [S; 3], r: Self) -> bool {
        &&& is_rotated(self.position, angles, r.position)
        &&& r.texture == self.texture
        &&& r.material_id == self.material_id
    }

    /// `r` is this vertex moved by `relative`.
    pub open spec fn is_translated(self, relative: [S; 3], r: Self) -> bool {
        &&& is_translated(self.position, relative, r.position)
        &&& r.texture == self.texture
        &&& r.material_id == self.material_id
    }

    /// `r` is this vertex with its position multiplied by `factor`.
    pub open spec fn is_scaled(self, factor: S, r: Self) -> bool {
        &&& is_scaled(self.position, factor, r.position)
        &&& r.texture == self.texture
        &&& r.material_id == self.material_id
    }

    /// Turns the position about the x, y and z axes through the world origin,
    /// in that order. Texture coordinate and material stay.
    pub fn rotate(&self, angles: [S; 3]) -> (r: Vertex<S>)
        ensures
            self.is_rotated(angles, r),
    {
        Vertex {
            position: protate(self.position, angles),
            texture: self.texture,
            material_id: self.material_id,
        }
    }

    /// Moves the position by `relative`. Texture coordinate and material stay.
    pub fn translate(&self, relative: [S; 3]) -> (r: Vertex<S>)
        ensures
            self.is_translated(relative, r),
    {
        Vertex {
            position: ptranslate(self.position, relative),
            texture: self.texture,
            material_id: self.material_id,
        }
    }

    /// Multiplies the position by `factor`. Texture coordinate and material
    /// stay.
    pub fn scale(&self, factor: S) -> (r: Vertex<S>)
        ensures
            self.is_scaled(factor, r),
    {
        Vertex {
            position: pscale(self.position, factor),
            texture: self.texture,
            material_id: self.material_id,
        }
    }
}

} // verus!
