//! What every shape can do: the transforms of a mesh, derived from access to
//! its vertices and normals.
use vstd::prelude::*;
use crate::scalar::Scalar;
use crate::vertex3d::Vertex;
use crate::normal3d::Normal;
use crate::mesh::Mesh;
use crate::rigid::{
    centroid_steps, sum_positions, negate_point, rotate_vertices, rotate_normals,
    translate_vertices, turn_vertices_about, scale_vertices_from, copy_normals,
};
use crate::subdivide::subdivide_lists;
use crate::spherify::spherify_lists;
use crate::shapes::AShape;

verus! {

/// A shape: anything that holds a list of vertices and a list of normals and
/// lets both be read and replaced. The transforms come with it.
///
/// Each transform exists in two forms. The one without `mut` in its name
/// leaves the shape as it is and returns the result; the one with `mut`
/// replaces the shape's own lists by the result. A name ending in `O` turns or
/// scales about the shape's centroid, the others about the world origin.
pub trait Shape3D<S: Scalar> {
    /// The content of the shape: its vertices and its normals, in order.
    spec fn mesh(&self) -> Mesh<S>;

    /// The list of vertices.
    fn get_vertices(&self) -> (r: &Vec<Vertex<S>>)
        ensures
            r@ == self.mesh().vertices,
    ;

    /// The list of normals.
    fn get_normals(&self) -> (r: &Vec<Normal<S>>)
        ensures
            r@ == self.mesh().normals,
    ;

    /// Access to the list of vertices. What is left in it becomes the
    /// shape's vertices; the normals stay.
    fn get_mut_vertices(&mut self) -> (r: &mut Vec<Vertex<S>>)
        ensures
            r@ == old(self).mesh().vertices,
            final(self).mesh().vertices == final(r)@,
            final(self).mesh().normals == old(self).mesh().normals,
    ;

    /// Access to the list of normals. What is left in it becomes the shape's
    /// normals; the vertices stay.
    fn get_mut_normals(&mut self) -> (r: &mut Vec<Normal<S>>)
        ensures
            r@ == old(self).mesh().normals,
            final(self).mesh().normals == final(r)@,
            final(self).mesh().vertices == old(self).mesh().vertices,
    ;

    /// Whether the shape is a list of whole triangles with a normal for each
    /// vertex: as many normals as vertices, and three vertices to the
    /// triangle.
    fn is_triangle_list(&self) -> (r: bool)
        ensures
            r == self.mesh().is_triangle_list(),
    {
        let vertices = self.get_vertices().len();
        vertices == self.get_normals().len() && vertices % 3 == 0
    }

    /// The number of whole triangles.
    fn triangle_count(&self) -> (r: usize)
        ensures
            r == self.mesh().triangle_count(),
    {
        self.get_vertices().len() / 3
    }

    /// The shape turned about the world origin.
    fn rotate(&self, angles: [S; 3]) -> (r: AShape<S>)
        ensures
            self.mesh().is_rotated(angles, r@),
            self.mesh().is_triangle_list() ==> r@.is_triangle_list(),
    {
        let vertices = rotate_vertices(self.get_vertices(), angles);
        let normals = rotate_normals(self.get_normals(), angles);
        AShape { vertices, normals }
    }

    /// The shape turned about its centroid.
    #[allow(non_snake_case)]
    fn rotate_O(&self, angles: [S; 3]) -> (r: AShape<S>)
        requires
            self.mesh().vertices.len() > 0,
        ensures
            self.mesh().is_rotated_about_centroid(angles, r@),
            self.mesh().is_triangle_list() ==> r@.is_triangle_list(),
    {
        let origin = self.centroid();
        let neg_origin = negate_point(origin);
        let vertices = turn_vertices_about(self.get_vertices(), origin, neg_origin, angles);
        let normals = rotate_normals(self.get_normals(), angles);
        let r = AShape { vertices, normals };
        assert(self.mesh().rotate_about_steps(origin, neg_origin, angles, r@));
        r
    }

    /// Turns the shape about the world origin.
    fn rotate_mut(&mut self, angles: [S; 3])
        ensures
            old(self).mesh().is_rotated(angles, final(self).mesh()),
            old(self).mesh().is_triangle_list() ==> final(self).mesh().is_triangle_list(),
    {
        let r = self.rotate(angles);
        *self.get_mut_vertices() = r.vertices;
        *self.get_mut_normals() = r.normals;
    }

    /// Turns the shape about its centroid.
    #[allow(non_snake_case)]
    fn rotate_mut_O(&mut self, angles: [S; 3])
        requires
            old(self).mesh().vertices.len() > 0,
        ensures
            old(self).mesh().is_rotated_about_centroid(angles, final(self).mesh()),
            old(self).mesh().is_triangle_list() ==> final(self).mesh().is_triangle_list(),
    {
        let r = self.rotate_O(angles);
        *self.get_mut_vertices() = r.vertices;
        *self.get_mut_normals() = r.normals;
    }

    /// The shape moved by `relative`.
    fn translate(&self, relative: [S; 3]) -> (r: AShape<S>)
        ensures
            self.mesh().is_translated(relative, r@),
            self.mesh().is_triangle_list() ==> r@.is_triangle_list(),
    {
        let vertices = translate_vertices(self.get_vertices(), relative);
        let normals = copy_normals(self.get_normals());
        AShape { vertices, normals }
    }

    /// Moves the shape by `relative`.
    fn translate_mut(&mut self, relative: [S; 3])
        ensures
            old(self).mesh().is_translated(relative, final(self).mesh()),
            old(self).mesh().is_triangle_list() ==> final(self).mesh().is_triangle_list(),
    {
        let vertices = translate_vertices(self.get_vertices(), relative);
        *self.get_mut_vertices() = vertices;
    }

    /// The shape scaled by `factor` about its centroid.
    #[allow(non_snake_case)]
    fn scale_O(&self, factor: S) -> (r: AShape<S>)
        requires
            self.mesh().vertices.len() > 0,
        ensures
            self.mesh().is_scaled_about_centroid(factor, r@),
            self.mesh().is_triangle_list() ==> r@.is_triangle_list(),
    {
        let origin = self.centroid();
        let neg_origin = negate_point(origin);
        let vertices = scale_vertices_from(self.get_vertices(), origin, neg_origin, factor);
        let normals = copy_normals(self.get_normals());
        let r = AShape { vertices, normals };
        assert(self.mesh().scale_about_steps(origin, neg_origin, factor, r@));
        r
    }

    /// Scales the shape by `factor` about its centroid.
    #[allow(non_snake_case)]
    fn scale_mut_O(&mut self, factor: S)
        requires
            old(self).mesh().vertices.len() > 0,
        ensures
            old(self).mesh().is_scaled_about_centroid(factor, final(self).mesh()),
            old(self).mesh().is_triangle_list() ==> final(self).mesh().is_triangle_list(),
    {
        let origin = self.centroid();
        let neg_origin = negate_point(origin);
        let vertices = scale_vertices_from(self.get_vertices(), origin, neg_origin, factor);
        *self.get_mut_vertices() = vertices;
        assert(old(self).mesh().scale_about_steps(origin, neg_origin, factor, self.mesh()));
    }

    /// The arithmetic mean of the vertex positions. A shape without vertices
    /// has none.
    fn centroid(&self) -> (c: [S; 3])
        requires
            self.mesh().vertices.len() > 0,
        ensures
            self.mesh().is_centroid(c),
    {
        let vertices = self.get_vertices();
        let total = sum_positions(vertices);
        let n = S::from_count(vertices.len());
        let c = [total[0].div(n), total[1].div(n), total[2].div(n)];
        assert(centroid_steps(self.mesh().vertices, total, n, c));
        c
    }

    /// Splits every triangle in four, over the midpoints of its edges. The
    /// normals are handed down, not computed anew.
    fn subdivide_mut(&mut self)
        requires
            old(self).mesh().is_triangle_list(),
        ensures
            old(self).mesh().is_subdivided(final(self).mesh()),
            final(self).mesh().is_triangle_list(),
            final(self).mesh().triangle_count() == 4 * old(self).mesh().triangle_count(),
    {
        let (vertices, normals) = subdivide_lists(self.get_vertices(), self.get_normals());
        *self.get_mut_vertices() = vertices;
        *self.get_mut_normals() = normals;
    }

    /// Projects every vertex onto the sphere of `radius` about the centroid,
    /// and gives every triangle the flat normal of its new corners.
    fn spherify_mut(&mut self, radius: S)
        requires
            old(self).mesh().is_triangle_list(),
            old(self).mesh().vertices.len() > 0,
        ensures
            old(self).mesh().is_spherified(radius, final(self).mesh()),
            final(self).mesh().is_triangle_list(),
    {
        let c = self.centroid();
        let (vertices, normals) = spherify_lists(
            self.get_vertices(),
            self.get_normals(),
            c,
            radius,
        );
        *self.get_mut_vertices() = vertices;
        *self.get_mut_normals() = normals;
    }
}

} // verus!
