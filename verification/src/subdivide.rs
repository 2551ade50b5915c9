//! One-to-four subdivision: every triangle is replaced by the three triangles
//! at its corners and the one in its middle, over the midpoints of its edges.
use vstd::prelude::*;
use crate::scalar::{Scalar, is_ratio, is_sum, is_product};
use crate::vertex3d::Vertex;
use crate::normal3d::Normal;
use crate::mesh::Mesh;

verus! {

/// `r` is `(a + b) * half`, through the sum `s`.
pub open spec fn half_sum_steps<S: Scalar>(a: S, b: S, half: S, s: S, r: S) -> bool {
    &&& is_sum(a, b, s)
    &&& is_product(s, half, r)
}

/// `r` is a value of `(a + b) * half`.
pub open spec fn is_half_sum<S: Scalar>(a: S, b: S, half: S, r: S) -> bool {
    exists|s: S| #[trigger] half_sum_steps(a, b, half, s, r)
}

/// `m` lies midway between `a` and `b`: each component of its position and of
/// its texture coordinate is `(a + b) * half`, and its material is that of `a`.
pub open spec fn is_midpoint<S: Scalar>(a: Vertex<S>, b: Vertex<S>, half: S, m: Vertex<S>) -> bool {
    &&& is_half_sum(a.position[0], b.position[0], half, m.position[0])
    &&& is_half_sum(a.position[1], b.position[1], half, m.position[1])
    &&& is_half_sum(a.position[2], b.position[2], half, m.position[2])
    &&& is_half_sum(a.texture[0], b.texture[0], half, m.texture[0])
    &&& is_half_sum(a.texture[1], b.texture[1], half, m.texture[1])
    &&& m.material_id == a.material_id
}

/// The triangle `v1 v2 v3` with the normal `n` splits into the four triangles
/// of `vertices`, all with the normal `n`: the three at the corners, then the
/// one in the middle. `m12`, `m32` and `m13` are the midpoints of the edges
/// `v1 v2`, `v3 v2` and `v1 v3`.
pub open spec fn split_steps<S: Scalar>(
    v1: Vertex<S>,
    v2: Vertex<S>,
    v3: Vertex<S>,
    n: Normal<S>,
    half: S,
    m12: Vertex<S>,
    m32: Vertex<S>,
    m13: Vertex<S>,
    vertices: Seq<Vertex<S>>,
    normals: Seq<Normal<S>>,
) -> bool {
    &&& is_midpoint(v1, v2, half, m12)
    &&& is_midpoint(v3, v2, half, m32)
    &&& is_midpoint(v1, v3, half, m13)
    &&& vertices == seq![v1, m12, m13, m12, v2, m32, m13, m32, v3, m12, m32, m13]
    &&& normals == Seq::new(12, |k: int| n)
}

/// `vertices` and `normals` are the four triangles that the triangle
/// `v1 v2 v3` with the normal `n` splits into.
pub open spec fn is_split<S: Scalar>(
    v1: Vertex<S>,
    v2: Vertex<S>,
    v3: Vertex<S>,
    n: Normal<S>,
    half: S,
    vertices: Seq<Vertex<S>>,
    normals: Seq<Normal<S>>,
) -> bool {
    exists|m12: Vertex<S>, m32: Vertex<S>, m13: Vertex<S>| #[trigger]
        split_steps(v1, v2, v3, n, half, m12, m32, m13, vertices, normals)
}

impl<S: Scalar> Mesh<S> {
    /// Triangle `t` of this mesh, split in four, makes the triangles `4t` to
    /// `4t + 3` of `r`.
    pub open spec fn is_split_at(self, t: int, half: S, r: Mesh<S>) -> bool {
        is_split(
            self.vertices[3 * t],
            self.vertices[3 * t + 1],
            self.vertices[3 * t + 2],
            self.normals[3 * t],
            half,
            r.vertices.subrange(12 * t, 12 * t + 12),
            r.normals.subrange(12 * t, 12 * t + 12),
        )
    }

    /// `r` is this mesh with every triangle split in four, where `half` is
    /// the scalar for one half.
    pub open spec fn subdivide_steps(self, half: S, r: Mesh<S>) -> bool {
        &&& is_ratio(1, 2, half)
        &&& r.vertices.len() == 12 * self.triangle_count()
        &&& r.normals.len() == 12 * self.triangle_count()
        &&& forall|t: int|
            0 <= t < self.triangle_count() ==> #[trigger] self.is_split_at(t, half, r)
    }

    /// `r` is this mesh subdivided one to four: each triangle is replaced, in
    /// place, by its three corner triangles and its middle triangle, over the
    /// midpoints of its edges. The four inherit the normal of the first
    /// vertex of the triangle they come from.
    pub open spec fn is_subdivided(self, r: Mesh<S>) -> bool {
        exists|half: S| #[trigger] self.subdivide_steps(half, r)
    }
}

/// `(a + b) * half`.
fn half_sum<S: Scalar>(a: S, b: S, half: S) -> (r: S)
    ensures
        is_half_sum(a, b, half, r),
{
    let s = a.add(b);
    let r = s.mul(half);
    assert(half_sum_steps(a, b, half, s, r));
    r
}

/// The vertex midway between `a` and `b`, with the material of `a`.
fn midpoint<S: Scalar>(a: &Vertex<S>, b: &Vertex<S>, half: S) -> (m: Vertex<S>)
    ensures
        is_midpoint(*a, *b, half, m),
{
    Vertex {
        position: [
            half_sum(a.position[0], b.position[0], half),
            half_sum(a.position[1], b.position[1], half),
            half_sum(a.position[2], b.position[2], half),
        ],
        texture: [
            half_sum(a.texture[0], b.texture[0], half),
            half_sum(a.texture[1], b.texture[1], half),
        ],
        material_id: a.material_id,
    }
}

/// The vertices and the normals of the mesh with every triangle split in
/// four.
pub(crate) fn subdivide_lists<S: Scalar>(
    vertices: &Vec<Vertex<S>>,
    normals: &Vec<Normal<S>>,
) -> (out: (Vec<Vertex<S>>, Vec<Normal<S>>))
    requires
        Mesh::of(vertices@, normals@).is_triangle_list(),
    ensures
        Mesh::of(vertices@, normals@).is_subdivided(Mesh::of(out.0@, out.1@)),
{
    let ghost before = Mesh::of(vertices@, normals@);
    let half = S::from_ratio(1, 2);
    let count = vertices.len() / 3;
    let mut out_v: Vec<Vertex<S>> = Vec::new();
    let mut out_n: Vec<Normal<S>> = Vec::new();
    let mut t: usize = 0;
    while t < count
        invariant
            t <= count,
            count == before.triangle_count(),
            before == Mesh::of(vertices@, normals@),
            before.is_triangle_list(),
            out_v.len() == 12 * t,
            out_n.len() == 12 * t,
            forall|u: int|
                0 <= u < t ==> #[trigger] before.is_split_at(u, half, Mesh::of(out_v@, out_n@)),
        decreases count - t,
    {
        let ghost old_v = out_v@;
        let ghost old_n = out_n@;
        let v1 = vertices[3 * t];
        let v2 = vertices[3 * t + 1];
        let v3 = vertices[3 * t + 2];
        let n = normals[3 * t];
        let m12 = midpoint(&v1, &v2, half);
        let m32 = midpoint(&v3, &v2, half);
        let m13 = midpoint(&v1, &v3, half);

        out_v.push(v1);
        out_v.push(m12);
        out_v.push(m13);

        out_v.push(m12);
        out_v.push(v2);
        out_v.push(m32);

        out_v.push(m13);
        out_v.push(m32);
        out_v.push(v3);

        out_v.push(m12);
        out_v.push(m32);
        out_v.push(m13);

        let mut k: usize = 0;
        while k < 12
            invariant
                k <= 12,
                out_n@.len() == old_n.len() + k,
                out_n@.subrange(0, old_n.len() as int) == old_n,
                forall|j: int| old_n.len() <= j < out_n@.len() ==> out_n@[j] == n,
            decreases 12 - k,
        {
            out_n.push(n);
            assert(out_n@.subrange(0, old_n.len() as int) =~= old_n);
            k += 1;
        }

        proof {
            let after = Mesh::of(out_v@, out_n@);
            let lo = 12 * t as int;
            assert(after.vertices.subrange(lo, lo + 12) =~= seq![
                v1, m12, m13, m12, v2, m32, m13, m32, v3, m12, m32, m13,
            ]);
            assert(after.normals.subrange(lo, lo + 12) =~= Seq::new(12, |k: int| n));
            assert(split_steps(
                v1, v2, v3, n, half, m12, m32, m13,
                after.vertices.subrange(lo, lo + 12),
                after.normals.subrange(lo, lo + 12),
            ));
            assert(before.is_split_at(t as int, half, after));
            assert forall|u: int| 0 <= u < t implies #[trigger] before.is_split_at(
                u,
                half,
                after,
            ) by {
                assert(before.is_split_at(u, half, Mesh::of(old_v, old_n)));
                assert(after.vertices.subrange(12 * u, 12 * u + 12) =~= old_v.subrange(
                    12 * u,
                    12 * u + 12,
                ));
                assert(after.normals.subrange(12 * u, 12 * u + 12) =~= old_n.subrange(
                    12 * u,
                    12 * u + 12,
                ));
            }
        }
        t += 1;
    }
    proof {
        assert(before.subdivide_steps(half, Mesh::of(out_v@, out_n@)));
    }
    (out_v, out_n)
}

/// Subdividing a triangle list gives a triangle list of four times as many
/// triangles.
pub proof fn lemma_subdivided_is_triangle_list<S: Scalar>(m: Mesh<S>, r: Mesh<S>)
    requires
        m.is_triangle_list(),
        m.is_subdivided(r),
    ensures
        r.is_triangle_list(),
        r.triangle_count() == 4 * m.triangle_count(),
{
    let half = choose|half: S| m.subdivide_steps(half, r);
    assert(m.subdivide_steps(half, r));
}

} // verus!
