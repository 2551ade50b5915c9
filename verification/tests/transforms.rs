use base3d::mt_transform3d::{nslice_rotate, vslice_rotate};
use base3d::normal3d::Normal;
use base3d::point_transform3d::{protate, vcross};
use base3d::scalar::Scalar;
use base3d::shape3d::Shape3D;
use base3d::shapes::{AShape, Cube, Icosahedron, Quad, Tetrahedron, Triangle};
use base3d::vertex3d::Vertex;

#[derive(Clone, Copy, Debug, PartialEq)]
struct F(f32);

impl Scalar for F {
    fn from_ratio(num: i32, den: i32) -> Self {
        F(num as f32 / den as f32)
    }
    fn from_count(n: usize) -> Self {
        F(n as f32)
    }
    fn add(self, rhs: Self) -> Self {
        F(self.0 + rhs.0)
    }
    fn sub(self, rhs: Self) -> Self {
        F(self.0 - rhs.0)
    }
    fn mul(self, rhs: Self) -> Self {
        F(self.0 * rhs.0)
    }
    fn div(self, rhs: Self) -> Self {
        F(self.0 / rhs.0)
    }
    fn neg(self) -> Self {
        F(-self.0)
    }
    fn sqrt(self) -> Self {
        F(self.0.sqrt())
    }
    fn sin(self) -> Self {
        F(self.0.sin())
    }
    fn cos(self) -> Self {
        F(self.0.cos())
    }
    fn asin(self) -> Self {
        F(self.0.asin())
    }
    fn to_radians(self) -> Self {
        F(self.0.to_radians())
    }
    fn floor(self) -> Self {
        F(self.0.floor())
    }
    fn to_u8(self) -> u8 {
        self.0 as u8
    }
}

const EPS: f32 = 1e-5;

fn p(a: [f32; 3]) -> [F; 3] {
    [F(a[0]), F(a[1]), F(a[2])]
}

fn raw(a: [F; 3]) -> [f32; 3] {
    [a[0].0, a[1].0, a[2].0]
}

fn positions(shape: &AShape<F>) -> Vec<[f32; 3]> {
    shape.vertices.iter().map(|v| raw(v.position)).collect()
}

fn normals(shape: &AShape<F>) -> Vec<[f32; 3]> {
    shape.normals.iter().map(|n| raw(n.normal)).collect()
}

fn distance(a: [f32; 3], b: [f32; 3]) -> f32 {
    ((a[0] - b[0]).powi(2) + (a[1] - b[1]).powi(2) + (a[2] - b[2]).powi(2)).sqrt()
}

fn all_close(a: &[[f32; 3]], b: &[[f32; 3]]) -> bool {
    a.len() == b.len() && a.iter().zip(b.iter()).all(|(x, y)| distance(*x, *y) <= EPS)
}

fn is_triangle_list(shape: &AShape<F>) -> bool {
    shape.vertices.len() == shape.normals.len() && shape.vertices.len() % 3 == 0
}

fn wedge() -> AShape<F> {
    Triangle::new([p([0.0, 0.0, 0.0]), p([3.0, 0.0, 0.0]), p([0.0, 3.0, 0.0])], 7)
}

#[test]
fn centroid_is_the_mean_of_the_positions() {
    assert_eq!(raw(wedge().centroid()), [1.0, 1.0, 0.0]);
    let cube = Cube::new(p([0.0, 0.0, 0.0]), F(1.0), 0);
    assert_eq!(raw(cube.centroid()), [0.5, 0.5, 0.5]);
    let quad = Quad::new(p([1.0, 2.0, 3.0]), [p([2.0, 0.0, 0.0]), p([0.0, 4.0, 0.0])], 0);
    // Two corners of a quad are counted twice.
    assert_eq!(raw(quad.centroid()), [2.0, 4.0, 3.0]);
}

#[test]
fn rotate_by_zero_keeps_every_position() {
    let ico = Icosahedron::new(p([1.0, 2.0, 3.0]), F(2.0), 0);
    let turned = ico.rotate(p([0.0, 0.0, 0.0]));
    assert!(all_close(&positions(&turned), &positions(&ico)));
    assert!(all_close(&normals(&turned), &normals(&ico)));
}

#[test]
fn rotate_turns_positions_and_normals_alike() {
    let t = wedge();
    let angles = p([0.3, -0.8, 1.9]);
    let turned = t.rotate(angles);
    for i in 0..3 {
        assert_eq!(turned.vertices[i].position, protate(t.vertices[i].position, angles));
        assert_eq!(turned.normals[i].normal, protate(t.normals[i].normal, angles));
        assert_eq!(turned.vertices[i].texture, t.vertices[i].texture);
        assert_eq!(turned.vertices[i].material_id, 7);
    }
}

#[test]
fn rotate_a_quarter_turn_about_z() {
    let t = wedge();
    let turned = t.rotate(p([0.0, 0.0, std::f32::consts::FRAC_PI_2]));
    assert!(all_close(&positions(&turned), &[[0.0, 0.0, 0.0], [0.0, 3.0, 0.0], [-3.0, 0.0, 0.0]]));
    assert!(all_close(&normals(&turned), &[[0.0, 0.0, 9.0]; 3]));
}

#[test]
fn rotate_mut_does_what_rotate_returns() {
    let mut t = wedge();
    let angles = p([1.0, 2.0, 3.0]);
    let turned = t.rotate(angles);
    t.rotate_mut(angles);
    assert_eq!(positions(&t), positions(&turned));
    assert_eq!(normals(&t), normals(&turned));
}

#[test]
fn rotate_about_centroid_keeps_the_centroid() {
    let cube = Cube::new(p([2.0, -1.0, 4.0]), F(2.0), 0);
    let before = raw(cube.centroid());
    let turned = cube.rotate_O(p([0.7, -1.3, 2.9]));
    let after = raw(turned.centroid());
    assert!(distance(before, after) <= EPS);
    assert!(is_triangle_list(&turned));
}

#[test]
fn rotate_about_centroid_moves_turns_and_moves_back() {
    let t = wedge();
    // The centroid is (1, 1, 0); a half turn about z maps q to 2c - q.
    let turned = t.rotate_O(p([0.0, 0.0, std::f32::consts::PI]));
    assert!(all_close(&positions(&turned), &[[2.0, 2.0, 0.0], [-1.0, 2.0, 0.0], [2.0, -1.0, 0.0]]));
    // Normals are turned, and not moved.
    assert!(all_close(&normals(&turned), &[[0.0, 0.0, 9.0]; 3]));
}

#[test]
fn rotate_about_centroid_turns_normals_like_rotate() {
    let cube = Cube::new(p([2.0, -1.0, 4.0]), F(2.0), 0);
    let angles = p([0.7, -1.3, 2.9]);
    assert_eq!(normals(&cube.rotate_O(angles)), normals(&cube.rotate(angles)));
}

#[test]
fn rotate_mut_about_centroid_does_what_rotate_about_centroid_returns() {
    let mut cube = Cube::new(p([0.0, 0.4, 0.0]), F(0.2), 2);
    let angles = p([0.01, 0.02, 0.03]);
    let turned = cube.rotate_O(angles);
    cube.rotate_mut_O(angles);
    assert_eq!(positions(&cube), positions(&turned));
    assert_eq!(normals(&cube), normals(&turned));
}

#[test]
fn translate_moves_every_position() {
    let t = wedge();
    let moved = t.translate(p([1.0, -2.0, 0.5]));
    assert_eq!(positions(&moved), vec![[1.0, -2.0, 0.5], [4.0, -2.0, 0.5], [1.0, 1.0, 0.5]]);
    assert_eq!(normals(&moved), normals(&t));
    assert_eq!(positions(&t), vec![[0.0, 0.0, 0.0], [3.0, 0.0, 0.0], [0.0, 3.0, 0.0]]);
}

#[test]
fn translate_there_and_back() {
    let ico = Icosahedron::new(p([0.0, 0.0, 0.0]), F(1.0), 0);
    let v = [0.3f32, -4.0, 2.5];
    let back = ico.translate(p(v)).translate(p([-v[0], -v[1], -v[2]]));
    assert!(all_close(&positions(&back), &positions(&ico)));
    assert_eq!(normals(&back), normals(&ico));
}

#[test]
fn translate_mut_leaves_the_normals() {
    let mut t = wedge();
    let ns = normals(&t);
    t.translate_mut(p([0.0, 0.0, 5.0]));
    assert_eq!(positions(&t), vec![[0.0, 0.0, 5.0], [3.0, 0.0, 5.0], [0.0, 3.0, 5.0]]);
    assert_eq!(normals(&t), ns);
}

#[test]
fn scale_about_centroid_grows_from_the_middle() {
    let cube = Cube::new(p([0.0, 0.0, 0.0]), F(1.0), 0);
    let grown = cube.scale_O(F(2.0));
    let ps = positions(&grown);
    assert!(ps.iter().all(|q| q.iter().all(|&x| x == -0.5 || x == 1.5)));
    assert_eq!(raw(grown.centroid()), [0.5, 0.5, 0.5]);
    assert_eq!(normals(&grown), normals(&cube));
}

#[test]
fn scale_mut_about_centroid_does_what_scale_returns() {
    let mut t = wedge();
    let scaled = t.scale_O(F(0.5));
    assert_eq!(positions(&scaled), vec![[0.5, 0.5, 0.0], [2.0, 0.5, 0.0], [0.5, 2.0, 0.0]]);
    t.scale_mut_O(F(0.5));
    assert_eq!(positions(&t), positions(&scaled));
    assert_eq!(normals(&t), normals(&scaled));
}

#[test]
fn subdivide_splits_a_triangle_in_four() {
    let mut t = Triangle::new([p([0.0, 0.0, 0.0]), p([2.0, 0.0, 0.0]), p([0.0, 2.0, 0.0])], 3);
    t.subdivide_mut();
    let v1 = [0.0, 0.0, 0.0];
    let v2 = [2.0, 0.0, 0.0];
    let v3 = [0.0, 2.0, 0.0];
    let m12 = [1.0, 0.0, 0.0];
    let m32 = [1.0, 1.0, 0.0];
    let m13 = [0.0, 1.0, 0.0];
    assert_eq!(
        positions(&t),
        vec![v1, m12, m13, m12, v2, m32, m13, m32, v3, m12, m32, m13]
    );
    // The four children inherit the normal of their parent.
    assert_eq!(normals(&t), vec![[0.0, 0.0, 4.0]; 12]);
    assert!(t.vertices.iter().all(|v| v.material_id == 3));
}

#[test]
fn subdivide_averages_texture_coordinates() {
    let mut t = Triangle::new([p([0.0, 0.0, 0.0]), p([2.0, 0.0, 0.0]), p([0.0, 2.0, 0.0])], 3);
    t.subdivide_mut();
    let tex: Vec<[f32; 2]> = t.vertices.iter().map(|v| [v.texture[0].0, v.texture[1].0]).collect();
    let t1 = [0.0, 1.0];
    let t2 = [1.0, 1.0];
    let t3 = [0.5, 0.0];
    let t12 = [0.5, 1.0];
    let t32 = [0.75, 0.5];
    let t13 = [0.25, 0.5];
    assert_eq!(tex, vec![t1, t12, t13, t12, t2, t32, t13, t32, t3, t12, t32, t13]);
}

#[test]
fn subdivide_takes_the_material_of_the_first_endpoint() {
    let vertex = |x: f32, id: i32| Vertex {
        position: p([x, 0.0, 0.0]),
        texture: [F(0.0), F(0.0)],
        material_id: id,
    };
    let n = Normal { normal: p([0.0, 0.0, 1.0]) };
    let mut shape = AShape {
        vertices: vec![vertex(0.0, 1), vertex(1.0, 2), vertex(2.0, 3)],
        normals: vec![
            n,
            Normal { normal: p([9.0, 9.0, 9.0]) },
            Normal { normal: p([8.0, 8.0, 8.0]) },
        ],
    };
    shape.subdivide_mut();
    let ids: Vec<i32> = shape.vertices.iter().map(|v| v.material_id).collect();
    // Midpoints: v1v2 has the material of v1, v3v2 that of v3, v1v3 that of v1.
    assert_eq!(ids, vec![1, 1, 1, 1, 2, 3, 1, 3, 3, 1, 3, 1]);
    // The normal of the first vertex of a triangle is the one handed down.
    assert_eq!(normals(&shape), vec![[0.0, 0.0, 1.0]; 12]);
}

#[test]
fn subdivide_quadruples_the_triangles() {
    let mut cube = Cube::new(p([0.0, 0.0, 0.0]), F(1.0), 0);
    assert_eq!(cube.triangle_count(), 12);
    for round in 1..=3 {
        let before = cube.triangle_count();
        cube.subdivide_mut();
        assert_eq!(cube.triangle_count(), 4 * before);
        assert_eq!(cube.vertices.len(), 36 * 4usize.pow(round));
        assert!(is_triangle_list(&cube));
    }
}

#[test]
fn subdivide_keeps_the_order_of_the_triangles() {
    let mut cube = Cube::new(p([0.0, 0.0, 0.0]), F(1.0), 0);
    let before = positions(&cube);
    cube.subdivide_mut();
    let after = positions(&cube);
    for t in 0..12 {
        assert_eq!(after[12 * t], before[3 * t]);
        assert_eq!(after[12 * t + 4], before[3 * t + 1]);
        assert_eq!(after[12 * t + 8], before[3 * t + 2]);
    }
}

#[test]
fn subdivide_of_an_empty_shape_is_empty() {
    let mut none: AShape<F> = AShape { vertices: Vec::new(), normals: Vec::new() };
    none.subdivide_mut();
    assert!(none.vertices.is_empty());
    assert!(none.normals.is_empty());
}

#[test]
fn spherify_puts_every_vertex_at_the_radius() {
    let mut cube = Cube::new(p([1.0, 1.0, 1.0]), F(2.0), 0);
    let c = raw(cube.centroid());
    cube.subdivide_mut();
    cube.spherify_mut(F(3.0));
    assert_eq!(cube.vertices.len(), 144);
    for q in positions(&cube) {
        assert!((distance(q, c) - 3.0).abs() <= 1e-4);
    }
    assert!(is_triangle_list(&cube));
}

#[test]
fn spherify_projects_along_the_ray_from_the_centroid() {
    // The centroid of this triangle is the origin.
    let mut t = Triangle::new([p([3.0, 0.0, 0.0]), p([-3.0, 4.0, 0.0]), p([0.0, -4.0, 0.0])], 1);
    assert_eq!(raw(t.centroid()), [0.0, 0.0, 0.0]);
    t.spherify_mut(F(10.0));
    assert_eq!(positions(&t), vec![[10.0, 0.0, 0.0], [-6.0, 8.0, 0.0], [0.0, -10.0, 0.0]]);
    // The normal is the cross product of the new edges q1 - q0 and q2 - q1.
    let n = raw(vcross(p([-16.0, 8.0, 0.0]), p([6.0, -18.0, 0.0])));
    assert_eq!(n, [0.0, 0.0, 240.0]);
    assert_eq!(normals(&t), vec![n; 3]);
    assert!(t.vertices.iter().all(|v| v.material_id == 1));
    let tex: Vec<[f32; 2]> = t.vertices.iter().map(|v| [v.texture[0].0, v.texture[1].0]).collect();
    assert_eq!(tex, vec![[0.0, 1.0], [1.0, 1.0], [0.5, 0.0]]);
}

#[test]
fn spherify_gives_each_triangle_one_flat_normal() {
    let mut tetra = Tetrahedron::new(p([0.0, 0.0, 0.0]), F(1.0), 0);
    tetra.subdivide_mut();
    tetra.spherify_mut(F(1.0));
    let ps = positions(&tetra);
    let ns = normals(&tetra);
    for t in 0..tetra.vertices.len() / 3 {
        assert_eq!(ns[3 * t], ns[3 * t + 1]);
        assert_eq!(ns[3 * t], ns[3 * t + 2]);
        let q0 = ps[3 * t];
        let q1 = ps[3 * t + 1];
        let q2 = ps[3 * t + 2];
        let e1 = [q1[0] + q0[0] * -1.0, q1[1] + q0[1] * -1.0, q1[2] + q0[2] * -1.0];
        let e2 = [q2[0] + q1[0] * -1.0, q2[1] + q1[1] * -1.0, q2[2] + q1[2] * -1.0];
        assert_eq!(ns[3 * t], raw(vcross(p(e1), p(e2))));
    }
}

#[test]
fn spherify_of_a_vertex_at_the_centroid_is_not_a_number() {
    let vertex = |q: [f32; 3]| Vertex { position: p(q), texture: [F(0.0), F(0.0)], material_id: 0 };
    let n = Normal { normal: p([0.0, 0.0, 1.0]) };
    // The centroid of these three points is the second of them.
    let mut shape = AShape {
        vertices: vec![vertex([-1.0, 0.0, 0.0]), vertex([0.0, 0.0, 0.0]), vertex([1.0, 0.0, 0.0])],
        normals: vec![n, n, n],
    };
    shape.spherify_mut(F(1.0));
    assert_eq!(shape.vertices.len(), 3);
    assert_eq!(shape.normals.len(), 3);
    assert_eq!(raw(shape.vertices[0].position), [-1.0, 0.0, 0.0]);
    assert!(shape.vertices[1].position.iter().all(|x| x.0.is_nan()));
    assert_eq!(raw(shape.vertices[2].position), [1.0, 0.0, 0.0]);
}

#[test]
fn transforms_keep_a_triangle_list() {
    let mut shape = Icosahedron::new(p([0.0, 0.0, 0.0]), F(1.0), 0);
    let angles = p([0.1, 0.2, 0.3]);
    assert!(is_triangle_list(&shape.rotate(angles)));
    assert!(is_triangle_list(&shape.rotate_O(angles)));
    assert!(is_triangle_list(&shape.translate(angles)));
    assert!(is_triangle_list(&shape.scale_O(F(3.0))));
    shape.rotate_mut(angles);
    assert!(is_triangle_list(&shape));
    shape.rotate_mut_O(angles);
    assert!(is_triangle_list(&shape));
    shape.translate_mut(angles);
    assert!(is_triangle_list(&shape));
    shape.scale_mut_O(F(0.5));
    assert!(is_triangle_list(&shape));
    shape.subdivide_mut();
    assert!(is_triangle_list(&shape));
    shape.spherify_mut(F(2.0));
    assert!(is_triangle_list(&shape));
    assert_eq!(shape.vertices.len(), 240);
}

#[test]
fn slice_rotate_turns_every_vertex_in_place() {
    let t = wedge();
    let angles = p([0.5, 0.25, -0.75]);
    let mut vertices = t.vertices.clone();
    vslice_rotate(&mut vertices[..], angles);
    let turned = t.rotate(angles);
    assert_eq!(vertices.len(), 3);
    for i in 0..3 {
        assert_eq!(vertices[i].position, turned.vertices[i].position);
        assert_eq!(vertices[i].texture, t.vertices[i].texture);
        assert_eq!(vertices[i].material_id, 7);
    }
}

#[test]
fn slice_rotate_touches_only_its_run() {
    let t = wedge();
    let angles = p([0.5, 0.25, -0.75]);
    let mut vertices = t.vertices.clone();
    vslice_rotate(&mut vertices[1..2], angles);
    assert_eq!(vertices[0].position, t.vertices[0].position);
    assert_eq!(vertices[1].position, protate(t.vertices[1].position, angles));
    assert_eq!(vertices[2].position, t.vertices[2].position);
}

#[test]
fn slice_rotate_turns_every_normal_in_place() {
    let t = wedge();
    let angles = p([0.5, 0.25, -0.75]);
    let mut ns = t.normals.clone();
    nslice_rotate(&mut ns[..], angles);
    let turned = t.rotate(angles);
    assert_eq!(ns.len(), 3);
    for i in 0..3 {
        assert_eq!(ns[i].normal, turned.normals[i].normal);
    }
}
