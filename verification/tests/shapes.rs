use base3d::point_transform3d::{protate_Y, pscale, ptranslate, vcross};
use base3d::scalar::Scalar;
use base3d::shape3d::Shape3D;
use base3d::normal3d::Normal;
use base3d::shapes::{
    combine_shapes, AShape, Cube, Icosahedron, Quad, Sphere, Tetrahedron, Triangle,
};
use base3d::vertex3d::Vertex;

#[derive(Clone, Copy, Debug, PartialEq)]
struct F(f32);

impl Scalar for F {
    fn from_ratio(num: i32, den: i32) -> Self {
        F(num as f32 / den as f32)
    }
    fn from_count(n: usize) -> Self {
        F(n as f32)
    }
    fn add(self, rhs: Self) -> Self {
        F(self.0 + rhs.0)
    }
    fn sub(self, rhs: Self) -> Self {
        F(self.0 - rhs.0)
    }
    fn mul(self, rhs: Self) -> Self {
        F(self.0 * rhs.0)
    }
    fn div(self, rhs: Self) -> Self {
        F(self.0 / rhs.0)
    }
    fn neg(self) -> Self {
        F(-self.0)
    }
    fn sqrt(self) -> Self {
        F(self.0.sqrt())
    }
    fn sin(self) -> Self {
        F(self.0.sin())
    }
    fn cos(self) -> Self {
        F(self.0.cos())
    }
    fn asin(self) -> Self {
        F(self.0.asin())
    }
    fn to_radians(self) -> Self {
        F(self.0.to_radians())
    }
    fn floor(self) -> Self {
        F(self.0.floor())
    }
    fn to_u8(self) -> u8 {
        self.0 as u8
    }
}

fn p(a: [f32; 3]) -> [F; 3] {
    [F(a[0]), F(a[1]), F(a[2])]
}

fn raw(a: [F; 3]) -> [f32; 3] {
    [a[0].0, a[1].0, a[2].0]
}

fn positions(shape: &AShape<F>) -> Vec<[f32; 3]> {
    shape.vertices.iter().map(|v| raw(v.position)).collect()
}

fn textures(shape: &AShape<F>) -> Vec<[f32; 2]> {
    shape.vertices.iter().map(|v| [v.texture[0].0, v.texture[1].0]).collect()
}

fn normals(shape: &AShape<F>) -> Vec<[f32; 3]> {
    shape.normals.iter().map(|n| raw(n.normal)).collect()
}

fn distance(a: [f32; 3], b: [f32; 3]) -> f32 {
    ((a[0] - b[0]).powi(2) + (a[1] - b[1]).powi(2) + (a[2] - b[2]).powi(2)).sqrt()
}

fn is_triangle_list(shape: &AShape<F>) -> bool {
    shape.vertices.len() == shape.normals.len() && shape.vertices.len() % 3 == 0
}

#[test]
fn quad_in_the_xy_plane() {
    let quad = Quad::new(p([0.0, 0.0, 0.0]), [p([1.0, 0.0, 0.0]), p([0.0, 1.0, 0.0])], 5);
    assert_eq!(
        positions(&quad),
        vec![
            [0.0, 0.0, 0.0],
            [1.0, 0.0, 0.0],
            [1.0, 1.0, 0.0],
            [0.0, 0.0, 0.0],
            [1.0, 1.0, 0.0],
            [0.0, 1.0, 0.0],
        ]
    );
    assert_eq!(normals(&quad), vec![[0.0, 0.0, 1.0]; 6]);
    assert_eq!(
        textures(&quad),
        vec![[0.0, 0.0], [1.0, 0.0], [1.0, 1.0], [0.0, 0.0], [1.0, 1.0], [0.0, 1.0]]
    );
    assert!(quad.vertices.iter().all(|v| v.material_id == 5));
}

#[test]
fn quad_is_a_parallelogram_from_its_corner() {
    let quad = Quad::new(p([1.0, 2.0, 3.0]), [p([2.0, 0.0, 1.0]), p([0.0, 4.0, -1.0])], 1);
    assert_eq!(
        positions(&quad),
        vec![
            [1.0, 2.0, 3.0],
            [3.0, 2.0, 4.0],
            [3.0, 6.0, 3.0],
            [1.0, 2.0, 3.0],
            [3.0, 6.0, 3.0],
            [1.0, 6.0, 2.0],
        ]
    );
    let n = raw(vcross(p([2.0, 0.0, 1.0]), p([0.0, 4.0, -1.0])));
    assert_eq!(n, [-4.0, 2.0, 8.0]);
    assert_eq!(normals(&quad), vec![n; 6]);
}

#[test]
fn triangle_over_three_points() {
    let t = Triangle::new([p([0.0, 0.0, 0.0]), p([2.0, 0.0, 0.0]), p([0.0, 3.0, 0.0])], 9);
    assert_eq!(positions(&t), vec![[0.0, 0.0, 0.0], [2.0, 0.0, 0.0], [0.0, 3.0, 0.0]]);
    assert_eq!(textures(&t), vec![[0.0, 1.0], [1.0, 1.0], [0.5, 0.0]]);
    assert_eq!(normals(&t), vec![[0.0, 0.0, 6.0]; 3]);
    assert!(t.vertices.iter().all(|v| v.material_id == 9));
}

#[test]
fn triangle_normal_uses_edges_from_the_first_point() {
    let a = [1.0f32, 1.0, 1.0];
    let b = [2.0f32, 3.0, 1.0];
    let c = [0.0f32, 1.0, 5.0];
    let t = Triangle::new([p(a), p(b), p(c)], 0);
    let e1 = [b[0] - a[0], b[1] - a[1], b[2] - a[2]];
    let e2 = [c[0] - a[0], c[1] - a[1], c[2] - a[2]];
    let n = raw(vcross(p(e1), p(e2)));
    assert_eq!(n, [8.0, -4.0, 2.0]);
    assert_eq!(normals(&t), vec![n; 3]);
}

#[test]
fn cube_fills_the_unit_box() {
    let cube = Cube::new(p([0.0, 0.0, 0.0]), F(1.0), 0);
    assert_eq!(cube.vertices.len(), 36);
    assert_eq!(cube.normals.len(), 36);
    let ps = positions(&cube);
    for k in 0..3 {
        let lo = ps.iter().map(|q| q[k]).fold(f32::INFINITY, f32::min);
        let hi = ps.iter().map(|q| q[k]).fold(f32::NEG_INFINITY, f32::max);
        assert_eq!(lo, 0.0);
        assert_eq!(hi, 1.0);
    }
    assert!(ps.iter().all(|q| q.iter().all(|&x| x == 0.0 || x == 1.0)));
}

#[test]
fn cube_faces_come_top_bottom_front_rear_left_right() {
    let cube = Cube::new(p([1.0, 2.0, 3.0]), F(2.0), 4);
    let ps = positions(&cube);
    // Each face lies in one plane, and starts at its own corner.
    assert!(ps[0..6].iter().all(|q| q[1] == 4.0));
    assert!(ps[6..12].iter().all(|q| q[1] == 2.0));
    assert!(ps[12..18].iter().all(|q| q[2] == 3.0));
    assert!(ps[18..24].iter().all(|q| q[2] == 5.0));
    assert!(ps[24..30].iter().all(|q| q[0] == 1.0));
    assert!(ps[30..36].iter().all(|q| q[0] == 3.0));
    assert_eq!(ps[0], [1.0, 4.0, 3.0]);
    assert_eq!(ps[6], [1.0, 2.0, 5.0]);
    assert_eq!(ps[12], [1.0, 2.0, 3.0]);
    assert_eq!(ps[18], [3.0, 2.0, 5.0]);
    assert_eq!(ps[24], [1.0, 2.0, 5.0]);
    assert_eq!(ps[30], [3.0, 2.0, 3.0]);
    // The normal of a face is the cross product of its two edges.
    let ns = normals(&cube);
    assert_eq!(ns[0], raw(vcross(p([2.0, 0.0, 0.0]), p([0.0, 0.0, 2.0]))));
    assert_eq!(ns[6], raw(vcross(p([2.0, 0.0, 0.0]), p([0.0, 0.0, -2.0]))));
    assert_eq!(ns[12], [0.0, 0.0, 4.0]);
    assert_eq!(ns[18], [0.0, 0.0, -4.0]);
    assert_eq!(ns[24], raw(vcross(p([0.0, 0.0, -2.0]), p([0.0, 2.0, 0.0]))));
    assert_eq!(ns[30], raw(vcross(p([0.0, 0.0, 2.0]), p([0.0, 2.0, 0.0]))));
    assert!(cube.vertices.iter().all(|v| v.material_id == 4));
}

#[test]
fn cube_is_six_quads_joined() {
    let cube = Cube::new(p([0.0, 0.0, 0.0]), F(1.0), 0);
    let front = Quad::new(p([0.0, 0.0, 0.0]), [p([1.0, 0.0, 0.0]), p([0.0, 1.0, 0.0])], 0);
    assert_eq!(positions(&cube)[12..18].to_vec(), positions(&front));
    assert_eq!(normals(&cube)[12..18].to_vec(), normals(&front));
    assert_eq!(textures(&cube)[12..18].to_vec(), textures(&front));
}

#[test]
fn tetrahedron_has_four_faces_over_four_corners() {
    let c = [1.0f32, 2.0, 3.0];
    let r = 2.0f32;
    let t = Tetrahedron::new(p(c), F(r), 3);
    assert_eq!(t.vertices.len(), 12);
    assert_eq!(t.normals.len(), 12);

    let base = p([(0.25f32).asin().cos(), -0.25, 0.0]);
    let corner =
        |deg: f32| raw(ptranslate(pscale(protate_Y(base, F(deg.to_radians())), F(r)), p(c)));
    let a0 = corner(150.0);
    let a1 = corner(30.0);
    let a2 = corner(-90.0);
    let apex = [c[0], c[1] + r, c[2]];
    assert_eq!(
        positions(&t),
        vec![a0, a1, apex, a1, a2, apex, a2, a0, apex, a0, a2, a1]
    );
    assert!(t.vertices.iter().all(|v| v.material_id == 3));
    // The three base corners lie a quarter of the radius below the center.
    for q in [a0, a1, a2] {
        assert!((q[1] - (c[1] - 0.25 * r)).abs() < 1e-6);
    }
}

#[test]
fn icosahedron_has_twenty_faces() {
    let ico = Icosahedron::new(p([0.0, 0.0, 0.0]), F(1.0), 0);
    assert_eq!(ico.vertices.len(), 60);
    assert_eq!(ico.normals.len(), 60);
    assert!(is_triangle_list(&ico));
}

#[test]
fn icosahedron_corners_are_made_of_the_golden_ratio() {
    let ico = Icosahedron::new(p([0.0, 0.0, 0.0]), F(1.0), 2);
    let phi = 0.5f32 + 5.0f32.sqrt() * 0.5;
    let v1 = 1.0 / phi;
    let ps = positions(&ico);
    // Face 0 runs over (0, v1, -1), (v1, 1, 0), (-v1, 1, 0).
    let eps = 1e-6;
    assert!(distance(ps[0], [0.0, v1, -1.0]) < eps);
    assert!(distance(ps[1], [v1, 1.0, 0.0]) < eps);
    assert!(distance(ps[2], [-v1, 1.0, 0.0]) < eps);
    // Face 19 runs over (0, -v1, 1), (1, 0, v1), (v1, -1, 0).
    assert!(distance(ps[57], [0.0, -v1, 1.0]) < eps);
    assert!(distance(ps[58], [1.0, 0.0, v1]) < eps);
    assert!(distance(ps[59], [v1, -1.0, 0.0]) < eps);
    // All corners lie equally far from the center.
    let d = (1.0 + v1 * v1).sqrt();
    assert!(ps.iter().all(|q| (distance(*q, [0.0; 3]) - d).abs() < eps));
    assert!(ico.vertices.iter().all(|v| v.material_id == 2));
}

#[test]
fn icosahedron_is_scaled_and_then_moved() {
    let c = [3.0f32, -1.0, 2.0];
    let ico = Icosahedron::new(p(c), F(2.0), 0);
    let unit = Icosahedron::new(p([0.0, 0.0, 0.0]), F(1.0), 0);
    let ps = positions(&ico);
    let us = positions(&unit);
    for (q, u) in ps.iter().zip(us.iter()) {
        let expected = [2.0 * u[0] + c[0], 2.0 * u[1] + c[1], 2.0 * u[2] + c[2]];
        assert!(distance(*q, expected) < 1e-5);
    }
    // Scaling and moving leave the normals as they were.
    assert_eq!(normals(&ico), normals(&unit));
}

#[test]
fn icosahedron_every_edge_is_shared_by_two_faces() {
    let ico = Icosahedron::new(p([0.0, 0.0, 0.0]), F(1.0), 0);
    let ps = positions(&ico);
    let same = |a: [f32; 3], b: [f32; 3]| distance(a, b) < 1e-6;
    for t in 0..20 {
        for e in 0..3 {
            let a = ps[3 * t + e];
            let b = ps[3 * t + (e + 1) % 3];
            let mut count = 0;
            for u in 0..20 {
                for f in 0..3 {
                    let c = ps[3 * u + f];
                    let d = ps[3 * u + (f + 1) % 3];
                    if (same(a, c) && same(b, d)) || (same(a, d) && same(b, c)) {
                        count += 1;
                    }
                }
            }
            assert_eq!(count, 2);
        }
    }
}

#[test]
fn sphere_of_precision_two() {
    let sphere = Sphere::new(p([0.0, 0.0, 0.0]), F(2.0), 2, 0);
    assert_eq!(sphere.vertices.len(), 960);
    assert_eq!(sphere.normals.len(), 960);
    for q in positions(&sphere) {
        assert!((distance(q, [0.0; 3]) - 2.0).abs() < 1e-4);
    }
}

#[test]
fn sphere_of_precision_zero_is_the_icosahedron() {
    let sphere = Sphere::new(p([1.0, 1.0, 1.0]), F(3.0), 0, 6);
    let ico = Icosahedron::new(p([1.0, 1.0, 1.0]), F(3.0), 6);
    assert_eq!(positions(&sphere), positions(&ico));
    assert_eq!(normals(&sphere), normals(&ico));
}

#[test]
fn sphere_of_negative_precision_is_the_icosahedron() {
    let sphere = Sphere::new(p([0.0, 0.0, 0.0]), F(1.0), -3, 0);
    let ico = Icosahedron::new(p([0.0, 0.0, 0.0]), F(1.0), 0);
    assert_eq!(positions(&sphere), positions(&ico));
}

#[test]
fn sphere_grows_fourfold_with_each_step() {
    for (precision, triangles) in [(0, 20), (1, 80), (2, 320), (3, 1280)] {
        let sphere = Sphere::new(p([0.0, 0.5, 0.0]), F(0.5), precision, 0);
        assert_eq!(sphere.vertices.len(), 3 * triangles);
        assert!(is_triangle_list(&sphere));
    }
}

#[test]
fn sphere_is_the_icosahedron_refined() {
    let mut shape = Icosahedron::new(p([0.0, 0.3, 0.0]), F(0.1), 0);
    shape.subdivide_mut();
    shape.spherify_mut(F(0.1));
    let sphere = Sphere::new(p([0.0, 0.3, 0.0]), F(0.1), 1, 0);
    assert_eq!(positions(&sphere), positions(&shape));
    assert_eq!(normals(&sphere), normals(&shape));
}

#[test]
fn combine_keeps_the_order_of_its_parts() {
    let a = Triangle::new([p([0.0, 0.0, 0.0]), p([1.0, 0.0, 0.0]), p([0.0, 1.0, 0.0])], 1);
    let b = Triangle::new([p([5.0, 5.0, 5.0]), p([5.0, 6.0, 5.0]), p([5.0, 5.0, 7.0])], 2);
    let both = combine_shapes(vec![&a, &b]);
    assert_eq!(both.vertices.len(), 6);
    let mut expected = positions(&a);
    expected.extend(positions(&b));
    assert_eq!(positions(&both), expected);
    let mut expected = normals(&a);
    expected.extend(normals(&b));
    assert_eq!(normals(&both), expected);
    let ids: Vec<i32> = both.vertices.iter().map(|v| v.material_id).collect();
    assert_eq!(ids, vec![1, 1, 1, 2, 2, 2]);
}

#[test]
fn combine_of_nothing_is_empty() {
    let none: AShape<F> = combine_shapes(Vec::new());
    assert!(none.vertices.is_empty());
    assert!(none.normals.is_empty());
}

#[test]
fn combine_does_not_merge_equal_vertices() {
    let a = Triangle::new([p([0.0, 0.0, 0.0]), p([1.0, 0.0, 0.0]), p([0.0, 1.0, 0.0])], 1);
    let both = combine_shapes(vec![&a, &a, &a]);
    assert_eq!(both.vertices.len(), 9);
    assert_eq!(both.normals.len(), 9);
}

#[test]
fn every_primitive_is_a_triangle_list() {
    let o = p([0.0, 0.0, 0.0]);
    assert!(is_triangle_list(&Triangle::new([o, p([1.0, 0.0, 0.0]), p([0.0, 1.0, 0.0])], 0)));
    assert!(is_triangle_list(&Quad::new(o, [p([1.0, 0.0, 0.0]), p([0.0, 1.0, 0.0])], 0)));
    assert!(is_triangle_list(&Cube::new(o, F(1.0), 0)));
    assert!(is_triangle_list(&Tetrahedron::new(o, F(1.0), 0)));
    assert!(is_triangle_list(&Icosahedron::new(o, F(1.0), 0)));
    assert!(is_triangle_list(&Sphere::new(o, F(1.0), 1, 0)));
}

#[test]
fn shape_accessors_reach_the_lists() {
    let mut t = Triangle::new([p([0.0, 0.0, 0.0]), p([1.0, 0.0, 0.0]), p([0.0, 1.0, 0.0])], 0);
    assert_eq!(t.get_vertices().len(), 3);
    assert_eq!(t.get_normals().len(), 3);
    t.get_mut_vertices().clear();
    t.get_mut_normals().clear();
    assert!(t.vertices.is_empty());
    assert!(t.normals.is_empty());
}

fn some_vertices(n: usize) -> Vec<Vertex<F>> {
    (0..n)
        .map(|k| Vertex {
            position: p([k as f32, 0.0, 0.0]),
            texture: [F(0.0), F(0.0)],
            material_id: 0,
        })
        .collect()
}

fn some_normals(n: usize) -> Vec<Normal<F>> {
    (0..n).map(|_| Normal { normal: p([0.0, 0.0, 1.0]) }).collect()
}

#[test]
fn shape_of_matching_lists_is_made() {
    let shape = AShape::new(some_vertices(6), some_normals(6)).unwrap();
    assert_eq!(shape.vertices.len(), 6);
    assert_eq!(shape.normals.len(), 6);
    assert_eq!(raw(shape.vertices[4].position), [4.0, 0.0, 0.0]);
    assert!(shape.is_triangle_list());
    let empty = AShape::new(some_vertices(0), some_normals(0)).unwrap();
    assert!(empty.is_triangle_list());
}

#[test]
fn shape_of_lists_of_different_length_is_refused() {
    assert!(AShape::new(some_vertices(6), some_normals(3)).is_none());
    assert!(AShape::new(some_vertices(3), some_normals(6)).is_none());
    assert!(AShape::new(some_vertices(0), some_normals(3)).is_none());
}

#[test]
fn shape_of_broken_triangles_is_refused() {
    assert!(AShape::new(some_vertices(4), some_normals(4)).is_none());
    assert!(AShape::new(some_vertices(5), some_normals(5)).is_none());
    assert!(AShape::new(some_vertices(1), some_normals(1)).is_none());
}

#[test]
fn triangle_list_check_sees_what_is_in_the_lists() {
    let mut shape = Cube::new(p([0.0, 0.0, 0.0]), F(1.0), 0);
    assert!(shape.is_triangle_list());
    shape.normals.pop();
    assert!(!shape.is_triangle_list());
    shape.vertices.pop();
    assert!(!shape.is_triangle_list());
    shape.vertices.truncate(33);
    shape.normals.truncate(33);
    assert!(shape.is_triangle_list());
}
