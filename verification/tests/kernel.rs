use base3d::normal3d::Normal;
use base3d::point_transform3d::{
    plength, protate, protate_X, protate_Y, protate_Z, pscale, ptranslate, vcross,
};
use base3d::scalar::Scalar;
use base3d::vertex3d::Vertex;

#[derive(Clone, Copy, Debug, PartialEq)]
struct F(f32);

impl Scalar for F {
    fn from_ratio(num: i32, den: i32) -> Self {
        F(num as f32 / den as f32)
    }
    fn from_count(n: usize) -> Self {
        F(n as f32)
    }
    fn add(self, rhs: Self) -> Self {
        F(self.0 + rhs.0)
    }
    fn sub(self, rhs: Self) -> Self {
        F(self.0 - rhs.0)
    }
    fn mul(self, rhs: Self) -> Self {
        F(self.0 * rhs.0)
    }
    fn div(self, rhs: Self) -> Self {
        F(self.0 / rhs.0)
    }
    fn neg(self) -> Self {
        F(-self.0)
    }
    fn sqrt(self) -> Self {
        F(self.0.sqrt())
    }
    fn sin(self) -> Self {
        F(self.0.sin())
    }
    fn cos(self) -> Self {
        F(self.0.cos())
    }
    fn asin(self) -> Self {
        F(self.0.asin())
    }
    fn to_radians(self) -> Self {
        F(self.0.to_radians())
    }
    fn floor(self) -> Self {
        F(self.0.floor())
    }
    fn to_u8(self) -> u8 {
        self.0 as u8
    }
}

const EPS: f32 = 1e-6;

fn p(a: [f32; 3]) -> [F; 3] {
    [F(a[0]), F(a[1]), F(a[2])]
}

fn raw(a: [F; 3]) -> [f32; 3] {
    [a[0].0, a[1].0, a[2].0]
}

fn close(a: [F; 3], b: [f32; 3]) -> bool {
    (0..3).all(|k| (a[k].0 - b[k]).abs() <= EPS)
}

#[test]
fn scalar_constants_are_exact() {
    assert_eq!(F::from_ratio(1, 2), F(0.5));
    assert_eq!(F::from_ratio(-1, 4), F(-0.25));
    assert_eq!(F::from_ratio(150, 1), F(150.0));
    assert_eq!(F::from_count(36), F(36.0));
}

#[test]
fn rotate_x_quarter_turn_takes_y_to_z() {
    let r = protate_X(p([0.0, 1.0, 0.0]), F(std::f32::consts::FRAC_PI_2));
    assert!(close(r, [0.0, 0.0, 1.0]));
}

#[test]
fn rotate_y_quarter_turn_takes_x_to_minus_z() {
    let r = protate_Y(p([1.0, 0.0, 0.0]), F(std::f32::consts::FRAC_PI_2));
    assert!(close(r, [0.0, 0.0, -1.0]));
}

#[test]
fn rotate_z_quarter_turn_takes_x_to_y() {
    let r = protate_Z(p([1.0, 0.0, 0.0]), F(std::f32::consts::FRAC_PI_2));
    assert!(close(r, [0.0, 1.0, 0.0]));
}

#[test]
fn rotate_x_follows_the_closed_form() {
    let a = 0.3f32;
    let q = [1.5f32, -2.0, 0.25];
    let r = protate_X(p(q), F(a));
    let expected = [
        q[0],
        q[1] * a.cos() - q[2] * a.sin(),
        q[1] * a.sin() + q[2] * a.cos(),
    ];
    assert_eq!(raw(r), expected);
}

#[test]
fn rotate_y_follows_the_closed_form() {
    let a = -1.1f32;
    let q = [1.5f32, -2.0, 0.25];
    let r = protate_Y(p(q), F(a));
    let expected = [
        q[2] * a.sin() + q[0] * a.cos(),
        q[1],
        q[2] * a.cos() - q[0] * a.sin(),
    ];
    assert_eq!(raw(r), expected);
}

#[test]
fn rotate_z_follows_the_closed_form() {
    let a = 2.4f32;
    let q = [1.5f32, -2.0, 0.25];
    let r = protate_Z(p(q), F(a));
    let expected = [
        q[0] * a.cos() - q[1] * a.sin(),
        q[0] * a.sin() + q[1] * a.cos(),
        q[2],
    ];
    assert_eq!(raw(r), expected);
}

#[test]
fn rotate_keeps_the_axis_component() {
    let q = p([1.5, -2.0, 0.25]);
    assert_eq!(protate_X(q, F(0.7))[0], F(1.5));
    assert_eq!(protate_Y(q, F(0.7))[1], F(-2.0));
    assert_eq!(protate_Z(q, F(0.7))[2], F(0.25));
}

#[test]
fn composite_rotation_goes_x_then_y_then_z() {
    let h = std::f32::consts::FRAC_PI_2;
    // About x first: (0,1,0) -> (0,0,1); then about y: (0,0,1) -> (1,0,0).
    let r = protate(p([0.0, 1.0, 0.0]), p([h, h, 0.0]));
    assert!(close(r, [1.0, 0.0, 0.0]));
    // The other order would leave (0,1,0) alone about y and end at (0,0,1).
    let other = protate_X(protate_Y(p([0.0, 1.0, 0.0]), F(h)), F(h));
    assert!(close(other, [0.0, 0.0, 1.0]));
}

#[test]
fn composite_rotation_is_the_three_turns_chained() {
    let q = p([0.3, -1.2, 2.0]);
    let angles = p([0.4, -0.9, 1.7]);
    let chained = protate_Z(protate_Y(protate_X(q, angles[0]), angles[1]), angles[2]);
    assert_eq!(protate(q, angles), chained);
}

#[test]
fn translate_adds_componentwise() {
    let r = ptranslate(p([1.0, 2.0, 3.0]), p([0.5, -2.0, 10.0]));
    assert_eq!(raw(r), [1.5, 0.0, 13.0]);
}

#[test]
fn scale_multiplies_every_component() {
    let r = pscale(p([1.0, -2.0, 0.5]), F(3.0));
    assert_eq!(raw(r), [3.0, -6.0, 1.5]);
}

#[test]
fn length_is_the_euclidean_norm() {
    assert_eq!(plength(p([3.0, 4.0, 0.0])), F(5.0));
    assert_eq!(plength(p([1.0, 2.0, 2.0])), F(3.0));
    assert_eq!(plength(p([0.0, 0.0, 0.0])), F(0.0));
}

#[test]
fn cross_product_is_right_handed() {
    assert_eq!(raw(vcross(p([1.0, 0.0, 0.0]), p([0.0, 1.0, 0.0]))), [0.0, 0.0, 1.0]);
    assert_eq!(raw(vcross(p([0.0, 1.0, 0.0]), p([1.0, 0.0, 0.0]))), [0.0, 0.0, -1.0]);
    assert_eq!(raw(vcross(p([1.0, 2.0, 3.0]), p([4.0, 5.0, 6.0]))), [-3.0, 6.0, -3.0]);
}

#[test]
fn vertex_rotate_turns_the_position_only() {
    let v = Vertex { position: p([0.0, 1.0, 0.0]), texture: [F(0.25), F(0.75)], material_id: 7 };
    let r = v.rotate(p([std::f32::consts::FRAC_PI_2, 0.0, 0.0]));
    assert!(close(r.position, [0.0, 0.0, 1.0]));
    assert_eq!(r.position, protate(v.position, p([std::f32::consts::FRAC_PI_2, 0.0, 0.0])));
    assert_eq!(r.texture, [F(0.25), F(0.75)]);
    assert_eq!(r.material_id, 7);
}

#[test]
fn vertex_translate_moves_the_position_only() {
    let v = Vertex { position: p([1.0, 2.0, 3.0]), texture: [F(0.25), F(0.75)], material_id: 7 };
    let r = v.translate(p([1.0, -1.0, 0.5]));
    assert_eq!(raw(r.position), [2.0, 1.0, 3.5]);
    assert_eq!(r.texture, [F(0.25), F(0.75)]);
    assert_eq!(r.material_id, 7);
}

#[test]
fn vertex_scale_multiplies_the_position_only() {
    let v = Vertex { position: p([1.0, 2.0, 3.0]), texture: [F(0.25), F(0.75)], material_id: 7 };
    let r = v.scale(F(2.0));
    assert_eq!(raw(r.position), [2.0, 4.0, 6.0]);
    assert_eq!(r.texture, [F(0.25), F(0.75)]);
    assert_eq!(r.material_id, 7);
}

#[test]
fn normal_of_a_plane_is_the_cross_product_of_its_edges() {
    let n = Normal::normal([p([2.0, 0.0, 0.0]), p([0.0, 3.0, 0.0])]);
    assert_eq!(raw(n.normal), [0.0, 0.0, 6.0]);
    let m = Normal::normal([p([0.0, 3.0, 0.0]), p([2.0, 0.0, 0.0])]);
    assert_eq!(raw(m.normal), [0.0, 0.0, -6.0]);
}

#[test]
fn normal_rotate_turns_the_direction() {
    let n = Normal { normal: p([1.0, 0.0, 0.0]) };
    let r = n.rotate(p([0.0, 0.0, std::f32::consts::FRAC_PI_2]));
    assert!(close(r.normal, [0.0, 1.0, 0.0]));
}
