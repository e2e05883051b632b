use float_cmp::ApproxEq;
use float_cmp::F32Margin;
use rge_math::mat3::Mat3;
use rge_math::quat::Lead;
use rge_math::quat::Quat;
use rge_math::structure::Mat;
use rge_math::structure::SquareMat;
use rge_math::structure::VecSpace;
use rge_math::vec3::Vec3;

const PRECISION: F32Margin = F32Margin {
    ulps: 2,
    epsilon: 1e-3,
};

fn close3(a: Vec3<f32>, b: Vec3<f32>) -> bool {
    a.x.approx_eq(b.x, PRECISION) && a.y.approx_eq(b.y, PRECISION) && a.z.approx_eq(b.z, PRECISION)
}

fn close_mat(a: Mat3<f32>, b: Mat3<f32>) -> bool {
    close3(a.a, b.a) && close3(a.b, b.b) && close3(a.c, b.c)
}

fn close(a: Quat<f32>, b: Quat<f32>) -> bool {
    a.x.approx_eq(b.x, PRECISION)
        && a.y.approx_eq(b.y, PRECISION)
        && a.z.approx_eq(b.z, PRECISION)
        && a.w.approx_eq(b.w, PRECISION)
}

fn to_quat(m: &Mat3<f32>) -> Quat<f32> {
    let (lead, radicand) = Quat::radicand(m);
    Quat::from_mat3(m, lead, radicand.sqrt())
}

fn about(axis: Vec3<f32>, angle: f32) -> Quat<f32> {
    let axis = axis / axis.norm2().sqrt();
    let (s, c) = (angle * 0.5).sin_cos();
    Quat::new(axis.x * s, axis.y * s, axis.z * s, c)
}

#[test]
fn test_conversion() {
    let m: Mat3<f32> = Mat3::new(
        0.5403023, -0.841471, 0., //
        0.841471, 0.5403023, 0., //
        0., 0., 1.,
    );
    let (half_sin, half_cos) = 0.5_f32.sin_cos();
    let q = Quat::new(0., 0., half_sin, half_cos);
    assert!(close(q, to_quat(&m)));
}

#[test]
fn quat_new_works() {
    let q: Quat<f32> = Quat::new(1., 2., 3., 4.);
    assert_eq!([q.x, q.y, q.z, q.w], [1., 2., 3., 4.]);
}

#[test]
fn quat_vec_part_drops_w() {
    let q: Quat<f32> = Quat::new(1., 2., 3., 4.);
    assert_eq!(<[f32; 3]>::from(q.get_vec_part()), [1., 2., 3.]);
}

#[test]
fn quat_converts() {
    let mut q: Quat<f32> = Quat::new(1., 2., 3., 4.);
    let a = [1., 2., 3., 4.];

    assert_eq!(a, <[f32; 4]>::from(q));
    assert_eq!(a, <[f32; 4]>::from(&q));
    assert_eq!(a, <[f32; 4]>::from(&mut q));

    assert_eq!(a, <[f32; 4]>::from(Quat::from(a)));
    assert_eq!(a, <[f32; 4]>::from(Quat::from(&a)));
    assert_eq!(a, <[f32; 4]>::from(Quat::from(&mut [1., 2., 3., 4.])));
}

#[test]
fn quat_product_follows_hamilton() {
    let i: Quat<i32> = Quat::new(1, 0, 0, 0);
    let j: Quat<i32> = Quat::new(0, 1, 0, 0);
    let k: Quat<i32> = Quat::new(0, 0, 1, 0);
    let one: Quat<i32> = Quat::new(0, 0, 0, 1);
    assert_eq!(<[i32; 4]>::from(i * j), [0, 0, 1, 0]);
    assert_eq!(<[i32; 4]>::from(j * k), [1, 0, 0, 0]);
    assert_eq!(<[i32; 4]>::from(k * i), [0, 1, 0, 0]);
    assert_eq!(<[i32; 4]>::from(j * i), [0, 0, -1, 0]);
    assert_eq!(<[i32; 4]>::from(i * i), [0, 0, 0, -1]);
    assert_eq!(<[i32; 4]>::from(one * k), [0, 0, 1, 0]);
    let p: Quat<i32> = Quat::new(1, 2, 3, 4);
    let q: Quat<i32> = Quat::new(5, 6, 7, 8);
    assert_eq!(<[i32; 4]>::from(p * q), [24, 48, 48, -6]);
}

#[test]
fn quat_turns_a_vector() {
    let quarter_turn_about_z = about(Vec3::unit_z(), std::f32::consts::FRAC_PI_2);
    assert!(close3(
        Vec3::unit_x() * quarter_turn_about_z,
        Vec3::unit_y()
    ));
    assert!(close3(
        Vec3::unit_y() * quarter_turn_about_z,
        -Vec3::unit_x()
    ));
    assert!(close3(
        Vec3::unit_z() * quarter_turn_about_z,
        Vec3::unit_z()
    ));
}

#[test]
fn quat_turn_agrees_with_its_matrix() {
    let q = about(Vec3::new(1., 2., 3.), 0.5);
    let m = q.to_mat3();
    for v in [
        Vec3::unit_x(),
        Vec3::unit_y(),
        Vec3::unit_z(),
        Vec3::new(1., -2., 0.5),
    ] {
        assert!(close3(v * q, m * v));
    }
}

#[test]
fn quat_matrix_agrees_with_the_axis_rotation() {
    let (s, c) = 0.5_f32.sin_cos();
    let axis: Vec3<f32> = Vec3::new(1., 2., 3.);
    let axis = axis / axis.norm2().sqrt();
    assert!(close_mat(
        about(axis, 0.5).to_mat3(),
        Mat3::from_axis_angle(axis, s, c)
    ));
    assert!(close_mat(
        about(Vec3::unit_x(), 0.5).to_mat3(),
        Mat3::from_angle_x(s, c)
    ));
    assert!(close_mat(
        about(Vec3::unit_y(), 0.5).to_mat3(),
        Mat3::from_angle_y(s, c)
    ));
    assert!(close_mat(
        about(Vec3::unit_z(), 0.5).to_mat3(),
        Mat3::from_angle_z(s, c)
    ));
}

#[test]
fn identity_quaternion_gives_the_identity_matrix() {
    let m = Quat::<f32>::new(0., 0., 0., 1.).to_mat3();
    assert_eq!(
        <[[f32; 3]; 3]>::from(m),
        <[[f32; 3]; 3]>::from(Mat3::identity())
    );
    assert!(close(to_quat(&Mat3::identity()), Quat::new(0., 0., 0., 1.)));
}

#[test]
fn each_component_leads_in_turn() {
    let small = about(Vec3::new(1., 2., 3.), 0.5).to_mat3();
    assert_eq!(Quat::radicand(&small).0, Lead::W);
    let half_turn_x = about(Vec3::new(1., 0.1, 0.2), 3.1);
    assert_eq!(Quat::radicand(&half_turn_x.to_mat3()).0, Lead::X);
    let half_turn_y = about(Vec3::new(0.1, 1., 0.2), 3.1);
    assert_eq!(Quat::radicand(&half_turn_y.to_mat3()).0, Lead::Y);
    let half_turn_z = about(Vec3::new(0.1, 0.2, 1.), 3.1);
    assert_eq!(Quat::radicand(&half_turn_z.to_mat3()).0, Lead::Z);
}

#[test]
fn radicand_is_exact() {
    let w: Mat3<f32> = Mat3::from_diagonal(Vec3::new(1., 2., 3.));
    assert_eq!(Quat::radicand(&w), (Lead::W, 7.));
    let x: Mat3<f32> = Mat3::from_diagonal(Vec3::new(1., -2., -3.));
    assert_eq!(Quat::radicand(&x), (Lead::X, 7.));
    let y: Mat3<f32> = Mat3::from_diagonal(Vec3::new(-3., 2., -1.));
    assert_eq!(Quat::radicand(&y), (Lead::Y, 7.));
    let z: Mat3<f32> = Mat3::from_diagonal(Vec3::new(-3., -1., 2.));
    assert_eq!(Quat::radicand(&z), (Lead::Z, 7.));
    let tie: Mat3<f32> = Mat3::from_diagonal(Vec3::new(-1., -1., -1.));
    assert_eq!(Quat::radicand(&tie), (Lead::Z, 2.));
    let none: Mat3<f32> = Mat3::zero();
    assert_eq!(Quat::radicand(&none), (Lead::Z, 1.));
}

#[test]
fn from_mat3_places_the_leading_component() {
    let m: Mat3<f32> = Mat3::new(
        1., 2., 3., //
        4., 5., 6., //
        7., 8., 9.,
    );
    let w = Quat::from_mat3(&m, Lead::W, 2.);
    assert_eq!([w.x, w.y, w.z, w.w], [0.5, -1., 0.5, 1.]);
    let x = Quat::from_mat3(&m, Lead::X, 2.);
    assert_eq!([x.x, x.y, x.z, x.w], [1., 1.5, 2.5, 0.5]);
    let y = Quat::from_mat3(&m, Lead::Y, 2.);
    assert_eq!([y.x, y.y, y.z, y.w], [1.5, 1., 3.5, -1.]);
    let z = Quat::from_mat3(&m, Lead::Z, 2.);
    assert_eq!([z.x, z.y, z.z, z.w], [2.5, 3.5, 1., 0.5]);
}

#[test]
fn matrix_to_quaternion_and_back_reproduces_the_matrix() {
    for (axis, angle) in [
        (Vec3::new(1., 2., 3.), 0.5),
        (Vec3::new(1., 0., 0.), 3.),
        (Vec3::new(0., 1., 0.), 3.),
        (Vec3::new(0., 0., 1.), 3.),
        (Vec3::new(1., 0.1, 0.2), 3.1),
        (Vec3::new(0.1, 1., 0.2), 3.1),
        (Vec3::new(0.1, 0.2, 1.), 3.1),
        (Vec3::new(-1., 1., 1.), 2.),
        (Vec3::new(1., 1., -1.), -1.),
    ] {
        let q = about(axis, angle);
        let m = q.to_mat3();
        let back = to_quat(&m);
        assert!(close_mat(back.to_mat3(), m));
        let same = close(back, q);
        let opposite = close(back, Quat::new(-q.x, -q.y, -q.z, -q.w));
        assert!(same || opposite);
    }
}

#[test]
fn quat_product_composes_rotations() {
    let p = about(Vec3::new(1., 2., 3.), 0.5);
    let q = about(Vec3::new(-1., 0., 2.), 1.25);
    let v: Vec3<f32> = Vec3::new(0.3, -0.7, 1.1);
    assert!(close3(v * (p * q), (v * q) * p));
}
