use float_cmp::ApproxEq;
use float_cmp::F32Margin;
use rge_math::mat3::Mat3;
use rge_math::structure::Mat;
use rge_math::structure::SquareMat;
use rge_math::structure::VecSpace;
use rge_math::vec3::Vec3;

const PRECISION: F32Margin = F32Margin {
    ulps: 2,
    epsilon: 1e-3,
};

fn close3(a: Vec3<f32>, b: Vec3<f32>) -> bool {
    a.x.approx_eq(b.x, PRECISION) && a.y.approx_eq(b.y, PRECISION) && a.z.approx_eq(b.z, PRECISION)
}

fn close(a: Mat3<f32>, b: Mat3<f32>) -> bool {
    close3(a.a, b.a) && close3(a.b, b.b) && close3(a.c, b.c)
}

fn normalize(v: Vec3<f32>) -> Vec3<f32> {
    v / v.norm2().sqrt()
}

#[test]
fn mat3_new_works() {
    let m: Mat3<f32> = Mat3::new(
        1., 2., 3., //
        4., 5., 6., //
        7., 8., 9.,
    );
    assert!(close3(m[0], [1., 2., 3.].into()));
    assert!(close3(m[1], [4., 5., 6.].into()));
    assert!(close3(m[2], [7., 8., 9.].into()));
}

#[test]
fn from_cols_works() {
    let m: Mat3<f32> = Mat3::from_columns(
        [1., 2., 3.].into(), //
        [4., 5., 6.].into(), //
        [7., 8., 9.].into(),
    );
    assert!(close3(m[0], [1., 2., 3.].into()));
    assert!(close3(m[1], [4., 5., 6.].into()));
    assert!(close3(m[2], [7., 8., 9.].into()));
}

#[test]
fn mat3_converts() {
    let mut m: Mat3<f32> = Mat3::new(
        1., 2., 3., //
        4., 5., 6., //
        7., 8., 9.,
    );
    let mut a = [[1., 2., 3.], [4., 5., 6.], [7., 8., 9.]];
    assert!(close(m, a.into()));
    assert!(close(m, (&a).into()));
    assert!(close(m, (&mut a).into()));

    let mb = &m;
    assert_eq!(a, <&Mat3<f32> as Into<[[f32; 3]; 3]>>::into(mb));
    let mb = &mut m;
    assert_eq!(a, <&mut Mat3<f32> as Into<[[f32; 3]; 3]>>::into(mb));
    assert_eq!(a, <Mat3<f32> as Into<[[f32; 3]; 3]>>::into(m));
}

#[test]
fn mat3_indexes() {
    let m: Mat3<f32> = Mat3::new(
        1., 2., 3., //
        4., 5., 6., //
        7., 8., 9.,
    );
    assert_eq!(m[0][0], 1.);
    assert_eq!(m[0][1], 2.);
    assert_eq!(m[0][2], 3.);
    assert_eq!(m[1][0], 4.);
    assert_eq!(m[1][1], 5.);
    assert_eq!(m[1][2], 6.);
    assert_eq!(m[2][0], 7.);
    assert_eq!(m[2][1], 8.);
    assert_eq!(m[2][2], 9.);
}

#[test]
fn mat3_matrix_multiplication_works() {
    let m: Mat3<f32> = Mat3::new(
        1., 2., 3., //
        4., 5., 6., //
        7., 8., 9.,
    );
    let m2 = m * m;
    assert!(close(
        m2,
        Mat3::new(
            30., 36., 42., //
            66., 81., 96., //
            102., 126., 150.,
        )
    ))
}

#[test]
fn transposes() {
    let m: Mat3<f32> = Mat3::new(
        1., 2., 3., //
        4., 5., 6., //
        7., 8., 9.,
    );
    assert!(close(
        m.transpose(),
        [
            [1., 4., 7.], //
            [2., 5., 8.], //
            [3., 6., 9.],
        ]
        .into()
    ));
}

#[test]
fn calculates_determinant() {
    let m: Mat3<f32> = Mat3::new(
        1., 2., 3., //
        4., 5., 6., //
        7., 8., 9.,
    );
    assert_eq!(m.determinant(), 0.);
}

#[test]
fn calculates_inverse() {
    let m: Mat3<f32> = Mat3::new(
        2., 0., -1., //
        5., 1., 0., //
        0., 1., 3.,
    );
    assert!(close(
        m.invert().unwrap(),
        [
            [3., -15., 5.], //
            [-1., 6., -2.], //
            [1., -5., 2.]
        ]
        .into()
    ));
}

#[test]
fn make_rotation_x_works() {
    let (s, c) = 0.5_f32.sin_cos();
    let mat3 = Mat3::from_angle_x(s, c);
    assert!(close(
        mat3,
        [
            [1., 0., 0.],
            [0., 0.87758255, -0.47942555],
            [0., 0.47942555, 0.87758255]
        ]
        .into()
    ));
}

#[test]
fn make_rotation_y_works() {
    let (s, c) = 0.5_f32.sin_cos();
    let mat3 = Mat3::from_angle_y(s, c);
    assert!(close(
        mat3,
        [
            [0.87758255, 0., 0.47942555],
            [0., 1., 0.],
            [-0.47942555, 0., 0.87758255]
        ]
        .into()
    ));
}

#[test]
fn make_rotation_z_works() {
    let (s, c) = 0.5_f32.sin_cos();
    let mat3 = Mat3::from_angle_z(s, c);
    assert!(close(
        mat3,
        [
            [0.87758255, -0.47942555, 0.],
            [0.47942555, 0.87758255, 0.],
            [0., 0., 1.]
        ]
        .into()
    ));
}

#[test]
fn make_rotation_works() {
    let (s, c) = 0.5_f32.sin_cos();
    let mat3 = Mat3::from_axis_angle(normalize(Vec3::new(1., 2., 3.)), s, c);
    assert!(close(
        mat3,
        [
            [0.8863267, -0.3669074, 0.282496],
            [0.4018838, 0.912559, -0.0756672],
            [-0.2300314, 0.1805965, 0.9562795]
        ]
        .into()
    ));
}

#[test]
fn make_reflection_works() {
    let mat3 = Mat3::make_reflection(normalize(Vec3::new(1., 2., 3.)));
    assert!(close(
        mat3,
        [
            [6. / 7., -2. / 7., -3. / 7.],
            [-2. / 7., 3. / 7., -6. / 7.],
            [-3. / 7., -6. / 7., -2. / 7.]
        ]
        .into()
    ));
}

#[test]
fn make_involution_works() {
    let mat3 = Mat3::make_involution(normalize(Vec3::new(1., 2., 3.)));
    assert!(close(
        mat3,
        [
            [-6. / 7., 2. / 7., 3. / 7.],
            [2. / 7., -3. / 7., 6. / 7.],
            [3. / 7., 6. / 7., 2. / 7.]
        ]
        .into()
    ));
}

#[test]
fn make_scale_works() {
    let mat3: Mat3<f32> = Mat3::make_scale(Vec3::new(1., 2., 3.));
    assert!(close(mat3, [[1., 0., 0.], [0., 2., 0.], [0., 0., 3.]].into()));
}

#[test]
fn make_scale_along_works() {
    let mat3 = Mat3::make_scale_along(2., normalize(Vec3::new(1., 2., 3.)));
    assert!(close(
        mat3,
        [
            [15. / 14., 1. / 7., 3. / 14.],
            [1. / 7., 9. / 7., 3. / 7.],
            [3. / 14., 3. / 7., 23. / 14.]
        ]
        .into()
    ));
}

#[test]
fn rotation_about_x_turns_y_towards_z() {
    let (s, c) = 0.5_f32.sin_cos();
    let turned = Mat3::from_angle_x(s, c) * Vec3::new(0., 1., 0.);
    assert!(close3(turned, Vec3::new(0., 0.87758, 0.47943)));
    assert_eq!(<[f32; 3]>::from(turned), [0., c, s]);
}

#[test]
fn rotation_about_an_axis_agrees_with_the_axis_rotations() {
    let (s, c) = 0.5_f32.sin_cos();
    assert!(close(Mat3::from_axis_angle(Vec3::unit_x(), s, c), Mat3::from_angle_x(s, c)));
    assert!(close(Mat3::from_axis_angle(Vec3::unit_y(), s, c), Mat3::from_angle_y(s, c)));
    assert!(close(Mat3::from_axis_angle(Vec3::unit_z(), s, c), Mat3::from_angle_z(s, c)));
}

#[test]
fn singular_matrix_has_no_inverse() {
    let two_equal_columns: Mat3<f32> = Mat3::new(
        1., 2., 3., //
        1., 2., 3., //
        0., 1., 0.,
    );
    assert!(two_equal_columns.invert().is_none());
    let zero: Mat3<f32> = Mat3::zero();
    assert!(zero.invert().is_none());
    let counting: Mat3<f32> = Mat3::new(1., 2., 3., 4., 5., 6., 7., 8., 9.);
    assert!(counting.invert().is_none());
}

#[test]
fn nearly_singular_matrix_is_still_inverted() {
    let m: Mat3<f32> = Mat3::from_diagonal(Vec3::new(1e-20, 1., 1.));
    let inv = m.invert().unwrap();
    assert_eq!(inv.a.x, 1. / 1e-20_f32);
}

#[test]
fn inverse_is_exact_on_integers() {
    let m: Mat3<i64> = Mat3::new(2, 0, -1, 5, 1, 0, 0, 1, 3);
    assert_eq!(m.determinant(), 1);
    assert_eq!(
        <[[i64; 3]; 3]>::from(m.invert().unwrap()),
        [[3, -15, 5], [-1, 6, -2], [1, -5, 2]]
    );
}

#[test]
fn inverse_columns_are_dual_to_the_columns() {
    let m: Mat3<f32> = Mat3::new(
        2., 0., -1., //
        5., 1., 0., //
        0., 1., 3.,
    );
    let inv = m.invert().unwrap();
    assert!(close(inv.transpose() * m, Mat3::identity()));
    assert!(close(m * inv.transpose(), Mat3::identity()));
}

#[test]
fn inverse_times_matrix_is_identity_for_symmetric_matrices() {
    let d: Mat3<f32> = Mat3::from_diagonal(Vec3::new(2., 4., 8.));
    assert!(close(d.invert().unwrap() * d, Mat3::identity()));
    let m: Mat3<f32> = Mat3::new(
        2., 1., 0., //
        1., 3., 1., //
        0., 1., 4.,
    );
    assert!(close(m.invert().unwrap() * m, Mat3::identity()));
    assert!(close(m * m.invert().unwrap(), Mat3::identity()));
}

#[test]
fn determinant_of_a_diagonal_matrix_is_the_product() {
    let m: Mat3<f32> = Mat3::from_diagonal(Vec3::new(2., 3., 4.));
    assert_eq!(m.determinant(), 24.);
    assert_eq!(Mat3::<f32>::identity().determinant(), 1.);
}

#[test]
fn mat3_transposing_twice_gives_the_matrix_back() {
    let m: Mat3<f32> = Mat3::new(2., 0., -1., 5., 1., 0., 0., 1., 3.);
    assert_eq!(
        <[[f32; 3]; 3]>::from(m.transpose().transpose()),
        <[[f32; 3]; 3]>::from(m)
    );
}

#[test]
fn mat3_zero_and_identity() {
    assert_eq!(<[[f32; 3]; 3]>::from(Mat3::zero()), [[0.; 3]; 3]);
    assert_eq!(
        <[[f32; 3]; 3]>::from(Mat3::identity()),
        [[1., 0., 0.], [0., 1., 0.], [0., 0., 1.]]
    );
}

#[test]
fn mat3_from_diagonal_fills_with_zero() {
    let m: Mat3<i32> = Mat3::from_diagonal(Vec3::new(1, 2, 3));
    assert_eq!(<[[i32; 3]; 3]>::from(m), [[1, 0, 0], [0, 2, 0], [0, 0, 3]]);
}

#[test]
fn mat3_product_is_not_commutative() {
    let a: Mat3<i32> = Mat3::new(1, 2, 0, 0, 1, 0, 0, 0, 1);
    let b: Mat3<i32> = Mat3::new(1, 0, 0, 3, 1, 0, 0, 0, 1);
    assert_eq!(<[[i32; 3]; 3]>::from(a * b), [[1, 2, 0], [3, 7, 0], [0, 0, 1]]);
    assert_eq!(<[[i32; 3]; 3]>::from(b * a), [[7, 2, 0], [3, 1, 0], [0, 0, 1]]);
}

#[test]
fn mat3_mul_assign_multiplies_in_place() {
    let mut m: Mat3<f32> = Mat3::new(1., 2., 3., 4., 5., 6., 7., 8., 9.);
    m *= m;
    assert_eq!(
        <[[f32; 3]; 3]>::from(m),
        [[30., 36., 42.], [66., 81., 96.], [102., 126., 150.]]
    );
}

#[test]
fn mat3_times_vector_takes_dot_products_with_the_columns() {
    let m: Mat3<f32> = Mat3::new(1., 2., 3., 4., 5., 6., 7., 8., 9.);
    assert_eq!(<[f32; 3]>::from(m * Vec3::new(1., 0., -1.)), [-2., -2., -2.]);
    assert_eq!(<[f32; 3]>::from(m * Vec3::new(1., 1., 1.)), [6., 15., 24.]);
}

#[test]
fn mat3_elementwise_operators() {
    let m: Mat3<f32> = Mat3::new(1., 2., 3., 4., 5., 6., 7., 8., 9.);
    let i: Mat3<f32> = Mat3::identity();
    assert_eq!(
        <[[f32; 3]; 3]>::from(m + i),
        [[2., 2., 3.], [4., 6., 6.], [7., 8., 10.]]
    );
    assert_eq!(
        <[[f32; 3]; 3]>::from(m - i),
        [[0., 2., 3.], [4., 4., 6.], [7., 8., 8.]]
    );
    assert_eq!(
        <[[f32; 3]; 3]>::from(m * 2.),
        [[2., 4., 6.], [8., 10., 12.], [14., 16., 18.]]
    );
    assert_eq!(
        <[[f32; 3]; 3]>::from(m / 2.),
        [[0.5, 1., 1.5], [2., 2.5, 3.], [3.5, 4., 4.5]]
    );
    assert_eq!(
        <[[f32; 3]; 3]>::from(-m),
        [[-1., -2., -3.], [-4., -5., -6.], [-7., -8., -9.]]
    );
    let mut n = m;
    n += i;
    n -= i;
    n *= 4.;
    n /= 4.;
    assert_eq!(<[[f32; 3]; 3]>::from(n), <[[f32; 3]; 3]>::from(m));
}

#[test]
fn reflection_sends_the_normal_to_its_negative() {
    let n = normalize(Vec3::new(1., 2., 3.));
    let r = Mat3::make_reflection(n);
    assert!(close3(r * n, -n));
    assert!(close(r * r, Mat3::identity()));
}

#[test]
fn involution_keeps_the_axis() {
    let n = normalize(Vec3::new(1., 2., 3.));
    let r = Mat3::make_involution(n);
    assert!(close3(r * n, n));
    assert!(close(r * r, Mat3::identity()));
}

#[test]
fn scale_along_stretches_the_axis_only() {
    let n = normalize(Vec3::new(1., 2., 3.));
    let m = Mat3::make_scale_along(2., n);
    assert!(close3(m * n, n * 2.));
    let across = n.cross(&Vec3::unit_x());
    assert!(close3(m * across, across));
}

#[test]
fn mat3_index_mut_writes_one_entry() {
    let mut m: Mat3<f32> = Mat3::new(1., 2., 3., 4., 5., 6., 7., 8., 9.);
    m[1][2] = 60.;
    assert_eq!(
        <[[f32; 3]; 3]>::from(m),
        [[1., 2., 3.], [4., 5., 60.], [7., 8., 9.]]
    );
    m[2] = Vec3::new(70., 80., 90.);
    assert_eq!(
        <[[f32; 3]; 3]>::from(m),
        [[1., 2., 3.], [4., 5., 60.], [70., 80., 90.]]
    );
}
