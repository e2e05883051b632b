use float_cmp::ApproxEq;
use float_cmp::F32Margin;
use rge_math::mat3::Mat3;
use rge_math::mat4::Mat4;
use rge_math::plane::Plane;
use rge_math::pt3::Pt3;
use rge_math::structure::EuclideanSpace;
use rge_math::structure::Mat;
use rge_math::structure::SquareMat;
use rge_math::transform4::T4Mul;
use rge_math::transform4::Transform4;
use rge_math::vec3::Vec3;
use rge_math::vec4::Vec4;

const PRECISION: F32Margin = F32Margin {
    ulps: 2,
    epsilon: 1e-3,
};

fn close4(a: Vec4<f32>, b: Vec4<f32>) -> bool {
    a.x.approx_eq(b.x, PRECISION)
        && a.y.approx_eq(b.y, PRECISION)
        && a.z.approx_eq(b.z, PRECISION)
        && a.w.approx_eq(b.w, PRECISION)
}

fn close(a: Mat4<f32>, b: Mat4<f32>) -> bool {
    close4(a.a, b.a) && close4(a.b, b.b) && close4(a.c, b.c) && close4(a.d, b.d)
}

fn counting() -> Mat4<f32> {
    Mat4::from([
        [1., 2., 3., 4.],
        [5., 6., 7., 8.],
        [9., 10., 11., 12.],
        [13., 14., 15., 16.],
    ])
}

#[test]
fn mat4_matrix_multiplication_works() {
    let m: Mat4<f32> = Mat4::from([
        [1., 2., 3., 4.],
        [5., 6., 7., 8.],
        [9., 10., 11., 12.],
        [13., 14., 15., 16.],
    ]);
    assert!(close(
        m * m.transpose(),
        [
            [30., 70., 110., 150.],
            [70., 174., 278., 382.],
            [110., 278., 446., 614.],
            [150., 382., 614., 846.]
        ]
        .into()
    ));
}

#[test]
fn transpose_works() {
    let m: Mat4<f32> = [
        [1., 2., 3., 4.],
        [5., 6., 7., 8.],
        [9., 10., 11., 12.],
        [13., 14., 15., 16.],
    ]
    .into();
    assert!(close(
        m.transpose(),
        [
            [1., 5., 9., 13.],
            [2., 6., 10., 14.],
            [3., 7., 11., 15.],
            [4., 8., 12., 16.]
        ]
        .into()
    ))
}

#[test]
fn test_inverse() {
    let mat4: Mat4<f32> = [
        [6., 1., 2., 4.],
        [4., 3., 3., 2.],
        [2., 5., 5., 6.],
        [8., 7., 6., 3.],
    ]
    .into();
    let inv = SquareMat::invert(&mat4).unwrap();
    let expected: Mat4<f32> = [
        [0.16, 0.28, -0.68, 0.28],
        [-0.26, -3.08, 4.48, -1.08],
        [-0.1, 0.2, -0.2, 0.2],
        [0.16, 1.28, -1.68, 0.28],
    ]
    .into();
    assert!(close(inv, expected));
}

#[test]
fn mat4_from_cols_works() {
    let m: Mat4<f32> = Mat4::from_columns(
        [1., 2., 3., 4.].into(),
        [5., 6., 7., 8.].into(),
        [9., 10., 11., 12.].into(),
        [13., 14., 15., 16.].into(),
    );
    assert_eq!(<[[f32; 4]; 4]>::from(m), <[[f32; 4]; 4]>::from(counting()));
    assert_eq!(<[f32; 4]>::from(m.a), [1., 2., 3., 4.]);
    assert_eq!(<[f32; 4]>::from(m.d), [13., 14., 15., 16.]);
}

#[test]
fn mat4_indexes() {
    let m = counting();
    let mut expected = 1.;
    for i in 0..4 {
        for j in 0..4 {
            assert_eq!(m[i][j], expected);
            expected += 1.;
        }
    }
}

#[test]
fn mat4_index_mut_writes_one_entry() {
    let mut m = counting();
    m[3][0] = 130.;
    assert_eq!(<[f32; 4]>::from(m.d), [130., 14., 15., 16.]);
    assert_eq!(<[f32; 4]>::from(m.c), [9., 10., 11., 12.]);
}

#[test]
fn mat4_converts() {
    let mut m = counting();
    let mut a = [
        [1., 2., 3., 4.],
        [5., 6., 7., 8.],
        [9., 10., 11., 12.],
        [13., 14., 15., 16.],
    ];
    assert!(close(m, a.into()));
    assert!(close(m, (&a).into()));
    assert!(close(m, (&mut a).into()));

    assert_eq!(a, <[[f32; 4]; 4]>::from(&m));
    assert_eq!(a, <[[f32; 4]; 4]>::from(&mut m));
    assert_eq!(a, <[[f32; 4]; 4]>::from(m));
}

#[test]
fn mat4_transposing_twice_gives_the_matrix_back() {
    let m = counting();
    assert_eq!(
        <[[f32; 4]; 4]>::from(m.transpose().transpose()),
        <[[f32; 4]; 4]>::from(m)
    );
}

#[test]
fn mat4_zero_and_identity() {
    assert_eq!(<[[f32; 4]; 4]>::from(Mat4::zero()), [[0.; 4]; 4]);
    assert_eq!(
        <[[f32; 4]; 4]>::from(Mat4::identity()),
        [
            [1., 0., 0., 0.],
            [0., 1., 0., 0.],
            [0., 0., 1., 0.],
            [0., 0., 0., 1.]
        ]
    );
}

#[test]
fn mat4_from_diagonal_fills_with_zero() {
    let m: Mat4<f32> = Mat4::from_diagonal(Vec4::new(1., 2., 3., 4.));
    assert_eq!(
        <[[f32; 4]; 4]>::from(m),
        [
            [1., 0., 0., 0.],
            [0., 2., 0., 0.],
            [0., 0., 3., 0.],
            [0., 0., 0., 4.]
        ]
    );
}

#[test]
fn mat4_determinant_by_cofactors() {
    assert_eq!(Mat4::<f32>::identity().determinant(), 1.);
    let d: Mat4<f32> = Mat4::from_diagonal(Vec4::new(2., 3., 4., 5.));
    assert_eq!(d.determinant(), 120.);
    assert_eq!(counting().determinant(), 0.);
    let m: Mat4<f32> = [
        [6., 1., 2., 4.],
        [4., 3., 3., 2.],
        [2., 5., 5., 6.],
        [8., 7., 6., 3.],
    ]
    .into();
    assert_eq!(m.determinant(), 50.);
    assert_eq!(m.transpose().determinant(), 50.);
    let swapped = Mat4::from_columns(m.b, m.a, m.c, m.d);
    assert_eq!(swapped.determinant(), -50.);
}

#[test]
fn mat4_determinant_is_exact_on_integers() {
    let m: Mat4<i64> = [[6, 1, 2, 4], [4, 3, 3, 2], [2, 5, 5, 6], [8, 7, 6, 3]].into();
    assert_eq!(m.determinant(), 50);
}

#[test]
fn mat4_singular_matrix_has_no_inverse() {
    assert!(SquareMat::invert(&counting()).is_none());
    assert!(SquareMat::invert(&Mat4::<f32>::zero()).is_none());
    let two_equal_columns: Mat4<f32> = [
        [1., 2., 3., 4.],
        [1., 2., 3., 4.],
        [0., 1., 0., 0.],
        [0., 0., 1., 0.],
    ]
    .into();
    assert!(SquareMat::invert(&two_equal_columns).is_none());
}

#[test]
fn mat4_inverse_columns_are_dual_to_the_columns() {
    let m: Mat4<f32> = [
        [6., 1., 2., 4.],
        [4., 3., 3., 2.],
        [2., 5., 5., 6.],
        [8., 7., 6., 3.],
    ]
    .into();
    let inv = SquareMat::invert(&m).unwrap();
    assert!(close(inv.transpose() * m, Mat4::identity()));
    assert!(close(m * inv.transpose(), Mat4::identity()));
}

#[test]
fn mat4_inverse_times_matrix_is_identity_for_symmetric_matrices() {
    let m: Mat4<f32> = [
        [2., 1., 0., 0.],
        [1., 3., 1., 0.],
        [0., 1., 4., 1.],
        [0., 0., 1., 5.],
    ]
    .into();
    let inv = SquareMat::invert(&m).unwrap();
    assert!(close(inv * m, Mat4::identity()));
    assert!(close(m * inv, Mat4::identity()));
}

#[test]
fn mat4_inverse_of_identity_is_identity() {
    let inv = SquareMat::invert(&Mat4::<f32>::identity()).unwrap();
    assert!(close(inv, Mat4::identity()));
}

#[test]
fn mat4_times_vector_takes_dot_products_with_the_columns() {
    let m = counting();
    assert_eq!(
        <[f32; 4]>::from(m * Vec4::new(1., 1., 1., 1.)),
        [10., 26., 42., 58.]
    );
    assert_eq!(
        <[f32; 4]>::from(m * Vec4::new(1., 0., 0., -1.)),
        [-3., -3., -3., -3.]
    );
}

#[test]
fn mat4_elementwise_operators() {
    let m = counting();
    let i: Mat4<f32> = Mat4::identity();
    assert_eq!(<[f32; 4]>::from((m + i).a), [2., 2., 3., 4.]);
    assert_eq!(<[f32; 4]>::from((m - i).d), [13., 14., 15., 15.]);
    assert_eq!(<[f32; 4]>::from((m * 2.).b), [10., 12., 14., 16.]);
    assert_eq!(<[f32; 4]>::from((m / 2.).c), [4.5, 5., 5.5, 6.]);
    assert_eq!(<[f32; 4]>::from((-m).a), [-1., -2., -3., -4.]);
    let mut n = m;
    n += i;
    n -= i;
    n *= 4.;
    n /= 4.;
    assert_eq!(<[[f32; 4]; 4]>::from(n), <[[f32; 4]; 4]>::from(m));
}

#[test]
fn transform_new_lays_lines_across_columns() {
    let m: Mat4<f32> = Transform4::new(
        1., 2., 3., 4., //
        5., 6., 7., 8., //
        9., 10., 11., 12.,
    );
    assert_eq!(
        <[[f32; 4]; 4]>::from(m),
        [
            [1., 5., 9., 0.],
            [2., 6., 10., 0.],
            [3., 7., 11., 0.],
            [4., 8., 12., 1.]
        ]
    );
}

#[test]
fn transform_from_columns_fixes_the_fourth_components() {
    let m: Mat4<f32> = Transform4::from_columns(
        Vec3::new(1., 2., 3.),
        Vec3::new(4., 5., 6.),
        Vec3::new(7., 8., 9.),
        Vec3::new(10., 11., 12.),
    );
    assert_eq!(
        <[[f32; 4]; 4]>::from(m),
        [
            [1., 2., 3., 0.],
            [4., 5., 6., 0.],
            [7., 8., 9., 0.],
            [10., 11., 12., 1.]
        ]
    );
}

#[test]
fn transform_translation_reads_the_last_column() {
    let m = counting();
    assert_eq!(<[f32; 3]>::from(m.get_translation()), [13., 14., 15.]);
}

#[test]
fn transform_set_translation_touches_nothing_else() {
    let mut m = counting();
    m.set_translation(Vec3::new(-1., -2., -3.));
    assert_eq!(
        <[[f32; 4]; 4]>::from(m),
        [
            [1., 2., 3., 4.],
            [5., 6., 7., 8.],
            [9., 10., 11., 12.],
            [-1., -2., -3., 16.]
        ]
    );
    assert_eq!(<[f32; 3]>::from(m.get_translation()), [-1., -2., -3.]);
}

#[test]
fn transform_inverse_of_a_translation() {
    let m: Mat4<f32> = Transform4::from_columns(
        Vec3::unit_x(),
        Vec3::unit_y(),
        Vec3::unit_z(),
        Vec3::new(1., 2., 3.),
    );
    let inv = Transform4::invert(&m).unwrap();
    assert_eq!(
        <[[f32; 4]; 4]>::from(inv),
        [
            [1., 0., 0., 0.],
            [0., 1., 0., 0.],
            [0., 0., 1., 0.],
            [-1., -2., -3., 1.]
        ]
    );
    assert_eq!(<[f32; 3]>::from(inv.get_translation()), [-1., -2., -3.]);
}

#[test]
fn transform_inverse_is_exact_on_integers() {
    let m: Mat4<i32> = Transform4::from_columns(
        Vec3::new(1, 0, 0),
        Vec3::new(1, 1, 0),
        Vec3::new(0, 1, 1),
        Vec3::new(4, 5, 6),
    );
    let inv = Transform4::invert(&m).unwrap();
    assert_eq!(
        <[[i32; 4]; 4]>::from(inv),
        [[1, 0, 0, 0], [-1, 1, 0, 0], [1, -1, 1, 0], [-5, 1, -6, 1]]
    );
    let i: Mat4<i32> = Mat4::identity();
    assert_eq!(
        <[[i32; 4]; 4]>::from(T4Mul::mul(&inv, &m)),
        <[[i32; 4]; 4]>::from(i)
    );
    assert_eq!(
        <[[i32; 4]; 4]>::from(T4Mul::mul(&m, &inv)),
        <[[i32; 4]; 4]>::from(i)
    );
}

#[test]
fn transform_inverse_is_the_matrix_inverse_transposed() {
    let m: Mat4<i32> = Transform4::from_columns(
        Vec3::new(1, 0, 0),
        Vec3::new(1, 1, 0),
        Vec3::new(0, 1, 1),
        Vec3::new(4, 5, 6),
    );
    let as_transform = Transform4::invert(&m).unwrap();
    let as_matrix = SquareMat::invert(&m).unwrap();
    assert_eq!(
        <[[i32; 4]; 4]>::from(as_transform),
        <[[i32; 4]; 4]>::from(as_matrix.transpose())
    );
}

#[test]
fn transform_inverse_undoes_the_transform() {
    let m: Mat4<f32> = Transform4::from_columns(
        Vec3::new(2., 0., -1.),
        Vec3::new(5., 1., 0.),
        Vec3::new(0., 1., 3.),
        Vec3::new(1., -2., 4.),
    );
    let inv = Transform4::invert(&m).unwrap();
    assert!(close(
        inv,
        [
            [3., -1., 1., 0.],
            [-15., 6., -5., 0.],
            [5., -2., 2., 0.],
            [-53., 21., -19., 1.]
        ]
        .into()
    ));
    assert!(close(T4Mul::mul(&inv, &m), Mat4::identity()));
    assert!(close(T4Mul::mul(&m, &inv), Mat4::identity()));
}

#[test]
fn transform_inverse_sets_the_fixed_line_anew() {
    let inv = Transform4::invert(&Mat4::<f32>::from([
        [1., 0., 0., 7.],
        [0., 1., 0., 8.],
        [0., 0., 1., 9.],
        [1., 2., 3., 10.],
    ]))
    .unwrap();
    assert_eq!(
        <[[f32; 4]; 4]>::from(inv),
        [
            [1., 0., 0., 0.],
            [0., 1., 0., 0.],
            [0., 0., 1., 0.],
            [-1., -2., -3., 1.]
        ]
    );
}

#[test]
fn transform_inverse_of_a_scaling() {
    let m: Mat4<f32> = Transform4::from_columns(
        Vec3::new(2., 0., 0.),
        Vec3::new(0., 4., 0.),
        Vec3::new(0., 0., 8.),
        Vec3::zero(),
    );
    let inv = Transform4::invert(&m).unwrap();
    assert!(close(
        inv,
        Mat4::from_diagonal(Vec4::new(0.5, 0.25, 0.125, 1.))
    ));
}

#[test]
fn transform_with_flat_linear_part_has_no_inverse() {
    let m: Mat4<f32> = Transform4::from_columns(
        Vec3::new(1., 2., 3.),
        Vec3::new(2., 4., 6.),
        Vec3::new(0., 0., 1.),
        Vec3::new(5., 5., 5.),
    );
    assert!(Transform4::invert(&m).is_none());
}

#[test]
fn transform_reflection_across_a_coordinate_plane() {
    let m: Mat4<f32> = Transform4::make_reflection(&Plane::new(0., 0., 1., -2.));
    assert_eq!(
        <[[f32; 4]; 4]>::from(m),
        [
            [1., 0., 0., 0.],
            [0., 1., 0., 0.],
            [0., 0., -1., 0.],
            [0., 0., 4., 1.]
        ]
    );
}

#[test]
fn transform_reflection_across_a_slanted_plane() {
    let n = Vec3::new(1., 2., 2.) / 3.;
    let m: Mat4<f32> = Transform4::make_reflection(&Plane::new(n.x, n.y, n.z, 3.));
    assert!(close(
        m,
        [
            [7. / 9., -4. / 9., -4. / 9., 0.],
            [-4. / 9., 1. / 9., -8. / 9., 0.],
            [-4. / 9., -8. / 9., 1. / 9., 0.],
            [-2., -4., -4., 1.]
        ]
        .into()
    ));
}

#[test]
fn transform_composition_keeps_the_fixed_line() {
    let b = counting();
    let r = T4Mul::mul(&b, &b);
    assert_eq!(
        <[[f32; 4]; 4]>::from(r),
        [
            [38., 44., 50., 0.],
            [98., 116., 134., 0.],
            [158., 188., 218., 0.],
            [231., 274., 317., 1.]
        ]
    );
}

#[test]
fn transform_composition_with_the_identity_is_neutral() {
    let i: Mat4<f32> = Mat4::identity();
    let a: Mat4<f32> = Transform4::new(
        1., 2., 3., 4., //
        5., 6., 7., 8., //
        9., 10., 11., 12.,
    );
    assert_eq!(
        <[[f32; 4]; 4]>::from(T4Mul::mul(&i, &a)),
        <[[f32; 4]; 4]>::from(a)
    );
    assert_eq!(
        <[[f32; 4]; 4]>::from(T4Mul::mul(&a, &i)),
        <[[f32; 4]; 4]>::from(a)
    );
    let t: Mat4<f32> = Transform4::from_columns(
        Vec3::unit_x(),
        Vec3::unit_y(),
        Vec3::unit_z(),
        Vec3::new(1., 2., 3.),
    );
    assert_eq!(
        <[f32; 3]>::from(T4Mul::mul(&i, &t).get_translation()),
        [1., 2., 3.]
    );
    assert_eq!(
        <[f32; 3]>::from(T4Mul::mul(&t, &i).get_translation()),
        [1., 2., 3.]
    );
}

#[test]
fn transform_composition_applies_the_right_factor_first() {
    let s: Mat4<f32> = Mat4::from_diagonal(Vec4::new(2., 2., 2., 1.));
    let t: Mat4<f32> = Transform4::from_columns(
        Vec3::unit_x(),
        Vec3::unit_y(),
        Vec3::unit_z(),
        Vec3::new(1., 2., 3.),
    );
    assert_eq!(
        <[[f32; 4]; 4]>::from(T4Mul::mul(&s, &t)),
        [
            [2., 0., 0., 0.],
            [0., 2., 0., 0.],
            [0., 0., 2., 0.],
            [2., 4., 6., 1.]
        ]
    );
    assert_eq!(
        <[[f32; 4]; 4]>::from(T4Mul::mul(&t, &s)),
        [
            [2., 0., 0., 0.],
            [0., 2., 0., 0.],
            [0., 0., 2., 0.],
            [1., 2., 3., 1.]
        ]
    );
}

#[test]
fn transform_composition_has_the_product_of_the_linear_parts() {
    let a: Mat4<f32> = Transform4::new(
        1., 2., 3., 4., //
        5., 6., 7., 8., //
        9., 10., 11., 12.,
    );
    let b: Mat4<f32> = Transform4::new(
        0., 1., 0., -1., //
        2., 0., 1., -2., //
        0., 3., 1., -3.,
    );
    let r = T4Mul::mul(&a, &b);
    let la = Mat3::from_columns(a.a.xyz(), a.b.xyz(), a.c.xyz());
    let lb = Mat3::from_columns(b.a.xyz(), b.b.xyz(), b.c.xyz());
    let l = la * lb;
    assert_eq!(<[f32; 3]>::from(r.a.xyz()), <[f32; 3]>::from(l.a));
    assert_eq!(<[f32; 3]>::from(r.b.xyz()), <[f32; 3]>::from(l.b));
    assert_eq!(<[f32; 3]>::from(r.c.xyz()), <[f32; 3]>::from(l.c));
    assert_eq!(
        <[[f32; 4]; 4]>::from(r),
        [
            [4., 12., 20., 0.],
            [10., 26., 42., 0.],
            [5., 13., 21., 0.],
            [-10., -30., -50., 1.]
        ]
    );
}

#[test]
fn transform_applied_to_a_plane() {
    let f: Plane<f32> = Plane::new(1., 2., 3., 4.);
    let i: Mat4<f32> = Mat4::identity();
    let g = T4Mul::mul(&i, &f);
    assert_eq!([g.x, g.y, g.z, g.d], [1., 2., 3., 4.]);
    let g = T4Mul::mul(&counting(), &f);
    assert_eq!([g.x, g.y, g.z, g.d], [14., 38., 62., 90.]);
}

#[test]
fn plane_carried_by_a_translation() {
    let f: Plane<f32> = Plane::new(0., 0., 1., -3.);
    let h: Mat4<f32> = Transform4::from_columns(
        Vec3::unit_x(),
        Vec3::unit_y(),
        Vec3::unit_z(),
        Vec3::new(0., 0., 5.),
    );
    let g = T4Mul::mul(&h, &f);
    assert_eq!([g.x, g.y, g.z, g.d], [0., 0., 1., 2.]);
}

#[test]
fn plane_carried_holds_the_points_that_land_on_the_plane() {
    let f: Plane<i32> = Plane::new(1, -2, 3, 4);
    let h: Mat4<i32> = Transform4::new(
        1, 2, 0, 5, //
        0, 1, 3, -1, //
        2, 0, 1, 2,
    );
    let g = T4Mul::mul(&h, &f);
    let p = Pt3::new(3, -1, 2);
    let image = Pt3::new(
        1 * p.x + 2 * p.y + 0 * p.z + 5,
        0 * p.x + 1 * p.y + 3 * p.z - 1,
        2 * p.x + 0 * p.y + 1 * p.z + 2,
    );
    assert_eq!(g.dot(&p), f.dot(&image));
    assert_eq!([g.x, g.y, g.z, g.d], [7, 0, -3, 17]);
}
