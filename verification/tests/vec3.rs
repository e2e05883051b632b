use float_cmp::ApproxEq;
use float_cmp::F32Margin;
use rge_math::structure::EuclideanSpace;
use rge_math::structure::VecSpace;
use rge_math::vec3::Vec3;
use rge_math::vec4::Vec4;

const PRECISION: F32Margin = F32Margin {
    ulps: 2,
    epsilon: 1e-3,
};

fn close(a: Vec3<f32>, b: Vec3<f32>) -> bool {
    a.x.approx_eq(b.x, PRECISION) && a.y.approx_eq(b.y, PRECISION) && a.z.approx_eq(b.z, PRECISION)
}

fn norm(v: Vec3<f32>) -> f32 {
    v.norm2().sqrt()
}

fn normalize(v: Vec3<f32>) -> Vec3<f32> {
    v / norm(v)
}

#[test]
fn vec3_new_works() {
    assert!(close(
        Vec3::new(1., 2., 3.),
        Vec3 {
            x: 1.,
            y: 2.,
            z: 3.
        }
    ));
}

#[test]
fn vec3_converts() {
    let mut v: Vec3<f32> = Vec3::new(1., 2., 3.);

    assert!(close(v, [1., 2., 3.].into()));
    assert!(close(v, (&[1., 2., 3.]).into()));
    assert!(close(v, (&mut [1., 2., 3.]).into()));

    let a = [1., 2., 3.];
    assert_eq!(a, <Vec3<f32> as Into<[f32; 3]>>::into(v));
    let vb = &v;
    assert_eq!(a, <&Vec3<f32> as Into<[f32; 3]>>::into(vb));
    let vb = &mut v;
    assert_eq!(a, <&mut Vec3<f32> as Into<[f32; 3]>>::into(vb));
}

#[test]
fn vec3_indexes() {
    let v: Vec3<f32> = Vec3::new(1., 2., 3.);
    assert_eq!(v[0], 1.);
    assert_eq!(v[1], 2.);
    assert_eq!(v[2], 3.);
}

#[test]
fn normalizes() {
    let v: Vec3<f32> = Vec3::new(1., 2., 3.);
    let n = normalize(v);
    assert!(n.norm2().approx_eq(1., PRECISION));
}

#[test]
fn zero_works() {
    assert!(close(Vec3::zero(), Vec3::new(0., 0., 0.)));
}

#[test]
fn neg_works() {
    assert!(close(-Vec3::new(1., 2., 3.), Vec3::new(-1., -2., -3.)));
}

#[test]
fn add_works() {
    assert!(close(
        Vec3::new(1., 2., 3.) + Vec3::new(4., 5., 6.),
        Vec3::new(5., 7., 9.)
    ));
}

#[test]
fn add_assign_works() {
    let mut vec3: Vec3<f32> = Vec3::new(1., 2., 3.);
    vec3 += Vec3::new(4., 5., 6.);
    assert!(close(vec3, Vec3::new(5., 7., 9.)));
}

#[test]
fn sub_works() {
    assert!(close(
        Vec3::new(1., 2., 3.) - Vec3::new(4., 5., 6.),
        Vec3::new(-3., -3., -3.)
    ));
}

#[test]
fn sub_assign_works() {
    let mut vec3: Vec3<f32> = Vec3::new(1., 2., 3.);
    vec3 -= Vec3::new(4., 5., 6.);
    assert!(close(vec3, Vec3::new(-3., -3., -3.)));
}

#[test]
fn mul_works() {
    assert!(close(Vec3::new(1., 2., 3.) * 2., Vec3::new(2., 4., 6.)));
}

#[test]
fn mul_assign_works() {
    let mut vec3: Vec3<f32> = Vec3::new(1., 2., 3.);
    vec3 *= 2.;
    assert!(close(vec3, Vec3::new(2., 4., 6.)));
}

#[test]
fn div_works() {
    assert!(close(Vec3::new(1., 2., 3.) / 2., Vec3::new(0.5, 1., 1.5)));
}

#[test]
fn div_assign_works() {
    let mut vec3: Vec3<f32> = Vec3::new(1., 2., 3.);
    vec3 /= 2.;
    assert!(close(vec3, Vec3::new(0.5, 1., 1.5)));
}

#[test]
fn sqr_magnitude_works() {
    assert_eq!(Vec3::<f32>::new(1., 2., 3.).norm2(), 14.);
}

#[test]
fn magnitude_works() {
    assert_eq!(norm(Vec3::new(1., 2., 3.)), 14_f32.sqrt());
}

#[test]
fn normalize_works() {
    let v: Vec3<f32> = Vec3::new(1., 2., 3.);
    assert!(close(normalize(v), v / 14_f32.sqrt()));
}

#[test]
fn dot_works() {
    assert_eq!(Vec3::<f32>::new(1., 2., 3.).dot(&Vec3::new(4., 5., 6.)), 32.);
}

#[test]
fn cross_works() {
    assert!(close(
        Vec3::new(1., 2., 3.).cross(&Vec3::new(4., 5., 6.)),
        Vec3::new(-3., 6., -3.)
    ));
}

#[test]
fn project_works() {
    assert!(close(
        Vec3::new(1., 2., 3.).project_on(&Vec3::new(4., 5., 6.)),
        Vec3::new(4., 5., 6.) * (32. / 77.)
    ));
}

#[test]
fn reject_works() {
    assert!(close(
        Vec3::new(1., 2., 3.).reject_on(&Vec3::new(4., 5., 6.)),
        Vec3::new(1., 2., 3.) - Vec3::new(4., 5., 6.) * (32. / 77.)
    ));
}

#[test]
fn cross_is_exact_on_integers() {
    let c: Vec3<i64> = Vec3::new(1, 2, 3).cross(&Vec3::new(4, 5, 6));
    assert_eq!(<[i64; 3]>::from(c), [-3, 6, -3]);
}

#[test]
fn cross_is_right_handed() {
    let x: Vec3<f32> = Vec3::unit_x();
    let y: Vec3<f32> = Vec3::unit_y();
    let z: Vec3<f32> = Vec3::unit_z();
    assert_eq!(<[f32; 3]>::from(x.cross(&y)), [0., 0., 1.]);
    assert_eq!(<[f32; 3]>::from(y.cross(&z)), [1., 0., 0.]);
    assert_eq!(<[f32; 3]>::from(z.cross(&x)), [0., 1., 0.]);
    assert_eq!(<[f32; 3]>::from(y.cross(&x)), [0., 0., -1.]);
}

#[test]
fn units_and_zero_hold_ones_and_zeros() {
    assert_eq!(<[f32; 3]>::from(Vec3::zero()), [0., 0., 0.]);
    assert_eq!(<[f32; 3]>::from(Vec3::unit_x()), [1., 0., 0.]);
    assert_eq!(<[f32; 3]>::from(Vec3::unit_y()), [0., 1., 0.]);
    assert_eq!(<[f32; 3]>::from(Vec3::unit_z()), [0., 0., 1.]);
    assert_eq!(<[f32; 4]>::from(Vec4::zero()), [0., 0., 0., 0.]);
    assert_eq!(<[f32; 4]>::from(Vec4::unit_x()), [1., 0., 0., 0.]);
    assert_eq!(<[f32; 4]>::from(Vec4::unit_y()), [0., 1., 0., 0.]);
    assert_eq!(<[f32; 4]>::from(Vec4::unit_z()), [0., 0., 1., 0.]);
    assert_eq!(<[f32; 4]>::from(Vec4::unit_w()), [0., 0., 0., 1.]);
}

#[test]
fn normalized_vector_has_length_one() {
    for v in [
        Vec3::new(1., 2., 3.),
        Vec3::new(-4., 0.5, 0.),
        Vec3::new(0., 0., 1e-3),
        Vec3::new(300., -200., 100.),
    ] {
        assert!(norm(normalize(v)).approx_eq(1., PRECISION));
    }
}

#[test]
fn normalizing_the_zero_vector_gives_no_number() {
    let n = normalize(Vec3::zero());
    assert!(n.x.is_nan() && n.y.is_nan() && n.z.is_nan());
}

#[test]
fn projection_and_rejection_sum_to_the_vector() {
    let v: Vec3<f32> = Vec3::new(1., 2., 3.);
    let on: Vec3<f32> = Vec3::new(4., 5., 6.);
    assert!(close(v.project_on(&on) + v.reject_on(&on), v));
}

#[test]
fn projection_and_rejection_sum_only_nearly_where_numbers_round() {
    let v: Vec3<f32> = Vec3::new(100., 0.2, 3.);
    let on: Vec3<f32> = Vec3::new(0.1, 0.1, 0.1);
    let sum = v.project_on(&on) + v.reject_on(&on);
    assert!(close(sum, v));
    assert!(sum.y != v.y);
}

#[test]
fn projection_and_rejection_sum_exactly_on_integers() {
    let v: Vec3<i64> = Vec3::new(7, -3, 12);
    let on: Vec3<i64> = Vec3::new(2, 5, -1);
    let sum = v.project_on(&on) + v.reject_on(&on);
    assert_eq!(<[i64; 3]>::from(sum), [7, -3, 12]);
}

#[test]
fn rejection_is_orthogonal() {
    let v: Vec3<f32> = Vec3::new(1., 2., 3.);
    let on: Vec3<f32> = Vec3::new(4., 5., 6.);
    assert!(v.reject_on(&on).dot(&on).approx_eq(0., PRECISION));
}

#[test]
fn projecting_on_the_zero_vector_gives_no_number() {
    let v: Vec3<f32> = Vec3::new(1., 2., 3.);
    let p = v.project_on(&Vec3::zero());
    assert!(p.x.is_nan() && p.y.is_nan() && p.z.is_nan());
}

#[test]
fn projection_on_an_axis_keeps_one_component() {
    let v: Vec3<f32> = Vec3::new(3., -4., 5.);
    assert_eq!(<[f32; 3]>::from(v.project_on(&Vec3::unit_y())), [0., -4., 0.]);
    assert_eq!(<[f32; 3]>::from(v.reject_on(&Vec3::unit_y())), [3., 0., 5.]);
}

#[test]
fn division_goes_by_the_reciprocal() {
    let v: Vec3<f32> = Vec3::new(1., 2., 3.);
    let inv = 1. / 3_f32;
    assert_eq!(<[f32; 3]>::from(v / 3.), [1. * inv, 2. * inv, 3. * inv]);
}

#[test]
fn division_by_zero_propagates() {
    let v: Vec3<f32> = Vec3::new(1., -2., 0.) / 0.;
    assert_eq!(v.x, f32::INFINITY);
    assert_eq!(v.y, f32::NEG_INFINITY);
    assert!(v.z.is_nan());
}

#[test]
fn vec3_index_mut_writes_one_component() {
    let mut v: Vec3<i32> = Vec3::new(1, 2, 3);
    v[1] = 20;
    assert_eq!(<[i32; 3]>::from(v), [1, 20, 3]);
    v[0] = 10;
    v[2] = 30;
    assert_eq!(<[i32; 3]>::from(v), [10, 20, 30]);
}

#[test]
fn vec3_extend_appends_w() {
    let v: Vec3<f32> = Vec3::new(1., 2., 3.);
    assert_eq!(<[f32; 4]>::from(v.extend(4.)), [1., 2., 3., 4.]);
    assert_eq!(<[f32; 4]>::from(v.extend(0.)), [1., 2., 3., 0.]);
}

#[test]
fn vec3_clone_is_a_copy() {
    let v: Vec3<f32> = Vec3::new(1., 2., 3.);
    let c = v.clone();
    assert_eq!(<[f32; 3]>::from(v), <[f32; 3]>::from(c));
}
