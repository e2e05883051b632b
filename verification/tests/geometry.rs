use float_cmp::ApproxEq;
use float_cmp::F32Margin;
use rge_math::geometry::intersect_line_plane;
use rge_math::geometry::intersect_three_planes;
use rge_math::geometry::intersect_two_planes;
use rge_math::geometry::sqr_dst_line_line;
use rge_math::geometry::sqr_dst_pt_line;
use rge_math::plane::Plane;
use rge_math::pt3::Pt3;
use rge_math::scalar::exceeds;
use rge_math::scalar::lit;
use rge_math::structure::EuclideanSpace;
use rge_math::vec3::Vec3;

const PRECISION: F32Margin = F32Margin {
    ulps: 2,
    epsilon: 1e-3,
};

const TINY: f32 = f32::MIN_POSITIVE;

fn near(a: f32, b: f32) -> bool {
    a.approx_eq(b, PRECISION)
}

#[test]
fn magnitude_test_is_razor_thin() {
    assert!(exceeds(1_f32, TINY));
    assert!(exceeds(-1_f32, TINY));
    assert!(exceeds(1e-30_f32, TINY));
    assert!(exceeds(-1e-30_f32, TINY));
    assert!(exceeds(2. * TINY, TINY));
    assert!(!exceeds(TINY, TINY));
    assert!(!exceeds(-TINY, TINY));
    assert!(!exceeds(0_f32, TINY));
    assert!(!exceeds(-0_f32, TINY));
    assert!(!exceeds(f32::NAN, TINY));
    assert!(exceeds(f32::INFINITY, TINY));
    assert!(exceeds(f32::NEG_INFINITY, TINY));
}

#[test]
fn magnitude_test_on_integers() {
    assert!(exceeds(5_i64, 3));
    assert!(exceeds(-5_i64, 3));
    assert!(!exceeds(3_i64, 3));
    assert!(!exceeds(-3_i64, 3));
    assert!(!exceeds(0_i64, 0));
}

#[test]
fn small_integers_are_taken_up() {
    assert_eq!(lit::<f32>(0), 0.);
    assert_eq!(lit::<f32>(1), 1.);
    assert_eq!(lit::<f32>(-2), -2.);
    assert_eq!(lit::<i64>(4), 4);
    assert_eq!(lit::<f64>(-1), -1.);
}

#[test]
fn point_to_line_distance() {
    let q: Pt3<f32> = Pt3::new(0., 3., 4.);
    let p: Pt3<f32> = Pt3::new(-7., 0., 0.);
    let v: Vec3<f32> = Vec3::new(2., 0., 0.);
    assert_eq!(sqr_dst_pt_line(&q, &p, &v), 25.);
    assert_eq!(sqr_dst_pt_line(&q, &p, &v).sqrt(), 5.);
    let on_the_line: Pt3<f32> = Pt3::new(11., 0., 0.);
    assert_eq!(sqr_dst_pt_line(&on_the_line, &p, &v), 0.);
}

#[test]
fn point_to_line_distance_with_no_direction_is_no_number() {
    let q: Pt3<f32> = Pt3::new(0., 3., 4.);
    let p: Pt3<f32> = Pt3::new(-7., 0., 0.);
    assert!(sqr_dst_pt_line(&q, &p, &Vec3::zero()).is_nan());
}

#[test]
fn distance_between_skew_lines() {
    let p1: Pt3<f32> = Pt3::new(0., 0., 0.);
    let v1: Vec3<f32> = Vec3::new(1., 0., 0.);
    let p2: Pt3<f32> = Pt3::new(0., 0., 3.);
    let v2: Vec3<f32> = Vec3::new(0., 1., 0.);
    assert!(near(sqr_dst_line_line(&p1, &v1, &p2, &v2, TINY), 9.));
    let p2: Pt3<f32> = Pt3::new(5., -2., 3.);
    let v2: Vec3<f32> = Vec3::new(1., 1., 0.);
    assert!(near(sqr_dst_line_line(&p1, &v1, &p2, &v2, TINY), 9.));
}

#[test]
fn distance_between_crossing_lines_is_zero() {
    let p1: Pt3<f32> = Pt3::new(1., 1., 1.);
    let v1: Vec3<f32> = Vec3::new(1., 0., 0.);
    let p2: Pt3<f32> = Pt3::new(3., 5., 1.);
    let v2: Vec3<f32> = Vec3::new(0., 1., 0.);
    assert!(near(sqr_dst_line_line(&p1, &v1, &p2, &v2, TINY), 0.));
}

#[test]
fn distance_between_parallel_lines() {
    let p1: Pt3<f32> = Pt3::new(0., 0., 0.);
    let v1: Vec3<f32> = Vec3::new(2., 0., 0.);
    let p2: Pt3<f32> = Pt3::new(10., 3., 4.);
    let v2: Vec3<f32> = Vec3::new(-1., 0., 0.);
    assert_eq!(sqr_dst_line_line(&p1, &v1, &p2, &v2, TINY), 25.);
}

#[test]
fn line_meets_plane() {
    let floor: Plane<f32> = Plane::new(0., 0., 1., -2.);
    let p: Pt3<f32> = Pt3::new(1., 1., 5.);
    let v: Vec3<f32> = Vec3::new(0., 1., -1.);
    let q = intersect_line_plane(&p, &v, &floor, TINY).unwrap();
    assert_eq!(<[f32; 3]>::from(q), [1., 4., 2.]);
    assert_eq!(floor.dot(&q), 0.);
}

#[test]
fn line_along_plane_meets_it_nowhere() {
    let floor: Plane<f32> = Plane::new(0., 0., 1., -2.);
    let p: Pt3<f32> = Pt3::new(1., 1., 5.);
    let v: Vec3<f32> = Vec3::new(3., -4., 0.);
    assert!(intersect_line_plane(&p, &v, &floor, TINY).is_none());
    let in_the_plane: Pt3<f32> = Pt3::new(1., 1., 2.);
    assert!(intersect_line_plane(&in_the_plane, &v, &floor, TINY).is_none());
}

#[test]
fn three_planes_meet_in_a_point() {
    let f1: Plane<f32> = Plane::new(1., 0., 0., -1.);
    let f2: Plane<f32> = Plane::new(0., 1., 0., -2.);
    let f3: Plane<f32> = Plane::new(0., 0., 1., -3.);
    let p = intersect_three_planes(&f1, &f2, &f3, TINY).unwrap();
    assert_eq!(<[f32; 3]>::from(p), [1., 2., 3.]);
}

#[test]
fn three_slanted_planes_meet_in_a_point() {
    let f1: Plane<f32> = Plane::new(1., 1., 1., -6.);
    let f2: Plane<f32> = Plane::new(1., -1., 0., 1.);
    let f3: Plane<f32> = Plane::new(0., 1., -2., 4.);
    let p = intersect_three_planes(&f1, &f2, &f3, TINY).unwrap();
    assert!(near(p.x, 1.) && near(p.y, 2.) && near(p.z, 3.));
    assert!(near(f1.dot(&p), 0.));
    assert!(near(f2.dot(&p), 0.));
    assert!(near(f3.dot(&p), 0.));
}

#[test]
fn three_planes_with_one_normal_meet_nowhere() {
    let f1: Plane<f32> = Plane::new(1., 2., 3., -1.);
    let f2: Plane<f32> = Plane::new(1., 2., 3., 0.);
    let f3: Plane<f32> = Plane::new(2., 4., 6., 5.);
    assert!(intersect_three_planes(&f1, &f2, &f3, TINY).is_none());
}

#[test]
fn three_planes_through_one_line_meet_in_no_single_point() {
    let f1: Plane<f32> = Plane::new(1., 0., 0., 0.);
    let f2: Plane<f32> = Plane::new(0., 1., 0., 0.);
    let f3: Plane<f32> = Plane::new(1., 1., 0., 0.);
    assert!(intersect_three_planes(&f1, &f2, &f3, TINY).is_none());
}

#[test]
fn two_planes_meet_in_a_line() {
    let f1: Plane<f32> = Plane::new(1., 0., 0., -1.);
    let f2: Plane<f32> = Plane::new(0., 1., 0., -2.);
    let (p, v) = intersect_two_planes(&f1, &f2, TINY).unwrap();
    assert_eq!(<[f32; 3]>::from(v), [0., 0., 1.]);
    assert_eq!(<[f32; 3]>::from(p), [1., 2., 0.]);
    assert_eq!(f1.dot(&p), 0.);
    assert_eq!(f2.dot(&p), 0.);
}

#[test]
fn two_parallel_planes_meet_nowhere() {
    let f1: Plane<f32> = Plane::new(1., 2., 3., -1.);
    let f2: Plane<f32> = Plane::new(-2., -4., -6., 7.);
    assert!(intersect_two_planes(&f1, &f2, TINY).is_none());
    assert!(intersect_two_planes(&f1, &f1, TINY).is_none());
}

#[test]
fn plane_against_direction_and_point() {
    let f: Plane<f32> = Plane::new(1., 2., 3., 4.);
    assert_eq!(f.dot(&Vec3::new(5., 6., 7.)), 38.);
    assert_eq!(f.dot(&Pt3::new(5., 6., 7.)), 42.);
    assert_eq!(<[f32; 3]>::from(f.normal()), [1., 2., 3.]);
}

#[test]
fn plane_new_works() {
    let f: Plane<f32> = Plane::new(1., 2., 3., 4.);
    assert_eq!([f.x, f.y, f.z, f.d], [1., 2., 3., 4.]);
}
