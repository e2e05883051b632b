use rge_math::pt3::Pt3;
use rge_math::structure::EuclideanSpace;
use rge_math::structure::VecSpace;
use rge_math::vec3::Vec3;
use rge_math::vec4::Vec4;

#[test]
fn vec4_new_works() {
    let v: Vec4<f32> = Vec4::new(1., 2., 3., 4.);
    assert_eq!([v.x, v.y, v.z, v.w], [1., 2., 3., 4.]);
}

#[test]
fn vec4_xyz_drops_w() {
    let v: Vec4<f32> = Vec4::new(1., 2., 3., 4.);
    assert_eq!(<[f32; 3]>::from(v.xyz()), [1., 2., 3.]);
}

#[test]
fn vec4_xyz_undoes_extend() {
    let v: Vec3<f32> = Vec3::new(5., 6., 7.);
    assert_eq!(<[f32; 3]>::from(v.extend(9.).xyz()), [5., 6., 7.]);
}

#[test]
fn vec4_indexes() {
    let v: Vec4<f32> = Vec4::new(1., 2., 3., 4.);
    assert_eq!(v[0], 1.);
    assert_eq!(v[1], 2.);
    assert_eq!(v[2], 3.);
    assert_eq!(v[3], 4.);
}

#[test]
fn vec4_index_mut_writes_one_component() {
    let mut v: Vec4<i32> = Vec4::new(1, 2, 3, 4);
    v[3] = 40;
    assert_eq!(<[i32; 4]>::from(v), [1, 2, 3, 40]);
}

#[test]
fn vec4_converts() {
    let mut v: Vec4<f32> = Vec4::new(1., 2., 3., 4.);
    let a = [1., 2., 3., 4.];

    assert_eq!(a, <[f32; 4]>::from(Vec4::from(a)));
    assert_eq!(a, <[f32; 4]>::from(Vec4::from(&a)));
    assert_eq!(a, <[f32; 4]>::from(Vec4::from(&mut [1., 2., 3., 4.])));

    assert_eq!(a, <[f32; 4]>::from(v));
    assert_eq!(a, <[f32; 4]>::from(&v));
    assert_eq!(a, <[f32; 4]>::from(&mut v));
}

#[test]
fn vec4_converts_to_vec3() {
    let mut v: Vec4<f32> = Vec4::new(1., 2., 3., 4.);
    assert_eq!(<[f32; 3]>::from(Vec3::from(v)), [1., 2., 3.]);
    assert_eq!(<[f32; 3]>::from(Vec3::from(&v)), [1., 2., 3.]);
    assert_eq!(<[f32; 3]>::from(Vec3::from(&mut v)), [1., 2., 3.]);
}

#[test]
fn vec4_arithmetic() {
    let a: Vec4<f32> = Vec4::new(1., 2., 3., 4.);
    let b: Vec4<f32> = Vec4::new(5., 6., 7., 8.);
    assert_eq!(<[f32; 4]>::from(a + b), [6., 8., 10., 12.]);
    assert_eq!(<[f32; 4]>::from(a - b), [-4., -4., -4., -4.]);
    assert_eq!(<[f32; 4]>::from(a * 2.), [2., 4., 6., 8.]);
    assert_eq!(<[f32; 4]>::from(a / 2.), [0.5, 1., 1.5, 2.]);
    assert_eq!(<[f32; 4]>::from(-a), [-1., -2., -3., -4.]);
    assert_eq!(a.dot(&b), 70.);
    assert_eq!(a.norm2(), 30.);
    let mut c = a;
    c += b;
    c -= a;
    c *= 3.;
    c /= 3.;
    assert_eq!(<[f32; 4]>::from(c), <[f32; 4]>::from(b));
}

#[test]
fn vec4_projection_and_rejection() {
    let v: Vec4<f32> = Vec4::new(3., -4., 5., 6.);
    let on: Vec4<f32> = Vec4::unit_w();
    assert_eq!(<[f32; 4]>::from(v.project_on(&on)), [0., 0., 0., 6.]);
    assert_eq!(<[f32; 4]>::from(v.reject_on(&on)), [3., -4., 5., 0.]);
}

#[test]
fn pt3_new_works() {
    let p: Pt3<f32> = Pt3::new(1., 2., 3.);
    assert_eq!([p.x, p.y, p.z], [1., 2., 3.]);
}

#[test]
fn pt3_indexes() {
    let mut p: Pt3<f32> = Pt3::new(1., 2., 3.);
    assert_eq!(p[0], 1.);
    assert_eq!(p[1], 2.);
    assert_eq!(p[2], 3.);
    p[0] = 7.;
    assert_eq!(<[f32; 3]>::from(p), [7., 2., 3.]);
}

#[test]
fn pt3_converts() {
    let mut p: Pt3<f32> = Pt3::new(1., 2., 3.);

    let a = [1., 2., 3.];
    assert_eq!(a, <[f32; 3]>::from(Pt3::from(a)));
    assert_eq!(a, <[f32; 3]>::from(Pt3::from(&a)));
    assert_eq!(a, <[f32; 3]>::from(Pt3::from(&mut [1., 2., 3.])));

    assert_eq!(a, <[f32; 3]>::from(p));
    assert_eq!(a, <[f32; 3]>::from(&p));
    assert_eq!(a, <[f32; 3]>::from(&mut p));
}

#[test]
fn pt3_and_vec3_convert_both_ways() {
    let mut p: Pt3<f32> = Pt3::new(1., 2., 3.);
    let mut v: Vec3<f32> = Vec3::new(1., 2., 3.);

    assert_eq!(<[f32; 3]>::from(Vec3::from(p)), [1., 2., 3.]);
    assert_eq!(<[f32; 3]>::from(Vec3::from(&p)), [1., 2., 3.]);
    assert_eq!(<[f32; 3]>::from(Vec3::from(&mut p)), [1., 2., 3.]);

    assert_eq!(<[f32; 3]>::from(Pt3::from(v)), [1., 2., 3.]);
    assert_eq!(<[f32; 3]>::from(Pt3::from(&v)), [1., 2., 3.]);
    assert_eq!(<[f32; 3]>::from(Pt3::from(&mut v)), [1., 2., 3.]);
}

#[test]
fn pt3_arithmetic() {
    let p: Pt3<f32> = Pt3::new(1., 2., 3.);
    let q: Pt3<f32> = Pt3::new(5., 7., 9.);
    let v: Vec3<f32> = Vec3::new(10., 20., 30.);
    assert_eq!(<[f32; 3]>::from(q - p), [4., 5., 6.]);
    assert_eq!(<[f32; 3]>::from(q + p), [6., 9., 12.]);
    assert_eq!(<[f32; 3]>::from(p + v), [11., 22., 33.]);
    assert_eq!(<[f32; 3]>::from(p - v), [-9., -18., -27.]);
    assert_eq!(<[f32; 3]>::from(p * 2.), [2., 4., 6.]);
    assert_eq!(<[f32; 3]>::from(p / 2.), [0.5, 1., 1.5]);
    assert_eq!(<[f32; 3]>::from(-p), [-1., -2., -3.]);
    assert_eq!(p.dot(&q), 46.);
    assert_eq!(p.norm2(), 14.);
    let mut r = p;
    r += v;
    r -= v;
    r += q;
    r -= q;
    r *= 8.;
    r /= 8.;
    assert_eq!(<[f32; 3]>::from(r), <[f32; 3]>::from(p));
}
