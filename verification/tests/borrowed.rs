use rge_math::mat3::Mat3;
use rge_math::mat4::Mat4;
use rge_math::pt3::Pt3;
use rge_math::quat::Quat;
use rge_math::structure::SquareMat;
use rge_math::vec3::Vec3;
use rge_math::vec4::Vec4;

#[test]
fn vec3_operators_take_borrowed_operands() {
    let a: Vec3<f32> = Vec3::new(1., 2., 3.);
    let b: Vec3<f32> = Vec3::new(4., 6., 8.);
    assert_eq!(<[f32; 3]>::from(&a + &b), [5., 8., 11.]);
    assert_eq!(<[f32; 3]>::from(a + &b), [5., 8., 11.]);
    assert_eq!(<[f32; 3]>::from(&a + b), [5., 8., 11.]);
    assert_eq!(<[f32; 3]>::from(&b - &a), [3., 4., 5.]);
    assert_eq!(<[f32; 3]>::from(b - &a), [3., 4., 5.]);
    assert_eq!(<[f32; 3]>::from(&b - a), [3., 4., 5.]);
    assert_eq!(<[f32; 3]>::from(&a * &2.), [2., 4., 6.]);
    assert_eq!(<[f32; 3]>::from(a * &2.), [2., 4., 6.]);
    assert_eq!(<[f32; 3]>::from(&a * 2.), [2., 4., 6.]);
    assert_eq!(<[f32; 3]>::from(&b / &2.), [2., 3., 4.]);
    assert_eq!(<[f32; 3]>::from(b / &2.), [2., 3., 4.]);
    assert_eq!(<[f32; 3]>::from(&b / 2.), [2., 3., 4.]);
    assert_eq!(<[f32; 3]>::from(-&a), [-1., -2., -3.]);
}

#[test]
fn vec3_assigning_operators_take_a_borrowed_operand() {
    let b: Vec3<f32> = Vec3::new(4., 6., 8.);
    let mut v: Vec3<f32> = Vec3::new(1., 2., 3.);
    v += &b;
    assert_eq!(<[f32; 3]>::from(v), [5., 8., 11.]);
    v -= &b;
    assert_eq!(<[f32; 3]>::from(v), [1., 2., 3.]);
    v *= &4.;
    assert_eq!(<[f32; 3]>::from(v), [4., 8., 12.]);
    v /= &2.;
    assert_eq!(<[f32; 3]>::from(v), [2., 4., 6.]);
}

#[test]
fn vec4_operators_take_borrowed_operands() {
    let a: Vec4<i32> = Vec4::new(1, 2, 3, 4);
    let b: Vec4<i32> = Vec4::new(10, 20, 30, 40);
    assert_eq!(<[i32; 4]>::from(&a + &b), [11, 22, 33, 44]);
    assert_eq!(<[i32; 4]>::from(&b - a), [9, 18, 27, 36]);
    assert_eq!(<[i32; 4]>::from(a * &3), [3, 6, 9, 12]);
    assert_eq!(<[i32; 4]>::from(-&a), [-1, -2, -3, -4]);
    let mut v = a;
    v += &b;
    v *= &2;
    assert_eq!(<[i32; 4]>::from(v), [22, 44, 66, 88]);
    v -= &a;
    assert_eq!(<[i32; 4]>::from(v), [21, 42, 63, 84]);
}

#[test]
fn pt3_operators_take_borrowed_operands() {
    let p: Pt3<f32> = Pt3::new(1., 2., 3.);
    let q: Pt3<f32> = Pt3::new(0.5, 0.5, 0.5);
    let v: Vec3<f32> = Vec3::new(10., 20., 30.);
    assert_eq!(<[f32; 3]>::from(&p + &q), [1.5, 2.5, 3.5]);
    assert_eq!(<[f32; 3]>::from(&p - q), [0.5, 1.5, 2.5]);
    assert_eq!(<[f32; 3]>::from(&p + &v), [11., 22., 33.]);
    assert_eq!(<[f32; 3]>::from(p - &v), [-9., -18., -27.]);
    assert_eq!(<[f32; 3]>::from(&p * &2.), [2., 4., 6.]);
    assert_eq!(<[f32; 3]>::from(-&p), [-1., -2., -3.]);
    let mut r = p;
    r += &v;
    assert_eq!(<[f32; 3]>::from(r), [11., 22., 33.]);
    r -= &q;
    assert_eq!(<[f32; 3]>::from(r), [10.5, 21.5, 32.5]);
    r -= &v;
    assert_eq!(<[f32; 3]>::from(r), [0.5, 1.5, 2.5]);
    r /= &0.5;
    assert_eq!(<[f32; 3]>::from(r), [1., 3., 5.]);
}

#[test]
fn mat3_operators_take_borrowed_operands() {
    let m: Mat3<f32> = Mat3::new(
        1., 2., 3., //
        4., 5., 6., //
        7., 8., 9.,
    );
    let n: Mat3<f32> = Mat3::from_diagonal(Vec3::new(1., 1., 1.));
    assert_eq!(
        <[[f32; 3]; 3]>::from(&m + &n),
        [[2., 2., 3.], [4., 6., 6.], [7., 8., 10.]]
    );
    assert_eq!(
        <[[f32; 3]; 3]>::from(m - &n),
        [[0., 2., 3.], [4., 4., 6.], [7., 8., 8.]]
    );
    assert_eq!(
        <[[f32; 3]; 3]>::from(&m * 2.),
        [[2., 4., 6.], [8., 10., 12.], [14., 16., 18.]]
    );
    assert_eq!(
        <[[f32; 3]; 3]>::from(-&n),
        [[-1., 0., 0.], [0., -1., 0.], [0., 0., -1.]]
    );
    let mut k = m;
    k += &n;
    k /= &2.;
    assert_eq!(
        <[[f32; 3]; 3]>::from(k),
        [[1., 1., 1.5], [2., 3., 3.], [3.5, 4., 5.]]
    );
}

#[test]
fn mat4_operators_take_borrowed_operands() {
    let m: Mat4<i32> = Mat4::from([
        [1, 2, 3, 4],
        [5, 6, 7, 8],
        [9, 10, 11, 12],
        [13, 14, 15, 16],
    ]);
    let i: Mat4<i32> = Mat4::from_diagonal(Vec4::new(1, 1, 1, 1));
    assert_eq!(<[[i32; 4]; 4]>::from(&m * &i), <[[i32; 4]; 4]>::from(m));
    assert_eq!(<[[i32; 4]; 4]>::from(&i * m), <[[i32; 4]; 4]>::from(m));
    assert_eq!(<[[i32; 4]; 4]>::from(m * &m), <[[i32; 4]; 4]>::from(m * m));
    assert_eq!(
        <[[i32; 4]; 4]>::from(&m - &i),
        [
            [0, 2, 3, 4],
            [5, 5, 7, 8],
            [9, 10, 10, 12],
            [13, 14, 15, 15]
        ]
    );
    let mut k = m;
    k *= &2;
    k += &i;
    assert_eq!(
        <[[i32; 4]; 4]>::from(k),
        [
            [3, 4, 6, 8],
            [10, 13, 14, 16],
            [18, 20, 23, 24],
            [26, 28, 30, 33]
        ]
    );
}

#[test]
fn quat_products_take_borrowed_operands() {
    let i: Quat<i32> = Quat::new(1, 0, 0, 0);
    let j: Quat<i32> = Quat::new(0, 1, 0, 0);
    let k = i * j;
    assert_eq!(<[i32; 4]>::from(&i * &j), <[i32; 4]>::from(k));
    assert_eq!(<[i32; 4]>::from(i * &j), <[i32; 4]>::from(k));
    assert_eq!(<[i32; 4]>::from(&i * j), <[i32; 4]>::from(k));
    assert_eq!(<[i32; 4]>::from(k), [0, 0, 1, 0]);
    let v: Vec3<i32> = Vec3::new(1, 2, 3);
    let turned = v * k;
    assert_eq!(<[i32; 3]>::from(&v * &k), <[i32; 3]>::from(turned));
    assert_eq!(<[i32; 3]>::from(v * &k), <[i32; 3]>::from(turned));
    assert_eq!(<[i32; 3]>::from(&v * k), <[i32; 3]>::from(turned));
    assert_eq!(<[i32; 3]>::from(turned), [-1, -2, 3]);
}
