use std::ops::{Add, Div, Mul, Sub};

use spectrace::{One, SquareRoot, Vec3};

#[derive(Debug, Clone, Copy, PartialEq)]
struct Real(f64);

impl Add for Real {
    type Output = Real;
    fn add(self, rhs: Real) -> Real {
        Real(self.0 + rhs.0)
    }
}

impl Sub for Real {
    type Output = Real;
    fn sub(self, rhs: Real) -> Real {
        Real(self.0 - rhs.0)
    }
}

impl Mul for Real {
    type Output = Real;
    fn mul(self, rhs: Real) -> Real {
        Real(self.0 * rhs.0)
    }
}

impl Div for Real {
    type Output = Real;
    fn div(self, rhs: Real) -> Real {
        Real(self.0 / rhs.0)
    }
}

impl SquareRoot for Real {
    fn sqrt(self) -> Real {
        Real(self.0.sqrt())
    }
}

impl One for Real {
    const ONE: Real = Real(1.0);
}

fn components<T: Copy>(v: Vec3<T>) -> [T; 3] {
    [v.x, v.y, v.z]
}

#[test]
fn constructors() {
    assert_eq!(components(Vec3::new(1, 2, 3)), [1, 2, 3]);
    assert_eq!(components(Vec3::splat(4u8)), [4, 4, 4]);
    assert_eq!(components(Vec3::from_array([5i32, -6, 7])), [5, -6, 7]);
}

#[test]
fn arrays() {
    let v = Vec3::new(1u32, 2, 3);
    assert_eq!(v.to_array(), [1, 2, 3]);
    assert_eq!(v.as_array(), [1, 2, 3]);
    assert_eq!(Vec3::from_array(v.to_array()).to_array(), [1, 2, 3]);
}

#[test]
fn vec3_map_applies_to_each_component() {
    assert_eq!(Vec3::new(1, 2, 3).map(|v| v - 1).to_array(), [0, 1, 2]);
}

#[test]
fn vec3_dot_of_integers() {
    assert_eq!(Vec3::new(1, 2, 3).dot(&Vec3::new(4, 5, 6)), 32);
}

#[test]
fn cross_of_unit_axes() {
    let x = Vec3::new(1i32, 0, 0);
    let y = Vec3::new(0i32, 1, 0);
    assert_eq!(Vec3::cross(&x, &y).to_array(), [0, 0, 1]);
    assert_eq!(Vec3::cross(&y, &x).to_array(), [0, 0, -1]);
}

#[test]
fn cross_of_general_vectors() {
    let a = Vec3::new(2i64, 3, 4);
    let b = Vec3::new(5i64, 6, 7);
    assert_eq!(Vec3::cross(&a, &b).to_array(), [3 * 7 - 4 * 6, 4 * 5 - 2 * 7, 2 * 6 - 3 * 5]);
}

#[test]
fn lengths() {
    let v = Vec3::new(Real(2.0), Real(3.0), Real(6.0));
    assert_eq!(v.length_squared(), Real(49.0));
    assert_eq!(v.length(), Real(7.0));
}

#[test]
fn normalized_divides_by_length() {
    let n = Vec3::new(Real(0.0), Real(3.0), Real(4.0)).normalized();
    assert_eq!(n.to_array(), [Real(0.0), Real(0.6), Real(0.8)]);
}

#[test]
fn lerp_blends_end_points() {
    let a = Vec3::new(Real(0.0), Real(10.0), Real(-4.0));
    let b = Vec3::new(Real(2.0), Real(20.0), Real(4.0));
    assert_eq!(Vec3::lerp(&a, &b, Real(0.5)).to_array(), [Real(1.0), Real(15.0), Real(0.0)]);
    assert_eq!(Vec3::lerp(&a, &b, Real(0.0)).to_array(), a.to_array());
    assert_eq!(Vec3::lerp(&a, &b, Real(1.0)).to_array(), b.to_array());
}

#[test]
fn vec3_scalar_operations() {
    let v = Vec3::new(10i32, 20, 30);
    assert_eq!((v + 1).to_array(), [11, 21, 31]);
    assert_eq!((v - 1).to_array(), [9, 19, 29]);
    assert_eq!((v * 2).to_array(), [20, 40, 60]);
    assert_eq!((v / 10).to_array(), [1, 2, 3]);
}

#[test]
fn vec3_vector_operations() {
    let a = Vec3::new(1i32, 2, 3);
    let b = Vec3::new(10i32, 20, 30);
    assert_eq!((a + b).to_array(), [11, 22, 33]);
    assert_eq!((b - a).to_array(), [9, 18, 27]);
    assert_eq!((-a).to_array(), [-1, -2, -3]);
}

#[test]
fn assignment_operations() {
    let mut v = Vec3::new(1i32, 2, 3);
    v += Vec3::new(10, 20, 30);
    assert_eq!(v.to_array(), [11, 22, 33]);
    v -= Vec3::new(1, 2, 3);
    assert_eq!(v.to_array(), [10, 20, 30]);
}

#[test]
fn public_fields() {
    let mut v = Vec3::new(1u8, 2, 3);
    v.y = 9;
    assert_eq!((v.x, v.y, v.z), (1, 9, 3));
}
