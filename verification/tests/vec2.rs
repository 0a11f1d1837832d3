use std::ops::{Add, Div, Mul};

use spectrace::{SquareRoot, Vec2};

#[derive(Debug, Clone, Copy, PartialEq)]
struct Real(f64);

impl Add for Real {
    type Output = Real;
    fn add(self, rhs: Real) -> Real {
        Real(self.0 + rhs.0)
    }
}

impl Mul for Real {
    type Output = Real;
    fn mul(self, rhs: Real) -> Real {
        Real(self.0 * rhs.0)
    }
}

impl Div for Real {
    type Output = Real;
    fn div(self, rhs: Real) -> Real {
        Real(self.0 / rhs.0)
    }
}

impl SquareRoot for Real {
    fn sqrt(self) -> Real {
        Real(self.0.sqrt())
    }
}

#[test]
fn new_keeps_components() {
    assert_eq!(Vec2::new(1, 2).to_array(), [1, 2]);
}

#[test]
fn splat_repeats_component() {
    assert_eq!(Vec2::splat(7u8).to_array(), [7, 7]);
}

#[test]
fn from_array_then_to_array_round_trips() {
    assert_eq!(Vec2::from_array([3i32, -4]).to_array(), [3, -4]);
}

#[test]
fn as_array_matches_to_array() {
    let v = Vec2::new(5u16, 6);
    assert_eq!(v.as_array(), v.to_array());
}

#[test]
fn vec2_map_applies_to_each_component() {
    assert_eq!(Vec2::new(2, 3).map(|v| v * 10).to_array(), [20, 30]);
}

#[test]
fn vec2_dot_of_integers() {
    assert_eq!(Vec2::new(1, 2).dot(&Vec2::new(3, 4)), 11);
}

#[test]
fn length_squared_is_self_dot() {
    let v = Vec2::new(3i64, 4);
    assert_eq!(v.length_squared(), 25);
    assert_eq!(v.length_squared(), v.dot(&v));
}

#[test]
fn length_takes_square_root() {
    assert_eq!(Vec2::new(Real(3.0), Real(4.0)).length(), Real(5.0));
}

#[test]
fn normalized_divides_by_squared_length() {
    let n = Vec2::new(Real(3.0), Real(4.0)).normalized();
    assert_eq!(n.to_array(), [Real(3.0 / 25.0), Real(4.0 / 25.0)]);
}

#[test]
fn vec2_scalar_operations() {
    let v = Vec2::new(10i32, 20);
    assert_eq!((v + 1).to_array(), [11, 21]);
    assert_eq!((v - 1).to_array(), [9, 19]);
    assert_eq!((v * 2).to_array(), [20, 40]);
    assert_eq!((v / 5).to_array(), [2, 4]);
}

#[test]
fn vec2_vector_operations() {
    let a = Vec2::new(1i32, 2);
    let b = Vec2::new(10i32, 20);
    assert_eq!((a + b).to_array(), [11, 22]);
    assert_eq!((b - a).to_array(), [9, 18]);
    assert_eq!((-a).to_array(), [-1, -2]);
}

#[test]
fn integer_division_truncates() {
    assert_eq!((Vec2::new(7i32, -7) / 2).to_array(), [3, -3]);
}

#[test]
fn real_scalar_multiplication() {
    let v = Vec2::new(Real(1.5), Real(-2.0));
    assert_eq!((v * Real(2.0)).to_array(), [Real(3.0), Real(-4.0)]);
}
