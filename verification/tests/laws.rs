use spectrace::{Vec2, Vec3};

#[test]
fn vec2_dot_is_symmetric() {
    let u = Vec2::new(3i64, -7);
    let v = Vec2::new(11i64, 5);
    assert_eq!(u.dot(&v), v.dot(&u));
}

#[test]
fn vec3_dot_is_symmetric() {
    let u = Vec3::new(3i64, -7, 2);
    let v = Vec3::new(11i64, 5, -9);
    assert_eq!(u.dot(&v), v.dot(&u));
}

#[test]
fn cross_is_anticommutative() {
    let a = Vec3::new(3i64, -7, 2);
    let b = Vec3::new(11i64, 5, -9);
    assert_eq!(Vec3::cross(&a, &b).to_array(), (-Vec3::cross(&b, &a)).to_array());
}

#[test]
fn cross_is_orthogonal() {
    let a = Vec3::new(3i64, -7, 2);
    let b = Vec3::new(11i64, 5, -9);
    let c = Vec3::cross(&a, &b);
    assert_eq!(a.dot(&c), 0);
    assert_eq!(b.dot(&c), 0);
}

#[test]
fn vector_addition_commutes() {
    let u = Vec3::new(1i32, 2, 3);
    let v = Vec3::new(-4i32, 5, 6);
    assert_eq!((u + v).to_array(), (v + u).to_array());
}

#[test]
fn array_round_trips() {
    let v = Vec2::new(1u8, 2);
    assert_eq!(Vec2::from_array(v.to_array()).to_array(), v.to_array());
    let w = Vec3::from_array([4u8, 5, 6]);
    assert_eq!(w.to_array(), [4, 5, 6]);
}

#[test]
fn add_assign_agrees_with_add() {
    let a = Vec3::new(1i32, 2, 3);
    let b = Vec3::new(7i32, 8, 9);
    let mut c = a;
    c += b;
    assert_eq!(c.to_array(), (a + b).to_array());
}

#[test]
fn cross_with_itself_is_zero() {
    let a = Vec3::new(3i64, -7, 2);
    assert_eq!(Vec3::cross(&a, &a).to_array(), [0, 0, 0]);
}

#[test]
fn cross_length_follows_lagrange_identity() {
    let a = Vec3::new(3i64, -7, 2);
    let b = Vec3::new(11i64, 5, -9);
    let c = Vec3::cross(&a, &b);
    assert_eq!(
        c.length_squared(),
        a.length_squared() * b.length_squared() - a.dot(&b) * a.dot(&b)
    );
}

#[test]
fn cross_of_orthogonal_units_is_unit() {
    let view = Vec3::new(1i64, 0, 0);
    let up = Vec3::new(0i64, 1, 0);
    assert_eq!(Vec3::cross(&up, &view).length_squared(), 1);
}

#[test]
fn vector_addition_associates() {
    let a = Vec3::new(1i32, -2, 3);
    let b = Vec3::new(4i32, 5, -6);
    let c = Vec3::new(-7i32, 8, 9);
    assert_eq!(((a + b) + c).to_array(), (a + (b + c)).to_array());
}

#[test]
fn subtraction_undoes_addition() {
    let a = Vec3::new(1i32, -2, 3);
    let b = Vec3::new(4i32, 5, -6);
    assert_eq!(((a + b) - b).to_array(), a.to_array());
    assert_eq!(((a - b) + b).to_array(), a.to_array());
    assert_eq!((a - a).to_array(), [0, 0, 0]);
}

#[test]
fn vec2_subtraction_undoes_addition() {
    let a = Vec2::new(1i32, -2);
    let b = Vec2::new(4i32, 5);
    assert_eq!(((a + b) - b).to_array(), a.to_array());
    assert_eq!(((a - b) + b).to_array(), a.to_array());
    assert_eq!((a + b).to_array(), (b + a).to_array());
}

#[test]
fn negation_is_involutive() {
    let v = Vec3::new(1i32, -2, 3);
    assert_eq!((-(-v)).to_array(), v.to_array());
    assert_eq!((v + (-v)).to_array(), [0, 0, 0]);
    let w = Vec2::new(4i32, -5);
    assert_eq!((-(-w)).to_array(), w.to_array());
}

#[test]
fn sub_assign_undoes_add_assign() {
    let a0 = Vec3::new(1i32, -2, 3);
    let b = Vec3::new(4i32, 5, -6);
    let mut a = a0;
    a += b;
    a -= b;
    assert_eq!(a.to_array(), a0.to_array());
}

#[test]
fn map_identity_and_composition() {
    let v = Vec3::new(1i32, -2, 3);
    assert_eq!(v.map(|c| c).to_array(), v.to_array());
    let f = |c: i32| c + 1;
    let g = |c: i32| c * 3;
    assert_eq!(v.map(f).map(g).to_array(), v.map(|c| g(f(c))).to_array());
    let w = Vec2::new(4i32, -5);
    assert_eq!(w.map(|c| c).to_array(), w.to_array());
    assert_eq!(w.map(f).map(g).to_array(), w.map(|c| g(f(c))).to_array());
}
