pub(crate) mod vec2;
mod vec3;
pub mod laws;

pub use vec2::Vec2;
pub use vec3::Vec3;

use std::ops::{Add, Div, Mul, Sub};

use vstd::prelude::*;

verus! {

/// A scalar with a square root. What `sqrt` returns is up to each implementation;
/// the vector types state their lengths as whatever it returns.
pub trait SquareRoot: Copy {
    fn sqrt(self) -> Self;
}

/// `r` is a value that `a + b` may return, by `T`'s `Add`.
#[verifier::inline]
pub open spec fn add_returns<T: Add<Output = T>>(a: T, b: T, r: T) -> bool {
    call_ensures(T::add, (a, b), r)
}

/// `r` is a value that `a - b` may return, by `T`'s `Sub`.
#[verifier::inline]
pub open spec fn sub_returns<T: Sub<Output = T>>(a: T, b: T, r: T) -> bool {
    call_ensures(T::sub, (a, b), r)
}

/// `r` is a value that `a * b` may return, by `T`'s `Mul`.
#[verifier::inline]
pub open spec fn mul_returns<T: Mul<Output = T>>(a: T, b: T, r: T) -> bool {
    call_ensures(T::mul, (a, b), r)
}

/// `r` is a value that `a / b` may return, by `T`'s `Div`.
#[verifier::inline]
pub open spec fn div_returns<T: Div<Output = T>>(a: T, b: T, r: T) -> bool {
    call_ensures(T::div, (a, b), r)
}

/// `r` is a value that `a.sqrt()` may return.
#[verifier::inline]
pub open spec fn sqrt_returns<T: SquareRoot>(a: T, r: T) -> bool {
    call_ensures(T::sqrt, (a,), r)
}

/// A scalar with a multiplicative identity.
pub trait One: Copy {
    const ONE: Self;
}

} // verus!
