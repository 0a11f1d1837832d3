use std::ops::{Add, Div, Mul, Neg, Sub};

use vstd::prelude::*;
use vstd::std_specs::ops::{AddSpec, DivSpec, MulSpec, NegSpec, SubSpec};

use crate::math::{add_returns, div_returns, mul_returns, sqrt_returns, SquareRoot};

verus! {

/// A two-dimensional vector over the scalar type `T`.
#[derive(Debug, Clone, Copy)]
pub struct Vec2<T> {
    x: T,
    y: T,
}

impl<T> View for Vec2<T> {
    /// The two components, `x` first.
    type V = (T, T);

    closed spec fn view(&self) -> (T, T) {
        (self.x, self.y)
    }
}

impl<T: Copy + Add<Output = T> + Mul<Output = T>> Vec2<T> {
    /// The value `dot` computes: `x * rhs.x + y * rhs.y`, by `T`'s operators.
    pub open spec fn dot_spec(self, rhs: Self) -> T {
        self@.0.mul_spec(rhs@.0).add_spec(self@.1.mul_spec(rhs@.1))
    }

    /// What `dot` requires: `T`'s `*` accepts each pair of components, and its `+`
    /// accepts every pair of products that those multiplications may return.
    pub open spec fn dot_req(self, rhs: Self) -> bool {
        &&& self@.0.mul_req(rhs@.0)
        &&& self@.1.mul_req(rhs@.1)
        &&& forall|p: T, q: T|
            mul_returns(self@.0, rhs@.0, p) && mul_returns(self@.1, rhs@.1, q) ==> p.add_req(q)
    }

    /// `r` is a value that `dot` may return: the sum, by `T`'s `+`, of what `T`'s `*`
    /// returns for each pair of components.
    pub open spec fn dot_returns(self, rhs: Self, r: T) -> bool {
        exists|p: T, q: T|
            mul_returns(self@.0, rhs@.0, p) && mul_returns(self@.1, rhs@.1, q) && add_returns(
                p,
                q,
                r,
            )
    }

    /// Every operation of `dot_spec` is defined on the values it is given (for
    /// integers: nothing overflows).
    pub open spec fn dot_defined(self, rhs: Self) -> bool {
        &&& self@.0.mul_req(rhs@.0)
        &&& self@.1.mul_req(rhs@.1)
        &&& self@.0.mul_spec(rhs@.0).add_req(self@.1.mul_spec(rhs@.1))
    }
}

impl<T: Copy + Clone> Vec2<T> {
    pub fn new(x: T, y: T) -> (r: Self)
        ensures
            r@ == (x, y),
    {
        Self { x, y }
    }

    pub fn splat(v: T) -> (r: Self)
        ensures
            r@ == (v, v),
    {
        Self { x: v, y: v }
    }

    pub fn from_array(v: [T; 2]) -> (r: Self)
        ensures
            r@ == (v[0], v[1]),
    {
        Self::new(v[0], v[1])
    }

    pub fn to_array(self) -> (r: [T; 2])
        ensures
            r@ == seq![self@.0, self@.1],
    {
        [self.x, self.y]
    }

    pub fn as_array(&self) -> (r: [T; 2])
        ensures
            r@ == seq![self@.0, self@.1],
    {
        [self.x, self.y]
    }

    /// Applies `f` to each component.
    pub fn map(&self, f: impl Fn(T) -> T) -> (r: Self)
        requires
            f.requires((self@.0,)),
            f.requires((self@.1,)),
        ensures
            f.ensures((self@.0,), r@.0),
            f.ensures((self@.1,), r@.1),
    {
        Self { x: f(self.x), y: f(self.y) }
    }

    pub fn dot(&self, rhs: &Self) -> (r: T)
        where
            T: Add<Output = T> + Mul<Output = T>,
        requires
            self.dot_req(*rhs),
        ensures
            self.dot_returns(*rhs, r),
            T::obeys_add_spec() && T::obeys_mul_spec() ==> r == self.dot_spec(*rhs),
    {
        let p = self.x * rhs.x;
        let q = self.y * rhs.y;
        p + q
    }

    pub fn length_squared(&self) -> (r: T)
        where
            T: Add<Output = T> + Mul<Output = T>,
        requires
            self.dot_req(*self),
        ensures
            self.dot_returns(*self, r),
            T::obeys_add_spec() && T::obeys_mul_spec() ==> r == self.dot_spec(*self),
    {
        self.dot(self)
    }

    /// The square root, by `T::sqrt`, of the squared length.
    pub fn length(&self) -> (r: T)
        where
            T: Add<Output = T> + Mul<Output = T> + SquareRoot,
        requires
            self.dot_req(*self),
        ensures
            exists|l: T| self.dot_returns(*self, l) && sqrt_returns(l, r),
            T::obeys_add_spec() && T::obeys_mul_spec() ==> sqrt_returns(self.dot_spec(*self), r),
    {
        let l = self.length_squared();
        l.sqrt()
    }

    /// Divides each component by the squared length (not by the length).
    pub fn normalized(&self) -> (r: Self)
        where
            T: Add<Output = T> + Mul<Output = T> + Div<Output = T> + SquareRoot,
        requires
            self.dot_req(*self),
            forall|l: T| #[trigger]
                self.dot_returns(*self, l) ==> self@.0.div_req(l) && self@.1.div_req(l),
        ensures
            exists|l: T|
                #[trigger] self.dot_returns(*self, l) && div_returns(self@.0, l, r@.0)
                    && div_returns(self@.1, l, r@.1),
            T::obeys_add_spec() && T::obeys_mul_spec() && T::obeys_div_spec() ==> r@ == (
                self@.0.div_spec(self.dot_spec(*self)),
                self@.1.div_spec(self.dot_spec(*self)),
            ),
    {
        let l = self.length_squared();
        *self / l
    }
}

/// Scalar Operations
impl<T: Copy + Add<Output = T>> Add<T> for Vec2<T> {
    type Output = Self;

    fn add(self, rhs: T) -> (r: Self::Output)
        ensures
            call_ensures(T::add, (self@.0, rhs), r@.0),
            call_ensures(T::add, (self@.1, rhs), r@.1),
            T::obeys_add_spec() ==> r@ == (self@.0.add_spec(rhs), self@.1.add_spec(rhs)),
    {
        let f = |v: T| -> (o: T)
            requires
                v.add_req(rhs),
            ensures
                call_ensures(T::add, (v, rhs), o),
                T::obeys_add_spec() ==> o == v.add_spec(rhs),
        {
            v + rhs
        };
        self.map(f)
    }
}

impl<T: Copy + Add<Output = T>> vstd::std_specs::ops::AddSpecImpl<T> for Vec2<T> {
    open spec fn obeys_add_spec() -> bool {
        T::obeys_add_spec()
    }

    open spec fn add_req(self, rhs: T) -> bool {
        self@.0.add_req(rhs) && self@.1.add_req(rhs)
    }

    closed spec fn add_spec(self, rhs: T) -> Self {
        Vec2 { x: self.x.add_spec(rhs), y: self.y.add_spec(rhs) }
    }
}

impl<T: Copy + Sub<Output = T>> Sub<T> for Vec2<T> {
    type Output = Self;

    fn sub(self, rhs: T) -> (r: Self::Output)
        ensures
            call_ensures(T::sub, (self@.0, rhs), r@.0),
            call_ensures(T::sub, (self@.1, rhs), r@.1),
            T::obeys_sub_spec() ==> r@ == (self@.0.sub_spec(rhs), self@.1.sub_spec(rhs)),
    {
        let f = |v: T| -> (o: T)
            requires
                v.sub_req(rhs),
            ensures
                call_ensures(T::sub, (v, rhs), o),
                T::obeys_sub_spec() ==> o == v.sub_spec(rhs),
        {
            v - rhs
        };
        self.map(f)
    }
}

impl<T: Copy + Sub<Output = T>> vstd::std_specs::ops::SubSpecImpl<T> for Vec2<T> {
    open spec fn obeys_sub_spec() -> bool {
        T::obeys_sub_spec()
    }

    open spec fn sub_req(self, rhs: T) -> bool {
        self@.0.sub_req(rhs) && self@.1.sub_req(rhs)
    }

    closed spec fn sub_spec(self, rhs: T) -> Self {
        Vec2 { x: self.x.sub_spec(rhs), y: self.y.sub_spec(rhs) }
    }
}

impl<T: Copy + Mul<Output = T>> Mul<T> for Vec2<T> {
    type Output = Self;

    fn mul(self, rhs: T) -> (r: Self::Output)
        ensures
            call_ensures(T::mul, (self@.0, rhs), r@.0),
            call_ensures(T::mul, (self@.1, rhs), r@.1),
            T::obeys_mul_spec() ==> r@ == (self@.0.mul_spec(rhs), self@.1.mul_spec(rhs)),
    {
        let f = |v: T| -> (o: T)
            requires
                v.mul_req(rhs),
            ensures
                call_ensures(T::mul, (v, rhs), o),
                T::obeys_mul_spec() ==> o == v.mul_spec(rhs),
        {
            v * rhs
        };
        self.map(f)
    }
}

impl<T: Copy + Mul<Output = T>> vstd::std_specs::ops::MulSpecImpl<T> for Vec2<T> {
    open spec fn obeys_mul_spec() -> bool {
        T::obeys_mul_spec()
    }

    open spec fn mul_req(self, rhs: T) -> bool {
        self@.0.mul_req(rhs) && self@.1.mul_req(rhs)
    }

    closed spec fn mul_spec(self, rhs: T) -> Self {
        Vec2 { x: self.x.mul_spec(rhs), y: self.y.mul_spec(rhs) }
    }
}

impl<T: Copy + Div<Output = T>> Div<T> for Vec2<T> {
    type Output = Self;

    fn div(self, rhs: T) -> (r: Self::Output)
        ensures
            call_ensures(T::div, (self@.0, rhs), r@.0),
            call_ensures(T::div, (self@.1, rhs), r@.1),
            T::obeys_div_spec() ==> r@ == (self@.0.div_spec(rhs), self@.1.div_spec(rhs)),
    {
        let f = |v: T| -> (o: T)
            requires
                v.div_req(rhs),
            ensures
                call_ensures(T::div, (v, rhs), o),
                T::obeys_div_spec() ==> o == v.div_spec(rhs),
        {
            v / rhs
        };
        self.map(f)
    }
}

impl<T: Copy + Div<Output = T>> vstd::std_specs::ops::DivSpecImpl<T> for Vec2<T> {
    open spec fn obeys_div_spec() -> bool {
        T::obeys_div_spec()
    }

    open spec fn div_req(self, rhs: T) -> bool {
        self@.0.div_req(rhs) && self@.1.div_req(rhs)
    }

    closed spec fn div_spec(self, rhs: T) -> Self {
        Vec2 { x: self.x.div_spec(rhs), y: self.y.div_spec(rhs) }
    }
}

/// Vector Operations
impl<T: Add<Output = T>> Add for Vec2<T> {
    type Output = Self;

    fn add(self, rhs: Self) -> (r: Self::Output)
        ensures
            call_ensures(T::add, (self@.0, rhs@.0), r@.0),
            call_ensures(T::add, (self@.1, rhs@.1), r@.1),
            T::obeys_add_spec() ==> r@ == (self@.0.add_spec(rhs@.0), self@.1.add_spec(rhs@.1)),
    {
        Self { x: self.x + rhs.x, y: self.y + rhs.y }
    }
}

impl<T: Add<Output = T>> vstd::std_specs::ops::AddSpecImpl for Vec2<T> {
    open spec fn obeys_add_spec() -> bool {
        T::obeys_add_spec()
    }

    open spec fn add_req(self, rhs: Self) -> bool {
        self@.0.add_req(rhs@.0) && self@.1.add_req(rhs@.1)
    }

    closed spec fn add_spec(self, rhs: Self) -> Self {
        Vec2 { x: self.x.add_spec(rhs.x), y: self.y.add_spec(rhs.y) }
    }
}

impl<T: Sub<Output = T>> Sub for Vec2<T> {
    type Output = Self;

    fn sub(self, rhs: Self) -> (r: Self::Output)
        ensures
            call_ensures(T::sub, (self@.0, rhs@.0), r@.0),
            call_ensures(T::sub, (self@.1, rhs@.1), r@.1),
            T::obeys_sub_spec() ==> r@ == (self@.0.sub_spec(rhs@.0), self@.1.sub_spec(rhs@.1)),
    {
        Self { x: self.x - rhs.x, y: self.y - rhs.y }
    }
}

impl<T: Sub<Output = T>> vstd::std_specs::ops::SubSpecImpl for Vec2<T> {
    open spec fn obeys_sub_spec() -> bool {
        T::obeys_sub_spec()
    }

    open spec fn sub_req(self, rhs: Self) -> bool {
        self@.0.sub_req(rhs@.0) && self@.1.sub_req(rhs@.1)
    }

    closed spec fn sub_spec(self, rhs: Self) -> Self {
        Vec2 { x: self.x.sub_spec(rhs.x), y: self.y.sub_spec(rhs.y) }
    }
}

impl<T: Neg<Output = T>> Neg for Vec2<T> {
    type Output = Self;

    fn neg(self) -> (r: Self::Output)
        ensures
            call_ensures(T::neg, (self@.0,), r@.0),
            call_ensures(T::neg, (self@.1,), r@.1),
            T::obeys_neg_spec() ==> r@ == (self@.0.neg_spec(), self@.1.neg_spec()),
    {
        Self { x: self.x.neg(), y: self.y.neg() }
    }
}

impl<T: Neg<Output = T>> vstd::std_specs::ops::NegSpecImpl for Vec2<T> {
    open spec fn obeys_neg_spec() -> bool {
        T::obeys_neg_spec()
    }

    open spec fn neg_req(self) -> bool {
        self@.0.neg_req() && self@.1.neg_req()
    }

    closed spec fn neg_spec(self) -> Self {
        Vec2 { x: self.x.neg_spec(), y: self.y.neg_spec() }
    }
}

/// The components of `a + b`, for the vector `+`.
pub proof fn lemma_add_view<T: Add<Output = T>>(a: Vec2<T>, b: Vec2<T>)
    ensures
        a.add_spec(b)@ == (a@.0.add_spec(b@.0), a@.1.add_spec(b@.1)),
{
}

/// The components of `a - b`, for the vector `-`.
pub proof fn lemma_sub_view<T: Sub<Output = T>>(a: Vec2<T>, b: Vec2<T>)
    ensures
        a.sub_spec(b)@ == (a@.0.sub_spec(b@.0), a@.1.sub_spec(b@.1)),
{
}

/// The components of `-v`.
pub proof fn lemma_neg_view<T: Neg<Output = T>>(v: Vec2<T>)
    ensures
        v.neg_spec()@ == (v@.0.neg_spec(), v@.1.neg_spec()),
{
}

} // verus!
