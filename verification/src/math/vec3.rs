use std::ops::{Add, AddAssign, Div, Mul, Neg, Sub, SubAssign};

use vstd::prelude::*;
use vstd::std_specs::ops::{AddSpec, DivSpec, MulSpec, NegSpec, SubSpec};

use crate::math::{
    add_returns, div_returns, mul_returns, sqrt_returns, sub_returns, One, SquareRoot,
};

verus! {

/// A three-dimensional vector over the scalar type `T`.
#[derive(Debug, Clone, Copy)]
pub struct Vec3<T> {
    pub x: T,
    pub y: T,
    pub z: T,
}

impl<T: Copy + Add<Output = T> + Mul<Output = T>> Vec3<T> {
    /// The value `dot` computes: `x * rhs.x + y * rhs.y + z * rhs.z`, by `T`'s operators,
    /// summed from the left.
    pub open spec fn dot_spec(self, rhs: Self) -> T {
        self.x.mul_spec(rhs.x).add_spec(self.y.mul_spec(rhs.y)).add_spec(self.z.mul_spec(rhs.z))
    }

    /// What `dot` requires: `T`'s `*` accepts each pair of components, and its `+`
    /// accepts every pair of values that it is then given.
    pub open spec fn dot_req(self, rhs: Self) -> bool {
        &&& self.x.mul_req(rhs.x)
        &&& self.y.mul_req(rhs.y)
        &&& self.z.mul_req(rhs.z)
        &&& forall|p: T, q: T|
            mul_returns(self.x, rhs.x, p) && mul_returns(self.y, rhs.y, q) ==> p.add_req(q)
        &&& forall|p: T, q: T, s: T, u: T|
            mul_returns(self.x, rhs.x, p) && mul_returns(self.y, rhs.y, q) && add_returns(p, q, s)
                && mul_returns(self.z, rhs.z, u) ==> s.add_req(u)
    }

    /// `r` is a value that `dot` may return: `(x * rhs.x + y * rhs.y) + z * rhs.z`,
    /// each operation being a value that `T`'s operator may return.
    pub open spec fn dot_returns(self, rhs: Self, r: T) -> bool {
        exists|p: T, q: T, s: T, u: T|
            mul_returns(self.x, rhs.x, p) && mul_returns(self.y, rhs.y, q) && add_returns(p, q, s)
                && mul_returns(self.z, rhs.z, u) && add_returns(s, u, r)
    }

    /// Every operation of `dot_spec` is defined on the values it is given (for
    /// integers: nothing overflows).
    pub open spec fn dot_defined(self, rhs: Self) -> bool {
        &&& self.x.mul_req(rhs.x)
        &&& self.y.mul_req(rhs.y)
        &&& self.z.mul_req(rhs.z)
        &&& self.x.mul_spec(rhs.x).add_req(self.y.mul_spec(rhs.y))
        &&& self.x.mul_spec(rhs.x).add_spec(self.y.mul_spec(rhs.y)).add_req(self.z.mul_spec(rhs.z))
    }
}

impl<T: Copy + Sub<Output = T> + Mul<Output = T>> Vec3<T> {
    /// `a * b - c * d`, by `T`'s operators.
    pub open spec fn cross_term(a: T, b: T, c: T, d: T) -> T {
        a.mul_spec(b).sub_spec(c.mul_spec(d))
    }

    /// `cross_term` is defined on the values it is given.
    pub open spec fn cross_term_defined(a: T, b: T, c: T, d: T) -> bool {
        a.mul_req(b) && c.mul_req(d) && a.mul_spec(b).sub_req(c.mul_spec(d))
    }

    /// `T` accepts `a * b - c * d`: both products, and the difference of every pair
    /// of values that they may return.
    pub open spec fn cross_term_req(a: T, b: T, c: T, d: T) -> bool {
        &&& a.mul_req(b)
        &&& c.mul_req(d)
        &&& forall|p: T, q: T| mul_returns(a, b, p) && mul_returns(c, d, q) ==> p.sub_req(q)
    }

    /// `r` is a value that `a * b - c * d` may return by `T`'s operators.
    pub open spec fn cross_term_returns(a: T, b: T, c: T, d: T, r: T) -> bool {
        exists|p: T, q: T| mul_returns(a, b, p) && mul_returns(c, d, q) && sub_returns(p, q, r)
    }

    /// The value `cross` computes: the cross product `lhs x rhs`.
    pub open spec fn cross_spec(lhs: Self, rhs: Self) -> Self {
        Vec3 {
            x: Self::cross_term(lhs.y, rhs.z, lhs.z, rhs.y),
            y: Self::cross_term(lhs.z, rhs.x, lhs.x, rhs.z),
            z: Self::cross_term(lhs.x, rhs.y, lhs.y, rhs.x),
        }
    }

    /// What `cross` requires: `T` accepts each of its products and differences.
    pub open spec fn cross_req(lhs: Self, rhs: Self) -> bool {
        &&& Self::cross_term_req(lhs.y, rhs.z, lhs.z, rhs.y)
        &&& Self::cross_term_req(lhs.z, rhs.x, lhs.x, rhs.z)
        &&& Self::cross_term_req(lhs.x, rhs.y, lhs.y, rhs.x)
    }

    /// `r` is a value that `cross` may return: each component is a value that its
    /// `a * b - c * d` may return.
    pub open spec fn cross_returns(lhs: Self, rhs: Self, r: Self) -> bool {
        &&& Self::cross_term_returns(lhs.y, rhs.z, lhs.z, rhs.y, r.x)
        &&& Self::cross_term_returns(lhs.z, rhs.x, lhs.x, rhs.z, r.y)
        &&& Self::cross_term_returns(lhs.x, rhs.y, lhs.y, rhs.x, r.z)
    }

    /// Every operation of `cross_spec` is defined on the values it is given (for
    /// integers: nothing overflows).
    pub open spec fn cross_defined(lhs: Self, rhs: Self) -> bool {
        &&& Self::cross_term_defined(lhs.y, rhs.z, lhs.z, rhs.y)
        &&& Self::cross_term_defined(lhs.z, rhs.x, lhs.x, rhs.z)
        &&& Self::cross_term_defined(lhs.x, rhs.y, lhs.y, rhs.x)
    }
}

impl<T: Copy + Add<Output = T> + Sub<Output = T> + Mul<Output = T> + One> Vec3<T> {
    /// One component of `lerp`: `a * (ONE - t) + b * t`.
    pub open spec fn lerp_term(a: T, b: T, t: T) -> T {
        a.mul_spec(T::ONE.sub_spec(t)).add_spec(b.mul_spec(t))
    }

    /// `T` accepts one component of `lerp`, `a * (ONE - t) + b * t`: every operation,
    /// on every value that the operations before it may return.
    pub open spec fn lerp_term_req(a: T, b: T, t: T) -> bool {
        &&& T::ONE.sub_req(t)
        &&& forall|s: T| sub_returns(T::ONE, t, s) ==> a.mul_req(s)
        &&& b.mul_req(t)
        &&& forall|s: T, p: T, q: T|
            sub_returns(T::ONE, t, s) && mul_returns(a, s, p) && mul_returns(b, t, q)
                ==> p.add_req(q)
    }

    /// `r` is a value that `a * (ONE - t) + b * t` may return by `T`'s operators.
    pub open spec fn lerp_term_returns(a: T, b: T, t: T, r: T) -> bool {
        exists|s: T, p: T, q: T|
            sub_returns(T::ONE, t, s) && mul_returns(a, s, p) && mul_returns(b, t, q)
                && add_returns(p, q, r)
    }

    /// The value `lerp` computes.
    pub open spec fn lerp_spec(lhs: Self, rhs: Self, t: T) -> Self {
        Vec3 {
            x: Self::lerp_term(lhs.x, rhs.x, t),
            y: Self::lerp_term(lhs.y, rhs.y, t),
            z: Self::lerp_term(lhs.z, rhs.z, t),
        }
    }

    /// What `lerp` requires: `T` accepts each of its components.
    pub open spec fn lerp_req(lhs: Self, rhs: Self, t: T) -> bool {
        &&& Self::lerp_term_req(lhs.x, rhs.x, t)
        &&& Self::lerp_term_req(lhs.y, rhs.y, t)
        &&& Self::lerp_term_req(lhs.z, rhs.z, t)
    }

    /// `r` is a value that `lerp` may return.
    pub open spec fn lerp_returns(lhs: Self, rhs: Self, t: T, r: Self) -> bool {
        &&& Self::lerp_term_returns(lhs.x, rhs.x, t, r.x)
        &&& Self::lerp_term_returns(lhs.y, rhs.y, t, r.y)
        &&& Self::lerp_term_returns(lhs.z, rhs.z, t, r.z)
    }
}

impl<T: Copy + Clone> Vec3<T> {
    pub fn new(x: T, y: T, z: T) -> (r: Self)
        ensures
            r == (Vec3 { x, y, z }),
    {
        Self { x, y, z }
    }

    pub fn splat(v: T) -> (r: Self)
        ensures
            r == (Vec3 { x: v, y: v, z: v }),
    {
        Self { x: v, y: v, z: v }
    }

    pub fn from_array(v: [T; 3]) -> (r: Self)
        ensures
            r == (Vec3 { x: v[0], y: v[1], z: v[2] }),
    {
        Self::new(v[0], v[1], v[2])
    }

    pub fn to_array(self) -> (r: [T; 3])
        ensures
            r@ == seq![self.x, self.y, self.z],
    {
        [self.x, self.y, self.z]
    }

    pub fn as_array(&self) -> (r: [T; 3])
        ensures
            r@ == seq![self.x, self.y, self.z],
    {
        [self.x, self.y, self.z]
    }

    /// Applies `f` to each component.
    pub fn map(&self, f: impl Fn(T) -> T) -> (r: Self)
        requires
            f.requires((self.x,)),
            f.requires((self.y,)),
            f.requires((self.z,)),
        ensures
            f.ensures((self.x,), r.x),
            f.ensures((self.y,), r.y),
            f.ensures((self.z,), r.z),
    {
        Self { x: f(self.x), y: f(self.y), z: f(self.z) }
    }

    pub fn dot(&self, rhs: &Self) -> (r: T)
        where
            T: Add<Output = T> + Mul<Output = T>,
        requires
            self.dot_req(*rhs),
        ensures
            self.dot_returns(*rhs, r),
            T::obeys_add_spec() && T::obeys_mul_spec() ==> r == self.dot_spec(*rhs),
    {
        let p = self.x * rhs.x;
        let q = self.y * rhs.y;
        let s = p + q;
        let u = self.z * rhs.z;
        s + u
    }

    pub fn cross(lhs: &Self, rhs: &Self) -> (r: Self)
        where
            T: Sub<Output = T> + Mul<Output = T>,
        requires
            Self::cross_req(*lhs, *rhs),
        ensures
            Self::cross_returns(*lhs, *rhs, r),
            T::obeys_sub_spec() && T::obeys_mul_spec() ==> r == Self::cross_spec(*lhs, *rhs),
    {
        let x = {
            let p = lhs.y * rhs.z;
            let q = lhs.z * rhs.y;
            p - q
        };
        let y = {
            let p = lhs.z * rhs.x;
            let q = lhs.x * rhs.z;
            p - q
        };
        let z = {
            let p = lhs.x * rhs.y;
            let q = lhs.y * rhs.x;
            p - q
        };
        Self { x, y, z }
    }

    pub fn length_squared(&self) -> (r: T)
        where
            T: Add<Output = T> + Mul<Output = T>,
        requires
            self.dot_req(*self),
        ensures
            self.dot_returns(*self, r),
            T::obeys_add_spec() && T::obeys_mul_spec() ==> r == self.dot_spec(*self),
    {
        self.dot(self)
    }

    /// The square root, by `T::sqrt`, of the squared length.
    pub fn length(&self) -> (r: T)
        where
            T: Add<Output = T> + Mul<Output = T> + SquareRoot,
        requires
            self.dot_req(*self),
        ensures
            exists|l: T| self.dot_returns(*self, l) && sqrt_returns(l, r),
            T::obeys_add_spec() && T::obeys_mul_spec() ==> sqrt_returns(self.dot_spec(*self), r),
    {
        let l = self.length_squared();
        l.sqrt()
    }

    /// Divides each component by the length.
    pub fn normalized(&self) -> (r: Self)
        where
            T: Add<Output = T> + Mul<Output = T> + Div<Output = T> + SquareRoot,
        requires
            self.dot_req(*self),
            forall|l: T, s: T|
                self.dot_returns(*self, l) && #[trigger] sqrt_returns(l, s) ==> self.x.div_req(s)
                    && self.y.div_req(s) && self.z.div_req(s),
        ensures
            exists|l: T, s: T|
                self.dot_returns(*self, l) && #[trigger] sqrt_returns(l, s) && div_returns(
                    self.x,
                    s,
                    r.x,
                ) && div_returns(self.y, s, r.y) && div_returns(self.z, s, r.z) && (
                T::obeys_div_spec() ==> r == (Vec3 {
                    x: self.x.div_spec(s),
                    y: self.y.div_spec(s),
                    z: self.z.div_spec(s),
                })),
            T::obeys_add_spec() && T::obeys_mul_spec() ==> exists|s: T|
                #[trigger] sqrt_returns(self.dot_spec(*self), s) && div_returns(self.x, s, r.x)
                    && div_returns(self.y, s, r.y) && div_returns(self.z, s, r.z),
    {
        let l = self.length_squared();
        let s = l.sqrt();
        let r = *self / s;
        assert(sqrt_returns(l, s));
        r
    }

    /// Linear interpolation: `lhs * (ONE - t) + rhs * t`, component by component.
    pub fn lerp(lhs: &Self, rhs: &Self, t: T) -> (r: Self)
        where
            T: Add<Output = T> + Sub<Output = T> + Mul<Output = T> + One,
        requires
            Self::lerp_req(*lhs, *rhs, t),
        ensures
            Self::lerp_returns(*lhs, *rhs, t, r),
            T::obeys_add_spec() && T::obeys_sub_spec() && T::obeys_mul_spec() ==> r
                == Self::lerp_spec(*lhs, *rhs, t),
    {
        let f = |v: T| -> (o: T)
            requires
                T::ONE.sub_req(t),
                forall|s: T| sub_returns(T::ONE, t, s) ==> v.mul_req(s),
            ensures
                exists|s: T| sub_returns(T::ONE, t, s) && mul_returns(v, s, o),
                T::obeys_sub_spec() && T::obeys_mul_spec() ==> o == v.mul_spec(
                    T::ONE.sub_spec(t),
                ),
        {
            let s = T::ONE - t;
            v * s
        };
        let g = |v: T| -> (o: T)
            requires
                v.mul_req(t),
            ensures
                mul_returns(v, t, o),
                T::obeys_mul_spec() ==> o == v.mul_spec(t),
        {
            v * t
        };
        let a = lhs.map(f);
        let b = rhs.map(g);
        a + b
    }
}

/// Scalar Operations
impl<T: Copy + Add<Output = T>> Add<T> for Vec3<T> {
    type Output = Self;

    fn add(self, rhs: T) -> (r: Self::Output)
        ensures
            call_ensures(T::add, (self.x, rhs), r.x),
            call_ensures(T::add, (self.y, rhs), r.y),
            call_ensures(T::add, (self.z, rhs), r.z),
            T::obeys_add_spec() ==> r == (Vec3 {
                x: self.x.add_spec(rhs),
                y: self.y.add_spec(rhs),
                z: self.z.add_spec(rhs),
            }),
    {
        let f = |v: T| -> (o: T)
            requires
                v.add_req(rhs),
            ensures
                call_ensures(T::add, (v, rhs), o),
                T::obeys_add_spec() ==> o == v.add_spec(rhs),
        {
            v + rhs
        };
        self.map(f)
    }
}

impl<T: Copy + Add<Output = T>> vstd::std_specs::ops::AddSpecImpl<T> for Vec3<T> {
    open spec fn obeys_add_spec() -> bool {
        T::obeys_add_spec()
    }

    open spec fn add_req(self, rhs: T) -> bool {
        self.x.add_req(rhs) && self.y.add_req(rhs) && self.z.add_req(rhs)
    }

    open spec fn add_spec(self, rhs: T) -> Self {
        Vec3 { x: self.x.add_spec(rhs), y: self.y.add_spec(rhs), z: self.z.add_spec(rhs) }
    }
}

impl<T: Copy + Sub<Output = T>> Sub<T> for Vec3<T> {
    type Output = Self;

    fn sub(self, rhs: T) -> (r: Self::Output)
        ensures
            call_ensures(T::sub, (self.x, rhs), r.x),
            call_ensures(T::sub, (self.y, rhs), r.y),
            call_ensures(T::sub, (self.z, rhs), r.z),
            T::obeys_sub_spec() ==> r == (Vec3 {
                x: self.x.sub_spec(rhs),
                y: self.y.sub_spec(rhs),
                z: self.z.sub_spec(rhs),
            }),
    {
        let f = |v: T| -> (o: T)
            requires
                v.sub_req(rhs),
            ensures
                call_ensures(T::sub, (v, rhs), o),
                T::obeys_sub_spec() ==> o == v.sub_spec(rhs),
        {
            v - rhs
        };
        self.map(f)
    }
}

impl<T: Copy + Sub<Output = T>> vstd::std_specs::ops::SubSpecImpl<T> for Vec3<T> {
    open spec fn obeys_sub_spec() -> bool {
        T::obeys_sub_spec()
    }

    open spec fn sub_req(self, rhs: T) -> bool {
        self.x.sub_req(rhs) && self.y.sub_req(rhs) && self.z.sub_req(rhs)
    }

    open spec fn sub_spec(self, rhs: T) -> Self {
        Vec3 { x: self.x.sub_spec(rhs), y: self.y.sub_spec(rhs), z: self.z.sub_spec(rhs) }
    }
}

impl<T: Copy + Mul<Output = T>> Mul<T> for Vec3<T> {
    type Output = Self;

    fn mul(self, rhs: T) -> (r: Self::Output)
        ensures
            call_ensures(T::mul, (self.x, rhs), r.x),
            call_ensures(T::mul, (self.y, rhs), r.y),
            call_ensures(T::mul, (self.z, rhs), r.z),
            T::obeys_mul_spec() ==> r == (Vec3 {
                x: self.x.mul_spec(rhs),
                y: self.y.mul_spec(rhs),
                z: self.z.mul_spec(rhs),
            }),
    {
        let f = |v: T| -> (o: T)
            requires
                v.mul_req(rhs),
            ensures
                call_ensures(T::mul, (v, rhs), o),
                T::obeys_mul_spec() ==> o == v.mul_spec(rhs),
        {
            v * rhs
        };
        self.map(f)
    }
}

impl<T: Copy + Mul<Output = T>> vstd::std_specs::ops::MulSpecImpl<T> for Vec3<T> {
    open spec fn obeys_mul_spec() -> bool {
        T::obeys_mul_spec()
    }

    open spec fn mul_req(self, rhs: T) -> bool {
        self.x.mul_req(rhs) && self.y.mul_req(rhs) && self.z.mul_req(rhs)
    }

    open spec fn mul_spec(self, rhs: T) -> Self {
        Vec3 { x: self.x.mul_spec(rhs), y: self.y.mul_spec(rhs), z: self.z.mul_spec(rhs) }
    }
}

impl<T: Copy + Div<Output = T>> Div<T> for Vec3<T> {
    type Output = Self;

    fn div(self, rhs: T) -> (r: Self::Output)
        ensures
            call_ensures(T::div, (self.x, rhs), r.x),
            call_ensures(T::div, (self.y, rhs), r.y),
            call_ensures(T::div, (self.z, rhs), r.z),
            T::obeys_div_spec() ==> r == (Vec3 {
                x: self.x.div_spec(rhs),
                y: self.y.div_spec(rhs),
                z: self.z.div_spec(rhs),
            }),
    {
        let f = |v: T| -> (o: T)
            requires
                v.div_req(rhs),
            ensures
                call_ensures(T::div, (v, rhs), o),
                T::obeys_div_spec() ==> o == v.div_spec(rhs),
        {
            v / rhs
        };
        self.map(f)
    }
}

impl<T: Copy + Div<Output = T>> vstd::std_specs::ops::DivSpecImpl<T> for Vec3<T> {
    open spec fn obeys_div_spec() -> bool {
        T::obeys_div_spec()
    }

    open spec fn div_req(self, rhs: T) -> bool {
        self.x.div_req(rhs) && self.y.div_req(rhs) && self.z.div_req(rhs)
    }

    open spec fn div_spec(self, rhs: T) -> Self {
        Vec3 { x: self.x.div_spec(rhs), y: self.y.div_spec(rhs), z: self.z.div_spec(rhs) }
    }
}

/// Vector Operations
impl<T: Add<Output = T>> Add for Vec3<T> {
    type Output = Self;

    fn add(self, rhs: Self) -> (r: Self::Output)
        ensures
            call_ensures(T::add, (self.x, rhs.x), r.x),
            call_ensures(T::add, (self.y, rhs.y), r.y),
            call_ensures(T::add, (self.z, rhs.z), r.z),
            T::obeys_add_spec() ==> r == (Vec3 {
                x: self.x.add_spec(rhs.x),
                y: self.y.add_spec(rhs.y),
                z: self.z.add_spec(rhs.z),
            }),
    {
        Self { x: self.x + rhs.x, y: self.y + rhs.y, z: self.z + rhs.z }
    }
}

impl<T: Add<Output = T>> vstd::std_specs::ops::AddSpecImpl for Vec3<T> {
    open spec fn obeys_add_spec() -> bool {
        T::obeys_add_spec()
    }

    open spec fn add_req(self, rhs: Self) -> bool {
        self.x.add_req(rhs.x) && self.y.add_req(rhs.y) && self.z.add_req(rhs.z)
    }

    open spec fn add_spec(self, rhs: Self) -> Self {
        Vec3 { x: self.x.add_spec(rhs.x), y: self.y.add_spec(rhs.y), z: self.z.add_spec(rhs.z) }
    }
}

impl<T: Sub<Output = T>> Sub for Vec3<T> {
    type Output = Self;

    fn sub(self, rhs: Self) -> (r: Self::Output)
        ensures
            call_ensures(T::sub, (self.x, rhs.x), r.x),
            call_ensures(T::sub, (self.y, rhs.y), r.y),
            call_ensures(T::sub, (self.z, rhs.z), r.z),
            T::obeys_sub_spec() ==> r == (Vec3 {
                x: self.x.sub_spec(rhs.x),
                y: self.y.sub_spec(rhs.y),
                z: self.z.sub_spec(rhs.z),
            }),
    {
        Self { x: self.x - rhs.x, y: self.y - rhs.y, z: self.z - rhs.z }
    }
}

impl<T: Sub<Output = T>> vstd::std_specs::ops::SubSpecImpl for Vec3<T> {
    open spec fn obeys_sub_spec() -> bool {
        T::obeys_sub_spec()
    }

    open spec fn sub_req(self, rhs: Self) -> bool {
        self.x.sub_req(rhs.x) && self.y.sub_req(rhs.y) && self.z.sub_req(rhs.z)
    }

    open spec fn sub_spec(self, rhs: Self) -> Self {
        Vec3 { x: self.x.sub_spec(rhs.x), y: self.y.sub_spec(rhs.y), z: self.z.sub_spec(rhs.z) }
    }
}

impl<T: Neg<Output = T>> Neg for Vec3<T> {
    type Output = Self;

    fn neg(self) -> (r: Self::Output)
        ensures
            call_ensures(T::neg, (self.x,), r.x),
            call_ensures(T::neg, (self.y,), r.y),
            call_ensures(T::neg, (self.z,), r.z),
            T::obeys_neg_spec() ==> r == (Vec3 { x: self.x.neg_spec(), y: self.y.neg_spec(), z: self.z.neg_spec() }),
    {
        Self { x: self.x.neg(), y: self.y.neg(), z: self.z.neg() }
    }
}

impl<T: Neg<Output = T>> vstd::std_specs::ops::NegSpecImpl for Vec3<T> {
    open spec fn obeys_neg_spec() -> bool {
        T::obeys_neg_spec()
    }

    open spec fn neg_req(self) -> bool {
        self.x.neg_req() && self.y.neg_req() && self.z.neg_req()
    }

    open spec fn neg_spec(self) -> Self {
        Vec3 { x: self.x.neg_spec(), y: self.y.neg_spec(), z: self.z.neg_spec() }
    }
}

impl<T: Copy + Add<Output = T>> AddAssign for Vec3<T> {
    /// Adds `rhs` component by component, as `*self + rhs` does.
    fn add_assign(&mut self, rhs: Self)
        requires
            old(self).x.add_req(rhs.x),
            old(self).y.add_req(rhs.y),
            old(self).z.add_req(rhs.z),
        ensures
            call_ensures(T::add, (old(self).x, rhs.x), final(self).x),
            call_ensures(T::add, (old(self).y, rhs.y), final(self).y),
            call_ensures(T::add, (old(self).z, rhs.z), final(self).z),
            T::obeys_add_spec() ==> *final(self) == (Vec3 {
                x: old(self).x.add_spec(rhs.x),
                y: old(self).y.add_spec(rhs.y),
                z: old(self).z.add_spec(rhs.z),
            }),
    {
        self.x = self.x + rhs.x;
        self.y = self.y + rhs.y;
        self.z = self.z + rhs.z;
    }
}

impl<T: Copy + Sub<Output = T>> SubAssign for Vec3<T> {
    /// Subtracts `rhs` component by component, as `*self - rhs` does.
    fn sub_assign(&mut self, rhs: Self)
        requires
            old(self).x.sub_req(rhs.x),
            old(self).y.sub_req(rhs.y),
            old(self).z.sub_req(rhs.z),
        ensures
            call_ensures(T::sub, (old(self).x, rhs.x), final(self).x),
            call_ensures(T::sub, (old(self).y, rhs.y), final(self).y),
            call_ensures(T::sub, (old(self).z, rhs.z), final(self).z),
            T::obeys_sub_spec() ==> *final(self) == (Vec3 {
                x: old(self).x.sub_spec(rhs.x),
                y: old(self).y.sub_spec(rhs.y),
                z: old(self).z.sub_spec(rhs.z),
            }),
    {
        self.x = self.x - rhs.x;
        self.y = self.y - rhs.y;
        self.z = self.z - rhs.z;
    }
}

} // verus!
