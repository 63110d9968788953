//! Vectors of three scalars, for positions, velocities and forces.

use crate::scalar::{zero, Scalar};
use vstd::prelude::*;
use vstd::std_specs::ops::{AddSpecImpl, MulSpecImpl, SubSpecImpl};

verus! {

/// A vector with the components `x`, `y` and `z`.
///
/// It is a plain value: two vectors with the same components are the same
/// vector. The methods that take `&mut self` change the vector in place; the
/// operators `+`, `-` and `*` return a new one.
#[derive(Debug, PartialEq)]
pub struct Vec3<S: Scalar> {
    pub x: S,
    pub y: S,
    pub z: S,
}

impl<S: Scalar> Clone for Vec3<S> {
    fn clone(&self) -> (v: Self)
        ensures
            v == *self,
    {
        *self
    }
}

impl<S: Scalar> Copy for Vec3<S> {

}

impl<S: Scalar> Vec3<S> {
    /// The vector `(0, 0, 0)`.
    pub open spec fn origin() -> Self {
        Vec3 { x: zero(), y: zero(), z: zero() }
    }

    /// `self + other`, component by component.
    pub open spec fn sum(self, other: Self) -> Self {
        Vec3 { x: self.x.sum(other.x), y: self.y.sum(other.y), z: self.z.sum(other.z) }
    }

    /// `self - other`, component by component.
    pub open spec fn difference(self, other: Self) -> Self {
        Vec3 {
            x: self.x.difference(other.x),
            y: self.y.difference(other.y),
            z: self.z.difference(other.z),
        }
    }

    /// Every component times `k`.
    pub open spec fn scaled(self, k: S) -> Self {
        Vec3 { x: self.x.product(k), y: self.y.product(k), z: self.z.product(k) }
    }

    /// `x * other.x + y * other.y + z * other.z`, added from the left.
    pub open spec fn dot_product(self, other: Self) -> S {
        self.x.product(other.x).sum(self.y.product(other.y)).sum(self.z.product(other.z))
    }

    /// The dot product of the vector with itself.
    pub open spec fn length_squared(self) -> S {
        self.dot_product(self)
    }

    /// The root of [`Self::length_squared`].
    pub open spec fn length(self) -> S {
        self.length_squared().root()
    }

    /// Every component divided by the length; the vector itself where its
    /// length compares equal to zero.
    pub open spec fn unit(self) -> Self {
        let m = self.length();
        if m.vanishes() {
            self
        } else {
            Vec3 { x: self.x.quotient(m), y: self.y.quotient(m), z: self.z.quotient(m) }
        }
    }

    /// The zero vector.
    pub fn new() -> (v: Self)
        ensures
            v == Self::origin(),
    {
        Vec3 { x: S::from_int(0), y: S::from_int(0), z: S::from_int(0) }
    }

    /// The vector with the given components.
    pub fn from_coords(x: S, y: S, z: S) -> (v: Self)
        ensures
            v == (Vec3 { x, y, z }),
    {
        Vec3 { x, y, z }
    }

    /// Adds `other` to this vector.
    pub fn add(&mut self, other: &Vec3<S>)
        ensures
            *final(self) == old(self).sum(*other),
    {
        self.x = self.x.plus(other.x);
        self.y = self.y.plus(other.y);
        self.z = self.z.plus(other.z);
    }

    /// Sets this vector to `target - current`: the way from `current` to
    /// `target`. What the vector held before is dropped.
    pub fn sub(&mut self, target: &Vec3<S>, current: &Vec3<S>)
        ensures
            *final(self) == target.difference(*current),
    {
        self.x = target.x.minus(current.x);
        self.y = target.y.minus(current.y);
        self.z = target.z.minus(current.z);
    }

    /// Multiplies every component by `k`.
    pub fn mult(&mut self, k: S)
        ensures
            *final(self) == old(self).scaled(k),
    {
        self.x = self.x.times(k);
        self.y = self.y.times(k);
        self.z = self.z.times(k);
    }

    /// The dot product with `other`.
    pub fn dot(&self, other: &Vec3<S>) -> (r: S)
        ensures
            r == self.dot_product(*other),
    {
        self.x.times(other.x).plus(self.y.times(other.y)).plus(self.z.times(other.z))
    }

    /// The square of the length.
    pub fn mag_squared(&self) -> (r: S)
        ensures
            r == self.length_squared(),
    {
        self.x.times(self.x).plus(self.y.times(self.y)).plus(self.z.times(self.z))
    }

    /// The length: the distance from the origin.
    pub fn magnitude(&self) -> (r: S)
        ensures
            r == self.length(),
    {
        self.mag_squared().sqrt()
    }

    /// Scales the vector to length one. A vector whose length compares equal
    /// to zero is left as it is.
    pub fn normalize(&mut self)
        ensures
            *final(self) == old(self).unit(),
    {
        let mag = self.magnitude();
        if !mag.is_zero() {
            self.x = self.x.over(mag);
            self.y = self.y.over(mag);
            self.z = self.z.over(mag);
        }
    }

    /// Takes over the components of `other`.
    pub fn copy(&mut self, other: &Vec3<S>)
        ensures
            *final(self) == *other,
    {
        self.x = other.x;
        self.y = other.y;
        self.z = other.z;
    }

    /// Sets the vector to zero.
    pub fn reset(&mut self)
        ensures
            *final(self) == Self::origin(),
    {
        self.x = S::from_int(0);
        self.y = S::from_int(0);
        self.z = S::from_int(0);
    }

    /// Normalizing the zero vector leaves the zero vector.
    pub proof fn zero_vector_keeps_under_normalize()
        ensures
            Self::origin().unit() == Self::origin(),
            Self::origin().length() == zero::<S>(),
    {
        S::zero_laws();
    }
}

impl<S: Scalar> Default for Vec3<S> {
    fn default() -> (v: Self)
        ensures
            v == Self::origin(),
    {
        Vec3::new()
    }
}

impl<S: Scalar> AddSpecImpl for Vec3<S> {
    open spec fn obeys_add_spec() -> bool {
        true
    }

    open spec fn add_req(self, other: Vec3<S>) -> bool {
        true
    }

    open spec fn add_spec(self, other: Vec3<S>) -> Vec3<S> {
        self.sum(other)
    }
}

impl<S: Scalar> core::ops::Add for Vec3<S> {
    type Output = Vec3<S>;

    fn add(self, other: Vec3<S>) -> (r: Vec3<S>) {
        Vec3::from_coords(self.x.plus(other.x), self.y.plus(other.y), self.z.plus(other.z))
    }
}

impl<S: Scalar> SubSpecImpl for Vec3<S> {
    open spec fn obeys_sub_spec() -> bool {
        true
    }

    open spec fn sub_req(self, other: Vec3<S>) -> bool {
        true
    }

    open spec fn sub_spec(self, other: Vec3<S>) -> Vec3<S> {
        self.difference(other)
    }
}

impl<S: Scalar> core::ops::Sub for Vec3<S> {
    type Output = Vec3<S>;

    fn sub(self, other: Vec3<S>) -> (r: Vec3<S>) {
        Vec3::from_coords(self.x.minus(other.x), self.y.minus(other.y), self.z.minus(other.z))
    }
}

impl<S: Scalar> MulSpecImpl<S> for Vec3<S> {
    open spec fn obeys_mul_spec() -> bool {
        true
    }

    open spec fn mul_req(self, scalar: S) -> bool {
        true
    }

    open spec fn mul_spec(self, scalar: S) -> Vec3<S> {
        self.scaled(scalar)
    }
}

impl<S: Scalar> core::ops::Mul<S> for Vec3<S> {
    type Output = Vec3<S>;

    fn mul(self, scalar: S) -> (r: Vec3<S>) {
        Vec3::from_coords(self.x.times(scalar), self.y.times(scalar), self.z.times(scalar))
    }
}

} // verus!
