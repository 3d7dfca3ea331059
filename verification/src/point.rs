use vstd::prelude::*;
use crate::scalar::Scalar;
use crate::vector::Vector;

verus! {

/// A fixed location in space.
#[derive(Debug, Clone, Copy, PartialEq)]
pub struct Point<T> {
    pub x: T,
    pub y: T,
    pub z: T,
}

impl<T: Scalar> Point<T> {
    /// The displacement that leads from `other` to `self`.
    pub open spec fn sub_spec(self, other: Self) -> Vector<T> {
        Vector {
            x: self.x.sub_spec(other.x),
            y: self.y.sub_spec(other.y),
            z: self.z.sub_spec(other.z),
        }
    }

    /// The point moved by `v`.
    pub open spec fn add_vector_spec(self, v: Vector<T>) -> Self {
        Point { x: self.x.add_spec(v.x), y: self.y.add_spec(v.y), z: self.z.add_spec(v.z) }
    }

    /// The point moved against `v`.
    pub open spec fn sub_vector_spec(self, v: Vector<T>) -> Self {
        Point { x: self.x.sub_spec(v.x), y: self.y.sub_spec(v.y), z: self.z.sub_spec(v.z) }
    }

    /// The point across the origin.
    pub open spec fn neg_spec(self) -> Self {
        Point { x: self.x.neg_spec(), y: self.y.neg_spec(), z: self.z.neg_spec() }
    }

    /// Each coordinate times `factor`.
    pub open spec fn scale_spec(self, factor: T) -> Self {
        Point {
            x: self.x.mul_spec(factor),
            y: self.y.mul_spec(factor),
            z: self.z.mul_spec(factor),
        }
    }

    /// `(x * x' + y * y') + z * z'`.
    pub open spec fn dot_spec(self, other: Self) -> T {
        self.x.mul_spec(other.x).add_spec(self.y.mul_spec(other.y)).add_spec(
            self.z.mul_spec(other.z),
        )
    }

    /// The distance of the point from the origin.
    pub open spec fn norm_spec(self) -> T {
        self.dot_spec(self).sqrt_spec()
    }

    /// The point of the given coordinates.
    pub fn new(x: T, y: T, z: T) -> (p: Self)
        ensures
            p == (Point { x, y, z }),
    {
        Point { x, y, z }
    }

    /// The distance of the point from the origin.
    pub fn norm(&self) -> (r: T)
        ensures
            r == self.norm_spec(),
    {
        self.dot(*self).sqrt()
    }

    /// The displacement that leads from `other` to `self`.
    pub fn sub(self, other: Self) -> (r: Vector<T>)
        ensures
            r == self.sub_spec(other),
    {
        Vector { x: self.x.sub(other.x), y: self.y.sub(other.y), z: self.z.sub(other.z) }
    }

    /// The point moved by `v`.
    pub fn add_vector(self, v: Vector<T>) -> (r: Self)
        ensures
            r == self.add_vector_spec(v),
    {
        Point { x: self.x.add(v.x), y: self.y.add(v.y), z: self.z.add(v.z) }
    }

    /// The point moved against `v`.
    pub fn sub_vector(self, v: Vector<T>) -> (r: Self)
        ensures
            r == self.sub_vector_spec(v),
    {
        Point { x: self.x.sub(v.x), y: self.y.sub(v.y), z: self.z.sub(v.z) }
    }

    /// The point across the origin.
    pub fn neg(self) -> (r: Self)
        ensures
            r == self.neg_spec(),
    {
        Point { x: self.x.neg(), y: self.y.neg(), z: self.z.neg() }
    }

    /// The point with each coordinate multiplied by `factor`.
    pub fn scale(self, factor: T) -> (r: Self)
        ensures
            r == self.scale_spec(factor),
    {
        Point { x: self.x.mul(factor), y: self.y.mul(factor), z: self.z.mul(factor) }
    }

    /// The sum of the products of the coordinates of the two points.
    pub fn dot(self, other: Self) -> (r: T)
        ensures
            r == self.dot_spec(other),
    {
        self.x.mul(other.x).add(self.y.mul(other.y)).add(self.z.mul(other.z))
    }
}

} // verus!
