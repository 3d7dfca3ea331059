use vstd::prelude::*;
use crate::scalar::{two, two_spec, Scalar};
use crate::traits::ApproxEq;
use crate::point::Point;

verus! {

/// A free direction or displacement in space.
#[derive(Debug, Clone, Copy, PartialEq)]
pub struct Vector<T> {
    pub x: T,
    pub y: T,
    pub z: T,
}

impl<T: Scalar> Vector<T> {
    /// The sum, component by component.
    pub open spec fn add_spec(self, other: Self) -> Self {
        Vector {
            x: self.x.add_spec(other.x),
            y: self.y.add_spec(other.y),
            z: self.z.add_spec(other.z),
        }
    }

    /// The difference, component by component.
    pub open spec fn sub_spec(self, other: Self) -> Self {
        Vector {
            x: self.x.sub_spec(other.x),
            y: self.y.sub_spec(other.y),
            z: self.z.sub_spec(other.z),
        }
    }

    /// The vector turned around.
    pub open spec fn neg_spec(self) -> Self {
        Vector { x: self.x.neg_spec(), y: self.y.neg_spec(), z: self.z.neg_spec() }
    }

    /// Each component times `factor`.
    pub open spec fn scale_spec(self, factor: T) -> Self {
        Vector {
            x: self.x.mul_spec(factor),
            y: self.y.mul_spec(factor),
            z: self.z.mul_spec(factor),
        }
    }

    /// Each component over `divisor`.
    pub open spec fn div_spec(self, divisor: T) -> Self {
        Vector {
            x: self.x.div_spec(divisor),
            y: self.y.div_spec(divisor),
            z: self.z.div_spec(divisor),
        }
    }

    /// `(x * x' + y * y') + z * z'`.
    pub open spec fn dot_spec(self, other: Self) -> T {
        self.x.mul_spec(other.x).add_spec(self.y.mul_spec(other.y)).add_spec(
            self.z.mul_spec(other.z),
        )
    }

    /// The vector that stands on both, by the right-hand rule.
    pub open spec fn cross_spec(self, other: Self) -> Self {
        Vector {
            x: self.y.mul_spec(other.z).sub_spec(self.z.mul_spec(other.y)),
            y: self.z.mul_spec(other.x).sub_spec(self.x.mul_spec(other.z)),
            z: self.x.mul_spec(other.y).sub_spec(self.y.mul_spec(other.x)),
        }
    }

    /// The square root of the vector's dot product with itself.
    pub open spec fn mag_spec(self) -> T {
        self.dot_spec(self).sqrt_spec()
    }

    /// The vector divided by its magnitude.
    pub open spec fn norm_spec(self) -> Self {
        self.div_spec(self.mag_spec())
    }

    /// `self - n * (2 * (self . n))`.
    pub open spec fn reflect_spec(self, n: Self) -> Self {
        self.sub_spec(n.scale_spec(two_spec::<T>().mul_spec(self.dot_spec(n))))
    }

    /// The point `other` moved by this vector, each coordinate being
    /// the vector's plus the point's.
    pub open spec fn add_point_spec(self, other: Point<T>) -> Point<T> {
        Point {
            x: self.x.add_spec(other.x),
            y: self.y.add_spec(other.y),
            z: self.z.add_spec(other.z),
        }
    }

    /// The vector of the given components.
    pub fn new(x: T, y: T, z: T) -> (v: Self)
        ensures
            v == (Vector { x, y, z }),
    {
        Vector { x, y, z }
    }

    /// The length of the vector.
    pub fn mag(&self) -> (r: T)
        ensures
            r == self.mag_spec(),
    {
        self.dot(*self).sqrt()
    }

    /// The sum of the products of the components of the two vectors.
    pub fn dot(&self, other: Self) -> (r: T)
        ensures
            r == self.dot_spec(other),
    {
        self.x.mul(other.x).add(self.y.mul(other.y)).add(self.z.mul(other.z))
    }

    /// The vector divided by its length. The vector without length has
    /// no direction: what comes of it is what the scalar makes of a
    /// division by zero.
    pub fn norm(&self) -> (r: Self)
        ensures
            r == self.norm_spec(),
    {
        self.div(self.mag())
    }

    /// The vector that stands on both, by the right-hand rule.
    pub fn cross(&self, other: Self) -> (r: Self)
        ensures
            r == self.cross_spec(other),
    {
        Vector {
            x: self.y.mul(other.z).sub(self.z.mul(other.y)),
            y: self.z.mul(other.x).sub(self.x.mul(other.z)),
            z: self.x.mul(other.y).sub(self.y.mul(other.x)),
        }
    }

    /// The vector thrown back by the surface whose normal is `n`.
    pub fn reflect(&self, n: Vector<T>) -> (r: Self)
        ensures
            r == self.reflect_spec(n),
    {
        let dot = self.dot(n);
        let twice: T = two();
        self.sub(n.scale(twice.mul(dot)))
    }

    /// The sum of the two vectors.
    pub fn add(self, other: Self) -> (r: Self)
        ensures
            r == self.add_spec(other),
    {
        Vector { x: self.x.add(other.x), y: self.y.add(other.y), z: self.z.add(other.z) }
    }

    /// The difference of the two vectors.
    pub fn sub(self, other: Self) -> (r: Self)
        ensures
            r == self.sub_spec(other),
    {
        Vector { x: self.x.sub(other.x), y: self.y.sub(other.y), z: self.z.sub(other.z) }
    }

    /// The vector turned around.
    pub fn neg(self) -> (r: Self)
        ensures
            r == self.neg_spec(),
    {
        Vector { x: self.x.neg(), y: self.y.neg(), z: self.z.neg() }
    }

    /// The vector with each component multiplied by `factor`.
    pub fn scale(self, factor: T) -> (r: Self)
        ensures
            r == self.scale_spec(factor),
    {
        Vector { x: self.x.mul(factor), y: self.y.mul(factor), z: self.z.mul(factor) }
    }

    /// The vector with each component divided by `divisor`.
    pub fn div(self, divisor: T) -> (r: Self)
        ensures
            r == self.div_spec(divisor),
    {
        Vector { x: self.x.div(divisor), y: self.y.div(divisor), z: self.z.div(divisor) }
    }

    /// The point `other` moved by this vector.
    pub fn add_point(self, other: Point<T>) -> (r: Point<T>)
        ensures
            r == self.add_point_spec(other),
    {
        Point { x: self.x.add(other.x), y: self.y.add(other.y), z: self.z.add(other.z) }
    }
}

impl<T: ApproxEq> ApproxEq for Vector<T> {
    /// Two vectors are approximately equal when each pair of components is.
    open spec fn approx_spec(&self, other: &Self) -> bool {
        self.x.approx_spec(&other.x) && self.y.approx_spec(&other.y) && self.z.approx_spec(
            &other.z,
        )
    }

    fn approx_cmp(&self, other: &Self) -> (b: bool) {
        self.x.approx_cmp(&other.x) && self.y.approx_cmp(&other.y) && self.z.approx_cmp(&other.z)
    }
}

} // verus!
