use vstd::prelude::*;
use crate::matrix::{transform_point_spec, transform_vector_spec, Matrix};
use crate::point::Point;
use crate::scalar::Scalar;
use crate::vector::Vector;

verus! {

/// A half-line: where it starts and which way it goes.
#[derive(Debug, Clone, Copy, PartialEq)]
pub struct Ray<T> {
    pub origin: Point<T>,
    pub direction: Vector<T>,
}

impl<T: Scalar> Ray<T> {
    /// The point `origin + direction * t`.
    pub open spec fn evaluate_spec(self, t: T) -> Point<T> {
        self.origin.add_vector_spec(self.direction.scale_spec(t))
    }

    /// The ray under the transform `m`: its origin moved as a location, its
    /// direction as a direction.
    pub open spec fn transformed_spec(self, m: Seq<Seq<T>>) -> Ray<T> {
        Ray {
            origin: transform_point_spec(m, self.origin),
            direction: transform_vector_spec(m, self.direction),
        }
    }

    /// The ray from `origin` along `direction`.
    pub fn new(origin: Point<T>, direction: Vector<T>) -> (r: Ray<T>)
        ensures
            r == (Ray { origin, direction }),
    {
        Ray { origin, direction }
    }

    /// The point at `distance` along the ray.
    pub fn point_at(&self, distance: T) -> (p: Point<T>)
        ensures
            p == self.evaluate_spec(distance),
    {
        self.origin.add_vector(self.direction.scale(distance))
    }

    /// The point at the parameter `t` along the ray.
    pub fn evaluate(&self, t: T) -> (p: Point<T>)
        ensures
            p == self.evaluate_spec(t),
    {
        self.origin.add_vector(self.direction.scale(t))
    }
}

impl<T: Scalar> Matrix<T> {
    /// The ray `ray` under this transform, which is 4 by 4.
    pub fn transform_ray(&self, ray: &Ray<T>) -> (r: Ray<T>)
        requires
            self.rows() == 4,
            self.cols() == 4,
        ensures
            r == ray.transformed_spec(self@),
    {
        Ray {
            origin: self.transform_point(ray.origin),
            direction: self.transform_vector(ray.direction),
        }
    }
}

} // verus!
