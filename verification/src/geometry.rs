use vstd::prelude::*;
use crate::matrix::{Matrix, MatrixError};
use crate::point::Point;
use crate::ray::Ray;
use crate::scalar::Scalar;
use crate::vector::Vector;

verus! {

/// A shape that a ray can meet. It carries a transform from its own space
/// to the world's.
pub trait Geometry<T: Scalar> {
    /// Puts `transform`, which is 4 by 4, before the transform the shape
    /// has.
    fn set_transform(&mut self, transform: Matrix<T>)
        requires
            transform.rows() == 4,
            transform.cols() == 4,
    ;

    /// The distances along `ray` at which it meets the shape.
    fn intersect(&self, ray: &Ray<T>) -> Result<Vec<T>, MatrixError>;

    /// The direction that stands on the shape at `point`.
    fn normal(&self, point: Point<T>) -> Result<Vector<T>, MatrixError>;
}

} // verus!
