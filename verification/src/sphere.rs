use vstd::prelude::*;
use crate::geometry::Geometry;
use crate::matrix::{
    det_spec, identity_spec, inverse_spec, product_spec, transform_point_spec,
    transform_vector_spec, transpose_spec, Matrix, MatrixError,
};
use crate::point::Point;
use crate::ray::Ray;
use crate::scalar::{four, four_spec, is_zero_spec, two, two_spec, Scalar};
use crate::vector::Vector;

verus! {

/// `b * b - (4 * a) * c` of the equation `a t^2 + b t + c = 0`.
pub open spec fn discriminant_spec<T: Scalar>(a: T, b: T, c: T) -> T {
    b.mul_spec(b).sub_spec(four_spec::<T>().mul_spec(a).mul_spec(c))
}

/// The root `(-b - sqrt(d)) / (2 * a)` of the equation with the
/// discriminant `d`.
pub open spec fn near_root_spec<T: Scalar>(a: T, b: T, d: T) -> T {
    b.neg_spec().sub_spec(d.sqrt_spec()).div_spec(two_spec::<T>().mul_spec(a))
}

/// The root `(-b + sqrt(d)) / (2 * a)` of the equation with the
/// discriminant `d`.
pub open spec fn far_root_spec<T: Scalar>(a: T, b: T, d: T) -> T {
    b.neg_spec().add_spec(d.sqrt_spec()).div_spec(two_spec::<T>().mul_spec(a))
}

/// The distances along `ray` at which it meets the sphere about `center`
/// with the radius `radius`, both in the sphere's own space: none where the
/// discriminant is below zero, else the two roots, `-` before `+`.
pub open spec fn sphere_hits_spec<T: Scalar>(center: Point<T>, radius: T, ray: Ray<T>) -> Seq<T> {
    let oc = ray.origin.sub_spec(center);
    let a = ray.direction.dot_spec(ray.direction);
    let b = two_spec::<T>().mul_spec(oc.dot_spec(ray.direction));
    let c = oc.dot_spec(oc).sub_spec(radius.mul_spec(radius));
    let d = discriminant_spec(a, b, c);
    if d.lt_spec(T::zero_spec()) {
        Seq::empty()
    } else {
        seq![near_root_spec(a, b, d), far_root_spec(a, b, d)]
    }
}

/// The direction that stands at the world's `point` on the sphere about
/// `center`, where `inverse` leads from the world to the sphere's own space:
/// the unit direction from the centre to the point there, brought back by
/// the mirrored `inverse` and made a unit again.
pub open spec fn sphere_normal_spec<T: Scalar>(
    center: Point<T>,
    inverse: Seq<Seq<T>>,
    point: Point<T>,
) -> Vector<T> {
    let object_point = transform_point_spec(inverse, point);
    let object_normal = object_point.sub_spec(center).norm_spec();
    transform_vector_spec(transpose_spec(inverse), object_normal).norm_spec()
}

/// A sphere in its own space, with the transform that places it in the
/// world.
#[derive(Debug)]
pub struct Sphere<T> {
    center: Point<T>,
    radius: T,
    transformation: Matrix<T>,
}

impl<T> Sphere<T> {
    #[verifier::type_invariant]
    spec fn transform_is_4x4(self) -> bool {
        self.transformation.spec_rows() == 4 && self.transformation.spec_cols() == 4
            && self.transformation.wf()
    }

    /// The centre, in the sphere's own space.
    pub closed spec fn spec_center(&self) -> Point<T> {
        self.center
    }

    /// The radius, in the sphere's own space.
    pub closed spec fn spec_radius(&self) -> T {
        self.radius
    }

    /// The entries of the transform from the sphere's space to the world's.
    pub closed spec fn spec_transformation(&self) -> Seq<Seq<T>> {
        self.transformation@
    }
}

impl<T: Scalar> Sphere<T> {
    /// The sphere about `center` with the radius `radius`, placed in the
    /// world as it is.
    pub fn new(center: Point<T>, radius: T) -> (s: Sphere<T>)
        ensures
            s.spec_center() == center,
            s.spec_radius() == radius,
            s.spec_transformation() == identity_spec::<T>(),
    {
        Sphere { center, radius, transformation: Matrix::identity() }
    }

    /// The sphere of radius one about the origin.
    pub fn unit_sphere() -> (s: Sphere<T>)
        ensures
            s.spec_center() == (Point { x: T::zero_spec(), y: T::zero_spec(), z: T::zero_spec() }),
            s.spec_radius() == T::one_spec(),
            s.spec_transformation() == identity_spec::<T>(),
    {
        Sphere::new(Point::new(T::zero(), T::zero(), T::zero()), T::one())
    }

    /// The centre, in the sphere's own space.
    pub fn center(&self) -> (c: Point<T>)
        ensures
            c == self.spec_center(),
    {
        self.center
    }

    /// The radius, in the sphere's own space.
    pub fn radius(&self) -> (r: T)
        ensures
            r == self.spec_radius(),
    {
        self.radius
    }

    /// The transform from the sphere's space to the world's.
    pub fn transformation(&self) -> (m: &Matrix<T>)
        ensures
            m@ == self.spec_transformation(),
            m.rows() == 4,
            m.cols() == 4,
            m.wf(),
    {
        proof {
            use_type_invariant(self);
        }
        &self.transformation
    }

    /// Puts `before`, which is 4 by 4, before the sphere's transform.
    fn compose(&mut self, before: &Matrix<T>)
        requires
            before.rows() == 4,
            before.cols() == 4,
        ensures
            final(self).spec_center() == old(self).spec_center(),
            final(self).spec_radius() == old(self).spec_radius(),
            final(self).spec_transformation() == product_spec(
                before@,
                old(self).spec_transformation(),
                4,
                4,
                4,
            ),
    {
        proof {
            use_type_invariant(&*self);
        }
        match before.mul(&self.transformation) {
            Ok(product) => {
                self.transformation = product;
            },
            Err(_) => {
                assert(false);
            },
        }
    }

    /// The sphere with `rhs`, which is 4 by 4, put behind its transform:
    /// the new transform is the old one times `rhs`.
    pub fn mul(self, rhs: &Matrix<T>) -> (s: Sphere<T>)
        requires
            rhs.rows() == 4,
            rhs.cols() == 4,
        ensures
            s.spec_center() == self.spec_center(),
            s.spec_radius() == self.spec_radius(),
            s.spec_transformation() == product_spec(self.spec_transformation(), rhs@, 4, 4, 4),
    {
        proof {
            use_type_invariant(&self);
        }
        match self.transformation.mul(rhs) {
            Ok(product) => Sphere {
                center: self.center,
                radius: self.radius,
                transformation: product,
            },
            Err(_) => {
                assert(false);
                self
            },
        }
    }
}

impl<T: Scalar> Matrix<T> {
    /// The sphere `sphere` with this matrix, which is 4 by 4, put before
    /// its transform: the new transform is this matrix times the old one.
    pub fn mul_sphere(&self, sphere: Sphere<T>) -> (s: Sphere<T>)
        requires
            self.rows() == 4,
            self.cols() == 4,
        ensures
            s.spec_center() == sphere.spec_center(),
            s.spec_radius() == sphere.spec_radius(),
            s.spec_transformation() == product_spec(self@, sphere.spec_transformation(), 4, 4, 4),
    {
        let mut moved = sphere;
        moved.compose(self);
        moved
    }
}

impl<T: Scalar> Geometry<T> for Sphere<T> {
    /// Puts `transform` before the sphere's transform: the new one is
    /// `transform` times the old one.
    fn set_transform(&mut self, transform: Matrix<T>)
        ensures
            final(self).spec_center() == old(self).spec_center(),
            final(self).spec_radius() == old(self).spec_radius(),
            final(self).spec_transformation() == product_spec(
                transform@,
                old(self).spec_transformation(),
                4,
                4,
                4,
            ),
    {
        self.compose(&transform);
    }

    /// The distances along `ray` at which it meets the sphere, the root
    /// with `-` before the one with `+`; none where the ray passes by. It
    /// takes a transform that has an inverse.
    fn intersect(&self, ray: &Ray<T>) -> (r: Result<Vec<T>, MatrixError>)
        ensures
            r is Ok <==> !is_zero_spec(det_spec(self.spec_transformation())),
            r matches Ok(v) ==> v@ == sphere_hits_spec(
                self.spec_center(),
                self.spec_radius(),
                ray.transformed_spec(inverse_spec(self.spec_transformation())),
            ),
            r matches Err(e) ==> e == MatrixError::Singular,
    {
        proof {
            use_type_invariant(self);
        }
        let inverse = match self.transformation.inverse() {
            Ok(m) => m,
            Err(e) => {
                return Err(e);
            },
        };
        let ray = inverse.transform_ray(ray);
        let oc = ray.origin.sub(self.center);
        let a = ray.direction.dot(ray.direction);
        let b = two::<T>().mul(oc.dot(ray.direction));
        let c = oc.dot(oc).sub(self.radius.mul(self.radius));
        let discriminant = b.mul(b).sub(four::<T>().mul(a).mul(c));
        let mut hits: Vec<T> = Vec::new();
        if discriminant.lt(T::zero()) {
            return Ok(hits);
        }
        let root = discriminant.sqrt();
        let t = b.neg().sub(root).div(two::<T>().mul(a));
        let t2 = b.neg().add(root).div(two::<T>().mul(a));
        hits.push(t);
        hits.push(t2);
        assert(hits@ =~= seq![t, t2]);
        Ok(hits)
    }

    /// The unit direction that stands on the sphere at the world's `point`.
    /// It takes a transform that has an inverse.
    fn normal(&self, point: Point<T>) -> (r: Result<Vector<T>, MatrixError>)
        ensures
            r is Ok <==> !is_zero_spec(det_spec(self.spec_transformation())),
            r matches Ok(n) ==> n == sphere_normal_spec(
                self.spec_center(),
                inverse_spec(self.spec_transformation()),
                point,
            ),
            r matches Err(e) ==> e == MatrixError::Singular,
    {
        proof {
            use_type_invariant(self);
        }
        let inverse = match self.transformation.inverse() {
            Ok(m) => m,
            Err(e) => {
                return Err(e);
            },
        };
        let object_point = inverse.transform_point(point);
        let object_normal = object_point.sub(self.center).norm();
        match inverse.transpose() {
            Ok(mirrored) => Ok(mirrored.transform_vector(object_normal).norm()),
            Err(e) => Err(e),
        }
    }
}

} // verus!
