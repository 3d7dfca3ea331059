use raytracer::matrix::Matrix;
use raytracer::point::Point;
use raytracer::ray::Ray;
use raytracer::scalar::Scalar;
use raytracer::vector::Vector;

/// Double-precision floating point as the scalar of the algebra.
#[derive(Debug, Clone, Copy, PartialEq)]
struct Real(f64);

impl Scalar for Real {
    fn zero_spec() -> Self {
        Real(0.0)
    }

    fn one_spec() -> Self {
        Real(1.0)
    }

    fn add_spec(self, rhs: Self) -> Self {
        Real(self.0 + rhs.0)
    }

    fn sub_spec(self, rhs: Self) -> Self {
        Real(self.0 - rhs.0)
    }

    fn mul_spec(self, rhs: Self) -> Self {
        Real(self.0 * rhs.0)
    }

    fn div_spec(self, rhs: Self) -> Self {
        Real(self.0 / rhs.0)
    }

    fn neg_spec(self) -> Self {
        Real(-self.0)
    }

    fn sqrt_spec(self) -> Self {
        Real(self.0.sqrt())
    }

    fn lt_spec(self, rhs: Self) -> bool {
        self.0 < rhs.0
    }

    fn le_spec(self, rhs: Self) -> bool {
        self.0 <= rhs.0
    }

    fn zero() -> Self {
        Real(0.0)
    }

    fn one() -> Self {
        Real(1.0)
    }

    fn add(self, rhs: Self) -> Self {
        Real(self.0 + rhs.0)
    }

    fn sub(self, rhs: Self) -> Self {
        Real(self.0 - rhs.0)
    }

    fn mul(self, rhs: Self) -> Self {
        Real(self.0 * rhs.0)
    }

    fn div(self, rhs: Self) -> Self {
        Real(self.0 / rhs.0)
    }

    fn neg(self) -> Self {
        Real(-self.0)
    }

    fn sqrt(self) -> Self {
        Real(self.0.sqrt())
    }

    fn lt(self, rhs: Self) -> bool {
        self.0 < rhs.0
    }

    fn le(self, rhs: Self) -> bool {
        self.0 <= rhs.0
    }
}

fn vector(x: f64, y: f64, z: f64) -> Vector<Real> {
    Vector::new(Real(x), Real(y), Real(z))
}

fn point(x: f64, y: f64, z: f64) -> Point<Real> {
    Point::new(Real(x), Real(y), Real(z))
}

#[test]
fn test_ray() {
    let ray = Ray::new(point(2., 3., 4.), vector(1., 0., 0.));
    let p = ray.point_at(Real(0.));
    assert_eq!(p, point(2., 3., 4.));
    let p = ray.point_at(Real(1.));
    assert_eq!(p, point(3., 3., 4.));
    let p = ray.point_at(Real(-1.));
    assert_eq!(p, point(1., 3., 4.));
    let p = ray.point_at(Real(2.5));
    assert_eq!(p, point(4.5, 3., 4.));
}

#[test]
fn ray_translate_ray() {
    let ray = Ray::new(point(1., 2., 3.), vector(0., 1., 0.));
    let translation = Matrix::translation(Real(3.), Real(4.), Real(5.));
    let result = translation.transform_ray(&ray);
    assert_eq!(result.origin, point(4., 6., 8.));
    assert_eq!(result.direction, vector(0., 1., 0.));
}

#[test]
fn ray_scale_ray() {
    let ray = Ray::new(point(1., 2., 3.), vector(0., 1., 0.));
    let scale = Matrix::scaling(Real(2.), Real(3.), Real(4.));
    let result = scale.transform_ray(&ray);
    assert_eq!(result.origin, point(2., 6., 12.));
    assert_eq!(result.direction, vector(0., 3., 0.));
}

#[test]
fn evaluate_is_the_origin_moved_along_the_direction() {
    let ray = Ray::new(point(2., 3., 4.), vector(1., -2., 0.5));
    assert_eq!(ray.evaluate(Real(2.)), point(4., -1., 5.));
    assert_eq!(ray.evaluate(Real(2.)), ray.point_at(Real(2.)));
}

#[test]
fn a_translation_moves_locations_and_leaves_directions() {
    let m = Matrix::translation(Real(5.), Real(-3.), Real(2.));
    assert_eq!(m.transform_point(point(-3., 4., 5.)), point(2., 1., 7.));
    assert_eq!(m.transform_vector(vector(-3., 4., 5.)), vector(-3., 4., 5.));
}

#[test]
fn a_shearing_moves_each_coordinate_by_the_others() {
    let m = Matrix::shearing(Real(1.), Real(0.), Real(0.), Real(0.), Real(0.), Real(0.));
    assert_eq!(m.transform_point(point(2., 3., 4.)), point(5., 3., 4.));
    let m = Matrix::shearing(Real(0.), Real(0.), Real(0.), Real(0.), Real(0.), Real(1.));
    assert_eq!(m.transform_point(point(2., 3., 4.)), point(2., 3., 7.));
}
