use raytracer::matrix::{Matrix, MatrixError};
use raytracer::point::Point;
use raytracer::scalar::Scalar;
use raytracer::traits::{ApproxEq, SpecificRound};
use raytracer::vector::Vector;

/// Double-precision floating point as the scalar of the algebra.
#[derive(Debug, Clone, Copy, PartialEq)]
struct Real(f64);

impl Scalar for Real {
    fn zero_spec() -> Self {
        Real(0.0)
    }

    fn one_spec() -> Self {
        Real(1.0)
    }

    fn add_spec(self, rhs: Self) -> Self {
        Real(self.0 + rhs.0)
    }

    fn sub_spec(self, rhs: Self) -> Self {
        Real(self.0 - rhs.0)
    }

    fn mul_spec(self, rhs: Self) -> Self {
        Real(self.0 * rhs.0)
    }

    fn div_spec(self, rhs: Self) -> Self {
        Real(self.0 / rhs.0)
    }

    fn neg_spec(self) -> Self {
        Real(-self.0)
    }

    fn sqrt_spec(self) -> Self {
        Real(self.0.sqrt())
    }

    fn lt_spec(self, rhs: Self) -> bool {
        self.0 < rhs.0
    }

    fn le_spec(self, rhs: Self) -> bool {
        self.0 <= rhs.0
    }

    fn zero() -> Self {
        Real(0.0)
    }

    fn one() -> Self {
        Real(1.0)
    }

    fn add(self, rhs: Self) -> Self {
        Real(self.0 + rhs.0)
    }

    fn sub(self, rhs: Self) -> Self {
        Real(self.0 - rhs.0)
    }

    fn mul(self, rhs: Self) -> Self {
        Real(self.0 * rhs.0)
    }

    fn div(self, rhs: Self) -> Self {
        Real(self.0 / rhs.0)
    }

    fn neg(self) -> Self {
        Real(-self.0)
    }

    fn sqrt(self) -> Self {
        Real(self.0.sqrt())
    }

    fn lt(self, rhs: Self) -> bool {
        self.0 < rhs.0
    }

    fn le(self, rhs: Self) -> bool {
        self.0 <= rhs.0
    }
}

impl SpecificRound for Real {
    fn round_spec(&self, places: u32) -> Self {
        self.specific_round(places)
    }

    fn specific_round(&self, places: u32) -> Self {
        let factor = 10.0_f64.powi(places as i32);
        Real((self.0 * factor).round() / factor)
    }
}

impl ApproxEq for Real {
    fn approx_spec(&self, other: &Self) -> bool {
        self.approx_cmp(other)
    }

    fn approx_cmp(&self, other: &Self) -> bool {
        (self.0 - other.0).abs() < f64::EPSILON
    }
}

fn grid(rows: Vec<Vec<f64>>) -> Vec<Vec<Real>> {
    rows.into_iter().map(|row| row.into_iter().map(Real).collect()).collect()
}

fn matrix(rows: Vec<Vec<f64>>) -> Matrix<Real> {
    Matrix::from_vec(grid(rows)).unwrap()
}

#[test]
fn test_matrix_2x2() {
    let mut matrix = Matrix::new(2, 2);
    matrix.set(0, 0, Real(-3.));
    matrix.set(0, 1, Real(5.));
    matrix.set(1, 0, Real(1.));
    matrix.set(1, 1, Real(2.));
    assert_eq!(matrix.get(0, 0), Real(-3.));
    assert_eq!(matrix.get(0, 1), Real(5.));
    assert_eq!(matrix.get(1, 0), Real(1.));
    assert_eq!(matrix.get(1, 1), Real(2.));
}

#[test]
fn matrix_test_matrix_3x3() {
    let mut matrix = Matrix::new(3, 3);
    matrix.set(0, 0, Real(1.));
    matrix.set(0, 1, Real(2.));
    matrix.set(0, 2, Real(3.));
    matrix.set(1, 0, Real(4.));
    matrix.set(1, 1, Real(5.));
    matrix.set(1, 2, Real(6.));
    matrix.set(2, 0, Real(7.));
    matrix.set(2, 1, Real(8.));
    matrix.set(2, 2, Real(9.));
    assert_eq!(matrix.get(0, 0), Real(1.));
    assert_eq!(matrix.get(0, 1), Real(2.));
    assert_eq!(matrix.get(0, 2), Real(3.));
    assert_eq!(matrix.get(1, 0), Real(4.));
    assert_eq!(matrix.get(1, 1), Real(5.));
    assert_eq!(matrix.get(1, 2), Real(6.));
    assert_eq!(matrix.get(2, 0), Real(7.));
    assert_eq!(matrix.get(2, 1), Real(8.));
    assert_eq!(matrix.get(2, 2), Real(9.));
}

#[test]
fn test_test_matrix_3x3() {
    let mut matrix = Matrix::new(3, 3);
    matrix.set(0, 0, Real(1.));
    matrix.set(0, 1, Real(2.));
    matrix.set(0, 2, Real(3.));
    matrix.set(1, 0, Real(4.));
    matrix.set(1, 1, Real(5.));
    matrix.set(1, 2, Real(6.));
    matrix.set(2, 0, Real(7.));
    matrix.set(2, 1, Real(8.));
    matrix.set(2, 2, Real(9.));
    assert_eq!(matrix.get(0, 0), Real(1.));
}

#[test]
fn test_matrix_equal() {
    let mut matrix = Matrix::new(2, 2);
    matrix.set(0, 0, Real(-3.));
    matrix.set(0, 1, Real(5.));
    matrix.set(1, 0, Real(1.));
    matrix.set(1, 1, Real(2.));

    let mut matrix2 = Matrix::new(2, 2);
    matrix2.set(0, 0, Real(-3.));
    matrix2.set(0, 1, Real(5.));
    matrix2.set(1, 0, Real(1.));
    matrix2.set(1, 1, Real(2.));

    let _ = matrix == matrix2;

    assert_eq!(matrix, matrix2);
}

#[test]
fn test_matrix_mul() {
    let mut matrix = Matrix::new(2, 2);
    matrix.set(0, 0, Real(-3.));
    matrix.set(0, 1, Real(5.));
    matrix.set(1, 0, Real(1.));
    matrix.set(1, 1, Real(2.));
    let mut matrix2 = Matrix::new(2, 2);
    matrix2.set(0, 0, Real(1.));
    matrix2.set(0, 1, Real(2.));
    matrix2.set(1, 0, Real(4.));
    matrix2.set(1, 1, Real(5.));
    let result = matrix.mul(&matrix2).unwrap();
    assert_eq!(result.get(0, 0), Real(17.));
    assert_eq!(result.get(0, 1), Real(19.));
    assert_eq!(result.get(1, 0), Real(9.));
    assert_eq!(result.get(1, 1), Real(12.));
}

#[test]
fn test_matrix_mul_3x3() {
    let a = matrix(vec![vec![1., 2., 3.], vec![4., 5., 6.], vec![7., 8., 9.]]);
    let b = matrix(vec![vec![1., 2., 3.], vec![4., 5., 6.], vec![7., 8., 9.]]);
    let result = a.mul(&b).unwrap();
    let result_vec = result.to_vec();

    let answer = grid(vec![
        vec![30., 36., 42.],
        vec![66., 81., 96.],
        vec![102., 126., 150.],
    ]);

    assert_eq!(result_vec, answer);
}

#[test]
fn test_matrix_transpose() {
    let m = matrix(vec![vec![1., 2., 3.], vec![4., 5., 6.], vec![7., 8., 9.]]);
    let result = match m.transpose() {
        Ok(it) => it,
        _ => panic!("Should have succeeded"),
    };
    let result_vec = result.to_vec();
    let answer = grid(vec![vec![1., 4., 7.], vec![2., 5., 8.], vec![3., 6., 9.]]);
    assert_eq!(result_vec, answer);
}

#[test]
fn test_determinant_2x2() {
    let m = matrix(vec![vec![1., 2.], vec![3., 4.]]);
    let result = m.determinant().expect("No determinant");
    assert_eq!(result, Real(-2.));
}

#[test]
fn test_determinant_3x3() {
    let m = matrix(vec![vec![1., 2., 3.], vec![-5., 8., -4.], vec![2., 6., 4.]]);
    let result = m.determinant().expect("No determinant");
    assert_eq!(result, Real(-58.));
}

#[test]
fn test_determinant_4x4() {
    let m = matrix(vec![
        vec![-5., 2., 6., -8.],
        vec![1., -5., 1., 8.],
        vec![7., 7., -6., -7.],
        vec![1., -3., 7., 4.],
    ]);
    let result = m.determinant().expect("No determinant");

    assert_eq!(result, Real(532.));
}

#[test]
fn test_inverse_4x4() {
    let m = matrix(vec![
        vec![-5., 2., 6., -8.],
        vec![1., -5., 1., 8.],
        vec![7., 7., -6., -7.],
        vec![1., -3., 7., 4.],
    ]);

    let result = m.inverse().expect("No inverse").round(5);
    let answer = vec![
        vec![0.21805, 0.45113, 0.24060, -0.04511],
        vec![-0.80827, -1.45677, -0.44361, 0.52068],
        vec![-0.07895, -0.22368, -0.05263, 0.19737],
        vec![-0.52256, -0.81391, -0.30075, 0.30639],
    ];

    let answer = matrix(answer);
    assert_eq!(result, answer);
}

#[test]
fn test_matrix_translate() {
    let m = Matrix::translation(Real(1.), Real(2.), Real(3.));
    let result = m.transform_point(Point::new(Real(0.), Real(0.), Real(0.)));
    assert_eq!(result, Point::new(Real(1.), Real(2.), Real(3.)));
}

#[test]
fn from_vec_refuses_no_rows_and_ragged_rows() {
    assert_eq!(Matrix::<Real>::from_vec(vec![]).unwrap_err(), MatrixError::Shape);
    let ragged = grid(vec![vec![1., 2.], vec![3.]]);
    assert_eq!(Matrix::from_vec(ragged).unwrap_err(), MatrixError::Shape);
}

#[test]
fn transpose_refuses_what_is_not_square() {
    let m = matrix(vec![vec![1., 2., 3.], vec![4., 5., 6.]]);
    assert_eq!(m.transpose().unwrap_err(), MatrixError::Shape);
    assert_eq!(m.determinant().unwrap_err(), MatrixError::Shape);
    assert_eq!(m.cofactor().unwrap_err(), MatrixError::Shape);
    assert_eq!(m.inverse().unwrap_err(), MatrixError::Shape);
}

#[test]
fn transposing_twice_gives_the_matrix_back() {
    let m = matrix(vec![
        vec![0.1, 9., 3., 0.],
        vec![9., 8., 0., 8.],
        vec![1., 8., 5.5, 3.],
        vec![0., 0., 5., -8.],
    ]);
    assert_eq!(m.transpose().unwrap().transpose().unwrap(), m);
}

#[test]
fn a_zero_determinant_leaves_no_inverse() {
    let m = matrix(vec![
        vec![-4., 2., -2., -3.],
        vec![9., 6., 2., 6.],
        vec![0., -5., 1., -5.],
        vec![0., 0., 0., 0.],
    ]);
    assert_eq!(m.determinant(), Ok(Real(0.)));
    assert_eq!(m.inverse().unwrap_err(), MatrixError::Singular);
}

#[test]
fn the_inverse_of_the_inverse_comes_close_to_the_matrix() {
    let m = matrix(vec![
        vec![-5., 2., 6., -8.],
        vec![1., -5., 1., 8.],
        vec![7., 7., -6., -7.],
        vec![1., -3., 7., 4.],
    ]);
    let inverse = m.inverse().unwrap();
    assert_eq!(inverse.inverse().unwrap().round(9), m);
    let product = m.mul(&inverse).unwrap().round(9);
    let identity = matrix(vec![
        vec![1., 0., 0., 0.],
        vec![0., 1., 0., 0.],
        vec![0., 0., 1., 0.],
        vec![0., 0., 0., 1.],
    ]);
    assert_eq!(product, identity);
    assert_eq!(Matrix::<Real>::identity(), identity);
}

#[test]
fn round_keeps_as_many_places_as_it_is_asked_for() {
    let m = matrix(vec![vec![1.23456, -0.005], vec![2.5, 1e-7]]);
    assert_eq!(m.round(2), matrix(vec![vec![1.23, -0.01], vec![2.5, 0.]]));
    assert_eq!(m.round(0), matrix(vec![vec![1., -0.], vec![3., 0.]]));
    assert_eq!(m.round(7), m);
}

#[test]
fn the_named_transforms_have_their_entries_in_place() {
    assert_eq!(
        Matrix::translation(Real(5.), Real(-3.), Real(2.)),
        matrix(vec![
            vec![1., 0., 0., 5.],
            vec![0., 1., 0., -3.],
            vec![0., 0., 1., 2.],
            vec![0., 0., 0., 1.],
        ])
    );
    assert_eq!(
        Matrix::scaling(Real(5.), Real(-3.), Real(2.)),
        matrix(vec![
            vec![5., 0., 0., 0.],
            vec![0., -3., 0., 0.],
            vec![0., 0., 2., 0.],
            vec![0., 0., 0., 1.],
        ])
    );
    assert_eq!(
        Matrix::shearing(Real(1.), Real(2.), Real(3.), Real(4.), Real(5.), Real(6.)),
        matrix(vec![
            vec![1., 1., 2., 0.],
            vec![3., 1., 4., 0.],
            vec![5., 6., 1., 0.],
            vec![0., 0., 0., 1.],
        ])
    );
}

#[test]
fn a_scaling_stretches_directions_and_locations_alike() {
    let m = Matrix::scaling(Real(2.), Real(3.), Real(4.));
    let v = m.transform_vector(Vector::new(Real(-4.), Real(6.), Real(8.)));
    assert_eq!(v, Vector::new(Real(-8.), Real(18.), Real(32.)));
    let p = m.transform_point(Point::new(Real(-4.), Real(6.), Real(8.)));
    assert_eq!(p, Point::new(Real(-8.), Real(18.), Real(32.)));
    assert!(v.approx_cmp(&Vector::new(Real(-8.), Real(18.), Real(32.))));
}

#[test]
fn dividing_a_matrix_divides_each_entry() {
    let m = matrix(vec![vec![1., 2.], vec![-3., 0.]]);
    assert_eq!(m.div(Real(2.)), matrix(vec![vec![0.5, 1.], vec![-1.5, 0.]]));
}

#[test]
fn a_matrix_of_one_entry_has_it_for_its_determinant() {
    assert_eq!(matrix(vec![vec![7.5]]).determinant(), Ok(Real(7.5)));
    assert_eq!(Matrix::<Real>::new(0, 0).determinant(), Ok(Real(0.)));
}
