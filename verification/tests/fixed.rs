use raytracer::canvas::Canvas;
use raytracer::color::Color;
use raytracer::fixed::{Fixed, HALF_PI_RAW, PI_RAW, SCALE, TOLERANCE, TWO_PI_RAW};
use raytracer::geometry::Geometry;
use raytracer::hit::Hit;
use raytracer::matrix::{Matrix, MatrixError, Rotation};
use raytracer::point::Point;
use raytracer::ray::Ray;
use raytracer::scalar::{four, is_non_negative, is_zero, polarity, two};
use raytracer::scalar::{Angle, Scalar, Truncate};
use raytracer::traits::{ApproxEq, SpecificRound};
use raytracer::sphere::Sphere;
use raytracer::text::Printable;
use raytracer::vector::Vector;

fn whole(n: i32) -> Fixed {
    Fixed::from_int(n)
}

/// The number `n / d`.
fn ratio(n: i32, d: i32) -> Fixed {
    whole(n).div(whole(d))
}

fn vector(x: i32, y: i32, z: i32) -> Vector<Fixed> {
    Vector::new(whole(x), whole(y), whole(z))
}

fn point(x: i32, y: i32, z: i32) -> Point<Fixed> {
    Point::new(whole(x), whole(y), whole(z))
}

fn matrix(rows: Vec<Vec<i32>>) -> Matrix<Fixed> {
    Matrix::from_vec(rows.into_iter().map(|row| row.into_iter().map(whole).collect()).collect())
        .unwrap()
}

#[test]
fn whole_numbers_are_multiples_of_the_scale() {
    assert_eq!(SCALE, 1i64 << 32);
    assert_eq!(whole(1).raw, SCALE);
    assert_eq!(whole(-7).raw, -7 * SCALE);
    assert_eq!(Fixed::from_raw(5).raw, 5);
    assert_eq!(Fixed::zero(), whole(0));
    assert_eq!(Fixed::one(), whole(1));
}

#[test]
fn sums_and_differences_stop_at_the_ends_of_the_range() {
    assert_eq!(whole(3).add(whole(-5)), whole(-2));
    assert_eq!(whole(3).sub(whole(-5)), whole(8));
    assert_eq!(whole(3).neg(), whole(-3));
    assert_eq!(Fixed::from_raw(i64::MAX).add(whole(1)).raw, i64::MAX);
    assert_eq!(Fixed::from_raw(i64::MIN).sub(whole(1)).raw, i64::MIN);
    assert_eq!(Fixed::from_raw(i64::MIN).neg().raw, i64::MAX);
}

#[test]
fn products_round_towards_zero() {
    assert_eq!(whole(3).mul(whole(4)), whole(12));
    assert_eq!(whole(-3).mul(whole(4)), whole(-12));
    assert_eq!(ratio(1, 2).mul(ratio(1, 2)), ratio(1, 4));
    assert_eq!(Fixed::from_raw(1).mul(Fixed::from_raw(1)).raw, 0);
    assert_eq!(Fixed::from_raw(-1).mul(Fixed::from_raw(1)).raw, 0);
    assert_eq!(Fixed::from_raw(-3).mul(ratio(1, 2)).raw, -1);
    assert_eq!(whole(i32::MAX).mul(whole(2)).raw, i64::MAX);
    assert_eq!(whole(i32::MIN).mul(whole(2)).raw, i64::MIN);
}

#[test]
fn quotients_round_towards_zero_and_a_zero_divisor_gives_the_end_of_the_range() {
    assert_eq!(whole(12).div(whole(4)), whole(3));
    assert_eq!(ratio(1, 4).raw, SCALE / 4);
    assert_eq!(Fixed::from_raw(-3).div(whole(2)).raw, -1);
    assert_eq!(Fixed::from_raw(3).div(whole(-2)).raw, -1);
    assert_eq!(whole(1).div(whole(0)).raw, i64::MAX);
    assert_eq!(whole(-1).div(whole(0)).raw, i64::MIN);
    assert_eq!(whole(0).div(whole(0)).raw, 0);
    assert_eq!(whole(1).div(Fixed::from_raw(1)).raw, i64::MAX);
}

#[test]
fn the_square_root_is_rounded_down() {
    assert_eq!(whole(9).sqrt(), whole(3));
    assert_eq!(whole(0).sqrt(), whole(0));
    assert_eq!(whole(-4).sqrt(), whole(0));
    assert_eq!(whole(2).sqrt().raw, 6074000999);
    assert_eq!(ratio(1, 4).sqrt(), ratio(1, 2));
    let root = Fixed::from_raw(i64::MAX).sqrt().raw as i128;
    let n = (i64::MAX as i128) << 32;
    assert!(root * root <= n && n < (root + 1) * (root + 1));
}

#[test]
fn the_order_is_that_of_the_steps() {
    assert!(whole(1).lt(whole(2)));
    assert!(!whole(2).lt(whole(2)));
    assert!(whole(2).le(whole(2)));
    assert!(!whole(3).le(whole(2)));
    assert!(is_zero(whole(0)));
    assert!(!is_zero(Fixed::from_raw(1)));
    assert!(is_non_negative(whole(0)));
    assert!(!is_non_negative(Fixed::from_raw(-1)));
}

#[test]
fn small_constants_are_sums_of_ones() {
    assert_eq!(two::<Fixed>(), whole(2));
    assert_eq!(four::<Fixed>(), whole(4));
    assert_eq!(polarity::<Fixed>(0), whole(1));
    assert_eq!(polarity::<Fixed>(3), whole(-1));
}

#[test]
fn truncation_keeps_the_whole_part_within_32_bits() {
    assert_eq!(ratio(7, 2).to_u32(), 3);
    assert_eq!(whole(-3).to_u32(), 0);
    assert_eq!(whole(i32::MAX).to_u32(), i32::MAX as u32);
    assert_eq!(Fixed::from_raw(i64::MAX).to_u32(), (i64::MAX >> 32) as u32);
}

#[test]
fn rounding_goes_to_the_nearest_decimal_and_halves_go_away_from_zero() {
    assert_eq!(ratio(1, 3).specific_round(2).raw, 1417339207);
    assert_eq!(ratio(1, 3).specific_round(2), ratio(33, 100));
    assert_eq!(ratio(1, 8).specific_round(2), ratio(13, 100));
    assert_eq!(ratio(-1, 8).specific_round(2), ratio(-13, 100));
    assert_eq!(ratio(5, 2).specific_round(0), whole(3));
    assert_eq!(ratio(-5, 2).specific_round(0), whole(-3));
    assert_eq!(ratio(1, 3).specific_round(10), ratio(1, 3));
    assert_eq!(whole(0).specific_round(4), whole(0));
}

#[test]
fn determinants_of_whole_entries_are_exact() {
    assert_eq!(matrix(vec![vec![7]]).determinant(), Ok(whole(7)));
    assert_eq!(matrix(vec![vec![1, 2], vec![3, 4]]).determinant(), Ok(whole(-2)));
    assert_eq!(
        matrix(vec![vec![1, 2, 3], vec![-5, 8, -4], vec![2, 6, 4]]).determinant(),
        Ok(whole(-58))
    );
    let m = matrix(vec![
        vec![-5, 2, 6, -8],
        vec![1, -5, 1, 8],
        vec![7, 7, -6, -7],
        vec![1, -3, 7, 4],
    ]);
    assert_eq!(m.determinant(), Ok(whole(532)));
    assert_eq!(Matrix::<Fixed>::new(0, 0).determinant(), Ok(whole(0)));
    assert_eq!(Matrix::<Fixed>::new(2, 3).determinant(), Err(MatrixError::Shape));
}

#[test]
fn the_cofactors_carry_the_sign_of_their_place() {
    let m = matrix(vec![vec![3, 5, 0], vec![2, -1, -7], vec![6, -1, 5]]);
    let c = m.cofactor().unwrap();
    assert_eq!(c, matrix(vec![vec![-12, -52, 4], vec![-25, 15, 33], vec![-35, 21, -13]]));
    assert_eq!(Matrix::<Fixed>::new(2, 3).cofactor().unwrap_err(), MatrixError::Shape);
    let minor = Matrix::sub_matrix(&m.to_vec(), 1, 0);
    assert_eq!(minor, vec![vec![whole(5), whole(0)], vec![whole(-1), whole(5)]]);
    assert_eq!(Matrix::sub_determinant(&minor), whole(25));
    let kept = Matrix::sub_matrix(&m.to_vec(), 3, 3);
    assert_eq!(kept, m.to_vec());
}

#[test]
fn the_inverse_is_the_mirrored_cofactors_over_the_determinant() {
    let m = matrix(vec![
        vec![-5, 2, 6, -8],
        vec![1, -5, 1, 8],
        vec![7, 7, -6, -7],
        vec![1, -3, 7, 4],
    ]);
    let inverse = m.inverse().unwrap();
    assert_eq!(inverse.get(0, 0), ratio(116, 532));
    assert_eq!(inverse.get(3, 2), ratio(-160, 532));
    assert_eq!(inverse.get(2, 3), ratio(105, 532));
    let answer = vec![
        vec![21805, 45113, 24060, -4511],
        vec![-80827, -145677, -44361, 52068],
        vec![-7895, -22368, -5263, 19737],
        vec![-52256, -81391, -30075, 30639],
    ];
    let answer: Vec<Vec<Fixed>> = answer
        .into_iter()
        .map(|row| row.into_iter().map(|k| ratio(k, 100000)).collect())
        .collect();
    assert_eq!(inverse.round(5).to_vec(), answer);
}

#[test]
fn a_matrix_without_inverse_says_why() {
    let singular = matrix(vec![vec![1, 2], vec![2, 4]]);
    assert_eq!(singular.inverse().unwrap_err(), MatrixError::Singular);
    assert_eq!(Matrix::<Fixed>::new(2, 3).inverse().unwrap_err(), MatrixError::Shape);
    assert_eq!(Matrix::<Fixed>::new(3, 2).transpose().unwrap_err(), MatrixError::Shape);
}

#[test]
fn the_product_takes_matching_sizes() {
    let a = matrix(vec![vec![1, 2, 3], vec![4, 5, 6]]);
    let b = matrix(vec![vec![1, 0], vec![0, 1], vec![2, 2]]);
    let product = a.mul(&b).unwrap();
    assert_eq!(product, matrix(vec![vec![7, 8], vec![16, 17]]));
    assert_eq!(product.rows(), 2);
    assert_eq!(product.cols(), 2);
    assert_eq!(a.mul(&a).unwrap_err(), MatrixError::Shape);
}

#[test]
fn mirroring_twice_gives_the_matrix_back() {
    let m = matrix(vec![vec![1, 2, 3], vec![4, 5, 6], vec![7, 8, 9]]);
    let twice = m.transpose().unwrap().transpose().unwrap();
    assert_eq!(twice, m);
    assert_eq!(m.clone(), m);
}

#[test]
fn a_new_matrix_is_zero_and_the_identity_has_ones_on_its_diagonal() {
    let zeros = Matrix::<Fixed>::new(2, 3);
    assert_eq!(zeros.to_vec(), vec![vec![whole(0); 3]; 2]);
    assert_eq!((zeros.rows(), zeros.cols()), (2, 3));
    let identity = Matrix::<Fixed>::identity();
    assert_eq!(
        identity,
        matrix(vec![vec![1, 0, 0, 0], vec![0, 1, 0, 0], vec![0, 0, 1, 0], vec![0, 0, 0, 1]])
    );
    assert_eq!(
        Matrix::shearing(whole(1), whole(2), whole(3), whole(4), whole(5), whole(6)),
        matrix(vec![vec![1, 1, 2, 0], vec![3, 1, 4, 0], vec![5, 6, 1, 0], vec![0, 0, 0, 1]])
    );
    assert_eq!(identity.div(whole(2)).get(1, 1), ratio(1, 2));
}

#[test]
fn the_sphere_is_met_at_exact_distances() {
    let sphere = Sphere::new(point(0, 0, 0), whole(1));
    let ray = Ray::new(point(0, 1, -5), vector(0, 0, 1));
    assert_eq!(sphere.intersect(&ray).unwrap(), vec![whole(5), whole(5)]);
    let ray = Ray::new(point(0, 0, 5), vector(0, 0, 1));
    let behind = sphere.intersect(&ray).unwrap();
    assert_eq!(behind, vec![whole(-6), whole(-4)]);
    assert_eq!(behind.hit(), None);
    let scaled = Matrix::scaling(whole(2), whole(2), whole(2)).mul_sphere(sphere);
    let ray = Ray::new(point(0, 0, -5), vector(0, 0, 1));
    assert_eq!(scaled.intersect(&ray).unwrap(), vec![whole(3), whole(7)]);
    assert_eq!(scaled.normal(point(0, 0, -2)).unwrap(), vector(0, 0, -1));
}

#[test]
fn the_nearest_visible_distance_is_chosen() {
    let distances = vec![whole(5), whole(7), whole(-3), whole(2)];
    assert_eq!(distances.hit(), Some(whole(2)));
    assert_eq!(vec![whole(-6), whole(-4)].hit(), None);
}

#[test]
fn a_point_is_drawn_under_its_whole_coordinates() {
    let mut canvas: Canvas<Fixed> = Canvas::new(4, 4);
    let white = Color::new(whole(1), whole(1), whole(1));
    canvas.draw_point(Point::new(ratio(5, 2), ratio(3, 2), whole(9)), white);
    assert_eq!(canvas.pixels()[3 * 4 + 2].r, whole(1));
    assert_eq!(canvas.pixels().iter().filter(|c| c.r == whole(1)).count(), 1);
}

#[test]
fn numbers_close_by_count_as_equal() {
    assert!(whole(1).approx_cmp(&whole(1)));
    assert!(whole(1).approx_cmp(&Fixed::from_raw(SCALE + TOLERANCE - 1)));
    assert!(!whole(1).approx_cmp(&Fixed::from_raw(SCALE + TOLERANCE)));
    assert!(whole(1).approx_cmp(&Fixed::from_raw(SCALE - TOLERANCE + 1)));
    assert!(!Fixed::from_raw(i64::MIN).approx_cmp(&Fixed::from_raw(i64::MAX)));
    let third = ratio(1, 3);
    let v = Vector::new(third.add(third).add(third), whole(2), whole(3));
    assert!(v.approx_cmp(&vector(1, 2, 3)));
    assert!(!v.approx_cmp(&vector(1, 2, 4)));
}

#[test]
fn numbers_are_written_in_decimal() {
    assert_eq!(whole(255).to_text(), "255");
    assert_eq!(whole(0).to_text(), "0");
    assert_eq!(ratio(1, 2).to_text(), "0.5");
    assert_eq!(ratio(-5, 4).to_text(), "-1.25");
    assert_eq!(Fixed::from_raw(1).to_text(), "0.00000000023283064365386962890625");
    assert_eq!(Fixed::from_raw(-1).to_text(), "-0.00000000023283064365386962890625");
    assert_eq!(Fixed::from_raw(i64::MIN).to_text(), "-2147483648");
    assert_eq!(
        Fixed::from_raw(i64::MAX).to_text(),
        "2147483647.99999999976716935634613037109375"
    );
}

#[test]
fn a_canvas_of_fixed_numbers_is_written_like_any_other() {
    let mut canvas: Canvas<Fixed> = Canvas::new(2, 1);
    canvas.set_pixel(1, 0, Color::new(whole(255), ratio(1, 2), whole(0)));
    assert_eq!(canvas.to_ppm(), "P3\n2 1\n255\n0 0 0\n255 0.5 0\n");
}

#[test]
fn cosine_and_sine_come_close_to_the_true_ones() {
    assert_eq!(PI_RAW, (std::f64::consts::PI * SCALE as f64).round() as i64);
    assert_eq!(HALF_PI_RAW, PI_RAW / 2);
    assert_eq!(TWO_PI_RAW, 2 * PI_RAW);
    let mut raw = -3 * TWO_PI_RAW;
    while raw <= 3 * TWO_PI_RAW {
        let angle = raw as f64 / SCALE as f64;
        let cos = Fixed::from_raw(raw).cos().raw as f64 / SCALE as f64;
        let sin = Fixed::from_raw(raw).sin().raw as f64 / SCALE as f64;
        assert!((cos - angle.cos()).abs() < 1e-6, "cos {}", angle);
        assert!((sin - angle.sin()).abs() < 1e-6, "sin {}", angle);
        raw += TWO_PI_RAW / 97;
    }
    assert_eq!(whole(0).cos(), whole(1));
    assert_eq!(whole(0).sin(), whole(0));
    assert!(Fixed::from_raw(i64::MIN).cos().raw.abs() <= SCALE);
    assert!(Fixed::from_raw(i64::MAX).sin().raw.abs() <= SCALE);
}

#[test]
fn a_quarter_turn_about_z_turns_x_into_y() {
    let m = Matrix::rotation(Fixed::from_raw(HALF_PI_RAW), Rotation::Z);
    let turned = m.transform_point(point(1, 0, 0));
    assert!(turned.x.approx_cmp(&whole(0)));
    assert!(turned.y.approx_cmp(&whole(1)));
    assert_eq!(turned.z, whole(0));
    assert_eq!(m.get(2, 2), whole(1));
    assert_eq!(m.get(3, 3), whole(1));
}
