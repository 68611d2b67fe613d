use palette::matrix::{
    mat3_from_primaries, matrix_inverse, matrix_map, multiply_3x3, multiply_3x3_and_vec3,
    rgb_to_xyz_matrix,
};
use palette::num::{IsValidDivisor, Recip};
use std::ops::{Add, Div, Mul, Neg, Rem, Sub};

fn assert_close(expected: f64, computed: f64) {
    let tolerance = 1e-12 * expected.abs().max(1.0);
    assert!(
        (expected - computed).abs() <= tolerance,
        "expected {}, computed {}",
        expected,
        computed
    );
}

/// A floating point number with the numeric traits that matrix inversion
/// asks for.
#[derive(Clone, Copy, Debug, PartialEq)]
struct Real(f64);

impl Add for Real {
    type Output = Real;
    fn add(self, other: Real) -> Real {
        Real(self.0 + other.0)
    }
}

impl Sub for Real {
    type Output = Real;
    fn sub(self, other: Real) -> Real {
        Real(self.0 - other.0)
    }
}

impl Mul for Real {
    type Output = Real;
    fn mul(self, other: Real) -> Real {
        Real(self.0 * other.0)
    }
}

impl Div for Real {
    type Output = Real;
    fn div(self, other: Real) -> Real {
        Real(self.0 / other.0)
    }
}

impl Rem for Real {
    type Output = Real;
    fn rem(self, other: Real) -> Real {
        Real(self.0 % other.0)
    }
}

impl Neg for Real {
    type Output = Real;
    fn neg(self) -> Real {
        Real(-self.0)
    }
}

impl Recip for Real {
    fn recip(self) -> Real {
        Real(self.0.recip())
    }
}

impl IsValidDivisor for Real {
    fn is_valid_divisor(&self) -> bool {
        self.0.is_normal()
    }
}

fn reals(values: [f64; 9]) -> [Real; 9] {
    values.map(Real)
}

#[test]
fn matrix_multiply_3x3() {
    let inp1 = [1.0, 2.0, 3.0, 3.0, 2.0, 1.0, 2.0, 1.0, 3.0];
    let inp2 = [4.0, 5.0, 6.0, 6.0, 5.0, 4.0, 4.0, 6.0, 5.0];
    let expected = [28.0, 33.0, 29.0, 28.0, 31.0, 31.0, 26.0, 33.0, 31.0];

    let computed = multiply_3x3(inp1, inp2);
    for (t1, t2) in expected.iter().zip(computed.iter()) {
        assert_close(*t1, *t2);
    }
}

#[test]
fn matrix_multiply_vec3() {
    let inp1 = [0.1, 0.2, 0.3, 0.3, 0.2, 0.1, 0.2, 0.1, 0.3];
    let inp2 = [0.4, 0.6, 0.8];

    let expected = [0.4, 0.32, 0.38];

    let computed = multiply_3x3_and_vec3(inp1, inp2);
    for (t1, t2) in expected.iter().zip(computed.iter()) {
        assert_close(*t1, *t2);
    }
}

#[test]
fn matrix_inverse_check_1() {
    let input: [f64; 9] = [3.0, 0.0, 2.0, 2.0, 0.0, -2.0, 0.0, 1.0, 1.0];

    let expected: [f64; 9] = [0.2, 0.2, 0.0, -0.2, 0.3, 1.0, 0.2, -0.3, 0.0];
    let computed = matrix_inverse(reals(input));
    for (t1, t2) in expected.iter().zip(computed.iter()) {
        assert_close(*t1, t2.0);
    }
}

#[test]
fn matrix_inverse_check_2() {
    let input: [f64; 9] = [1.0, 0.0, 1.0, 0.0, 2.0, 1.0, 1.0, 1.0, 1.0];

    let expected: [f64; 9] = [-1.0, -1.0, 2.0, -1.0, 0.0, 1.0, 2.0, 1.0, -2.0];
    let computed = matrix_inverse(reals(input));
    for (t1, t2) in expected.iter().zip(computed.iter()) {
        assert_close(*t1, t2.0);
    }
}

#[test]
fn integer_matrix_products_are_exact() {
    let a: [i64; 9] = [1, 2, 3, 3, 2, 1, 2, 1, 3];
    let b: [i64; 9] = [4, 5, 6, 6, 5, 4, 4, 6, 5];
    assert_eq!(multiply_3x3(a, b), [28, 33, 29, 28, 31, 31, 26, 33, 31]);
    assert_eq!(multiply_3x3_and_vec3(a, [1, 0, -1]), [-2, 2, -1]);
}

#[test]
fn matrix_map_applies_to_every_element() {
    let m: [u8; 9] = [1, 2, 3, 4, 5, 6, 7, 8, 9];
    let doubled = matrix_map(m, |x: u8| u16::from(x) * 2);
    assert_eq!(doubled, [2, 4, 6, 8, 10, 12, 14, 16, 18]);
}

#[test]
fn matrix_times_its_inverse_is_the_unit_matrix() {
    let input = reals([3.0, 0.0, 2.0, 2.0, 0.0, -2.0, 0.0, 1.0, 1.0]);
    let product = multiply_3x3(input, matrix_inverse(input));
    let unit = [1.0, 0.0, 0.0, 0.0, 1.0, 0.0, 0.0, 0.0, 1.0];
    for (e, c) in unit.iter().zip(product.iter()) {
        assert_close(*e, c.0);
    }
}

#[test]
fn inverse_scaled_by_determinant_is_the_adjugate() {
    // det = 10 for this matrix; its adjugate has integer entries.
    let input = reals([3.0, 0.0, 2.0, 2.0, 0.0, -2.0, 0.0, 1.0, 1.0]);
    let adjugate = [2.0, 2.0, 0.0, -2.0, 3.0, 10.0, 2.0, -3.0, 0.0];
    let inverse = matrix_inverse(input);
    for (e, c) in adjugate.iter().zip(inverse.iter()) {
        assert_close(*e, c.0 * 10.0);
    }
}

/// The XYZ values, with `Y` at `1`, of the chromaticity `(x, y)`.
fn xyz_of_chromaticity(x: f64, y: f64) -> [Real; 3] {
    [Real(x / y), Real(1.0), Real((1.0 - x - y) / y)]
}

#[test]
fn d65_rgb_conversion_matrix() {
    let expected = [
        0.4124564, 0.3575761, 0.1804375,
        0.2126729, 0.7151522, 0.0721750,
        0.0193339, 0.1191920, 0.9503041,
    ];
    let red = xyz_of_chromaticity(0.64, 0.33);
    let green = xyz_of_chromaticity(0.30, 0.60);
    let blue = xyz_of_chromaticity(0.15, 0.06);
    let white = [Real(0.95047), Real(1.0), Real(1.08883)];
    let computed = rgb_to_xyz_matrix(red, green, blue, white);
    for (e, c) in expected.iter().zip(computed.iter()) {
        assert!((e - c.0).abs() <= 0.000001, "expected {}, computed {}", e, c.0);
    }
}

#[test]
fn rgb_to_xyz_matrix_maps_white_to_white() {
    let red = xyz_of_chromaticity(0.64, 0.33);
    let green = xyz_of_chromaticity(0.30, 0.60);
    let blue = xyz_of_chromaticity(0.15, 0.06);
    let white = [Real(0.95047), Real(1.0), Real(1.08883)];
    let m = rgb_to_xyz_matrix(red, green, blue, white);
    let mapped = multiply_3x3_and_vec3(m, [Real(1.0), Real(1.0), Real(1.0)]);
    for i in 0..3 {
        assert!((white[i].0 - mapped[i].0).abs() <= 1e-9);
    }
}

#[test]
fn mat3_from_primaries_puts_primaries_in_columns() {
    let m = mat3_from_primaries([1, 2, 3], [4, 5, 6], [7, 8, 9]);
    assert_eq!(m, [1, 4, 7, 2, 5, 8, 3, 6, 9]);
}

#[test]
fn matrix_times_inverse_is_unit() {
    let a = reals([2.0, 1.0, 0.0, 1.0, 1.0, 0.0, 0.0, 3.0, 1.0]);
    let inverse = matrix_inverse(a);
    let expected_inverse = [1.0, -1.0, 0.0, -1.0, 2.0, 0.0, 3.0, -6.0, 1.0];
    for (e, c) in expected_inverse.iter().zip(inverse.iter()) {
        assert_eq!(*e, c.0);
    }
    let unit = multiply_3x3(a, inverse);
    let expected_unit = [1.0, 0.0, 0.0, 0.0, 1.0, 0.0, 0.0, 0.0, 1.0];
    for (e, c) in expected_unit.iter().zip(unit.iter()) {
        assert_eq!(*e, c.0);
    }
}
