//! This module provides simple matrix operations on 3x3 matrices to aid in
//! chromatic adaptation and conversion calculations.
//!
//! The element type `T` is generic. The contracts speak of `T`'s operator
//! specifications (`add_spec`, `mul_spec`, ...), so they are exact for every
//! element type whose operators obey them, such as the primitive integers;
//! the preconditions say that no intermediate operation overflows.

use core::ops::Neg;
use crate::num::{obeys_arithmetics, Arithmetics, IsValidDivisor, Recip};
use vstd::prelude::*;
use vstd::std_specs::ops::{AddSpec, MulSpec, NegSpec, SubSpec};

verus! {

/// A 9 element array representing a 3x3 matrix, in row major order.
pub type Mat3<T> = [T; 9];

/// A 3 element array representing a column vector.
pub type Vec3<T> = [T; 3];

/// `a * x + b * y + c * z`, evaluated left to right.
pub open spec fn dot_spec<T: Arithmetics>(a: T, b: T, c: T, x: T, y: T, z: T) -> T {
    a.mul_spec(x).add_spec(b.mul_spec(y)).add_spec(c.mul_spec(z))
}

/// None of the operations of `dot_spec(a, b, c, x, y, z)` overflows.
pub open spec fn dot_req<T: Arithmetics>(a: T, b: T, c: T, x: T, y: T, z: T) -> bool {
    &&& a.mul_req(x)
    &&& b.mul_req(y)
    &&& c.mul_req(z)
    &&& a.mul_spec(x).add_req(b.mul_spec(y))
    &&& a.mul_spec(x).add_spec(b.mul_spec(y)).add_req(c.mul_spec(z))
}

/// Row `row` of `m` times the vector `(x, y, z)`.
pub open spec fn row_times<T: Arithmetics>(m: Mat3<T>, row: int, x: T, y: T, z: T) -> T {
    dot_spec(m[3 * row], m[3 * row + 1], m[3 * row + 2], x, y, z)
}

/// Row `row` of `m` times the vector `(x, y, z)` does not overflow.
pub open spec fn row_times_req<T: Arithmetics>(m: Mat3<T>, row: int, x: T, y: T, z: T) -> bool {
    dot_req(m[3 * row], m[3 * row + 1], m[3 * row + 2], x, y, z)
}

/// The product of `m` and `v` computes without overflow.
pub open spec fn mat_vec_req<T: Arithmetics>(m: Mat3<T>, v: Vec3<T>) -> bool {
    &&& row_times_req(m, 0, v[0], v[1], v[2])
    &&& row_times_req(m, 1, v[0], v[1], v[2])
    &&& row_times_req(m, 2, v[0], v[1], v[2])
}

/// Element `i` of the product of `m` and `v`.
pub open spec fn mat_vec_spec<T: Arithmetics>(m: Mat3<T>, v: Vec3<T>, i: int) -> T {
    row_times(m, i, v[0], v[1], v[2])
}

/// Multiply the 3x3 matrix with an XYZ color.
pub fn multiply_3x3_and_vec3<T>(matrix: Mat3<T>, vector: Vec3<T>) -> (r: Vec3<T>) where
    T: Arithmetics + Copy,

    requires
        obeys_arithmetics::<T>(),
        mat_vec_req(matrix, vector),
    ensures
        forall|i: int| 0 <= i < 3 ==> #[trigger] r[i] == mat_vec_spec(matrix, vector, i),
{
    assert(row_times_req(matrix, 0, vector[0], vector[1], vector[2]));
    assert(row_times_req(matrix, 1, vector[0], vector[1], vector[2]));
    assert(row_times_req(matrix, 2, vector[0], vector[1], vector[2]));
    let m0 = matrix[0];
    let m1 = matrix[1];
    let m2 = matrix[2];
    let m3 = matrix[3];
    let m4 = matrix[4];
    let m5 = matrix[5];
    let m6 = matrix[6];
    let m7 = matrix[7];
    let m8 = matrix[8];
    let x = vector[0];
    let y = vector[1];
    let z = vector[2];

    let x1 = m0 * x;
    let x2 = m1 * y;
    let x3 = m2 * z;

    let y1 = m3 * x;
    let y2 = m4 * y;
    let y3 = m5 * z;

    let z1 = m6 * x;
    let z2 = m7 * y;
    let z3 = m8 * z;

    let r = [x1 + x2 + x3, y1 + y2 + y3, z1 + z2 + z3];
    assert(r[0] == mat_vec_spec(matrix, vector, 0));
    assert(r[1] == mat_vec_spec(matrix, vector, 1));
    assert(r[2] == mat_vec_spec(matrix, vector, 2));
    r
}

/// Element `(i, j)` of the product of `c` and `f`.
pub open spec fn mat_mul_spec<T: Arithmetics>(c: Mat3<T>, f: Mat3<T>, i: int, j: int) -> T {
    row_times(c, i, f[j], f[3 + j], f[6 + j])
}

/// The product of `c` and `f` computes without overflow.
pub open spec fn mat_mul_req<T: Arithmetics>(c: Mat3<T>, f: Mat3<T>) -> bool {
    &&& row_times_req(c, 0, f[0], f[3], f[6])
    &&& row_times_req(c, 0, f[1], f[4], f[7])
    &&& row_times_req(c, 0, f[2], f[5], f[8])
    &&& row_times_req(c, 1, f[0], f[3], f[6])
    &&& row_times_req(c, 1, f[1], f[4], f[7])
    &&& row_times_req(c, 1, f[2], f[5], f[8])
    &&& row_times_req(c, 2, f[0], f[3], f[6])
    &&& row_times_req(c, 2, f[1], f[4], f[7])
    &&& row_times_req(c, 2, f[2], f[5], f[8])
}

/// Multiply two 3x3 matrices.
pub fn multiply_3x3<T>(c: Mat3<T>, f: Mat3<T>) -> (r: Mat3<T>) where T: Arithmetics + Copy
    requires
        obeys_arithmetics::<T>(),
        mat_mul_req(c, f),
    ensures
        forall|k: int| 0 <= k < 9 ==> #[trigger] r[k] == mat_mul_spec(c, f, k / 3, k % 3),
{
    assert(row_times_req(c, 0, f[0], f[3], f[6]));
    assert(row_times_req(c, 0, f[1], f[4], f[7]));
    assert(row_times_req(c, 0, f[2], f[5], f[8]));
    assert(row_times_req(c, 1, f[0], f[3], f[6]));
    assert(row_times_req(c, 1, f[1], f[4], f[7]));
    assert(row_times_req(c, 1, f[2], f[5], f[8]));
    assert(row_times_req(c, 2, f[0], f[3], f[6]));
    assert(row_times_req(c, 2, f[1], f[4], f[7]));
    assert(row_times_req(c, 2, f[2], f[5], f[8]));
    let c0 = c[0];
    let c1 = c[1];
    let c2 = c[2];
    let c3 = c[3];
    let c4 = c[4];
    let c5 = c[5];
    let c6 = c[6];
    let c7 = c[7];
    let c8 = c[8];
    let f0 = f[0];
    let f1 = f[1];
    let f2 = f[2];
    let f3 = f[3];
    let f4 = f[4];
    let f5 = f[5];
    let f6 = f[6];
    let f7 = f[7];
    let f8 = f[8];

    assert(dot_req(c0, c1, c2, f0, f3, f6));
    assert(dot_req(c0, c1, c2, f1, f4, f7));
    assert(dot_req(c0, c1, c2, f2, f5, f8));
    assert(dot_req(c3, c4, c5, f0, f3, f6));
    assert(dot_req(c3, c4, c5, f1, f4, f7));
    assert(dot_req(c3, c4, c5, f2, f5, f8));
    assert(dot_req(c6, c7, c8, f0, f3, f6));
    assert(dot_req(c6, c7, c8, f1, f4, f7));
    assert(dot_req(c6, c7, c8, f2, f5, f8));

    let o0 = c0 * f0 + c1 * f3 + c2 * f6;
    let o1 = c0 * f1 + c1 * f4 + c2 * f7;
    let o2 = c0 * f2 + c1 * f5 + c2 * f8;

    let o3 = c3 * f0 + c4 * f3 + c5 * f6;
    let o4 = c3 * f1 + c4 * f4 + c5 * f7;
    let o5 = c3 * f2 + c4 * f5 + c5 * f8;

    let o6 = c6 * f0 + c7 * f3 + c8 * f6;
    let o7 = c6 * f1 + c7 * f4 + c8 * f7;
    let o8 = c6 * f2 + c7 * f5 + c8 * f8;

    let r = [o0, o1, o2, o3, o4, o5, o6, o7, o8];
    assert forall|k: int| 0 <= k < 9 implies #[trigger] r[k] == mat_mul_spec(c, f, k / 3, k % 3) by {
        if k == 0 {
        } else if k == 1 {
        } else if k == 2 {
        } else if k == 3 {
        } else if k == 4 {
        } else if k == 5 {
        } else if k == 6 {
        } else if k == 7 {
        } else {
        }
    }
    r
}

/// `a * b - c * d`.
pub open spec fn cross_spec<T: Arithmetics>(a: T, b: T, c: T, d: T) -> T {
    a.mul_spec(b).sub_spec(c.mul_spec(d))
}

/// `a * b - c * d` computes without overflow.
pub open spec fn cross_req<T: Arithmetics>(a: T, b: T, c: T, d: T) -> bool {
    &&& a.mul_req(b)
    &&& c.mul_req(d)
    &&& a.mul_spec(b).sub_req(c.mul_spec(d))
}

/// The cofactor terms of `a`, in the order the inverse uses them.
pub open spec fn cofactors<T: Arithmetics>(a: Mat3<T>) -> Seq<T> {
    seq![
        cross_spec(a[4], a[8], a[5], a[7]),
        cross_spec(a[3], a[8], a[5], a[6]),
        cross_spec(a[3], a[7], a[4], a[6]),
        cross_spec(a[1], a[8], a[2], a[7]),
        cross_spec(a[0], a[8], a[2], a[6]),
        cross_spec(a[0], a[7], a[1], a[6]),
        cross_spec(a[1], a[5], a[2], a[4]),
        cross_spec(a[0], a[5], a[2], a[3]),
        cross_spec(a[0], a[4], a[1], a[3]),
    ]
}

/// The determinant of `a`, expanded along the first row.
pub open spec fn determinant<T: Arithmetics>(a: Mat3<T>) -> T {
    let d = cofactors(a);
    a[0].mul_spec(d[0]).sub_spec(a[1].mul_spec(d[1])).add_spec(a[2].mul_spec(d[2]))
}

/// Element `i` of the inverse of `a`: the signed cofactor times `inv`, the
/// reciprocal of the determinant.
pub open spec fn inverse_spec<T: Arithmetics>(a: Mat3<T>, inv: T, i: int) -> T {
    let d = cofactors(a);
    if i == 0 {
        d[0].mul_spec(inv)
    } else if i == 1 {
        d[3].neg_spec().mul_spec(inv)
    } else if i == 2 {
        d[6].mul_spec(inv)
    } else if i == 3 {
        d[1].neg_spec().mul_spec(inv)
    } else if i == 4 {
        d[4].mul_spec(inv)
    } else if i == 5 {
        d[7].neg_spec().mul_spec(inv)
    } else if i == 6 {
        d[2].mul_spec(inv)
    } else if i == 7 {
        d[5].neg_spec().mul_spec(inv)
    } else {
        d[8].mul_spec(inv)
    }
}

/// The cofactors and the determinant of `a` compute without overflow.
pub open spec fn determinant_req<T: Arithmetics>(a: Mat3<T>) -> bool {
    let d = cofactors(a);
    &&& cross_req(a[4], a[8], a[5], a[7])
    &&& cross_req(a[3], a[8], a[5], a[6])
    &&& cross_req(a[3], a[7], a[4], a[6])
    &&& cross_req(a[1], a[8], a[2], a[7])
    &&& cross_req(a[0], a[8], a[2], a[6])
    &&& cross_req(a[0], a[7], a[1], a[6])
    &&& cross_req(a[1], a[5], a[2], a[4])
    &&& cross_req(a[0], a[5], a[2], a[3])
    &&& cross_req(a[0], a[4], a[1], a[3])
    &&& a[0].mul_req(d[0])
    &&& a[1].mul_req(d[1])
    &&& a[2].mul_req(d[2])
    &&& a[0].mul_spec(d[0]).sub_req(a[1].mul_spec(d[1]))
    &&& a[0].mul_spec(d[0]).sub_spec(a[1].mul_spec(d[1])).add_req(a[2].mul_spec(d[2]))
}

/// Scaling the signed cofactors of `a` by `inv` computes without overflow.
pub open spec fn scaling_req<T: Arithmetics>(a: Mat3<T>, inv: T) -> bool {
    let d = cofactors(a);
    &&& d[0].mul_req(inv)
    &&& d[3].neg_req() && d[3].neg_spec().mul_req(inv)
    &&& d[6].mul_req(inv)
    &&& d[1].neg_req() && d[1].neg_spec().mul_req(inv)
    &&& d[4].mul_req(inv)
    &&& d[7].neg_req() && d[7].neg_spec().mul_req(inv)
    &&& d[2].mul_req(inv)
    &&& d[5].neg_req() && d[5].neg_spec().mul_req(inv)
    &&& d[8].mul_req(inv)
}

/// Invert a 3x3 matrix. The matrix must be invertible: its determinant must
/// be a valid divisor.
///
/// The inverse is the matrix of signed cofactors, transposed, times the
/// reciprocal of the determinant, which `T`'s `recip` computes.
pub fn matrix_inverse<T>(a: Mat3<T>) -> (r: Mat3<T>) where
    T: Recip + IsValidDivisor + Arithmetics + Copy,

    requires
        obeys_arithmetics::<T>(),
        determinant_req(a),
        forall|valid: bool|
            call_ensures(T::is_valid_divisor, (&determinant(a),), valid) ==> valid,
        forall|inv: T| call_ensures(T::recip, (determinant(a),), inv) ==> scaling_req(a, inv),
    ensures
        exists|inv: T|
            {
                &&& call_ensures(T::recip, (determinant(a),), inv)
                &&& forall|i: int| 0 <= i < 9 ==> #[trigger] r[i] == inverse_spec(a, inv, i)
            },
{
    let d0 = a[4] * a[8] - a[5] * a[7];
    let d1 = a[3] * a[8] - a[5] * a[6];
    let d2 = a[3] * a[7] - a[4] * a[6];
    let mut det = a[0] * d0 - a[1] * d1 + a[2] * d2;
    let d3 = a[1] * a[8] - a[2] * a[7];
    let d4 = a[0] * a[8] - a[2] * a[6];
    let d5 = a[0] * a[7] - a[1] * a[6];
    let d6 = a[1] * a[5] - a[2] * a[4];
    let d7 = a[0] * a[5] - a[2] * a[3];
    let d8 = a[0] * a[4] - a[1] * a[3];

    assert(det == determinant(a));
    det = det.recip();
    let ghost inv = det;
    assert(call_ensures(T::recip, (determinant(a),), inv));
    assert(scaling_req(a, inv));
    assert(d0 == cofactors(a)[0] && d1 == cofactors(a)[1] && d2 == cofactors(a)[2]);
    assert(d3 == cofactors(a)[3] && d4 == cofactors(a)[4] && d5 == cofactors(a)[5]);
    assert(d6 == cofactors(a)[6] && d7 == cofactors(a)[7] && d8 == cofactors(a)[8]);

    let r = [
        d0 * det,
        d3.neg() * det,
        d6 * det,
        d1.neg() * det,
        d4 * det,
        d7.neg() * det,
        d2 * det,
        d5.neg() * det,
        d8 * det,
    ];
    assert forall|i: int| 0 <= i < 9 implies #[trigger] r[i] == inverse_spec(a, inv, i) by {
        if i == 0 {
        } else if i == 1 {
        } else if i == 2 {
        } else if i == 3 {
        } else if i == 4 {
        } else if i == 5 {
        } else if i == 6 {
        } else if i == 7 {
        } else {
        }
    }
    r
}

/// The inverse of `a` as a matrix, with `inv` the reciprocal of its
/// determinant: element `i` is `inverse_spec(a, inv, i)`.
pub open spec fn inverse_matrix_spec<T: Arithmetics>(a: Mat3<T>, inv: T) -> Mat3<T> {
    [
        inverse_spec(a, inv, 0),
        inverse_spec(a, inv, 1),
        inverse_spec(a, inv, 2),
        inverse_spec(a, inv, 3),
        inverse_spec(a, inv, 4),
        inverse_spec(a, inv, 5),
        inverse_spec(a, inv, 6),
        inverse_spec(a, inv, 7),
        inverse_spec(a, inv, 8),
    ]
}

/// The matrix whose columns are the XYZ values of the red, green and blue
/// primaries.
pub open spec fn primaries_matrix_spec<T>(red: Vec3<T>, green: Vec3<T>, blue: Vec3<T>) -> Mat3<T> {
    [red[0], green[0], blue[0], red[1], green[1], blue[1], red[2], green[2], blue[2]]
}

/// Build the matrix whose columns are the XYZ values `r`, `g` and `b` of the
/// red, green and blue primaries.
pub fn mat3_from_primaries<T: Copy>(r: Vec3<T>, g: Vec3<T>, b: Vec3<T>) -> (m: Mat3<T>)
    ensures
        m == primaries_matrix_spec(r, g, b),
{
    [r[0], g[0], b[0], r[1], g[1], b[1], r[2], g[2], b[2]]
}

/// The scale of primary `j` that makes the three primaries add up to
/// `white`: element `j` of the inverse of `p` times `white`, with `inv` the
/// reciprocal of the determinant of `p`.
pub open spec fn white_scale_spec<T: Arithmetics>(p: Mat3<T>, inv: T, white: Vec3<T>, j: int) -> T {
    mat_vec_spec(inverse_matrix_spec(p, inv), white, j)
}

/// The RGB to XYZ matrix computes without overflow once `inv` is the
/// reciprocal of the determinant of the primaries matrix `p`.
pub open spec fn rgb_to_xyz_req<T: Arithmetics>(p: Mat3<T>, inv: T, white: Vec3<T>) -> bool {
    &&& scaling_req(p, inv)
    &&& mat_vec_req(inverse_matrix_spec(p, inv), white)
    &&& forall|k: int| 0 <= k < 9 ==> (#[trigger] p[k]).mul_req(white_scale_spec(p, inv, white, k % 3))
}

/// Generates the RGB to XYZ transformation matrix of an RGB space, from the
/// XYZ values of its red, green and blue primaries and of its white point.
///
/// Column `j` of the result is primary `j` scaled so that the three columns
/// add up to `white`: the scales are the inverse of the primaries matrix
/// times `white`. The primaries matrix must be invertible.
pub fn rgb_to_xyz_matrix<T>(red: Vec3<T>, green: Vec3<T>, blue: Vec3<T>, white: Vec3<T>) -> (r:
    Mat3<T>) where T: Recip + IsValidDivisor + Arithmetics + Copy,

    requires
        obeys_arithmetics::<T>(),
        determinant_req(primaries_matrix_spec(red, green, blue)),
        forall|valid: bool|
            call_ensures(
                T::is_valid_divisor,
                (&determinant(primaries_matrix_spec(red, green, blue)),),
                valid,
            ) ==> valid,
        forall|inv: T|
            call_ensures(T::recip, (determinant(primaries_matrix_spec(red, green, blue)),), inv)
                ==> rgb_to_xyz_req(primaries_matrix_spec(red, green, blue), inv, white),
    ensures
        exists|inv: T|
            {
                &&& call_ensures(
                    T::recip,
                    (determinant(primaries_matrix_spec(red, green, blue)),),
                    inv,
                )
                &&& forall|k: int|
                    0 <= k < 9 ==> #[trigger] r[k] == primaries_matrix_spec(red, green, blue)[k].mul_spec(
                        white_scale_spec(primaries_matrix_spec(red, green, blue), inv, white, k % 3),
                    )
            },
{
    let matrix = mat3_from_primaries(red, green, blue);
    assert forall|inv: T| call_ensures(T::recip, (determinant(matrix),), inv) implies scaling_req(
        matrix,
        inv,
    ) by {
        assert(rgb_to_xyz_req(matrix, inv, white));
    }
    let inverse = matrix_inverse(matrix);
    let ghost inv = choose|inv: T|
        {
            &&& call_ensures(T::recip, (determinant(matrix),), inv)
            &&& forall|i: int| 0 <= i < 9 ==> #[trigger] inverse[i] == inverse_spec(matrix, inv, i)
        };
    let ghost expected = inverse_matrix_spec(matrix, inv);
    assert(inverse[0] == expected[0] && inverse[1] == expected[1] && inverse[2] == expected[2]);
    assert(inverse[3] == expected[3] && inverse[4] == expected[4] && inverse[5] == expected[5]);
    assert(inverse[6] == expected[6] && inverse[7] == expected[7] && inverse[8] == expected[8]);
    assert(rgb_to_xyz_req(matrix, inv, white));
    let scales = multiply_3x3_and_vec3(inverse, white);
    assert(scales[0] == white_scale_spec(matrix, inv, white, 0));
    assert(scales[1] == white_scale_spec(matrix, inv, white, 1));
    assert(scales[2] == white_scale_spec(matrix, inv, white, 2));
    let s_red = scales[0];
    let s_green = scales[1];
    let s_blue = scales[2];
    proof {
        assert(matrix[0].mul_req(white_scale_spec(matrix, inv, white, 0)));
        assert(matrix[1].mul_req(white_scale_spec(matrix, inv, white, 1)));
        assert(matrix[2].mul_req(white_scale_spec(matrix, inv, white, 2)));
        assert(matrix[3].mul_req(white_scale_spec(matrix, inv, white, 0)));
        assert(matrix[4].mul_req(white_scale_spec(matrix, inv, white, 1)));
        assert(matrix[5].mul_req(white_scale_spec(matrix, inv, white, 2)));
        assert(matrix[6].mul_req(white_scale_spec(matrix, inv, white, 0)));
        assert(matrix[7].mul_req(white_scale_spec(matrix, inv, white, 1)));
        assert(matrix[8].mul_req(white_scale_spec(matrix, inv, white, 2)));
    }
    let r = [
        matrix[0] * s_red,
        matrix[1] * s_green,
        matrix[2] * s_blue,
        matrix[3] * s_red,
        matrix[4] * s_green,
        matrix[5] * s_blue,
        matrix[6] * s_red,
        matrix[7] * s_green,
        matrix[8] * s_blue,
    ];
    assert forall|k: int| 0 <= k < 9 implies #[trigger] r[k] == matrix[k].mul_spec(
        white_scale_spec(matrix, inv, white, k % 3),
    ) by {
        if k == 0 {
        } else if k == 1 {
        } else if k == 2 {
        } else if k == 3 {
        } else if k == 4 {
        } else if k == 5 {
        } else if k == 6 {
        } else if k == 7 {
        } else {
        }
    }
    r
}

/// Maps a matrix from one item type to another.
pub fn matrix_map<T, U, F>(matrix: Mat3<T>, f: F) -> (r: Mat3<U>) where
    T: Copy,
    F: Fn(T) -> U,

    requires
        forall|i: int| 0 <= i < 9 ==> f.requires((#[trigger] matrix[i],)),
    ensures
        forall|i: int| 0 <= i < 9 ==> f.ensures((matrix[i],), #[trigger] r[i]),
{
    let r = [
        f(matrix[0]),
        f(matrix[1]),
        f(matrix[2]),
        f(matrix[3]),
        f(matrix[4]),
        f(matrix[5]),
        f(matrix[6]),
        f(matrix[7]),
        f(matrix[8]),
    ];
    assert forall|i: int| 0 <= i < 9 implies f.ensures((matrix[i],), #[trigger] r[i]) by {
        if i == 0 {
        } else if i == 1 {
        } else if i == 2 {
        } else if i == 3 {
        } else if i == 4 {
        } else if i == 5 {
        } else if i == 6 {
        } else if i == 7 {
        } else {
        }
    }
    r
}

/// The signed cofactors of `a`, transposed: the matrix that `matrix_inverse`
/// scales by the reciprocal of the determinant.
pub open spec fn adjugate_spec(a: Mat3<i128>) -> Mat3<i128> {
    [
        inverse_spec(a, 1i128, 0),
        inverse_spec(a, 1i128, 1),
        inverse_spec(a, 1i128, 2),
        inverse_spec(a, 1i128, 3),
        inverse_spec(a, 1i128, 4),
        inverse_spec(a, 1i128, 5),
        inverse_spec(a, 1i128, 6),
        inverse_spec(a, 1i128, 7),
        inverse_spec(a, 1i128, 8),
    ]
}

/// With integer elements, a matrix times the matrix of its signed cofactors,
/// transposed, is its determinant times the unit matrix: the determinant on
/// the diagonal and zero elsewhere. So scaling those cofactors by the
/// reciprocal of the determinant, as `matrix_inverse` does, gives the inverse
/// wherever that reciprocal is exact.
#[verifier::spinoff_prover]
pub proof fn law_matrix_times_adjugate(a: Mat3<i128>)
    requires
        determinant_req(a),
        scaling_req(a, 1i128),
        mat_mul_req(a, adjugate_spec(a)),
    ensures
        forall|i: int, j: int|
            0 <= i < 3 && 0 <= j < 3 ==> #[trigger] mat_mul_spec(a, adjugate_spec(a), i, j) == if i
                == j {
                determinant(a)
            } else {
                0i128
            },
{
    let (a0, a1, a2, a3, a4, a5, a6, a7, a8) = (
        a[0] as int,
        a[1] as int,
        a[2] as int,
        a[3] as int,
        a[4] as int,
        a[5] as int,
        a[6] as int,
        a[7] as int,
        a[8] as int,
    );
    let adj = adjugate_spec(a);
    assert(adj[0] == a4 * a8 - a5 * a7);
    assert(adj[1] == -(a1 * a8 - a2 * a7));
    assert(adj[2] == a1 * a5 - a2 * a4);
    assert(adj[3] == -(a3 * a8 - a5 * a6));
    assert(adj[4] == a0 * a8 - a2 * a6);
    assert(adj[5] == -(a0 * a5 - a2 * a3));
    assert(adj[6] == a3 * a7 - a4 * a6);
    assert(adj[7] == -(a0 * a7 - a1 * a6));
    assert(adj[8] == a0 * a4 - a1 * a3);
    let det = a0 * (a4 * a8 - a5 * a7) - a1 * (a3 * a8 - a5 * a6) + a2 * (a3 * a7 - a4 * a6);
    assert(determinant(a) == det);
    assert(a0 * (a4 * a8 - a5 * a7) == a0 * a4 * a8 - a0 * a5 * a7) by (nonlinear_arith);
    assert(a1 * (a3 * a8 - a5 * a6) == a1 * a3 * a8 - a1 * a5 * a6) by (nonlinear_arith);
    assert(a2 * (a3 * a7 - a4 * a6) == a2 * a3 * a7 - a2 * a4 * a6) by (nonlinear_arith);
    assert(det == a0 * a4 * a8 - a0 * a5 * a7 - a1 * a3 * a8 + a1 * a5 * a6 + a2 * a3 * a7 - a2
        * a4 * a6);
    assert forall|i: int, j: int| 0 <= i < 3 && 0 <= j < 3 implies #[trigger] mat_mul_spec(
        a,
        adj,
        i,
        j,
    ) == if i == j {
        determinant(a)
    } else {
        0i128
    } by {
        assert(mat_mul_spec(a, adj, i, j) == a[3 * i] * adj[j] + a[3 * i + 1] * adj[3 + j] + a[3
            * i + 2] * adj[6 + j]);
        if i == 0 && j == 0 {
            assert(a0 * (a4 * a8 - a5 * a7) == a0 * a4 * a8 - a0 * a5 * a7) by (nonlinear_arith);
            assert(a1 * (-(a3 * a8 - a5 * a6)) == -(a1 * a3 * a8) + a1 * a5 * a6)
                by (nonlinear_arith);
            assert(a2 * (a3 * a7 - a4 * a6) == a2 * a3 * a7 - a2 * a4 * a6) by (nonlinear_arith);
        } else if i == 0 && j == 1 {
            assert(a0 * (-(a1 * a8 - a2 * a7)) == -(a0 * a1 * a8) + a0 * a2 * a7)
                by (nonlinear_arith);
            assert(a1 * (a0 * a8 - a2 * a6) == a0 * a1 * a8 - a1 * a2 * a6) by (nonlinear_arith);
            assert(a2 * (-(a0 * a7 - a1 * a6)) == -(a0 * a2 * a7) + a1 * a2 * a6)
                by (nonlinear_arith);
        } else if i == 0 && j == 2 {
            assert(a0 * (a1 * a5 - a2 * a4) == a0 * a1 * a5 - a0 * a2 * a4) by (nonlinear_arith);
            assert(a1 * (-(a0 * a5 - a2 * a3)) == -(a0 * a1 * a5) + a1 * a2 * a3)
                by (nonlinear_arith);
            assert(a2 * (a0 * a4 - a1 * a3) == a0 * a2 * a4 - a1 * a2 * a3) by (nonlinear_arith);
        } else if i == 1 && j == 0 {
            assert(a3 * (a4 * a8 - a5 * a7) == a3 * a4 * a8 - a3 * a5 * a7) by (nonlinear_arith);
            assert(a4 * (-(a3 * a8 - a5 * a6)) == -(a3 * a4 * a8) + a4 * a5 * a6)
                by (nonlinear_arith);
            assert(a5 * (a3 * a7 - a4 * a6) == a3 * a5 * a7 - a4 * a5 * a6) by (nonlinear_arith);
        } else if i == 1 && j == 1 {
            assert(a3 * (-(a1 * a8 - a2 * a7)) == -(a1 * a3 * a8) + a2 * a3 * a7)
                by (nonlinear_arith);
            assert(a4 * (a0 * a8 - a2 * a6) == a0 * a4 * a8 - a2 * a4 * a6) by (nonlinear_arith);
            assert(a5 * (-(a0 * a7 - a1 * a6)) == -(a0 * a5 * a7) + a1 * a5 * a6)
                by (nonlinear_arith);
        } else if i == 1 && j == 2 {
            assert(a3 * (a1 * a5 - a2 * a4) == a1 * a3 * a5 - a2 * a3 * a4) by (nonlinear_arith);
            assert(a4 * (-(a0 * a5 - a2 * a3)) == -(a0 * a4 * a5) + a2 * a3 * a4)
                by (nonlinear_arith);
            assert(a5 * (a0 * a4 - a1 * a3) == a0 * a4 * a5 - a1 * a3 * a5) by (nonlinear_arith);
        } else if i == 2 && j == 0 {
            assert(a6 * (a4 * a8 - a5 * a7) == a4 * a6 * a8 - a5 * a6 * a7) by (nonlinear_arith);
            assert(a7 * (-(a3 * a8 - a5 * a6)) == -(a3 * a7 * a8) + a5 * a6 * a7)
                by (nonlinear_arith);
            assert(a8 * (a3 * a7 - a4 * a6) == a3 * a7 * a8 - a4 * a6 * a8) by (nonlinear_arith);
        } else if i == 2 && j == 1 {
            assert(a6 * (-(a1 * a8 - a2 * a7)) == -(a1 * a6 * a8) + a2 * a6 * a7)
                by (nonlinear_arith);
            assert(a7 * (a0 * a8 - a2 * a6) == a0 * a7 * a8 - a2 * a6 * a7) by (nonlinear_arith);
            assert(a8 * (-(a0 * a7 - a1 * a6)) == -(a0 * a7 * a8) + a1 * a6 * a8)
                by (nonlinear_arith);
        } else {
            assert(a6 * (a1 * a5 - a2 * a4) == a1 * a5 * a6 - a2 * a4 * a6) by (nonlinear_arith);
            assert(a7 * (-(a0 * a5 - a2 * a3)) == -(a0 * a5 * a7) + a2 * a3 * a7)
                by (nonlinear_arith);
            assert(a8 * (a0 * a4 - a1 * a3) == a0 * a4 * a8 - a1 * a3 * a8) by (nonlinear_arith);
        }
    }
}

/// `x0 * (y0 * s) + x1 * (y1 * s) + x2 * (y2 * s)` is
/// `(x0 * y0 + x1 * y1 + x2 * y2) * s`.
proof fn lemma_dot_scaled(x0: int, x1: int, x2: int, y0: int, y1: int, y2: int, s: int)
    ensures
        x0 * (y0 * s) + x1 * (y1 * s) + x2 * (y2 * s) == (x0 * y0 + x1 * y1 + x2 * y2) * s,
{
    vstd::arithmetic::mul::lemma_mul_is_associative(x0, y0, s);
    vstd::arithmetic::mul::lemma_mul_is_associative(x1, y1, s);
    vstd::arithmetic::mul::lemma_mul_is_associative(x2, y2, s);
    lemma_scale_sum(s, x0 * y0, x1 * y1, x2 * y2);
    vstd::arithmetic::mul::lemma_mul_is_commutative(s, x0 * y0 + x1 * y1 + x2 * y2);
    vstd::arithmetic::mul::lemma_mul_is_commutative(s, x0 * y0);
    vstd::arithmetic::mul::lemma_mul_is_commutative(s, x1 * y1);
    vstd::arithmetic::mul::lemma_mul_is_commutative(s, x2 * y2);
}

/// Row `row` of `m` times `(1, 1, 1)` is the sum of the row.
proof fn lemma_row_times_ones(m: Mat3<i128>, row: int)
    requires
        0 <= row < 3,
        row_times_req(m, row, 1i128, 1i128, 1i128),
    ensures
        row_times(m, row, 1i128, 1i128, 1i128) == m[3 * row] + m[3 * row + 1] + m[3 * row + 2],
{
}

/// With integer elements, where `inv` is the exact reciprocal of the
/// determinant (`determinant(a) * inv == 1`), the inverse that
/// `matrix_inverse` builds from `inv` is exact: `a` times it is the unit
/// matrix, one on the diagonal and zero elsewhere.
#[verifier::spinoff_prover]
pub proof fn law_matrix_times_inverse_is_unit(a: Mat3<i128>, inv: i128)
    requires
        determinant_req(a),
        scaling_req(a, 1i128),
        scaling_req(a, inv),
        mat_mul_req(a, adjugate_spec(a)),
        mat_mul_req(a, inverse_matrix_spec(a, inv)),
        determinant(a) * inv == 1,
    ensures
        forall|i: int, j: int|
            0 <= i < 3 && 0 <= j < 3 ==> #[trigger] mat_mul_spec(a, inverse_matrix_spec(a, inv), i, j)
                == if i == j {
                1i128
            } else {
                0i128
            },
{
    law_matrix_times_adjugate(a);
    let adj = adjugate_spec(a);
    let m = inverse_matrix_spec(a, inv);
    assert forall|k: int| 0 <= k < 9 implies #[trigger] m[k] == adj[k] * inv by {
        if k == 0 {
        } else if k == 1 {
        } else if k == 2 {
        } else if k == 3 {
        } else if k == 4 {
        } else if k == 5 {
        } else if k == 6 {
        } else if k == 7 {
        } else {
        }
    }
    assert forall|i: int, j: int| 0 <= i < 3 && 0 <= j < 3 implies #[trigger] mat_mul_spec(
        a,
        m,
        i,
        j,
    ) == if i == j {
        1i128
    } else {
        0i128
    } by {
        assert(m[j] == adj[j] * inv);
        assert(m[3 + j] == adj[3 + j] * inv);
        assert(m[6 + j] == adj[6 + j] * inv);
        lemma_dot_scaled(
            a[3 * i] as int,
            a[3 * i + 1] as int,
            a[3 * i + 2] as int,
            adj[j] as int,
            adj[3 + j] as int,
            adj[6 + j] as int,
            inv as int,
        );
        assert(mat_mul_spec(a, m, i, j) == a[3 * i] * m[j] + a[3 * i + 1] * m[3 + j] + a[3 * i
            + 2] * m[6 + j]);
        assert(mat_mul_spec(a, adj, i, j) == a[3 * i] * adj[j] + a[3 * i + 1] * adj[3 + j] + a[3
            * i + 2] * adj[6 + j]);
        assert(mat_mul_spec(a, m, i, j) == mat_mul_spec(a, adj, i, j) * inv);
        if i == j {
            assert(mat_mul_spec(a, adj, i, j) == determinant(a));
        } else {
            assert(mat_mul_spec(a, adj, i, j) == 0);
        }
    }
}

/// Row `p0, p1, p2` times the matrix-vector product `m * w` is the row times
/// `m`, then times `w`.
proof fn lemma_row_times_product(
    p0: int,
    p1: int,
    p2: int,
    m: Seq<int>,
    w0: int,
    w1: int,
    w2: int,
)
    requires
        m.len() == 9,
    ensures
        p0 * (m[0] * w0 + m[1] * w1 + m[2] * w2) + p1 * (m[3] * w0 + m[4] * w1 + m[5] * w2) + p2
            * (m[6] * w0 + m[7] * w1 + m[8] * w2) == (p0 * m[0] + p1 * m[3] + p2 * m[6]) * w0 + (p0
            * m[1] + p1 * m[4] + p2 * m[7]) * w1 + (p0 * m[2] + p1 * m[5] + p2 * m[8]) * w2,
{
    let (m0, m1, m2, m3, m4, m5, m6, m7, m8) = (m[0], m[1], m[2], m[3], m[4], m[5], m[6], m[7], m[8]);
    lemma_scale_sum(p0, m0 * w0, m1 * w1, m2 * w2);
    lemma_scale_sum(p1, m3 * w0, m4 * w1, m5 * w2);
    lemma_scale_sum(p2, m6 * w0, m7 * w1, m8 * w2);
    vstd::arithmetic::mul::lemma_mul_is_associative(p0, m0, w0);
    vstd::arithmetic::mul::lemma_mul_is_associative(p0, m1, w1);
    vstd::arithmetic::mul::lemma_mul_is_associative(p0, m2, w2);
    vstd::arithmetic::mul::lemma_mul_is_associative(p1, m3, w0);
    vstd::arithmetic::mul::lemma_mul_is_associative(p1, m4, w1);
    vstd::arithmetic::mul::lemma_mul_is_associative(p1, m5, w2);
    vstd::arithmetic::mul::lemma_mul_is_associative(p2, m6, w0);
    vstd::arithmetic::mul::lemma_mul_is_associative(p2, m7, w1);
    vstd::arithmetic::mul::lemma_mul_is_associative(p2, m8, w2);
    lemma_scale_sum(w0, p0 * m0, p1 * m3, p2 * m6);
    lemma_scale_sum(w1, p0 * m1, p1 * m4, p2 * m7);
    lemma_scale_sum(w2, p0 * m2, p1 * m5, p2 * m8);
    vstd::arithmetic::mul::lemma_mul_is_commutative(p0 * m0 + p1 * m3 + p2 * m6, w0);
    vstd::arithmetic::mul::lemma_mul_is_commutative(p0 * m1 + p1 * m4 + p2 * m7, w1);
    vstd::arithmetic::mul::lemma_mul_is_commutative(p0 * m2 + p1 * m5 + p2 * m8, w2);
    vstd::arithmetic::mul::lemma_mul_is_commutative(p0 * m0, w0);
    vstd::arithmetic::mul::lemma_mul_is_commutative(p1 * m3, w0);
    vstd::arithmetic::mul::lemma_mul_is_commutative(p2 * m6, w0);
    vstd::arithmetic::mul::lemma_mul_is_commutative(p0 * m1, w1);
    vstd::arithmetic::mul::lemma_mul_is_commutative(p1 * m4, w1);
    vstd::arithmetic::mul::lemma_mul_is_commutative(p2 * m7, w1);
    vstd::arithmetic::mul::lemma_mul_is_commutative(p0 * m2, w2);
    vstd::arithmetic::mul::lemma_mul_is_commutative(p1 * m5, w2);
    vstd::arithmetic::mul::lemma_mul_is_commutative(p2 * m8, w2);
}

/// `p * (a + b + c)` is `p * a + p * b + p * c`.
proof fn lemma_scale_sum(p: int, a: int, b: int, c: int)
    by (nonlinear_arith)
    ensures
        p * (a + b + c) == p * a + p * b + p * c,
{
}

/// With integer elements, where `inv` is the exact reciprocal of the
/// determinant of the primaries matrix, the matrix that `rgb_to_xyz_matrix`
/// builds maps RGB white, `(1, 1, 1)`, to the white point `white`.
#[verifier::spinoff_prover]
#[verifier::rlimit(40)]
pub proof fn law_rgb_to_xyz_maps_white_to_white_point(
    red: Vec3<i128>,
    green: Vec3<i128>,
    blue: Vec3<i128>,
    white: Vec3<i128>,
    inv: i128,
    m: Mat3<i128>,
)
    requires
        determinant_req(primaries_matrix_spec(red, green, blue)),
        scaling_req(primaries_matrix_spec(red, green, blue), 1i128),
        mat_mul_req(
            primaries_matrix_spec(red, green, blue),
            adjugate_spec(primaries_matrix_spec(red, green, blue)),
        ),
        mat_mul_req(
            primaries_matrix_spec(red, green, blue),
            inverse_matrix_spec(primaries_matrix_spec(red, green, blue), inv),
        ),
        rgb_to_xyz_req(primaries_matrix_spec(red, green, blue), inv, white),
        determinant(primaries_matrix_spec(red, green, blue)) * inv == 1,
        forall|k: int|
            0 <= k < 9 ==> #[trigger] m[k] == primaries_matrix_spec(red, green, blue)[k].mul_spec(
                white_scale_spec(primaries_matrix_spec(red, green, blue), inv, white, k % 3),
            ),
        mat_vec_req(m, [1i128, 1i128, 1i128]),
    ensures
        mat_vec_spec(m, [1i128, 1i128, 1i128], 0) == white[0],
        mat_vec_spec(m, [1i128, 1i128, 1i128], 1) == white[1],
        mat_vec_spec(m, [1i128, 1i128, 1i128], 2) == white[2],
{
    let p = primaries_matrix_spec(red, green, blue);
    let q = inverse_matrix_spec(p, inv);
    law_matrix_times_inverse_is_unit(p, inv);
    let ones = [1i128, 1i128, 1i128];
    let qs = seq![
        q[0] as int,
        q[1] as int,
        q[2] as int,
        q[3] as int,
        q[4] as int,
        q[5] as int,
        q[6] as int,
        q[7] as int,
        q[8] as int,
    ];
    assert(mat_vec_req(q, white));
    let s0 = white_scale_spec(p, inv, white, 0);
    let s1 = white_scale_spec(p, inv, white, 1);
    let s2 = white_scale_spec(p, inv, white, 2);
    assert(s0 == q[0] * white[0] + q[1] * white[1] + q[2] * white[2]);
    assert(s1 == q[3] * white[0] + q[4] * white[1] + q[5] * white[2]);
    assert(s2 == q[6] * white[0] + q[7] * white[1] + q[8] * white[2]);
    assert forall|i: int| 0 <= i < 3 implies #[trigger] mat_vec_spec(m, ones, i) == white[i] by {
        assert(m[3 * i] == p[3 * i] * s0);
        assert(m[3 * i + 1] == p[3 * i + 1] * s1);
        assert(m[3 * i + 2] == p[3 * i + 2] * s2);
        assert(ones[0] == 1 && ones[1] == 1 && ones[2] == 1);
        assert(row_times_req(m, i, ones[0], ones[1], ones[2])) by {
            if i == 0 {
            } else if i == 1 {
            } else {
            }
        }
        lemma_row_times_ones(m, i);
        assert(mat_vec_spec(m, ones, i) == m[3 * i] + m[3 * i + 1] + m[3 * i + 2]);
        lemma_row_times_product(
            p[3 * i] as int,
            p[3 * i + 1] as int,
            p[3 * i + 2] as int,
            qs,
            white[0] as int,
            white[1] as int,
            white[2] as int,
        );
        assert(mat_mul_spec(p, q, i, 0) == p[3 * i] * q[0] + p[3 * i + 1] * q[3] + p[3 * i + 2]
            * q[6]);
        assert(mat_mul_spec(p, q, i, 1) == p[3 * i] * q[1] + p[3 * i + 1] * q[4] + p[3 * i + 2]
            * q[7]);
        assert(mat_mul_spec(p, q, i, 2) == p[3 * i] * q[2] + p[3 * i + 1] * q[5] + p[3 * i + 2]
            * q[8]);
        let (w0, w1, w2) = (white[0] as int, white[1] as int, white[2] as int);
        assert(qs[0] == q[0] && qs[1] == q[1] && qs[2] == q[2]);
        assert(qs[3] == q[3] && qs[4] == q[4] && qs[5] == q[5]);
        assert(qs[6] == q[6] && qs[7] == q[7] && qs[8] == q[8]);
        assert(mat_vec_spec(m, ones, i) == mat_mul_spec(p, q, i, 0) * w0 + mat_mul_spec(p, q, i, 1)
            * w1 + mat_mul_spec(p, q, i, 2) * w2);
        assert(mat_mul_spec(p, q, i, 0) == if i == 0 {
            1i128
        } else {
            0i128
        });
        assert(mat_mul_spec(p, q, i, 1) == if i == 1 {
            1i128
        } else {
            0i128
        });
        assert(mat_mul_spec(p, q, i, 2) == if i == 2 {
            1i128
        } else {
            0i128
        });
        if i == 0 {
        } else if i == 1 {
        } else {
        }
    }
}

/// With integer elements, multiplying by the unit matrix on either side
/// gives the matrix back, and multiplying a matrix by the unit vector along
/// axis `j` gives its column `j`.
pub proof fn law_unit_matrix_i128(a: Mat3<i128>, unit: Mat3<i128>, axis: Vec3<i128>, j: int)
    requires
        unit[0] == 1 && unit[1] == 0 && unit[2] == 0,
        unit[3] == 0 && unit[4] == 1 && unit[5] == 0,
        unit[6] == 0 && unit[7] == 0 && unit[8] == 1,
        0 <= j < 3,
        axis[j] == 1,
        forall|k: int| 0 <= k < 3 && k != j ==> axis[k] == 0,
    ensures
        forall|r: int, col: int|
            0 <= r < 3 && 0 <= col < 3 ==> #[trigger] mat_mul_spec(a, unit, r, col) == a[3 * r + col],
        forall|r: int, col: int|
            0 <= r < 3 && 0 <= col < 3 ==> #[trigger] mat_mul_spec(unit, a, r, col) == a[3 * r + col],
        forall|r: int| 0 <= r < 3 ==> #[trigger] mat_vec_spec(a, axis, r) == a[3 * r + j],
{
    assert forall|r: int, col: int| 0 <= r < 3 && 0 <= col < 3 implies #[trigger] mat_mul_spec(
        a,
        unit,
        r,
        col,
    ) == a[3 * r + col] by {
        if col == 0 {
        } else if col == 1 {
        } else {
        }
    }
    assert forall|r: int, col: int| 0 <= r < 3 && 0 <= col < 3 implies #[trigger] mat_mul_spec(
        unit,
        a,
        r,
        col,
    ) == a[3 * r + col] by {
        if r == 0 {
        } else if r == 1 {
        } else {
        }
    }
    assert(axis[0] == if j == 0 { 1i128 } else { 0i128 });
    assert(axis[1] == if j == 1 { 1i128 } else { 0i128 });
    assert(axis[2] == if j == 2 { 1i128 } else { 0i128 });
}

/// The primaries matrix has the XYZ values of red, green and blue as its
/// first, second and third column, and `mat3_from_primaries` builds it.
pub proof fn law_primaries_are_columns<T: Copy>(
    red: Vec3<T>,
    green: Vec3<T>,
    blue: Vec3<T>,
    m: Mat3<T>,
)
    requires
        call_ensures(mat3_from_primaries::<T>, (red, green, blue), m),
    ensures
        forall|i: int|
            0 <= i < 3 ==> #[trigger] primaries_matrix_spec(red, green, blue)[3 * i] == red[i]
                && primaries_matrix_spec(red, green, blue)[3 * i + 1] == green[i]
                && primaries_matrix_spec(red, green, blue)[3 * i + 2] == blue[i],
        forall|i: int|
            0 <= i < 3 ==> #[trigger] m[3 * i] == red[i] && m[3 * i + 1] == green[i] && m[3 * i
                + 2] == blue[i],
{
    assert forall|i: int| 0 <= i < 3 implies #[trigger] m[3 * i] == red[i] && m[3 * i + 1]
        == green[i] && m[3 * i + 2] == blue[i] by {
        if i == 0 {
        } else if i == 1 {
        } else {
        }
    }
    assert forall|i: int| 0 <= i < 3 implies #[trigger] primaries_matrix_spec(red, green, blue)[3
        * i] == red[i] && primaries_matrix_spec(red, green, blue)[3 * i + 1] == green[i]
        && primaries_matrix_spec(red, green, blue)[3 * i + 2] == blue[i] by {
        if i == 0 {
        } else if i == 1 {
        } else {
        }
    }
}

} // verus!
