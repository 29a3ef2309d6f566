//! Laws of the determinant, proved for every integer scalar whenever the
//! determinant is defined: it is the determinant of the integer values; it
//! is zero when two columns or two rows are equal, and such a matrix has no
//! inverse; for a triangular matrix it is the product of the diagonal.

use vstd::prelude::*;
use crate::determinant::{can_det2, can_det3, det2, det3};
use crate::determinant_value::{
    det2_value, det3_value, det4_value, lemma_det2_value_equal_columns_0_1,
    lemma_det2_value_equal_rows_0_1, lemma_det2_value_lower_triangular,
    lemma_det2_value_upper_triangular, lemma_det3_value_equal_columns_0_1,
    lemma_det3_value_equal_columns_0_2, lemma_det3_value_equal_columns_1_2,
    lemma_det3_value_equal_rows_0_1, lemma_det3_value_equal_rows_0_2,
    lemma_det3_value_equal_rows_1_2, lemma_det3_value_lower_triangular,
    lemma_det3_value_upper_triangular, lemma_det4_value_equal_columns_0_1,
    lemma_det4_value_equal_columns_0_2, lemma_det4_value_equal_columns_0_3,
    lemma_det4_value_equal_columns_1_2, lemma_det4_value_equal_columns_1_3,
    lemma_det4_value_equal_columns_2_3, lemma_det4_value_equal_rows_0_1,
    lemma_det4_value_equal_rows_0_2, lemma_det4_value_equal_rows_0_3,
    lemma_det4_value_equal_rows_1_2, lemma_det4_value_equal_rows_1_3,
    lemma_det4_value_equal_rows_2_3, lemma_det4_value_lower_triangular,
    lemma_det4_value_upper_triangular,
};
use crate::exact::{lemma_add_zero, lemma_mul_one, lemma_mul_zero, lemma_sub_zero};
use crate::matrix2x2::Matrix2x2;
use crate::matrix3x3::Matrix3x3;
use crate::matrix4x4::Matrix4x4;
use crate::scalar::{ExactScalar, ExactSigned};

verus! {

/// A defined two-by-two determinant has the determinant of the values.
pub proof fn lemma_det2_value<S: ExactScalar>(a: S, b: S, c: S, d: S)
    requires
        can_det2(a, b, c, d),
    ensures
        det2(a, b, c, d).value() == det2_value(a.value(), b.value(), c.value(), d.value()),
{
    S::lemma_mul(a, d);
    S::lemma_mul(b, c);
    S::lemma_sub(a.times(d), b.times(c));
}

/// A defined three-by-three determinant has the determinant of the values.
pub proof fn lemma_det3_value<S: ExactScalar>(
    m00: S,
    m01: S,
    m02: S,
    m10: S,
    m11: S,
    m12: S,
    m20: S,
    m21: S,
    m22: S,
)
    requires
        can_det3(m00, m01, m02, m10, m11, m12, m20, m21, m22),
    ensures
        det3(m00, m01, m02, m10, m11, m12, m20, m21, m22).value() == det3_value(
            m00.value(), m01.value(), m02.value(), m10.value(), m11.value(), m12.value(),
                m20.value(), m21.value(), m22.value(),
        ),
{
    lemma_det2_value(m11, m12, m21, m22);
    S::lemma_mul(m00, det2(m11, m12, m21, m22));
    lemma_det2_value(m01, m02, m21, m22);
    S::lemma_mul(m10, det2(m01, m02, m21, m22));
    S::lemma_sub(m00.times(det2(m11, m12, m21, m22)), m10.times(det2(m01, m02, m21, m22)));
    lemma_det2_value(m01, m02, m11, m12);
    S::lemma_mul(m20, det2(m01, m02, m11, m12));
    S::lemma_add(m00.times(det2(m11, m12, m21, m22)).minus(m10.times(det2(m01, m02, m21, m22))),
        m20.times(det2(m01, m02, m11, m12)));
}

/// The determinant of a two-by-two matrix, where it is defined, has the
/// determinant of the matrix of the values.
pub proof fn lemma_matrix2x2_determinant_value<S: ExactScalar>(a: Matrix2x2<S>)
    requires
        a.can_determinant(),
    ensures
        a.determinant_spec().value() == det2_value(
            a.c0.x.value(), a.c0.y.value(), a.c1.x.value(), a.c1.y.value(),
        ),
{
    lemma_det2_value(a.c0.x, a.c0.y, a.c1.x, a.c1.y);
}

/// The determinant of a three-by-three matrix, where it is defined, has the
/// determinant of the matrix of the values.
pub proof fn lemma_matrix3x3_determinant_value<S: ExactScalar>(a: Matrix3x3<S>)
    requires
        a.can_determinant(),
    ensures
        a.determinant_spec().value() == det3_value(
            a.c0.x.value(), a.c0.y.value(), a.c0.z.value(), a.c1.x.value(), a.c1.y.value(),
                a.c1.z.value(), a.c2.x.value(), a.c2.y.value(), a.c2.z.value(),
        ),
{
    lemma_det3_value(a.c0.x, a.c0.y, a.c0.z, a.c1.x, a.c1.y, a.c1.z, a.c2.x, a.c2.y, a.c2.z);
}

/// The determinant of a four-by-four matrix, where it is defined, has the
/// determinant of the matrix of the values.
pub proof fn lemma_matrix4x4_determinant_value<S: ExactScalar>(a: Matrix4x4<S>)
    requires
        a.can_determinant(),
    ensures
        a.determinant_spec().value() == det4_value(
            a.c0.x.value(), a.c0.y.value(), a.c0.z.value(), a.c0.w.value(), a.c1.x.value(),
                a.c1.y.value(), a.c1.z.value(), a.c1.w.value(), a.c2.x.value(), a.c2.y.value(),
                a.c2.z.value(), a.c2.w.value(), a.c3.x.value(), a.c3.y.value(), a.c3.z.value(),
                a.c3.w.value(),
        ),
{
    lemma_det3_value(a.c1.y, a.c1.z, a.c1.w, a.c2.y, a.c2.z, a.c2.w, a.c3.y, a.c3.z, a.c3.w);
    S::lemma_mul(a.c0.x, det3(a.c1.y, a.c1.z, a.c1.w, a.c2.y, a.c2.z, a.c2.w, a.c3.y, a.c3.z,
        a.c3.w));
    lemma_det3_value(a.c0.y, a.c0.z, a.c0.w, a.c2.y, a.c2.z, a.c2.w, a.c3.y, a.c3.z, a.c3.w);
    S::lemma_mul(a.c1.x, det3(a.c0.y, a.c0.z, a.c0.w, a.c2.y, a.c2.z, a.c2.w, a.c3.y, a.c3.z,
        a.c3.w));
    S::lemma_sub(a.c0.x.times(det3(a.c1.y, a.c1.z, a.c1.w, a.c2.y, a.c2.z, a.c2.w, a.c3.y, a.c3.z,
        a.c3.w)), a.c1.x.times(det3(a.c0.y, a.c0.z, a.c0.w, a.c2.y, a.c2.z, a.c2.w, a.c3.y, a.c3.z,
        a.c3.w)));
    lemma_det3_value(a.c0.y, a.c0.z, a.c0.w, a.c1.y, a.c1.z, a.c1.w, a.c3.y, a.c3.z, a.c3.w);
    S::lemma_mul(a.c2.x, det3(a.c0.y, a.c0.z, a.c0.w, a.c1.y, a.c1.z, a.c1.w, a.c3.y, a.c3.z,
        a.c3.w));
    S::lemma_add(a.c0.x.times(det3(a.c1.y, a.c1.z, a.c1.w, a.c2.y, a.c2.z, a.c2.w, a.c3.y, a.c3.z,
        a.c3.w)).minus(a.c1.x.times(det3(a.c0.y, a.c0.z, a.c0.w, a.c2.y, a.c2.z, a.c2.w, a.c3.y,
        a.c3.z, a.c3.w))), a.c2.x.times(det3(a.c0.y, a.c0.z, a.c0.w, a.c1.y, a.c1.z, a.c1.w,
        a.c3.y, a.c3.z, a.c3.w)));
    lemma_det3_value(a.c0.y, a.c0.z, a.c0.w, a.c1.y, a.c1.z, a.c1.w, a.c2.y, a.c2.z, a.c2.w);
    S::lemma_mul(a.c3.x, det3(a.c0.y, a.c0.z, a.c0.w, a.c1.y, a.c1.z, a.c1.w, a.c2.y, a.c2.z,
        a.c2.w));
    S::lemma_sub(a.c0.x.times(det3(a.c1.y, a.c1.z, a.c1.w, a.c2.y, a.c2.z, a.c2.w, a.c3.y, a.c3.z,
        a.c3.w)).minus(a.c1.x.times(det3(a.c0.y, a.c0.z, a.c0.w, a.c2.y, a.c2.z, a.c2.w, a.c3.y,
        a.c3.z, a.c3.w))).plus(a.c2.x.times(det3(a.c0.y, a.c0.z, a.c0.w, a.c1.y, a.c1.z, a.c1.w,
        a.c3.y, a.c3.z, a.c3.w))), a.c3.x.times(det3(a.c0.y, a.c0.z, a.c0.w, a.c1.y, a.c1.z,
        a.c1.w, a.c2.y, a.c2.z, a.c2.w)));
}

/// A two-by-two matrix whose determinant is zero is not invertible and has no inverse.
pub proof fn lemma_matrix2x2_zero_determinant_no_inverse<S: ExactSigned>(a: Matrix2x2<S>)
    requires
        a.determinant_spec() == S::zero_spec(),
    ensures
        !a.is_invertible_spec(),
        a.inverse_spec() is None,
{
    S::lemma_same(S::zero_spec(), S::zero_spec());
}

/// For every two-by-two matrix `a` in which the columns `i` and `j` are equal and
/// whose determinant is defined: the determinant is zero, and `a` is not invertible.
pub proof fn lemma_matrix2x2_equal_columns_determinant_zero<S: ExactScalar>(
    a: Matrix2x2<S>,
    i: int,
    j: int,
)
    requires
        0 <= i < j < 2,
        a.column(i) == a.column(j),
        a.can_determinant(),
    ensures
        a.determinant_spec() == S::zero_spec(),
        !a.is_invertible_spec(),
{
    lemma_matrix2x2_determinant_value(a);
    if i == 0 && j == 1 {
        lemma_det2_value_equal_columns_0_1(
            a.c0.x.value(), a.c0.y.value(), a.c1.x.value(), a.c1.y.value(),
        );
    }
    S::lemma_identities();
    S::lemma_value_injective(a.determinant_spec(), S::zero_spec());
    S::lemma_same(S::zero_spec(), S::zero_spec());
}

/// For every two-by-two matrix `a` over a signed scalar in which the columns `i`
/// and `j` are equal and whose determinant is defined: `a` has no inverse.
pub proof fn lemma_matrix2x2_equal_columns_no_inverse<S: ExactSigned>(
    a: Matrix2x2<S>,
    i: int,
    j: int,
)
    requires
        0 <= i < j < 2,
        a.column(i) == a.column(j),
        a.can_determinant(),
    ensures
        a.inverse_spec() is None,
{
    lemma_matrix2x2_equal_columns_determinant_zero(a, i, j);
}

/// For every two-by-two matrix `a` in which the rows `i` and `j` are equal and
/// whose determinant is defined: the determinant is zero, and `a` is not invertible.
pub proof fn lemma_matrix2x2_equal_rows_determinant_zero<S: ExactScalar>(
    a: Matrix2x2<S>,
    i: int,
    j: int,
)
    requires
        0 <= i < j < 2,
        a.row(i) == a.row(j),
        a.can_determinant(),
    ensures
        a.determinant_spec() == S::zero_spec(),
        !a.is_invertible_spec(),
{
    lemma_matrix2x2_determinant_value(a);
    if i == 0 && j == 1 {
        lemma_det2_value_equal_rows_0_1(
            a.c0.x.value(), a.c0.y.value(), a.c1.x.value(), a.c1.y.value(),
        );
    }
    S::lemma_identities();
    S::lemma_value_injective(a.determinant_spec(), S::zero_spec());
    S::lemma_same(S::zero_spec(), S::zero_spec());
}

/// For every two-by-two matrix `a` over a signed scalar in which the rows `i`
/// and `j` are equal and whose determinant is defined: `a` has no inverse.
pub proof fn lemma_matrix2x2_equal_rows_no_inverse<S: ExactSigned>(a: Matrix2x2<S>, i: int, j: int)
    requires
        0 <= i < j < 2,
        a.row(i) == a.row(j),
        a.can_determinant(),
    ensures
        a.inverse_spec() is None,
{
    lemma_matrix2x2_equal_rows_determinant_zero(a, i, j);
}

/// For every two-by-two matrix `a` whose entries below the diagonal are zero and
/// whose determinant is defined: the determinant has the product of the
/// values of the diagonal entries.
pub proof fn lemma_matrix2x2_upper_triangular_determinant<S: ExactScalar>(a: Matrix2x2<S>)
    requires
        a.c0.y == S::zero_spec(),
        a.can_determinant(),
    ensures
        a.determinant_spec().value() == a.c0.x.value() * a.c1.y.value(),
{
    lemma_matrix2x2_determinant_value(a);
    S::lemma_identities();
    lemma_det2_value_upper_triangular(
        a.c0.x.value(), a.c0.y.value(), a.c1.x.value(), a.c1.y.value(),
    );
}

/// For every two-by-two matrix `a` whose entries above the diagonal are zero and
/// whose determinant is defined: the determinant has the product of the
/// values of the diagonal entries.
pub proof fn lemma_matrix2x2_lower_triangular_determinant<S: ExactScalar>(a: Matrix2x2<S>)
    requires
        a.c1.x == S::zero_spec(),
        a.can_determinant(),
    ensures
        a.determinant_spec().value() == a.c0.x.value() * a.c1.y.value(),
{
    lemma_matrix2x2_determinant_value(a);
    S::lemma_identities();
    lemma_det2_value_lower_triangular(
        a.c0.x.value(), a.c0.y.value(), a.c1.x.value(), a.c1.y.value(),
    );
}

/// The determinant of the two-by-two identity is defined and is one.
pub proof fn lemma_matrix2x2_identity_determinant<S: ExactScalar>()
    ensures
        Matrix2x2::<S>::identity_spec().can_determinant(),
        Matrix2x2::<S>::identity_spec().determinant_spec() == S::one_spec(),
{
    lemma_mul_one(S::one_spec());
    lemma_mul_zero(S::one_spec());
    lemma_mul_zero(S::zero_spec());
    lemma_mul_one(S::zero_spec());
    lemma_add_zero(S::one_spec());
    lemma_add_zero(S::zero_spec());
    lemma_sub_zero(S::one_spec());
    lemma_sub_zero(S::zero_spec());
}

/// A three-by-three matrix whose determinant is zero is not invertible and has no inverse.
pub proof fn lemma_matrix3x3_zero_determinant_no_inverse<S: ExactSigned>(a: Matrix3x3<S>)
    requires
        a.determinant_spec() == S::zero_spec(),
    ensures
        !a.is_invertible_spec(),
        a.inverse_spec() is None,
{
    S::lemma_same(S::zero_spec(), S::zero_spec());
}

/// For every three-by-three matrix `a` in which the columns `i` and `j` are equal and
/// whose determinant is defined: the determinant is zero, and `a` is not invertible.
pub proof fn lemma_matrix3x3_equal_columns_determinant_zero<S: ExactScalar>(
    a: Matrix3x3<S>,
    i: int,
    j: int,
)
    requires
        0 <= i < j < 3,
        a.column(i) == a.column(j),
        a.can_determinant(),
    ensures
        a.determinant_spec() == S::zero_spec(),
        !a.is_invertible_spec(),
{
    lemma_matrix3x3_determinant_value(a);
    if i == 0 && j == 1 {
        lemma_det3_value_equal_columns_0_1(
            a.c0.x.value(), a.c0.y.value(), a.c0.z.value(), a.c1.x.value(), a.c1.y.value(),
                a.c1.z.value(), a.c2.x.value(), a.c2.y.value(), a.c2.z.value(),
        );
    } else if i == 0 && j == 2 {
        lemma_det3_value_equal_columns_0_2(
            a.c0.x.value(), a.c0.y.value(), a.c0.z.value(), a.c1.x.value(), a.c1.y.value(),
                a.c1.z.value(), a.c2.x.value(), a.c2.y.value(), a.c2.z.value(),
        );
    } else if i == 1 && j == 2 {
        lemma_det3_value_equal_columns_1_2(
            a.c0.x.value(), a.c0.y.value(), a.c0.z.value(), a.c1.x.value(), a.c1.y.value(),
                a.c1.z.value(), a.c2.x.value(), a.c2.y.value(), a.c2.z.value(),
        );
    }
    S::lemma_identities();
    S::lemma_value_injective(a.determinant_spec(), S::zero_spec());
    S::lemma_same(S::zero_spec(), S::zero_spec());
}

/// For every three-by-three matrix `a` over a signed scalar in which the columns `i`
/// and `j` are equal and whose determinant is defined: `a` has no inverse.
pub proof fn lemma_matrix3x3_equal_columns_no_inverse<S: ExactSigned>(
    a: Matrix3x3<S>,
    i: int,
    j: int,
)
    requires
        0 <= i < j < 3,
        a.column(i) == a.column(j),
        a.can_determinant(),
    ensures
        a.inverse_spec() is None,
{
    lemma_matrix3x3_equal_columns_determinant_zero(a, i, j);
}

/// For every three-by-three matrix `a` in which the rows `i` and `j` are equal and
/// whose determinant is defined: the determinant is zero, and `a` is not invertible.
pub proof fn lemma_matrix3x3_equal_rows_determinant_zero<S: ExactScalar>(
    a: Matrix3x3<S>,
    i: int,
    j: int,
)
    requires
        0 <= i < j < 3,
        a.row(i) == a.row(j),
        a.can_determinant(),
    ensures
        a.determinant_spec() == S::zero_spec(),
        !a.is_invertible_spec(),
{
    lemma_matrix3x3_determinant_value(a);
    if i == 0 && j == 1 {
        lemma_det3_value_equal_rows_0_1(
            a.c0.x.value(), a.c0.y.value(), a.c0.z.value(), a.c1.x.value(), a.c1.y.value(),
                a.c1.z.value(), a.c2.x.value(), a.c2.y.value(), a.c2.z.value(),
        );
    } else if i == 0 && j == 2 {
        lemma_det3_value_equal_rows_0_2(
            a.c0.x.value(), a.c0.y.value(), a.c0.z.value(), a.c1.x.value(), a.c1.y.value(),
                a.c1.z.value(), a.c2.x.value(), a.c2.y.value(), a.c2.z.value(),
        );
    } else if i == 1 && j == 2 {
        lemma_det3_value_equal_rows_1_2(
            a.c0.x.value(), a.c0.y.value(), a.c0.z.value(), a.c1.x.value(), a.c1.y.value(),
                a.c1.z.value(), a.c2.x.value(), a.c2.y.value(), a.c2.z.value(),
        );
    }
    S::lemma_identities();
    S::lemma_value_injective(a.determinant_spec(), S::zero_spec());
    S::lemma_same(S::zero_spec(), S::zero_spec());
}

/// For every three-by-three matrix `a` over a signed scalar in which the rows `i`
/// and `j` are equal and whose determinant is defined: `a` has no inverse.
pub proof fn lemma_matrix3x3_equal_rows_no_inverse<S: ExactSigned>(a: Matrix3x3<S>, i: int, j: int)
    requires
        0 <= i < j < 3,
        a.row(i) == a.row(j),
        a.can_determinant(),
    ensures
        a.inverse_spec() is None,
{
    lemma_matrix3x3_equal_rows_determinant_zero(a, i, j);
}

/// For every three-by-three matrix `a` whose entries below the diagonal are zero and
/// whose determinant is defined: the determinant has the product of the
/// values of the diagonal entries.
pub proof fn lemma_matrix3x3_upper_triangular_determinant<S: ExactScalar>(a: Matrix3x3<S>)
    requires
        a.c0.y == S::zero_spec(),
        a.c0.z == S::zero_spec(),
        a.c1.z == S::zero_spec(),
        a.can_determinant(),
    ensures
        a.determinant_spec().value() == a.c0.x.value() * a.c1.y.value() * a.c2.z.value(),
{
    lemma_matrix3x3_determinant_value(a);
    S::lemma_identities();
    lemma_det3_value_upper_triangular(
        a.c0.x.value(), a.c0.y.value(), a.c0.z.value(), a.c1.x.value(), a.c1.y.value(),
            a.c1.z.value(), a.c2.x.value(), a.c2.y.value(), a.c2.z.value(),
    );
}

/// For every three-by-three matrix `a` whose entries above the diagonal are zero and
/// whose determinant is defined: the determinant has the product of the
/// values of the diagonal entries.
pub proof fn lemma_matrix3x3_lower_triangular_determinant<S: ExactScalar>(a: Matrix3x3<S>)
    requires
        a.c1.x == S::zero_spec(),
        a.c2.x == S::zero_spec(),
        a.c2.y == S::zero_spec(),
        a.can_determinant(),
    ensures
        a.determinant_spec().value() == a.c0.x.value() * a.c1.y.value() * a.c2.z.value(),
{
    lemma_matrix3x3_determinant_value(a);
    S::lemma_identities();
    lemma_det3_value_lower_triangular(
        a.c0.x.value(), a.c0.y.value(), a.c0.z.value(), a.c1.x.value(), a.c1.y.value(),
            a.c1.z.value(), a.c2.x.value(), a.c2.y.value(), a.c2.z.value(),
    );
}

/// The determinant of the three-by-three identity is defined and is one.
pub proof fn lemma_matrix3x3_identity_determinant<S: ExactScalar>()
    ensures
        Matrix3x3::<S>::identity_spec().can_determinant(),
        Matrix3x3::<S>::identity_spec().determinant_spec() == S::one_spec(),
{
    lemma_mul_one(S::one_spec());
    lemma_mul_zero(S::one_spec());
    lemma_mul_zero(S::zero_spec());
    lemma_mul_one(S::zero_spec());
    lemma_add_zero(S::one_spec());
    lemma_add_zero(S::zero_spec());
    lemma_sub_zero(S::one_spec());
    lemma_sub_zero(S::zero_spec());
}

/// A four-by-four matrix whose determinant is zero is not invertible and has no inverse.
pub proof fn lemma_matrix4x4_zero_determinant_no_inverse<S: ExactSigned>(a: Matrix4x4<S>)
    requires
        a.determinant_spec() == S::zero_spec(),
    ensures
        !a.is_invertible_spec(),
        a.inverse_spec() is None,
{
    S::lemma_same(S::zero_spec(), S::zero_spec());
}

/// For every four-by-four matrix `a` in which the columns `i` and `j` are equal and
/// whose determinant is defined: the determinant is zero, and `a` is not invertible.
pub proof fn lemma_matrix4x4_equal_columns_determinant_zero<S: ExactScalar>(
    a: Matrix4x4<S>,
    i: int,
    j: int,
)
    requires
        0 <= i < j < 4,
        a.column(i) == a.column(j),
        a.can_determinant(),
    ensures
        a.determinant_spec() == S::zero_spec(),
        !a.is_invertible_spec(),
{
    lemma_matrix4x4_determinant_value(a);
    if i == 0 && j == 1 {
        lemma_det4_value_equal_columns_0_1(
            a.c0.x.value(), a.c0.y.value(), a.c0.z.value(), a.c0.w.value(), a.c1.x.value(),
                a.c1.y.value(), a.c1.z.value(), a.c1.w.value(), a.c2.x.value(), a.c2.y.value(),
                a.c2.z.value(), a.c2.w.value(), a.c3.x.value(), a.c3.y.value(), a.c3.z.value(),
                a.c3.w.value(),
        );
    } else if i == 0 && j == 2 {
        lemma_det4_value_equal_columns_0_2(
            a.c0.x.value(), a.c0.y.value(), a.c0.z.value(), a.c0.w.value(), a.c1.x.value(),
                a.c1.y.value(), a.c1.z.value(), a.c1.w.value(), a.c2.x.value(), a.c2.y.value(),
                a.c2.z.value(), a.c2.w.value(), a.c3.x.value(), a.c3.y.value(), a.c3.z.value(),
                a.c3.w.value(),
        );
    } else if i == 0 && j == 3 {
        lemma_det4_value_equal_columns_0_3(
            a.c0.x.value(), a.c0.y.value(), a.c0.z.value(), a.c0.w.value(), a.c1.x.value(),
                a.c1.y.value(), a.c1.z.value(), a.c1.w.value(), a.c2.x.value(), a.c2.y.value(),
                a.c2.z.value(), a.c2.w.value(), a.c3.x.value(), a.c3.y.value(), a.c3.z.value(),
                a.c3.w.value(),
        );
    } else if i == 1 && j == 2 {
        lemma_det4_value_equal_columns_1_2(
            a.c0.x.value(), a.c0.y.value(), a.c0.z.value(), a.c0.w.value(), a.c1.x.value(),
                a.c1.y.value(), a.c1.z.value(), a.c1.w.value(), a.c2.x.value(), a.c2.y.value(),
                a.c2.z.value(), a.c2.w.value(), a.c3.x.value(), a.c3.y.value(), a.c3.z.value(),
                a.c3.w.value(),
        );
    } else if i == 1 && j == 3 {
        lemma_det4_value_equal_columns_1_3(
            a.c0.x.value(), a.c0.y.value(), a.c0.z.value(), a.c0.w.value(), a.c1.x.value(),
                a.c1.y.value(), a.c1.z.value(), a.c1.w.value(), a.c2.x.value(), a.c2.y.value(),
                a.c2.z.value(), a.c2.w.value(), a.c3.x.value(), a.c3.y.value(), a.c3.z.value(),
                a.c3.w.value(),
        );
    } else if i == 2 && j == 3 {
        lemma_det4_value_equal_columns_2_3(
            a.c0.x.value(), a.c0.y.value(), a.c0.z.value(), a.c0.w.value(), a.c1.x.value(),
                a.c1.y.value(), a.c1.z.value(), a.c1.w.value(), a.c2.x.value(), a.c2.y.value(),
                a.c2.z.value(), a.c2.w.value(), a.c3.x.value(), a.c3.y.value(), a.c3.z.value(),
                a.c3.w.value(),
        );
    }
    S::lemma_identities();
    S::lemma_value_injective(a.determinant_spec(), S::zero_spec());
    S::lemma_same(S::zero_spec(), S::zero_spec());
}

/// For every four-by-four matrix `a` over a signed scalar in which the columns `i`
/// and `j` are equal and whose determinant is defined: `a` has no inverse.
pub proof fn lemma_matrix4x4_equal_columns_no_inverse<S: ExactSigned>(
    a: Matrix4x4<S>,
    i: int,
    j: int,
)
    requires
        0 <= i < j < 4,
        a.column(i) == a.column(j),
        a.can_determinant(),
    ensures
        a.inverse_spec() is None,
{
    lemma_matrix4x4_equal_columns_determinant_zero(a, i, j);
}

/// For every four-by-four matrix `a` in which the rows `i` and `j` are equal and
/// whose determinant is defined: the determinant is zero, and `a` is not invertible.
pub proof fn lemma_matrix4x4_equal_rows_determinant_zero<S: ExactScalar>(
    a: Matrix4x4<S>,
    i: int,
    j: int,
)
    requires
        0 <= i < j < 4,
        a.row(i) == a.row(j),
        a.can_determinant(),
    ensures
        a.determinant_spec() == S::zero_spec(),
        !a.is_invertible_spec(),
{
    lemma_matrix4x4_determinant_value(a);
    if i == 0 && j == 1 {
        lemma_det4_value_equal_rows_0_1(
            a.c0.x.value(), a.c0.y.value(), a.c0.z.value(), a.c0.w.value(), a.c1.x.value(),
                a.c1.y.value(), a.c1.z.value(), a.c1.w.value(), a.c2.x.value(), a.c2.y.value(),
                a.c2.z.value(), a.c2.w.value(), a.c3.x.value(), a.c3.y.value(), a.c3.z.value(),
                a.c3.w.value(),
        );
    } else if i == 0 && j == 2 {
        lemma_det4_value_equal_rows_0_2(
            a.c0.x.value(), a.c0.y.value(), a.c0.z.value(), a.c0.w.value(), a.c1.x.value(),
                a.c1.y.value(), a.c1.z.value(), a.c1.w.value(), a.c2.x.value(), a.c2.y.value(),
                a.c2.z.value(), a.c2.w.value(), a.c3.x.value(), a.c3.y.value(), a.c3.z.value(),
                a.c3.w.value(),
        );
    } else if i == 0 && j == 3 {
        lemma_det4_value_equal_rows_0_3(
            a.c0.x.value(), a.c0.y.value(), a.c0.z.value(), a.c0.w.value(), a.c1.x.value(),
                a.c1.y.value(), a.c1.z.value(), a.c1.w.value(), a.c2.x.value(), a.c2.y.value(),
                a.c2.z.value(), a.c2.w.value(), a.c3.x.value(), a.c3.y.value(), a.c3.z.value(),
                a.c3.w.value(),
        );
    } else if i == 1 && j == 2 {
        lemma_det4_value_equal_rows_1_2(
            a.c0.x.value(), a.c0.y.value(), a.c0.z.value(), a.c0.w.value(), a.c1.x.value(),
                a.c1.y.value(), a.c1.z.value(), a.c1.w.value(), a.c2.x.value(), a.c2.y.value(),
                a.c2.z.value(), a.c2.w.value(), a.c3.x.value(), a.c3.y.value(), a.c3.z.value(),
                a.c3.w.value(),
        );
    } else if i == 1 && j == 3 {
        lemma_det4_value_equal_rows_1_3(
            a.c0.x.value(), a.c0.y.value(), a.c0.z.value(), a.c0.w.value(), a.c1.x.value(),
                a.c1.y.value(), a.c1.z.value(), a.c1.w.value(), a.c2.x.value(), a.c2.y.value(),
                a.c2.z.value(), a.c2.w.value(), a.c3.x.value(), a.c3.y.value(), a.c3.z.value(),
                a.c3.w.value(),
        );
    } else if i == 2 && j == 3 {
        lemma_det4_value_equal_rows_2_3(
            a.c0.x.value(), a.c0.y.value(), a.c0.z.value(), a.c0.w.value(), a.c1.x.value(),
                a.c1.y.value(), a.c1.z.value(), a.c1.w.value(), a.c2.x.value(), a.c2.y.value(),
                a.c2.z.value(), a.c2.w.value(), a.c3.x.value(), a.c3.y.value(), a.c3.z.value(),
                a.c3.w.value(),
        );
    }
    S::lemma_identities();
    S::lemma_value_injective(a.determinant_spec(), S::zero_spec());
    S::lemma_same(S::zero_spec(), S::zero_spec());
}

/// For every four-by-four matrix `a` over a signed scalar in which the rows `i`
/// and `j` are equal and whose determinant is defined: `a` has no inverse.
pub proof fn lemma_matrix4x4_equal_rows_no_inverse<S: ExactSigned>(a: Matrix4x4<S>, i: int, j: int)
    requires
        0 <= i < j < 4,
        a.row(i) == a.row(j),
        a.can_determinant(),
    ensures
        a.inverse_spec() is None,
{
    lemma_matrix4x4_equal_rows_determinant_zero(a, i, j);
}

/// For every four-by-four matrix `a` whose entries below the diagonal are zero and
/// whose determinant is defined: the determinant has the product of the
/// values of the diagonal entries.
pub proof fn lemma_matrix4x4_upper_triangular_determinant<S: ExactScalar>(a: Matrix4x4<S>)
    requires
        a.c0.y == S::zero_spec(),
        a.c0.z == S::zero_spec(),
        a.c0.w == S::zero_spec(),
        a.c1.z == S::zero_spec(),
        a.c1.w == S::zero_spec(),
        a.c2.w == S::zero_spec(),
        a.can_determinant(),
    ensures
        a.determinant_spec().value() == a.c0.x.value() * a.c1.y.value() * a.c2.z
            .value() * a.c3.w.value(),
{
    lemma_matrix4x4_determinant_value(a);
    S::lemma_identities();
    lemma_det4_value_upper_triangular(
        a.c0.x.value(), a.c0.y.value(), a.c0.z.value(), a.c0.w.value(), a.c1.x.value(),
            a.c1.y.value(), a.c1.z.value(), a.c1.w.value(), a.c2.x.value(), a.c2.y.value(),
            a.c2.z.value(), a.c2.w.value(), a.c3.x.value(), a.c3.y.value(), a.c3.z.value(),
            a.c3.w.value(),
    );
}

/// For every four-by-four matrix `a` whose entries above the diagonal are zero and
/// whose determinant is defined: the determinant has the product of the
/// values of the diagonal entries.
pub proof fn lemma_matrix4x4_lower_triangular_determinant<S: ExactScalar>(a: Matrix4x4<S>)
    requires
        a.c1.x == S::zero_spec(),
        a.c2.x == S::zero_spec(),
        a.c2.y == S::zero_spec(),
        a.c3.x == S::zero_spec(),
        a.c3.y == S::zero_spec(),
        a.c3.z == S::zero_spec(),
        a.can_determinant(),
    ensures
        a.determinant_spec().value() == a.c0.x.value() * a.c1.y.value() * a.c2.z
            .value() * a.c3.w.value(),
{
    lemma_matrix4x4_determinant_value(a);
    S::lemma_identities();
    lemma_det4_value_lower_triangular(
        a.c0.x.value(), a.c0.y.value(), a.c0.z.value(), a.c0.w.value(), a.c1.x.value(),
            a.c1.y.value(), a.c1.z.value(), a.c1.w.value(), a.c2.x.value(), a.c2.y.value(),
            a.c2.z.value(), a.c2.w.value(), a.c3.x.value(), a.c3.y.value(), a.c3.z.value(),
            a.c3.w.value(),
    );
}

/// The determinant of the four-by-four identity is defined and is one.
pub proof fn lemma_matrix4x4_identity_determinant<S: ExactScalar>()
    ensures
        Matrix4x4::<S>::identity_spec().can_determinant(),
        Matrix4x4::<S>::identity_spec().determinant_spec() == S::one_spec(),
{
    lemma_mul_one(S::one_spec());
    lemma_mul_zero(S::one_spec());
    lemma_mul_zero(S::zero_spec());
    lemma_mul_one(S::zero_spec());
    lemma_add_zero(S::one_spec());
    lemma_add_zero(S::zero_spec());
    lemma_sub_zero(S::one_spec());
    lemma_sub_zero(S::zero_spec());
}

} // verus!
