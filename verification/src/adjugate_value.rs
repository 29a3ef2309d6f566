//! The expansions of the determinant of an integer matrix along each row
//! and each column, and their vanishing against the cofactors of another
//! row or column: the facts that make the adjugate what it is.

use vstd::prelude::*;
use crate::determinant_value::{
    det2_value, det3_value, det4_value, lemma_det3_value_expanded, lemma_det4_value_expanded,
    lemma_mul_det3_value_expanded,
};

verus! {

/// A factor times a two-by-two determinant as the difference of two products.
pub proof fn lemma_mul_det2_value_expanded(k: int, a: int, b: int, c: int, d: int)
    ensures
        k * det2_value(a, b, c, d) == k * (a * d) - k * (b * c),
{
    assert(k * (a * d - b * c) == k * (a * d) - k * (b * c)) by (nonlinear_arith);
}

/// The row 0 against the cofactors of the row 0.
pub proof fn lemma_det2_value_right_0_0(m00: int, m01: int, m10: int, m11: int)
    ensures
        (m00 * m11) + (m10 * (-m01)) == det2_value(m00, m01, m10, m11),
{
    assert(m10 * (-m01) == -(m10 * m01)) by (nonlinear_arith);
    assert(m10 * m01 == m01 * m10) by (nonlinear_arith);
}

/// The row 1 against the cofactors of the row 0.
pub proof fn lemma_det2_value_right_0_1(m00: int, m01: int, m10: int, m11: int)
    ensures
        (m01 * m11) + (m11 * (-m01)) == 0,
{
    assert(m11 * (-m01) == -(m11 * m01)) by (nonlinear_arith);
    assert(m01 * m11 == m11 * m01) by (nonlinear_arith);
}

/// The row 0 against the cofactors of the row 1.
pub proof fn lemma_det2_value_right_1_0(m00: int, m01: int, m10: int, m11: int)
    ensures
        (m00 * (-m10)) + (m10 * m00) == 0,
{
    assert(m00 * (-m10) == -(m00 * m10)) by (nonlinear_arith);
    assert(m10 * m00 == m00 * m10) by (nonlinear_arith);
}

/// The row 1 against the cofactors of the row 1.
pub proof fn lemma_det2_value_right_1_1(m00: int, m01: int, m10: int, m11: int)
    ensures
        (m01 * (-m10)) + (m11 * m00) == det2_value(m00, m01, m10, m11),
{
    assert(m01 * (-m10) == -(m01 * m10)) by (nonlinear_arith);
    assert(m11 * m00 == m00 * m11) by (nonlinear_arith);
}

/// The column 0 against the cofactors of the column 0.
pub proof fn lemma_det2_value_left_0_0(m00: int, m01: int, m10: int, m11: int)
    ensures
        (m11 * m00) + ((-m10) * m01) == det2_value(m00, m01, m10, m11),
{
    assert(m11 * m00 == m00 * m11) by (nonlinear_arith);
    assert((-m10) * m01 == -(m01 * m10)) by (nonlinear_arith);
}

/// The column 0 against the cofactors of the column 1.
pub proof fn lemma_det2_value_left_0_1(m00: int, m01: int, m10: int, m11: int)
    ensures
        ((-m01) * m00) + (m00 * m01) == 0,
{
    assert((-m01) * m00 == -(m00 * m01)) by (nonlinear_arith);
    assert(m00 * m01 == m01 * m00) by (nonlinear_arith);
    assert(m01 * m00 == m00 * m01) by (nonlinear_arith);
}

/// The column 1 against the cofactors of the column 0.
pub proof fn lemma_det2_value_left_1_0(m00: int, m01: int, m10: int, m11: int)
    ensures
        (m11 * m10) + ((-m10) * m11) == 0,
{
    assert(m11 * m10 == m10 * m11) by (nonlinear_arith);
    assert((-m10) * m11 == -(m11 * m10)) by (nonlinear_arith);
    assert(m10 * m11 == m11 * m10) by (nonlinear_arith);
}

/// The column 1 against the cofactors of the column 1.
pub proof fn lemma_det2_value_left_1_1(m00: int, m01: int, m10: int, m11: int)
    ensures
        ((-m01) * m10) + (m00 * m11) == det2_value(m00, m01, m10, m11),
{
    assert((-m01) * m10 == -(m10 * m01)) by (nonlinear_arith);
    assert(m00 * m11 == m11 * m00) by (nonlinear_arith);
    assert(m10 * m01 == m01 * m10) by (nonlinear_arith);
    assert(m11 * m00 == m00 * m11) by (nonlinear_arith);
}

/// The row 0 against the cofactors of the row 0.
pub proof fn lemma_det3_value_right_0_0(
    m00: int,
    m01: int,
    m02: int,
    m10: int,
    m11: int,
    m12: int,
    m20: int,
    m21: int,
    m22: int,
)
    ensures
        ((m00 * det2_value(m11, m12, m21, m22)) + (m10 * (-det2_value(m01, m02, m21, m22))))
            + (m20 * det2_value(m01, m02, m11, m12)) == det3_value(m00, m01, m02, m10, m11, m12,
            m20, m21, m22),
{
    lemma_mul_det2_value_expanded(m00, m11, m12, m21, m22);
    assert(m10 * (-det2_value(m01, m02, m21, m22)) == -(m10 * det2_value(m01, m02, m21,
        m22))) by (nonlinear_arith);
    lemma_mul_det2_value_expanded(m10, m01, m02, m21, m22);
    lemma_mul_det2_value_expanded(m20, m01, m02, m11, m12);
    lemma_det3_value_expanded(m00, m01, m02, m10, m11, m12, m20, m21, m22);
}

/// The row 1 against the cofactors of the row 0.
pub proof fn lemma_det3_value_right_0_1(
    m00: int,
    m01: int,
    m02: int,
    m10: int,
    m11: int,
    m12: int,
    m20: int,
    m21: int,
    m22: int,
)
    ensures
        ((m01 * det2_value(m11, m12, m21, m22)) + (m11 * (-det2_value(m01, m02, m21, m22))))
            + (m21 * det2_value(m01, m02, m11, m12)) == 0,
{
    lemma_mul_det2_value_expanded(m01, m11, m12, m21, m22);
    assert(m11 * (-det2_value(m01, m02, m21, m22)) == -(m11 * det2_value(m01, m02, m21,
        m22))) by (nonlinear_arith);
    lemma_mul_det2_value_expanded(m11, m01, m02, m21, m22);
    lemma_mul_det2_value_expanded(m21, m01, m02, m11, m12);
    assert(m01 * (m11 * m22) == m11 * (m01 * m22)) by (nonlinear_arith);
    assert(m21 * (m01 * m12) == m01 * (m12 * m21)) by (nonlinear_arith);
    assert(m11 * (m02 * m21) == m21 * (m02 * m11)) by (nonlinear_arith);
}

/// The row 2 against the cofactors of the row 0.
pub proof fn lemma_det3_value_right_0_2(
    m00: int,
    m01: int,
    m02: int,
    m10: int,
    m11: int,
    m12: int,
    m20: int,
    m21: int,
    m22: int,
)
    ensures
        ((m02 * det2_value(m11, m12, m21, m22)) + (m12 * (-det2_value(m01, m02, m21, m22))))
            + (m22 * det2_value(m01, m02, m11, m12)) == 0,
{
    lemma_mul_det2_value_expanded(m02, m11, m12, m21, m22);
    assert(m12 * (-det2_value(m01, m02, m21, m22)) == -(m12 * det2_value(m01, m02, m21,
        m22))) by (nonlinear_arith);
    lemma_mul_det2_value_expanded(m12, m01, m02, m21, m22);
    lemma_mul_det2_value_expanded(m22, m01, m02, m11, m12);
    assert(m02 * (m11 * m22) == m22 * (m02 * m11)) by (nonlinear_arith);
    assert(m12 * (m02 * m21) == m02 * (m12 * m21)) by (nonlinear_arith);
    assert(m22 * (m01 * m12) == m12 * (m01 * m22)) by (nonlinear_arith);
}

/// The row 0 against the cofactors of the row 1.
pub proof fn lemma_det3_value_right_1_0(
    m00: int,
    m01: int,
    m02: int,
    m10: int,
    m11: int,
    m12: int,
    m20: int,
    m21: int,
    m22: int,
)
    ensures
        ((m00 * (-det2_value(m10, m12, m20, m22))) + (m10 * det2_value(m00, m02, m20, m22)))
            + (m20 * (-det2_value(m00, m02, m10, m12))) == 0,
{
    assert(m00 * (-det2_value(m10, m12, m20, m22)) == -(m00 * det2_value(m10, m12, m20,
        m22))) by (nonlinear_arith);
    lemma_mul_det2_value_expanded(m00, m10, m12, m20, m22);
    lemma_mul_det2_value_expanded(m10, m00, m02, m20, m22);
    assert(m20 * (-det2_value(m00, m02, m10, m12)) == -(m20 * det2_value(m00, m02, m10,
        m12))) by (nonlinear_arith);
    lemma_mul_det2_value_expanded(m20, m00, m02, m10, m12);
    assert(m10 * (m00 * m22) == m00 * (m10 * m22)) by (nonlinear_arith);
    assert(m00 * (m12 * m20) == m20 * (m00 * m12)) by (nonlinear_arith);
    assert(m20 * (m02 * m10) == m10 * (m02 * m20)) by (nonlinear_arith);
}

/// The row 1 against the cofactors of the row 1.
pub proof fn lemma_det3_value_right_1_1(
    m00: int,
    m01: int,
    m02: int,
    m10: int,
    m11: int,
    m12: int,
    m20: int,
    m21: int,
    m22: int,
)
    ensures
        ((m01 * (-det2_value(m10, m12, m20, m22))) + (m11 * det2_value(m00, m02, m20, m22)))
            + (m21 * (-det2_value(m00, m02, m10, m12))) == det3_value(m00, m01, m02, m10, m11, m12,
            m20, m21, m22),
{
    assert(m01 * (-det2_value(m10, m12, m20, m22)) == -(m01 * det2_value(m10, m12, m20,
        m22))) by (nonlinear_arith);
    lemma_mul_det2_value_expanded(m01, m10, m12, m20, m22);
    lemma_mul_det2_value_expanded(m11, m00, m02, m20, m22);
    assert(m21 * (-det2_value(m00, m02, m10, m12)) == -(m21 * det2_value(m00, m02, m10,
        m12))) by (nonlinear_arith);
    lemma_mul_det2_value_expanded(m21, m00, m02, m10, m12);
    lemma_det3_value_expanded(m00, m01, m02, m10, m11, m12, m20, m21, m22);
    assert(m01 * (m10 * m22) == m10 * (m01 * m22)) by (nonlinear_arith);
    assert(m01 * (m12 * m20) == m20 * (m01 * m12)) by (nonlinear_arith);
    assert(m11 * (m00 * m22) == m00 * (m11 * m22)) by (nonlinear_arith);
    assert(m11 * (m02 * m20) == m20 * (m02 * m11)) by (nonlinear_arith);
    assert(m21 * (m00 * m12) == m00 * (m12 * m21)) by (nonlinear_arith);
    assert(m21 * (m02 * m10) == m10 * (m02 * m21)) by (nonlinear_arith);
}

/// The row 2 against the cofactors of the row 1.
pub proof fn lemma_det3_value_right_1_2(
    m00: int,
    m01: int,
    m02: int,
    m10: int,
    m11: int,
    m12: int,
    m20: int,
    m21: int,
    m22: int,
)
    ensures
        ((m02 * (-det2_value(m10, m12, m20, m22))) + (m12 * det2_value(m00, m02, m20, m22)))
            + (m22 * (-det2_value(m00, m02, m10, m12))) == 0,
{
    assert(m02 * (-det2_value(m10, m12, m20, m22)) == -(m02 * det2_value(m10, m12, m20,
        m22))) by (nonlinear_arith);
    lemma_mul_det2_value_expanded(m02, m10, m12, m20, m22);
    lemma_mul_det2_value_expanded(m12, m00, m02, m20, m22);
    assert(m22 * (-det2_value(m00, m02, m10, m12)) == -(m22 * det2_value(m00, m02, m10,
        m12))) by (nonlinear_arith);
    lemma_mul_det2_value_expanded(m22, m00, m02, m10, m12);
    assert(m22 * (m02 * m10) == m02 * (m10 * m22)) by (nonlinear_arith);
    assert(m02 * (m12 * m20) == m12 * (m02 * m20)) by (nonlinear_arith);
    assert(m12 * (m00 * m22) == m22 * (m00 * m12)) by (nonlinear_arith);
}

/// The row 0 against the cofactors of the row 2.
pub proof fn lemma_det3_value_right_2_0(
    m00: int,
    m01: int,
    m02: int,
    m10: int,
    m11: int,
    m12: int,
    m20: int,
    m21: int,
    m22: int,
)
    ensures
        ((m00 * det2_value(m10, m11, m20, m21)) + (m10 * (-det2_value(m00, m01, m20, m21))))
            + (m20 * det2_value(m00, m01, m10, m11)) == 0,
{
    lemma_mul_det2_value_expanded(m00, m10, m11, m20, m21);
    assert(m10 * (-det2_value(m00, m01, m20, m21)) == -(m10 * det2_value(m00, m01, m20,
        m21))) by (nonlinear_arith);
    lemma_mul_det2_value_expanded(m10, m00, m01, m20, m21);
    lemma_mul_det2_value_expanded(m20, m00, m01, m10, m11);
    assert(m00 * (m10 * m21) == m10 * (m00 * m21)) by (nonlinear_arith);
    assert(m20 * (m00 * m11) == m00 * (m11 * m20)) by (nonlinear_arith);
    assert(m10 * (m01 * m20) == m20 * (m01 * m10)) by (nonlinear_arith);
}

/// The row 1 against the cofactors of the row 2.
pub proof fn lemma_det3_value_right_2_1(
    m00: int,
    m01: int,
    m02: int,
    m10: int,
    m11: int,
    m12: int,
    m20: int,
    m21: int,
    m22: int,
)
    ensures
        ((m01 * det2_value(m10, m11, m20, m21)) + (m11 * (-det2_value(m00, m01, m20, m21))))
            + (m21 * det2_value(m00, m01, m10, m11)) == 0,
{
    lemma_mul_det2_value_expanded(m01, m10, m11, m20, m21);
    assert(m11 * (-det2_value(m00, m01, m20, m21)) == -(m11 * det2_value(m00, m01, m20,
        m21))) by (nonlinear_arith);
    lemma_mul_det2_value_expanded(m11, m00, m01, m20, m21);
    lemma_mul_det2_value_expanded(m21, m00, m01, m10, m11);
    assert(m01 * (m10 * m21) == m21 * (m01 * m10)) by (nonlinear_arith);
    assert(m11 * (m01 * m20) == m01 * (m11 * m20)) by (nonlinear_arith);
    assert(m21 * (m00 * m11) == m11 * (m00 * m21)) by (nonlinear_arith);
}

/// The row 2 against the cofactors of the row 2.
pub proof fn lemma_det3_value_right_2_2(
    m00: int,
    m01: int,
    m02: int,
    m10: int,
    m11: int,
    m12: int,
    m20: int,
    m21: int,
    m22: int,
)
    ensures
        ((m02 * det2_value(m10, m11, m20, m21)) + (m12 * (-det2_value(m00, m01, m20, m21))))
            + (m22 * det2_value(m00, m01, m10, m11)) == det3_value(m00, m01, m02, m10, m11, m12,
            m20, m21, m22),
{
    lemma_mul_det2_value_expanded(m02, m10, m11, m20, m21);
    assert(m12 * (-det2_value(m00, m01, m20, m21)) == -(m12 * det2_value(m00, m01, m20,
        m21))) by (nonlinear_arith);
    lemma_mul_det2_value_expanded(m12, m00, m01, m20, m21);
    lemma_mul_det2_value_expanded(m22, m00, m01, m10, m11);
    lemma_det3_value_expanded(m00, m01, m02, m10, m11, m12, m20, m21, m22);
    assert(m02 * (m10 * m21) == m10 * (m02 * m21)) by (nonlinear_arith);
    assert(m02 * (m11 * m20) == m20 * (m02 * m11)) by (nonlinear_arith);
    assert(m12 * (m00 * m21) == m00 * (m12 * m21)) by (nonlinear_arith);
    assert(m12 * (m01 * m20) == m20 * (m01 * m12)) by (nonlinear_arith);
    assert(m22 * (m00 * m11) == m00 * (m11 * m22)) by (nonlinear_arith);
    assert(m22 * (m01 * m10) == m10 * (m01 * m22)) by (nonlinear_arith);
}

/// The column 0 against the cofactors of the column 0.
pub proof fn lemma_det3_value_left_0_0(
    m00: int,
    m01: int,
    m02: int,
    m10: int,
    m11: int,
    m12: int,
    m20: int,
    m21: int,
    m22: int,
)
    ensures
        ((det2_value(m11, m12, m21, m22) * m00) + ((-det2_value(m10, m12, m20, m22)) * m01))
            + (det2_value(m10, m11, m20, m21) * m02) == det3_value(m00, m01, m02, m10, m11, m12,
            m20, m21, m22),
{
    assert(det2_value(m11, m12, m21, m22) * m00 == m00 * det2_value(m11, m12, m21,
        m22)) by (nonlinear_arith);
    lemma_mul_det2_value_expanded(m00, m11, m12, m21, m22);
    assert((-det2_value(m10, m12, m20, m22)) * m01 == -(m01 * det2_value(m10, m12, m20,
        m22))) by (nonlinear_arith);
    lemma_mul_det2_value_expanded(m01, m10, m12, m20, m22);
    assert(det2_value(m10, m11, m20, m21) * m02 == m02 * det2_value(m10, m11, m20,
        m21)) by (nonlinear_arith);
    lemma_mul_det2_value_expanded(m02, m10, m11, m20, m21);
    lemma_det3_value_expanded(m00, m01, m02, m10, m11, m12, m20, m21, m22);
    assert(m01 * (m10 * m22) == m10 * (m01 * m22)) by (nonlinear_arith);
    assert(m01 * (m12 * m20) == m20 * (m01 * m12)) by (nonlinear_arith);
    assert(m02 * (m10 * m21) == m10 * (m02 * m21)) by (nonlinear_arith);
    assert(m02 * (m11 * m20) == m20 * (m02 * m11)) by (nonlinear_arith);
}

/// The column 0 against the cofactors of the column 1.
pub proof fn lemma_det3_value_left_0_1(
    m00: int,
    m01: int,
    m02: int,
    m10: int,
    m11: int,
    m12: int,
    m20: int,
    m21: int,
    m22: int,
)
    ensures
        (((-det2_value(m01, m02, m21, m22)) * m00) + (det2_value(m00, m02, m20, m22) * m01))
            + ((-det2_value(m00, m01, m20, m21)) * m02) == 0,
{
    assert((-det2_value(m01, m02, m21, m22)) * m00 == -(m00 * det2_value(m01, m02, m21,
        m22))) by (nonlinear_arith);
    lemma_mul_det2_value_expanded(m00, m01, m02, m21, m22);
    assert(det2_value(m00, m02, m20, m22) * m01 == m01 * det2_value(m00, m02, m20,
        m22)) by (nonlinear_arith);
    lemma_mul_det2_value_expanded(m01, m00, m02, m20, m22);
    assert((-det2_value(m00, m01, m20, m21)) * m02 == -(m02 * det2_value(m00, m01, m20,
        m21))) by (nonlinear_arith);
    lemma_mul_det2_value_expanded(m02, m00, m01, m20, m21);
    assert(m01 * (m00 * m22) == m00 * (m01 * m22)) by (nonlinear_arith);
    assert(m00 * (m02 * m21) == m02 * (m00 * m21)) by (nonlinear_arith);
    assert(m02 * (m01 * m20) == m01 * (m02 * m20)) by (nonlinear_arith);
}

/// The column 0 against the cofactors of the column 2.
pub proof fn lemma_det3_value_left_0_2(
    m00: int,
    m01: int,
    m02: int,
    m10: int,
    m11: int,
    m12: int,
    m20: int,
    m21: int,
    m22: int,
)
    ensures
        ((det2_value(m01, m02, m11, m12) * m00) + ((-det2_value(m00, m02, m10, m12)) * m01))
            + (det2_value(m00, m01, m10, m11) * m02) == 0,
{
    assert(det2_value(m01, m02, m11, m12) * m00 == m00 * det2_value(m01, m02, m11,
        m12)) by (nonlinear_arith);
    lemma_mul_det2_value_expanded(m00, m01, m02, m11, m12);
    assert((-det2_value(m00, m02, m10, m12)) * m01 == -(m01 * det2_value(m00, m02, m10,
        m12))) by (nonlinear_arith);
    lemma_mul_det2_value_expanded(m01, m00, m02, m10, m12);
    assert(det2_value(m00, m01, m10, m11) * m02 == m02 * det2_value(m00, m01, m10,
        m11)) by (nonlinear_arith);
    lemma_mul_det2_value_expanded(m02, m00, m01, m10, m11);
    assert(m00 * (m01 * m12) == m01 * (m00 * m12)) by (nonlinear_arith);
    assert(m02 * (m00 * m11) == m00 * (m02 * m11)) by (nonlinear_arith);
    assert(m01 * (m02 * m10) == m02 * (m01 * m10)) by (nonlinear_arith);
}

/// The column 1 against the cofactors of the column 0.
pub proof fn lemma_det3_value_left_1_0(
    m00: int,
    m01: int,
    m02: int,
    m10: int,
    m11: int,
    m12: int,
    m20: int,
    m21: int,
    m22: int,
)
    ensures
        ((det2_value(m11, m12, m21, m22) * m10) + ((-det2_value(m10, m12, m20, m22)) * m11))
            + (det2_value(m10, m11, m20, m21) * m12) == 0,
{
    assert(det2_value(m11, m12, m21, m22) * m10 == m10 * det2_value(m11, m12, m21,
        m22)) by (nonlinear_arith);
    lemma_mul_det2_value_expanded(m10, m11, m12, m21, m22);
    assert((-det2_value(m10, m12, m20, m22)) * m11 == -(m11 * det2_value(m10, m12, m20,
        m22))) by (nonlinear_arith);
    lemma_mul_det2_value_expanded(m11, m10, m12, m20, m22);
    assert(det2_value(m10, m11, m20, m21) * m12 == m12 * det2_value(m10, m11, m20,
        m21)) by (nonlinear_arith);
    lemma_mul_det2_value_expanded(m12, m10, m11, m20, m21);
    assert(m10 * (m11 * m22) == m11 * (m10 * m22)) by (nonlinear_arith);
    assert(m12 * (m10 * m21) == m10 * (m12 * m21)) by (nonlinear_arith);
    assert(m11 * (m12 * m20) == m12 * (m11 * m20)) by (nonlinear_arith);
}

/// The column 1 against the cofactors of the column 1.
pub proof fn lemma_det3_value_left_1_1(
    m00: int,
    m01: int,
    m02: int,
    m10: int,
    m11: int,
    m12: int,
    m20: int,
    m21: int,
    m22: int,
)
    ensures
        (((-det2_value(m01, m02, m21, m22)) * m10) + (det2_value(m00, m02, m20, m22) * m11))
            + ((-det2_value(m00, m01, m20, m21)) * m12) == det3_value(m00, m01, m02, m10, m11, m12,
            m20, m21, m22),
{
    assert((-det2_value(m01, m02, m21, m22)) * m10 == -(m10 * det2_value(m01, m02, m21,
        m22))) by (nonlinear_arith);
    lemma_mul_det2_value_expanded(m10, m01, m02, m21, m22);
    assert(det2_value(m00, m02, m20, m22) * m11 == m11 * det2_value(m00, m02, m20,
        m22)) by (nonlinear_arith);
    lemma_mul_det2_value_expanded(m11, m00, m02, m20, m22);
    assert((-det2_value(m00, m01, m20, m21)) * m12 == -(m12 * det2_value(m00, m01, m20,
        m21))) by (nonlinear_arith);
    lemma_mul_det2_value_expanded(m12, m00, m01, m20, m21);
    lemma_det3_value_expanded(m00, m01, m02, m10, m11, m12, m20, m21, m22);
    assert(m11 * (m00 * m22) == m00 * (m11 * m22)) by (nonlinear_arith);
    assert(m11 * (m02 * m20) == m20 * (m02 * m11)) by (nonlinear_arith);
    assert(m12 * (m00 * m21) == m00 * (m12 * m21)) by (nonlinear_arith);
    assert(m12 * (m01 * m20) == m20 * (m01 * m12)) by (nonlinear_arith);
}

/// The column 1 against the cofactors of the column 2.
pub proof fn lemma_det3_value_left_1_2(
    m00: int,
    m01: int,
    m02: int,
    m10: int,
    m11: int,
    m12: int,
    m20: int,
    m21: int,
    m22: int,
)
    ensures
        ((det2_value(m01, m02, m11, m12) * m10) + ((-det2_value(m00, m02, m10, m12)) * m11))
            + (det2_value(m00, m01, m10, m11) * m12) == 0,
{
    assert(det2_value(m01, m02, m11, m12) * m10 == m10 * det2_value(m01, m02, m11,
        m12)) by (nonlinear_arith);
    lemma_mul_det2_value_expanded(m10, m01, m02, m11, m12);
    assert((-det2_value(m00, m02, m10, m12)) * m11 == -(m11 * det2_value(m00, m02, m10,
        m12))) by (nonlinear_arith);
    lemma_mul_det2_value_expanded(m11, m00, m02, m10, m12);
    assert(det2_value(m00, m01, m10, m11) * m12 == m12 * det2_value(m00, m01, m10,
        m11)) by (nonlinear_arith);
    lemma_mul_det2_value_expanded(m12, m00, m01, m10, m11);
    assert(m10 * (m01 * m12) == m12 * (m01 * m10)) by (nonlinear_arith);
    assert(m11 * (m02 * m10) == m10 * (m02 * m11)) by (nonlinear_arith);
    assert(m12 * (m00 * m11) == m11 * (m00 * m12)) by (nonlinear_arith);
}

/// The column 2 against the cofactors of the column 0.
pub proof fn lemma_det3_value_left_2_0(
    m00: int,
    m01: int,
    m02: int,
    m10: int,
    m11: int,
    m12: int,
    m20: int,
    m21: int,
    m22: int,
)
    ensures
        ((det2_value(m11, m12, m21, m22) * m20) + ((-det2_value(m10, m12, m20, m22)) * m21))
            + (det2_value(m10, m11, m20, m21) * m22) == 0,
{
    assert(det2_value(m11, m12, m21, m22) * m20 == m20 * det2_value(m11, m12, m21,
        m22)) by (nonlinear_arith);
    lemma_mul_det2_value_expanded(m20, m11, m12, m21, m22);
    assert((-det2_value(m10, m12, m20, m22)) * m21 == -(m21 * det2_value(m10, m12, m20,
        m22))) by (nonlinear_arith);
    lemma_mul_det2_value_expanded(m21, m10, m12, m20, m22);
    assert(det2_value(m10, m11, m20, m21) * m22 == m22 * det2_value(m10, m11, m20,
        m21)) by (nonlinear_arith);
    lemma_mul_det2_value_expanded(m22, m10, m11, m20, m21);
    assert(m20 * (m11 * m22) == m22 * (m11 * m20)) by (nonlinear_arith);
    assert(m21 * (m12 * m20) == m20 * (m12 * m21)) by (nonlinear_arith);
    assert(m22 * (m10 * m21) == m21 * (m10 * m22)) by (nonlinear_arith);
}

/// The column 2 against the cofactors of the column 1.
pub proof fn lemma_det3_value_left_2_1(
    m00: int,
    m01: int,
    m02: int,
    m10: int,
    m11: int,
    m12: int,
    m20: int,
    m21: int,
    m22: int,
)
    ensures
        (((-det2_value(m01, m02, m21, m22)) * m20) + (det2_value(m00, m02, m20, m22) * m21))
            + ((-det2_value(m00, m01, m20, m21)) * m22) == 0,
{
    assert((-det2_value(m01, m02, m21, m22)) * m20 == -(m20 * det2_value(m01, m02, m21,
        m22))) by (nonlinear_arith);
    lemma_mul_det2_value_expanded(m20, m01, m02, m21, m22);
    assert(det2_value(m00, m02, m20, m22) * m21 == m21 * det2_value(m00, m02, m20,
        m22)) by (nonlinear_arith);
    lemma_mul_det2_value_expanded(m21, m00, m02, m20, m22);
    assert((-det2_value(m00, m01, m20, m21)) * m22 == -(m22 * det2_value(m00, m01, m20,
        m21))) by (nonlinear_arith);
    lemma_mul_det2_value_expanded(m22, m00, m01, m20, m21);
    assert(m22 * (m01 * m20) == m20 * (m01 * m22)) by (nonlinear_arith);
    assert(m20 * (m02 * m21) == m21 * (m02 * m20)) by (nonlinear_arith);
    assert(m21 * (m00 * m22) == m22 * (m00 * m21)) by (nonlinear_arith);
}

/// The column 2 against the cofactors of the column 2.
pub proof fn lemma_det3_value_left_2_2(
    m00: int,
    m01: int,
    m02: int,
    m10: int,
    m11: int,
    m12: int,
    m20: int,
    m21: int,
    m22: int,
)
    ensures
        ((det2_value(m01, m02, m11, m12) * m20) + ((-det2_value(m00, m02, m10, m12)) * m21))
            + (det2_value(m00, m01, m10, m11) * m22) == det3_value(m00, m01, m02, m10, m11, m12,
            m20, m21, m22),
{
    assert(det2_value(m01, m02, m11, m12) * m20 == m20 * det2_value(m01, m02, m11,
        m12)) by (nonlinear_arith);
    lemma_mul_det2_value_expanded(m20, m01, m02, m11, m12);
    assert((-det2_value(m00, m02, m10, m12)) * m21 == -(m21 * det2_value(m00, m02, m10,
        m12))) by (nonlinear_arith);
    lemma_mul_det2_value_expanded(m21, m00, m02, m10, m12);
    assert(det2_value(m00, m01, m10, m11) * m22 == m22 * det2_value(m00, m01, m10,
        m11)) by (nonlinear_arith);
    lemma_mul_det2_value_expanded(m22, m00, m01, m10, m11);
    lemma_det3_value_expanded(m00, m01, m02, m10, m11, m12, m20, m21, m22);
    assert(m21 * (m00 * m12) == m00 * (m12 * m21)) by (nonlinear_arith);
    assert(m21 * (m02 * m10) == m10 * (m02 * m21)) by (nonlinear_arith);
    assert(m22 * (m00 * m11) == m00 * (m11 * m22)) by (nonlinear_arith);
    assert(m22 * (m01 * m10) == m10 * (m01 * m22)) by (nonlinear_arith);
}

/// The row 0 against the cofactors of the row 0.
pub proof fn lemma_det4_value_right_0_0(
    m00: int,
    m01: int,
    m02: int,
    m03: int,
    m10: int,
    m11: int,
    m12: int,
    m13: int,
    m20: int,
    m21: int,
    m22: int,
    m23: int,
    m30: int,
    m31: int,
    m32: int,
    m33: int,
)
    ensures
        (((m00 * det3_value(m11, m12, m13, m21, m22, m23, m31, m32, m33))
            + (m10 * (-det3_value(m01, m02, m03, m21, m22, m23, m31, m32, m33))))
            + (m20 * det3_value(m01, m02, m03, m11, m12, m13, m31, m32, m33)))
            + (m30 * (-det3_value(m01, m02, m03, m11, m12, m13, m21, m22, m23))) == det4_value(m00,
            m01, m02, m03, m10, m11, m12, m13, m20, m21, m22, m23, m30, m31, m32, m33),
{
    lemma_mul_det3_value_expanded(m00, m11, m12, m13, m21, m22, m23, m31, m32, m33);
    assert(m10 * (-det3_value(m01, m02, m03, m21, m22, m23, m31, m32, m33))
        == -(m10 * det3_value(m01, m02, m03, m21, m22, m23, m31, m32, m33))) by (nonlinear_arith);
    lemma_mul_det3_value_expanded(m10, m01, m02, m03, m21, m22, m23, m31, m32, m33);
    lemma_mul_det3_value_expanded(m20, m01, m02, m03, m11, m12, m13, m31, m32, m33);
    assert(m30 * (-det3_value(m01, m02, m03, m11, m12, m13, m21, m22, m23))
        == -(m30 * det3_value(m01, m02, m03, m11, m12, m13, m21, m22, m23))) by (nonlinear_arith);
    lemma_mul_det3_value_expanded(m30, m01, m02, m03, m11, m12, m13, m21, m22, m23);
    lemma_det4_value_expanded(m00, m01, m02, m03, m10, m11, m12, m13, m20, m21, m22, m23, m30, m31,
        m32, m33);
}

/// The row 1 against the cofactors of the row 0.
pub proof fn lemma_det4_value_right_0_1(
    m00: int,
    m01: int,
    m02: int,
    m03: int,
    m10: int,
    m11: int,
    m12: int,
    m13: int,
    m20: int,
    m21: int,
    m22: int,
    m23: int,
    m30: int,
    m31: int,
    m32: int,
    m33: int,
)
    ensures
        (((m01 * det3_value(m11, m12, m13, m21, m22, m23, m31, m32, m33))
            + (m11 * (-det3_value(m01, m02, m03, m21, m22, m23, m31, m32, m33))))
            + (m21 * det3_value(m01, m02, m03, m11, m12, m13, m31, m32, m33)))
            + (m31 * (-det3_value(m01, m02, m03, m11, m12, m13, m21, m22, m23))) == 0,
{
    lemma_mul_det3_value_expanded(m01, m11, m12, m13, m21, m22, m23, m31, m32, m33);
    assert(m11 * (-det3_value(m01, m02, m03, m21, m22, m23, m31, m32, m33))
        == -(m11 * det3_value(m01, m02, m03, m21, m22, m23, m31, m32, m33))) by (nonlinear_arith);
    lemma_mul_det3_value_expanded(m11, m01, m02, m03, m21, m22, m23, m31, m32, m33);
    lemma_mul_det3_value_expanded(m21, m01, m02, m03, m11, m12, m13, m31, m32, m33);
    assert(m31 * (-det3_value(m01, m02, m03, m11, m12, m13, m21, m22, m23))
        == -(m31 * det3_value(m01, m02, m03, m11, m12, m13, m21, m22, m23))) by (nonlinear_arith);
    lemma_mul_det3_value_expanded(m31, m01, m02, m03, m11, m12, m13, m21, m22, m23);
    assert(m01 * (m11 * (m22 * m33)) == m11 * (m01 * (m22 * m33))) by (nonlinear_arith);
    assert(m11 * (m01 * (m23 * m32)) == m01 * (m11 * (m23 * m32))) by (nonlinear_arith);
    assert(m21 * (m01 * (m12 * m33)) == m01 * (m21 * (m12 * m33))) by (nonlinear_arith);
    assert(m01 * (m21 * (m13 * m32)) == m21 * (m01 * (m13 * m32))) by (nonlinear_arith);
    assert(m01 * (m31 * (m12 * m23)) == m31 * (m01 * (m12 * m23))) by (nonlinear_arith);
    assert(m31 * (m01 * (m13 * m22)) == m01 * (m31 * (m13 * m22))) by (nonlinear_arith);
    assert(m11 * (m21 * (m02 * m33)) == m21 * (m11 * (m02 * m33))) by (nonlinear_arith);
    assert(m21 * (m11 * (m03 * m32)) == m11 * (m21 * (m03 * m32))) by (nonlinear_arith);
    assert(m31 * (m11 * (m02 * m23)) == m11 * (m31 * (m02 * m23))) by (nonlinear_arith);
    assert(m11 * (m31 * (m03 * m22)) == m31 * (m11 * (m03 * m22))) by (nonlinear_arith);
    assert(m21 * (m31 * (m02 * m13)) == m31 * (m21 * (m02 * m13))) by (nonlinear_arith);
    assert(m31 * (m21 * (m03 * m12)) == m21 * (m31 * (m03 * m12))) by (nonlinear_arith);
}

/// The row 2 against the cofactors of the row 0.
pub proof fn lemma_det4_value_right_0_2(
    m00: int,
    m01: int,
    m02: int,
    m03: int,
    m10: int,
    m11: int,
    m12: int,
    m13: int,
    m20: int,
    m21: int,
    m22: int,
    m23: int,
    m30: int,
    m31: int,
    m32: int,
    m33: int,
)
    ensures
        (((m02 * det3_value(m11, m12, m13, m21, m22, m23, m31, m32, m33))
            + (m12 * (-det3_value(m01, m02, m03, m21, m22, m23, m31, m32, m33))))
            + (m22 * det3_value(m01, m02, m03, m11, m12, m13, m31, m32, m33)))
            + (m32 * (-det3_value(m01, m02, m03, m11, m12, m13, m21, m22, m23))) == 0,
{
    lemma_mul_det3_value_expanded(m02, m11, m12, m13, m21, m22, m23, m31, m32, m33);
    assert(m12 * (-det3_value(m01, m02, m03, m21, m22, m23, m31, m32, m33))
        == -(m12 * det3_value(m01, m02, m03, m21, m22, m23, m31, m32, m33))) by (nonlinear_arith);
    lemma_mul_det3_value_expanded(m12, m01, m02, m03, m21, m22, m23, m31, m32, m33);
    lemma_mul_det3_value_expanded(m22, m01, m02, m03, m11, m12, m13, m31, m32, m33);
    assert(m32 * (-det3_value(m01, m02, m03, m11, m12, m13, m21, m22, m23))
        == -(m32 * det3_value(m01, m02, m03, m11, m12, m13, m21, m22, m23))) by (nonlinear_arith);
    lemma_mul_det3_value_expanded(m32, m01, m02, m03, m11, m12, m13, m21, m22, m23);
    assert(m02 * (m11 * (m22 * m33)) == m22 * (m11 * (m02 * m33))) by (nonlinear_arith);
    assert(m32 * (m11 * (m02 * m23)) == m02 * (m11 * (m23 * m32))) by (nonlinear_arith);
    assert(m12 * (m21 * (m02 * m33)) == m02 * (m21 * (m12 * m33))) by (nonlinear_arith);
    assert(m02 * (m21 * (m13 * m32)) == m32 * (m21 * (m02 * m13))) by (nonlinear_arith);
    assert(m02 * (m31 * (m12 * m23)) == m12 * (m31 * (m02 * m23))) by (nonlinear_arith);
    assert(m22 * (m31 * (m02 * m13)) == m02 * (m31 * (m13 * m22))) by (nonlinear_arith);
    assert(m22 * (m01 * (m12 * m33)) == m12 * (m01 * (m22 * m33))) by (nonlinear_arith);
    assert(m12 * (m01 * (m23 * m32)) == m32 * (m01 * (m12 * m23))) by (nonlinear_arith);
    assert(m32 * (m21 * (m03 * m12)) == m12 * (m21 * (m03 * m32))) by (nonlinear_arith);
    assert(m12 * (m31 * (m03 * m22)) == m22 * (m31 * (m03 * m12))) by (nonlinear_arith);
    assert(m32 * (m01 * (m13 * m22)) == m22 * (m01 * (m13 * m32))) by (nonlinear_arith);
    assert(m22 * (m11 * (m03 * m32)) == m32 * (m11 * (m03 * m22))) by (nonlinear_arith);
}

/// The row 3 against the cofactors of the row 0.
pub proof fn lemma_det4_value_right_0_3(
    m00: int,
    m01: int,
    m02: int,
    m03: int,
    m10: int,
    m11: int,
    m12: int,
    m13: int,
    m20: int,
    m21: int,
    m22: int,
    m23: int,
    m30: int,
    m31: int,
    m32: int,
    m33: int,
)
    ensures
        (((m03 * det3_value(m11, m12, m13, m21, m22, m23, m31, m32, m33))
            + (m13 * (-det3_value(m01, m02, m03, m21, m22, m23, m31, m32, m33))))
            + (m23 * det3_value(m01, m02, m03, m11, m12, m13, m31, m32, m33)))
            + (m33 * (-det3_value(m01, m02, m03, m11, m12, m13, m21, m22, m23))) == 0,
{
    lemma_mul_det3_value_expanded(m03, m11, m12, m13, m21, m22, m23, m31, m32, m33);
    assert(m13 * (-det3_value(m01, m02, m03, m21, m22, m23, m31, m32, m33))
        == -(m13 * det3_value(m01, m02, m03, m21, m22, m23, m31, m32, m33))) by (nonlinear_arith);
    lemma_mul_det3_value_expanded(m13, m01, m02, m03, m21, m22, m23, m31, m32, m33);
    lemma_mul_det3_value_expanded(m23, m01, m02, m03, m11, m12, m13, m31, m32, m33);
    assert(m33 * (-det3_value(m01, m02, m03, m11, m12, m13, m21, m22, m23))
        == -(m33 * det3_value(m01, m02, m03, m11, m12, m13, m21, m22, m23))) by (nonlinear_arith);
    lemma_mul_det3_value_expanded(m33, m01, m02, m03, m11, m12, m13, m21, m22, m23);
    assert(m03 * (m11 * (m22 * m33)) == m33 * (m11 * (m03 * m22))) by (nonlinear_arith);
    assert(m23 * (m11 * (m03 * m32)) == m03 * (m11 * (m23 * m32))) by (nonlinear_arith);
    assert(m33 * (m21 * (m03 * m12)) == m03 * (m21 * (m12 * m33))) by (nonlinear_arith);
    assert(m03 * (m21 * (m13 * m32)) == m13 * (m21 * (m03 * m32))) by (nonlinear_arith);
    assert(m03 * (m31 * (m12 * m23)) == m23 * (m31 * (m03 * m12))) by (nonlinear_arith);
    assert(m13 * (m31 * (m03 * m22)) == m03 * (m31 * (m13 * m22))) by (nonlinear_arith);
    assert(m33 * (m01 * (m13 * m22)) == m13 * (m01 * (m22 * m33))) by (nonlinear_arith);
    assert(m13 * (m01 * (m23 * m32)) == m23 * (m01 * (m13 * m32))) by (nonlinear_arith);
    assert(m13 * (m21 * (m02 * m33)) == m33 * (m21 * (m02 * m13))) by (nonlinear_arith);
    assert(m23 * (m31 * (m02 * m13)) == m13 * (m31 * (m02 * m23))) by (nonlinear_arith);
    assert(m23 * (m01 * (m12 * m33)) == m33 * (m01 * (m12 * m23))) by (nonlinear_arith);
    assert(m33 * (m11 * (m02 * m23)) == m23 * (m11 * (m02 * m33))) by (nonlinear_arith);
}

/// The row 0 against the cofactors of the row 1.
pub proof fn lemma_det4_value_right_1_0(
    m00: int,
    m01: int,
    m02: int,
    m03: int,
    m10: int,
    m11: int,
    m12: int,
    m13: int,
    m20: int,
    m21: int,
    m22: int,
    m23: int,
    m30: int,
    m31: int,
    m32: int,
    m33: int,
)
    ensures
        (((m00 * (-det3_value(m10, m12, m13, m20, m22, m23, m30, m32, m33)))
            + (m10 * det3_value(m00, m02, m03, m20, m22, m23, m30, m32, m33)))
            + (m20 * (-det3_value(m00, m02, m03, m10, m12, m13, m30, m32, m33))))
            + (m30 * det3_value(m00, m02, m03, m10, m12, m13, m20, m22, m23)) == 0,
{
    assert(m00 * (-det3_value(m10, m12, m13, m20, m22, m23, m30, m32, m33))
        == -(m00 * det3_value(m10, m12, m13, m20, m22, m23, m30, m32, m33))) by (nonlinear_arith);
    lemma_mul_det3_value_expanded(m00, m10, m12, m13, m20, m22, m23, m30, m32, m33);
    lemma_mul_det3_value_expanded(m10, m00, m02, m03, m20, m22, m23, m30, m32, m33);
    assert(m20 * (-det3_value(m00, m02, m03, m10, m12, m13, m30, m32, m33))
        == -(m20 * det3_value(m00, m02, m03, m10, m12, m13, m30, m32, m33))) by (nonlinear_arith);
    lemma_mul_det3_value_expanded(m20, m00, m02, m03, m10, m12, m13, m30, m32, m33);
    lemma_mul_det3_value_expanded(m30, m00, m02, m03, m10, m12, m13, m20, m22, m23);
    assert(m10 * (m00 * (m22 * m33)) == m00 * (m10 * (m22 * m33))) by (nonlinear_arith);
    assert(m00 * (m10 * (m23 * m32)) == m10 * (m00 * (m23 * m32))) by (nonlinear_arith);
    assert(m00 * (m20 * (m12 * m33)) == m20 * (m00 * (m12 * m33))) by (nonlinear_arith);
    assert(m20 * (m00 * (m13 * m32)) == m00 * (m20 * (m13 * m32))) by (nonlinear_arith);
    assert(m30 * (m00 * (m12 * m23)) == m00 * (m30 * (m12 * m23))) by (nonlinear_arith);
    assert(m00 * (m30 * (m13 * m22)) == m30 * (m00 * (m13 * m22))) by (nonlinear_arith);
    assert(m20 * (m10 * (m02 * m33)) == m10 * (m20 * (m02 * m33))) by (nonlinear_arith);
    assert(m10 * (m20 * (m03 * m32)) == m20 * (m10 * (m03 * m32))) by (nonlinear_arith);
    assert(m10 * (m30 * (m02 * m23)) == m30 * (m10 * (m02 * m23))) by (nonlinear_arith);
    assert(m30 * (m10 * (m03 * m22)) == m10 * (m30 * (m03 * m22))) by (nonlinear_arith);
    assert(m30 * (m20 * (m02 * m13)) == m20 * (m30 * (m02 * m13))) by (nonlinear_arith);
    assert(m20 * (m30 * (m03 * m12)) == m30 * (m20 * (m03 * m12))) by (nonlinear_arith);
}

/// The row 1 against the cofactors of the row 1.
pub proof fn lemma_det4_value_right_1_1(
    m00: int,
    m01: int,
    m02: int,
    m03: int,
    m10: int,
    m11: int,
    m12: int,
    m13: int,
    m20: int,
    m21: int,
    m22: int,
    m23: int,
    m30: int,
    m31: int,
    m32: int,
    m33: int,
)
    ensures
        (((m01 * (-det3_value(m10, m12, m13, m20, m22, m23, m30, m32, m33)))
            + (m11 * det3_value(m00, m02, m03, m20, m22, m23, m30, m32, m33)))
            + (m21 * (-det3_value(m00, m02, m03, m10, m12, m13, m30, m32, m33))))
            + (m31 * det3_value(m00, m02, m03, m10, m12, m13, m20, m22, m23)) == det4_value(m00,
            m01, m02, m03, m10, m11, m12, m13, m20, m21, m22, m23, m30, m31, m32, m33),
{
    assert(m01 * (-det3_value(m10, m12, m13, m20, m22, m23, m30, m32, m33))
        == -(m01 * det3_value(m10, m12, m13, m20, m22, m23, m30, m32, m33))) by (nonlinear_arith);
    lemma_mul_det3_value_expanded(m01, m10, m12, m13, m20, m22, m23, m30, m32, m33);
    lemma_mul_det3_value_expanded(m11, m00, m02, m03, m20, m22, m23, m30, m32, m33);
    assert(m21 * (-det3_value(m00, m02, m03, m10, m12, m13, m30, m32, m33))
        == -(m21 * det3_value(m00, m02, m03, m10, m12, m13, m30, m32, m33))) by (nonlinear_arith);
    lemma_mul_det3_value_expanded(m21, m00, m02, m03, m10, m12, m13, m30, m32, m33);
    lemma_mul_det3_value_expanded(m31, m00, m02, m03, m10, m12, m13, m20, m22, m23);
    lemma_det4_value_expanded(m00, m01, m02, m03, m10, m11, m12, m13, m20, m21, m22, m23, m30, m31,
        m32, m33);
    assert(m01 * (m10 * (m22 * m33)) == m10 * (m01 * (m22 * m33))) by (nonlinear_arith);
    assert(m01 * (m10 * (m23 * m32)) == m10 * (m01 * (m23 * m32))) by (nonlinear_arith);
    assert(m01 * (m20 * (m12 * m33)) == m20 * (m01 * (m12 * m33))) by (nonlinear_arith);
    assert(m01 * (m20 * (m13 * m32)) == m20 * (m01 * (m13 * m32))) by (nonlinear_arith);
    assert(m01 * (m30 * (m12 * m23)) == m30 * (m01 * (m12 * m23))) by (nonlinear_arith);
    assert(m01 * (m30 * (m13 * m22)) == m30 * (m01 * (m13 * m22))) by (nonlinear_arith);
    assert(m11 * (m00 * (m22 * m33)) == m00 * (m11 * (m22 * m33))) by (nonlinear_arith);
    assert(m11 * (m00 * (m23 * m32)) == m00 * (m11 * (m23 * m32))) by (nonlinear_arith);
    assert(m11 * (m20 * (m02 * m33)) == m20 * (m11 * (m02 * m33))) by (nonlinear_arith);
    assert(m11 * (m20 * (m03 * m32)) == m20 * (m11 * (m03 * m32))) by (nonlinear_arith);
    assert(m11 * (m30 * (m02 * m23)) == m30 * (m11 * (m02 * m23))) by (nonlinear_arith);
    assert(m11 * (m30 * (m03 * m22)) == m30 * (m11 * (m03 * m22))) by (nonlinear_arith);
    assert(m21 * (m00 * (m12 * m33)) == m00 * (m21 * (m12 * m33))) by (nonlinear_arith);
    assert(m21 * (m00 * (m13 * m32)) == m00 * (m21 * (m13 * m32))) by (nonlinear_arith);
    assert(m21 * (m10 * (m02 * m33)) == m10 * (m21 * (m02 * m33))) by (nonlinear_arith);
    assert(m21 * (m10 * (m03 * m32)) == m10 * (m21 * (m03 * m32))) by (nonlinear_arith);
    assert(m21 * (m30 * (m02 * m13)) == m30 * (m21 * (m02 * m13))) by (nonlinear_arith);
    assert(m21 * (m30 * (m03 * m12)) == m30 * (m21 * (m03 * m12))) by (nonlinear_arith);
    assert(m31 * (m00 * (m12 * m23)) == m00 * (m31 * (m12 * m23))) by (nonlinear_arith);
    assert(m31 * (m00 * (m13 * m22)) == m00 * (m31 * (m13 * m22))) by (nonlinear_arith);
    assert(m31 * (m10 * (m02 * m23)) == m10 * (m31 * (m02 * m23))) by (nonlinear_arith);
    assert(m31 * (m10 * (m03 * m22)) == m10 * (m31 * (m03 * m22))) by (nonlinear_arith);
    assert(m31 * (m20 * (m02 * m13)) == m20 * (m31 * (m02 * m13))) by (nonlinear_arith);
    assert(m31 * (m20 * (m03 * m12)) == m20 * (m31 * (m03 * m12))) by (nonlinear_arith);
}

/// The row 2 against the cofactors of the row 1.
pub proof fn lemma_det4_value_right_1_2(
    m00: int,
    m01: int,
    m02: int,
    m03: int,
    m10: int,
    m11: int,
    m12: int,
    m13: int,
    m20: int,
    m21: int,
    m22: int,
    m23: int,
    m30: int,
    m31: int,
    m32: int,
    m33: int,
)
    ensures
        (((m02 * (-det3_value(m10, m12, m13, m20, m22, m23, m30, m32, m33)))
            + (m12 * det3_value(m00, m02, m03, m20, m22, m23, m30, m32, m33)))
            + (m22 * (-det3_value(m00, m02, m03, m10, m12, m13, m30, m32, m33))))
            + (m32 * det3_value(m00, m02, m03, m10, m12, m13, m20, m22, m23)) == 0,
{
    assert(m02 * (-det3_value(m10, m12, m13, m20, m22, m23, m30, m32, m33))
        == -(m02 * det3_value(m10, m12, m13, m20, m22, m23, m30, m32, m33))) by (nonlinear_arith);
    lemma_mul_det3_value_expanded(m02, m10, m12, m13, m20, m22, m23, m30, m32, m33);
    lemma_mul_det3_value_expanded(m12, m00, m02, m03, m20, m22, m23, m30, m32, m33);
    assert(m22 * (-det3_value(m00, m02, m03, m10, m12, m13, m30, m32, m33))
        == -(m22 * det3_value(m00, m02, m03, m10, m12, m13, m30, m32, m33))) by (nonlinear_arith);
    lemma_mul_det3_value_expanded(m22, m00, m02, m03, m10, m12, m13, m30, m32, m33);
    lemma_mul_det3_value_expanded(m32, m00, m02, m03, m10, m12, m13, m20, m22, m23);
    assert(m22 * (m10 * (m02 * m33)) == m02 * (m10 * (m22 * m33))) by (nonlinear_arith);
    assert(m02 * (m10 * (m23 * m32)) == m32 * (m10 * (m02 * m23))) by (nonlinear_arith);
    assert(m02 * (m20 * (m12 * m33)) == m12 * (m20 * (m02 * m33))) by (nonlinear_arith);
    assert(m32 * (m20 * (m02 * m13)) == m02 * (m20 * (m13 * m32))) by (nonlinear_arith);
    assert(m12 * (m30 * (m02 * m23)) == m02 * (m30 * (m12 * m23))) by (nonlinear_arith);
    assert(m02 * (m30 * (m13 * m22)) == m22 * (m30 * (m02 * m13))) by (nonlinear_arith);
    assert(m12 * (m00 * (m22 * m33)) == m22 * (m00 * (m12 * m33))) by (nonlinear_arith);
    assert(m32 * (m00 * (m12 * m23)) == m12 * (m00 * (m23 * m32))) by (nonlinear_arith);
    assert(m12 * (m20 * (m03 * m32)) == m32 * (m20 * (m03 * m12))) by (nonlinear_arith);
    assert(m22 * (m30 * (m03 * m12)) == m12 * (m30 * (m03 * m22))) by (nonlinear_arith);
    assert(m22 * (m00 * (m13 * m32)) == m32 * (m00 * (m13 * m22))) by (nonlinear_arith);
    assert(m32 * (m10 * (m03 * m22)) == m22 * (m10 * (m03 * m32))) by (nonlinear_arith);
}

/// The row 3 against the cofactors of the row 1.
pub proof fn lemma_det4_value_right_1_3(
    m00: int,
    m01: int,
    m02: int,
    m03: int,
    m10: int,
    m11: int,
    m12: int,
    m13: int,
    m20: int,
    m21: int,
    m22: int,
    m23: int,
    m30: int,
    m31: int,
    m32: int,
    m33: int,
)
    ensures
        (((m03 * (-det3_value(m10, m12, m13, m20, m22, m23, m30, m32, m33)))
            + (m13 * det3_value(m00, m02, m03, m20, m22, m23, m30, m32, m33)))
            + (m23 * (-det3_value(m00, m02, m03, m10, m12, m13, m30, m32, m33))))
            + (m33 * det3_value(m00, m02, m03, m10, m12, m13, m20, m22, m23)) == 0,
{
    assert(m03 * (-det3_value(m10, m12, m13, m20, m22, m23, m30, m32, m33))
        == -(m03 * det3_value(m10, m12, m13, m20, m22, m23, m30, m32, m33))) by (nonlinear_arith);
    lemma_mul_det3_value_expanded(m03, m10, m12, m13, m20, m22, m23, m30, m32, m33);
    lemma_mul_det3_value_expanded(m13, m00, m02, m03, m20, m22, m23, m30, m32, m33);
    assert(m23 * (-det3_value(m00, m02, m03, m10, m12, m13, m30, m32, m33))
        == -(m23 * det3_value(m00, m02, m03, m10, m12, m13, m30, m32, m33))) by (nonlinear_arith);
    lemma_mul_det3_value_expanded(m23, m00, m02, m03, m10, m12, m13, m30, m32, m33);
    lemma_mul_det3_value_expanded(m33, m00, m02, m03, m10, m12, m13, m20, m22, m23);
    assert(m33 * (m10 * (m03 * m22)) == m03 * (m10 * (m22 * m33))) by (nonlinear_arith);
    assert(m03 * (m10 * (m23 * m32)) == m23 * (m10 * (m03 * m32))) by (nonlinear_arith);
    assert(m03 * (m20 * (m12 * m33)) == m33 * (m20 * (m03 * m12))) by (nonlinear_arith);
    assert(m13 * (m20 * (m03 * m32)) == m03 * (m20 * (m13 * m32))) by (nonlinear_arith);
    assert(m23 * (m30 * (m03 * m12)) == m03 * (m30 * (m12 * m23))) by (nonlinear_arith);
    assert(m03 * (m30 * (m13 * m22)) == m13 * (m30 * (m03 * m22))) by (nonlinear_arith);
    assert(m13 * (m00 * (m22 * m33)) == m33 * (m00 * (m13 * m22))) by (nonlinear_arith);
    assert(m23 * (m00 * (m13 * m32)) == m13 * (m00 * (m23 * m32))) by (nonlinear_arith);
    assert(m33 * (m20 * (m02 * m13)) == m13 * (m20 * (m02 * m33))) by (nonlinear_arith);
    assert(m13 * (m30 * (m02 * m23)) == m23 * (m30 * (m02 * m13))) by (nonlinear_arith);
    assert(m33 * (m00 * (m12 * m23)) == m23 * (m00 * (m12 * m33))) by (nonlinear_arith);
    assert(m23 * (m10 * (m02 * m33)) == m33 * (m10 * (m02 * m23))) by (nonlinear_arith);
}

/// The row 0 against the cofactors of the row 2.
pub proof fn lemma_det4_value_right_2_0(
    m00: int,
    m01: int,
    m02: int,
    m03: int,
    m10: int,
    m11: int,
    m12: int,
    m13: int,
    m20: int,
    m21: int,
    m22: int,
    m23: int,
    m30: int,
    m31: int,
    m32: int,
    m33: int,
)
    ensures
        (((m00 * det3_value(m10, m11, m13, m20, m21, m23, m30, m31, m33))
            + (m10 * (-det3_value(m00, m01, m03, m20, m21, m23, m30, m31, m33))))
            + (m20 * det3_value(m00, m01, m03, m10, m11, m13, m30, m31, m33)))
            + (m30 * (-det3_value(m00, m01, m03, m10, m11, m13, m20, m21, m23))) == 0,
{
    lemma_mul_det3_value_expanded(m00, m10, m11, m13, m20, m21, m23, m30, m31, m33);
    assert(m10 * (-det3_value(m00, m01, m03, m20, m21, m23, m30, m31, m33))
        == -(m10 * det3_value(m00, m01, m03, m20, m21, m23, m30, m31, m33))) by (nonlinear_arith);
    lemma_mul_det3_value_expanded(m10, m00, m01, m03, m20, m21, m23, m30, m31, m33);
    lemma_mul_det3_value_expanded(m20, m00, m01, m03, m10, m11, m13, m30, m31, m33);
    assert(m30 * (-det3_value(m00, m01, m03, m10, m11, m13, m20, m21, m23))
        == -(m30 * det3_value(m00, m01, m03, m10, m11, m13, m20, m21, m23))) by (nonlinear_arith);
    lemma_mul_det3_value_expanded(m30, m00, m01, m03, m10, m11, m13, m20, m21, m23);
    assert(m00 * (m10 * (m21 * m33)) == m10 * (m00 * (m21 * m33))) by (nonlinear_arith);
    assert(m10 * (m00 * (m23 * m31)) == m00 * (m10 * (m23 * m31))) by (nonlinear_arith);
    assert(m20 * (m00 * (m11 * m33)) == m00 * (m20 * (m11 * m33))) by (nonlinear_arith);
    assert(m00 * (m20 * (m13 * m31)) == m20 * (m00 * (m13 * m31))) by (nonlinear_arith);
    assert(m00 * (m30 * (m11 * m23)) == m30 * (m00 * (m11 * m23))) by (nonlinear_arith);
    assert(m30 * (m00 * (m13 * m21)) == m00 * (m30 * (m13 * m21))) by (nonlinear_arith);
    assert(m10 * (m20 * (m01 * m33)) == m20 * (m10 * (m01 * m33))) by (nonlinear_arith);
    assert(m20 * (m10 * (m03 * m31)) == m10 * (m20 * (m03 * m31))) by (nonlinear_arith);
    assert(m30 * (m10 * (m01 * m23)) == m10 * (m30 * (m01 * m23))) by (nonlinear_arith);
    assert(m10 * (m30 * (m03 * m21)) == m30 * (m10 * (m03 * m21))) by (nonlinear_arith);
    assert(m20 * (m30 * (m01 * m13)) == m30 * (m20 * (m01 * m13))) by (nonlinear_arith);
    assert(m30 * (m20 * (m03 * m11)) == m20 * (m30 * (m03 * m11))) by (nonlinear_arith);
}

/// The row 1 against the cofactors of the row 2.
pub proof fn lemma_det4_value_right_2_1(
    m00: int,
    m01: int,
    m02: int,
    m03: int,
    m10: int,
    m11: int,
    m12: int,
    m13: int,
    m20: int,
    m21: int,
    m22: int,
    m23: int,
    m30: int,
    m31: int,
    m32: int,
    m33: int,
)
    ensures
        (((m01 * det3_value(m10, m11, m13, m20, m21, m23, m30, m31, m33))
            + (m11 * (-det3_value(m00, m01, m03, m20, m21, m23, m30, m31, m33))))
            + (m21 * det3_value(m00, m01, m03, m10, m11, m13, m30, m31, m33)))
            + (m31 * (-det3_value(m00, m01, m03, m10, m11, m13, m20, m21, m23))) == 0,
{
    lemma_mul_det3_value_expanded(m01, m10, m11, m13, m20, m21, m23, m30, m31, m33);
    assert(m11 * (-det3_value(m00, m01, m03, m20, m21, m23, m30, m31, m33))
        == -(m11 * det3_value(m00, m01, m03, m20, m21, m23, m30, m31, m33))) by (nonlinear_arith);
    lemma_mul_det3_value_expanded(m11, m00, m01, m03, m20, m21, m23, m30, m31, m33);
    lemma_mul_det3_value_expanded(m21, m00, m01, m03, m10, m11, m13, m30, m31, m33);
    assert(m31 * (-det3_value(m00, m01, m03, m10, m11, m13, m20, m21, m23))
        == -(m31 * det3_value(m00, m01, m03, m10, m11, m13, m20, m21, m23))) by (nonlinear_arith);
    lemma_mul_det3_value_expanded(m31, m00, m01, m03, m10, m11, m13, m20, m21, m23);
    assert(m01 * (m10 * (m21 * m33)) == m21 * (m10 * (m01 * m33))) by (nonlinear_arith);
    assert(m31 * (m10 * (m01 * m23)) == m01 * (m10 * (m23 * m31))) by (nonlinear_arith);
    assert(m11 * (m20 * (m01 * m33)) == m01 * (m20 * (m11 * m33))) by (nonlinear_arith);
    assert(m01 * (m20 * (m13 * m31)) == m31 * (m20 * (m01 * m13))) by (nonlinear_arith);
    assert(m01 * (m30 * (m11 * m23)) == m11 * (m30 * (m01 * m23))) by (nonlinear_arith);
    assert(m21 * (m30 * (m01 * m13)) == m01 * (m30 * (m13 * m21))) by (nonlinear_arith);
    assert(m21 * (m00 * (m11 * m33)) == m11 * (m00 * (m21 * m33))) by (nonlinear_arith);
    assert(m11 * (m00 * (m23 * m31)) == m31 * (m00 * (m11 * m23))) by (nonlinear_arith);
    assert(m31 * (m20 * (m03 * m11)) == m11 * (m20 * (m03 * m31))) by (nonlinear_arith);
    assert(m11 * (m30 * (m03 * m21)) == m21 * (m30 * (m03 * m11))) by (nonlinear_arith);
    assert(m31 * (m00 * (m13 * m21)) == m21 * (m00 * (m13 * m31))) by (nonlinear_arith);
    assert(m21 * (m10 * (m03 * m31)) == m31 * (m10 * (m03 * m21))) by (nonlinear_arith);
}

/// The row 2 against the cofactors of the row 2.
pub proof fn lemma_det4_value_right_2_2(
    m00: int,
    m01: int,
    m02: int,
    m03: int,
    m10: int,
    m11: int,
    m12: int,
    m13: int,
    m20: int,
    m21: int,
    m22: int,
    m23: int,
    m30: int,
    m31: int,
    m32: int,
    m33: int,
)
    ensures
        (((m02 * det3_value(m10, m11, m13, m20, m21, m23, m30, m31, m33))
            + (m12 * (-det3_value(m00, m01, m03, m20, m21, m23, m30, m31, m33))))
            + (m22 * det3_value(m00, m01, m03, m10, m11, m13, m30, m31, m33)))
            + (m32 * (-det3_value(m00, m01, m03, m10, m11, m13, m20, m21, m23))) == det4_value(m00,
            m01, m02, m03, m10, m11, m12, m13, m20, m21, m22, m23, m30, m31, m32, m33),
{
    lemma_mul_det3_value_expanded(m02, m10, m11, m13, m20, m21, m23, m30, m31, m33);
    assert(m12 * (-det3_value(m00, m01, m03, m20, m21, m23, m30, m31, m33))
        == -(m12 * det3_value(m00, m01, m03, m20, m21, m23, m30, m31, m33))) by (nonlinear_arith);
    lemma_mul_det3_value_expanded(m12, m00, m01, m03, m20, m21, m23, m30, m31, m33);
    lemma_mul_det3_value_expanded(m22, m00, m01, m03, m10, m11, m13, m30, m31, m33);
    assert(m32 * (-det3_value(m00, m01, m03, m10, m11, m13, m20, m21, m23))
        == -(m32 * det3_value(m00, m01, m03, m10, m11, m13, m20, m21, m23))) by (nonlinear_arith);
    lemma_mul_det3_value_expanded(m32, m00, m01, m03, m10, m11, m13, m20, m21, m23);
    lemma_det4_value_expanded(m00, m01, m02, m03, m10, m11, m12, m13, m20, m21, m22, m23, m30, m31,
        m32, m33);
    assert(m02 * (m10 * (m21 * m33)) == m10 * (m21 * (m02 * m33))) by (nonlinear_arith);
    assert(m02 * (m10 * (m23 * m31)) == m10 * (m31 * (m02 * m23))) by (nonlinear_arith);
    assert(m02 * (m20 * (m11 * m33)) == m20 * (m11 * (m02 * m33))) by (nonlinear_arith);
    assert(m02 * (m20 * (m13 * m31)) == m20 * (m31 * (m02 * m13))) by (nonlinear_arith);
    assert(m02 * (m30 * (m11 * m23)) == m30 * (m11 * (m02 * m23))) by (nonlinear_arith);
    assert(m02 * (m30 * (m13 * m21)) == m30 * (m21 * (m02 * m13))) by (nonlinear_arith);
    assert(m12 * (m00 * (m21 * m33)) == m00 * (m21 * (m12 * m33))) by (nonlinear_arith);
    assert(m12 * (m00 * (m23 * m31)) == m00 * (m31 * (m12 * m23))) by (nonlinear_arith);
    assert(m12 * (m20 * (m01 * m33)) == m20 * (m01 * (m12 * m33))) by (nonlinear_arith);
    assert(m12 * (m20 * (m03 * m31)) == m20 * (m31 * (m03 * m12))) by (nonlinear_arith);
    assert(m12 * (m30 * (m01 * m23)) == m30 * (m01 * (m12 * m23))) by (nonlinear_arith);
    assert(m12 * (m30 * (m03 * m21)) == m30 * (m21 * (m03 * m12))) by (nonlinear_arith);
    assert(m22 * (m00 * (m11 * m33)) == m00 * (m11 * (m22 * m33))) by (nonlinear_arith);
    assert(m22 * (m00 * (m13 * m31)) == m00 * (m31 * (m13 * m22))) by (nonlinear_arith);
    assert(m22 * (m10 * (m01 * m33)) == m10 * (m01 * (m22 * m33))) by (nonlinear_arith);
    assert(m22 * (m10 * (m03 * m31)) == m10 * (m31 * (m03 * m22))) by (nonlinear_arith);
    assert(m22 * (m30 * (m01 * m13)) == m30 * (m01 * (m13 * m22))) by (nonlinear_arith);
    assert(m22 * (m30 * (m03 * m11)) == m30 * (m11 * (m03 * m22))) by (nonlinear_arith);
    assert(m32 * (m00 * (m11 * m23)) == m00 * (m11 * (m23 * m32))) by (nonlinear_arith);
    assert(m32 * (m00 * (m13 * m21)) == m00 * (m21 * (m13 * m32))) by (nonlinear_arith);
    assert(m32 * (m10 * (m01 * m23)) == m10 * (m01 * (m23 * m32))) by (nonlinear_arith);
    assert(m32 * (m10 * (m03 * m21)) == m10 * (m21 * (m03 * m32))) by (nonlinear_arith);
    assert(m32 * (m20 * (m01 * m13)) == m20 * (m01 * (m13 * m32))) by (nonlinear_arith);
    assert(m32 * (m20 * (m03 * m11)) == m20 * (m11 * (m03 * m32))) by (nonlinear_arith);
}

/// The row 3 against the cofactors of the row 2.
pub proof fn lemma_det4_value_right_2_3(
    m00: int,
    m01: int,
    m02: int,
    m03: int,
    m10: int,
    m11: int,
    m12: int,
    m13: int,
    m20: int,
    m21: int,
    m22: int,
    m23: int,
    m30: int,
    m31: int,
    m32: int,
    m33: int,
)
    ensures
        (((m03 * det3_value(m10, m11, m13, m20, m21, m23, m30, m31, m33))
            + (m13 * (-det3_value(m00, m01, m03, m20, m21, m23, m30, m31, m33))))
            + (m23 * det3_value(m00, m01, m03, m10, m11, m13, m30, m31, m33)))
            + (m33 * (-det3_value(m00, m01, m03, m10, m11, m13, m20, m21, m23))) == 0,
{
    lemma_mul_det3_value_expanded(m03, m10, m11, m13, m20, m21, m23, m30, m31, m33);
    assert(m13 * (-det3_value(m00, m01, m03, m20, m21, m23, m30, m31, m33))
        == -(m13 * det3_value(m00, m01, m03, m20, m21, m23, m30, m31, m33))) by (nonlinear_arith);
    lemma_mul_det3_value_expanded(m13, m00, m01, m03, m20, m21, m23, m30, m31, m33);
    lemma_mul_det3_value_expanded(m23, m00, m01, m03, m10, m11, m13, m30, m31, m33);
    assert(m33 * (-det3_value(m00, m01, m03, m10, m11, m13, m20, m21, m23))
        == -(m33 * det3_value(m00, m01, m03, m10, m11, m13, m20, m21, m23))) by (nonlinear_arith);
    lemma_mul_det3_value_expanded(m33, m00, m01, m03, m10, m11, m13, m20, m21, m23);
    assert(m03 * (m10 * (m21 * m33)) == m33 * (m10 * (m03 * m21))) by (nonlinear_arith);
    assert(m23 * (m10 * (m03 * m31)) == m03 * (m10 * (m23 * m31))) by (nonlinear_arith);
    assert(m33 * (m20 * (m03 * m11)) == m03 * (m20 * (m11 * m33))) by (nonlinear_arith);
    assert(m03 * (m20 * (m13 * m31)) == m13 * (m20 * (m03 * m31))) by (nonlinear_arith);
    assert(m03 * (m30 * (m11 * m23)) == m23 * (m30 * (m03 * m11))) by (nonlinear_arith);
    assert(m13 * (m30 * (m03 * m21)) == m03 * (m30 * (m13 * m21))) by (nonlinear_arith);
    assert(m33 * (m00 * (m13 * m21)) == m13 * (m00 * (m21 * m33))) by (nonlinear_arith);
    assert(m13 * (m00 * (m23 * m31)) == m23 * (m00 * (m13 * m31))) by (nonlinear_arith);
    assert(m13 * (m20 * (m01 * m33)) == m33 * (m20 * (m01 * m13))) by (nonlinear_arith);
    assert(m23 * (m30 * (m01 * m13)) == m13 * (m30 * (m01 * m23))) by (nonlinear_arith);
    assert(m23 * (m00 * (m11 * m33)) == m33 * (m00 * (m11 * m23))) by (nonlinear_arith);
    assert(m33 * (m10 * (m01 * m23)) == m23 * (m10 * (m01 * m33))) by (nonlinear_arith);
}

/// The row 0 against the cofactors of the row 3.
pub proof fn lemma_det4_value_right_3_0(
    m00: int,
    m01: int,
    m02: int,
    m03: int,
    m10: int,
    m11: int,
    m12: int,
    m13: int,
    m20: int,
    m21: int,
    m22: int,
    m23: int,
    m30: int,
    m31: int,
    m32: int,
    m33: int,
)
    ensures
        (((m00 * (-det3_value(m10, m11, m12, m20, m21, m22, m30, m31, m32)))
            + (m10 * det3_value(m00, m01, m02, m20, m21, m22, m30, m31, m32)))
            + (m20 * (-det3_value(m00, m01, m02, m10, m11, m12, m30, m31, m32))))
            + (m30 * det3_value(m00, m01, m02, m10, m11, m12, m20, m21, m22)) == 0,
{
    assert(m00 * (-det3_value(m10, m11, m12, m20, m21, m22, m30, m31, m32))
        == -(m00 * det3_value(m10, m11, m12, m20, m21, m22, m30, m31, m32))) by (nonlinear_arith);
    lemma_mul_det3_value_expanded(m00, m10, m11, m12, m20, m21, m22, m30, m31, m32);
    lemma_mul_det3_value_expanded(m10, m00, m01, m02, m20, m21, m22, m30, m31, m32);
    assert(m20 * (-det3_value(m00, m01, m02, m10, m11, m12, m30, m31, m32))
        == -(m20 * det3_value(m00, m01, m02, m10, m11, m12, m30, m31, m32))) by (nonlinear_arith);
    lemma_mul_det3_value_expanded(m20, m00, m01, m02, m10, m11, m12, m30, m31, m32);
    lemma_mul_det3_value_expanded(m30, m00, m01, m02, m10, m11, m12, m20, m21, m22);
    assert(m10 * (m00 * (m21 * m32)) == m00 * (m10 * (m21 * m32))) by (nonlinear_arith);
    assert(m00 * (m10 * (m22 * m31)) == m10 * (m00 * (m22 * m31))) by (nonlinear_arith);
    assert(m00 * (m20 * (m11 * m32)) == m20 * (m00 * (m11 * m32))) by (nonlinear_arith);
    assert(m20 * (m00 * (m12 * m31)) == m00 * (m20 * (m12 * m31))) by (nonlinear_arith);
    assert(m30 * (m00 * (m11 * m22)) == m00 * (m30 * (m11 * m22))) by (nonlinear_arith);
    assert(m00 * (m30 * (m12 * m21)) == m30 * (m00 * (m12 * m21))) by (nonlinear_arith);
    assert(m20 * (m10 * (m01 * m32)) == m10 * (m20 * (m01 * m32))) by (nonlinear_arith);
    assert(m10 * (m20 * (m02 * m31)) == m20 * (m10 * (m02 * m31))) by (nonlinear_arith);
    assert(m10 * (m30 * (m01 * m22)) == m30 * (m10 * (m01 * m22))) by (nonlinear_arith);
    assert(m30 * (m10 * (m02 * m21)) == m10 * (m30 * (m02 * m21))) by (nonlinear_arith);
    assert(m30 * (m20 * (m01 * m12)) == m20 * (m30 * (m01 * m12))) by (nonlinear_arith);
    assert(m20 * (m30 * (m02 * m11)) == m30 * (m20 * (m02 * m11))) by (nonlinear_arith);
}

/// The row 1 against the cofactors of the row 3.
pub proof fn lemma_det4_value_right_3_1(
    m00: int,
    m01: int,
    m02: int,
    m03: int,
    m10: int,
    m11: int,
    m12: int,
    m13: int,
    m20: int,
    m21: int,
    m22: int,
    m23: int,
    m30: int,
    m31: int,
    m32: int,
    m33: int,
)
    ensures
        (((m01 * (-det3_value(m10, m11, m12, m20, m21, m22, m30, m31, m32)))
            + (m11 * det3_value(m00, m01, m02, m20, m21, m22, m30, m31, m32)))
            + (m21 * (-det3_value(m00, m01, m02, m10, m11, m12, m30, m31, m32))))
            + (m31 * det3_value(m00, m01, m02, m10, m11, m12, m20, m21, m22)) == 0,
{
    assert(m01 * (-det3_value(m10, m11, m12, m20, m21, m22, m30, m31, m32))
        == -(m01 * det3_value(m10, m11, m12, m20, m21, m22, m30, m31, m32))) by (nonlinear_arith);
    lemma_mul_det3_value_expanded(m01, m10, m11, m12, m20, m21, m22, m30, m31, m32);
    lemma_mul_det3_value_expanded(m11, m00, m01, m02, m20, m21, m22, m30, m31, m32);
    assert(m21 * (-det3_value(m00, m01, m02, m10, m11, m12, m30, m31, m32))
        == -(m21 * det3_value(m00, m01, m02, m10, m11, m12, m30, m31, m32))) by (nonlinear_arith);
    lemma_mul_det3_value_expanded(m21, m00, m01, m02, m10, m11, m12, m30, m31, m32);
    lemma_mul_det3_value_expanded(m31, m00, m01, m02, m10, m11, m12, m20, m21, m22);
    assert(m21 * (m10 * (m01 * m32)) == m01 * (m10 * (m21 * m32))) by (nonlinear_arith);
    assert(m01 * (m10 * (m22 * m31)) == m31 * (m10 * (m01 * m22))) by (nonlinear_arith);
    assert(m01 * (m20 * (m11 * m32)) == m11 * (m20 * (m01 * m32))) by (nonlinear_arith);
    assert(m31 * (m20 * (m01 * m12)) == m01 * (m20 * (m12 * m31))) by (nonlinear_arith);
    assert(m11 * (m30 * (m01 * m22)) == m01 * (m30 * (m11 * m22))) by (nonlinear_arith);
    assert(m01 * (m30 * (m12 * m21)) == m21 * (m30 * (m01 * m12))) by (nonlinear_arith);
    assert(m11 * (m00 * (m21 * m32)) == m21 * (m00 * (m11 * m32))) by (nonlinear_arith);
    assert(m31 * (m00 * (m11 * m22)) == m11 * (m00 * (m22 * m31))) by (nonlinear_arith);
    assert(m11 * (m20 * (m02 * m31)) == m31 * (m20 * (m02 * m11))) by (nonlinear_arith);
    assert(m21 * (m30 * (m02 * m11)) == m11 * (m30 * (m02 * m21))) by (nonlinear_arith);
    assert(m21 * (m00 * (m12 * m31)) == m31 * (m00 * (m12 * m21))) by (nonlinear_arith);
    assert(m31 * (m10 * (m02 * m21)) == m21 * (m10 * (m02 * m31))) by (nonlinear_arith);
}

/// The row 2 against the cofactors of the row 3.
pub proof fn lemma_det4_value_right_3_2(
    m00: int,
    m01: int,
    m02: int,
    m03: int,
    m10: int,
    m11: int,
    m12: int,
    m13: int,
    m20: int,
    m21: int,
    m22: int,
    m23: int,
    m30: int,
    m31: int,
    m32: int,
    m33: int,
)
    ensures
        (((m02 * (-det3_value(m10, m11, m12, m20, m21, m22, m30, m31, m32)))
            + (m12 * det3_value(m00, m01, m02, m20, m21, m22, m30, m31, m32)))
            + (m22 * (-det3_value(m00, m01, m02, m10, m11, m12, m30, m31, m32))))
            + (m32 * det3_value(m00, m01, m02, m10, m11, m12, m20, m21, m22)) == 0,
{
    assert(m02 * (-det3_value(m10, m11, m12, m20, m21, m22, m30, m31, m32))
        == -(m02 * det3_value(m10, m11, m12, m20, m21, m22, m30, m31, m32))) by (nonlinear_arith);
    lemma_mul_det3_value_expanded(m02, m10, m11, m12, m20, m21, m22, m30, m31, m32);
    lemma_mul_det3_value_expanded(m12, m00, m01, m02, m20, m21, m22, m30, m31, m32);
    assert(m22 * (-det3_value(m00, m01, m02, m10, m11, m12, m30, m31, m32))
        == -(m22 * det3_value(m00, m01, m02, m10, m11, m12, m30, m31, m32))) by (nonlinear_arith);
    lemma_mul_det3_value_expanded(m22, m00, m01, m02, m10, m11, m12, m30, m31, m32);
    lemma_mul_det3_value_expanded(m32, m00, m01, m02, m10, m11, m12, m20, m21, m22);
    assert(m32 * (m10 * (m02 * m21)) == m02 * (m10 * (m21 * m32))) by (nonlinear_arith);
    assert(m02 * (m10 * (m22 * m31)) == m22 * (m10 * (m02 * m31))) by (nonlinear_arith);
    assert(m02 * (m20 * (m11 * m32)) == m32 * (m20 * (m02 * m11))) by (nonlinear_arith);
    assert(m12 * (m20 * (m02 * m31)) == m02 * (m20 * (m12 * m31))) by (nonlinear_arith);
    assert(m22 * (m30 * (m02 * m11)) == m02 * (m30 * (m11 * m22))) by (nonlinear_arith);
    assert(m02 * (m30 * (m12 * m21)) == m12 * (m30 * (m02 * m21))) by (nonlinear_arith);
    assert(m12 * (m00 * (m21 * m32)) == m32 * (m00 * (m12 * m21))) by (nonlinear_arith);
    assert(m22 * (m00 * (m12 * m31)) == m12 * (m00 * (m22 * m31))) by (nonlinear_arith);
    assert(m32 * (m20 * (m01 * m12)) == m12 * (m20 * (m01 * m32))) by (nonlinear_arith);
    assert(m12 * (m30 * (m01 * m22)) == m22 * (m30 * (m01 * m12))) by (nonlinear_arith);
    assert(m32 * (m00 * (m11 * m22)) == m22 * (m00 * (m11 * m32))) by (nonlinear_arith);
    assert(m22 * (m10 * (m01 * m32)) == m32 * (m10 * (m01 * m22))) by (nonlinear_arith);
}

/// The row 3 against the cofactors of the row 3.
pub proof fn lemma_det4_value_right_3_3(
    m00: int,
    m01: int,
    m02: int,
    m03: int,
    m10: int,
    m11: int,
    m12: int,
    m13: int,
    m20: int,
    m21: int,
    m22: int,
    m23: int,
    m30: int,
    m31: int,
    m32: int,
    m33: int,
)
    ensures
        (((m03 * (-det3_value(m10, m11, m12, m20, m21, m22, m30, m31, m32)))
            + (m13 * det3_value(m00, m01, m02, m20, m21, m22, m30, m31, m32)))
            + (m23 * (-det3_value(m00, m01, m02, m10, m11, m12, m30, m31, m32))))
            + (m33 * det3_value(m00, m01, m02, m10, m11, m12, m20, m21, m22)) == det4_value(m00,
            m01, m02, m03, m10, m11, m12, m13, m20, m21, m22, m23, m30, m31, m32, m33),
{
    assert(m03 * (-det3_value(m10, m11, m12, m20, m21, m22, m30, m31, m32))
        == -(m03 * det3_value(m10, m11, m12, m20, m21, m22, m30, m31, m32))) by (nonlinear_arith);
    lemma_mul_det3_value_expanded(m03, m10, m11, m12, m20, m21, m22, m30, m31, m32);
    lemma_mul_det3_value_expanded(m13, m00, m01, m02, m20, m21, m22, m30, m31, m32);
    assert(m23 * (-det3_value(m00, m01, m02, m10, m11, m12, m30, m31, m32))
        == -(m23 * det3_value(m00, m01, m02, m10, m11, m12, m30, m31, m32))) by (nonlinear_arith);
    lemma_mul_det3_value_expanded(m23, m00, m01, m02, m10, m11, m12, m30, m31, m32);
    lemma_mul_det3_value_expanded(m33, m00, m01, m02, m10, m11, m12, m20, m21, m22);
    lemma_det4_value_expanded(m00, m01, m02, m03, m10, m11, m12, m13, m20, m21, m22, m23, m30, m31,
        m32, m33);
    assert(m03 * (m10 * (m21 * m32)) == m10 * (m21 * (m03 * m32))) by (nonlinear_arith);
    assert(m03 * (m10 * (m22 * m31)) == m10 * (m31 * (m03 * m22))) by (nonlinear_arith);
    assert(m03 * (m20 * (m11 * m32)) == m20 * (m11 * (m03 * m32))) by (nonlinear_arith);
    assert(m03 * (m20 * (m12 * m31)) == m20 * (m31 * (m03 * m12))) by (nonlinear_arith);
    assert(m03 * (m30 * (m11 * m22)) == m30 * (m11 * (m03 * m22))) by (nonlinear_arith);
    assert(m03 * (m30 * (m12 * m21)) == m30 * (m21 * (m03 * m12))) by (nonlinear_arith);
    assert(m13 * (m00 * (m21 * m32)) == m00 * (m21 * (m13 * m32))) by (nonlinear_arith);
    assert(m13 * (m00 * (m22 * m31)) == m00 * (m31 * (m13 * m22))) by (nonlinear_arith);
    assert(m13 * (m20 * (m01 * m32)) == m20 * (m01 * (m13 * m32))) by (nonlinear_arith);
    assert(m13 * (m20 * (m02 * m31)) == m20 * (m31 * (m02 * m13))) by (nonlinear_arith);
    assert(m13 * (m30 * (m01 * m22)) == m30 * (m01 * (m13 * m22))) by (nonlinear_arith);
    assert(m13 * (m30 * (m02 * m21)) == m30 * (m21 * (m02 * m13))) by (nonlinear_arith);
    assert(m23 * (m00 * (m11 * m32)) == m00 * (m11 * (m23 * m32))) by (nonlinear_arith);
    assert(m23 * (m00 * (m12 * m31)) == m00 * (m31 * (m12 * m23))) by (nonlinear_arith);
    assert(m23 * (m10 * (m01 * m32)) == m10 * (m01 * (m23 * m32))) by (nonlinear_arith);
    assert(m23 * (m10 * (m02 * m31)) == m10 * (m31 * (m02 * m23))) by (nonlinear_arith);
    assert(m23 * (m30 * (m01 * m12)) == m30 * (m01 * (m12 * m23))) by (nonlinear_arith);
    assert(m23 * (m30 * (m02 * m11)) == m30 * (m11 * (m02 * m23))) by (nonlinear_arith);
    assert(m33 * (m00 * (m11 * m22)) == m00 * (m11 * (m22 * m33))) by (nonlinear_arith);
    assert(m33 * (m00 * (m12 * m21)) == m00 * (m21 * (m12 * m33))) by (nonlinear_arith);
    assert(m33 * (m10 * (m01 * m22)) == m10 * (m01 * (m22 * m33))) by (nonlinear_arith);
    assert(m33 * (m10 * (m02 * m21)) == m10 * (m21 * (m02 * m33))) by (nonlinear_arith);
    assert(m33 * (m20 * (m01 * m12)) == m20 * (m01 * (m12 * m33))) by (nonlinear_arith);
    assert(m33 * (m20 * (m02 * m11)) == m20 * (m11 * (m02 * m33))) by (nonlinear_arith);
}

/// The column 0 against the cofactors of the column 0.
pub proof fn lemma_det4_value_left_0_0(
    m00: int,
    m01: int,
    m02: int,
    m03: int,
    m10: int,
    m11: int,
    m12: int,
    m13: int,
    m20: int,
    m21: int,
    m22: int,
    m23: int,
    m30: int,
    m31: int,
    m32: int,
    m33: int,
)
    ensures
        (((det3_value(m11, m12, m13, m21, m22, m23, m31, m32, m33) * m00) + ((-det3_value(m10, m12,
            m13, m20, m22, m23, m30, m32, m33)) * m01)) + (det3_value(m10, m11, m13, m20, m21, m23,
            m30, m31, m33) * m02)) + ((-det3_value(m10, m11, m12, m20, m21, m22, m30, m31,
            m32)) * m03) == det4_value(m00, m01, m02, m03, m10, m11, m12, m13, m20, m21, m22, m23,
            m30, m31, m32, m33),
{
    assert(det3_value(m11, m12, m13, m21, m22, m23, m31, m32, m33) * m00 == m00 * det3_value(m11,
        m12, m13, m21, m22, m23, m31, m32, m33)) by (nonlinear_arith);
    lemma_mul_det3_value_expanded(m00, m11, m12, m13, m21, m22, m23, m31, m32, m33);
    assert((-det3_value(m10, m12, m13, m20, m22, m23, m30, m32, m33)) * m01
        == -(m01 * det3_value(m10, m12, m13, m20, m22, m23, m30, m32, m33))) by (nonlinear_arith);
    lemma_mul_det3_value_expanded(m01, m10, m12, m13, m20, m22, m23, m30, m32, m33);
    assert(det3_value(m10, m11, m13, m20, m21, m23, m30, m31, m33) * m02 == m02 * det3_value(m10,
        m11, m13, m20, m21, m23, m30, m31, m33)) by (nonlinear_arith);
    lemma_mul_det3_value_expanded(m02, m10, m11, m13, m20, m21, m23, m30, m31, m33);
    assert((-det3_value(m10, m11, m12, m20, m21, m22, m30, m31, m32)) * m03
        == -(m03 * det3_value(m10, m11, m12, m20, m21, m22, m30, m31, m32))) by (nonlinear_arith);
    lemma_mul_det3_value_expanded(m03, m10, m11, m12, m20, m21, m22, m30, m31, m32);
    lemma_det4_value_expanded(m00, m01, m02, m03, m10, m11, m12, m13, m20, m21, m22, m23, m30, m31,
        m32, m33);
    assert(m01 * (m10 * (m22 * m33)) == m10 * (m01 * (m22 * m33))) by (nonlinear_arith);
    assert(m01 * (m10 * (m23 * m32)) == m10 * (m01 * (m23 * m32))) by (nonlinear_arith);
    assert(m01 * (m20 * (m12 * m33)) == m20 * (m01 * (m12 * m33))) by (nonlinear_arith);
    assert(m01 * (m20 * (m13 * m32)) == m20 * (m01 * (m13 * m32))) by (nonlinear_arith);
    assert(m01 * (m30 * (m12 * m23)) == m30 * (m01 * (m12 * m23))) by (nonlinear_arith);
    assert(m01 * (m30 * (m13 * m22)) == m30 * (m01 * (m13 * m22))) by (nonlinear_arith);
    assert(m02 * (m10 * (m21 * m33)) == m10 * (m21 * (m02 * m33))) by (nonlinear_arith);
    assert(m02 * (m10 * (m23 * m31)) == m10 * (m31 * (m02 * m23))) by (nonlinear_arith);
    assert(m02 * (m20 * (m11 * m33)) == m20 * (m11 * (m02 * m33))) by (nonlinear_arith);
    assert(m02 * (m20 * (m13 * m31)) == m20 * (m31 * (m02 * m13))) by (nonlinear_arith);
    assert(m02 * (m30 * (m11 * m23)) == m30 * (m11 * (m02 * m23))) by (nonlinear_arith);
    assert(m02 * (m30 * (m13 * m21)) == m30 * (m21 * (m02 * m13))) by (nonlinear_arith);
    assert(m03 * (m10 * (m21 * m32)) == m10 * (m21 * (m03 * m32))) by (nonlinear_arith);
    assert(m03 * (m10 * (m22 * m31)) == m10 * (m31 * (m03 * m22))) by (nonlinear_arith);
    assert(m03 * (m20 * (m11 * m32)) == m20 * (m11 * (m03 * m32))) by (nonlinear_arith);
    assert(m03 * (m20 * (m12 * m31)) == m20 * (m31 * (m03 * m12))) by (nonlinear_arith);
    assert(m03 * (m30 * (m11 * m22)) == m30 * (m11 * (m03 * m22))) by (nonlinear_arith);
    assert(m03 * (m30 * (m12 * m21)) == m30 * (m21 * (m03 * m12))) by (nonlinear_arith);
}

/// The column 0 against the cofactors of the column 1.
pub proof fn lemma_det4_value_left_0_1(
    m00: int,
    m01: int,
    m02: int,
    m03: int,
    m10: int,
    m11: int,
    m12: int,
    m13: int,
    m20: int,
    m21: int,
    m22: int,
    m23: int,
    m30: int,
    m31: int,
    m32: int,
    m33: int,
)
    ensures
        ((((-det3_value(m01, m02, m03, m21, m22, m23, m31, m32, m33)) * m00) + (det3_value(m00,
            m02, m03, m20, m22, m23, m30, m32, m33) * m01)) + ((-det3_value(m00, m01, m03, m20,
            m21, m23, m30, m31, m33)) * m02)) + (det3_value(m00, m01, m02, m20, m21, m22, m30, m31,
            m32) * m03) == 0,
{
    assert((-det3_value(m01, m02, m03, m21, m22, m23, m31, m32, m33)) * m00
        == -(m00 * det3_value(m01, m02, m03, m21, m22, m23, m31, m32, m33))) by (nonlinear_arith);
    lemma_mul_det3_value_expanded(m00, m01, m02, m03, m21, m22, m23, m31, m32, m33);
    assert(det3_value(m00, m02, m03, m20, m22, m23, m30, m32, m33) * m01 == m01 * det3_value(m00,
        m02, m03, m20, m22, m23, m30, m32, m33)) by (nonlinear_arith);
    lemma_mul_det3_value_expanded(m01, m00, m02, m03, m20, m22, m23, m30, m32, m33);
    assert((-det3_value(m00, m01, m03, m20, m21, m23, m30, m31, m33)) * m02
        == -(m02 * det3_value(m00, m01, m03, m20, m21, m23, m30, m31, m33))) by (nonlinear_arith);
    lemma_mul_det3_value_expanded(m02, m00, m01, m03, m20, m21, m23, m30, m31, m33);
    assert(det3_value(m00, m01, m02, m20, m21, m22, m30, m31, m32) * m03 == m03 * det3_value(m00,
        m01, m02, m20, m21, m22, m30, m31, m32)) by (nonlinear_arith);
    lemma_mul_det3_value_expanded(m03, m00, m01, m02, m20, m21, m22, m30, m31, m32);
    assert(m01 * (m00 * (m22 * m33)) == m00 * (m01 * (m22 * m33))) by (nonlinear_arith);
    assert(m00 * (m01 * (m23 * m32)) == m01 * (m00 * (m23 * m32))) by (nonlinear_arith);
    assert(m00 * (m21 * (m02 * m33)) == m02 * (m00 * (m21 * m33))) by (nonlinear_arith);
    assert(m03 * (m00 * (m21 * m32)) == m00 * (m21 * (m03 * m32))) by (nonlinear_arith);
    assert(m02 * (m00 * (m23 * m31)) == m00 * (m31 * (m02 * m23))) by (nonlinear_arith);
    assert(m00 * (m31 * (m03 * m22)) == m03 * (m00 * (m22 * m31))) by (nonlinear_arith);
    assert(m02 * (m20 * (m01 * m33)) == m01 * (m20 * (m02 * m33))) by (nonlinear_arith);
    assert(m01 * (m20 * (m03 * m32)) == m03 * (m20 * (m01 * m32))) by (nonlinear_arith);
    assert(m01 * (m30 * (m02 * m23)) == m02 * (m30 * (m01 * m23))) by (nonlinear_arith);
    assert(m03 * (m30 * (m01 * m22)) == m01 * (m30 * (m03 * m22))) by (nonlinear_arith);
    assert(m03 * (m20 * (m02 * m31)) == m02 * (m20 * (m03 * m31))) by (nonlinear_arith);
    assert(m02 * (m30 * (m03 * m21)) == m03 * (m30 * (m02 * m21))) by (nonlinear_arith);
}

/// The column 0 against the cofactors of the column 2.
pub proof fn lemma_det4_value_left_0_2(
    m00: int,
    m01: int,
    m02: int,
    m03: int,
    m10: int,
    m11: int,
    m12: int,
    m13: int,
    m20: int,
    m21: int,
    m22: int,
    m23: int,
    m30: int,
    m31: int,
    m32: int,
    m33: int,
)
    ensures
        (((det3_value(m01, m02, m03, m11, m12, m13, m31, m32, m33) * m00) + ((-det3_value(m00, m02,
            m03, m10, m12, m13, m30, m32, m33)) * m01)) + (det3_value(m00, m01, m03, m10, m11, m13,
            m30, m31, m33) * m02)) + ((-det3_value(m00, m01, m02, m10, m11, m12, m30, m31,
            m32)) * m03) == 0,
{
    assert(det3_value(m01, m02, m03, m11, m12, m13, m31, m32, m33) * m00 == m00 * det3_value(m01,
        m02, m03, m11, m12, m13, m31, m32, m33)) by (nonlinear_arith);
    lemma_mul_det3_value_expanded(m00, m01, m02, m03, m11, m12, m13, m31, m32, m33);
    assert((-det3_value(m00, m02, m03, m10, m12, m13, m30, m32, m33)) * m01
        == -(m01 * det3_value(m00, m02, m03, m10, m12, m13, m30, m32, m33))) by (nonlinear_arith);
    lemma_mul_det3_value_expanded(m01, m00, m02, m03, m10, m12, m13, m30, m32, m33);
    assert(det3_value(m00, m01, m03, m10, m11, m13, m30, m31, m33) * m02 == m02 * det3_value(m00,
        m01, m03, m10, m11, m13, m30, m31, m33)) by (nonlinear_arith);
    lemma_mul_det3_value_expanded(m02, m00, m01, m03, m10, m11, m13, m30, m31, m33);
    assert((-det3_value(m00, m01, m02, m10, m11, m12, m30, m31, m32)) * m03
        == -(m03 * det3_value(m00, m01, m02, m10, m11, m12, m30, m31, m32))) by (nonlinear_arith);
    lemma_mul_det3_value_expanded(m03, m00, m01, m02, m10, m11, m12, m30, m31, m32);
    assert(m00 * (m01 * (m12 * m33)) == m01 * (m00 * (m12 * m33))) by (nonlinear_arith);
    assert(m01 * (m00 * (m13 * m32)) == m00 * (m01 * (m13 * m32))) by (nonlinear_arith);
    assert(m02 * (m00 * (m11 * m33)) == m00 * (m11 * (m02 * m33))) by (nonlinear_arith);
    assert(m00 * (m11 * (m03 * m32)) == m03 * (m00 * (m11 * m32))) by (nonlinear_arith);
    assert(m00 * (m31 * (m02 * m13)) == m02 * (m00 * (m13 * m31))) by (nonlinear_arith);
    assert(m03 * (m00 * (m12 * m31)) == m00 * (m31 * (m03 * m12))) by (nonlinear_arith);
    assert(m01 * (m10 * (m02 * m33)) == m02 * (m10 * (m01 * m33))) by (nonlinear_arith);
    assert(m03 * (m10 * (m01 * m32)) == m01 * (m10 * (m03 * m32))) by (nonlinear_arith);
    assert(m02 * (m30 * (m01 * m13)) == m01 * (m30 * (m02 * m13))) by (nonlinear_arith);
    assert(m01 * (m30 * (m03 * m12)) == m03 * (m30 * (m01 * m12))) by (nonlinear_arith);
    assert(m02 * (m10 * (m03 * m31)) == m03 * (m10 * (m02 * m31))) by (nonlinear_arith);
    assert(m03 * (m30 * (m02 * m11)) == m02 * (m30 * (m03 * m11))) by (nonlinear_arith);
}

/// The column 0 against the cofactors of the column 3.
pub proof fn lemma_det4_value_left_0_3(
    m00: int,
    m01: int,
    m02: int,
    m03: int,
    m10: int,
    m11: int,
    m12: int,
    m13: int,
    m20: int,
    m21: int,
    m22: int,
    m23: int,
    m30: int,
    m31: int,
    m32: int,
    m33: int,
)
    ensures
        ((((-det3_value(m01, m02, m03, m11, m12, m13, m21, m22, m23)) * m00) + (det3_value(m00,
            m02, m03, m10, m12, m13, m20, m22, m23) * m01)) + ((-det3_value(m00, m01, m03, m10,
            m11, m13, m20, m21, m23)) * m02)) + (det3_value(m00, m01, m02, m10, m11, m12, m20, m21,
            m22) * m03) == 0,
{
    assert((-det3_value(m01, m02, m03, m11, m12, m13, m21, m22, m23)) * m00
        == -(m00 * det3_value(m01, m02, m03, m11, m12, m13, m21, m22, m23))) by (nonlinear_arith);
    lemma_mul_det3_value_expanded(m00, m01, m02, m03, m11, m12, m13, m21, m22, m23);
    assert(det3_value(m00, m02, m03, m10, m12, m13, m20, m22, m23) * m01 == m01 * det3_value(m00,
        m02, m03, m10, m12, m13, m20, m22, m23)) by (nonlinear_arith);
    lemma_mul_det3_value_expanded(m01, m00, m02, m03, m10, m12, m13, m20, m22, m23);
    assert((-det3_value(m00, m01, m03, m10, m11, m13, m20, m21, m23)) * m02
        == -(m02 * det3_value(m00, m01, m03, m10, m11, m13, m20, m21, m23))) by (nonlinear_arith);
    lemma_mul_det3_value_expanded(m02, m00, m01, m03, m10, m11, m13, m20, m21, m23);
    assert(det3_value(m00, m01, m02, m10, m11, m12, m20, m21, m22) * m03 == m03 * det3_value(m00,
        m01, m02, m10, m11, m12, m20, m21, m22)) by (nonlinear_arith);
    lemma_mul_det3_value_expanded(m03, m00, m01, m02, m10, m11, m12, m20, m21, m22);
    assert(m01 * (m00 * (m12 * m23)) == m00 * (m01 * (m12 * m23))) by (nonlinear_arith);
    assert(m00 * (m01 * (m13 * m22)) == m01 * (m00 * (m13 * m22))) by (nonlinear_arith);
    assert(m00 * (m11 * (m02 * m23)) == m02 * (m00 * (m11 * m23))) by (nonlinear_arith);
    assert(m03 * (m00 * (m11 * m22)) == m00 * (m11 * (m03 * m22))) by (nonlinear_arith);
    assert(m02 * (m00 * (m13 * m21)) == m00 * (m21 * (m02 * m13))) by (nonlinear_arith);
    assert(m00 * (m21 * (m03 * m12)) == m03 * (m00 * (m12 * m21))) by (nonlinear_arith);
    assert(m02 * (m10 * (m01 * m23)) == m01 * (m10 * (m02 * m23))) by (nonlinear_arith);
    assert(m01 * (m10 * (m03 * m22)) == m03 * (m10 * (m01 * m22))) by (nonlinear_arith);
    assert(m01 * (m20 * (m02 * m13)) == m02 * (m20 * (m01 * m13))) by (nonlinear_arith);
    assert(m03 * (m20 * (m01 * m12)) == m01 * (m20 * (m03 * m12))) by (nonlinear_arith);
    assert(m03 * (m10 * (m02 * m21)) == m02 * (m10 * (m03 * m21))) by (nonlinear_arith);
    assert(m02 * (m20 * (m03 * m11)) == m03 * (m20 * (m02 * m11))) by (nonlinear_arith);
}

/// The column 1 against the cofactors of the column 0.
pub proof fn lemma_det4_value_left_1_0(
    m00: int,
    m01: int,
    m02: int,
    m03: int,
    m10: int,
    m11: int,
    m12: int,
    m13: int,
    m20: int,
    m21: int,
    m22: int,
    m23: int,
    m30: int,
    m31: int,
    m32: int,
    m33: int,
)
    ensures
        (((det3_value(m11, m12, m13, m21, m22, m23, m31, m32, m33) * m10) + ((-det3_value(m10, m12,
            m13, m20, m22, m23, m30, m32, m33)) * m11)) + (det3_value(m10, m11, m13, m20, m21, m23,
            m30, m31, m33) * m12)) + ((-det3_value(m10, m11, m12, m20, m21, m22, m30, m31,
            m32)) * m13) == 0,
{
    assert(det3_value(m11, m12, m13, m21, m22, m23, m31, m32, m33) * m10 == m10 * det3_value(m11,
        m12, m13, m21, m22, m23, m31, m32, m33)) by (nonlinear_arith);
    lemma_mul_det3_value_expanded(m10, m11, m12, m13, m21, m22, m23, m31, m32, m33);
    assert((-det3_value(m10, m12, m13, m20, m22, m23, m30, m32, m33)) * m11
        == -(m11 * det3_value(m10, m12, m13, m20, m22, m23, m30, m32, m33))) by (nonlinear_arith);
    lemma_mul_det3_value_expanded(m11, m10, m12, m13, m20, m22, m23, m30, m32, m33);
    assert(det3_value(m10, m11, m13, m20, m21, m23, m30, m31, m33) * m12 == m12 * det3_value(m10,
        m11, m13, m20, m21, m23, m30, m31, m33)) by (nonlinear_arith);
    lemma_mul_det3_value_expanded(m12, m10, m11, m13, m20, m21, m23, m30, m31, m33);
    assert((-det3_value(m10, m11, m12, m20, m21, m22, m30, m31, m32)) * m13
        == -(m13 * det3_value(m10, m11, m12, m20, m21, m22, m30, m31, m32))) by (nonlinear_arith);
    lemma_mul_det3_value_expanded(m13, m10, m11, m12, m20, m21, m22, m30, m31, m32);
    assert(m10 * (m11 * (m22 * m33)) == m11 * (m10 * (m22 * m33))) by (nonlinear_arith);
    assert(m11 * (m10 * (m23 * m32)) == m10 * (m11 * (m23 * m32))) by (nonlinear_arith);
    assert(m12 * (m10 * (m21 * m33)) == m10 * (m21 * (m12 * m33))) by (nonlinear_arith);
    assert(m10 * (m21 * (m13 * m32)) == m13 * (m10 * (m21 * m32))) by (nonlinear_arith);
    assert(m10 * (m31 * (m12 * m23)) == m12 * (m10 * (m23 * m31))) by (nonlinear_arith);
    assert(m13 * (m10 * (m22 * m31)) == m10 * (m31 * (m13 * m22))) by (nonlinear_arith);
    assert(m11 * (m20 * (m12 * m33)) == m12 * (m20 * (m11 * m33))) by (nonlinear_arith);
    assert(m13 * (m20 * (m11 * m32)) == m11 * (m20 * (m13 * m32))) by (nonlinear_arith);
    assert(m12 * (m30 * (m11 * m23)) == m11 * (m30 * (m12 * m23))) by (nonlinear_arith);
    assert(m11 * (m30 * (m13 * m22)) == m13 * (m30 * (m11 * m22))) by (nonlinear_arith);
    assert(m12 * (m20 * (m13 * m31)) == m13 * (m20 * (m12 * m31))) by (nonlinear_arith);
    assert(m13 * (m30 * (m12 * m21)) == m12 * (m30 * (m13 * m21))) by (nonlinear_arith);
}

/// The column 1 against the cofactors of the column 1.
pub proof fn lemma_det4_value_left_1_1(
    m00: int,
    m01: int,
    m02: int,
    m03: int,
    m10: int,
    m11: int,
    m12: int,
    m13: int,
    m20: int,
    m21: int,
    m22: int,
    m23: int,
    m30: int,
    m31: int,
    m32: int,
    m33: int,
)
    ensures
        ((((-det3_value(m01, m02, m03, m21, m22, m23, m31, m32, m33)) * m10) + (det3_value(m00,
            m02, m03, m20, m22, m23, m30, m32, m33) * m11)) + ((-det3_value(m00, m01, m03, m20,
            m21, m23, m30, m31, m33)) * m12)) + (det3_value(m00, m01, m02, m20, m21, m22, m30, m31,
            m32) * m13) == det4_value(m00, m01, m02, m03, m10, m11, m12, m13, m20, m21, m22, m23,
            m30, m31, m32, m33),
{
    assert((-det3_value(m01, m02, m03, m21, m22, m23, m31, m32, m33)) * m10
        == -(m10 * det3_value(m01, m02, m03, m21, m22, m23, m31, m32, m33))) by (nonlinear_arith);
    lemma_mul_det3_value_expanded(m10, m01, m02, m03, m21, m22, m23, m31, m32, m33);
    assert(det3_value(m00, m02, m03, m20, m22, m23, m30, m32, m33) * m11 == m11 * det3_value(m00,
        m02, m03, m20, m22, m23, m30, m32, m33)) by (nonlinear_arith);
    lemma_mul_det3_value_expanded(m11, m00, m02, m03, m20, m22, m23, m30, m32, m33);
    assert((-det3_value(m00, m01, m03, m20, m21, m23, m30, m31, m33)) * m12
        == -(m12 * det3_value(m00, m01, m03, m20, m21, m23, m30, m31, m33))) by (nonlinear_arith);
    lemma_mul_det3_value_expanded(m12, m00, m01, m03, m20, m21, m23, m30, m31, m33);
    assert(det3_value(m00, m01, m02, m20, m21, m22, m30, m31, m32) * m13 == m13 * det3_value(m00,
        m01, m02, m20, m21, m22, m30, m31, m32)) by (nonlinear_arith);
    lemma_mul_det3_value_expanded(m13, m00, m01, m02, m20, m21, m22, m30, m31, m32);
    lemma_det4_value_expanded(m00, m01, m02, m03, m10, m11, m12, m13, m20, m21, m22, m23, m30, m31,
        m32, m33);
    assert(m11 * (m00 * (m22 * m33)) == m00 * (m11 * (m22 * m33))) by (nonlinear_arith);
    assert(m11 * (m00 * (m23 * m32)) == m00 * (m11 * (m23 * m32))) by (nonlinear_arith);
    assert(m11 * (m20 * (m02 * m33)) == m20 * (m11 * (m02 * m33))) by (nonlinear_arith);
    assert(m11 * (m20 * (m03 * m32)) == m20 * (m11 * (m03 * m32))) by (nonlinear_arith);
    assert(m11 * (m30 * (m02 * m23)) == m30 * (m11 * (m02 * m23))) by (nonlinear_arith);
    assert(m11 * (m30 * (m03 * m22)) == m30 * (m11 * (m03 * m22))) by (nonlinear_arith);
    assert(m12 * (m00 * (m21 * m33)) == m00 * (m21 * (m12 * m33))) by (nonlinear_arith);
    assert(m12 * (m00 * (m23 * m31)) == m00 * (m31 * (m12 * m23))) by (nonlinear_arith);
    assert(m12 * (m20 * (m01 * m33)) == m20 * (m01 * (m12 * m33))) by (nonlinear_arith);
    assert(m12 * (m20 * (m03 * m31)) == m20 * (m31 * (m03 * m12))) by (nonlinear_arith);
    assert(m12 * (m30 * (m01 * m23)) == m30 * (m01 * (m12 * m23))) by (nonlinear_arith);
    assert(m12 * (m30 * (m03 * m21)) == m30 * (m21 * (m03 * m12))) by (nonlinear_arith);
    assert(m13 * (m00 * (m21 * m32)) == m00 * (m21 * (m13 * m32))) by (nonlinear_arith);
    assert(m13 * (m00 * (m22 * m31)) == m00 * (m31 * (m13 * m22))) by (nonlinear_arith);
    assert(m13 * (m20 * (m01 * m32)) == m20 * (m01 * (m13 * m32))) by (nonlinear_arith);
    assert(m13 * (m20 * (m02 * m31)) == m20 * (m31 * (m02 * m13))) by (nonlinear_arith);
    assert(m13 * (m30 * (m01 * m22)) == m30 * (m01 * (m13 * m22))) by (nonlinear_arith);
    assert(m13 * (m30 * (m02 * m21)) == m30 * (m21 * (m02 * m13))) by (nonlinear_arith);
}

/// The column 1 against the cofactors of the column 2.
pub proof fn lemma_det4_value_left_1_2(
    m00: int,
    m01: int,
    m02: int,
    m03: int,
    m10: int,
    m11: int,
    m12: int,
    m13: int,
    m20: int,
    m21: int,
    m22: int,
    m23: int,
    m30: int,
    m31: int,
    m32: int,
    m33: int,
)
    ensures
        (((det3_value(m01, m02, m03, m11, m12, m13, m31, m32, m33) * m10) + ((-det3_value(m00, m02,
            m03, m10, m12, m13, m30, m32, m33)) * m11)) + (det3_value(m00, m01, m03, m10, m11, m13,
            m30, m31, m33) * m12)) + ((-det3_value(m00, m01, m02, m10, m11, m12, m30, m31,
            m32)) * m13) == 0,
{
    assert(det3_value(m01, m02, m03, m11, m12, m13, m31, m32, m33) * m10 == m10 * det3_value(m01,
        m02, m03, m11, m12, m13, m31, m32, m33)) by (nonlinear_arith);
    lemma_mul_det3_value_expanded(m10, m01, m02, m03, m11, m12, m13, m31, m32, m33);
    assert((-det3_value(m00, m02, m03, m10, m12, m13, m30, m32, m33)) * m11
        == -(m11 * det3_value(m00, m02, m03, m10, m12, m13, m30, m32, m33))) by (nonlinear_arith);
    lemma_mul_det3_value_expanded(m11, m00, m02, m03, m10, m12, m13, m30, m32, m33);
    assert(det3_value(m00, m01, m03, m10, m11, m13, m30, m31, m33) * m12 == m12 * det3_value(m00,
        m01, m03, m10, m11, m13, m30, m31, m33)) by (nonlinear_arith);
    lemma_mul_det3_value_expanded(m12, m00, m01, m03, m10, m11, m13, m30, m31, m33);
    assert((-det3_value(m00, m01, m02, m10, m11, m12, m30, m31, m32)) * m13
        == -(m13 * det3_value(m00, m01, m02, m10, m11, m12, m30, m31, m32))) by (nonlinear_arith);
    lemma_mul_det3_value_expanded(m13, m00, m01, m02, m10, m11, m12, m30, m31, m32);
    assert(m10 * (m01 * (m12 * m33)) == m12 * (m10 * (m01 * m33))) by (nonlinear_arith);
    assert(m13 * (m10 * (m01 * m32)) == m10 * (m01 * (m13 * m32))) by (nonlinear_arith);
    assert(m11 * (m10 * (m02 * m33)) == m10 * (m11 * (m02 * m33))) by (nonlinear_arith);
    assert(m10 * (m11 * (m03 * m32)) == m11 * (m10 * (m03 * m32))) by (nonlinear_arith);
    assert(m10 * (m31 * (m02 * m13)) == m13 * (m10 * (m02 * m31))) by (nonlinear_arith);
    assert(m12 * (m10 * (m03 * m31)) == m10 * (m31 * (m03 * m12))) by (nonlinear_arith);
    assert(m12 * (m00 * (m11 * m33)) == m11 * (m00 * (m12 * m33))) by (nonlinear_arith);
    assert(m11 * (m00 * (m13 * m32)) == m13 * (m00 * (m11 * m32))) by (nonlinear_arith);
    assert(m13 * (m30 * (m02 * m11)) == m11 * (m30 * (m02 * m13))) by (nonlinear_arith);
    assert(m11 * (m30 * (m03 * m12)) == m12 * (m30 * (m03 * m11))) by (nonlinear_arith);
    assert(m13 * (m00 * (m12 * m31)) == m12 * (m00 * (m13 * m31))) by (nonlinear_arith);
    assert(m12 * (m30 * (m01 * m13)) == m13 * (m30 * (m01 * m12))) by (nonlinear_arith);
}

/// The column 1 against the cofactors of the column 3.
pub proof fn lemma_det4_value_left_1_3(
    m00: int,
    m01: int,
    m02: int,
    m03: int,
    m10: int,
    m11: int,
    m12: int,
    m13: int,
    m20: int,
    m21: int,
    m22: int,
    m23: int,
    m30: int,
    m31: int,
    m32: int,
    m33: int,
)
    ensures
        ((((-det3_value(m01, m02, m03, m11, m12, m13, m21, m22, m23)) * m10) + (det3_value(m00,
            m02, m03, m10, m12, m13, m20, m22, m23) * m11)) + ((-det3_value(m00, m01, m03, m10,
            m11, m13, m20, m21, m23)) * m12)) + (det3_value(m00, m01, m02, m10, m11, m12, m20, m21,
            m22) * m13) == 0,
{
    assert((-det3_value(m01, m02, m03, m11, m12, m13, m21, m22, m23)) * m10
        == -(m10 * det3_value(m01, m02, m03, m11, m12, m13, m21, m22, m23))) by (nonlinear_arith);
    lemma_mul_det3_value_expanded(m10, m01, m02, m03, m11, m12, m13, m21, m22, m23);
    assert(det3_value(m00, m02, m03, m10, m12, m13, m20, m22, m23) * m11 == m11 * det3_value(m00,
        m02, m03, m10, m12, m13, m20, m22, m23)) by (nonlinear_arith);
    lemma_mul_det3_value_expanded(m11, m00, m02, m03, m10, m12, m13, m20, m22, m23);
    assert((-det3_value(m00, m01, m03, m10, m11, m13, m20, m21, m23)) * m12
        == -(m12 * det3_value(m00, m01, m03, m10, m11, m13, m20, m21, m23))) by (nonlinear_arith);
    lemma_mul_det3_value_expanded(m12, m00, m01, m03, m10, m11, m13, m20, m21, m23);
    assert(det3_value(m00, m01, m02, m10, m11, m12, m20, m21, m22) * m13 == m13 * det3_value(m00,
        m01, m02, m10, m11, m12, m20, m21, m22)) by (nonlinear_arith);
    lemma_mul_det3_value_expanded(m13, m00, m01, m02, m10, m11, m12, m20, m21, m22);
    assert(m12 * (m10 * (m01 * m23)) == m10 * (m01 * (m12 * m23))) by (nonlinear_arith);
    assert(m10 * (m01 * (m13 * m22)) == m13 * (m10 * (m01 * m22))) by (nonlinear_arith);
    assert(m10 * (m11 * (m02 * m23)) == m11 * (m10 * (m02 * m23))) by (nonlinear_arith);
    assert(m11 * (m10 * (m03 * m22)) == m10 * (m11 * (m03 * m22))) by (nonlinear_arith);
    assert(m13 * (m10 * (m02 * m21)) == m10 * (m21 * (m02 * m13))) by (nonlinear_arith);
    assert(m10 * (m21 * (m03 * m12)) == m12 * (m10 * (m03 * m21))) by (nonlinear_arith);
    assert(m11 * (m00 * (m12 * m23)) == m12 * (m00 * (m11 * m23))) by (nonlinear_arith);
    assert(m13 * (m00 * (m11 * m22)) == m11 * (m00 * (m13 * m22))) by (nonlinear_arith);
    assert(m11 * (m20 * (m02 * m13)) == m13 * (m20 * (m02 * m11))) by (nonlinear_arith);
    assert(m12 * (m20 * (m03 * m11)) == m11 * (m20 * (m03 * m12))) by (nonlinear_arith);
    assert(m12 * (m00 * (m13 * m21)) == m13 * (m00 * (m12 * m21))) by (nonlinear_arith);
    assert(m13 * (m20 * (m01 * m12)) == m12 * (m20 * (m01 * m13))) by (nonlinear_arith);
}

/// The column 2 against the cofactors of the column 0.
pub proof fn lemma_det4_value_left_2_0(
    m00: int,
    m01: int,
    m02: int,
    m03: int,
    m10: int,
    m11: int,
    m12: int,
    m13: int,
    m20: int,
    m21: int,
    m22: int,
    m23: int,
    m30: int,
    m31: int,
    m32: int,
    m33: int,
)
    ensures
        (((det3_value(m11, m12, m13, m21, m22, m23, m31, m32, m33) * m20) + ((-det3_value(m10, m12,
            m13, m20, m22, m23, m30, m32, m33)) * m21)) + (det3_value(m10, m11, m13, m20, m21, m23,
            m30, m31, m33) * m22)) + ((-det3_value(m10, m11, m12, m20, m21, m22, m30, m31,
            m32)) * m23) == 0,
{
    assert(det3_value(m11, m12, m13, m21, m22, m23, m31, m32, m33) * m20 == m20 * det3_value(m11,
        m12, m13, m21, m22, m23, m31, m32, m33)) by (nonlinear_arith);
    lemma_mul_det3_value_expanded(m20, m11, m12, m13, m21, m22, m23, m31, m32, m33);
    assert((-det3_value(m10, m12, m13, m20, m22, m23, m30, m32, m33)) * m21
        == -(m21 * det3_value(m10, m12, m13, m20, m22, m23, m30, m32, m33))) by (nonlinear_arith);
    lemma_mul_det3_value_expanded(m21, m10, m12, m13, m20, m22, m23, m30, m32, m33);
    assert(det3_value(m10, m11, m13, m20, m21, m23, m30, m31, m33) * m22 == m22 * det3_value(m10,
        m11, m13, m20, m21, m23, m30, m31, m33)) by (nonlinear_arith);
    lemma_mul_det3_value_expanded(m22, m10, m11, m13, m20, m21, m23, m30, m31, m33);
    assert((-det3_value(m10, m11, m12, m20, m21, m22, m30, m31, m32)) * m23
        == -(m23 * det3_value(m10, m11, m12, m20, m21, m22, m30, m31, m32))) by (nonlinear_arith);
    lemma_mul_det3_value_expanded(m23, m10, m11, m12, m20, m21, m22, m30, m31, m32);
    assert(m20 * (m11 * (m22 * m33)) == m22 * (m20 * (m11 * m33))) by (nonlinear_arith);
    assert(m23 * (m20 * (m11 * m32)) == m20 * (m11 * (m23 * m32))) by (nonlinear_arith);
    assert(m21 * (m20 * (m12 * m33)) == m20 * (m21 * (m12 * m33))) by (nonlinear_arith);
    assert(m20 * (m21 * (m13 * m32)) == m21 * (m20 * (m13 * m32))) by (nonlinear_arith);
    assert(m20 * (m31 * (m12 * m23)) == m23 * (m20 * (m12 * m31))) by (nonlinear_arith);
    assert(m22 * (m20 * (m13 * m31)) == m20 * (m31 * (m13 * m22))) by (nonlinear_arith);
    assert(m22 * (m10 * (m21 * m33)) == m21 * (m10 * (m22 * m33))) by (nonlinear_arith);
    assert(m21 * (m10 * (m23 * m32)) == m23 * (m10 * (m21 * m32))) by (nonlinear_arith);
    assert(m23 * (m30 * (m12 * m21)) == m21 * (m30 * (m12 * m23))) by (nonlinear_arith);
    assert(m21 * (m30 * (m13 * m22)) == m22 * (m30 * (m13 * m21))) by (nonlinear_arith);
    assert(m23 * (m10 * (m22 * m31)) == m22 * (m10 * (m23 * m31))) by (nonlinear_arith);
    assert(m22 * (m30 * (m11 * m23)) == m23 * (m30 * (m11 * m22))) by (nonlinear_arith);
}

/// The column 2 against the cofactors of the column 1.
pub proof fn lemma_det4_value_left_2_1(
    m00: int,
    m01: int,
    m02: int,
    m03: int,
    m10: int,
    m11: int,
    m12: int,
    m13: int,
    m20: int,
    m21: int,
    m22: int,
    m23: int,
    m30: int,
    m31: int,
    m32: int,
    m33: int,
)
    ensures
        ((((-det3_value(m01, m02, m03, m21, m22, m23, m31, m32, m33)) * m20) + (det3_value(m00,
            m02, m03, m20, m22, m23, m30, m32, m33) * m21)) + ((-det3_value(m00, m01, m03, m20,
            m21, m23, m30, m31, m33)) * m22)) + (det3_value(m00, m01, m02, m20, m21, m22, m30, m31,
            m32) * m23) == 0,
{
    assert((-det3_value(m01, m02, m03, m21, m22, m23, m31, m32, m33)) * m20
        == -(m20 * det3_value(m01, m02, m03, m21, m22, m23, m31, m32, m33))) by (nonlinear_arith);
    lemma_mul_det3_value_expanded(m20, m01, m02, m03, m21, m22, m23, m31, m32, m33);
    assert(det3_value(m00, m02, m03, m20, m22, m23, m30, m32, m33) * m21 == m21 * det3_value(m00,
        m02, m03, m20, m22, m23, m30, m32, m33)) by (nonlinear_arith);
    lemma_mul_det3_value_expanded(m21, m00, m02, m03, m20, m22, m23, m30, m32, m33);
    assert((-det3_value(m00, m01, m03, m20, m21, m23, m30, m31, m33)) * m22
        == -(m22 * det3_value(m00, m01, m03, m20, m21, m23, m30, m31, m33))) by (nonlinear_arith);
    lemma_mul_det3_value_expanded(m22, m00, m01, m03, m20, m21, m23, m30, m31, m33);
    assert(det3_value(m00, m01, m02, m20, m21, m22, m30, m31, m32) * m23 == m23 * det3_value(m00,
        m01, m02, m20, m21, m22, m30, m31, m32)) by (nonlinear_arith);
    lemma_mul_det3_value_expanded(m23, m00, m01, m02, m20, m21, m22, m30, m31, m32);
    assert(m22 * (m20 * (m01 * m33)) == m20 * (m01 * (m22 * m33))) by (nonlinear_arith);
    assert(m20 * (m01 * (m23 * m32)) == m23 * (m20 * (m01 * m32))) by (nonlinear_arith);
    assert(m20 * (m21 * (m02 * m33)) == m21 * (m20 * (m02 * m33))) by (nonlinear_arith);
    assert(m21 * (m20 * (m03 * m32)) == m20 * (m21 * (m03 * m32))) by (nonlinear_arith);
    assert(m23 * (m20 * (m02 * m31)) == m20 * (m31 * (m02 * m23))) by (nonlinear_arith);
    assert(m20 * (m31 * (m03 * m22)) == m22 * (m20 * (m03 * m31))) by (nonlinear_arith);
    assert(m21 * (m00 * (m22 * m33)) == m22 * (m00 * (m21 * m33))) by (nonlinear_arith);
    assert(m23 * (m00 * (m21 * m32)) == m21 * (m00 * (m23 * m32))) by (nonlinear_arith);
    assert(m21 * (m30 * (m02 * m23)) == m23 * (m30 * (m02 * m21))) by (nonlinear_arith);
    assert(m22 * (m30 * (m03 * m21)) == m21 * (m30 * (m03 * m22))) by (nonlinear_arith);
    assert(m22 * (m00 * (m23 * m31)) == m23 * (m00 * (m22 * m31))) by (nonlinear_arith);
    assert(m23 * (m30 * (m01 * m22)) == m22 * (m30 * (m01 * m23))) by (nonlinear_arith);
}

/// The column 2 against the cofactors of the column 2.
pub proof fn lemma_det4_value_left_2_2(
    m00: int,
    m01: int,
    m02: int,
    m03: int,
    m10: int,
    m11: int,
    m12: int,
    m13: int,
    m20: int,
    m21: int,
    m22: int,
    m23: int,
    m30: int,
    m31: int,
    m32: int,
    m33: int,
)
    ensures
        (((det3_value(m01, m02, m03, m11, m12, m13, m31, m32, m33) * m20) + ((-det3_value(m00, m02,
            m03, m10, m12, m13, m30, m32, m33)) * m21)) + (det3_value(m00, m01, m03, m10, m11, m13,
            m30, m31, m33) * m22)) + ((-det3_value(m00, m01, m02, m10, m11, m12, m30, m31,
            m32)) * m23) == det4_value(m00, m01, m02, m03, m10, m11, m12, m13, m20, m21, m22, m23,
            m30, m31, m32, m33),
{
    assert(det3_value(m01, m02, m03, m11, m12, m13, m31, m32, m33) * m20 == m20 * det3_value(m01,
        m02, m03, m11, m12, m13, m31, m32, m33)) by (nonlinear_arith);
    lemma_mul_det3_value_expanded(m20, m01, m02, m03, m11, m12, m13, m31, m32, m33);
    assert((-det3_value(m00, m02, m03, m10, m12, m13, m30, m32, m33)) * m21
        == -(m21 * det3_value(m00, m02, m03, m10, m12, m13, m30, m32, m33))) by (nonlinear_arith);
    lemma_mul_det3_value_expanded(m21, m00, m02, m03, m10, m12, m13, m30, m32, m33);
    assert(det3_value(m00, m01, m03, m10, m11, m13, m30, m31, m33) * m22 == m22 * det3_value(m00,
        m01, m03, m10, m11, m13, m30, m31, m33)) by (nonlinear_arith);
    lemma_mul_det3_value_expanded(m22, m00, m01, m03, m10, m11, m13, m30, m31, m33);
    assert((-det3_value(m00, m01, m02, m10, m11, m12, m30, m31, m32)) * m23
        == -(m23 * det3_value(m00, m01, m02, m10, m11, m12, m30, m31, m32))) by (nonlinear_arith);
    lemma_mul_det3_value_expanded(m23, m00, m01, m02, m10, m11, m12, m30, m31, m32);
    lemma_det4_value_expanded(m00, m01, m02, m03, m10, m11, m12, m13, m20, m21, m22, m23, m30, m31,
        m32, m33);
    assert(m21 * (m00 * (m12 * m33)) == m00 * (m21 * (m12 * m33))) by (nonlinear_arith);
    assert(m21 * (m00 * (m13 * m32)) == m00 * (m21 * (m13 * m32))) by (nonlinear_arith);
    assert(m21 * (m10 * (m02 * m33)) == m10 * (m21 * (m02 * m33))) by (nonlinear_arith);
    assert(m21 * (m10 * (m03 * m32)) == m10 * (m21 * (m03 * m32))) by (nonlinear_arith);
    assert(m21 * (m30 * (m02 * m13)) == m30 * (m21 * (m02 * m13))) by (nonlinear_arith);
    assert(m21 * (m30 * (m03 * m12)) == m30 * (m21 * (m03 * m12))) by (nonlinear_arith);
    assert(m22 * (m00 * (m11 * m33)) == m00 * (m11 * (m22 * m33))) by (nonlinear_arith);
    assert(m22 * (m00 * (m13 * m31)) == m00 * (m31 * (m13 * m22))) by (nonlinear_arith);
    assert(m22 * (m10 * (m01 * m33)) == m10 * (m01 * (m22 * m33))) by (nonlinear_arith);
    assert(m22 * (m10 * (m03 * m31)) == m10 * (m31 * (m03 * m22))) by (nonlinear_arith);
    assert(m22 * (m30 * (m01 * m13)) == m30 * (m01 * (m13 * m22))) by (nonlinear_arith);
    assert(m22 * (m30 * (m03 * m11)) == m30 * (m11 * (m03 * m22))) by (nonlinear_arith);
    assert(m23 * (m00 * (m11 * m32)) == m00 * (m11 * (m23 * m32))) by (nonlinear_arith);
    assert(m23 * (m00 * (m12 * m31)) == m00 * (m31 * (m12 * m23))) by (nonlinear_arith);
    assert(m23 * (m10 * (m01 * m32)) == m10 * (m01 * (m23 * m32))) by (nonlinear_arith);
    assert(m23 * (m10 * (m02 * m31)) == m10 * (m31 * (m02 * m23))) by (nonlinear_arith);
    assert(m23 * (m30 * (m01 * m12)) == m30 * (m01 * (m12 * m23))) by (nonlinear_arith);
    assert(m23 * (m30 * (m02 * m11)) == m30 * (m11 * (m02 * m23))) by (nonlinear_arith);
}

/// The column 2 against the cofactors of the column 3.
pub proof fn lemma_det4_value_left_2_3(
    m00: int,
    m01: int,
    m02: int,
    m03: int,
    m10: int,
    m11: int,
    m12: int,
    m13: int,
    m20: int,
    m21: int,
    m22: int,
    m23: int,
    m30: int,
    m31: int,
    m32: int,
    m33: int,
)
    ensures
        ((((-det3_value(m01, m02, m03, m11, m12, m13, m21, m22, m23)) * m20) + (det3_value(m00,
            m02, m03, m10, m12, m13, m20, m22, m23) * m21)) + ((-det3_value(m00, m01, m03, m10,
            m11, m13, m20, m21, m23)) * m22)) + (det3_value(m00, m01, m02, m10, m11, m12, m20, m21,
            m22) * m23) == 0,
{
    assert((-det3_value(m01, m02, m03, m11, m12, m13, m21, m22, m23)) * m20
        == -(m20 * det3_value(m01, m02, m03, m11, m12, m13, m21, m22, m23))) by (nonlinear_arith);
    lemma_mul_det3_value_expanded(m20, m01, m02, m03, m11, m12, m13, m21, m22, m23);
    assert(det3_value(m00, m02, m03, m10, m12, m13, m20, m22, m23) * m21 == m21 * det3_value(m00,
        m02, m03, m10, m12, m13, m20, m22, m23)) by (nonlinear_arith);
    lemma_mul_det3_value_expanded(m21, m00, m02, m03, m10, m12, m13, m20, m22, m23);
    assert((-det3_value(m00, m01, m03, m10, m11, m13, m20, m21, m23)) * m22
        == -(m22 * det3_value(m00, m01, m03, m10, m11, m13, m20, m21, m23))) by (nonlinear_arith);
    lemma_mul_det3_value_expanded(m22, m00, m01, m03, m10, m11, m13, m20, m21, m23);
    assert(det3_value(m00, m01, m02, m10, m11, m12, m20, m21, m22) * m23 == m23 * det3_value(m00,
        m01, m02, m10, m11, m12, m20, m21, m22)) by (nonlinear_arith);
    lemma_mul_det3_value_expanded(m23, m00, m01, m02, m10, m11, m12, m20, m21, m22);
    assert(m23 * (m20 * (m01 * m12)) == m20 * (m01 * (m12 * m23))) by (nonlinear_arith);
    assert(m20 * (m01 * (m13 * m22)) == m22 * (m20 * (m01 * m13))) by (nonlinear_arith);
    assert(m20 * (m11 * (m02 * m23)) == m23 * (m20 * (m02 * m11))) by (nonlinear_arith);
    assert(m22 * (m20 * (m03 * m11)) == m20 * (m11 * (m03 * m22))) by (nonlinear_arith);
    assert(m21 * (m20 * (m02 * m13)) == m20 * (m21 * (m02 * m13))) by (nonlinear_arith);
    assert(m20 * (m21 * (m03 * m12)) == m21 * (m20 * (m03 * m12))) by (nonlinear_arith);
    assert(m21 * (m00 * (m12 * m23)) == m23 * (m00 * (m12 * m21))) by (nonlinear_arith);
    assert(m22 * (m00 * (m13 * m21)) == m21 * (m00 * (m13 * m22))) by (nonlinear_arith);
    assert(m23 * (m10 * (m02 * m21)) == m21 * (m10 * (m02 * m23))) by (nonlinear_arith);
    assert(m21 * (m10 * (m03 * m22)) == m22 * (m10 * (m03 * m21))) by (nonlinear_arith);
    assert(m23 * (m00 * (m11 * m22)) == m22 * (m00 * (m11 * m23))) by (nonlinear_arith);
    assert(m22 * (m10 * (m01 * m23)) == m23 * (m10 * (m01 * m22))) by (nonlinear_arith);
}

/// The column 3 against the cofactors of the column 0.
pub proof fn lemma_det4_value_left_3_0(
    m00: int,
    m01: int,
    m02: int,
    m03: int,
    m10: int,
    m11: int,
    m12: int,
    m13: int,
    m20: int,
    m21: int,
    m22: int,
    m23: int,
    m30: int,
    m31: int,
    m32: int,
    m33: int,
)
    ensures
        (((det3_value(m11, m12, m13, m21, m22, m23, m31, m32, m33) * m30) + ((-det3_value(m10, m12,
            m13, m20, m22, m23, m30, m32, m33)) * m31)) + (det3_value(m10, m11, m13, m20, m21, m23,
            m30, m31, m33) * m32)) + ((-det3_value(m10, m11, m12, m20, m21, m22, m30, m31,
            m32)) * m33) == 0,
{
    assert(det3_value(m11, m12, m13, m21, m22, m23, m31, m32, m33) * m30 == m30 * det3_value(m11,
        m12, m13, m21, m22, m23, m31, m32, m33)) by (nonlinear_arith);
    lemma_mul_det3_value_expanded(m30, m11, m12, m13, m21, m22, m23, m31, m32, m33);
    assert((-det3_value(m10, m12, m13, m20, m22, m23, m30, m32, m33)) * m31
        == -(m31 * det3_value(m10, m12, m13, m20, m22, m23, m30, m32, m33))) by (nonlinear_arith);
    lemma_mul_det3_value_expanded(m31, m10, m12, m13, m20, m22, m23, m30, m32, m33);
    assert(det3_value(m10, m11, m13, m20, m21, m23, m30, m31, m33) * m32 == m32 * det3_value(m10,
        m11, m13, m20, m21, m23, m30, m31, m33)) by (nonlinear_arith);
    lemma_mul_det3_value_expanded(m32, m10, m11, m13, m20, m21, m23, m30, m31, m33);
    assert((-det3_value(m10, m11, m12, m20, m21, m22, m30, m31, m32)) * m33
        == -(m33 * det3_value(m10, m11, m12, m20, m21, m22, m30, m31, m32))) by (nonlinear_arith);
    lemma_mul_det3_value_expanded(m33, m10, m11, m12, m20, m21, m22, m30, m31, m32);
    assert(m30 * (m11 * (m22 * m33)) == m33 * (m30 * (m11 * m22))) by (nonlinear_arith);
    assert(m32 * (m30 * (m11 * m23)) == m30 * (m11 * (m23 * m32))) by (nonlinear_arith);
    assert(m33 * (m30 * (m12 * m21)) == m30 * (m21 * (m12 * m33))) by (nonlinear_arith);
    assert(m30 * (m21 * (m13 * m32)) == m32 * (m30 * (m13 * m21))) by (nonlinear_arith);
    assert(m30 * (m31 * (m12 * m23)) == m31 * (m30 * (m12 * m23))) by (nonlinear_arith);
    assert(m31 * (m30 * (m13 * m22)) == m30 * (m31 * (m13 * m22))) by (nonlinear_arith);
    assert(m33 * (m10 * (m22 * m31)) == m31 * (m10 * (m22 * m33))) by (nonlinear_arith);
    assert(m31 * (m10 * (m23 * m32)) == m32 * (m10 * (m23 * m31))) by (nonlinear_arith);
    assert(m31 * (m20 * (m12 * m33)) == m33 * (m20 * (m12 * m31))) by (nonlinear_arith);
    assert(m32 * (m20 * (m13 * m31)) == m31 * (m20 * (m13 * m32))) by (nonlinear_arith);
    assert(m32 * (m10 * (m21 * m33)) == m33 * (m10 * (m21 * m32))) by (nonlinear_arith);
    assert(m33 * (m20 * (m11 * m32)) == m32 * (m20 * (m11 * m33))) by (nonlinear_arith);
}

/// The column 3 against the cofactors of the column 1.
pub proof fn lemma_det4_value_left_3_1(
    m00: int,
    m01: int,
    m02: int,
    m03: int,
    m10: int,
    m11: int,
    m12: int,
    m13: int,
    m20: int,
    m21: int,
    m22: int,
    m23: int,
    m30: int,
    m31: int,
    m32: int,
    m33: int,
)
    ensures
        ((((-det3_value(m01, m02, m03, m21, m22, m23, m31, m32, m33)) * m30) + (det3_value(m00,
            m02, m03, m20, m22, m23, m30, m32, m33) * m31)) + ((-det3_value(m00, m01, m03, m20,
            m21, m23, m30, m31, m33)) * m32)) + (det3_value(m00, m01, m02, m20, m21, m22, m30, m31,
            m32) * m33) == 0,
{
    assert((-det3_value(m01, m02, m03, m21, m22, m23, m31, m32, m33)) * m30
        == -(m30 * det3_value(m01, m02, m03, m21, m22, m23, m31, m32, m33))) by (nonlinear_arith);
    lemma_mul_det3_value_expanded(m30, m01, m02, m03, m21, m22, m23, m31, m32, m33);
    assert(det3_value(m00, m02, m03, m20, m22, m23, m30, m32, m33) * m31 == m31 * det3_value(m00,
        m02, m03, m20, m22, m23, m30, m32, m33)) by (nonlinear_arith);
    lemma_mul_det3_value_expanded(m31, m00, m02, m03, m20, m22, m23, m30, m32, m33);
    assert((-det3_value(m00, m01, m03, m20, m21, m23, m30, m31, m33)) * m32
        == -(m32 * det3_value(m00, m01, m03, m20, m21, m23, m30, m31, m33))) by (nonlinear_arith);
    lemma_mul_det3_value_expanded(m32, m00, m01, m03, m20, m21, m23, m30, m31, m33);
    assert(det3_value(m00, m01, m02, m20, m21, m22, m30, m31, m32) * m33 == m33 * det3_value(m00,
        m01, m02, m20, m21, m22, m30, m31, m32)) by (nonlinear_arith);
    lemma_mul_det3_value_expanded(m33, m00, m01, m02, m20, m21, m22, m30, m31, m32);
    assert(m33 * (m30 * (m01 * m22)) == m30 * (m01 * (m22 * m33))) by (nonlinear_arith);
    assert(m30 * (m01 * (m23 * m32)) == m32 * (m30 * (m01 * m23))) by (nonlinear_arith);
    assert(m30 * (m21 * (m02 * m33)) == m33 * (m30 * (m02 * m21))) by (nonlinear_arith);
    assert(m32 * (m30 * (m03 * m21)) == m30 * (m21 * (m03 * m32))) by (nonlinear_arith);
    assert(m31 * (m30 * (m02 * m23)) == m30 * (m31 * (m02 * m23))) by (nonlinear_arith);
    assert(m30 * (m31 * (m03 * m22)) == m31 * (m30 * (m03 * m22))) by (nonlinear_arith);
    assert(m31 * (m00 * (m22 * m33)) == m33 * (m00 * (m22 * m31))) by (nonlinear_arith);
    assert(m32 * (m00 * (m23 * m31)) == m31 * (m00 * (m23 * m32))) by (nonlinear_arith);
    assert(m33 * (m20 * (m02 * m31)) == m31 * (m20 * (m02 * m33))) by (nonlinear_arith);
    assert(m31 * (m20 * (m03 * m32)) == m32 * (m20 * (m03 * m31))) by (nonlinear_arith);
    assert(m33 * (m00 * (m21 * m32)) == m32 * (m00 * (m21 * m33))) by (nonlinear_arith);
    assert(m32 * (m20 * (m01 * m33)) == m33 * (m20 * (m01 * m32))) by (nonlinear_arith);
}

/// The column 3 against the cofactors of the column 2.
pub proof fn lemma_det4_value_left_3_2(
    m00: int,
    m01: int,
    m02: int,
    m03: int,
    m10: int,
    m11: int,
    m12: int,
    m13: int,
    m20: int,
    m21: int,
    m22: int,
    m23: int,
    m30: int,
    m31: int,
    m32: int,
    m33: int,
)
    ensures
        (((det3_value(m01, m02, m03, m11, m12, m13, m31, m32, m33) * m30) + ((-det3_value(m00, m02,
            m03, m10, m12, m13, m30, m32, m33)) * m31)) + (det3_value(m00, m01, m03, m10, m11, m13,
            m30, m31, m33) * m32)) + ((-det3_value(m00, m01, m02, m10, m11, m12, m30, m31,
            m32)) * m33) == 0,
{
    assert(det3_value(m01, m02, m03, m11, m12, m13, m31, m32, m33) * m30 == m30 * det3_value(m01,
        m02, m03, m11, m12, m13, m31, m32, m33)) by (nonlinear_arith);
    lemma_mul_det3_value_expanded(m30, m01, m02, m03, m11, m12, m13, m31, m32, m33);
    assert((-det3_value(m00, m02, m03, m10, m12, m13, m30, m32, m33)) * m31
        == -(m31 * det3_value(m00, m02, m03, m10, m12, m13, m30, m32, m33))) by (nonlinear_arith);
    lemma_mul_det3_value_expanded(m31, m00, m02, m03, m10, m12, m13, m30, m32, m33);
    assert(det3_value(m00, m01, m03, m10, m11, m13, m30, m31, m33) * m32 == m32 * det3_value(m00,
        m01, m03, m10, m11, m13, m30, m31, m33)) by (nonlinear_arith);
    lemma_mul_det3_value_expanded(m32, m00, m01, m03, m10, m11, m13, m30, m31, m33);
    assert((-det3_value(m00, m01, m02, m10, m11, m12, m30, m31, m32)) * m33
        == -(m33 * det3_value(m00, m01, m02, m10, m11, m12, m30, m31, m32))) by (nonlinear_arith);
    lemma_mul_det3_value_expanded(m33, m00, m01, m02, m10, m11, m12, m30, m31, m32);
    assert(m30 * (m01 * (m12 * m33)) == m33 * (m30 * (m01 * m12))) by (nonlinear_arith);
    assert(m32 * (m30 * (m01 * m13)) == m30 * (m01 * (m13 * m32))) by (nonlinear_arith);
    assert(m33 * (m30 * (m02 * m11)) == m30 * (m11 * (m02 * m33))) by (nonlinear_arith);
    assert(m30 * (m11 * (m03 * m32)) == m32 * (m30 * (m03 * m11))) by (nonlinear_arith);
    assert(m30 * (m31 * (m02 * m13)) == m31 * (m30 * (m02 * m13))) by (nonlinear_arith);
    assert(m31 * (m30 * (m03 * m12)) == m30 * (m31 * (m03 * m12))) by (nonlinear_arith);
    assert(m33 * (m00 * (m12 * m31)) == m31 * (m00 * (m12 * m33))) by (nonlinear_arith);
    assert(m31 * (m00 * (m13 * m32)) == m32 * (m00 * (m13 * m31))) by (nonlinear_arith);
    assert(m31 * (m10 * (m02 * m33)) == m33 * (m10 * (m02 * m31))) by (nonlinear_arith);
    assert(m32 * (m10 * (m03 * m31)) == m31 * (m10 * (m03 * m32))) by (nonlinear_arith);
    assert(m32 * (m00 * (m11 * m33)) == m33 * (m00 * (m11 * m32))) by (nonlinear_arith);
    assert(m33 * (m10 * (m01 * m32)) == m32 * (m10 * (m01 * m33))) by (nonlinear_arith);
}

/// The column 3 against the cofactors of the column 3.
pub proof fn lemma_det4_value_left_3_3(
    m00: int,
    m01: int,
    m02: int,
    m03: int,
    m10: int,
    m11: int,
    m12: int,
    m13: int,
    m20: int,
    m21: int,
    m22: int,
    m23: int,
    m30: int,
    m31: int,
    m32: int,
    m33: int,
)
    ensures
        ((((-det3_value(m01, m02, m03, m11, m12, m13, m21, m22, m23)) * m30) + (det3_value(m00,
            m02, m03, m10, m12, m13, m20, m22, m23) * m31)) + ((-det3_value(m00, m01, m03, m10,
            m11, m13, m20, m21, m23)) * m32)) + (det3_value(m00, m01, m02, m10, m11, m12, m20, m21,
            m22) * m33) == det4_value(m00, m01, m02, m03, m10, m11, m12, m13, m20, m21, m22, m23,
            m30, m31, m32, m33),
{
    assert((-det3_value(m01, m02, m03, m11, m12, m13, m21, m22, m23)) * m30
        == -(m30 * det3_value(m01, m02, m03, m11, m12, m13, m21, m22, m23))) by (nonlinear_arith);
    lemma_mul_det3_value_expanded(m30, m01, m02, m03, m11, m12, m13, m21, m22, m23);
    assert(det3_value(m00, m02, m03, m10, m12, m13, m20, m22, m23) * m31 == m31 * det3_value(m00,
        m02, m03, m10, m12, m13, m20, m22, m23)) by (nonlinear_arith);
    lemma_mul_det3_value_expanded(m31, m00, m02, m03, m10, m12, m13, m20, m22, m23);
    assert((-det3_value(m00, m01, m03, m10, m11, m13, m20, m21, m23)) * m32
        == -(m32 * det3_value(m00, m01, m03, m10, m11, m13, m20, m21, m23))) by (nonlinear_arith);
    lemma_mul_det3_value_expanded(m32, m00, m01, m03, m10, m11, m13, m20, m21, m23);
    assert(det3_value(m00, m01, m02, m10, m11, m12, m20, m21, m22) * m33 == m33 * det3_value(m00,
        m01, m02, m10, m11, m12, m20, m21, m22)) by (nonlinear_arith);
    lemma_mul_det3_value_expanded(m33, m00, m01, m02, m10, m11, m12, m20, m21, m22);
    lemma_det4_value_expanded(m00, m01, m02, m03, m10, m11, m12, m13, m20, m21, m22, m23, m30, m31,
        m32, m33);
    assert(m31 * (m00 * (m12 * m23)) == m00 * (m31 * (m12 * m23))) by (nonlinear_arith);
    assert(m31 * (m00 * (m13 * m22)) == m00 * (m31 * (m13 * m22))) by (nonlinear_arith);
    assert(m31 * (m10 * (m02 * m23)) == m10 * (m31 * (m02 * m23))) by (nonlinear_arith);
    assert(m31 * (m10 * (m03 * m22)) == m10 * (m31 * (m03 * m22))) by (nonlinear_arith);
    assert(m31 * (m20 * (m02 * m13)) == m20 * (m31 * (m02 * m13))) by (nonlinear_arith);
    assert(m31 * (m20 * (m03 * m12)) == m20 * (m31 * (m03 * m12))) by (nonlinear_arith);
    assert(m32 * (m00 * (m11 * m23)) == m00 * (m11 * (m23 * m32))) by (nonlinear_arith);
    assert(m32 * (m00 * (m13 * m21)) == m00 * (m21 * (m13 * m32))) by (nonlinear_arith);
    assert(m32 * (m10 * (m01 * m23)) == m10 * (m01 * (m23 * m32))) by (nonlinear_arith);
    assert(m32 * (m10 * (m03 * m21)) == m10 * (m21 * (m03 * m32))) by (nonlinear_arith);
    assert(m32 * (m20 * (m01 * m13)) == m20 * (m01 * (m13 * m32))) by (nonlinear_arith);
    assert(m32 * (m20 * (m03 * m11)) == m20 * (m11 * (m03 * m32))) by (nonlinear_arith);
    assert(m33 * (m00 * (m11 * m22)) == m00 * (m11 * (m22 * m33))) by (nonlinear_arith);
    assert(m33 * (m00 * (m12 * m21)) == m00 * (m21 * (m12 * m33))) by (nonlinear_arith);
    assert(m33 * (m10 * (m01 * m22)) == m10 * (m01 * (m22 * m33))) by (nonlinear_arith);
    assert(m33 * (m10 * (m02 * m21)) == m10 * (m21 * (m02 * m33))) by (nonlinear_arith);
    assert(m33 * (m20 * (m01 * m12)) == m20 * (m01 * (m12 * m33))) by (nonlinear_arith);
    assert(m33 * (m20 * (m02 * m11)) == m20 * (m11 * (m02 * m33))) by (nonlinear_arith);
}

} // verus!
