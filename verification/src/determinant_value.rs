//! Determinants of integer matrices, and the facts about them that the laws
//! of the determinant are proved from.

use vstd::prelude::*;

verus! {

/// The determinant of the integer matrix with the columns `(a, b)` and `(c, d)`.
pub open spec fn det2_value(a: int, b: int, c: int, d: int) -> int {
    a * d - b * c
}

/// The determinant of the three-by-three integer matrix with the given
/// entries, column by column, expanded along the first row.
pub open spec fn det3_value(
    m00: int,
    m01: int,
    m02: int,
    m10: int,
    m11: int,
    m12: int,
    m20: int,
    m21: int,
    m22: int,
) -> int {
    ((m00 * det2_value(m11, m12, m21, m22)) - (m10 * det2_value(m01, m02, m21, m22)))
        + (m20 * det2_value(m01, m02, m11, m12))
}

/// The determinant of the four-by-four integer matrix with the given
/// entries, column by column, expanded along the first row.
pub open spec fn det4_value(
    m00: int, m01: int, m02: int, m03: int, m10: int, m11: int, m12: int, m13: int, m20: int,
        m21: int, m22: int, m23: int, m30: int, m31: int, m32: int, m33: int,
) -> int {
    (((m00 * det3_value(m11, m12, m13, m21, m22, m23, m31, m32, m33)) - (m10 * det3_value(m01, m02,
        m03, m21, m22, m23, m31, m32, m33))) + (m20 * det3_value(m01, m02, m03, m11, m12, m13, m31,
        m32, m33))) - (m30 * det3_value(m01, m02, m03, m11, m12, m13, m21, m22, m23))
}

/// The three-by-three determinant as the sum of its six products.
pub proof fn lemma_det3_value_expanded(
    m00: int,
    m01: int,
    m02: int,
    m10: int,
    m11: int,
    m12: int,
    m20: int,
    m21: int,
    m22: int,
)
    ensures
        det3_value(m00, m01, m02, m10, m11, m12, m20, m21, m22) == m00 * (m11 * m22)
            - m00 * (m12 * m21) - m10 * (m01 * m22) + m10 * (m02 * m21) + m20 * (m01 * m12)
            - m20 * (m02 * m11),
{
    assert(m00 * (m11 * m22 - m12 * m21) == m00 * (m11 * m22)
        - m00 * (m12 * m21)) by (nonlinear_arith);
    assert(m10 * (m01 * m22 - m02 * m21) == m10 * (m01 * m22)
        - m10 * (m02 * m21)) by (nonlinear_arith);
    assert(m20 * (m01 * m12 - m02 * m11) == m20 * (m01 * m12)
        - m20 * (m02 * m11)) by (nonlinear_arith);
}

/// A factor times a three-by-three determinant as the sum of six products.
pub proof fn lemma_mul_det3_value_expanded(
    k: int,
    m00: int,
    m01: int,
    m02: int,
    m10: int,
    m11: int,
    m12: int,
    m20: int,
    m21: int,
    m22: int,
)
    ensures
        k * det3_value(m00, m01, m02, m10, m11, m12, m20, m21, m22) == k * (m00 * (m11 * m22))
            - k * (m00 * (m12 * m21)) - k * (m10 * (m01 * m22)) + k * (m10 * (m02 * m21))
            + k * (m20 * (m01 * m12)) - k * (m20 * (m02 * m11)),
{
    lemma_det3_value_expanded(m00, m01, m02, m10, m11, m12, m20, m21, m22);
    let t0 = m00 * (m11 * m22);
    let t1 = m00 * (m12 * m21);
    let t2 = m10 * (m01 * m22);
    let t3 = m10 * (m02 * m21);
    let t4 = m20 * (m01 * m12);
    let t5 = m20 * (m02 * m11);
    assert(k * (t0 - t1 - t2 + t3 + t4 - t5) == k * t0 - k * t1 - k * t2 + k * t3 + k * t4 - k * t5)
        by (nonlinear_arith);
}

/// The four-by-four determinant as the sum of its twenty-four products.
pub proof fn lemma_det4_value_expanded(
    m00: int, m01: int, m02: int, m03: int, m10: int, m11: int, m12: int, m13: int, m20: int,
        m21: int, m22: int, m23: int, m30: int, m31: int, m32: int, m33: int,
)
    ensures
        det4_value(m00, m01, m02, m03, m10, m11, m12, m13, m20, m21, m22, m23, m30, m31, m32, m33)
            == m00 * (m11 * (m22 * m33)) - m00 * (m11 * (m23 * m32)) - m00 * (m21 * (m12 * m33))
                + m00 * (m21 * (m13 * m32)) + m00 * (m31 * (m12 * m23))
                - m00 * (m31 * (m13 * m22)) - m10 * (m01 * (m22 * m33))
                + m10 * (m01 * (m23 * m32)) + m10 * (m21 * (m02 * m33))
                - m10 * (m21 * (m03 * m32)) - m10 * (m31 * (m02 * m23))
                + m10 * (m31 * (m03 * m22)) + m20 * (m01 * (m12 * m33))
                - m20 * (m01 * (m13 * m32)) - m20 * (m11 * (m02 * m33))
                + m20 * (m11 * (m03 * m32)) + m20 * (m31 * (m02 * m13))
                - m20 * (m31 * (m03 * m12)) - m30 * (m01 * (m12 * m23))
                + m30 * (m01 * (m13 * m22)) + m30 * (m11 * (m02 * m23))
                - m30 * (m11 * (m03 * m22)) - m30 * (m21 * (m02 * m13)) + m30 * (m21 * (m03 * m12)),
{
    lemma_mul_det3_value_expanded(m00, m11, m12, m13, m21, m22, m23, m31, m32, m33);
    lemma_mul_det3_value_expanded(m10, m01, m02, m03, m21, m22, m23, m31, m32, m33);
    lemma_mul_det3_value_expanded(m20, m01, m02, m03, m11, m12, m13, m31, m32, m33);
    lemma_mul_det3_value_expanded(m30, m01, m02, m03, m11, m12, m13, m21, m22, m23);
}

/// The determinant is zero when the columns 0 and 1 are equal.
pub proof fn lemma_det2_value_equal_columns_0_1(m00: int, m01: int, m10: int, m11: int)
    requires
        m00 == m10,
        m01 == m11,
    ensures
        det2_value(m00, m01, m10, m11) == 0,
{
    assert(m00 * m11 == m01 * m10) by (nonlinear_arith)
        requires
            m00 == m10,
            m01 == m11,
    ;
}

/// The determinant is zero when the rows 0 and 1 are equal.
pub proof fn lemma_det2_value_equal_rows_0_1(m00: int, m01: int, m10: int, m11: int)
    requires
        m00 == m01,
        m10 == m11,
    ensures
        det2_value(m00, m01, m10, m11) == 0,
{
    assert(m00 * m11 == m01 * m10) by (nonlinear_arith)
        requires
            m00 == m01,
            m10 == m11,
    ;
}

/// The determinant of an upper triangular matrix is the product of its diagonal.
pub proof fn lemma_det2_value_upper_triangular(m00: int, m01: int, m10: int, m11: int)
    requires
        m01 == 0,
    ensures
        det2_value(m00, m01, m10, m11) == m00 * m11,
{
    assert(m01 * m10 == 0) by (nonlinear_arith)
        requires
            m01 == 0,
    ;
}

/// The determinant of a lower triangular matrix is the product of its diagonal.
pub proof fn lemma_det2_value_lower_triangular(m00: int, m01: int, m10: int, m11: int)
    requires
        m10 == 0,
    ensures
        det2_value(m00, m01, m10, m11) == m00 * m11,
{
    assert(m01 * m10 == 0) by (nonlinear_arith)
        requires
            m10 == 0,
    ;
}

/// The determinant is zero when the columns 0 and 1 are equal.
pub proof fn lemma_det3_value_equal_columns_0_1(
    m00: int,
    m01: int,
    m02: int,
    m10: int,
    m11: int,
    m12: int,
    m20: int,
    m21: int,
    m22: int,
)
    requires
        m00 == m10,
        m01 == m11,
        m02 == m12,
    ensures
        det3_value(m00, m01, m02, m10, m11, m12, m20, m21, m22) == 0,
{
    lemma_det3_value_expanded(m00, m01, m02, m10, m11, m12, m20, m21, m22);
    assert(m00 * (m11 * m22) == m10 * (m01 * m22)) by (nonlinear_arith)
        requires
            m00 == m10,
            m01 == m11,
            m02 == m12,
    ;
    assert(m10 * (m02 * m21) == m00 * (m12 * m21)) by (nonlinear_arith)
        requires
            m00 == m10,
            m01 == m11,
            m02 == m12,
    ;
    assert(m20 * (m01 * m12) == m20 * (m02 * m11)) by (nonlinear_arith)
        requires
            m00 == m10,
            m01 == m11,
            m02 == m12,
    ;
}

/// The determinant is zero when the columns 0 and 2 are equal.
pub proof fn lemma_det3_value_equal_columns_0_2(
    m00: int,
    m01: int,
    m02: int,
    m10: int,
    m11: int,
    m12: int,
    m20: int,
    m21: int,
    m22: int,
)
    requires
        m00 == m20,
        m01 == m21,
        m02 == m22,
    ensures
        det3_value(m00, m01, m02, m10, m11, m12, m20, m21, m22) == 0,
{
    lemma_det3_value_expanded(m00, m01, m02, m10, m11, m12, m20, m21, m22);
    assert(m00 * (m11 * m22) == m20 * (m02 * m11)) by (nonlinear_arith)
        requires
            m00 == m20,
            m01 == m21,
            m02 == m22,
    ;
    assert(m20 * (m01 * m12) == m00 * (m12 * m21)) by (nonlinear_arith)
        requires
            m00 == m20,
            m01 == m21,
            m02 == m22,
    ;
    assert(m10 * (m02 * m21) == m10 * (m01 * m22)) by (nonlinear_arith)
        requires
            m00 == m20,
            m01 == m21,
            m02 == m22,
    ;
}

/// The determinant is zero when the columns 1 and 2 are equal.
pub proof fn lemma_det3_value_equal_columns_1_2(
    m00: int,
    m01: int,
    m02: int,
    m10: int,
    m11: int,
    m12: int,
    m20: int,
    m21: int,
    m22: int,
)
    requires
        m10 == m20,
        m11 == m21,
        m12 == m22,
    ensures
        det3_value(m00, m01, m02, m10, m11, m12, m20, m21, m22) == 0,
{
    lemma_det3_value_expanded(m00, m01, m02, m10, m11, m12, m20, m21, m22);
    assert(m00 * (m11 * m22) == m00 * (m12 * m21)) by (nonlinear_arith)
        requires
            m10 == m20,
            m11 == m21,
            m12 == m22,
    ;
    assert(m20 * (m01 * m12) == m10 * (m01 * m22)) by (nonlinear_arith)
        requires
            m10 == m20,
            m11 == m21,
            m12 == m22,
    ;
    assert(m10 * (m02 * m21) == m20 * (m02 * m11)) by (nonlinear_arith)
        requires
            m10 == m20,
            m11 == m21,
            m12 == m22,
    ;
}

/// The determinant is zero when the rows 0 and 1 are equal.
pub proof fn lemma_det3_value_equal_rows_0_1(
    m00: int,
    m01: int,
    m02: int,
    m10: int,
    m11: int,
    m12: int,
    m20: int,
    m21: int,
    m22: int,
)
    requires
        m00 == m01,
        m10 == m11,
        m20 == m21,
    ensures
        det3_value(m00, m01, m02, m10, m11, m12, m20, m21, m22) == 0,
{
    lemma_det3_value_expanded(m00, m01, m02, m10, m11, m12, m20, m21, m22);
    assert(m00 * (m11 * m22) == m10 * (m01 * m22)) by (nonlinear_arith)
        requires
            m00 == m01,
            m10 == m11,
            m20 == m21,
    ;
    assert(m20 * (m01 * m12) == m00 * (m12 * m21)) by (nonlinear_arith)
        requires
            m00 == m01,
            m10 == m11,
            m20 == m21,
    ;
    assert(m10 * (m02 * m21) == m20 * (m02 * m11)) by (nonlinear_arith)
        requires
            m00 == m01,
            m10 == m11,
            m20 == m21,
    ;
}

/// The determinant is zero when the rows 0 and 2 are equal.
pub proof fn lemma_det3_value_equal_rows_0_2(
    m00: int,
    m01: int,
    m02: int,
    m10: int,
    m11: int,
    m12: int,
    m20: int,
    m21: int,
    m22: int,
)
    requires
        m00 == m02,
        m10 == m12,
        m20 == m22,
    ensures
        det3_value(m00, m01, m02, m10, m11, m12, m20, m21, m22) == 0,
{
    lemma_det3_value_expanded(m00, m01, m02, m10, m11, m12, m20, m21, m22);
    assert(m00 * (m11 * m22) == m20 * (m02 * m11)) by (nonlinear_arith)
        requires
            m00 == m02,
            m10 == m12,
            m20 == m22,
    ;
    assert(m10 * (m02 * m21) == m00 * (m12 * m21)) by (nonlinear_arith)
        requires
            m00 == m02,
            m10 == m12,
            m20 == m22,
    ;
    assert(m20 * (m01 * m12) == m10 * (m01 * m22)) by (nonlinear_arith)
        requires
            m00 == m02,
            m10 == m12,
            m20 == m22,
    ;
}

/// The determinant is zero when the rows 1 and 2 are equal.
pub proof fn lemma_det3_value_equal_rows_1_2(
    m00: int,
    m01: int,
    m02: int,
    m10: int,
    m11: int,
    m12: int,
    m20: int,
    m21: int,
    m22: int,
)
    requires
        m01 == m02,
        m11 == m12,
        m21 == m22,
    ensures
        det3_value(m00, m01, m02, m10, m11, m12, m20, m21, m22) == 0,
{
    lemma_det3_value_expanded(m00, m01, m02, m10, m11, m12, m20, m21, m22);
    assert(m00 * (m11 * m22) == m00 * (m12 * m21)) by (nonlinear_arith)
        requires
            m01 == m02,
            m11 == m12,
            m21 == m22,
    ;
    assert(m10 * (m02 * m21) == m10 * (m01 * m22)) by (nonlinear_arith)
        requires
            m01 == m02,
            m11 == m12,
            m21 == m22,
    ;
    assert(m20 * (m01 * m12) == m20 * (m02 * m11)) by (nonlinear_arith)
        requires
            m01 == m02,
            m11 == m12,
            m21 == m22,
    ;
}

/// The determinant of an upper triangular matrix is the product of its diagonal.
pub proof fn lemma_det3_value_upper_triangular(
    m00: int,
    m01: int,
    m02: int,
    m10: int,
    m11: int,
    m12: int,
    m20: int,
    m21: int,
    m22: int,
)
    requires
        m01 == 0,
        m02 == 0,
        m12 == 0,
    ensures
        det3_value(m00, m01, m02, m10, m11, m12, m20, m21, m22) == m00 * m11 * m22,
{
    lemma_det3_value_expanded(m00, m01, m02, m10, m11, m12, m20, m21, m22);
    assert(m00 * (m12 * m21) == 0) by (nonlinear_arith)
        requires
            m01 == 0,
            m02 == 0,
            m12 == 0,
    ;
    assert(m10 * (m01 * m22) == 0) by (nonlinear_arith)
        requires
            m01 == 0,
            m02 == 0,
            m12 == 0,
    ;
    assert(m10 * (m02 * m21) == 0) by (nonlinear_arith)
        requires
            m01 == 0,
            m02 == 0,
            m12 == 0,
    ;
    assert(m20 * (m01 * m12) == 0) by (nonlinear_arith)
        requires
            m01 == 0,
            m02 == 0,
            m12 == 0,
    ;
    assert(m20 * (m02 * m11) == 0) by (nonlinear_arith)
        requires
            m01 == 0,
            m02 == 0,
            m12 == 0,
    ;
    assert(m00 * (m11 * m22) == m00 * m11 * m22) by (nonlinear_arith);
}

/// The determinant of a lower triangular matrix is the product of its diagonal.
pub proof fn lemma_det3_value_lower_triangular(
    m00: int,
    m01: int,
    m02: int,
    m10: int,
    m11: int,
    m12: int,
    m20: int,
    m21: int,
    m22: int,
)
    requires
        m10 == 0,
        m20 == 0,
        m21 == 0,
    ensures
        det3_value(m00, m01, m02, m10, m11, m12, m20, m21, m22) == m00 * m11 * m22,
{
    lemma_det3_value_expanded(m00, m01, m02, m10, m11, m12, m20, m21, m22);
    assert(m00 * (m12 * m21) == 0) by (nonlinear_arith)
        requires
            m10 == 0,
            m20 == 0,
            m21 == 0,
    ;
    assert(m10 * (m01 * m22) == 0) by (nonlinear_arith)
        requires
            m10 == 0,
            m20 == 0,
            m21 == 0,
    ;
    assert(m10 * (m02 * m21) == 0) by (nonlinear_arith)
        requires
            m10 == 0,
            m20 == 0,
            m21 == 0,
    ;
    assert(m20 * (m01 * m12) == 0) by (nonlinear_arith)
        requires
            m10 == 0,
            m20 == 0,
            m21 == 0,
    ;
    assert(m20 * (m02 * m11) == 0) by (nonlinear_arith)
        requires
            m10 == 0,
            m20 == 0,
            m21 == 0,
    ;
    assert(m00 * (m11 * m22) == m00 * m11 * m22) by (nonlinear_arith);
}

/// The determinant is zero when the columns 0 and 1 are equal.
pub proof fn lemma_det4_value_equal_columns_0_1(
    m00: int,
    m01: int,
    m02: int,
    m03: int,
    m10: int,
    m11: int,
    m12: int,
    m13: int,
    m20: int,
    m21: int,
    m22: int,
    m23: int,
    m30: int,
    m31: int,
    m32: int,
    m33: int,
)
    requires
        m00 == m10,
        m01 == m11,
        m02 == m12,
        m03 == m13,
    ensures
        det4_value(m00, m01, m02, m03, m10, m11, m12, m13, m20, m21, m22, m23, m30, m31, m32,
            m33) == 0,
{
    lemma_det4_value_expanded(m00, m01, m02, m03, m10, m11, m12, m13, m20, m21, m22, m23, m30, m31,
        m32, m33);
    assert(m00 * (m11 * (m22 * m33)) == m10 * (m01 * (m22 * m33))) by (nonlinear_arith)
        requires
            m00 == m10,
            m01 == m11,
            m02 == m12,
            m03 == m13,
    ;
    assert(m10 * (m01 * (m23 * m32)) == m00 * (m11 * (m23 * m32))) by (nonlinear_arith)
        requires
            m00 == m10,
            m01 == m11,
            m02 == m12,
            m03 == m13,
    ;
    assert(m10 * (m21 * (m02 * m33)) == m00 * (m21 * (m12 * m33))) by (nonlinear_arith)
        requires
            m00 == m10,
            m01 == m11,
            m02 == m12,
            m03 == m13,
    ;
    assert(m00 * (m21 * (m13 * m32)) == m10 * (m21 * (m03 * m32))) by (nonlinear_arith)
        requires
            m00 == m10,
            m01 == m11,
            m02 == m12,
            m03 == m13,
    ;
    assert(m00 * (m31 * (m12 * m23)) == m10 * (m31 * (m02 * m23))) by (nonlinear_arith)
        requires
            m00 == m10,
            m01 == m11,
            m02 == m12,
            m03 == m13,
    ;
    assert(m10 * (m31 * (m03 * m22)) == m00 * (m31 * (m13 * m22))) by (nonlinear_arith)
        requires
            m00 == m10,
            m01 == m11,
            m02 == m12,
            m03 == m13,
    ;
    assert(m20 * (m01 * (m12 * m33)) == m20 * (m11 * (m02 * m33))) by (nonlinear_arith)
        requires
            m00 == m10,
            m01 == m11,
            m02 == m12,
            m03 == m13,
    ;
    assert(m20 * (m11 * (m03 * m32)) == m20 * (m01 * (m13 * m32))) by (nonlinear_arith)
        requires
            m00 == m10,
            m01 == m11,
            m02 == m12,
            m03 == m13,
    ;
    assert(m20 * (m31 * (m02 * m13)) == m20 * (m31 * (m03 * m12))) by (nonlinear_arith)
        requires
            m00 == m10,
            m01 == m11,
            m02 == m12,
            m03 == m13,
    ;
    assert(m30 * (m11 * (m02 * m23)) == m30 * (m01 * (m12 * m23))) by (nonlinear_arith)
        requires
            m00 == m10,
            m01 == m11,
            m02 == m12,
            m03 == m13,
    ;
    assert(m30 * (m01 * (m13 * m22)) == m30 * (m11 * (m03 * m22))) by (nonlinear_arith)
        requires
            m00 == m10,
            m01 == m11,
            m02 == m12,
            m03 == m13,
    ;
    assert(m30 * (m21 * (m03 * m12)) == m30 * (m21 * (m02 * m13))) by (nonlinear_arith)
        requires
            m00 == m10,
            m01 == m11,
            m02 == m12,
            m03 == m13,
    ;
}

/// The determinant is zero when the columns 0 and 2 are equal.
pub proof fn lemma_det4_value_equal_columns_0_2(
    m00: int,
    m01: int,
    m02: int,
    m03: int,
    m10: int,
    m11: int,
    m12: int,
    m13: int,
    m20: int,
    m21: int,
    m22: int,
    m23: int,
    m30: int,
    m31: int,
    m32: int,
    m33: int,
)
    requires
        m00 == m20,
        m01 == m21,
        m02 == m22,
        m03 == m23,
    ensures
        det4_value(m00, m01, m02, m03, m10, m11, m12, m13, m20, m21, m22, m23, m30, m31, m32,
            m33) == 0,
{
    lemma_det4_value_expanded(m00, m01, m02, m03, m10, m11, m12, m13, m20, m21, m22, m23, m30, m31,
        m32, m33);
    assert(m00 * (m11 * (m22 * m33)) == m20 * (m11 * (m02 * m33))) by (nonlinear_arith)
        requires
            m00 == m20,
            m01 == m21,
            m02 == m22,
            m03 == m23,
    ;
    assert(m20 * (m11 * (m03 * m32)) == m00 * (m11 * (m23 * m32))) by (nonlinear_arith)
        requires
            m00 == m20,
            m01 == m21,
            m02 == m22,
            m03 == m23,
    ;
    assert(m20 * (m01 * (m12 * m33)) == m00 * (m21 * (m12 * m33))) by (nonlinear_arith)
        requires
            m00 == m20,
            m01 == m21,
            m02 == m22,
            m03 == m23,
    ;
    assert(m00 * (m21 * (m13 * m32)) == m20 * (m01 * (m13 * m32))) by (nonlinear_arith)
        requires
            m00 == m20,
            m01 == m21,
            m02 == m22,
            m03 == m23,
    ;
    assert(m00 * (m31 * (m12 * m23)) == m20 * (m31 * (m03 * m12))) by (nonlinear_arith)
        requires
            m00 == m20,
            m01 == m21,
            m02 == m22,
            m03 == m23,
    ;
    assert(m20 * (m31 * (m02 * m13)) == m00 * (m31 * (m13 * m22))) by (nonlinear_arith)
        requires
            m00 == m20,
            m01 == m21,
            m02 == m22,
            m03 == m23,
    ;
    assert(m10 * (m21 * (m02 * m33)) == m10 * (m01 * (m22 * m33))) by (nonlinear_arith)
        requires
            m00 == m20,
            m01 == m21,
            m02 == m22,
            m03 == m23,
    ;
    assert(m10 * (m01 * (m23 * m32)) == m10 * (m21 * (m03 * m32))) by (nonlinear_arith)
        requires
            m00 == m20,
            m01 == m21,
            m02 == m22,
            m03 == m23,
    ;
    assert(m10 * (m31 * (m03 * m22)) == m10 * (m31 * (m02 * m23))) by (nonlinear_arith)
        requires
            m00 == m20,
            m01 == m21,
            m02 == m22,
            m03 == m23,
    ;
    assert(m30 * (m21 * (m03 * m12)) == m30 * (m01 * (m12 * m23))) by (nonlinear_arith)
        requires
            m00 == m20,
            m01 == m21,
            m02 == m22,
            m03 == m23,
    ;
    assert(m30 * (m01 * (m13 * m22)) == m30 * (m21 * (m02 * m13))) by (nonlinear_arith)
        requires
            m00 == m20,
            m01 == m21,
            m02 == m22,
            m03 == m23,
    ;
    assert(m30 * (m11 * (m02 * m23)) == m30 * (m11 * (m03 * m22))) by (nonlinear_arith)
        requires
            m00 == m20,
            m01 == m21,
            m02 == m22,
            m03 == m23,
    ;
}

/// The determinant is zero when the columns 0 and 3 are equal.
pub proof fn lemma_det4_value_equal_columns_0_3(
    m00: int,
    m01: int,
    m02: int,
    m03: int,
    m10: int,
    m11: int,
    m12: int,
    m13: int,
    m20: int,
    m21: int,
    m22: int,
    m23: int,
    m30: int,
    m31: int,
    m32: int,
    m33: int,
)
    requires
        m00 == m30,
        m01 == m31,
        m02 == m32,
        m03 == m33,
    ensures
        det4_value(m00, m01, m02, m03, m10, m11, m12, m13, m20, m21, m22, m23, m30, m31, m32,
            m33) == 0,
{
    lemma_det4_value_expanded(m00, m01, m02, m03, m10, m11, m12, m13, m20, m21, m22, m23, m30, m31,
        m32, m33);
    assert(m00 * (m11 * (m22 * m33)) == m30 * (m11 * (m03 * m22))) by (nonlinear_arith)
        requires
            m00 == m30,
            m01 == m31,
            m02 == m32,
            m03 == m33,
    ;
    assert(m30 * (m11 * (m02 * m23)) == m00 * (m11 * (m23 * m32))) by (nonlinear_arith)
        requires
            m00 == m30,
            m01 == m31,
            m02 == m32,
            m03 == m33,
    ;
    assert(m30 * (m21 * (m03 * m12)) == m00 * (m21 * (m12 * m33))) by (nonlinear_arith)
        requires
            m00 == m30,
            m01 == m31,
            m02 == m32,
            m03 == m33,
    ;
    assert(m00 * (m21 * (m13 * m32)) == m30 * (m21 * (m02 * m13))) by (nonlinear_arith)
        requires
            m00 == m30,
            m01 == m31,
            m02 == m32,
            m03 == m33,
    ;
    assert(m00 * (m31 * (m12 * m23)) == m30 * (m01 * (m12 * m23))) by (nonlinear_arith)
        requires
            m00 == m30,
            m01 == m31,
            m02 == m32,
            m03 == m33,
    ;
    assert(m30 * (m01 * (m13 * m22)) == m00 * (m31 * (m13 * m22))) by (nonlinear_arith)
        requires
            m00 == m30,
            m01 == m31,
            m02 == m32,
            m03 == m33,
    ;
    assert(m10 * (m31 * (m03 * m22)) == m10 * (m01 * (m22 * m33))) by (nonlinear_arith)
        requires
            m00 == m30,
            m01 == m31,
            m02 == m32,
            m03 == m33,
    ;
    assert(m10 * (m01 * (m23 * m32)) == m10 * (m31 * (m02 * m23))) by (nonlinear_arith)
        requires
            m00 == m30,
            m01 == m31,
            m02 == m32,
            m03 == m33,
    ;
    assert(m10 * (m21 * (m02 * m33)) == m10 * (m21 * (m03 * m32))) by (nonlinear_arith)
        requires
            m00 == m30,
            m01 == m31,
            m02 == m32,
            m03 == m33,
    ;
    assert(m20 * (m01 * (m12 * m33)) == m20 * (m31 * (m03 * m12))) by (nonlinear_arith)
        requires
            m00 == m30,
            m01 == m31,
            m02 == m32,
            m03 == m33,
    ;
    assert(m20 * (m31 * (m02 * m13)) == m20 * (m01 * (m13 * m32))) by (nonlinear_arith)
        requires
            m00 == m30,
            m01 == m31,
            m02 == m32,
            m03 == m33,
    ;
    assert(m20 * (m11 * (m03 * m32)) == m20 * (m11 * (m02 * m33))) by (nonlinear_arith)
        requires
            m00 == m30,
            m01 == m31,
            m02 == m32,
            m03 == m33,
    ;
}

/// The determinant is zero when the columns 1 and 2 are equal.
pub proof fn lemma_det4_value_equal_columns_1_2(
    m00: int,
    m01: int,
    m02: int,
    m03: int,
    m10: int,
    m11: int,
    m12: int,
    m13: int,
    m20: int,
    m21: int,
    m22: int,
    m23: int,
    m30: int,
    m31: int,
    m32: int,
    m33: int,
)
    requires
        m10 == m20,
        m11 == m21,
        m12 == m22,
        m13 == m23,
    ensures
        det4_value(m00, m01, m02, m03, m10, m11, m12, m13, m20, m21, m22, m23, m30, m31, m32,
            m33) == 0,
{
    lemma_det4_value_expanded(m00, m01, m02, m03, m10, m11, m12, m13, m20, m21, m22, m23, m30, m31,
        m32, m33);
    assert(m00 * (m11 * (m22 * m33)) == m00 * (m21 * (m12 * m33))) by (nonlinear_arith)
        requires
            m10 == m20,
            m11 == m21,
            m12 == m22,
            m13 == m23,
    ;
    assert(m00 * (m21 * (m13 * m32)) == m00 * (m11 * (m23 * m32))) by (nonlinear_arith)
        requires
            m10 == m20,
            m11 == m21,
            m12 == m22,
            m13 == m23,
    ;
    assert(m00 * (m31 * (m12 * m23)) == m00 * (m31 * (m13 * m22))) by (nonlinear_arith)
        requires
            m10 == m20,
            m11 == m21,
            m12 == m22,
            m13 == m23,
    ;
    assert(m20 * (m01 * (m12 * m33)) == m10 * (m01 * (m22 * m33))) by (nonlinear_arith)
        requires
            m10 == m20,
            m11 == m21,
            m12 == m22,
            m13 == m23,
    ;
    assert(m10 * (m01 * (m23 * m32)) == m20 * (m01 * (m13 * m32))) by (nonlinear_arith)
        requires
            m10 == m20,
            m11 == m21,
            m12 == m22,
            m13 == m23,
    ;
    assert(m10 * (m21 * (m02 * m33)) == m20 * (m11 * (m02 * m33))) by (nonlinear_arith)
        requires
            m10 == m20,
            m11 == m21,
            m12 == m22,
            m13 == m23,
    ;
    assert(m20 * (m11 * (m03 * m32)) == m10 * (m21 * (m03 * m32))) by (nonlinear_arith)
        requires
            m10 == m20,
            m11 == m21,
            m12 == m22,
            m13 == m23,
    ;
    assert(m20 * (m31 * (m02 * m13)) == m10 * (m31 * (m02 * m23))) by (nonlinear_arith)
        requires
            m10 == m20,
            m11 == m21,
            m12 == m22,
            m13 == m23,
    ;
    assert(m10 * (m31 * (m03 * m22)) == m20 * (m31 * (m03 * m12))) by (nonlinear_arith)
        requires
            m10 == m20,
            m11 == m21,
            m12 == m22,
            m13 == m23,
    ;
    assert(m30 * (m01 * (m13 * m22)) == m30 * (m01 * (m12 * m23))) by (nonlinear_arith)
        requires
            m10 == m20,
            m11 == m21,
            m12 == m22,
            m13 == m23,
    ;
    assert(m30 * (m11 * (m02 * m23)) == m30 * (m21 * (m02 * m13))) by (nonlinear_arith)
        requires
            m10 == m20,
            m11 == m21,
            m12 == m22,
            m13 == m23,
    ;
    assert(m30 * (m21 * (m03 * m12)) == m30 * (m11 * (m03 * m22))) by (nonlinear_arith)
        requires
            m10 == m20,
            m11 == m21,
            m12 == m22,
            m13 == m23,
    ;
}

/// The determinant is zero when the columns 1 and 3 are equal.
pub proof fn lemma_det4_value_equal_columns_1_3(
    m00: int,
    m01: int,
    m02: int,
    m03: int,
    m10: int,
    m11: int,
    m12: int,
    m13: int,
    m20: int,
    m21: int,
    m22: int,
    m23: int,
    m30: int,
    m31: int,
    m32: int,
    m33: int,
)
    requires
        m10 == m30,
        m11 == m31,
        m12 == m32,
        m13 == m33,
    ensures
        det4_value(m00, m01, m02, m03, m10, m11, m12, m13, m20, m21, m22, m23, m30, m31, m32,
            m33) == 0,
{
    lemma_det4_value_expanded(m00, m01, m02, m03, m10, m11, m12, m13, m20, m21, m22, m23, m30, m31,
        m32, m33);
    assert(m00 * (m11 * (m22 * m33)) == m00 * (m31 * (m13 * m22))) by (nonlinear_arith)
        requires
            m10 == m30,
            m11 == m31,
            m12 == m32,
            m13 == m33,
    ;
    assert(m00 * (m31 * (m12 * m23)) == m00 * (m11 * (m23 * m32))) by (nonlinear_arith)
        requires
            m10 == m30,
            m11 == m31,
            m12 == m32,
            m13 == m33,
    ;
    assert(m00 * (m21 * (m13 * m32)) == m00 * (m21 * (m12 * m33))) by (nonlinear_arith)
        requires
            m10 == m30,
            m11 == m31,
            m12 == m32,
            m13 == m33,
    ;
    assert(m30 * (m01 * (m13 * m22)) == m10 * (m01 * (m22 * m33))) by (nonlinear_arith)
        requires
            m10 == m30,
            m11 == m31,
            m12 == m32,
            m13 == m33,
    ;
    assert(m10 * (m01 * (m23 * m32)) == m30 * (m01 * (m12 * m23))) by (nonlinear_arith)
        requires
            m10 == m30,
            m11 == m31,
            m12 == m32,
            m13 == m33,
    ;
    assert(m10 * (m21 * (m02 * m33)) == m30 * (m21 * (m02 * m13))) by (nonlinear_arith)
        requires
            m10 == m30,
            m11 == m31,
            m12 == m32,
            m13 == m33,
    ;
    assert(m30 * (m21 * (m03 * m12)) == m10 * (m21 * (m03 * m32))) by (nonlinear_arith)
        requires
            m10 == m30,
            m11 == m31,
            m12 == m32,
            m13 == m33,
    ;
    assert(m30 * (m11 * (m02 * m23)) == m10 * (m31 * (m02 * m23))) by (nonlinear_arith)
        requires
            m10 == m30,
            m11 == m31,
            m12 == m32,
            m13 == m33,
    ;
    assert(m10 * (m31 * (m03 * m22)) == m30 * (m11 * (m03 * m22))) by (nonlinear_arith)
        requires
            m10 == m30,
            m11 == m31,
            m12 == m32,
            m13 == m33,
    ;
    assert(m20 * (m01 * (m12 * m33)) == m20 * (m01 * (m13 * m32))) by (nonlinear_arith)
        requires
            m10 == m30,
            m11 == m31,
            m12 == m32,
            m13 == m33,
    ;
    assert(m20 * (m31 * (m02 * m13)) == m20 * (m11 * (m02 * m33))) by (nonlinear_arith)
        requires
            m10 == m30,
            m11 == m31,
            m12 == m32,
            m13 == m33,
    ;
    assert(m20 * (m11 * (m03 * m32)) == m20 * (m31 * (m03 * m12))) by (nonlinear_arith)
        requires
            m10 == m30,
            m11 == m31,
            m12 == m32,
            m13 == m33,
    ;
}

/// The determinant is zero when the columns 2 and 3 are equal.
pub proof fn lemma_det4_value_equal_columns_2_3(
    m00: int,
    m01: int,
    m02: int,
    m03: int,
    m10: int,
    m11: int,
    m12: int,
    m13: int,
    m20: int,
    m21: int,
    m22: int,
    m23: int,
    m30: int,
    m31: int,
    m32: int,
    m33: int,
)
    requires
        m20 == m30,
        m21 == m31,
        m22 == m32,
        m23 == m33,
    ensures
        det4_value(m00, m01, m02, m03, m10, m11, m12, m13, m20, m21, m22, m23, m30, m31, m32,
            m33) == 0,
{
    lemma_det4_value_expanded(m00, m01, m02, m03, m10, m11, m12, m13, m20, m21, m22, m23, m30, m31,
        m32, m33);
    assert(m00 * (m11 * (m22 * m33)) == m00 * (m11 * (m23 * m32))) by (nonlinear_arith)
        requires
            m20 == m30,
            m21 == m31,
            m22 == m32,
            m23 == m33,
    ;
    assert(m00 * (m31 * (m12 * m23)) == m00 * (m21 * (m12 * m33))) by (nonlinear_arith)
        requires
            m20 == m30,
            m21 == m31,
            m22 == m32,
            m23 == m33,
    ;
    assert(m00 * (m21 * (m13 * m32)) == m00 * (m31 * (m13 * m22))) by (nonlinear_arith)
        requires
            m20 == m30,
            m21 == m31,
            m22 == m32,
            m23 == m33,
    ;
    assert(m10 * (m01 * (m23 * m32)) == m10 * (m01 * (m22 * m33))) by (nonlinear_arith)
        requires
            m20 == m30,
            m21 == m31,
            m22 == m32,
            m23 == m33,
    ;
    assert(m10 * (m21 * (m02 * m33)) == m10 * (m31 * (m02 * m23))) by (nonlinear_arith)
        requires
            m20 == m30,
            m21 == m31,
            m22 == m32,
            m23 == m33,
    ;
    assert(m10 * (m31 * (m03 * m22)) == m10 * (m21 * (m03 * m32))) by (nonlinear_arith)
        requires
            m20 == m30,
            m21 == m31,
            m22 == m32,
            m23 == m33,
    ;
    assert(m20 * (m01 * (m12 * m33)) == m30 * (m01 * (m12 * m23))) by (nonlinear_arith)
        requires
            m20 == m30,
            m21 == m31,
            m22 == m32,
            m23 == m33,
    ;
    assert(m30 * (m01 * (m13 * m22)) == m20 * (m01 * (m13 * m32))) by (nonlinear_arith)
        requires
            m20 == m30,
            m21 == m31,
            m22 == m32,
            m23 == m33,
    ;
    assert(m30 * (m11 * (m02 * m23)) == m20 * (m11 * (m02 * m33))) by (nonlinear_arith)
        requires
            m20 == m30,
            m21 == m31,
            m22 == m32,
            m23 == m33,
    ;
    assert(m20 * (m11 * (m03 * m32)) == m30 * (m11 * (m03 * m22))) by (nonlinear_arith)
        requires
            m20 == m30,
            m21 == m31,
            m22 == m32,
            m23 == m33,
    ;
    assert(m20 * (m31 * (m02 * m13)) == m30 * (m21 * (m02 * m13))) by (nonlinear_arith)
        requires
            m20 == m30,
            m21 == m31,
            m22 == m32,
            m23 == m33,
    ;
    assert(m30 * (m21 * (m03 * m12)) == m20 * (m31 * (m03 * m12))) by (nonlinear_arith)
        requires
            m20 == m30,
            m21 == m31,
            m22 == m32,
            m23 == m33,
    ;
}

/// The determinant is zero when the rows 0 and 1 are equal.
pub proof fn lemma_det4_value_equal_rows_0_1(
    m00: int,
    m01: int,
    m02: int,
    m03: int,
    m10: int,
    m11: int,
    m12: int,
    m13: int,
    m20: int,
    m21: int,
    m22: int,
    m23: int,
    m30: int,
    m31: int,
    m32: int,
    m33: int,
)
    requires
        m00 == m01,
        m10 == m11,
        m20 == m21,
        m30 == m31,
    ensures
        det4_value(m00, m01, m02, m03, m10, m11, m12, m13, m20, m21, m22, m23, m30, m31, m32,
            m33) == 0,
{
    lemma_det4_value_expanded(m00, m01, m02, m03, m10, m11, m12, m13, m20, m21, m22, m23, m30, m31,
        m32, m33);
    assert(m00 * (m11 * (m22 * m33)) == m10 * (m01 * (m22 * m33))) by (nonlinear_arith)
        requires
            m00 == m01,
            m10 == m11,
            m20 == m21,
            m30 == m31,
    ;
    assert(m10 * (m01 * (m23 * m32)) == m00 * (m11 * (m23 * m32))) by (nonlinear_arith)
        requires
            m00 == m01,
            m10 == m11,
            m20 == m21,
            m30 == m31,
    ;
    assert(m20 * (m01 * (m12 * m33)) == m00 * (m21 * (m12 * m33))) by (nonlinear_arith)
        requires
            m00 == m01,
            m10 == m11,
            m20 == m21,
            m30 == m31,
    ;
    assert(m00 * (m21 * (m13 * m32)) == m20 * (m01 * (m13 * m32))) by (nonlinear_arith)
        requires
            m00 == m01,
            m10 == m11,
            m20 == m21,
            m30 == m31,
    ;
    assert(m00 * (m31 * (m12 * m23)) == m30 * (m01 * (m12 * m23))) by (nonlinear_arith)
        requires
            m00 == m01,
            m10 == m11,
            m20 == m21,
            m30 == m31,
    ;
    assert(m30 * (m01 * (m13 * m22)) == m00 * (m31 * (m13 * m22))) by (nonlinear_arith)
        requires
            m00 == m01,
            m10 == m11,
            m20 == m21,
            m30 == m31,
    ;
    assert(m10 * (m21 * (m02 * m33)) == m20 * (m11 * (m02 * m33))) by (nonlinear_arith)
        requires
            m00 == m01,
            m10 == m11,
            m20 == m21,
            m30 == m31,
    ;
    assert(m20 * (m11 * (m03 * m32)) == m10 * (m21 * (m03 * m32))) by (nonlinear_arith)
        requires
            m00 == m01,
            m10 == m11,
            m20 == m21,
            m30 == m31,
    ;
    assert(m30 * (m11 * (m02 * m23)) == m10 * (m31 * (m02 * m23))) by (nonlinear_arith)
        requires
            m00 == m01,
            m10 == m11,
            m20 == m21,
            m30 == m31,
    ;
    assert(m10 * (m31 * (m03 * m22)) == m30 * (m11 * (m03 * m22))) by (nonlinear_arith)
        requires
            m00 == m01,
            m10 == m11,
            m20 == m21,
            m30 == m31,
    ;
    assert(m20 * (m31 * (m02 * m13)) == m30 * (m21 * (m02 * m13))) by (nonlinear_arith)
        requires
            m00 == m01,
            m10 == m11,
            m20 == m21,
            m30 == m31,
    ;
    assert(m30 * (m21 * (m03 * m12)) == m20 * (m31 * (m03 * m12))) by (nonlinear_arith)
        requires
            m00 == m01,
            m10 == m11,
            m20 == m21,
            m30 == m31,
    ;
}

/// The determinant is zero when the rows 0 and 2 are equal.
pub proof fn lemma_det4_value_equal_rows_0_2(
    m00: int,
    m01: int,
    m02: int,
    m03: int,
    m10: int,
    m11: int,
    m12: int,
    m13: int,
    m20: int,
    m21: int,
    m22: int,
    m23: int,
    m30: int,
    m31: int,
    m32: int,
    m33: int,
)
    requires
        m00 == m02,
        m10 == m12,
        m20 == m22,
        m30 == m32,
    ensures
        det4_value(m00, m01, m02, m03, m10, m11, m12, m13, m20, m21, m22, m23, m30, m31, m32,
            m33) == 0,
{
    lemma_det4_value_expanded(m00, m01, m02, m03, m10, m11, m12, m13, m20, m21, m22, m23, m30, m31,
        m32, m33);
    assert(m00 * (m11 * (m22 * m33)) == m20 * (m11 * (m02 * m33))) by (nonlinear_arith)
        requires
            m00 == m02,
            m10 == m12,
            m20 == m22,
            m30 == m32,
    ;
    assert(m30 * (m11 * (m02 * m23)) == m00 * (m11 * (m23 * m32))) by (nonlinear_arith)
        requires
            m00 == m02,
            m10 == m12,
            m20 == m22,
            m30 == m32,
    ;
    assert(m10 * (m21 * (m02 * m33)) == m00 * (m21 * (m12 * m33))) by (nonlinear_arith)
        requires
            m00 == m02,
            m10 == m12,
            m20 == m22,
            m30 == m32,
    ;
    assert(m00 * (m21 * (m13 * m32)) == m30 * (m21 * (m02 * m13))) by (nonlinear_arith)
        requires
            m00 == m02,
            m10 == m12,
            m20 == m22,
            m30 == m32,
    ;
    assert(m00 * (m31 * (m12 * m23)) == m10 * (m31 * (m02 * m23))) by (nonlinear_arith)
        requires
            m00 == m02,
            m10 == m12,
            m20 == m22,
            m30 == m32,
    ;
    assert(m20 * (m31 * (m02 * m13)) == m00 * (m31 * (m13 * m22))) by (nonlinear_arith)
        requires
            m00 == m02,
            m10 == m12,
            m20 == m22,
            m30 == m32,
    ;
    assert(m20 * (m01 * (m12 * m33)) == m10 * (m01 * (m22 * m33))) by (nonlinear_arith)
        requires
            m00 == m02,
            m10 == m12,
            m20 == m22,
            m30 == m32,
    ;
    assert(m10 * (m01 * (m23 * m32)) == m30 * (m01 * (m12 * m23))) by (nonlinear_arith)
        requires
            m00 == m02,
            m10 == m12,
            m20 == m22,
            m30 == m32,
    ;
    assert(m30 * (m21 * (m03 * m12)) == m10 * (m21 * (m03 * m32))) by (nonlinear_arith)
        requires
            m00 == m02,
            m10 == m12,
            m20 == m22,
            m30 == m32,
    ;
    assert(m10 * (m31 * (m03 * m22)) == m20 * (m31 * (m03 * m12))) by (nonlinear_arith)
        requires
            m00 == m02,
            m10 == m12,
            m20 == m22,
            m30 == m32,
    ;
    assert(m30 * (m01 * (m13 * m22)) == m20 * (m01 * (m13 * m32))) by (nonlinear_arith)
        requires
            m00 == m02,
            m10 == m12,
            m20 == m22,
            m30 == m32,
    ;
    assert(m20 * (m11 * (m03 * m32)) == m30 * (m11 * (m03 * m22))) by (nonlinear_arith)
        requires
            m00 == m02,
            m10 == m12,
            m20 == m22,
            m30 == m32,
    ;
}

/// The determinant is zero when the rows 0 and 3 are equal.
pub proof fn lemma_det4_value_equal_rows_0_3(
    m00: int,
    m01: int,
    m02: int,
    m03: int,
    m10: int,
    m11: int,
    m12: int,
    m13: int,
    m20: int,
    m21: int,
    m22: int,
    m23: int,
    m30: int,
    m31: int,
    m32: int,
    m33: int,
)
    requires
        m00 == m03,
        m10 == m13,
        m20 == m23,
        m30 == m33,
    ensures
        det4_value(m00, m01, m02, m03, m10, m11, m12, m13, m20, m21, m22, m23, m30, m31, m32,
            m33) == 0,
{
    lemma_det4_value_expanded(m00, m01, m02, m03, m10, m11, m12, m13, m20, m21, m22, m23, m30, m31,
        m32, m33);
    assert(m00 * (m11 * (m22 * m33)) == m30 * (m11 * (m03 * m22))) by (nonlinear_arith)
        requires
            m00 == m03,
            m10 == m13,
            m20 == m23,
            m30 == m33,
    ;
    assert(m20 * (m11 * (m03 * m32)) == m00 * (m11 * (m23 * m32))) by (nonlinear_arith)
        requires
            m00 == m03,
            m10 == m13,
            m20 == m23,
            m30 == m33,
    ;
    assert(m30 * (m21 * (m03 * m12)) == m00 * (m21 * (m12 * m33))) by (nonlinear_arith)
        requires
            m00 == m03,
            m10 == m13,
            m20 == m23,
            m30 == m33,
    ;
    assert(m00 * (m21 * (m13 * m32)) == m10 * (m21 * (m03 * m32))) by (nonlinear_arith)
        requires
            m00 == m03,
            m10 == m13,
            m20 == m23,
            m30 == m33,
    ;
    assert(m00 * (m31 * (m12 * m23)) == m20 * (m31 * (m03 * m12))) by (nonlinear_arith)
        requires
            m00 == m03,
            m10 == m13,
            m20 == m23,
            m30 == m33,
    ;
    assert(m10 * (m31 * (m03 * m22)) == m00 * (m31 * (m13 * m22))) by (nonlinear_arith)
        requires
            m00 == m03,
            m10 == m13,
            m20 == m23,
            m30 == m33,
    ;
    assert(m30 * (m01 * (m13 * m22)) == m10 * (m01 * (m22 * m33))) by (nonlinear_arith)
        requires
            m00 == m03,
            m10 == m13,
            m20 == m23,
            m30 == m33,
    ;
    assert(m10 * (m01 * (m23 * m32)) == m20 * (m01 * (m13 * m32))) by (nonlinear_arith)
        requires
            m00 == m03,
            m10 == m13,
            m20 == m23,
            m30 == m33,
    ;
    assert(m10 * (m21 * (m02 * m33)) == m30 * (m21 * (m02 * m13))) by (nonlinear_arith)
        requires
            m00 == m03,
            m10 == m13,
            m20 == m23,
            m30 == m33,
    ;
    assert(m20 * (m31 * (m02 * m13)) == m10 * (m31 * (m02 * m23))) by (nonlinear_arith)
        requires
            m00 == m03,
            m10 == m13,
            m20 == m23,
            m30 == m33,
    ;
    assert(m20 * (m01 * (m12 * m33)) == m30 * (m01 * (m12 * m23))) by (nonlinear_arith)
        requires
            m00 == m03,
            m10 == m13,
            m20 == m23,
            m30 == m33,
    ;
    assert(m30 * (m11 * (m02 * m23)) == m20 * (m11 * (m02 * m33))) by (nonlinear_arith)
        requires
            m00 == m03,
            m10 == m13,
            m20 == m23,
            m30 == m33,
    ;
}

/// The determinant is zero when the rows 1 and 2 are equal.
pub proof fn lemma_det4_value_equal_rows_1_2(
    m00: int,
    m01: int,
    m02: int,
    m03: int,
    m10: int,
    m11: int,
    m12: int,
    m13: int,
    m20: int,
    m21: int,
    m22: int,
    m23: int,
    m30: int,
    m31: int,
    m32: int,
    m33: int,
)
    requires
        m01 == m02,
        m11 == m12,
        m21 == m22,
        m31 == m32,
    ensures
        det4_value(m00, m01, m02, m03, m10, m11, m12, m13, m20, m21, m22, m23, m30, m31, m32,
            m33) == 0,
{
    lemma_det4_value_expanded(m00, m01, m02, m03, m10, m11, m12, m13, m20, m21, m22, m23, m30, m31,
        m32, m33);
    assert(m00 * (m11 * (m22 * m33)) == m00 * (m21 * (m12 * m33))) by (nonlinear_arith)
        requires
            m01 == m02,
            m11 == m12,
            m21 == m22,
            m31 == m32,
    ;
    assert(m00 * (m31 * (m12 * m23)) == m00 * (m11 * (m23 * m32))) by (nonlinear_arith)
        requires
            m01 == m02,
            m11 == m12,
            m21 == m22,
            m31 == m32,
    ;
    assert(m00 * (m21 * (m13 * m32)) == m00 * (m31 * (m13 * m22))) by (nonlinear_arith)
        requires
            m01 == m02,
            m11 == m12,
            m21 == m22,
            m31 == m32,
    ;
    assert(m10 * (m21 * (m02 * m33)) == m10 * (m01 * (m22 * m33))) by (nonlinear_arith)
        requires
            m01 == m02,
            m11 == m12,
            m21 == m22,
            m31 == m32,
    ;
    assert(m10 * (m01 * (m23 * m32)) == m10 * (m31 * (m02 * m23))) by (nonlinear_arith)
        requires
            m01 == m02,
            m11 == m12,
            m21 == m22,
            m31 == m32,
    ;
    assert(m10 * (m31 * (m03 * m22)) == m10 * (m21 * (m03 * m32))) by (nonlinear_arith)
        requires
            m01 == m02,
            m11 == m12,
            m21 == m22,
            m31 == m32,
    ;
    assert(m20 * (m01 * (m12 * m33)) == m20 * (m11 * (m02 * m33))) by (nonlinear_arith)
        requires
            m01 == m02,
            m11 == m12,
            m21 == m22,
            m31 == m32,
    ;
    assert(m20 * (m31 * (m02 * m13)) == m20 * (m01 * (m13 * m32))) by (nonlinear_arith)
        requires
            m01 == m02,
            m11 == m12,
            m21 == m22,
            m31 == m32,
    ;
    assert(m20 * (m11 * (m03 * m32)) == m20 * (m31 * (m03 * m12))) by (nonlinear_arith)
        requires
            m01 == m02,
            m11 == m12,
            m21 == m22,
            m31 == m32,
    ;
    assert(m30 * (m11 * (m02 * m23)) == m30 * (m01 * (m12 * m23))) by (nonlinear_arith)
        requires
            m01 == m02,
            m11 == m12,
            m21 == m22,
            m31 == m32,
    ;
    assert(m30 * (m01 * (m13 * m22)) == m30 * (m21 * (m02 * m13))) by (nonlinear_arith)
        requires
            m01 == m02,
            m11 == m12,
            m21 == m22,
            m31 == m32,
    ;
    assert(m30 * (m21 * (m03 * m12)) == m30 * (m11 * (m03 * m22))) by (nonlinear_arith)
        requires
            m01 == m02,
            m11 == m12,
            m21 == m22,
            m31 == m32,
    ;
}

/// The determinant is zero when the rows 1 and 3 are equal.
pub proof fn lemma_det4_value_equal_rows_1_3(
    m00: int,
    m01: int,
    m02: int,
    m03: int,
    m10: int,
    m11: int,
    m12: int,
    m13: int,
    m20: int,
    m21: int,
    m22: int,
    m23: int,
    m30: int,
    m31: int,
    m32: int,
    m33: int,
)
    requires
        m01 == m03,
        m11 == m13,
        m21 == m23,
        m31 == m33,
    ensures
        det4_value(m00, m01, m02, m03, m10, m11, m12, m13, m20, m21, m22, m23, m30, m31, m32,
            m33) == 0,
{
    lemma_det4_value_expanded(m00, m01, m02, m03, m10, m11, m12, m13, m20, m21, m22, m23, m30, m31,
        m32, m33);
    assert(m00 * (m11 * (m22 * m33)) == m00 * (m31 * (m13 * m22))) by (nonlinear_arith)
        requires
            m01 == m03,
            m11 == m13,
            m21 == m23,
            m31 == m33,
    ;
    assert(m00 * (m21 * (m13 * m32)) == m00 * (m11 * (m23 * m32))) by (nonlinear_arith)
        requires
            m01 == m03,
            m11 == m13,
            m21 == m23,
            m31 == m33,
    ;
    assert(m00 * (m31 * (m12 * m23)) == m00 * (m21 * (m12 * m33))) by (nonlinear_arith)
        requires
            m01 == m03,
            m11 == m13,
            m21 == m23,
            m31 == m33,
    ;
    assert(m10 * (m31 * (m03 * m22)) == m10 * (m01 * (m22 * m33))) by (nonlinear_arith)
        requires
            m01 == m03,
            m11 == m13,
            m21 == m23,
            m31 == m33,
    ;
    assert(m10 * (m01 * (m23 * m32)) == m10 * (m21 * (m03 * m32))) by (nonlinear_arith)
        requires
            m01 == m03,
            m11 == m13,
            m21 == m23,
            m31 == m33,
    ;
    assert(m10 * (m21 * (m02 * m33)) == m10 * (m31 * (m02 * m23))) by (nonlinear_arith)
        requires
            m01 == m03,
            m11 == m13,
            m21 == m23,
            m31 == m33,
    ;
    assert(m20 * (m01 * (m12 * m33)) == m20 * (m31 * (m03 * m12))) by (nonlinear_arith)
        requires
            m01 == m03,
            m11 == m13,
            m21 == m23,
            m31 == m33,
    ;
    assert(m20 * (m11 * (m03 * m32)) == m20 * (m01 * (m13 * m32))) by (nonlinear_arith)
        requires
            m01 == m03,
            m11 == m13,
            m21 == m23,
            m31 == m33,
    ;
    assert(m20 * (m31 * (m02 * m13)) == m20 * (m11 * (m02 * m33))) by (nonlinear_arith)
        requires
            m01 == m03,
            m11 == m13,
            m21 == m23,
            m31 == m33,
    ;
    assert(m30 * (m21 * (m03 * m12)) == m30 * (m01 * (m12 * m23))) by (nonlinear_arith)
        requires
            m01 == m03,
            m11 == m13,
            m21 == m23,
            m31 == m33,
    ;
    assert(m30 * (m01 * (m13 * m22)) == m30 * (m11 * (m03 * m22))) by (nonlinear_arith)
        requires
            m01 == m03,
            m11 == m13,
            m21 == m23,
            m31 == m33,
    ;
    assert(m30 * (m11 * (m02 * m23)) == m30 * (m21 * (m02 * m13))) by (nonlinear_arith)
        requires
            m01 == m03,
            m11 == m13,
            m21 == m23,
            m31 == m33,
    ;
}

/// The determinant is zero when the rows 2 and 3 are equal.
pub proof fn lemma_det4_value_equal_rows_2_3(
    m00: int,
    m01: int,
    m02: int,
    m03: int,
    m10: int,
    m11: int,
    m12: int,
    m13: int,
    m20: int,
    m21: int,
    m22: int,
    m23: int,
    m30: int,
    m31: int,
    m32: int,
    m33: int,
)
    requires
        m02 == m03,
        m12 == m13,
        m22 == m23,
        m32 == m33,
    ensures
        det4_value(m00, m01, m02, m03, m10, m11, m12, m13, m20, m21, m22, m23, m30, m31, m32,
            m33) == 0,
{
    lemma_det4_value_expanded(m00, m01, m02, m03, m10, m11, m12, m13, m20, m21, m22, m23, m30, m31,
        m32, m33);
    assert(m00 * (m11 * (m22 * m33)) == m00 * (m11 * (m23 * m32))) by (nonlinear_arith)
        requires
            m02 == m03,
            m12 == m13,
            m22 == m23,
            m32 == m33,
    ;
    assert(m00 * (m21 * (m13 * m32)) == m00 * (m21 * (m12 * m33))) by (nonlinear_arith)
        requires
            m02 == m03,
            m12 == m13,
            m22 == m23,
            m32 == m33,
    ;
    assert(m00 * (m31 * (m12 * m23)) == m00 * (m31 * (m13 * m22))) by (nonlinear_arith)
        requires
            m02 == m03,
            m12 == m13,
            m22 == m23,
            m32 == m33,
    ;
    assert(m10 * (m01 * (m23 * m32)) == m10 * (m01 * (m22 * m33))) by (nonlinear_arith)
        requires
            m02 == m03,
            m12 == m13,
            m22 == m23,
            m32 == m33,
    ;
    assert(m10 * (m21 * (m02 * m33)) == m10 * (m21 * (m03 * m32))) by (nonlinear_arith)
        requires
            m02 == m03,
            m12 == m13,
            m22 == m23,
            m32 == m33,
    ;
    assert(m10 * (m31 * (m03 * m22)) == m10 * (m31 * (m02 * m23))) by (nonlinear_arith)
        requires
            m02 == m03,
            m12 == m13,
            m22 == m23,
            m32 == m33,
    ;
    assert(m20 * (m01 * (m12 * m33)) == m20 * (m01 * (m13 * m32))) by (nonlinear_arith)
        requires
            m02 == m03,
            m12 == m13,
            m22 == m23,
            m32 == m33,
    ;
    assert(m20 * (m11 * (m03 * m32)) == m20 * (m11 * (m02 * m33))) by (nonlinear_arith)
        requires
            m02 == m03,
            m12 == m13,
            m22 == m23,
            m32 == m33,
    ;
    assert(m20 * (m31 * (m02 * m13)) == m20 * (m31 * (m03 * m12))) by (nonlinear_arith)
        requires
            m02 == m03,
            m12 == m13,
            m22 == m23,
            m32 == m33,
    ;
    assert(m30 * (m01 * (m13 * m22)) == m30 * (m01 * (m12 * m23))) by (nonlinear_arith)
        requires
            m02 == m03,
            m12 == m13,
            m22 == m23,
            m32 == m33,
    ;
    assert(m30 * (m11 * (m02 * m23)) == m30 * (m11 * (m03 * m22))) by (nonlinear_arith)
        requires
            m02 == m03,
            m12 == m13,
            m22 == m23,
            m32 == m33,
    ;
    assert(m30 * (m21 * (m03 * m12)) == m30 * (m21 * (m02 * m13))) by (nonlinear_arith)
        requires
            m02 == m03,
            m12 == m13,
            m22 == m23,
            m32 == m33,
    ;
}

/// The determinant of an upper triangular matrix is the product of its diagonal.
pub proof fn lemma_det4_value_upper_triangular(
    m00: int,
    m01: int,
    m02: int,
    m03: int,
    m10: int,
    m11: int,
    m12: int,
    m13: int,
    m20: int,
    m21: int,
    m22: int,
    m23: int,
    m30: int,
    m31: int,
    m32: int,
    m33: int,
)
    requires
        m01 == 0,
        m02 == 0,
        m03 == 0,
        m12 == 0,
        m13 == 0,
        m23 == 0,
    ensures
        det4_value(m00, m01, m02, m03, m10, m11, m12, m13, m20, m21, m22, m23, m30, m31, m32,
            m33) == m00 * m11 * m22 * m33,
{
    lemma_det4_value_expanded(m00, m01, m02, m03, m10, m11, m12, m13, m20, m21, m22, m23, m30, m31,
        m32, m33);
    assert(m00 * (m11 * (m23 * m32)) == 0) by (nonlinear_arith)
        requires
            m01 == 0,
            m02 == 0,
            m03 == 0,
            m12 == 0,
            m13 == 0,
            m23 == 0,
    ;
    assert(m00 * (m21 * (m12 * m33)) == 0) by (nonlinear_arith)
        requires
            m01 == 0,
            m02 == 0,
            m03 == 0,
            m12 == 0,
            m13 == 0,
            m23 == 0,
    ;
    assert(m00 * (m21 * (m13 * m32)) == 0) by (nonlinear_arith)
        requires
            m01 == 0,
            m02 == 0,
            m03 == 0,
            m12 == 0,
            m13 == 0,
            m23 == 0,
    ;
    assert(m00 * (m31 * (m12 * m23)) == 0) by (nonlinear_arith)
        requires
            m01 == 0,
            m02 == 0,
            m03 == 0,
            m12 == 0,
            m13 == 0,
            m23 == 0,
    ;
    assert(m00 * (m31 * (m13 * m22)) == 0) by (nonlinear_arith)
        requires
            m01 == 0,
            m02 == 0,
            m03 == 0,
            m12 == 0,
            m13 == 0,
            m23 == 0,
    ;
    assert(m10 * (m01 * (m22 * m33)) == 0) by (nonlinear_arith)
        requires
            m01 == 0,
            m02 == 0,
            m03 == 0,
            m12 == 0,
            m13 == 0,
            m23 == 0,
    ;
    assert(m10 * (m01 * (m23 * m32)) == 0) by (nonlinear_arith)
        requires
            m01 == 0,
            m02 == 0,
            m03 == 0,
            m12 == 0,
            m13 == 0,
            m23 == 0,
    ;
    assert(m10 * (m21 * (m02 * m33)) == 0) by (nonlinear_arith)
        requires
            m01 == 0,
            m02 == 0,
            m03 == 0,
            m12 == 0,
            m13 == 0,
            m23 == 0,
    ;
    assert(m10 * (m21 * (m03 * m32)) == 0) by (nonlinear_arith)
        requires
            m01 == 0,
            m02 == 0,
            m03 == 0,
            m12 == 0,
            m13 == 0,
            m23 == 0,
    ;
    assert(m10 * (m31 * (m02 * m23)) == 0) by (nonlinear_arith)
        requires
            m01 == 0,
            m02 == 0,
            m03 == 0,
            m12 == 0,
            m13 == 0,
            m23 == 0,
    ;
    assert(m10 * (m31 * (m03 * m22)) == 0) by (nonlinear_arith)
        requires
            m01 == 0,
            m02 == 0,
            m03 == 0,
            m12 == 0,
            m13 == 0,
            m23 == 0,
    ;
    assert(m20 * (m01 * (m12 * m33)) == 0) by (nonlinear_arith)
        requires
            m01 == 0,
            m02 == 0,
            m03 == 0,
            m12 == 0,
            m13 == 0,
            m23 == 0,
    ;
    assert(m20 * (m01 * (m13 * m32)) == 0) by (nonlinear_arith)
        requires
            m01 == 0,
            m02 == 0,
            m03 == 0,
            m12 == 0,
            m13 == 0,
            m23 == 0,
    ;
    assert(m20 * (m11 * (m02 * m33)) == 0) by (nonlinear_arith)
        requires
            m01 == 0,
            m02 == 0,
            m03 == 0,
            m12 == 0,
            m13 == 0,
            m23 == 0,
    ;
    assert(m20 * (m11 * (m03 * m32)) == 0) by (nonlinear_arith)
        requires
            m01 == 0,
            m02 == 0,
            m03 == 0,
            m12 == 0,
            m13 == 0,
            m23 == 0,
    ;
    assert(m20 * (m31 * (m02 * m13)) == 0) by (nonlinear_arith)
        requires
            m01 == 0,
            m02 == 0,
            m03 == 0,
            m12 == 0,
            m13 == 0,
            m23 == 0,
    ;
    assert(m20 * (m31 * (m03 * m12)) == 0) by (nonlinear_arith)
        requires
            m01 == 0,
            m02 == 0,
            m03 == 0,
            m12 == 0,
            m13 == 0,
            m23 == 0,
    ;
    assert(m30 * (m01 * (m12 * m23)) == 0) by (nonlinear_arith)
        requires
            m01 == 0,
            m02 == 0,
            m03 == 0,
            m12 == 0,
            m13 == 0,
            m23 == 0,
    ;
    assert(m30 * (m01 * (m13 * m22)) == 0) by (nonlinear_arith)
        requires
            m01 == 0,
            m02 == 0,
            m03 == 0,
            m12 == 0,
            m13 == 0,
            m23 == 0,
    ;
    assert(m30 * (m11 * (m02 * m23)) == 0) by (nonlinear_arith)
        requires
            m01 == 0,
            m02 == 0,
            m03 == 0,
            m12 == 0,
            m13 == 0,
            m23 == 0,
    ;
    assert(m30 * (m11 * (m03 * m22)) == 0) by (nonlinear_arith)
        requires
            m01 == 0,
            m02 == 0,
            m03 == 0,
            m12 == 0,
            m13 == 0,
            m23 == 0,
    ;
    assert(m30 * (m21 * (m02 * m13)) == 0) by (nonlinear_arith)
        requires
            m01 == 0,
            m02 == 0,
            m03 == 0,
            m12 == 0,
            m13 == 0,
            m23 == 0,
    ;
    assert(m30 * (m21 * (m03 * m12)) == 0) by (nonlinear_arith)
        requires
            m01 == 0,
            m02 == 0,
            m03 == 0,
            m12 == 0,
            m13 == 0,
            m23 == 0,
    ;
    assert(m00 * (m11 * (m22 * m33)) == m00 * m11 * m22 * m33) by (nonlinear_arith);
}

/// The determinant of a lower triangular matrix is the product of its diagonal.
pub proof fn lemma_det4_value_lower_triangular(
    m00: int,
    m01: int,
    m02: int,
    m03: int,
    m10: int,
    m11: int,
    m12: int,
    m13: int,
    m20: int,
    m21: int,
    m22: int,
    m23: int,
    m30: int,
    m31: int,
    m32: int,
    m33: int,
)
    requires
        m10 == 0,
        m20 == 0,
        m21 == 0,
        m30 == 0,
        m31 == 0,
        m32 == 0,
    ensures
        det4_value(m00, m01, m02, m03, m10, m11, m12, m13, m20, m21, m22, m23, m30, m31, m32,
            m33) == m00 * m11 * m22 * m33,
{
    lemma_det4_value_expanded(m00, m01, m02, m03, m10, m11, m12, m13, m20, m21, m22, m23, m30, m31,
        m32, m33);
    assert(m00 * (m11 * (m23 * m32)) == 0) by (nonlinear_arith)
        requires
            m10 == 0,
            m20 == 0,
            m21 == 0,
            m30 == 0,
            m31 == 0,
            m32 == 0,
    ;
    assert(m00 * (m21 * (m12 * m33)) == 0) by (nonlinear_arith)
        requires
            m10 == 0,
            m20 == 0,
            m21 == 0,
            m30 == 0,
            m31 == 0,
            m32 == 0,
    ;
    assert(m00 * (m21 * (m13 * m32)) == 0) by (nonlinear_arith)
        requires
            m10 == 0,
            m20 == 0,
            m21 == 0,
            m30 == 0,
            m31 == 0,
            m32 == 0,
    ;
    assert(m00 * (m31 * (m12 * m23)) == 0) by (nonlinear_arith)
        requires
            m10 == 0,
            m20 == 0,
            m21 == 0,
            m30 == 0,
            m31 == 0,
            m32 == 0,
    ;
    assert(m00 * (m31 * (m13 * m22)) == 0) by (nonlinear_arith)
        requires
            m10 == 0,
            m20 == 0,
            m21 == 0,
            m30 == 0,
            m31 == 0,
            m32 == 0,
    ;
    assert(m10 * (m01 * (m22 * m33)) == 0) by (nonlinear_arith)
        requires
            m10 == 0,
            m20 == 0,
            m21 == 0,
            m30 == 0,
            m31 == 0,
            m32 == 0,
    ;
    assert(m10 * (m01 * (m23 * m32)) == 0) by (nonlinear_arith)
        requires
            m10 == 0,
            m20 == 0,
            m21 == 0,
            m30 == 0,
            m31 == 0,
            m32 == 0,
    ;
    assert(m10 * (m21 * (m02 * m33)) == 0) by (nonlinear_arith)
        requires
            m10 == 0,
            m20 == 0,
            m21 == 0,
            m30 == 0,
            m31 == 0,
            m32 == 0,
    ;
    assert(m10 * (m21 * (m03 * m32)) == 0) by (nonlinear_arith)
        requires
            m10 == 0,
            m20 == 0,
            m21 == 0,
            m30 == 0,
            m31 == 0,
            m32 == 0,
    ;
    assert(m10 * (m31 * (m02 * m23)) == 0) by (nonlinear_arith)
        requires
            m10 == 0,
            m20 == 0,
            m21 == 0,
            m30 == 0,
            m31 == 0,
            m32 == 0,
    ;
    assert(m10 * (m31 * (m03 * m22)) == 0) by (nonlinear_arith)
        requires
            m10 == 0,
            m20 == 0,
            m21 == 0,
            m30 == 0,
            m31 == 0,
            m32 == 0,
    ;
    assert(m20 * (m01 * (m12 * m33)) == 0) by (nonlinear_arith)
        requires
            m10 == 0,
            m20 == 0,
            m21 == 0,
            m30 == 0,
            m31 == 0,
            m32 == 0,
    ;
    assert(m20 * (m01 * (m13 * m32)) == 0) by (nonlinear_arith)
        requires
            m10 == 0,
            m20 == 0,
            m21 == 0,
            m30 == 0,
            m31 == 0,
            m32 == 0,
    ;
    assert(m20 * (m11 * (m02 * m33)) == 0) by (nonlinear_arith)
        requires
            m10 == 0,
            m20 == 0,
            m21 == 0,
            m30 == 0,
            m31 == 0,
            m32 == 0,
    ;
    assert(m20 * (m11 * (m03 * m32)) == 0) by (nonlinear_arith)
        requires
            m10 == 0,
            m20 == 0,
            m21 == 0,
            m30 == 0,
            m31 == 0,
            m32 == 0,
    ;
    assert(m20 * (m31 * (m02 * m13)) == 0) by (nonlinear_arith)
        requires
            m10 == 0,
            m20 == 0,
            m21 == 0,
            m30 == 0,
            m31 == 0,
            m32 == 0,
    ;
    assert(m20 * (m31 * (m03 * m12)) == 0) by (nonlinear_arith)
        requires
            m10 == 0,
            m20 == 0,
            m21 == 0,
            m30 == 0,
            m31 == 0,
            m32 == 0,
    ;
    assert(m30 * (m01 * (m12 * m23)) == 0) by (nonlinear_arith)
        requires
            m10 == 0,
            m20 == 0,
            m21 == 0,
            m30 == 0,
            m31 == 0,
            m32 == 0,
    ;
    assert(m30 * (m01 * (m13 * m22)) == 0) by (nonlinear_arith)
        requires
            m10 == 0,
            m20 == 0,
            m21 == 0,
            m30 == 0,
            m31 == 0,
            m32 == 0,
    ;
    assert(m30 * (m11 * (m02 * m23)) == 0) by (nonlinear_arith)
        requires
            m10 == 0,
            m20 == 0,
            m21 == 0,
            m30 == 0,
            m31 == 0,
            m32 == 0,
    ;
    assert(m30 * (m11 * (m03 * m22)) == 0) by (nonlinear_arith)
        requires
            m10 == 0,
            m20 == 0,
            m21 == 0,
            m30 == 0,
            m31 == 0,
            m32 == 0,
    ;
    assert(m30 * (m21 * (m02 * m13)) == 0) by (nonlinear_arith)
        requires
            m10 == 0,
            m20 == 0,
            m21 == 0,
            m30 == 0,
            m31 == 0,
            m32 == 0,
    ;
    assert(m30 * (m21 * (m03 * m12)) == 0) by (nonlinear_arith)
        requires
            m10 == 0,
            m20 == 0,
            m21 == 0,
            m30 == 0,
            m31 == 0,
            m32 == 0,
    ;
    assert(m00 * (m11 * (m22 * m33)) == m00 * m11 * m22 * m33) by (nonlinear_arith);
}

} // verus!
