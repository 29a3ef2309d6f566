//! The determinant of an integer matrix is that of its transpose.

use vstd::prelude::*;
use crate::determinant_value::{
    det2_value, det3_value, det4_value, lemma_det3_value_expanded, lemma_det4_value_expanded,
};

verus! {

/// The two-by-two determinant of the transposed entries.
pub proof fn lemma_det2_value_transposed(m00: int, m01: int, m10: int, m11: int)
    ensures
        det2_value(m00, m10, m01, m11) == det2_value(m00, m01, m10, m11),
{
    assert(m10 * m01 == m01 * m10) by (nonlinear_arith);
}

/// The three-by-three determinant of the transposed entries.
pub proof fn lemma_det3_value_transposed(
    m00: int,
    m01: int,
    m02: int,
    m10: int,
    m11: int,
    m12: int,
    m20: int,
    m21: int,
    m22: int,
)
    ensures
        det3_value(m00, m10, m20, m01, m11, m21, m02, m12, m22) == det3_value(m00, m01, m02, m10,
            m11, m12, m20, m21, m22),
{
    lemma_det3_value_expanded(m00, m01, m02, m10, m11, m12, m20, m21, m22);
    lemma_det3_value_expanded(m00, m10, m20, m01, m11, m21, m02, m12, m22);
    assert(m00 * (m21 * m12) == m00 * (m12 * m21)) by (nonlinear_arith);
    assert(m01 * (m10 * m22) == m10 * (m01 * m22)) by (nonlinear_arith);
    assert(m01 * (m20 * m12) == m20 * (m01 * m12)) by (nonlinear_arith);
    assert(m02 * (m10 * m21) == m10 * (m02 * m21)) by (nonlinear_arith);
    assert(m02 * (m20 * m11) == m20 * (m02 * m11)) by (nonlinear_arith);
}

/// The four-by-four determinant of the transposed entries.
pub proof fn lemma_det4_value_transposed(
    m00: int,
    m01: int,
    m02: int,
    m03: int,
    m10: int,
    m11: int,
    m12: int,
    m13: int,
    m20: int,
    m21: int,
    m22: int,
    m23: int,
    m30: int,
    m31: int,
    m32: int,
    m33: int,
)
    ensures
        det4_value(m00, m10, m20, m30, m01, m11, m21, m31, m02, m12, m22, m32, m03, m13, m23,
            m33) == det4_value(m00, m01, m02, m03, m10, m11, m12, m13, m20, m21, m22, m23, m30,
            m31, m32, m33),
{
    lemma_det4_value_expanded(m00, m01, m02, m03, m10, m11, m12, m13, m20, m21, m22, m23, m30, m31,
        m32, m33);
    lemma_det4_value_expanded(m00, m10, m20, m30, m01, m11, m21, m31, m02, m12, m22, m32, m03, m13,
        m23, m33);
    assert(m00 * (m11 * (m32 * m23)) == m00 * (m11 * (m23 * m32))) by (nonlinear_arith);
    assert(m00 * (m12 * (m21 * m33)) == m00 * (m21 * (m12 * m33))) by (nonlinear_arith);
    assert(m00 * (m12 * (m31 * m23)) == m00 * (m31 * (m12 * m23))) by (nonlinear_arith);
    assert(m00 * (m13 * (m21 * m32)) == m00 * (m21 * (m13 * m32))) by (nonlinear_arith);
    assert(m00 * (m13 * (m31 * m22)) == m00 * (m31 * (m13 * m22))) by (nonlinear_arith);
    assert(m01 * (m10 * (m22 * m33)) == m10 * (m01 * (m22 * m33))) by (nonlinear_arith);
    assert(m01 * (m10 * (m32 * m23)) == m10 * (m01 * (m23 * m32))) by (nonlinear_arith);
    assert(m01 * (m12 * (m20 * m33)) == m20 * (m01 * (m12 * m33))) by (nonlinear_arith);
    assert(m01 * (m12 * (m30 * m23)) == m30 * (m01 * (m12 * m23))) by (nonlinear_arith);
    assert(m01 * (m13 * (m20 * m32)) == m20 * (m01 * (m13 * m32))) by (nonlinear_arith);
    assert(m01 * (m13 * (m30 * m22)) == m30 * (m01 * (m13 * m22))) by (nonlinear_arith);
    assert(m02 * (m10 * (m21 * m33)) == m10 * (m21 * (m02 * m33))) by (nonlinear_arith);
    assert(m02 * (m10 * (m31 * m23)) == m10 * (m31 * (m02 * m23))) by (nonlinear_arith);
    assert(m02 * (m11 * (m20 * m33)) == m20 * (m11 * (m02 * m33))) by (nonlinear_arith);
    assert(m02 * (m11 * (m30 * m23)) == m30 * (m11 * (m02 * m23))) by (nonlinear_arith);
    assert(m02 * (m13 * (m20 * m31)) == m20 * (m31 * (m02 * m13))) by (nonlinear_arith);
    assert(m02 * (m13 * (m30 * m21)) == m30 * (m21 * (m02 * m13))) by (nonlinear_arith);
    assert(m03 * (m10 * (m21 * m32)) == m10 * (m21 * (m03 * m32))) by (nonlinear_arith);
    assert(m03 * (m10 * (m31 * m22)) == m10 * (m31 * (m03 * m22))) by (nonlinear_arith);
    assert(m03 * (m11 * (m20 * m32)) == m20 * (m11 * (m03 * m32))) by (nonlinear_arith);
    assert(m03 * (m11 * (m30 * m22)) == m30 * (m11 * (m03 * m22))) by (nonlinear_arith);
    assert(m03 * (m12 * (m20 * m31)) == m20 * (m31 * (m03 * m12))) by (nonlinear_arith);
    assert(m03 * (m12 * (m30 * m21)) == m30 * (m21 * (m03 * m12))) by (nonlinear_arith);
}

} // verus!
