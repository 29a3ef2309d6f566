//! Laws of the inverse, proved for every signed integer scalar: the
//! determinant, the adjugate and the inverse of the transpose are the
//! determinant, the transposed adjugate and the transposed inverse of the
//! matrix; and the inverse of a matrix whose determinant is one or minus
//! one, the integer matrices that have an inverse, is an inverse on both
//! sides.

use vstd::prelude::*;
use crate::adjugate_value::{
    lemma_det2_value_left_0_0, lemma_det2_value_left_0_1, lemma_det2_value_left_1_0,
    lemma_det2_value_left_1_1, lemma_det2_value_right_0_0, lemma_det2_value_right_0_1,
    lemma_det2_value_right_1_0, lemma_det2_value_right_1_1, lemma_det3_value_left_0_0,
    lemma_det3_value_left_0_1, lemma_det3_value_left_0_2, lemma_det3_value_left_1_0,
    lemma_det3_value_left_1_1, lemma_det3_value_left_1_2, lemma_det3_value_left_2_0,
    lemma_det3_value_left_2_1, lemma_det3_value_left_2_2, lemma_det3_value_right_0_0,
    lemma_det3_value_right_0_1, lemma_det3_value_right_0_2, lemma_det3_value_right_1_0,
    lemma_det3_value_right_1_1, lemma_det3_value_right_1_2, lemma_det3_value_right_2_0,
    lemma_det3_value_right_2_1, lemma_det3_value_right_2_2, lemma_det4_value_left_0_0,
    lemma_det4_value_left_0_1, lemma_det4_value_left_0_2, lemma_det4_value_left_0_3,
    lemma_det4_value_left_1_0, lemma_det4_value_left_1_1, lemma_det4_value_left_1_2,
    lemma_det4_value_left_1_3, lemma_det4_value_left_2_0, lemma_det4_value_left_2_1,
    lemma_det4_value_left_2_2, lemma_det4_value_left_2_3, lemma_det4_value_left_3_0,
    lemma_det4_value_left_3_1, lemma_det4_value_left_3_2, lemma_det4_value_left_3_3,
    lemma_det4_value_right_0_0, lemma_det4_value_right_0_1, lemma_det4_value_right_0_2,
    lemma_det4_value_right_0_3, lemma_det4_value_right_1_0, lemma_det4_value_right_1_1,
    lemma_det4_value_right_1_2, lemma_det4_value_right_1_3, lemma_det4_value_right_2_0,
    lemma_det4_value_right_2_1, lemma_det4_value_right_2_2, lemma_det4_value_right_2_3,
    lemma_det4_value_right_3_0, lemma_det4_value_right_3_1, lemma_det4_value_right_3_2,
    lemma_det4_value_right_3_3,
};
use crate::determinant::{det2, det3};
use crate::determinant_value::{det2_value, det3_value};
use crate::laws_determinant::{
    lemma_det2_value, lemma_det3_value, lemma_matrix2x2_determinant_value,
    lemma_matrix3x3_determinant_value, lemma_matrix4x4_determinant_value,
};
use crate::matrix2x2::Matrix2x2;
use crate::matrix3x3::Matrix3x3;
use crate::matrix4x4::Matrix4x4;
use crate::scalar::{ExactScalar, ExactSigned};
use crate::transpose_value::{
    lemma_det2_value_transposed, lemma_det3_value_transposed, lemma_det4_value_transposed,
};

verus! {

/// For every two-by-two matrix `a`: where the determinants of `a` and of its
/// transpose are both defined, they are equal.
pub proof fn lemma_matrix2x2_transpose_determinant<S: ExactScalar>(a: Matrix2x2<S>)
    requires
        a.can_determinant(),
        a.transposed().can_determinant(),
    ensures
        a.transposed().determinant_spec() == a.determinant_spec(),
{
    lemma_matrix2x2_determinant_value(a);
    lemma_matrix2x2_determinant_value(a.transposed());
    lemma_det2_value_transposed(
        a.c0.x.value(), a.c0.y.value(), a.c1.x.value(), a.c1.y.value(),
    );
    S::lemma_value_injective(a.transposed().determinant_spec(), a.determinant_spec());
}

/// For every two-by-two matrix `a`: where the adjugates of `a` and of its
/// transpose are both defined, the adjugate of the transpose is the
/// transpose of the adjugate.
pub proof fn lemma_matrix2x2_transpose_adjugate<S: ExactSigned>(a: Matrix2x2<S>)
    requires
        a.can_adjugate(),
        a.transposed().can_adjugate(),
    ensures
        a.transposed().adjugate_spec() == a.adjugate_spec().transposed(),
{
}

/// For every two-by-two matrix `a`: where the inverses of `a` and of its
/// transpose can both be computed, the inverse of the transpose is the
/// transpose of the inverse, and the one is absent exactly when the other is.
pub proof fn lemma_matrix2x2_transpose_inverse<S: ExactSigned>(a: Matrix2x2<S>)
    requires
        a.can_inverse(),
        a.transposed().can_inverse(),
    ensures
        a.transposed().inverse_spec() == (match a.inverse_spec() {
            Some(m) => Some(m.transposed()),
            None => None,
        }),
{
    lemma_matrix2x2_transpose_determinant(a);
    if a.is_invertible_spec() {
        lemma_matrix2x2_transpose_adjugate(a);
    }
}

/// For every three-by-three matrix `a`: where the determinants of `a` and of its
/// transpose are both defined, they are equal.
pub proof fn lemma_matrix3x3_transpose_determinant<S: ExactScalar>(a: Matrix3x3<S>)
    requires
        a.can_determinant(),
        a.transposed().can_determinant(),
    ensures
        a.transposed().determinant_spec() == a.determinant_spec(),
{
    lemma_matrix3x3_determinant_value(a);
    lemma_matrix3x3_determinant_value(a.transposed());
    lemma_det3_value_transposed(
        a.c0.x.value(), a.c0.y.value(), a.c0.z.value(), a.c1.x.value(), a.c1.y.value(),
            a.c1.z.value(), a.c2.x.value(), a.c2.y.value(), a.c2.z.value(),
    );
    S::lemma_value_injective(a.transposed().determinant_spec(), a.determinant_spec());
}

/// For every three-by-three matrix `a`: where the adjugates of `a` and of its
/// transpose are both defined, the adjugate of the transpose is the
/// transpose of the adjugate.
pub proof fn lemma_matrix3x3_transpose_adjugate<S: ExactSigned>(a: Matrix3x3<S>)
    requires
        a.can_adjugate(),
        a.transposed().can_adjugate(),
    ensures
        a.transposed().adjugate_spec() == a.adjugate_spec().transposed(),
{
    lemma_det2_value(a.c1.y, a.c2.y, a.c1.z, a.c2.z);
    lemma_det2_value(a.c1.y, a.c1.z, a.c2.y, a.c2.z);
    lemma_det2_value_transposed(a.c1.y.value(), a.c1.z.value(), a.c2.y.value(), a.c2.z.value());
    S::lemma_value_injective(det2(a.c1.y, a.c2.y, a.c1.z, a.c2.z), det2(a.c1.y, a.c1.z, a.c2.y,
        a.c2.z));
    lemma_det2_value(a.c1.x, a.c2.x, a.c1.z, a.c2.z);
    S::lemma_neg(det2(a.c1.x, a.c2.x, a.c1.z, a.c2.z));
    lemma_det2_value(a.c1.x, a.c1.z, a.c2.x, a.c2.z);
    S::lemma_neg(det2(a.c1.x, a.c1.z, a.c2.x, a.c2.z));
    lemma_det2_value_transposed(a.c1.x.value(), a.c1.z.value(), a.c2.x.value(), a.c2.z.value());
    S::lemma_value_injective(det2(a.c1.x, a.c2.x, a.c1.z, a.c2.z).negated(), det2(a.c1.x, a.c1.z,
        a.c2.x, a.c2.z).negated());
    lemma_det2_value(a.c1.x, a.c2.x, a.c1.y, a.c2.y);
    lemma_det2_value(a.c1.x, a.c1.y, a.c2.x, a.c2.y);
    lemma_det2_value_transposed(a.c1.x.value(), a.c1.y.value(), a.c2.x.value(), a.c2.y.value());
    S::lemma_value_injective(det2(a.c1.x, a.c2.x, a.c1.y, a.c2.y), det2(a.c1.x, a.c1.y, a.c2.x,
        a.c2.y));
    lemma_det2_value(a.c0.y, a.c2.y, a.c0.z, a.c2.z);
    S::lemma_neg(det2(a.c0.y, a.c2.y, a.c0.z, a.c2.z));
    lemma_det2_value(a.c0.y, a.c0.z, a.c2.y, a.c2.z);
    S::lemma_neg(det2(a.c0.y, a.c0.z, a.c2.y, a.c2.z));
    lemma_det2_value_transposed(a.c0.y.value(), a.c0.z.value(), a.c2.y.value(), a.c2.z.value());
    S::lemma_value_injective(det2(a.c0.y, a.c2.y, a.c0.z, a.c2.z).negated(), det2(a.c0.y, a.c0.z,
        a.c2.y, a.c2.z).negated());
    lemma_det2_value(a.c0.x, a.c2.x, a.c0.z, a.c2.z);
    lemma_det2_value(a.c0.x, a.c0.z, a.c2.x, a.c2.z);
    lemma_det2_value_transposed(a.c0.x.value(), a.c0.z.value(), a.c2.x.value(), a.c2.z.value());
    S::lemma_value_injective(det2(a.c0.x, a.c2.x, a.c0.z, a.c2.z), det2(a.c0.x, a.c0.z, a.c2.x,
        a.c2.z));
    lemma_det2_value(a.c0.x, a.c2.x, a.c0.y, a.c2.y);
    S::lemma_neg(det2(a.c0.x, a.c2.x, a.c0.y, a.c2.y));
    lemma_det2_value(a.c0.x, a.c0.y, a.c2.x, a.c2.y);
    S::lemma_neg(det2(a.c0.x, a.c0.y, a.c2.x, a.c2.y));
    lemma_det2_value_transposed(a.c0.x.value(), a.c0.y.value(), a.c2.x.value(), a.c2.y.value());
    S::lemma_value_injective(det2(a.c0.x, a.c2.x, a.c0.y, a.c2.y).negated(), det2(a.c0.x, a.c0.y,
        a.c2.x, a.c2.y).negated());
    lemma_det2_value(a.c0.y, a.c1.y, a.c0.z, a.c1.z);
    lemma_det2_value(a.c0.y, a.c0.z, a.c1.y, a.c1.z);
    lemma_det2_value_transposed(a.c0.y.value(), a.c0.z.value(), a.c1.y.value(), a.c1.z.value());
    S::lemma_value_injective(det2(a.c0.y, a.c1.y, a.c0.z, a.c1.z), det2(a.c0.y, a.c0.z, a.c1.y,
        a.c1.z));
    lemma_det2_value(a.c0.x, a.c1.x, a.c0.z, a.c1.z);
    S::lemma_neg(det2(a.c0.x, a.c1.x, a.c0.z, a.c1.z));
    lemma_det2_value(a.c0.x, a.c0.z, a.c1.x, a.c1.z);
    S::lemma_neg(det2(a.c0.x, a.c0.z, a.c1.x, a.c1.z));
    lemma_det2_value_transposed(a.c0.x.value(), a.c0.z.value(), a.c1.x.value(), a.c1.z.value());
    S::lemma_value_injective(det2(a.c0.x, a.c1.x, a.c0.z, a.c1.z).negated(), det2(a.c0.x, a.c0.z,
        a.c1.x, a.c1.z).negated());
    lemma_det2_value(a.c0.x, a.c1.x, a.c0.y, a.c1.y);
    lemma_det2_value(a.c0.x, a.c0.y, a.c1.x, a.c1.y);
    lemma_det2_value_transposed(a.c0.x.value(), a.c0.y.value(), a.c1.x.value(), a.c1.y.value());
    S::lemma_value_injective(det2(a.c0.x, a.c1.x, a.c0.y, a.c1.y), det2(a.c0.x, a.c0.y, a.c1.x,
        a.c1.y));
}

/// For every three-by-three matrix `a`: where the inverses of `a` and of its
/// transpose can both be computed, the inverse of the transpose is the
/// transpose of the inverse, and the one is absent exactly when the other is.
pub proof fn lemma_matrix3x3_transpose_inverse<S: ExactSigned>(a: Matrix3x3<S>)
    requires
        a.can_inverse(),
        a.transposed().can_inverse(),
    ensures
        a.transposed().inverse_spec() == (match a.inverse_spec() {
            Some(m) => Some(m.transposed()),
            None => None,
        }),
{
    lemma_matrix3x3_transpose_determinant(a);
    if a.is_invertible_spec() {
        lemma_matrix3x3_transpose_adjugate(a);
    }
}

/// For every four-by-four matrix `a`: where the determinants of `a` and of its
/// transpose are both defined, they are equal.
pub proof fn lemma_matrix4x4_transpose_determinant<S: ExactScalar>(a: Matrix4x4<S>)
    requires
        a.can_determinant(),
        a.transposed().can_determinant(),
    ensures
        a.transposed().determinant_spec() == a.determinant_spec(),
{
    lemma_matrix4x4_determinant_value(a);
    lemma_matrix4x4_determinant_value(a.transposed());
    lemma_det4_value_transposed(
        a.c0.x.value(), a.c0.y.value(), a.c0.z.value(), a.c0.w.value(), a.c1.x.value(),
            a.c1.y.value(), a.c1.z.value(), a.c1.w.value(), a.c2.x.value(), a.c2.y.value(),
            a.c2.z.value(), a.c2.w.value(), a.c3.x.value(), a.c3.y.value(), a.c3.z.value(),
            a.c3.w.value(),
    );
    S::lemma_value_injective(a.transposed().determinant_spec(), a.determinant_spec());
}

/// For every four-by-four matrix `a`: where the adjugates of `a` and of its
/// transpose are both defined, the adjugate of the transpose is the
/// transpose of the adjugate.
pub proof fn lemma_matrix4x4_transpose_adjugate<S: ExactSigned>(a: Matrix4x4<S>)
    requires
        a.can_adjugate(),
        a.transposed().can_adjugate(),
    ensures
        a.transposed().adjugate_spec() == a.adjugate_spec().transposed(),
{
    lemma_det3_value(a.c1.y, a.c2.y, a.c3.y, a.c1.z, a.c2.z, a.c3.z, a.c1.w, a.c2.w, a.c3.w);
    lemma_det3_value(a.c1.y, a.c1.z, a.c1.w, a.c2.y, a.c2.z, a.c2.w, a.c3.y, a.c3.z, a.c3.w);
    lemma_det3_value_transposed(a.c1.y.value(), a.c1.z.value(), a.c1.w.value(), a.c2.y.value(),
        a.c2.z.value(), a.c2.w.value(), a.c3.y.value(), a.c3.z.value(), a.c3.w.value());
    S::lemma_value_injective(det3(a.c1.y, a.c2.y, a.c3.y, a.c1.z, a.c2.z, a.c3.z, a.c1.w, a.c2.w,
        a.c3.w), det3(a.c1.y, a.c1.z, a.c1.w, a.c2.y, a.c2.z, a.c2.w, a.c3.y, a.c3.z, a.c3.w));
    lemma_det3_value(a.c1.x, a.c2.x, a.c3.x, a.c1.z, a.c2.z, a.c3.z, a.c1.w, a.c2.w, a.c3.w);
    S::lemma_neg(det3(a.c1.x, a.c2.x, a.c3.x, a.c1.z, a.c2.z, a.c3.z, a.c1.w, a.c2.w, a.c3.w));
    lemma_det3_value(a.c1.x, a.c1.z, a.c1.w, a.c2.x, a.c2.z, a.c2.w, a.c3.x, a.c3.z, a.c3.w);
    S::lemma_neg(det3(a.c1.x, a.c1.z, a.c1.w, a.c2.x, a.c2.z, a.c2.w, a.c3.x, a.c3.z, a.c3.w));
    lemma_det3_value_transposed(a.c1.x.value(), a.c1.z.value(), a.c1.w.value(), a.c2.x.value(),
        a.c2.z.value(), a.c2.w.value(), a.c3.x.value(), a.c3.z.value(), a.c3.w.value());
    S::lemma_value_injective(det3(a.c1.x, a.c2.x, a.c3.x, a.c1.z, a.c2.z, a.c3.z, a.c1.w, a.c2.w,
        a.c3.w).negated(), det3(a.c1.x, a.c1.z, a.c1.w, a.c2.x, a.c2.z, a.c2.w, a.c3.x, a.c3.z,
        a.c3.w).negated());
    lemma_det3_value(a.c1.x, a.c2.x, a.c3.x, a.c1.y, a.c2.y, a.c3.y, a.c1.w, a.c2.w, a.c3.w);
    lemma_det3_value(a.c1.x, a.c1.y, a.c1.w, a.c2.x, a.c2.y, a.c2.w, a.c3.x, a.c3.y, a.c3.w);
    lemma_det3_value_transposed(a.c1.x.value(), a.c1.y.value(), a.c1.w.value(), a.c2.x.value(),
        a.c2.y.value(), a.c2.w.value(), a.c3.x.value(), a.c3.y.value(), a.c3.w.value());
    S::lemma_value_injective(det3(a.c1.x, a.c2.x, a.c3.x, a.c1.y, a.c2.y, a.c3.y, a.c1.w, a.c2.w,
        a.c3.w), det3(a.c1.x, a.c1.y, a.c1.w, a.c2.x, a.c2.y, a.c2.w, a.c3.x, a.c3.y, a.c3.w));
    lemma_det3_value(a.c1.x, a.c2.x, a.c3.x, a.c1.y, a.c2.y, a.c3.y, a.c1.z, a.c2.z, a.c3.z);
    S::lemma_neg(det3(a.c1.x, a.c2.x, a.c3.x, a.c1.y, a.c2.y, a.c3.y, a.c1.z, a.c2.z, a.c3.z));
    lemma_det3_value(a.c1.x, a.c1.y, a.c1.z, a.c2.x, a.c2.y, a.c2.z, a.c3.x, a.c3.y, a.c3.z);
    S::lemma_neg(det3(a.c1.x, a.c1.y, a.c1.z, a.c2.x, a.c2.y, a.c2.z, a.c3.x, a.c3.y, a.c3.z));
    lemma_det3_value_transposed(a.c1.x.value(), a.c1.y.value(), a.c1.z.value(), a.c2.x.value(),
        a.c2.y.value(), a.c2.z.value(), a.c3.x.value(), a.c3.y.value(), a.c3.z.value());
    S::lemma_value_injective(det3(a.c1.x, a.c2.x, a.c3.x, a.c1.y, a.c2.y, a.c3.y, a.c1.z, a.c2.z,
        a.c3.z).negated(), det3(a.c1.x, a.c1.y, a.c1.z, a.c2.x, a.c2.y, a.c2.z, a.c3.x, a.c3.y,
        a.c3.z).negated());
    lemma_det3_value(a.c0.y, a.c2.y, a.c3.y, a.c0.z, a.c2.z, a.c3.z, a.c0.w, a.c2.w, a.c3.w);
    S::lemma_neg(det3(a.c0.y, a.c2.y, a.c3.y, a.c0.z, a.c2.z, a.c3.z, a.c0.w, a.c2.w, a.c3.w));
    lemma_det3_value(a.c0.y, a.c0.z, a.c0.w, a.c2.y, a.c2.z, a.c2.w, a.c3.y, a.c3.z, a.c3.w);
    S::lemma_neg(det3(a.c0.y, a.c0.z, a.c0.w, a.c2.y, a.c2.z, a.c2.w, a.c3.y, a.c3.z, a.c3.w));
    lemma_det3_value_transposed(a.c0.y.value(), a.c0.z.value(), a.c0.w.value(), a.c2.y.value(),
        a.c2.z.value(), a.c2.w.value(), a.c3.y.value(), a.c3.z.value(), a.c3.w.value());
    S::lemma_value_injective(det3(a.c0.y, a.c2.y, a.c3.y, a.c0.z, a.c2.z, a.c3.z, a.c0.w, a.c2.w,
        a.c3.w).negated(), det3(a.c0.y, a.c0.z, a.c0.w, a.c2.y, a.c2.z, a.c2.w, a.c3.y, a.c3.z,
        a.c3.w).negated());
    lemma_det3_value(a.c0.x, a.c2.x, a.c3.x, a.c0.z, a.c2.z, a.c3.z, a.c0.w, a.c2.w, a.c3.w);
    lemma_det3_value(a.c0.x, a.c0.z, a.c0.w, a.c2.x, a.c2.z, a.c2.w, a.c3.x, a.c3.z, a.c3.w);
    lemma_det3_value_transposed(a.c0.x.value(), a.c0.z.value(), a.c0.w.value(), a.c2.x.value(),
        a.c2.z.value(), a.c2.w.value(), a.c3.x.value(), a.c3.z.value(), a.c3.w.value());
    S::lemma_value_injective(det3(a.c0.x, a.c2.x, a.c3.x, a.c0.z, a.c2.z, a.c3.z, a.c0.w, a.c2.w,
        a.c3.w), det3(a.c0.x, a.c0.z, a.c0.w, a.c2.x, a.c2.z, a.c2.w, a.c3.x, a.c3.z, a.c3.w));
    lemma_det3_value(a.c0.x, a.c2.x, a.c3.x, a.c0.y, a.c2.y, a.c3.y, a.c0.w, a.c2.w, a.c3.w);
    S::lemma_neg(det3(a.c0.x, a.c2.x, a.c3.x, a.c0.y, a.c2.y, a.c3.y, a.c0.w, a.c2.w, a.c3.w));
    lemma_det3_value(a.c0.x, a.c0.y, a.c0.w, a.c2.x, a.c2.y, a.c2.w, a.c3.x, a.c3.y, a.c3.w);
    S::lemma_neg(det3(a.c0.x, a.c0.y, a.c0.w, a.c2.x, a.c2.y, a.c2.w, a.c3.x, a.c3.y, a.c3.w));
    lemma_det3_value_transposed(a.c0.x.value(), a.c0.y.value(), a.c0.w.value(), a.c2.x.value(),
        a.c2.y.value(), a.c2.w.value(), a.c3.x.value(), a.c3.y.value(), a.c3.w.value());
    S::lemma_value_injective(det3(a.c0.x, a.c2.x, a.c3.x, a.c0.y, a.c2.y, a.c3.y, a.c0.w, a.c2.w,
        a.c3.w).negated(), det3(a.c0.x, a.c0.y, a.c0.w, a.c2.x, a.c2.y, a.c2.w, a.c3.x, a.c3.y,
        a.c3.w).negated());
    lemma_det3_value(a.c0.x, a.c2.x, a.c3.x, a.c0.y, a.c2.y, a.c3.y, a.c0.z, a.c2.z, a.c3.z);
    lemma_det3_value(a.c0.x, a.c0.y, a.c0.z, a.c2.x, a.c2.y, a.c2.z, a.c3.x, a.c3.y, a.c3.z);
    lemma_det3_value_transposed(a.c0.x.value(), a.c0.y.value(), a.c0.z.value(), a.c2.x.value(),
        a.c2.y.value(), a.c2.z.value(), a.c3.x.value(), a.c3.y.value(), a.c3.z.value());
    S::lemma_value_injective(det3(a.c0.x, a.c2.x, a.c3.x, a.c0.y, a.c2.y, a.c3.y, a.c0.z, a.c2.z,
        a.c3.z), det3(a.c0.x, a.c0.y, a.c0.z, a.c2.x, a.c2.y, a.c2.z, a.c3.x, a.c3.y, a.c3.z));
    lemma_det3_value(a.c0.y, a.c1.y, a.c3.y, a.c0.z, a.c1.z, a.c3.z, a.c0.w, a.c1.w, a.c3.w);
    lemma_det3_value(a.c0.y, a.c0.z, a.c0.w, a.c1.y, a.c1.z, a.c1.w, a.c3.y, a.c3.z, a.c3.w);
    lemma_det3_value_transposed(a.c0.y.value(), a.c0.z.value(), a.c0.w.value(), a.c1.y.value(),
        a.c1.z.value(), a.c1.w.value(), a.c3.y.value(), a.c3.z.value(), a.c3.w.value());
    S::lemma_value_injective(det3(a.c0.y, a.c1.y, a.c3.y, a.c0.z, a.c1.z, a.c3.z, a.c0.w, a.c1.w,
        a.c3.w), det3(a.c0.y, a.c0.z, a.c0.w, a.c1.y, a.c1.z, a.c1.w, a.c3.y, a.c3.z, a.c3.w));
    lemma_det3_value(a.c0.x, a.c1.x, a.c3.x, a.c0.z, a.c1.z, a.c3.z, a.c0.w, a.c1.w, a.c3.w);
    S::lemma_neg(det3(a.c0.x, a.c1.x, a.c3.x, a.c0.z, a.c1.z, a.c3.z, a.c0.w, a.c1.w, a.c3.w));
    lemma_det3_value(a.c0.x, a.c0.z, a.c0.w, a.c1.x, a.c1.z, a.c1.w, a.c3.x, a.c3.z, a.c3.w);
    S::lemma_neg(det3(a.c0.x, a.c0.z, a.c0.w, a.c1.x, a.c1.z, a.c1.w, a.c3.x, a.c3.z, a.c3.w));
    lemma_det3_value_transposed(a.c0.x.value(), a.c0.z.value(), a.c0.w.value(), a.c1.x.value(),
        a.c1.z.value(), a.c1.w.value(), a.c3.x.value(), a.c3.z.value(), a.c3.w.value());
    S::lemma_value_injective(det3(a.c0.x, a.c1.x, a.c3.x, a.c0.z, a.c1.z, a.c3.z, a.c0.w, a.c1.w,
        a.c3.w).negated(), det3(a.c0.x, a.c0.z, a.c0.w, a.c1.x, a.c1.z, a.c1.w, a.c3.x, a.c3.z,
        a.c3.w).negated());
    lemma_det3_value(a.c0.x, a.c1.x, a.c3.x, a.c0.y, a.c1.y, a.c3.y, a.c0.w, a.c1.w, a.c3.w);
    lemma_det3_value(a.c0.x, a.c0.y, a.c0.w, a.c1.x, a.c1.y, a.c1.w, a.c3.x, a.c3.y, a.c3.w);
    lemma_det3_value_transposed(a.c0.x.value(), a.c0.y.value(), a.c0.w.value(), a.c1.x.value(),
        a.c1.y.value(), a.c1.w.value(), a.c3.x.value(), a.c3.y.value(), a.c3.w.value());
    S::lemma_value_injective(det3(a.c0.x, a.c1.x, a.c3.x, a.c0.y, a.c1.y, a.c3.y, a.c0.w, a.c1.w,
        a.c3.w), det3(a.c0.x, a.c0.y, a.c0.w, a.c1.x, a.c1.y, a.c1.w, a.c3.x, a.c3.y, a.c3.w));
    lemma_det3_value(a.c0.x, a.c1.x, a.c3.x, a.c0.y, a.c1.y, a.c3.y, a.c0.z, a.c1.z, a.c3.z);
    S::lemma_neg(det3(a.c0.x, a.c1.x, a.c3.x, a.c0.y, a.c1.y, a.c3.y, a.c0.z, a.c1.z, a.c3.z));
    lemma_det3_value(a.c0.x, a.c0.y, a.c0.z, a.c1.x, a.c1.y, a.c1.z, a.c3.x, a.c3.y, a.c3.z);
    S::lemma_neg(det3(a.c0.x, a.c0.y, a.c0.z, a.c1.x, a.c1.y, a.c1.z, a.c3.x, a.c3.y, a.c3.z));
    lemma_det3_value_transposed(a.c0.x.value(), a.c0.y.value(), a.c0.z.value(), a.c1.x.value(),
        a.c1.y.value(), a.c1.z.value(), a.c3.x.value(), a.c3.y.value(), a.c3.z.value());
    S::lemma_value_injective(det3(a.c0.x, a.c1.x, a.c3.x, a.c0.y, a.c1.y, a.c3.y, a.c0.z, a.c1.z,
        a.c3.z).negated(), det3(a.c0.x, a.c0.y, a.c0.z, a.c1.x, a.c1.y, a.c1.z, a.c3.x, a.c3.y,
        a.c3.z).negated());
    lemma_det3_value(a.c0.y, a.c1.y, a.c2.y, a.c0.z, a.c1.z, a.c2.z, a.c0.w, a.c1.w, a.c2.w);
    S::lemma_neg(det3(a.c0.y, a.c1.y, a.c2.y, a.c0.z, a.c1.z, a.c2.z, a.c0.w, a.c1.w, a.c2.w));
    lemma_det3_value(a.c0.y, a.c0.z, a.c0.w, a.c1.y, a.c1.z, a.c1.w, a.c2.y, a.c2.z, a.c2.w);
    S::lemma_neg(det3(a.c0.y, a.c0.z, a.c0.w, a.c1.y, a.c1.z, a.c1.w, a.c2.y, a.c2.z, a.c2.w));
    lemma_det3_value_transposed(a.c0.y.value(), a.c0.z.value(), a.c0.w.value(), a.c1.y.value(),
        a.c1.z.value(), a.c1.w.value(), a.c2.y.value(), a.c2.z.value(), a.c2.w.value());
    S::lemma_value_injective(det3(a.c0.y, a.c1.y, a.c2.y, a.c0.z, a.c1.z, a.c2.z, a.c0.w, a.c1.w,
        a.c2.w).negated(), det3(a.c0.y, a.c0.z, a.c0.w, a.c1.y, a.c1.z, a.c1.w, a.c2.y, a.c2.z,
        a.c2.w).negated());
    lemma_det3_value(a.c0.x, a.c1.x, a.c2.x, a.c0.z, a.c1.z, a.c2.z, a.c0.w, a.c1.w, a.c2.w);
    lemma_det3_value(a.c0.x, a.c0.z, a.c0.w, a.c1.x, a.c1.z, a.c1.w, a.c2.x, a.c2.z, a.c2.w);
    lemma_det3_value_transposed(a.c0.x.value(), a.c0.z.value(), a.c0.w.value(), a.c1.x.value(),
        a.c1.z.value(), a.c1.w.value(), a.c2.x.value(), a.c2.z.value(), a.c2.w.value());
    S::lemma_value_injective(det3(a.c0.x, a.c1.x, a.c2.x, a.c0.z, a.c1.z, a.c2.z, a.c0.w, a.c1.w,
        a.c2.w), det3(a.c0.x, a.c0.z, a.c0.w, a.c1.x, a.c1.z, a.c1.w, a.c2.x, a.c2.z, a.c2.w));
    lemma_det3_value(a.c0.x, a.c1.x, a.c2.x, a.c0.y, a.c1.y, a.c2.y, a.c0.w, a.c1.w, a.c2.w);
    S::lemma_neg(det3(a.c0.x, a.c1.x, a.c2.x, a.c0.y, a.c1.y, a.c2.y, a.c0.w, a.c1.w, a.c2.w));
    lemma_det3_value(a.c0.x, a.c0.y, a.c0.w, a.c1.x, a.c1.y, a.c1.w, a.c2.x, a.c2.y, a.c2.w);
    S::lemma_neg(det3(a.c0.x, a.c0.y, a.c0.w, a.c1.x, a.c1.y, a.c1.w, a.c2.x, a.c2.y, a.c2.w));
    lemma_det3_value_transposed(a.c0.x.value(), a.c0.y.value(), a.c0.w.value(), a.c1.x.value(),
        a.c1.y.value(), a.c1.w.value(), a.c2.x.value(), a.c2.y.value(), a.c2.w.value());
    S::lemma_value_injective(det3(a.c0.x, a.c1.x, a.c2.x, a.c0.y, a.c1.y, a.c2.y, a.c0.w, a.c1.w,
        a.c2.w).negated(), det3(a.c0.x, a.c0.y, a.c0.w, a.c1.x, a.c1.y, a.c1.w, a.c2.x, a.c2.y,
        a.c2.w).negated());
    lemma_det3_value(a.c0.x, a.c1.x, a.c2.x, a.c0.y, a.c1.y, a.c2.y, a.c0.z, a.c1.z, a.c2.z);
    lemma_det3_value(a.c0.x, a.c0.y, a.c0.z, a.c1.x, a.c1.y, a.c1.z, a.c2.x, a.c2.y, a.c2.z);
    lemma_det3_value_transposed(a.c0.x.value(), a.c0.y.value(), a.c0.z.value(), a.c1.x.value(),
        a.c1.y.value(), a.c1.z.value(), a.c2.x.value(), a.c2.y.value(), a.c2.z.value());
    S::lemma_value_injective(det3(a.c0.x, a.c1.x, a.c2.x, a.c0.y, a.c1.y, a.c2.y, a.c0.z, a.c1.z,
        a.c2.z), det3(a.c0.x, a.c0.y, a.c0.z, a.c1.x, a.c1.y, a.c1.z, a.c2.x, a.c2.y, a.c2.z));
}

/// For every four-by-four matrix `a`: where the inverses of `a` and of its
/// transpose can both be computed, the inverse of the transpose is the
/// transpose of the inverse, and the one is absent exactly when the other is.
pub proof fn lemma_matrix4x4_transpose_inverse<S: ExactSigned>(a: Matrix4x4<S>)
    requires
        a.can_inverse(),
        a.transposed().can_inverse(),
    ensures
        a.transposed().inverse_spec() == (match a.inverse_spec() {
            Some(m) => Some(m.transposed()),
            None => None,
        }),
{
    lemma_matrix4x4_transpose_determinant(a);
    if a.is_invertible_spec() {
        lemma_matrix4x4_transpose_adjugate(a);
    }
}

/// For every two-by-two matrix `a` whose determinant is one or minus one and
/// whose inverse can be computed: the inverse is present, and where
/// `a` times its inverse is defined, it is the identity.
pub proof fn lemma_matrix2x2_unimodular_inverse_right<S: ExactSigned>(a: Matrix2x2<S>)
    requires
        a.can_inverse(),
        a.determinant_spec() == S::one_spec() || a.determinant_spec() == S::one_spec().negated(),
        a.inverse_spec() is Some ==> a.can_mul_2x2(a.inverse_spec().unwrap()),
    ensures
        a.inverse_spec() is Some,
        a.times_2x2(a.inverse_spec().unwrap()) == Matrix2x2::<S>::identity_spec(),
{
    S::lemma_identities();
    S::lemma_reciprocal_of_one();
    S::lemma_reciprocal_of_minus_one();
    S::lemma_neg(S::one_spec());
    S::lemma_same(a.determinant_spec(), S::zero_spec());
    lemma_matrix2x2_determinant_value(a);
    let kv = S::one_spec().over(a.determinant_spec()).value();
    let dv = a.determinant_spec().value();
    assert(kv == dv);
    assert(kv * dv == 1) by (nonlinear_arith)
        requires
            kv == dv,
            dv == 1 || dv == -1,
    ;
    {
        S::lemma_mul(S::one_spec().over(a.determinant_spec()), a.c1.y);
        S::lemma_mul(a.c0.x, S::one_spec().over(a.determinant_spec()).times(a.c1.y));
        S::lemma_neg(a.c0.y);
        S::lemma_mul(S::one_spec().over(a.determinant_spec()), a.c0.y.negated());
        S::lemma_mul(a.c1.x, S::one_spec().over(a.determinant_spec()).times(a.c0.y.negated()));
        S::lemma_add(a.c0.x.times(S::one_spec().over(a.determinant_spec()).times(a.c1.y)),
            a.c1.x.times(S::one_spec().over(a.determinant_spec()).times(a.c0.y.negated())));
        let m0 = a.c0.x.value();
        let t0 = a.c1.y.value();
        let p0 = m0 * t0;
        assert(m0 * (kv * t0) == kv * p0) by (nonlinear_arith)
            requires
                p0 == m0 * t0,
        ;
        let m1 = a.c1.x.value();
        let t1 = (-a.c0.y.value());
        let p1 = m1 * t1;
        assert(m1 * (kv * t1) == kv * p1) by (nonlinear_arith)
            requires
                p1 == m1 * t1,
        ;
        assert(kv * p0 + kv * p1 == kv * (p0 + p1)) by (nonlinear_arith);
        lemma_det2_value_right_0_0(
            a.c0.x.value(), a.c0.y.value(), a.c1.x.value(), a.c1.y.value(),
        );
        assert(kv * (p0 + p1) == 1);
        S::lemma_value_injective(a.c0.x.times(S::one_spec().over(a.determinant_spec())
            .times(a.c1.y)).plus(a.c1.x.times(S::one_spec().over(a.determinant_spec())
            .times(a.c0.y.negated()))), S::one_spec());
    }
    {
        S::lemma_mul(S::one_spec().over(a.determinant_spec()), a.c1.y);
        S::lemma_mul(a.c0.y, S::one_spec().over(a.determinant_spec()).times(a.c1.y));
        S::lemma_neg(a.c0.y);
        S::lemma_mul(S::one_spec().over(a.determinant_spec()), a.c0.y.negated());
        S::lemma_mul(a.c1.y, S::one_spec().over(a.determinant_spec()).times(a.c0.y.negated()));
        S::lemma_add(a.c0.y.times(S::one_spec().over(a.determinant_spec()).times(a.c1.y)),
            a.c1.y.times(S::one_spec().over(a.determinant_spec()).times(a.c0.y.negated())));
        let m0 = a.c0.y.value();
        let t0 = a.c1.y.value();
        let p0 = m0 * t0;
        assert(m0 * (kv * t0) == kv * p0) by (nonlinear_arith)
            requires
                p0 == m0 * t0,
        ;
        let m1 = a.c1.y.value();
        let t1 = (-a.c0.y.value());
        let p1 = m1 * t1;
        assert(m1 * (kv * t1) == kv * p1) by (nonlinear_arith)
            requires
                p1 == m1 * t1,
        ;
        assert(kv * p0 + kv * p1 == kv * (p0 + p1)) by (nonlinear_arith);
        lemma_det2_value_right_0_1(
            a.c0.x.value(), a.c0.y.value(), a.c1.x.value(), a.c1.y.value(),
        );
        assert(kv * (p0 + p1) == 0) by (nonlinear_arith)
            requires
                p0 + p1 == 0,
        ;
        S::lemma_value_injective(a.c0.y.times(S::one_spec().over(a.determinant_spec())
            .times(a.c1.y)).plus(a.c1.y.times(S::one_spec().over(a.determinant_spec())
            .times(a.c0.y.negated()))), S::zero_spec());
    }
    {
        S::lemma_neg(a.c1.x);
        S::lemma_mul(S::one_spec().over(a.determinant_spec()), a.c1.x.negated());
        S::lemma_mul(a.c0.x, S::one_spec().over(a.determinant_spec()).times(a.c1.x.negated()));
        S::lemma_mul(S::one_spec().over(a.determinant_spec()), a.c0.x);
        S::lemma_mul(a.c1.x, S::one_spec().over(a.determinant_spec()).times(a.c0.x));
        S::lemma_add(a.c0.x.times(S::one_spec().over(a.determinant_spec())
            .times(a.c1.x.negated())), a.c1.x.times(S::one_spec().over(a.determinant_spec())
            .times(a.c0.x)));
        let m0 = a.c0.x.value();
        let t0 = (-a.c1.x.value());
        let p0 = m0 * t0;
        assert(m0 * (kv * t0) == kv * p0) by (nonlinear_arith)
            requires
                p0 == m0 * t0,
        ;
        let m1 = a.c1.x.value();
        let t1 = a.c0.x.value();
        let p1 = m1 * t1;
        assert(m1 * (kv * t1) == kv * p1) by (nonlinear_arith)
            requires
                p1 == m1 * t1,
        ;
        assert(kv * p0 + kv * p1 == kv * (p0 + p1)) by (nonlinear_arith);
        lemma_det2_value_right_1_0(
            a.c0.x.value(), a.c0.y.value(), a.c1.x.value(), a.c1.y.value(),
        );
        assert(kv * (p0 + p1) == 0) by (nonlinear_arith)
            requires
                p0 + p1 == 0,
        ;
        S::lemma_value_injective(a.c0.x.times(S::one_spec().over(a.determinant_spec())
            .times(a.c1.x.negated())).plus(a.c1.x.times(S::one_spec()
            .over(a.determinant_spec()).times(a.c0.x))), S::zero_spec());
    }
    {
        S::lemma_neg(a.c1.x);
        S::lemma_mul(S::one_spec().over(a.determinant_spec()), a.c1.x.negated());
        S::lemma_mul(a.c0.y, S::one_spec().over(a.determinant_spec()).times(a.c1.x.negated()));
        S::lemma_mul(S::one_spec().over(a.determinant_spec()), a.c0.x);
        S::lemma_mul(a.c1.y, S::one_spec().over(a.determinant_spec()).times(a.c0.x));
        S::lemma_add(a.c0.y.times(S::one_spec().over(a.determinant_spec())
            .times(a.c1.x.negated())), a.c1.y.times(S::one_spec().over(a.determinant_spec())
            .times(a.c0.x)));
        let m0 = a.c0.y.value();
        let t0 = (-a.c1.x.value());
        let p0 = m0 * t0;
        assert(m0 * (kv * t0) == kv * p0) by (nonlinear_arith)
            requires
                p0 == m0 * t0,
        ;
        let m1 = a.c1.y.value();
        let t1 = a.c0.x.value();
        let p1 = m1 * t1;
        assert(m1 * (kv * t1) == kv * p1) by (nonlinear_arith)
            requires
                p1 == m1 * t1,
        ;
        assert(kv * p0 + kv * p1 == kv * (p0 + p1)) by (nonlinear_arith);
        lemma_det2_value_right_1_1(
            a.c0.x.value(), a.c0.y.value(), a.c1.x.value(), a.c1.y.value(),
        );
        assert(kv * (p0 + p1) == 1);
        S::lemma_value_injective(a.c0.y.times(S::one_spec().over(a.determinant_spec())
            .times(a.c1.x.negated())).plus(a.c1.y.times(S::one_spec()
            .over(a.determinant_spec()).times(a.c0.x))), S::one_spec());
    }
}

/// For every two-by-two matrix `a` whose determinant is one or minus one and
/// whose inverse can be computed: the inverse is present, and where
/// the inverse of `a` times `a` is defined, it is the identity.
pub proof fn lemma_matrix2x2_unimodular_inverse_left<S: ExactSigned>(a: Matrix2x2<S>)
    requires
        a.can_inverse(),
        a.determinant_spec() == S::one_spec() || a.determinant_spec() == S::one_spec().negated(),
        a.inverse_spec() is Some ==> a.inverse_spec().unwrap().can_mul_2x2(a),
    ensures
        a.inverse_spec() is Some,
        a.inverse_spec().unwrap().times_2x2(a) == Matrix2x2::<S>::identity_spec(),
{
    S::lemma_identities();
    S::lemma_reciprocal_of_one();
    S::lemma_reciprocal_of_minus_one();
    S::lemma_neg(S::one_spec());
    S::lemma_same(a.determinant_spec(), S::zero_spec());
    lemma_matrix2x2_determinant_value(a);
    let kv = S::one_spec().over(a.determinant_spec()).value();
    let dv = a.determinant_spec().value();
    assert(kv == dv);
    assert(kv * dv == 1) by (nonlinear_arith)
        requires
            kv == dv,
            dv == 1 || dv == -1,
    ;
    {
        S::lemma_mul(S::one_spec().over(a.determinant_spec()), a.c1.y);
        S::lemma_mul(S::one_spec().over(a.determinant_spec()).times(a.c1.y), a.c0.x);
        S::lemma_neg(a.c1.x);
        S::lemma_mul(S::one_spec().over(a.determinant_spec()), a.c1.x.negated());
        S::lemma_mul(S::one_spec().over(a.determinant_spec()).times(a.c1.x.negated()), a.c0.y);
        S::lemma_add(S::one_spec().over(a.determinant_spec()).times(a.c1.y).times(a.c0.x),
            S::one_spec().over(a.determinant_spec()).times(a.c1.x.negated()).times(a.c0.y));
        let m0 = a.c0.x.value();
        let t0 = a.c1.y.value();
        let p0 = t0 * m0;
        assert((kv * t0) * m0 == kv * p0) by (nonlinear_arith)
            requires
                p0 == t0 * m0,
        ;
        let m1 = a.c0.y.value();
        let t1 = (-a.c1.x.value());
        let p1 = t1 * m1;
        assert((kv * t1) * m1 == kv * p1) by (nonlinear_arith)
            requires
                p1 == t1 * m1,
        ;
        assert(kv * p0 + kv * p1 == kv * (p0 + p1)) by (nonlinear_arith);
        lemma_det2_value_left_0_0(
            a.c0.x.value(), a.c0.y.value(), a.c1.x.value(), a.c1.y.value(),
        );
        assert(kv * (p0 + p1) == 1);
        S::lemma_value_injective(S::one_spec().over(a.determinant_spec()).times(a.c1.y)
            .times(a.c0.x).plus(S::one_spec().over(a.determinant_spec())
            .times(a.c1.x.negated()).times(a.c0.y)), S::one_spec());
    }
    {
        S::lemma_neg(a.c0.y);
        S::lemma_mul(S::one_spec().over(a.determinant_spec()), a.c0.y.negated());
        S::lemma_mul(S::one_spec().over(a.determinant_spec()).times(a.c0.y.negated()), a.c0.x);
        S::lemma_mul(S::one_spec().over(a.determinant_spec()), a.c0.x);
        S::lemma_mul(S::one_spec().over(a.determinant_spec()).times(a.c0.x), a.c0.y);
        S::lemma_add(S::one_spec().over(a.determinant_spec()).times(a.c0.y.negated())
            .times(a.c0.x), S::one_spec().over(a.determinant_spec()).times(a.c0.x).times(a.c0.y));
        let m0 = a.c0.x.value();
        let t0 = (-a.c0.y.value());
        let p0 = t0 * m0;
        assert((kv * t0) * m0 == kv * p0) by (nonlinear_arith)
            requires
                p0 == t0 * m0,
        ;
        let m1 = a.c0.y.value();
        let t1 = a.c0.x.value();
        let p1 = t1 * m1;
        assert((kv * t1) * m1 == kv * p1) by (nonlinear_arith)
            requires
                p1 == t1 * m1,
        ;
        assert(kv * p0 + kv * p1 == kv * (p0 + p1)) by (nonlinear_arith);
        lemma_det2_value_left_0_1(
            a.c0.x.value(), a.c0.y.value(), a.c1.x.value(), a.c1.y.value(),
        );
        assert(kv * (p0 + p1) == 0) by (nonlinear_arith)
            requires
                p0 + p1 == 0,
        ;
        S::lemma_value_injective(S::one_spec().over(a.determinant_spec())
            .times(a.c0.y.negated()).times(a.c0.x).plus(S::one_spec()
            .over(a.determinant_spec()).times(a.c0.x).times(a.c0.y)), S::zero_spec());
    }
    {
        S::lemma_mul(S::one_spec().over(a.determinant_spec()), a.c1.y);
        S::lemma_mul(S::one_spec().over(a.determinant_spec()).times(a.c1.y), a.c1.x);
        S::lemma_neg(a.c1.x);
        S::lemma_mul(S::one_spec().over(a.determinant_spec()), a.c1.x.negated());
        S::lemma_mul(S::one_spec().over(a.determinant_spec()).times(a.c1.x.negated()), a.c1.y);
        S::lemma_add(S::one_spec().over(a.determinant_spec()).times(a.c1.y).times(a.c1.x),
            S::one_spec().over(a.determinant_spec()).times(a.c1.x.negated()).times(a.c1.y));
        let m0 = a.c1.x.value();
        let t0 = a.c1.y.value();
        let p0 = t0 * m0;
        assert((kv * t0) * m0 == kv * p0) by (nonlinear_arith)
            requires
                p0 == t0 * m0,
        ;
        let m1 = a.c1.y.value();
        let t1 = (-a.c1.x.value());
        let p1 = t1 * m1;
        assert((kv * t1) * m1 == kv * p1) by (nonlinear_arith)
            requires
                p1 == t1 * m1,
        ;
        assert(kv * p0 + kv * p1 == kv * (p0 + p1)) by (nonlinear_arith);
        lemma_det2_value_left_1_0(
            a.c0.x.value(), a.c0.y.value(), a.c1.x.value(), a.c1.y.value(),
        );
        assert(kv * (p0 + p1) == 0) by (nonlinear_arith)
            requires
                p0 + p1 == 0,
        ;
        S::lemma_value_injective(S::one_spec().over(a.determinant_spec()).times(a.c1.y)
            .times(a.c1.x).plus(S::one_spec().over(a.determinant_spec())
            .times(a.c1.x.negated()).times(a.c1.y)), S::zero_spec());
    }
    {
        S::lemma_neg(a.c0.y);
        S::lemma_mul(S::one_spec().over(a.determinant_spec()), a.c0.y.negated());
        S::lemma_mul(S::one_spec().over(a.determinant_spec()).times(a.c0.y.negated()), a.c1.x);
        S::lemma_mul(S::one_spec().over(a.determinant_spec()), a.c0.x);
        S::lemma_mul(S::one_spec().over(a.determinant_spec()).times(a.c0.x), a.c1.y);
        S::lemma_add(S::one_spec().over(a.determinant_spec()).times(a.c0.y.negated())
            .times(a.c1.x), S::one_spec().over(a.determinant_spec()).times(a.c0.x).times(a.c1.y));
        let m0 = a.c1.x.value();
        let t0 = (-a.c0.y.value());
        let p0 = t0 * m0;
        assert((kv * t0) * m0 == kv * p0) by (nonlinear_arith)
            requires
                p0 == t0 * m0,
        ;
        let m1 = a.c1.y.value();
        let t1 = a.c0.x.value();
        let p1 = t1 * m1;
        assert((kv * t1) * m1 == kv * p1) by (nonlinear_arith)
            requires
                p1 == t1 * m1,
        ;
        assert(kv * p0 + kv * p1 == kv * (p0 + p1)) by (nonlinear_arith);
        lemma_det2_value_left_1_1(
            a.c0.x.value(), a.c0.y.value(), a.c1.x.value(), a.c1.y.value(),
        );
        assert(kv * (p0 + p1) == 1);
        S::lemma_value_injective(S::one_spec().over(a.determinant_spec())
            .times(a.c0.y.negated()).times(a.c1.x).plus(S::one_spec()
            .over(a.determinant_spec()).times(a.c0.x).times(a.c1.y)), S::one_spec());
    }
}

/// For every three-by-three matrix `a` whose determinant is one or minus one and
/// whose inverse can be computed: the inverse is present, and where
/// `a` times its inverse is defined, it is the identity.
pub proof fn lemma_matrix3x3_unimodular_inverse_right<S: ExactSigned>(a: Matrix3x3<S>)
    requires
        a.can_inverse(),
        a.determinant_spec() == S::one_spec() || a.determinant_spec() == S::one_spec().negated(),
        a.inverse_spec() is Some ==> a.can_mul_3x3(a.inverse_spec().unwrap()),
    ensures
        a.inverse_spec() is Some,
        a.times_3x3(a.inverse_spec().unwrap()) == Matrix3x3::<S>::identity_spec(),
{
    S::lemma_identities();
    S::lemma_reciprocal_of_one();
    S::lemma_reciprocal_of_minus_one();
    S::lemma_neg(S::one_spec());
    S::lemma_same(a.determinant_spec(), S::zero_spec());
    lemma_matrix3x3_determinant_value(a);
    let kv = S::one_spec().over(a.determinant_spec()).value();
    let dv = a.determinant_spec().value();
    assert(kv == dv);
    assert(kv * dv == 1) by (nonlinear_arith)
        requires
            kv == dv,
            dv == 1 || dv == -1,
    ;
    {
        lemma_det2_value(a.c1.y, a.c1.z, a.c2.y, a.c2.z);
        S::lemma_mul(S::one_spec().over(a.determinant_spec()), det2(a.c1.y, a.c1.z, a.c2.y,
            a.c2.z));
        S::lemma_mul(a.c0.x, S::one_spec().over(a.determinant_spec()).times(det2(a.c1.y, a.c1.z,
            a.c2.y, a.c2.z)));
        lemma_det2_value(a.c0.y, a.c0.z, a.c2.y, a.c2.z);
        S::lemma_neg(det2(a.c0.y, a.c0.z, a.c2.y, a.c2.z));
        S::lemma_mul(S::one_spec().over(a.determinant_spec()), det2(a.c0.y, a.c0.z, a.c2.y,
            a.c2.z).negated());
        S::lemma_mul(a.c1.x, S::one_spec().over(a.determinant_spec()).times(det2(a.c0.y, a.c0.z,
            a.c2.y, a.c2.z).negated()));
        S::lemma_add(a.c0.x.times(S::one_spec().over(a.determinant_spec()).times(det2(a.c1.y,
            a.c1.z, a.c2.y, a.c2.z))), a.c1.x.times(S::one_spec().over(a.determinant_spec())
            .times(det2(a.c0.y, a.c0.z, a.c2.y, a.c2.z).negated())));
        lemma_det2_value(a.c0.y, a.c0.z, a.c1.y, a.c1.z);
        S::lemma_mul(S::one_spec().over(a.determinant_spec()), det2(a.c0.y, a.c0.z, a.c1.y,
            a.c1.z));
        S::lemma_mul(a.c2.x, S::one_spec().over(a.determinant_spec()).times(det2(a.c0.y, a.c0.z,
            a.c1.y, a.c1.z)));
        S::lemma_add(a.c0.x.times(S::one_spec().over(a.determinant_spec()).times(det2(a.c1.y,
            a.c1.z, a.c2.y, a.c2.z))).plus(a.c1.x.times(S::one_spec()
            .over(a.determinant_spec()).times(det2(a.c0.y, a.c0.z, a.c2.y, a.c2.z).negated()))),
            a.c2.x.times(S::one_spec().over(a.determinant_spec()).times(det2(a.c0.y, a.c0.z,
            a.c1.y, a.c1.z))));
        let m0 = a.c0.x.value();
        let t0 = det2_value(a.c1.y.value(), a.c1.z.value(), a.c2.y.value(), a.c2.z.value());
        let p0 = m0 * t0;
        assert(m0 * (kv * t0) == kv * p0) by (nonlinear_arith)
            requires
                p0 == m0 * t0,
        ;
        let m1 = a.c1.x.value();
        let t1 = (-det2_value(a.c0.y.value(), a.c0.z.value(), a.c2.y.value(), a.c2.z.value()));
        let p1 = m1 * t1;
        assert(m1 * (kv * t1) == kv * p1) by (nonlinear_arith)
            requires
                p1 == m1 * t1,
        ;
        let m2 = a.c2.x.value();
        let t2 = det2_value(a.c0.y.value(), a.c0.z.value(), a.c1.y.value(), a.c1.z.value());
        let p2 = m2 * t2;
        assert(m2 * (kv * t2) == kv * p2) by (nonlinear_arith)
            requires
                p2 == m2 * t2,
        ;
        assert(kv * p0 + kv * p1 + kv * p2 == kv * (p0 + p1 + p2)) by (nonlinear_arith);
        lemma_det3_value_right_0_0(
            a.c0.x.value(), a.c0.y.value(), a.c0.z.value(), a.c1.x.value(), a.c1.y.value(),
                a.c1.z.value(), a.c2.x.value(), a.c2.y.value(), a.c2.z.value(),
        );
        assert(kv * (p0 + p1 + p2) == 1);
        S::lemma_value_injective(a.c0.x.times(S::one_spec().over(a.determinant_spec())
            .times(det2(a.c1.y, a.c1.z, a.c2.y, a.c2.z))).plus(a.c1.x.times(S::one_spec()
            .over(a.determinant_spec()).times(det2(a.c0.y, a.c0.z, a.c2.y,
            a.c2.z).negated()))).plus(a.c2.x.times(S::one_spec().over(a.determinant_spec())
            .times(det2(a.c0.y, a.c0.z, a.c1.y, a.c1.z)))), S::one_spec());
    }
    {
        lemma_det2_value(a.c1.y, a.c1.z, a.c2.y, a.c2.z);
        S::lemma_mul(S::one_spec().over(a.determinant_spec()), det2(a.c1.y, a.c1.z, a.c2.y,
            a.c2.z));
        S::lemma_mul(a.c0.y, S::one_spec().over(a.determinant_spec()).times(det2(a.c1.y, a.c1.z,
            a.c2.y, a.c2.z)));
        lemma_det2_value(a.c0.y, a.c0.z, a.c2.y, a.c2.z);
        S::lemma_neg(det2(a.c0.y, a.c0.z, a.c2.y, a.c2.z));
        S::lemma_mul(S::one_spec().over(a.determinant_spec()), det2(a.c0.y, a.c0.z, a.c2.y,
            a.c2.z).negated());
        S::lemma_mul(a.c1.y, S::one_spec().over(a.determinant_spec()).times(det2(a.c0.y, a.c0.z,
            a.c2.y, a.c2.z).negated()));
        S::lemma_add(a.c0.y.times(S::one_spec().over(a.determinant_spec()).times(det2(a.c1.y,
            a.c1.z, a.c2.y, a.c2.z))), a.c1.y.times(S::one_spec().over(a.determinant_spec())
            .times(det2(a.c0.y, a.c0.z, a.c2.y, a.c2.z).negated())));
        lemma_det2_value(a.c0.y, a.c0.z, a.c1.y, a.c1.z);
        S::lemma_mul(S::one_spec().over(a.determinant_spec()), det2(a.c0.y, a.c0.z, a.c1.y,
            a.c1.z));
        S::lemma_mul(a.c2.y, S::one_spec().over(a.determinant_spec()).times(det2(a.c0.y, a.c0.z,
            a.c1.y, a.c1.z)));
        S::lemma_add(a.c0.y.times(S::one_spec().over(a.determinant_spec()).times(det2(a.c1.y,
            a.c1.z, a.c2.y, a.c2.z))).plus(a.c1.y.times(S::one_spec()
            .over(a.determinant_spec()).times(det2(a.c0.y, a.c0.z, a.c2.y, a.c2.z).negated()))),
            a.c2.y.times(S::one_spec().over(a.determinant_spec()).times(det2(a.c0.y, a.c0.z,
            a.c1.y, a.c1.z))));
        let m0 = a.c0.y.value();
        let t0 = det2_value(a.c1.y.value(), a.c1.z.value(), a.c2.y.value(), a.c2.z.value());
        let p0 = m0 * t0;
        assert(m0 * (kv * t0) == kv * p0) by (nonlinear_arith)
            requires
                p0 == m0 * t0,
        ;
        let m1 = a.c1.y.value();
        let t1 = (-det2_value(a.c0.y.value(), a.c0.z.value(), a.c2.y.value(), a.c2.z.value()));
        let p1 = m1 * t1;
        assert(m1 * (kv * t1) == kv * p1) by (nonlinear_arith)
            requires
                p1 == m1 * t1,
        ;
        let m2 = a.c2.y.value();
        let t2 = det2_value(a.c0.y.value(), a.c0.z.value(), a.c1.y.value(), a.c1.z.value());
        let p2 = m2 * t2;
        assert(m2 * (kv * t2) == kv * p2) by (nonlinear_arith)
            requires
                p2 == m2 * t2,
        ;
        assert(kv * p0 + kv * p1 + kv * p2 == kv * (p0 + p1 + p2)) by (nonlinear_arith);
        lemma_det3_value_right_0_1(
            a.c0.x.value(), a.c0.y.value(), a.c0.z.value(), a.c1.x.value(), a.c1.y.value(),
                a.c1.z.value(), a.c2.x.value(), a.c2.y.value(), a.c2.z.value(),
        );
        assert(kv * (p0 + p1 + p2) == 0) by (nonlinear_arith)
            requires
                p0 + p1 + p2 == 0,
        ;
        S::lemma_value_injective(a.c0.y.times(S::one_spec().over(a.determinant_spec())
            .times(det2(a.c1.y, a.c1.z, a.c2.y, a.c2.z))).plus(a.c1.y.times(S::one_spec()
            .over(a.determinant_spec()).times(det2(a.c0.y, a.c0.z, a.c2.y,
            a.c2.z).negated()))).plus(a.c2.y.times(S::one_spec().over(a.determinant_spec())
            .times(det2(a.c0.y, a.c0.z, a.c1.y, a.c1.z)))), S::zero_spec());
    }
    {
        lemma_det2_value(a.c1.y, a.c1.z, a.c2.y, a.c2.z);
        S::lemma_mul(S::one_spec().over(a.determinant_spec()), det2(a.c1.y, a.c1.z, a.c2.y,
            a.c2.z));
        S::lemma_mul(a.c0.z, S::one_spec().over(a.determinant_spec()).times(det2(a.c1.y, a.c1.z,
            a.c2.y, a.c2.z)));
        lemma_det2_value(a.c0.y, a.c0.z, a.c2.y, a.c2.z);
        S::lemma_neg(det2(a.c0.y, a.c0.z, a.c2.y, a.c2.z));
        S::lemma_mul(S::one_spec().over(a.determinant_spec()), det2(a.c0.y, a.c0.z, a.c2.y,
            a.c2.z).negated());
        S::lemma_mul(a.c1.z, S::one_spec().over(a.determinant_spec()).times(det2(a.c0.y, a.c0.z,
            a.c2.y, a.c2.z).negated()));
        S::lemma_add(a.c0.z.times(S::one_spec().over(a.determinant_spec()).times(det2(a.c1.y,
            a.c1.z, a.c2.y, a.c2.z))), a.c1.z.times(S::one_spec().over(a.determinant_spec())
            .times(det2(a.c0.y, a.c0.z, a.c2.y, a.c2.z).negated())));
        lemma_det2_value(a.c0.y, a.c0.z, a.c1.y, a.c1.z);
        S::lemma_mul(S::one_spec().over(a.determinant_spec()), det2(a.c0.y, a.c0.z, a.c1.y,
            a.c1.z));
        S::lemma_mul(a.c2.z, S::one_spec().over(a.determinant_spec()).times(det2(a.c0.y, a.c0.z,
            a.c1.y, a.c1.z)));
        S::lemma_add(a.c0.z.times(S::one_spec().over(a.determinant_spec()).times(det2(a.c1.y,
            a.c1.z, a.c2.y, a.c2.z))).plus(a.c1.z.times(S::one_spec()
            .over(a.determinant_spec()).times(det2(a.c0.y, a.c0.z, a.c2.y, a.c2.z).negated()))),
            a.c2.z.times(S::one_spec().over(a.determinant_spec()).times(det2(a.c0.y, a.c0.z,
            a.c1.y, a.c1.z))));
        let m0 = a.c0.z.value();
        let t0 = det2_value(a.c1.y.value(), a.c1.z.value(), a.c2.y.value(), a.c2.z.value());
        let p0 = m0 * t0;
        assert(m0 * (kv * t0) == kv * p0) by (nonlinear_arith)
            requires
                p0 == m0 * t0,
        ;
        let m1 = a.c1.z.value();
        let t1 = (-det2_value(a.c0.y.value(), a.c0.z.value(), a.c2.y.value(), a.c2.z.value()));
        let p1 = m1 * t1;
        assert(m1 * (kv * t1) == kv * p1) by (nonlinear_arith)
            requires
                p1 == m1 * t1,
        ;
        let m2 = a.c2.z.value();
        let t2 = det2_value(a.c0.y.value(), a.c0.z.value(), a.c1.y.value(), a.c1.z.value());
        let p2 = m2 * t2;
        assert(m2 * (kv * t2) == kv * p2) by (nonlinear_arith)
            requires
                p2 == m2 * t2,
        ;
        assert(kv * p0 + kv * p1 + kv * p2 == kv * (p0 + p1 + p2)) by (nonlinear_arith);
        lemma_det3_value_right_0_2(
            a.c0.x.value(), a.c0.y.value(), a.c0.z.value(), a.c1.x.value(), a.c1.y.value(),
                a.c1.z.value(), a.c2.x.value(), a.c2.y.value(), a.c2.z.value(),
        );
        assert(kv * (p0 + p1 + p2) == 0) by (nonlinear_arith)
            requires
                p0 + p1 + p2 == 0,
        ;
        S::lemma_value_injective(a.c0.z.times(S::one_spec().over(a.determinant_spec())
            .times(det2(a.c1.y, a.c1.z, a.c2.y, a.c2.z))).plus(a.c1.z.times(S::one_spec()
            .over(a.determinant_spec()).times(det2(a.c0.y, a.c0.z, a.c2.y,
            a.c2.z).negated()))).plus(a.c2.z.times(S::one_spec().over(a.determinant_spec())
            .times(det2(a.c0.y, a.c0.z, a.c1.y, a.c1.z)))), S::zero_spec());
    }
    {
        lemma_det2_value(a.c1.x, a.c1.z, a.c2.x, a.c2.z);
        S::lemma_neg(det2(a.c1.x, a.c1.z, a.c2.x, a.c2.z));
        S::lemma_mul(S::one_spec().over(a.determinant_spec()), det2(a.c1.x, a.c1.z, a.c2.x,
            a.c2.z).negated());
        S::lemma_mul(a.c0.x, S::one_spec().over(a.determinant_spec()).times(det2(a.c1.x, a.c1.z,
            a.c2.x, a.c2.z).negated()));
        lemma_det2_value(a.c0.x, a.c0.z, a.c2.x, a.c2.z);
        S::lemma_mul(S::one_spec().over(a.determinant_spec()), det2(a.c0.x, a.c0.z, a.c2.x,
            a.c2.z));
        S::lemma_mul(a.c1.x, S::one_spec().over(a.determinant_spec()).times(det2(a.c0.x, a.c0.z,
            a.c2.x, a.c2.z)));
        S::lemma_add(a.c0.x.times(S::one_spec().over(a.determinant_spec()).times(det2(a.c1.x,
            a.c1.z, a.c2.x, a.c2.z).negated())), a.c1.x.times(S::one_spec()
            .over(a.determinant_spec()).times(det2(a.c0.x, a.c0.z, a.c2.x, a.c2.z))));
        lemma_det2_value(a.c0.x, a.c0.z, a.c1.x, a.c1.z);
        S::lemma_neg(det2(a.c0.x, a.c0.z, a.c1.x, a.c1.z));
        S::lemma_mul(S::one_spec().over(a.determinant_spec()), det2(a.c0.x, a.c0.z, a.c1.x,
            a.c1.z).negated());
        S::lemma_mul(a.c2.x, S::one_spec().over(a.determinant_spec()).times(det2(a.c0.x, a.c0.z,
            a.c1.x, a.c1.z).negated()));
        S::lemma_add(a.c0.x.times(S::one_spec().over(a.determinant_spec()).times(det2(a.c1.x,
            a.c1.z, a.c2.x, a.c2.z).negated())).plus(a.c1.x.times(S::one_spec()
            .over(a.determinant_spec()).times(det2(a.c0.x, a.c0.z, a.c2.x, a.c2.z)))),
            a.c2.x.times(S::one_spec().over(a.determinant_spec()).times(det2(a.c0.x, a.c0.z,
            a.c1.x, a.c1.z).negated())));
        let m0 = a.c0.x.value();
        let t0 = (-det2_value(a.c1.x.value(), a.c1.z.value(), a.c2.x.value(), a.c2.z.value()));
        let p0 = m0 * t0;
        assert(m0 * (kv * t0) == kv * p0) by (nonlinear_arith)
            requires
                p0 == m0 * t0,
        ;
        let m1 = a.c1.x.value();
        let t1 = det2_value(a.c0.x.value(), a.c0.z.value(), a.c2.x.value(), a.c2.z.value());
        let p1 = m1 * t1;
        assert(m1 * (kv * t1) == kv * p1) by (nonlinear_arith)
            requires
                p1 == m1 * t1,
        ;
        let m2 = a.c2.x.value();
        let t2 = (-det2_value(a.c0.x.value(), a.c0.z.value(), a.c1.x.value(), a.c1.z.value()));
        let p2 = m2 * t2;
        assert(m2 * (kv * t2) == kv * p2) by (nonlinear_arith)
            requires
                p2 == m2 * t2,
        ;
        assert(kv * p0 + kv * p1 + kv * p2 == kv * (p0 + p1 + p2)) by (nonlinear_arith);
        lemma_det3_value_right_1_0(
            a.c0.x.value(), a.c0.y.value(), a.c0.z.value(), a.c1.x.value(), a.c1.y.value(),
                a.c1.z.value(), a.c2.x.value(), a.c2.y.value(), a.c2.z.value(),
        );
        assert(kv * (p0 + p1 + p2) == 0) by (nonlinear_arith)
            requires
                p0 + p1 + p2 == 0,
        ;
        S::lemma_value_injective(a.c0.x.times(S::one_spec().over(a.determinant_spec())
            .times(det2(a.c1.x, a.c1.z, a.c2.x, a.c2.z).negated())).plus(a.c1.x
            .times(S::one_spec().over(a.determinant_spec()).times(det2(a.c0.x, a.c0.z, a.c2.x,
            a.c2.z)))).plus(a.c2.x.times(S::one_spec().over(a.determinant_spec())
            .times(det2(a.c0.x, a.c0.z, a.c1.x, a.c1.z).negated()))), S::zero_spec());
    }
    {
        lemma_det2_value(a.c1.x, a.c1.z, a.c2.x, a.c2.z);
        S::lemma_neg(det2(a.c1.x, a.c1.z, a.c2.x, a.c2.z));
        S::lemma_mul(S::one_spec().over(a.determinant_spec()), det2(a.c1.x, a.c1.z, a.c2.x,
            a.c2.z).negated());
        S::lemma_mul(a.c0.y, S::one_spec().over(a.determinant_spec()).times(det2(a.c1.x, a.c1.z,
            a.c2.x, a.c2.z).negated()));
        lemma_det2_value(a.c0.x, a.c0.z, a.c2.x, a.c2.z);
        S::lemma_mul(S::one_spec().over(a.determinant_spec()), det2(a.c0.x, a.c0.z, a.c2.x,
            a.c2.z));
        S::lemma_mul(a.c1.y, S::one_spec().over(a.determinant_spec()).times(det2(a.c0.x, a.c0.z,
            a.c2.x, a.c2.z)));
        S::lemma_add(a.c0.y.times(S::one_spec().over(a.determinant_spec()).times(det2(a.c1.x,
            a.c1.z, a.c2.x, a.c2.z).negated())), a.c1.y.times(S::one_spec()
            .over(a.determinant_spec()).times(det2(a.c0.x, a.c0.z, a.c2.x, a.c2.z))));
        lemma_det2_value(a.c0.x, a.c0.z, a.c1.x, a.c1.z);
        S::lemma_neg(det2(a.c0.x, a.c0.z, a.c1.x, a.c1.z));
        S::lemma_mul(S::one_spec().over(a.determinant_spec()), det2(a.c0.x, a.c0.z, a.c1.x,
            a.c1.z).negated());
        S::lemma_mul(a.c2.y, S::one_spec().over(a.determinant_spec()).times(det2(a.c0.x, a.c0.z,
            a.c1.x, a.c1.z).negated()));
        S::lemma_add(a.c0.y.times(S::one_spec().over(a.determinant_spec()).times(det2(a.c1.x,
            a.c1.z, a.c2.x, a.c2.z).negated())).plus(a.c1.y.times(S::one_spec()
            .over(a.determinant_spec()).times(det2(a.c0.x, a.c0.z, a.c2.x, a.c2.z)))),
            a.c2.y.times(S::one_spec().over(a.determinant_spec()).times(det2(a.c0.x, a.c0.z,
            a.c1.x, a.c1.z).negated())));
        let m0 = a.c0.y.value();
        let t0 = (-det2_value(a.c1.x.value(), a.c1.z.value(), a.c2.x.value(), a.c2.z.value()));
        let p0 = m0 * t0;
        assert(m0 * (kv * t0) == kv * p0) by (nonlinear_arith)
            requires
                p0 == m0 * t0,
        ;
        let m1 = a.c1.y.value();
        let t1 = det2_value(a.c0.x.value(), a.c0.z.value(), a.c2.x.value(), a.c2.z.value());
        let p1 = m1 * t1;
        assert(m1 * (kv * t1) == kv * p1) by (nonlinear_arith)
            requires
                p1 == m1 * t1,
        ;
        let m2 = a.c2.y.value();
        let t2 = (-det2_value(a.c0.x.value(), a.c0.z.value(), a.c1.x.value(), a.c1.z.value()));
        let p2 = m2 * t2;
        assert(m2 * (kv * t2) == kv * p2) by (nonlinear_arith)
            requires
                p2 == m2 * t2,
        ;
        assert(kv * p0 + kv * p1 + kv * p2 == kv * (p0 + p1 + p2)) by (nonlinear_arith);
        lemma_det3_value_right_1_1(
            a.c0.x.value(), a.c0.y.value(), a.c0.z.value(), a.c1.x.value(), a.c1.y.value(),
                a.c1.z.value(), a.c2.x.value(), a.c2.y.value(), a.c2.z.value(),
        );
        assert(kv * (p0 + p1 + p2) == 1);
        S::lemma_value_injective(a.c0.y.times(S::one_spec().over(a.determinant_spec())
            .times(det2(a.c1.x, a.c1.z, a.c2.x, a.c2.z).negated())).plus(a.c1.y
            .times(S::one_spec().over(a.determinant_spec()).times(det2(a.c0.x, a.c0.z, a.c2.x,
            a.c2.z)))).plus(a.c2.y.times(S::one_spec().over(a.determinant_spec())
            .times(det2(a.c0.x, a.c0.z, a.c1.x, a.c1.z).negated()))), S::one_spec());
    }
    {
        lemma_det2_value(a.c1.x, a.c1.z, a.c2.x, a.c2.z);
        S::lemma_neg(det2(a.c1.x, a.c1.z, a.c2.x, a.c2.z));
        S::lemma_mul(S::one_spec().over(a.determinant_spec()), det2(a.c1.x, a.c1.z, a.c2.x,
            a.c2.z).negated());
        S::lemma_mul(a.c0.z, S::one_spec().over(a.determinant_spec()).times(det2(a.c1.x, a.c1.z,
            a.c2.x, a.c2.z).negated()));
        lemma_det2_value(a.c0.x, a.c0.z, a.c2.x, a.c2.z);
        S::lemma_mul(S::one_spec().over(a.determinant_spec()), det2(a.c0.x, a.c0.z, a.c2.x,
            a.c2.z));
        S::lemma_mul(a.c1.z, S::one_spec().over(a.determinant_spec()).times(det2(a.c0.x, a.c0.z,
            a.c2.x, a.c2.z)));
        S::lemma_add(a.c0.z.times(S::one_spec().over(a.determinant_spec()).times(det2(a.c1.x,
            a.c1.z, a.c2.x, a.c2.z).negated())), a.c1.z.times(S::one_spec()
            .over(a.determinant_spec()).times(det2(a.c0.x, a.c0.z, a.c2.x, a.c2.z))));
        lemma_det2_value(a.c0.x, a.c0.z, a.c1.x, a.c1.z);
        S::lemma_neg(det2(a.c0.x, a.c0.z, a.c1.x, a.c1.z));
        S::lemma_mul(S::one_spec().over(a.determinant_spec()), det2(a.c0.x, a.c0.z, a.c1.x,
            a.c1.z).negated());
        S::lemma_mul(a.c2.z, S::one_spec().over(a.determinant_spec()).times(det2(a.c0.x, a.c0.z,
            a.c1.x, a.c1.z).negated()));
        S::lemma_add(a.c0.z.times(S::one_spec().over(a.determinant_spec()).times(det2(a.c1.x,
            a.c1.z, a.c2.x, a.c2.z).negated())).plus(a.c1.z.times(S::one_spec()
            .over(a.determinant_spec()).times(det2(a.c0.x, a.c0.z, a.c2.x, a.c2.z)))),
            a.c2.z.times(S::one_spec().over(a.determinant_spec()).times(det2(a.c0.x, a.c0.z,
            a.c1.x, a.c1.z).negated())));
        let m0 = a.c0.z.value();
        let t0 = (-det2_value(a.c1.x.value(), a.c1.z.value(), a.c2.x.value(), a.c2.z.value()));
        let p0 = m0 * t0;
        assert(m0 * (kv * t0) == kv * p0) by (nonlinear_arith)
            requires
                p0 == m0 * t0,
        ;
        let m1 = a.c1.z.value();
        let t1 = det2_value(a.c0.x.value(), a.c0.z.value(), a.c2.x.value(), a.c2.z.value());
        let p1 = m1 * t1;
        assert(m1 * (kv * t1) == kv * p1) by (nonlinear_arith)
            requires
                p1 == m1 * t1,
        ;
        let m2 = a.c2.z.value();
        let t2 = (-det2_value(a.c0.x.value(), a.c0.z.value(), a.c1.x.value(), a.c1.z.value()));
        let p2 = m2 * t2;
        assert(m2 * (kv * t2) == kv * p2) by (nonlinear_arith)
            requires
                p2 == m2 * t2,
        ;
        assert(kv * p0 + kv * p1 + kv * p2 == kv * (p0 + p1 + p2)) by (nonlinear_arith);
        lemma_det3_value_right_1_2(
            a.c0.x.value(), a.c0.y.value(), a.c0.z.value(), a.c1.x.value(), a.c1.y.value(),
                a.c1.z.value(), a.c2.x.value(), a.c2.y.value(), a.c2.z.value(),
        );
        assert(kv * (p0 + p1 + p2) == 0) by (nonlinear_arith)
            requires
                p0 + p1 + p2 == 0,
        ;
        S::lemma_value_injective(a.c0.z.times(S::one_spec().over(a.determinant_spec())
            .times(det2(a.c1.x, a.c1.z, a.c2.x, a.c2.z).negated())).plus(a.c1.z
            .times(S::one_spec().over(a.determinant_spec()).times(det2(a.c0.x, a.c0.z, a.c2.x,
            a.c2.z)))).plus(a.c2.z.times(S::one_spec().over(a.determinant_spec())
            .times(det2(a.c0.x, a.c0.z, a.c1.x, a.c1.z).negated()))), S::zero_spec());
    }
    {
        lemma_det2_value(a.c1.x, a.c1.y, a.c2.x, a.c2.y);
        S::lemma_mul(S::one_spec().over(a.determinant_spec()), det2(a.c1.x, a.c1.y, a.c2.x,
            a.c2.y));
        S::lemma_mul(a.c0.x, S::one_spec().over(a.determinant_spec()).times(det2(a.c1.x, a.c1.y,
            a.c2.x, a.c2.y)));
        lemma_det2_value(a.c0.x, a.c0.y, a.c2.x, a.c2.y);
        S::lemma_neg(det2(a.c0.x, a.c0.y, a.c2.x, a.c2.y));
        S::lemma_mul(S::one_spec().over(a.determinant_spec()), det2(a.c0.x, a.c0.y, a.c2.x,
            a.c2.y).negated());
        S::lemma_mul(a.c1.x, S::one_spec().over(a.determinant_spec()).times(det2(a.c0.x, a.c0.y,
            a.c2.x, a.c2.y).negated()));
        S::lemma_add(a.c0.x.times(S::one_spec().over(a.determinant_spec()).times(det2(a.c1.x,
            a.c1.y, a.c2.x, a.c2.y))), a.c1.x.times(S::one_spec().over(a.determinant_spec())
            .times(det2(a.c0.x, a.c0.y, a.c2.x, a.c2.y).negated())));
        lemma_det2_value(a.c0.x, a.c0.y, a.c1.x, a.c1.y);
        S::lemma_mul(S::one_spec().over(a.determinant_spec()), det2(a.c0.x, a.c0.y, a.c1.x,
            a.c1.y));
        S::lemma_mul(a.c2.x, S::one_spec().over(a.determinant_spec()).times(det2(a.c0.x, a.c0.y,
            a.c1.x, a.c1.y)));
        S::lemma_add(a.c0.x.times(S::one_spec().over(a.determinant_spec()).times(det2(a.c1.x,
            a.c1.y, a.c2.x, a.c2.y))).plus(a.c1.x.times(S::one_spec()
            .over(a.determinant_spec()).times(det2(a.c0.x, a.c0.y, a.c2.x, a.c2.y).negated()))),
            a.c2.x.times(S::one_spec().over(a.determinant_spec()).times(det2(a.c0.x, a.c0.y,
            a.c1.x, a.c1.y))));
        let m0 = a.c0.x.value();
        let t0 = det2_value(a.c1.x.value(), a.c1.y.value(), a.c2.x.value(), a.c2.y.value());
        let p0 = m0 * t0;
        assert(m0 * (kv * t0) == kv * p0) by (nonlinear_arith)
            requires
                p0 == m0 * t0,
        ;
        let m1 = a.c1.x.value();
        let t1 = (-det2_value(a.c0.x.value(), a.c0.y.value(), a.c2.x.value(), a.c2.y.value()));
        let p1 = m1 * t1;
        assert(m1 * (kv * t1) == kv * p1) by (nonlinear_arith)
            requires
                p1 == m1 * t1,
        ;
        let m2 = a.c2.x.value();
        let t2 = det2_value(a.c0.x.value(), a.c0.y.value(), a.c1.x.value(), a.c1.y.value());
        let p2 = m2 * t2;
        assert(m2 * (kv * t2) == kv * p2) by (nonlinear_arith)
            requires
                p2 == m2 * t2,
        ;
        assert(kv * p0 + kv * p1 + kv * p2 == kv * (p0 + p1 + p2)) by (nonlinear_arith);
        lemma_det3_value_right_2_0(
            a.c0.x.value(), a.c0.y.value(), a.c0.z.value(), a.c1.x.value(), a.c1.y.value(),
                a.c1.z.value(), a.c2.x.value(), a.c2.y.value(), a.c2.z.value(),
        );
        assert(kv * (p0 + p1 + p2) == 0) by (nonlinear_arith)
            requires
                p0 + p1 + p2 == 0,
        ;
        S::lemma_value_injective(a.c0.x.times(S::one_spec().over(a.determinant_spec())
            .times(det2(a.c1.x, a.c1.y, a.c2.x, a.c2.y))).plus(a.c1.x.times(S::one_spec()
            .over(a.determinant_spec()).times(det2(a.c0.x, a.c0.y, a.c2.x,
            a.c2.y).negated()))).plus(a.c2.x.times(S::one_spec().over(a.determinant_spec())
            .times(det2(a.c0.x, a.c0.y, a.c1.x, a.c1.y)))), S::zero_spec());
    }
    {
        lemma_det2_value(a.c1.x, a.c1.y, a.c2.x, a.c2.y);
        S::lemma_mul(S::one_spec().over(a.determinant_spec()), det2(a.c1.x, a.c1.y, a.c2.x,
            a.c2.y));
        S::lemma_mul(a.c0.y, S::one_spec().over(a.determinant_spec()).times(det2(a.c1.x, a.c1.y,
            a.c2.x, a.c2.y)));
        lemma_det2_value(a.c0.x, a.c0.y, a.c2.x, a.c2.y);
        S::lemma_neg(det2(a.c0.x, a.c0.y, a.c2.x, a.c2.y));
        S::lemma_mul(S::one_spec().over(a.determinant_spec()), det2(a.c0.x, a.c0.y, a.c2.x,
            a.c2.y).negated());
        S::lemma_mul(a.c1.y, S::one_spec().over(a.determinant_spec()).times(det2(a.c0.x, a.c0.y,
            a.c2.x, a.c2.y).negated()));
        S::lemma_add(a.c0.y.times(S::one_spec().over(a.determinant_spec()).times(det2(a.c1.x,
            a.c1.y, a.c2.x, a.c2.y))), a.c1.y.times(S::one_spec().over(a.determinant_spec())
            .times(det2(a.c0.x, a.c0.y, a.c2.x, a.c2.y).negated())));
        lemma_det2_value(a.c0.x, a.c0.y, a.c1.x, a.c1.y);
        S::lemma_mul(S::one_spec().over(a.determinant_spec()), det2(a.c0.x, a.c0.y, a.c1.x,
            a.c1.y));
        S::lemma_mul(a.c2.y, S::one_spec().over(a.determinant_spec()).times(det2(a.c0.x, a.c0.y,
            a.c1.x, a.c1.y)));
        S::lemma_add(a.c0.y.times(S::one_spec().over(a.determinant_spec()).times(det2(a.c1.x,
            a.c1.y, a.c2.x, a.c2.y))).plus(a.c1.y.times(S::one_spec()
            .over(a.determinant_spec()).times(det2(a.c0.x, a.c0.y, a.c2.x, a.c2.y).negated()))),
            a.c2.y.times(S::one_spec().over(a.determinant_spec()).times(det2(a.c0.x, a.c0.y,
            a.c1.x, a.c1.y))));
        let m0 = a.c0.y.value();
        let t0 = det2_value(a.c1.x.value(), a.c1.y.value(), a.c2.x.value(), a.c2.y.value());
        let p0 = m0 * t0;
        assert(m0 * (kv * t0) == kv * p0) by (nonlinear_arith)
            requires
                p0 == m0 * t0,
        ;
        let m1 = a.c1.y.value();
        let t1 = (-det2_value(a.c0.x.value(), a.c0.y.value(), a.c2.x.value(), a.c2.y.value()));
        let p1 = m1 * t1;
        assert(m1 * (kv * t1) == kv * p1) by (nonlinear_arith)
            requires
                p1 == m1 * t1,
        ;
        let m2 = a.c2.y.value();
        let t2 = det2_value(a.c0.x.value(), a.c0.y.value(), a.c1.x.value(), a.c1.y.value());
        let p2 = m2 * t2;
        assert(m2 * (kv * t2) == kv * p2) by (nonlinear_arith)
            requires
                p2 == m2 * t2,
        ;
        assert(kv * p0 + kv * p1 + kv * p2 == kv * (p0 + p1 + p2)) by (nonlinear_arith);
        lemma_det3_value_right_2_1(
            a.c0.x.value(), a.c0.y.value(), a.c0.z.value(), a.c1.x.value(), a.c1.y.value(),
                a.c1.z.value(), a.c2.x.value(), a.c2.y.value(), a.c2.z.value(),
        );
        assert(kv * (p0 + p1 + p2) == 0) by (nonlinear_arith)
            requires
                p0 + p1 + p2 == 0,
        ;
        S::lemma_value_injective(a.c0.y.times(S::one_spec().over(a.determinant_spec())
            .times(det2(a.c1.x, a.c1.y, a.c2.x, a.c2.y))).plus(a.c1.y.times(S::one_spec()
            .over(a.determinant_spec()).times(det2(a.c0.x, a.c0.y, a.c2.x,
            a.c2.y).negated()))).plus(a.c2.y.times(S::one_spec().over(a.determinant_spec())
            .times(det2(a.c0.x, a.c0.y, a.c1.x, a.c1.y)))), S::zero_spec());
    }
    {
        lemma_det2_value(a.c1.x, a.c1.y, a.c2.x, a.c2.y);
        S::lemma_mul(S::one_spec().over(a.determinant_spec()), det2(a.c1.x, a.c1.y, a.c2.x,
            a.c2.y));
        S::lemma_mul(a.c0.z, S::one_spec().over(a.determinant_spec()).times(det2(a.c1.x, a.c1.y,
            a.c2.x, a.c2.y)));
        lemma_det2_value(a.c0.x, a.c0.y, a.c2.x, a.c2.y);
        S::lemma_neg(det2(a.c0.x, a.c0.y, a.c2.x, a.c2.y));
        S::lemma_mul(S::one_spec().over(a.determinant_spec()), det2(a.c0.x, a.c0.y, a.c2.x,
            a.c2.y).negated());
        S::lemma_mul(a.c1.z, S::one_spec().over(a.determinant_spec()).times(det2(a.c0.x, a.c0.y,
            a.c2.x, a.c2.y).negated()));
        S::lemma_add(a.c0.z.times(S::one_spec().over(a.determinant_spec()).times(det2(a.c1.x,
            a.c1.y, a.c2.x, a.c2.y))), a.c1.z.times(S::one_spec().over(a.determinant_spec())
            .times(det2(a.c0.x, a.c0.y, a.c2.x, a.c2.y).negated())));
        lemma_det2_value(a.c0.x, a.c0.y, a.c1.x, a.c1.y);
        S::lemma_mul(S::one_spec().over(a.determinant_spec()), det2(a.c0.x, a.c0.y, a.c1.x,
            a.c1.y));
        S::lemma_mul(a.c2.z, S::one_spec().over(a.determinant_spec()).times(det2(a.c0.x, a.c0.y,
            a.c1.x, a.c1.y)));
        S::lemma_add(a.c0.z.times(S::one_spec().over(a.determinant_spec()).times(det2(a.c1.x,
            a.c1.y, a.c2.x, a.c2.y))).plus(a.c1.z.times(S::one_spec()
            .over(a.determinant_spec()).times(det2(a.c0.x, a.c0.y, a.c2.x, a.c2.y).negated()))),
            a.c2.z.times(S::one_spec().over(a.determinant_spec()).times(det2(a.c0.x, a.c0.y,
            a.c1.x, a.c1.y))));
        let m0 = a.c0.z.value();
        let t0 = det2_value(a.c1.x.value(), a.c1.y.value(), a.c2.x.value(), a.c2.y.value());
        let p0 = m0 * t0;
        assert(m0 * (kv * t0) == kv * p0) by (nonlinear_arith)
            requires
                p0 == m0 * t0,
        ;
        let m1 = a.c1.z.value();
        let t1 = (-det2_value(a.c0.x.value(), a.c0.y.value(), a.c2.x.value(), a.c2.y.value()));
        let p1 = m1 * t1;
        assert(m1 * (kv * t1) == kv * p1) by (nonlinear_arith)
            requires
                p1 == m1 * t1,
        ;
        let m2 = a.c2.z.value();
        let t2 = det2_value(a.c0.x.value(), a.c0.y.value(), a.c1.x.value(), a.c1.y.value());
        let p2 = m2 * t2;
        assert(m2 * (kv * t2) == kv * p2) by (nonlinear_arith)
            requires
                p2 == m2 * t2,
        ;
        assert(kv * p0 + kv * p1 + kv * p2 == kv * (p0 + p1 + p2)) by (nonlinear_arith);
        lemma_det3_value_right_2_2(
            a.c0.x.value(), a.c0.y.value(), a.c0.z.value(), a.c1.x.value(), a.c1.y.value(),
                a.c1.z.value(), a.c2.x.value(), a.c2.y.value(), a.c2.z.value(),
        );
        assert(kv * (p0 + p1 + p2) == 1);
        S::lemma_value_injective(a.c0.z.times(S::one_spec().over(a.determinant_spec())
            .times(det2(a.c1.x, a.c1.y, a.c2.x, a.c2.y))).plus(a.c1.z.times(S::one_spec()
            .over(a.determinant_spec()).times(det2(a.c0.x, a.c0.y, a.c2.x,
            a.c2.y).negated()))).plus(a.c2.z.times(S::one_spec().over(a.determinant_spec())
            .times(det2(a.c0.x, a.c0.y, a.c1.x, a.c1.y)))), S::one_spec());
    }
}

/// For every three-by-three matrix `a` whose determinant is one or minus one and
/// whose inverse can be computed: the inverse is present, and where
/// the inverse of `a` times `a` is defined, it is the identity.
pub proof fn lemma_matrix3x3_unimodular_inverse_left<S: ExactSigned>(a: Matrix3x3<S>)
    requires
        a.can_inverse(),
        a.determinant_spec() == S::one_spec() || a.determinant_spec() == S::one_spec().negated(),
        a.inverse_spec() is Some ==> a.inverse_spec().unwrap().can_mul_3x3(a),
    ensures
        a.inverse_spec() is Some,
        a.inverse_spec().unwrap().times_3x3(a) == Matrix3x3::<S>::identity_spec(),
{
    S::lemma_identities();
    S::lemma_reciprocal_of_one();
    S::lemma_reciprocal_of_minus_one();
    S::lemma_neg(S::one_spec());
    S::lemma_same(a.determinant_spec(), S::zero_spec());
    lemma_matrix3x3_determinant_value(a);
    let kv = S::one_spec().over(a.determinant_spec()).value();
    let dv = a.determinant_spec().value();
    assert(kv == dv);
    assert(kv * dv == 1) by (nonlinear_arith)
        requires
            kv == dv,
            dv == 1 || dv == -1,
    ;
    {
        lemma_det2_value(a.c1.y, a.c1.z, a.c2.y, a.c2.z);
        S::lemma_mul(S::one_spec().over(a.determinant_spec()), det2(a.c1.y, a.c1.z, a.c2.y,
            a.c2.z));
        S::lemma_mul(S::one_spec().over(a.determinant_spec()).times(det2(a.c1.y, a.c1.z, a.c2.y,
            a.c2.z)), a.c0.x);
        lemma_det2_value(a.c1.x, a.c1.z, a.c2.x, a.c2.z);
        S::lemma_neg(det2(a.c1.x, a.c1.z, a.c2.x, a.c2.z));
        S::lemma_mul(S::one_spec().over(a.determinant_spec()), det2(a.c1.x, a.c1.z, a.c2.x,
            a.c2.z).negated());
        S::lemma_mul(S::one_spec().over(a.determinant_spec()).times(det2(a.c1.x, a.c1.z, a.c2.x,
            a.c2.z).negated()), a.c0.y);
        S::lemma_add(S::one_spec().over(a.determinant_spec()).times(det2(a.c1.y, a.c1.z, a.c2.y,
            a.c2.z)).times(a.c0.x), S::one_spec().over(a.determinant_spec()).times(det2(a.c1.x,
            a.c1.z, a.c2.x, a.c2.z).negated()).times(a.c0.y));
        lemma_det2_value(a.c1.x, a.c1.y, a.c2.x, a.c2.y);
        S::lemma_mul(S::one_spec().over(a.determinant_spec()), det2(a.c1.x, a.c1.y, a.c2.x,
            a.c2.y));
        S::lemma_mul(S::one_spec().over(a.determinant_spec()).times(det2(a.c1.x, a.c1.y, a.c2.x,
            a.c2.y)), a.c0.z);
        S::lemma_add(S::one_spec().over(a.determinant_spec()).times(det2(a.c1.y, a.c1.z, a.c2.y,
            a.c2.z)).times(a.c0.x).plus(S::one_spec().over(a.determinant_spec()).times(det2(a.c1.x,
            a.c1.z, a.c2.x, a.c2.z).negated()).times(a.c0.y)), S::one_spec()
            .over(a.determinant_spec()).times(det2(a.c1.x, a.c1.y, a.c2.x, a.c2.y)).times(a.c0.z));
        let m0 = a.c0.x.value();
        let t0 = det2_value(a.c1.y.value(), a.c1.z.value(), a.c2.y.value(), a.c2.z.value());
        let p0 = t0 * m0;
        assert((kv * t0) * m0 == kv * p0) by (nonlinear_arith)
            requires
                p0 == t0 * m0,
        ;
        let m1 = a.c0.y.value();
        let t1 = (-det2_value(a.c1.x.value(), a.c1.z.value(), a.c2.x.value(), a.c2.z.value()));
        let p1 = t1 * m1;
        assert((kv * t1) * m1 == kv * p1) by (nonlinear_arith)
            requires
                p1 == t1 * m1,
        ;
        let m2 = a.c0.z.value();
        let t2 = det2_value(a.c1.x.value(), a.c1.y.value(), a.c2.x.value(), a.c2.y.value());
        let p2 = t2 * m2;
        assert((kv * t2) * m2 == kv * p2) by (nonlinear_arith)
            requires
                p2 == t2 * m2,
        ;
        assert(kv * p0 + kv * p1 + kv * p2 == kv * (p0 + p1 + p2)) by (nonlinear_arith);
        lemma_det3_value_left_0_0(
            a.c0.x.value(), a.c0.y.value(), a.c0.z.value(), a.c1.x.value(), a.c1.y.value(),
                a.c1.z.value(), a.c2.x.value(), a.c2.y.value(), a.c2.z.value(),
        );
        assert(kv * (p0 + p1 + p2) == 1);
        S::lemma_value_injective(S::one_spec().over(a.determinant_spec()).times(det2(a.c1.y,
            a.c1.z, a.c2.y, a.c2.z)).times(a.c0.x).plus(S::one_spec()
            .over(a.determinant_spec()).times(det2(a.c1.x, a.c1.z, a.c2.x,
            a.c2.z).negated()).times(a.c0.y)).plus(S::one_spec().over(a.determinant_spec())
            .times(det2(a.c1.x, a.c1.y, a.c2.x, a.c2.y)).times(a.c0.z)), S::one_spec());
    }
    {
        lemma_det2_value(a.c0.y, a.c0.z, a.c2.y, a.c2.z);
        S::lemma_neg(det2(a.c0.y, a.c0.z, a.c2.y, a.c2.z));
        S::lemma_mul(S::one_spec().over(a.determinant_spec()), det2(a.c0.y, a.c0.z, a.c2.y,
            a.c2.z).negated());
        S::lemma_mul(S::one_spec().over(a.determinant_spec()).times(det2(a.c0.y, a.c0.z, a.c2.y,
            a.c2.z).negated()), a.c0.x);
        lemma_det2_value(a.c0.x, a.c0.z, a.c2.x, a.c2.z);
        S::lemma_mul(S::one_spec().over(a.determinant_spec()), det2(a.c0.x, a.c0.z, a.c2.x,
            a.c2.z));
        S::lemma_mul(S::one_spec().over(a.determinant_spec()).times(det2(a.c0.x, a.c0.z, a.c2.x,
            a.c2.z)), a.c0.y);
        S::lemma_add(S::one_spec().over(a.determinant_spec()).times(det2(a.c0.y, a.c0.z, a.c2.y,
            a.c2.z).negated()).times(a.c0.x), S::one_spec().over(a.determinant_spec())
            .times(det2(a.c0.x, a.c0.z, a.c2.x, a.c2.z)).times(a.c0.y));
        lemma_det2_value(a.c0.x, a.c0.y, a.c2.x, a.c2.y);
        S::lemma_neg(det2(a.c0.x, a.c0.y, a.c2.x, a.c2.y));
        S::lemma_mul(S::one_spec().over(a.determinant_spec()), det2(a.c0.x, a.c0.y, a.c2.x,
            a.c2.y).negated());
        S::lemma_mul(S::one_spec().over(a.determinant_spec()).times(det2(a.c0.x, a.c0.y, a.c2.x,
            a.c2.y).negated()), a.c0.z);
        S::lemma_add(S::one_spec().over(a.determinant_spec()).times(det2(a.c0.y, a.c0.z, a.c2.y,
            a.c2.z).negated()).times(a.c0.x).plus(S::one_spec().over(a.determinant_spec())
            .times(det2(a.c0.x, a.c0.z, a.c2.x, a.c2.z)).times(a.c0.y)), S::one_spec()
            .over(a.determinant_spec()).times(det2(a.c0.x, a.c0.y, a.c2.x,
            a.c2.y).negated()).times(a.c0.z));
        let m0 = a.c0.x.value();
        let t0 = (-det2_value(a.c0.y.value(), a.c0.z.value(), a.c2.y.value(), a.c2.z.value()));
        let p0 = t0 * m0;
        assert((kv * t0) * m0 == kv * p0) by (nonlinear_arith)
            requires
                p0 == t0 * m0,
        ;
        let m1 = a.c0.y.value();
        let t1 = det2_value(a.c0.x.value(), a.c0.z.value(), a.c2.x.value(), a.c2.z.value());
        let p1 = t1 * m1;
        assert((kv * t1) * m1 == kv * p1) by (nonlinear_arith)
            requires
                p1 == t1 * m1,
        ;
        let m2 = a.c0.z.value();
        let t2 = (-det2_value(a.c0.x.value(), a.c0.y.value(), a.c2.x.value(), a.c2.y.value()));
        let p2 = t2 * m2;
        assert((kv * t2) * m2 == kv * p2) by (nonlinear_arith)
            requires
                p2 == t2 * m2,
        ;
        assert(kv * p0 + kv * p1 + kv * p2 == kv * (p0 + p1 + p2)) by (nonlinear_arith);
        lemma_det3_value_left_0_1(
            a.c0.x.value(), a.c0.y.value(), a.c0.z.value(), a.c1.x.value(), a.c1.y.value(),
                a.c1.z.value(), a.c2.x.value(), a.c2.y.value(), a.c2.z.value(),
        );
        assert(kv * (p0 + p1 + p2) == 0) by (nonlinear_arith)
            requires
                p0 + p1 + p2 == 0,
        ;
        S::lemma_value_injective(S::one_spec().over(a.determinant_spec()).times(det2(a.c0.y,
            a.c0.z, a.c2.y, a.c2.z).negated()).times(a.c0.x).plus(S::one_spec()
            .over(a.determinant_spec()).times(det2(a.c0.x, a.c0.z, a.c2.x, a.c2.z))
            .times(a.c0.y)).plus(S::one_spec().over(a.determinant_spec()).times(det2(a.c0.x,
            a.c0.y, a.c2.x, a.c2.y).negated()).times(a.c0.z)), S::zero_spec());
    }
    {
        lemma_det2_value(a.c0.y, a.c0.z, a.c1.y, a.c1.z);
        S::lemma_mul(S::one_spec().over(a.determinant_spec()), det2(a.c0.y, a.c0.z, a.c1.y,
            a.c1.z));
        S::lemma_mul(S::one_spec().over(a.determinant_spec()).times(det2(a.c0.y, a.c0.z, a.c1.y,
            a.c1.z)), a.c0.x);
        lemma_det2_value(a.c0.x, a.c0.z, a.c1.x, a.c1.z);
        S::lemma_neg(det2(a.c0.x, a.c0.z, a.c1.x, a.c1.z));
        S::lemma_mul(S::one_spec().over(a.determinant_spec()), det2(a.c0.x, a.c0.z, a.c1.x,
            a.c1.z).negated());
        S::lemma_mul(S::one_spec().over(a.determinant_spec()).times(det2(a.c0.x, a.c0.z, a.c1.x,
            a.c1.z).negated()), a.c0.y);
        S::lemma_add(S::one_spec().over(a.determinant_spec()).times(det2(a.c0.y, a.c0.z, a.c1.y,
            a.c1.z)).times(a.c0.x), S::one_spec().over(a.determinant_spec()).times(det2(a.c0.x,
            a.c0.z, a.c1.x, a.c1.z).negated()).times(a.c0.y));
        lemma_det2_value(a.c0.x, a.c0.y, a.c1.x, a.c1.y);
        S::lemma_mul(S::one_spec().over(a.determinant_spec()), det2(a.c0.x, a.c0.y, a.c1.x,
            a.c1.y));
        S::lemma_mul(S::one_spec().over(a.determinant_spec()).times(det2(a.c0.x, a.c0.y, a.c1.x,
            a.c1.y)), a.c0.z);
        S::lemma_add(S::one_spec().over(a.determinant_spec()).times(det2(a.c0.y, a.c0.z, a.c1.y,
            a.c1.z)).times(a.c0.x).plus(S::one_spec().over(a.determinant_spec()).times(det2(a.c0.x,
            a.c0.z, a.c1.x, a.c1.z).negated()).times(a.c0.y)), S::one_spec()
            .over(a.determinant_spec()).times(det2(a.c0.x, a.c0.y, a.c1.x, a.c1.y)).times(a.c0.z));
        let m0 = a.c0.x.value();
        let t0 = det2_value(a.c0.y.value(), a.c0.z.value(), a.c1.y.value(), a.c1.z.value());
        let p0 = t0 * m0;
        assert((kv * t0) * m0 == kv * p0) by (nonlinear_arith)
            requires
                p0 == t0 * m0,
        ;
        let m1 = a.c0.y.value();
        let t1 = (-det2_value(a.c0.x.value(), a.c0.z.value(), a.c1.x.value(), a.c1.z.value()));
        let p1 = t1 * m1;
        assert((kv * t1) * m1 == kv * p1) by (nonlinear_arith)
            requires
                p1 == t1 * m1,
        ;
        let m2 = a.c0.z.value();
        let t2 = det2_value(a.c0.x.value(), a.c0.y.value(), a.c1.x.value(), a.c1.y.value());
        let p2 = t2 * m2;
        assert((kv * t2) * m2 == kv * p2) by (nonlinear_arith)
            requires
                p2 == t2 * m2,
        ;
        assert(kv * p0 + kv * p1 + kv * p2 == kv * (p0 + p1 + p2)) by (nonlinear_arith);
        lemma_det3_value_left_0_2(
            a.c0.x.value(), a.c0.y.value(), a.c0.z.value(), a.c1.x.value(), a.c1.y.value(),
                a.c1.z.value(), a.c2.x.value(), a.c2.y.value(), a.c2.z.value(),
        );
        assert(kv * (p0 + p1 + p2) == 0) by (nonlinear_arith)
            requires
                p0 + p1 + p2 == 0,
        ;
        S::lemma_value_injective(S::one_spec().over(a.determinant_spec()).times(det2(a.c0.y,
            a.c0.z, a.c1.y, a.c1.z)).times(a.c0.x).plus(S::one_spec()
            .over(a.determinant_spec()).times(det2(a.c0.x, a.c0.z, a.c1.x,
            a.c1.z).negated()).times(a.c0.y)).plus(S::one_spec().over(a.determinant_spec())
            .times(det2(a.c0.x, a.c0.y, a.c1.x, a.c1.y)).times(a.c0.z)), S::zero_spec());
    }
    {
        lemma_det2_value(a.c1.y, a.c1.z, a.c2.y, a.c2.z);
        S::lemma_mul(S::one_spec().over(a.determinant_spec()), det2(a.c1.y, a.c1.z, a.c2.y,
            a.c2.z));
        S::lemma_mul(S::one_spec().over(a.determinant_spec()).times(det2(a.c1.y, a.c1.z, a.c2.y,
            a.c2.z)), a.c1.x);
        lemma_det2_value(a.c1.x, a.c1.z, a.c2.x, a.c2.z);
        S::lemma_neg(det2(a.c1.x, a.c1.z, a.c2.x, a.c2.z));
        S::lemma_mul(S::one_spec().over(a.determinant_spec()), det2(a.c1.x, a.c1.z, a.c2.x,
            a.c2.z).negated());
        S::lemma_mul(S::one_spec().over(a.determinant_spec()).times(det2(a.c1.x, a.c1.z, a.c2.x,
            a.c2.z).negated()), a.c1.y);
        S::lemma_add(S::one_spec().over(a.determinant_spec()).times(det2(a.c1.y, a.c1.z, a.c2.y,
            a.c2.z)).times(a.c1.x), S::one_spec().over(a.determinant_spec()).times(det2(a.c1.x,
            a.c1.z, a.c2.x, a.c2.z).negated()).times(a.c1.y));
        lemma_det2_value(a.c1.x, a.c1.y, a.c2.x, a.c2.y);
        S::lemma_mul(S::one_spec().over(a.determinant_spec()), det2(a.c1.x, a.c1.y, a.c2.x,
            a.c2.y));
        S::lemma_mul(S::one_spec().over(a.determinant_spec()).times(det2(a.c1.x, a.c1.y, a.c2.x,
            a.c2.y)), a.c1.z);
        S::lemma_add(S::one_spec().over(a.determinant_spec()).times(det2(a.c1.y, a.c1.z, a.c2.y,
            a.c2.z)).times(a.c1.x).plus(S::one_spec().over(a.determinant_spec()).times(det2(a.c1.x,
            a.c1.z, a.c2.x, a.c2.z).negated()).times(a.c1.y)), S::one_spec()
            .over(a.determinant_spec()).times(det2(a.c1.x, a.c1.y, a.c2.x, a.c2.y)).times(a.c1.z));
        let m0 = a.c1.x.value();
        let t0 = det2_value(a.c1.y.value(), a.c1.z.value(), a.c2.y.value(), a.c2.z.value());
        let p0 = t0 * m0;
        assert((kv * t0) * m0 == kv * p0) by (nonlinear_arith)
            requires
                p0 == t0 * m0,
        ;
        let m1 = a.c1.y.value();
        let t1 = (-det2_value(a.c1.x.value(), a.c1.z.value(), a.c2.x.value(), a.c2.z.value()));
        let p1 = t1 * m1;
        assert((kv * t1) * m1 == kv * p1) by (nonlinear_arith)
            requires
                p1 == t1 * m1,
        ;
        let m2 = a.c1.z.value();
        let t2 = det2_value(a.c1.x.value(), a.c1.y.value(), a.c2.x.value(), a.c2.y.value());
        let p2 = t2 * m2;
        assert((kv * t2) * m2 == kv * p2) by (nonlinear_arith)
            requires
                p2 == t2 * m2,
        ;
        assert(kv * p0 + kv * p1 + kv * p2 == kv * (p0 + p1 + p2)) by (nonlinear_arith);
        lemma_det3_value_left_1_0(
            a.c0.x.value(), a.c0.y.value(), a.c0.z.value(), a.c1.x.value(), a.c1.y.value(),
                a.c1.z.value(), a.c2.x.value(), a.c2.y.value(), a.c2.z.value(),
        );
        assert(kv * (p0 + p1 + p2) == 0) by (nonlinear_arith)
            requires
                p0 + p1 + p2 == 0,
        ;
        S::lemma_value_injective(S::one_spec().over(a.determinant_spec()).times(det2(a.c1.y,
            a.c1.z, a.c2.y, a.c2.z)).times(a.c1.x).plus(S::one_spec()
            .over(a.determinant_spec()).times(det2(a.c1.x, a.c1.z, a.c2.x,
            a.c2.z).negated()).times(a.c1.y)).plus(S::one_spec().over(a.determinant_spec())
            .times(det2(a.c1.x, a.c1.y, a.c2.x, a.c2.y)).times(a.c1.z)), S::zero_spec());
    }
    {
        lemma_det2_value(a.c0.y, a.c0.z, a.c2.y, a.c2.z);
        S::lemma_neg(det2(a.c0.y, a.c0.z, a.c2.y, a.c2.z));
        S::lemma_mul(S::one_spec().over(a.determinant_spec()), det2(a.c0.y, a.c0.z, a.c2.y,
            a.c2.z).negated());
        S::lemma_mul(S::one_spec().over(a.determinant_spec()).times(det2(a.c0.y, a.c0.z, a.c2.y,
            a.c2.z).negated()), a.c1.x);
        lemma_det2_value(a.c0.x, a.c0.z, a.c2.x, a.c2.z);
        S::lemma_mul(S::one_spec().over(a.determinant_spec()), det2(a.c0.x, a.c0.z, a.c2.x,
            a.c2.z));
        S::lemma_mul(S::one_spec().over(a.determinant_spec()).times(det2(a.c0.x, a.c0.z, a.c2.x,
            a.c2.z)), a.c1.y);
        S::lemma_add(S::one_spec().over(a.determinant_spec()).times(det2(a.c0.y, a.c0.z, a.c2.y,
            a.c2.z).negated()).times(a.c1.x), S::one_spec().over(a.determinant_spec())
            .times(det2(a.c0.x, a.c0.z, a.c2.x, a.c2.z)).times(a.c1.y));
        lemma_det2_value(a.c0.x, a.c0.y, a.c2.x, a.c2.y);
        S::lemma_neg(det2(a.c0.x, a.c0.y, a.c2.x, a.c2.y));
        S::lemma_mul(S::one_spec().over(a.determinant_spec()), det2(a.c0.x, a.c0.y, a.c2.x,
            a.c2.y).negated());
        S::lemma_mul(S::one_spec().over(a.determinant_spec()).times(det2(a.c0.x, a.c0.y, a.c2.x,
            a.c2.y).negated()), a.c1.z);
        S::lemma_add(S::one_spec().over(a.determinant_spec()).times(det2(a.c0.y, a.c0.z, a.c2.y,
            a.c2.z).negated()).times(a.c1.x).plus(S::one_spec().over(a.determinant_spec())
            .times(det2(a.c0.x, a.c0.z, a.c2.x, a.c2.z)).times(a.c1.y)), S::one_spec()
            .over(a.determinant_spec()).times(det2(a.c0.x, a.c0.y, a.c2.x,
            a.c2.y).negated()).times(a.c1.z));
        let m0 = a.c1.x.value();
        let t0 = (-det2_value(a.c0.y.value(), a.c0.z.value(), a.c2.y.value(), a.c2.z.value()));
        let p0 = t0 * m0;
        assert((kv * t0) * m0 == kv * p0) by (nonlinear_arith)
            requires
                p0 == t0 * m0,
        ;
        let m1 = a.c1.y.value();
        let t1 = det2_value(a.c0.x.value(), a.c0.z.value(), a.c2.x.value(), a.c2.z.value());
        let p1 = t1 * m1;
        assert((kv * t1) * m1 == kv * p1) by (nonlinear_arith)
            requires
                p1 == t1 * m1,
        ;
        let m2 = a.c1.z.value();
        let t2 = (-det2_value(a.c0.x.value(), a.c0.y.value(), a.c2.x.value(), a.c2.y.value()));
        let p2 = t2 * m2;
        assert((kv * t2) * m2 == kv * p2) by (nonlinear_arith)
            requires
                p2 == t2 * m2,
        ;
        assert(kv * p0 + kv * p1 + kv * p2 == kv * (p0 + p1 + p2)) by (nonlinear_arith);
        lemma_det3_value_left_1_1(
            a.c0.x.value(), a.c0.y.value(), a.c0.z.value(), a.c1.x.value(), a.c1.y.value(),
                a.c1.z.value(), a.c2.x.value(), a.c2.y.value(), a.c2.z.value(),
        );
        assert(kv * (p0 + p1 + p2) == 1);
        S::lemma_value_injective(S::one_spec().over(a.determinant_spec()).times(det2(a.c0.y,
            a.c0.z, a.c2.y, a.c2.z).negated()).times(a.c1.x).plus(S::one_spec()
            .over(a.determinant_spec()).times(det2(a.c0.x, a.c0.z, a.c2.x, a.c2.z))
            .times(a.c1.y)).plus(S::one_spec().over(a.determinant_spec()).times(det2(a.c0.x,
            a.c0.y, a.c2.x, a.c2.y).negated()).times(a.c1.z)), S::one_spec());
    }
    {
        lemma_det2_value(a.c0.y, a.c0.z, a.c1.y, a.c1.z);
        S::lemma_mul(S::one_spec().over(a.determinant_spec()), det2(a.c0.y, a.c0.z, a.c1.y,
            a.c1.z));
        S::lemma_mul(S::one_spec().over(a.determinant_spec()).times(det2(a.c0.y, a.c0.z, a.c1.y,
            a.c1.z)), a.c1.x);
        lemma_det2_value(a.c0.x, a.c0.z, a.c1.x, a.c1.z);
        S::lemma_neg(det2(a.c0.x, a.c0.z, a.c1.x, a.c1.z));
        S::lemma_mul(S::one_spec().over(a.determinant_spec()), det2(a.c0.x, a.c0.z, a.c1.x,
            a.c1.z).negated());
        S::lemma_mul(S::one_spec().over(a.determinant_spec()).times(det2(a.c0.x, a.c0.z, a.c1.x,
            a.c1.z).negated()), a.c1.y);
        S::lemma_add(S::one_spec().over(a.determinant_spec()).times(det2(a.c0.y, a.c0.z, a.c1.y,
            a.c1.z)).times(a.c1.x), S::one_spec().over(a.determinant_spec()).times(det2(a.c0.x,
            a.c0.z, a.c1.x, a.c1.z).negated()).times(a.c1.y));
        lemma_det2_value(a.c0.x, a.c0.y, a.c1.x, a.c1.y);
        S::lemma_mul(S::one_spec().over(a.determinant_spec()), det2(a.c0.x, a.c0.y, a.c1.x,
            a.c1.y));
        S::lemma_mul(S::one_spec().over(a.determinant_spec()).times(det2(a.c0.x, a.c0.y, a.c1.x,
            a.c1.y)), a.c1.z);
        S::lemma_add(S::one_spec().over(a.determinant_spec()).times(det2(a.c0.y, a.c0.z, a.c1.y,
            a.c1.z)).times(a.c1.x).plus(S::one_spec().over(a.determinant_spec()).times(det2(a.c0.x,
            a.c0.z, a.c1.x, a.c1.z).negated()).times(a.c1.y)), S::one_spec()
            .over(a.determinant_spec()).times(det2(a.c0.x, a.c0.y, a.c1.x, a.c1.y)).times(a.c1.z));
        let m0 = a.c1.x.value();
        let t0 = det2_value(a.c0.y.value(), a.c0.z.value(), a.c1.y.value(), a.c1.z.value());
        let p0 = t0 * m0;
        assert((kv * t0) * m0 == kv * p0) by (nonlinear_arith)
            requires
                p0 == t0 * m0,
        ;
        let m1 = a.c1.y.value();
        let t1 = (-det2_value(a.c0.x.value(), a.c0.z.value(), a.c1.x.value(), a.c1.z.value()));
        let p1 = t1 * m1;
        assert((kv * t1) * m1 == kv * p1) by (nonlinear_arith)
            requires
                p1 == t1 * m1,
        ;
        let m2 = a.c1.z.value();
        let t2 = det2_value(a.c0.x.value(), a.c0.y.value(), a.c1.x.value(), a.c1.y.value());
        let p2 = t2 * m2;
        assert((kv * t2) * m2 == kv * p2) by (nonlinear_arith)
            requires
                p2 == t2 * m2,
        ;
        assert(kv * p0 + kv * p1 + kv * p2 == kv * (p0 + p1 + p2)) by (nonlinear_arith);
        lemma_det3_value_left_1_2(
            a.c0.x.value(), a.c0.y.value(), a.c0.z.value(), a.c1.x.value(), a.c1.y.value(),
                a.c1.z.value(), a.c2.x.value(), a.c2.y.value(), a.c2.z.value(),
        );
        assert(kv * (p0 + p1 + p2) == 0) by (nonlinear_arith)
            requires
                p0 + p1 + p2 == 0,
        ;
        S::lemma_value_injective(S::one_spec().over(a.determinant_spec()).times(det2(a.c0.y,
            a.c0.z, a.c1.y, a.c1.z)).times(a.c1.x).plus(S::one_spec()
            .over(a.determinant_spec()).times(det2(a.c0.x, a.c0.z, a.c1.x,
            a.c1.z).negated()).times(a.c1.y)).plus(S::one_spec().over(a.determinant_spec())
            .times(det2(a.c0.x, a.c0.y, a.c1.x, a.c1.y)).times(a.c1.z)), S::zero_spec());
    }
    {
        lemma_det2_value(a.c1.y, a.c1.z, a.c2.y, a.c2.z);
        S::lemma_mul(S::one_spec().over(a.determinant_spec()), det2(a.c1.y, a.c1.z, a.c2.y,
            a.c2.z));
        S::lemma_mul(S::one_spec().over(a.determinant_spec()).times(det2(a.c1.y, a.c1.z, a.c2.y,
            a.c2.z)), a.c2.x);
        lemma_det2_value(a.c1.x, a.c1.z, a.c2.x, a.c2.z);
        S::lemma_neg(det2(a.c1.x, a.c1.z, a.c2.x, a.c2.z));
        S::lemma_mul(S::one_spec().over(a.determinant_spec()), det2(a.c1.x, a.c1.z, a.c2.x,
            a.c2.z).negated());
        S::lemma_mul(S::one_spec().over(a.determinant_spec()).times(det2(a.c1.x, a.c1.z, a.c2.x,
            a.c2.z).negated()), a.c2.y);
        S::lemma_add(S::one_spec().over(a.determinant_spec()).times(det2(a.c1.y, a.c1.z, a.c2.y,
            a.c2.z)).times(a.c2.x), S::one_spec().over(a.determinant_spec()).times(det2(a.c1.x,
            a.c1.z, a.c2.x, a.c2.z).negated()).times(a.c2.y));
        lemma_det2_value(a.c1.x, a.c1.y, a.c2.x, a.c2.y);
        S::lemma_mul(S::one_spec().over(a.determinant_spec()), det2(a.c1.x, a.c1.y, a.c2.x,
            a.c2.y));
        S::lemma_mul(S::one_spec().over(a.determinant_spec()).times(det2(a.c1.x, a.c1.y, a.c2.x,
            a.c2.y)), a.c2.z);
        S::lemma_add(S::one_spec().over(a.determinant_spec()).times(det2(a.c1.y, a.c1.z, a.c2.y,
            a.c2.z)).times(a.c2.x).plus(S::one_spec().over(a.determinant_spec()).times(det2(a.c1.x,
            a.c1.z, a.c2.x, a.c2.z).negated()).times(a.c2.y)), S::one_spec()
            .over(a.determinant_spec()).times(det2(a.c1.x, a.c1.y, a.c2.x, a.c2.y)).times(a.c2.z));
        let m0 = a.c2.x.value();
        let t0 = det2_value(a.c1.y.value(), a.c1.z.value(), a.c2.y.value(), a.c2.z.value());
        let p0 = t0 * m0;
        assert((kv * t0) * m0 == kv * p0) by (nonlinear_arith)
            requires
                p0 == t0 * m0,
        ;
        let m1 = a.c2.y.value();
        let t1 = (-det2_value(a.c1.x.value(), a.c1.z.value(), a.c2.x.value(), a.c2.z.value()));
        let p1 = t1 * m1;
        assert((kv * t1) * m1 == kv * p1) by (nonlinear_arith)
            requires
                p1 == t1 * m1,
        ;
        let m2 = a.c2.z.value();
        let t2 = det2_value(a.c1.x.value(), a.c1.y.value(), a.c2.x.value(), a.c2.y.value());
        let p2 = t2 * m2;
        assert((kv * t2) * m2 == kv * p2) by (nonlinear_arith)
            requires
                p2 == t2 * m2,
        ;
        assert(kv * p0 + kv * p1 + kv * p2 == kv * (p0 + p1 + p2)) by (nonlinear_arith);
        lemma_det3_value_left_2_0(
            a.c0.x.value(), a.c0.y.value(), a.c0.z.value(), a.c1.x.value(), a.c1.y.value(),
                a.c1.z.value(), a.c2.x.value(), a.c2.y.value(), a.c2.z.value(),
        );
        assert(kv * (p0 + p1 + p2) == 0) by (nonlinear_arith)
            requires
                p0 + p1 + p2 == 0,
        ;
        S::lemma_value_injective(S::one_spec().over(a.determinant_spec()).times(det2(a.c1.y,
            a.c1.z, a.c2.y, a.c2.z)).times(a.c2.x).plus(S::one_spec()
            .over(a.determinant_spec()).times(det2(a.c1.x, a.c1.z, a.c2.x,
            a.c2.z).negated()).times(a.c2.y)).plus(S::one_spec().over(a.determinant_spec())
            .times(det2(a.c1.x, a.c1.y, a.c2.x, a.c2.y)).times(a.c2.z)), S::zero_spec());
    }
    {
        lemma_det2_value(a.c0.y, a.c0.z, a.c2.y, a.c2.z);
        S::lemma_neg(det2(a.c0.y, a.c0.z, a.c2.y, a.c2.z));
        S::lemma_mul(S::one_spec().over(a.determinant_spec()), det2(a.c0.y, a.c0.z, a.c2.y,
            a.c2.z).negated());
        S::lemma_mul(S::one_spec().over(a.determinant_spec()).times(det2(a.c0.y, a.c0.z, a.c2.y,
            a.c2.z).negated()), a.c2.x);
        lemma_det2_value(a.c0.x, a.c0.z, a.c2.x, a.c2.z);
        S::lemma_mul(S::one_spec().over(a.determinant_spec()), det2(a.c0.x, a.c0.z, a.c2.x,
            a.c2.z));
        S::lemma_mul(S::one_spec().over(a.determinant_spec()).times(det2(a.c0.x, a.c0.z, a.c2.x,
            a.c2.z)), a.c2.y);
        S::lemma_add(S::one_spec().over(a.determinant_spec()).times(det2(a.c0.y, a.c0.z, a.c2.y,
            a.c2.z).negated()).times(a.c2.x), S::one_spec().over(a.determinant_spec())
            .times(det2(a.c0.x, a.c0.z, a.c2.x, a.c2.z)).times(a.c2.y));
        lemma_det2_value(a.c0.x, a.c0.y, a.c2.x, a.c2.y);
        S::lemma_neg(det2(a.c0.x, a.c0.y, a.c2.x, a.c2.y));
        S::lemma_mul(S::one_spec().over(a.determinant_spec()), det2(a.c0.x, a.c0.y, a.c2.x,
            a.c2.y).negated());
        S::lemma_mul(S::one_spec().over(a.determinant_spec()).times(det2(a.c0.x, a.c0.y, a.c2.x,
            a.c2.y).negated()), a.c2.z);
        S::lemma_add(S::one_spec().over(a.determinant_spec()).times(det2(a.c0.y, a.c0.z, a.c2.y,
            a.c2.z).negated()).times(a.c2.x).plus(S::one_spec().over(a.determinant_spec())
            .times(det2(a.c0.x, a.c0.z, a.c2.x, a.c2.z)).times(a.c2.y)), S::one_spec()
            .over(a.determinant_spec()).times(det2(a.c0.x, a.c0.y, a.c2.x,
            a.c2.y).negated()).times(a.c2.z));
        let m0 = a.c2.x.value();
        let t0 = (-det2_value(a.c0.y.value(), a.c0.z.value(), a.c2.y.value(), a.c2.z.value()));
        let p0 = t0 * m0;
        assert((kv * t0) * m0 == kv * p0) by (nonlinear_arith)
            requires
                p0 == t0 * m0,
        ;
        let m1 = a.c2.y.value();
        let t1 = det2_value(a.c0.x.value(), a.c0.z.value(), a.c2.x.value(), a.c2.z.value());
        let p1 = t1 * m1;
        assert((kv * t1) * m1 == kv * p1) by (nonlinear_arith)
            requires
                p1 == t1 * m1,
        ;
        let m2 = a.c2.z.value();
        let t2 = (-det2_value(a.c0.x.value(), a.c0.y.value(), a.c2.x.value(), a.c2.y.value()));
        let p2 = t2 * m2;
        assert((kv * t2) * m2 == kv * p2) by (nonlinear_arith)
            requires
                p2 == t2 * m2,
        ;
        assert(kv * p0 + kv * p1 + kv * p2 == kv * (p0 + p1 + p2)) by (nonlinear_arith);
        lemma_det3_value_left_2_1(
            a.c0.x.value(), a.c0.y.value(), a.c0.z.value(), a.c1.x.value(), a.c1.y.value(),
                a.c1.z.value(), a.c2.x.value(), a.c2.y.value(), a.c2.z.value(),
        );
        assert(kv * (p0 + p1 + p2) == 0) by (nonlinear_arith)
            requires
                p0 + p1 + p2 == 0,
        ;
        S::lemma_value_injective(S::one_spec().over(a.determinant_spec()).times(det2(a.c0.y,
            a.c0.z, a.c2.y, a.c2.z).negated()).times(a.c2.x).plus(S::one_spec()
            .over(a.determinant_spec()).times(det2(a.c0.x, a.c0.z, a.c2.x, a.c2.z))
            .times(a.c2.y)).plus(S::one_spec().over(a.determinant_spec()).times(det2(a.c0.x,
            a.c0.y, a.c2.x, a.c2.y).negated()).times(a.c2.z)), S::zero_spec());
    }
    {
        lemma_det2_value(a.c0.y, a.c0.z, a.c1.y, a.c1.z);
        S::lemma_mul(S::one_spec().over(a.determinant_spec()), det2(a.c0.y, a.c0.z, a.c1.y,
            a.c1.z));
        S::lemma_mul(S::one_spec().over(a.determinant_spec()).times(det2(a.c0.y, a.c0.z, a.c1.y,
            a.c1.z)), a.c2.x);
        lemma_det2_value(a.c0.x, a.c0.z, a.c1.x, a.c1.z);
        S::lemma_neg(det2(a.c0.x, a.c0.z, a.c1.x, a.c1.z));
        S::lemma_mul(S::one_spec().over(a.determinant_spec()), det2(a.c0.x, a.c0.z, a.c1.x,
            a.c1.z).negated());
        S::lemma_mul(S::one_spec().over(a.determinant_spec()).times(det2(a.c0.x, a.c0.z, a.c1.x,
            a.c1.z).negated()), a.c2.y);
        S::lemma_add(S::one_spec().over(a.determinant_spec()).times(det2(a.c0.y, a.c0.z, a.c1.y,
            a.c1.z)).times(a.c2.x), S::one_spec().over(a.determinant_spec()).times(det2(a.c0.x,
            a.c0.z, a.c1.x, a.c1.z).negated()).times(a.c2.y));
        lemma_det2_value(a.c0.x, a.c0.y, a.c1.x, a.c1.y);
        S::lemma_mul(S::one_spec().over(a.determinant_spec()), det2(a.c0.x, a.c0.y, a.c1.x,
            a.c1.y));
        S::lemma_mul(S::one_spec().over(a.determinant_spec()).times(det2(a.c0.x, a.c0.y, a.c1.x,
            a.c1.y)), a.c2.z);
        S::lemma_add(S::one_spec().over(a.determinant_spec()).times(det2(a.c0.y, a.c0.z, a.c1.y,
            a.c1.z)).times(a.c2.x).plus(S::one_spec().over(a.determinant_spec()).times(det2(a.c0.x,
            a.c0.z, a.c1.x, a.c1.z).negated()).times(a.c2.y)), S::one_spec()
            .over(a.determinant_spec()).times(det2(a.c0.x, a.c0.y, a.c1.x, a.c1.y)).times(a.c2.z));
        let m0 = a.c2.x.value();
        let t0 = det2_value(a.c0.y.value(), a.c0.z.value(), a.c1.y.value(), a.c1.z.value());
        let p0 = t0 * m0;
        assert((kv * t0) * m0 == kv * p0) by (nonlinear_arith)
            requires
                p0 == t0 * m0,
        ;
        let m1 = a.c2.y.value();
        let t1 = (-det2_value(a.c0.x.value(), a.c0.z.value(), a.c1.x.value(), a.c1.z.value()));
        let p1 = t1 * m1;
        assert((kv * t1) * m1 == kv * p1) by (nonlinear_arith)
            requires
                p1 == t1 * m1,
        ;
        let m2 = a.c2.z.value();
        let t2 = det2_value(a.c0.x.value(), a.c0.y.value(), a.c1.x.value(), a.c1.y.value());
        let p2 = t2 * m2;
        assert((kv * t2) * m2 == kv * p2) by (nonlinear_arith)
            requires
                p2 == t2 * m2,
        ;
        assert(kv * p0 + kv * p1 + kv * p2 == kv * (p0 + p1 + p2)) by (nonlinear_arith);
        lemma_det3_value_left_2_2(
            a.c0.x.value(), a.c0.y.value(), a.c0.z.value(), a.c1.x.value(), a.c1.y.value(),
                a.c1.z.value(), a.c2.x.value(), a.c2.y.value(), a.c2.z.value(),
        );
        assert(kv * (p0 + p1 + p2) == 1);
        S::lemma_value_injective(S::one_spec().over(a.determinant_spec()).times(det2(a.c0.y,
            a.c0.z, a.c1.y, a.c1.z)).times(a.c2.x).plus(S::one_spec()
            .over(a.determinant_spec()).times(det2(a.c0.x, a.c0.z, a.c1.x,
            a.c1.z).negated()).times(a.c2.y)).plus(S::one_spec().over(a.determinant_spec())
            .times(det2(a.c0.x, a.c0.y, a.c1.x, a.c1.y)).times(a.c2.z)), S::one_spec());
    }
}

/// For every four-by-four matrix `a` whose determinant is one or minus one and
/// whose inverse can be computed: the inverse is present, and where
/// `a` times its inverse is defined, it is the identity.
pub proof fn lemma_matrix4x4_unimodular_inverse_right<S: ExactSigned>(a: Matrix4x4<S>)
    requires
        a.can_inverse(),
        a.determinant_spec() == S::one_spec() || a.determinant_spec() == S::one_spec().negated(),
        a.inverse_spec() is Some ==> a.can_mul_4x4(a.inverse_spec().unwrap()),
    ensures
        a.inverse_spec() is Some,
        a.times_4x4(a.inverse_spec().unwrap()) == Matrix4x4::<S>::identity_spec(),
{
    S::lemma_identities();
    S::lemma_reciprocal_of_one();
    S::lemma_reciprocal_of_minus_one();
    S::lemma_neg(S::one_spec());
    S::lemma_same(a.determinant_spec(), S::zero_spec());
    lemma_matrix4x4_determinant_value(a);
    let kv = S::one_spec().over(a.determinant_spec()).value();
    let dv = a.determinant_spec().value();
    assert(kv == dv);
    assert(kv * dv == 1) by (nonlinear_arith)
        requires
            kv == dv,
            dv == 1 || dv == -1,
    ;
    {
        lemma_det3_value(a.c1.y, a.c1.z, a.c1.w, a.c2.y, a.c2.z, a.c2.w, a.c3.y, a.c3.z, a.c3.w);
        S::lemma_mul(S::one_spec().over(a.determinant_spec()), det3(a.c1.y, a.c1.z, a.c1.w, a.c2.y,
            a.c2.z, a.c2.w, a.c3.y, a.c3.z, a.c3.w));
        S::lemma_mul(a.c0.x, S::one_spec().over(a.determinant_spec()).times(det3(a.c1.y, a.c1.z,
            a.c1.w, a.c2.y, a.c2.z, a.c2.w, a.c3.y, a.c3.z, a.c3.w)));
        lemma_det3_value(a.c0.y, a.c0.z, a.c0.w, a.c2.y, a.c2.z, a.c2.w, a.c3.y, a.c3.z, a.c3.w);
        S::lemma_neg(det3(a.c0.y, a.c0.z, a.c0.w, a.c2.y, a.c2.z, a.c2.w, a.c3.y, a.c3.z, a.c3.w));
        S::lemma_mul(S::one_spec().over(a.determinant_spec()), det3(a.c0.y, a.c0.z, a.c0.w, a.c2.y,
            a.c2.z, a.c2.w, a.c3.y, a.c3.z, a.c3.w).negated());
        S::lemma_mul(a.c1.x, S::one_spec().over(a.determinant_spec()).times(det3(a.c0.y, a.c0.z,
            a.c0.w, a.c2.y, a.c2.z, a.c2.w, a.c3.y, a.c3.z, a.c3.w).negated()));
        S::lemma_add(a.c0.x.times(S::one_spec().over(a.determinant_spec()).times(det3(a.c1.y,
            a.c1.z, a.c1.w, a.c2.y, a.c2.z, a.c2.w, a.c3.y, a.c3.z, a.c3.w))), a.c1.x
            .times(S::one_spec().over(a.determinant_spec()).times(det3(a.c0.y, a.c0.z, a.c0.w,
            a.c2.y, a.c2.z, a.c2.w, a.c3.y, a.c3.z, a.c3.w).negated())));
        lemma_det3_value(a.c0.y, a.c0.z, a.c0.w, a.c1.y, a.c1.z, a.c1.w, a.c3.y, a.c3.z, a.c3.w);
        S::lemma_mul(S::one_spec().over(a.determinant_spec()), det3(a.c0.y, a.c0.z, a.c0.w, a.c1.y,
            a.c1.z, a.c1.w, a.c3.y, a.c3.z, a.c3.w));
        S::lemma_mul(a.c2.x, S::one_spec().over(a.determinant_spec()).times(det3(a.c0.y, a.c0.z,
            a.c0.w, a.c1.y, a.c1.z, a.c1.w, a.c3.y, a.c3.z, a.c3.w)));
        S::lemma_add(a.c0.x.times(S::one_spec().over(a.determinant_spec()).times(det3(a.c1.y,
            a.c1.z, a.c1.w, a.c2.y, a.c2.z, a.c2.w, a.c3.y, a.c3.z, a.c3.w))).plus(a.c1.x
            .times(S::one_spec().over(a.determinant_spec()).times(det3(a.c0.y, a.c0.z, a.c0.w,
            a.c2.y, a.c2.z, a.c2.w, a.c3.y, a.c3.z, a.c3.w).negated()))), a.c2.x
            .times(S::one_spec().over(a.determinant_spec()).times(det3(a.c0.y, a.c0.z, a.c0.w,
            a.c1.y, a.c1.z, a.c1.w, a.c3.y, a.c3.z, a.c3.w))));
        lemma_det3_value(a.c0.y, a.c0.z, a.c0.w, a.c1.y, a.c1.z, a.c1.w, a.c2.y, a.c2.z, a.c2.w);
        S::lemma_neg(det3(a.c0.y, a.c0.z, a.c0.w, a.c1.y, a.c1.z, a.c1.w, a.c2.y, a.c2.z, a.c2.w));
        S::lemma_mul(S::one_spec().over(a.determinant_spec()), det3(a.c0.y, a.c0.z, a.c0.w, a.c1.y,
            a.c1.z, a.c1.w, a.c2.y, a.c2.z, a.c2.w).negated());
        S::lemma_mul(a.c3.x, S::one_spec().over(a.determinant_spec()).times(det3(a.c0.y, a.c0.z,
            a.c0.w, a.c1.y, a.c1.z, a.c1.w, a.c2.y, a.c2.z, a.c2.w).negated()));
        S::lemma_add(a.c0.x.times(S::one_spec().over(a.determinant_spec()).times(det3(a.c1.y,
            a.c1.z, a.c1.w, a.c2.y, a.c2.z, a.c2.w, a.c3.y, a.c3.z, a.c3.w))).plus(a.c1.x
            .times(S::one_spec().over(a.determinant_spec()).times(det3(a.c0.y, a.c0.z, a.c0.w,
            a.c2.y, a.c2.z, a.c2.w, a.c3.y, a.c3.z, a.c3.w).negated()))).plus(a.c2.x
            .times(S::one_spec().over(a.determinant_spec()).times(det3(a.c0.y, a.c0.z, a.c0.w,
            a.c1.y, a.c1.z, a.c1.w, a.c3.y, a.c3.z, a.c3.w)))), a.c3.x.times(S::one_spec()
            .over(a.determinant_spec()).times(det3(a.c0.y, a.c0.z, a.c0.w, a.c1.y, a.c1.z, a.c1.w,
            a.c2.y, a.c2.z, a.c2.w).negated())));
        let m0 = a.c0.x.value();
        let t0 = det3_value(a.c1.y.value(), a.c1.z.value(), a.c1.w.value(), a.c2.y.value(),
            a.c2.z.value(), a.c2.w.value(), a.c3.y.value(), a.c3.z.value(), a.c3.w.value());
        let p0 = m0 * t0;
        assert(m0 * (kv * t0) == kv * p0) by (nonlinear_arith)
            requires
                p0 == m0 * t0,
        ;
        let m1 = a.c1.x.value();
        let t1 = (-det3_value(a.c0.y.value(), a.c0.z.value(), a.c0.w.value(), a.c2.y.value(),
            a.c2.z.value(), a.c2.w.value(), a.c3.y.value(), a.c3.z.value(), a.c3.w.value()));
        let p1 = m1 * t1;
        assert(m1 * (kv * t1) == kv * p1) by (nonlinear_arith)
            requires
                p1 == m1 * t1,
        ;
        let m2 = a.c2.x.value();
        let t2 = det3_value(a.c0.y.value(), a.c0.z.value(), a.c0.w.value(), a.c1.y.value(),
            a.c1.z.value(), a.c1.w.value(), a.c3.y.value(), a.c3.z.value(), a.c3.w.value());
        let p2 = m2 * t2;
        assert(m2 * (kv * t2) == kv * p2) by (nonlinear_arith)
            requires
                p2 == m2 * t2,
        ;
        let m3 = a.c3.x.value();
        let t3 = (-det3_value(a.c0.y.value(), a.c0.z.value(), a.c0.w.value(), a.c1.y.value(),
            a.c1.z.value(), a.c1.w.value(), a.c2.y.value(), a.c2.z.value(), a.c2.w.value()));
        let p3 = m3 * t3;
        assert(m3 * (kv * t3) == kv * p3) by (nonlinear_arith)
            requires
                p3 == m3 * t3,
        ;
        assert(kv * p0 + kv * p1 + kv * p2 + kv * p3 == kv * (p0 + p1 + p2
            + p3)) by (nonlinear_arith);
        lemma_det4_value_right_0_0(
            a.c0.x.value(), a.c0.y.value(), a.c0.z.value(), a.c0.w.value(), a.c1.x.value(),
                a.c1.y.value(), a.c1.z.value(), a.c1.w.value(), a.c2.x.value(), a.c2.y.value(),
                a.c2.z.value(), a.c2.w.value(), a.c3.x.value(), a.c3.y.value(), a.c3.z.value(),
                a.c3.w.value(),
        );
        assert(kv * (p0 + p1 + p2 + p3) == 1);
        S::lemma_value_injective(a.c0.x.times(S::one_spec().over(a.determinant_spec())
            .times(det3(a.c1.y, a.c1.z, a.c1.w, a.c2.y, a.c2.z, a.c2.w, a.c3.y, a.c3.z,
            a.c3.w))).plus(a.c1.x.times(S::one_spec().over(a.determinant_spec()).times(det3(a.c0.y,
            a.c0.z, a.c0.w, a.c2.y, a.c2.z, a.c2.w, a.c3.y, a.c3.z, a.c3.w).negated())))
            .plus(a.c2.x.times(S::one_spec().over(a.determinant_spec()).times(det3(a.c0.y, a.c0.z,
            a.c0.w, a.c1.y, a.c1.z, a.c1.w, a.c3.y, a.c3.z, a.c3.w)))).plus(a.c3.x
            .times(S::one_spec().over(a.determinant_spec()).times(det3(a.c0.y, a.c0.z, a.c0.w,
            a.c1.y, a.c1.z, a.c1.w, a.c2.y, a.c2.z, a.c2.w).negated()))), S::one_spec());
    }
    {
        lemma_det3_value(a.c1.y, a.c1.z, a.c1.w, a.c2.y, a.c2.z, a.c2.w, a.c3.y, a.c3.z, a.c3.w);
        S::lemma_mul(S::one_spec().over(a.determinant_spec()), det3(a.c1.y, a.c1.z, a.c1.w, a.c2.y,
            a.c2.z, a.c2.w, a.c3.y, a.c3.z, a.c3.w));
        S::lemma_mul(a.c0.y, S::one_spec().over(a.determinant_spec()).times(det3(a.c1.y, a.c1.z,
            a.c1.w, a.c2.y, a.c2.z, a.c2.w, a.c3.y, a.c3.z, a.c3.w)));
        lemma_det3_value(a.c0.y, a.c0.z, a.c0.w, a.c2.y, a.c2.z, a.c2.w, a.c3.y, a.c3.z, a.c3.w);
        S::lemma_neg(det3(a.c0.y, a.c0.z, a.c0.w, a.c2.y, a.c2.z, a.c2.w, a.c3.y, a.c3.z, a.c3.w));
        S::lemma_mul(S::one_spec().over(a.determinant_spec()), det3(a.c0.y, a.c0.z, a.c0.w, a.c2.y,
            a.c2.z, a.c2.w, a.c3.y, a.c3.z, a.c3.w).negated());
        S::lemma_mul(a.c1.y, S::one_spec().over(a.determinant_spec()).times(det3(a.c0.y, a.c0.z,
            a.c0.w, a.c2.y, a.c2.z, a.c2.w, a.c3.y, a.c3.z, a.c3.w).negated()));
        S::lemma_add(a.c0.y.times(S::one_spec().over(a.determinant_spec()).times(det3(a.c1.y,
            a.c1.z, a.c1.w, a.c2.y, a.c2.z, a.c2.w, a.c3.y, a.c3.z, a.c3.w))), a.c1.y
            .times(S::one_spec().over(a.determinant_spec()).times(det3(a.c0.y, a.c0.z, a.c0.w,
            a.c2.y, a.c2.z, a.c2.w, a.c3.y, a.c3.z, a.c3.w).negated())));
        lemma_det3_value(a.c0.y, a.c0.z, a.c0.w, a.c1.y, a.c1.z, a.c1.w, a.c3.y, a.c3.z, a.c3.w);
        S::lemma_mul(S::one_spec().over(a.determinant_spec()), det3(a.c0.y, a.c0.z, a.c0.w, a.c1.y,
            a.c1.z, a.c1.w, a.c3.y, a.c3.z, a.c3.w));
        S::lemma_mul(a.c2.y, S::one_spec().over(a.determinant_spec()).times(det3(a.c0.y, a.c0.z,
            a.c0.w, a.c1.y, a.c1.z, a.c1.w, a.c3.y, a.c3.z, a.c3.w)));
        S::lemma_add(a.c0.y.times(S::one_spec().over(a.determinant_spec()).times(det3(a.c1.y,
            a.c1.z, a.c1.w, a.c2.y, a.c2.z, a.c2.w, a.c3.y, a.c3.z, a.c3.w))).plus(a.c1.y
            .times(S::one_spec().over(a.determinant_spec()).times(det3(a.c0.y, a.c0.z, a.c0.w,
            a.c2.y, a.c2.z, a.c2.w, a.c3.y, a.c3.z, a.c3.w).negated()))), a.c2.y
            .times(S::one_spec().over(a.determinant_spec()).times(det3(a.c0.y, a.c0.z, a.c0.w,
            a.c1.y, a.c1.z, a.c1.w, a.c3.y, a.c3.z, a.c3.w))));
        lemma_det3_value(a.c0.y, a.c0.z, a.c0.w, a.c1.y, a.c1.z, a.c1.w, a.c2.y, a.c2.z, a.c2.w);
        S::lemma_neg(det3(a.c0.y, a.c0.z, a.c0.w, a.c1.y, a.c1.z, a.c1.w, a.c2.y, a.c2.z, a.c2.w));
        S::lemma_mul(S::one_spec().over(a.determinant_spec()), det3(a.c0.y, a.c0.z, a.c0.w, a.c1.y,
            a.c1.z, a.c1.w, a.c2.y, a.c2.z, a.c2.w).negated());
        S::lemma_mul(a.c3.y, S::one_spec().over(a.determinant_spec()).times(det3(a.c0.y, a.c0.z,
            a.c0.w, a.c1.y, a.c1.z, a.c1.w, a.c2.y, a.c2.z, a.c2.w).negated()));
        S::lemma_add(a.c0.y.times(S::one_spec().over(a.determinant_spec()).times(det3(a.c1.y,
            a.c1.z, a.c1.w, a.c2.y, a.c2.z, a.c2.w, a.c3.y, a.c3.z, a.c3.w))).plus(a.c1.y
            .times(S::one_spec().over(a.determinant_spec()).times(det3(a.c0.y, a.c0.z, a.c0.w,
            a.c2.y, a.c2.z, a.c2.w, a.c3.y, a.c3.z, a.c3.w).negated()))).plus(a.c2.y
            .times(S::one_spec().over(a.determinant_spec()).times(det3(a.c0.y, a.c0.z, a.c0.w,
            a.c1.y, a.c1.z, a.c1.w, a.c3.y, a.c3.z, a.c3.w)))), a.c3.y.times(S::one_spec()
            .over(a.determinant_spec()).times(det3(a.c0.y, a.c0.z, a.c0.w, a.c1.y, a.c1.z, a.c1.w,
            a.c2.y, a.c2.z, a.c2.w).negated())));
        let m0 = a.c0.y.value();
        let t0 = det3_value(a.c1.y.value(), a.c1.z.value(), a.c1.w.value(), a.c2.y.value(),
            a.c2.z.value(), a.c2.w.value(), a.c3.y.value(), a.c3.z.value(), a.c3.w.value());
        let p0 = m0 * t0;
        assert(m0 * (kv * t0) == kv * p0) by (nonlinear_arith)
            requires
                p0 == m0 * t0,
        ;
        let m1 = a.c1.y.value();
        let t1 = (-det3_value(a.c0.y.value(), a.c0.z.value(), a.c0.w.value(), a.c2.y.value(),
            a.c2.z.value(), a.c2.w.value(), a.c3.y.value(), a.c3.z.value(), a.c3.w.value()));
        let p1 = m1 * t1;
        assert(m1 * (kv * t1) == kv * p1) by (nonlinear_arith)
            requires
                p1 == m1 * t1,
        ;
        let m2 = a.c2.y.value();
        let t2 = det3_value(a.c0.y.value(), a.c0.z.value(), a.c0.w.value(), a.c1.y.value(),
            a.c1.z.value(), a.c1.w.value(), a.c3.y.value(), a.c3.z.value(), a.c3.w.value());
        let p2 = m2 * t2;
        assert(m2 * (kv * t2) == kv * p2) by (nonlinear_arith)
            requires
                p2 == m2 * t2,
        ;
        let m3 = a.c3.y.value();
        let t3 = (-det3_value(a.c0.y.value(), a.c0.z.value(), a.c0.w.value(), a.c1.y.value(),
            a.c1.z.value(), a.c1.w.value(), a.c2.y.value(), a.c2.z.value(), a.c2.w.value()));
        let p3 = m3 * t3;
        assert(m3 * (kv * t3) == kv * p3) by (nonlinear_arith)
            requires
                p3 == m3 * t3,
        ;
        assert(kv * p0 + kv * p1 + kv * p2 + kv * p3 == kv * (p0 + p1 + p2
            + p3)) by (nonlinear_arith);
        lemma_det4_value_right_0_1(
            a.c0.x.value(), a.c0.y.value(), a.c0.z.value(), a.c0.w.value(), a.c1.x.value(),
                a.c1.y.value(), a.c1.z.value(), a.c1.w.value(), a.c2.x.value(), a.c2.y.value(),
                a.c2.z.value(), a.c2.w.value(), a.c3.x.value(), a.c3.y.value(), a.c3.z.value(),
                a.c3.w.value(),
        );
        assert(kv * (p0 + p1 + p2 + p3) == 0) by (nonlinear_arith)
            requires
                p0 + p1 + p2 + p3 == 0,
        ;
        S::lemma_value_injective(a.c0.y.times(S::one_spec().over(a.determinant_spec())
            .times(det3(a.c1.y, a.c1.z, a.c1.w, a.c2.y, a.c2.z, a.c2.w, a.c3.y, a.c3.z,
            a.c3.w))).plus(a.c1.y.times(S::one_spec().over(a.determinant_spec()).times(det3(a.c0.y,
            a.c0.z, a.c0.w, a.c2.y, a.c2.z, a.c2.w, a.c3.y, a.c3.z, a.c3.w).negated())))
            .plus(a.c2.y.times(S::one_spec().over(a.determinant_spec()).times(det3(a.c0.y, a.c0.z,
            a.c0.w, a.c1.y, a.c1.z, a.c1.w, a.c3.y, a.c3.z, a.c3.w)))).plus(a.c3.y
            .times(S::one_spec().over(a.determinant_spec()).times(det3(a.c0.y, a.c0.z, a.c0.w,
            a.c1.y, a.c1.z, a.c1.w, a.c2.y, a.c2.z, a.c2.w).negated()))), S::zero_spec());
    }
    {
        lemma_det3_value(a.c1.y, a.c1.z, a.c1.w, a.c2.y, a.c2.z, a.c2.w, a.c3.y, a.c3.z, a.c3.w);
        S::lemma_mul(S::one_spec().over(a.determinant_spec()), det3(a.c1.y, a.c1.z, a.c1.w, a.c2.y,
            a.c2.z, a.c2.w, a.c3.y, a.c3.z, a.c3.w));
        S::lemma_mul(a.c0.z, S::one_spec().over(a.determinant_spec()).times(det3(a.c1.y, a.c1.z,
            a.c1.w, a.c2.y, a.c2.z, a.c2.w, a.c3.y, a.c3.z, a.c3.w)));
        lemma_det3_value(a.c0.y, a.c0.z, a.c0.w, a.c2.y, a.c2.z, a.c2.w, a.c3.y, a.c3.z, a.c3.w);
        S::lemma_neg(det3(a.c0.y, a.c0.z, a.c0.w, a.c2.y, a.c2.z, a.c2.w, a.c3.y, a.c3.z, a.c3.w));
        S::lemma_mul(S::one_spec().over(a.determinant_spec()), det3(a.c0.y, a.c0.z, a.c0.w, a.c2.y,
            a.c2.z, a.c2.w, a.c3.y, a.c3.z, a.c3.w).negated());
        S::lemma_mul(a.c1.z, S::one_spec().over(a.determinant_spec()).times(det3(a.c0.y, a.c0.z,
            a.c0.w, a.c2.y, a.c2.z, a.c2.w, a.c3.y, a.c3.z, a.c3.w).negated()));
        S::lemma_add(a.c0.z.times(S::one_spec().over(a.determinant_spec()).times(det3(a.c1.y,
            a.c1.z, a.c1.w, a.c2.y, a.c2.z, a.c2.w, a.c3.y, a.c3.z, a.c3.w))), a.c1.z
            .times(S::one_spec().over(a.determinant_spec()).times(det3(a.c0.y, a.c0.z, a.c0.w,
            a.c2.y, a.c2.z, a.c2.w, a.c3.y, a.c3.z, a.c3.w).negated())));
        lemma_det3_value(a.c0.y, a.c0.z, a.c0.w, a.c1.y, a.c1.z, a.c1.w, a.c3.y, a.c3.z, a.c3.w);
        S::lemma_mul(S::one_spec().over(a.determinant_spec()), det3(a.c0.y, a.c0.z, a.c0.w, a.c1.y,
            a.c1.z, a.c1.w, a.c3.y, a.c3.z, a.c3.w));
        S::lemma_mul(a.c2.z, S::one_spec().over(a.determinant_spec()).times(det3(a.c0.y, a.c0.z,
            a.c0.w, a.c1.y, a.c1.z, a.c1.w, a.c3.y, a.c3.z, a.c3.w)));
        S::lemma_add(a.c0.z.times(S::one_spec().over(a.determinant_spec()).times(det3(a.c1.y,
            a.c1.z, a.c1.w, a.c2.y, a.c2.z, a.c2.w, a.c3.y, a.c3.z, a.c3.w))).plus(a.c1.z
            .times(S::one_spec().over(a.determinant_spec()).times(det3(a.c0.y, a.c0.z, a.c0.w,
            a.c2.y, a.c2.z, a.c2.w, a.c3.y, a.c3.z, a.c3.w).negated()))), a.c2.z
            .times(S::one_spec().over(a.determinant_spec()).times(det3(a.c0.y, a.c0.z, a.c0.w,
            a.c1.y, a.c1.z, a.c1.w, a.c3.y, a.c3.z, a.c3.w))));
        lemma_det3_value(a.c0.y, a.c0.z, a.c0.w, a.c1.y, a.c1.z, a.c1.w, a.c2.y, a.c2.z, a.c2.w);
        S::lemma_neg(det3(a.c0.y, a.c0.z, a.c0.w, a.c1.y, a.c1.z, a.c1.w, a.c2.y, a.c2.z, a.c2.w));
        S::lemma_mul(S::one_spec().over(a.determinant_spec()), det3(a.c0.y, a.c0.z, a.c0.w, a.c1.y,
            a.c1.z, a.c1.w, a.c2.y, a.c2.z, a.c2.w).negated());
        S::lemma_mul(a.c3.z, S::one_spec().over(a.determinant_spec()).times(det3(a.c0.y, a.c0.z,
            a.c0.w, a.c1.y, a.c1.z, a.c1.w, a.c2.y, a.c2.z, a.c2.w).negated()));
        S::lemma_add(a.c0.z.times(S::one_spec().over(a.determinant_spec()).times(det3(a.c1.y,
            a.c1.z, a.c1.w, a.c2.y, a.c2.z, a.c2.w, a.c3.y, a.c3.z, a.c3.w))).plus(a.c1.z
            .times(S::one_spec().over(a.determinant_spec()).times(det3(a.c0.y, a.c0.z, a.c0.w,
            a.c2.y, a.c2.z, a.c2.w, a.c3.y, a.c3.z, a.c3.w).negated()))).plus(a.c2.z
            .times(S::one_spec().over(a.determinant_spec()).times(det3(a.c0.y, a.c0.z, a.c0.w,
            a.c1.y, a.c1.z, a.c1.w, a.c3.y, a.c3.z, a.c3.w)))), a.c3.z.times(S::one_spec()
            .over(a.determinant_spec()).times(det3(a.c0.y, a.c0.z, a.c0.w, a.c1.y, a.c1.z, a.c1.w,
            a.c2.y, a.c2.z, a.c2.w).negated())));
        let m0 = a.c0.z.value();
        let t0 = det3_value(a.c1.y.value(), a.c1.z.value(), a.c1.w.value(), a.c2.y.value(),
            a.c2.z.value(), a.c2.w.value(), a.c3.y.value(), a.c3.z.value(), a.c3.w.value());
        let p0 = m0 * t0;
        assert(m0 * (kv * t0) == kv * p0) by (nonlinear_arith)
            requires
                p0 == m0 * t0,
        ;
        let m1 = a.c1.z.value();
        let t1 = (-det3_value(a.c0.y.value(), a.c0.z.value(), a.c0.w.value(), a.c2.y.value(),
            a.c2.z.value(), a.c2.w.value(), a.c3.y.value(), a.c3.z.value(), a.c3.w.value()));
        let p1 = m1 * t1;
        assert(m1 * (kv * t1) == kv * p1) by (nonlinear_arith)
            requires
                p1 == m1 * t1,
        ;
        let m2 = a.c2.z.value();
        let t2 = det3_value(a.c0.y.value(), a.c0.z.value(), a.c0.w.value(), a.c1.y.value(),
            a.c1.z.value(), a.c1.w.value(), a.c3.y.value(), a.c3.z.value(), a.c3.w.value());
        let p2 = m2 * t2;
        assert(m2 * (kv * t2) == kv * p2) by (nonlinear_arith)
            requires
                p2 == m2 * t2,
        ;
        let m3 = a.c3.z.value();
        let t3 = (-det3_value(a.c0.y.value(), a.c0.z.value(), a.c0.w.value(), a.c1.y.value(),
            a.c1.z.value(), a.c1.w.value(), a.c2.y.value(), a.c2.z.value(), a.c2.w.value()));
        let p3 = m3 * t3;
        assert(m3 * (kv * t3) == kv * p3) by (nonlinear_arith)
            requires
                p3 == m3 * t3,
        ;
        assert(kv * p0 + kv * p1 + kv * p2 + kv * p3 == kv * (p0 + p1 + p2
            + p3)) by (nonlinear_arith);
        lemma_det4_value_right_0_2(
            a.c0.x.value(), a.c0.y.value(), a.c0.z.value(), a.c0.w.value(), a.c1.x.value(),
                a.c1.y.value(), a.c1.z.value(), a.c1.w.value(), a.c2.x.value(), a.c2.y.value(),
                a.c2.z.value(), a.c2.w.value(), a.c3.x.value(), a.c3.y.value(), a.c3.z.value(),
                a.c3.w.value(),
        );
        assert(kv * (p0 + p1 + p2 + p3) == 0) by (nonlinear_arith)
            requires
                p0 + p1 + p2 + p3 == 0,
        ;
        S::lemma_value_injective(a.c0.z.times(S::one_spec().over(a.determinant_spec())
            .times(det3(a.c1.y, a.c1.z, a.c1.w, a.c2.y, a.c2.z, a.c2.w, a.c3.y, a.c3.z,
            a.c3.w))).plus(a.c1.z.times(S::one_spec().over(a.determinant_spec()).times(det3(a.c0.y,
            a.c0.z, a.c0.w, a.c2.y, a.c2.z, a.c2.w, a.c3.y, a.c3.z, a.c3.w).negated())))
            .plus(a.c2.z.times(S::one_spec().over(a.determinant_spec()).times(det3(a.c0.y, a.c0.z,
            a.c0.w, a.c1.y, a.c1.z, a.c1.w, a.c3.y, a.c3.z, a.c3.w)))).plus(a.c3.z
            .times(S::one_spec().over(a.determinant_spec()).times(det3(a.c0.y, a.c0.z, a.c0.w,
            a.c1.y, a.c1.z, a.c1.w, a.c2.y, a.c2.z, a.c2.w).negated()))), S::zero_spec());
    }
    {
        lemma_det3_value(a.c1.y, a.c1.z, a.c1.w, a.c2.y, a.c2.z, a.c2.w, a.c3.y, a.c3.z, a.c3.w);
        S::lemma_mul(S::one_spec().over(a.determinant_spec()), det3(a.c1.y, a.c1.z, a.c1.w, a.c2.y,
            a.c2.z, a.c2.w, a.c3.y, a.c3.z, a.c3.w));
        S::lemma_mul(a.c0.w, S::one_spec().over(a.determinant_spec()).times(det3(a.c1.y, a.c1.z,
            a.c1.w, a.c2.y, a.c2.z, a.c2.w, a.c3.y, a.c3.z, a.c3.w)));
        lemma_det3_value(a.c0.y, a.c0.z, a.c0.w, a.c2.y, a.c2.z, a.c2.w, a.c3.y, a.c3.z, a.c3.w);
        S::lemma_neg(det3(a.c0.y, a.c0.z, a.c0.w, a.c2.y, a.c2.z, a.c2.w, a.c3.y, a.c3.z, a.c3.w));
        S::lemma_mul(S::one_spec().over(a.determinant_spec()), det3(a.c0.y, a.c0.z, a.c0.w, a.c2.y,
            a.c2.z, a.c2.w, a.c3.y, a.c3.z, a.c3.w).negated());
        S::lemma_mul(a.c1.w, S::one_spec().over(a.determinant_spec()).times(det3(a.c0.y, a.c0.z,
            a.c0.w, a.c2.y, a.c2.z, a.c2.w, a.c3.y, a.c3.z, a.c3.w).negated()));
        S::lemma_add(a.c0.w.times(S::one_spec().over(a.determinant_spec()).times(det3(a.c1.y,
            a.c1.z, a.c1.w, a.c2.y, a.c2.z, a.c2.w, a.c3.y, a.c3.z, a.c3.w))), a.c1.w
            .times(S::one_spec().over(a.determinant_spec()).times(det3(a.c0.y, a.c0.z, a.c0.w,
            a.c2.y, a.c2.z, a.c2.w, a.c3.y, a.c3.z, a.c3.w).negated())));
        lemma_det3_value(a.c0.y, a.c0.z, a.c0.w, a.c1.y, a.c1.z, a.c1.w, a.c3.y, a.c3.z, a.c3.w);
        S::lemma_mul(S::one_spec().over(a.determinant_spec()), det3(a.c0.y, a.c0.z, a.c0.w, a.c1.y,
            a.c1.z, a.c1.w, a.c3.y, a.c3.z, a.c3.w));
        S::lemma_mul(a.c2.w, S::one_spec().over(a.determinant_spec()).times(det3(a.c0.y, a.c0.z,
            a.c0.w, a.c1.y, a.c1.z, a.c1.w, a.c3.y, a.c3.z, a.c3.w)));
        S::lemma_add(a.c0.w.times(S::one_spec().over(a.determinant_spec()).times(det3(a.c1.y,
            a.c1.z, a.c1.w, a.c2.y, a.c2.z, a.c2.w, a.c3.y, a.c3.z, a.c3.w))).plus(a.c1.w
            .times(S::one_spec().over(a.determinant_spec()).times(det3(a.c0.y, a.c0.z, a.c0.w,
            a.c2.y, a.c2.z, a.c2.w, a.c3.y, a.c3.z, a.c3.w).negated()))), a.c2.w
            .times(S::one_spec().over(a.determinant_spec()).times(det3(a.c0.y, a.c0.z, a.c0.w,
            a.c1.y, a.c1.z, a.c1.w, a.c3.y, a.c3.z, a.c3.w))));
        lemma_det3_value(a.c0.y, a.c0.z, a.c0.w, a.c1.y, a.c1.z, a.c1.w, a.c2.y, a.c2.z, a.c2.w);
        S::lemma_neg(det3(a.c0.y, a.c0.z, a.c0.w, a.c1.y, a.c1.z, a.c1.w, a.c2.y, a.c2.z, a.c2.w));
        S::lemma_mul(S::one_spec().over(a.determinant_spec()), det3(a.c0.y, a.c0.z, a.c0.w, a.c1.y,
            a.c1.z, a.c1.w, a.c2.y, a.c2.z, a.c2.w).negated());
        S::lemma_mul(a.c3.w, S::one_spec().over(a.determinant_spec()).times(det3(a.c0.y, a.c0.z,
            a.c0.w, a.c1.y, a.c1.z, a.c1.w, a.c2.y, a.c2.z, a.c2.w).negated()));
        S::lemma_add(a.c0.w.times(S::one_spec().over(a.determinant_spec()).times(det3(a.c1.y,
            a.c1.z, a.c1.w, a.c2.y, a.c2.z, a.c2.w, a.c3.y, a.c3.z, a.c3.w))).plus(a.c1.w
            .times(S::one_spec().over(a.determinant_spec()).times(det3(a.c0.y, a.c0.z, a.c0.w,
            a.c2.y, a.c2.z, a.c2.w, a.c3.y, a.c3.z, a.c3.w).negated()))).plus(a.c2.w
            .times(S::one_spec().over(a.determinant_spec()).times(det3(a.c0.y, a.c0.z, a.c0.w,
            a.c1.y, a.c1.z, a.c1.w, a.c3.y, a.c3.z, a.c3.w)))), a.c3.w.times(S::one_spec()
            .over(a.determinant_spec()).times(det3(a.c0.y, a.c0.z, a.c0.w, a.c1.y, a.c1.z, a.c1.w,
            a.c2.y, a.c2.z, a.c2.w).negated())));
        let m0 = a.c0.w.value();
        let t0 = det3_value(a.c1.y.value(), a.c1.z.value(), a.c1.w.value(), a.c2.y.value(),
            a.c2.z.value(), a.c2.w.value(), a.c3.y.value(), a.c3.z.value(), a.c3.w.value());
        let p0 = m0 * t0;
        assert(m0 * (kv * t0) == kv * p0) by (nonlinear_arith)
            requires
                p0 == m0 * t0,
        ;
        let m1 = a.c1.w.value();
        let t1 = (-det3_value(a.c0.y.value(), a.c0.z.value(), a.c0.w.value(), a.c2.y.value(),
            a.c2.z.value(), a.c2.w.value(), a.c3.y.value(), a.c3.z.value(), a.c3.w.value()));
        let p1 = m1 * t1;
        assert(m1 * (kv * t1) == kv * p1) by (nonlinear_arith)
            requires
                p1 == m1 * t1,
        ;
        let m2 = a.c2.w.value();
        let t2 = det3_value(a.c0.y.value(), a.c0.z.value(), a.c0.w.value(), a.c1.y.value(),
            a.c1.z.value(), a.c1.w.value(), a.c3.y.value(), a.c3.z.value(), a.c3.w.value());
        let p2 = m2 * t2;
        assert(m2 * (kv * t2) == kv * p2) by (nonlinear_arith)
            requires
                p2 == m2 * t2,
        ;
        let m3 = a.c3.w.value();
        let t3 = (-det3_value(a.c0.y.value(), a.c0.z.value(), a.c0.w.value(), a.c1.y.value(),
            a.c1.z.value(), a.c1.w.value(), a.c2.y.value(), a.c2.z.value(), a.c2.w.value()));
        let p3 = m3 * t3;
        assert(m3 * (kv * t3) == kv * p3) by (nonlinear_arith)
            requires
                p3 == m3 * t3,
        ;
        assert(kv * p0 + kv * p1 + kv * p2 + kv * p3 == kv * (p0 + p1 + p2
            + p3)) by (nonlinear_arith);
        lemma_det4_value_right_0_3(
            a.c0.x.value(), a.c0.y.value(), a.c0.z.value(), a.c0.w.value(), a.c1.x.value(),
                a.c1.y.value(), a.c1.z.value(), a.c1.w.value(), a.c2.x.value(), a.c2.y.value(),
                a.c2.z.value(), a.c2.w.value(), a.c3.x.value(), a.c3.y.value(), a.c3.z.value(),
                a.c3.w.value(),
        );
        assert(kv * (p0 + p1 + p2 + p3) == 0) by (nonlinear_arith)
            requires
                p0 + p1 + p2 + p3 == 0,
        ;
        S::lemma_value_injective(a.c0.w.times(S::one_spec().over(a.determinant_spec())
            .times(det3(a.c1.y, a.c1.z, a.c1.w, a.c2.y, a.c2.z, a.c2.w, a.c3.y, a.c3.z,
            a.c3.w))).plus(a.c1.w.times(S::one_spec().over(a.determinant_spec()).times(det3(a.c0.y,
            a.c0.z, a.c0.w, a.c2.y, a.c2.z, a.c2.w, a.c3.y, a.c3.z, a.c3.w).negated())))
            .plus(a.c2.w.times(S::one_spec().over(a.determinant_spec()).times(det3(a.c0.y, a.c0.z,
            a.c0.w, a.c1.y, a.c1.z, a.c1.w, a.c3.y, a.c3.z, a.c3.w)))).plus(a.c3.w
            .times(S::one_spec().over(a.determinant_spec()).times(det3(a.c0.y, a.c0.z, a.c0.w,
            a.c1.y, a.c1.z, a.c1.w, a.c2.y, a.c2.z, a.c2.w).negated()))), S::zero_spec());
    }
    {
        lemma_det3_value(a.c1.x, a.c1.z, a.c1.w, a.c2.x, a.c2.z, a.c2.w, a.c3.x, a.c3.z, a.c3.w);
        S::lemma_neg(det3(a.c1.x, a.c1.z, a.c1.w, a.c2.x, a.c2.z, a.c2.w, a.c3.x, a.c3.z, a.c3.w));
        S::lemma_mul(S::one_spec().over(a.determinant_spec()), det3(a.c1.x, a.c1.z, a.c1.w, a.c2.x,
            a.c2.z, a.c2.w, a.c3.x, a.c3.z, a.c3.w).negated());
        S::lemma_mul(a.c0.x, S::one_spec().over(a.determinant_spec()).times(det3(a.c1.x, a.c1.z,
            a.c1.w, a.c2.x, a.c2.z, a.c2.w, a.c3.x, a.c3.z, a.c3.w).negated()));
        lemma_det3_value(a.c0.x, a.c0.z, a.c0.w, a.c2.x, a.c2.z, a.c2.w, a.c3.x, a.c3.z, a.c3.w);
        S::lemma_mul(S::one_spec().over(a.determinant_spec()), det3(a.c0.x, a.c0.z, a.c0.w, a.c2.x,
            a.c2.z, a.c2.w, a.c3.x, a.c3.z, a.c3.w));
        S::lemma_mul(a.c1.x, S::one_spec().over(a.determinant_spec()).times(det3(a.c0.x, a.c0.z,
            a.c0.w, a.c2.x, a.c2.z, a.c2.w, a.c3.x, a.c3.z, a.c3.w)));
        S::lemma_add(a.c0.x.times(S::one_spec().over(a.determinant_spec()).times(det3(a.c1.x,
            a.c1.z, a.c1.w, a.c2.x, a.c2.z, a.c2.w, a.c3.x, a.c3.z, a.c3.w).negated())),
            a.c1.x.times(S::one_spec().over(a.determinant_spec()).times(det3(a.c0.x, a.c0.z,
            a.c0.w, a.c2.x, a.c2.z, a.c2.w, a.c3.x, a.c3.z, a.c3.w))));
        lemma_det3_value(a.c0.x, a.c0.z, a.c0.w, a.c1.x, a.c1.z, a.c1.w, a.c3.x, a.c3.z, a.c3.w);
        S::lemma_neg(det3(a.c0.x, a.c0.z, a.c0.w, a.c1.x, a.c1.z, a.c1.w, a.c3.x, a.c3.z, a.c3.w));
        S::lemma_mul(S::one_spec().over(a.determinant_spec()), det3(a.c0.x, a.c0.z, a.c0.w, a.c1.x,
            a.c1.z, a.c1.w, a.c3.x, a.c3.z, a.c3.w).negated());
        S::lemma_mul(a.c2.x, S::one_spec().over(a.determinant_spec()).times(det3(a.c0.x, a.c0.z,
            a.c0.w, a.c1.x, a.c1.z, a.c1.w, a.c3.x, a.c3.z, a.c3.w).negated()));
        S::lemma_add(a.c0.x.times(S::one_spec().over(a.determinant_spec()).times(det3(a.c1.x,
            a.c1.z, a.c1.w, a.c2.x, a.c2.z, a.c2.w, a.c3.x, a.c3.z, a.c3.w).negated()))
            .plus(a.c1.x.times(S::one_spec().over(a.determinant_spec()).times(det3(a.c0.x, a.c0.z,
            a.c0.w, a.c2.x, a.c2.z, a.c2.w, a.c3.x, a.c3.z, a.c3.w)))), a.c2.x
            .times(S::one_spec().over(a.determinant_spec()).times(det3(a.c0.x, a.c0.z, a.c0.w,
            a.c1.x, a.c1.z, a.c1.w, a.c3.x, a.c3.z, a.c3.w).negated())));
        lemma_det3_value(a.c0.x, a.c0.z, a.c0.w, a.c1.x, a.c1.z, a.c1.w, a.c2.x, a.c2.z, a.c2.w);
        S::lemma_mul(S::one_spec().over(a.determinant_spec()), det3(a.c0.x, a.c0.z, a.c0.w, a.c1.x,
            a.c1.z, a.c1.w, a.c2.x, a.c2.z, a.c2.w));
        S::lemma_mul(a.c3.x, S::one_spec().over(a.determinant_spec()).times(det3(a.c0.x, a.c0.z,
            a.c0.w, a.c1.x, a.c1.z, a.c1.w, a.c2.x, a.c2.z, a.c2.w)));
        S::lemma_add(a.c0.x.times(S::one_spec().over(a.determinant_spec()).times(det3(a.c1.x,
            a.c1.z, a.c1.w, a.c2.x, a.c2.z, a.c2.w, a.c3.x, a.c3.z, a.c3.w).negated()))
            .plus(a.c1.x.times(S::one_spec().over(a.determinant_spec()).times(det3(a.c0.x, a.c0.z,
            a.c0.w, a.c2.x, a.c2.z, a.c2.w, a.c3.x, a.c3.z, a.c3.w)))).plus(a.c2.x
            .times(S::one_spec().over(a.determinant_spec()).times(det3(a.c0.x, a.c0.z, a.c0.w,
            a.c1.x, a.c1.z, a.c1.w, a.c3.x, a.c3.z, a.c3.w).negated()))), a.c3.x
            .times(S::one_spec().over(a.determinant_spec()).times(det3(a.c0.x, a.c0.z, a.c0.w,
            a.c1.x, a.c1.z, a.c1.w, a.c2.x, a.c2.z, a.c2.w))));
        let m0 = a.c0.x.value();
        let t0 = (-det3_value(a.c1.x.value(), a.c1.z.value(), a.c1.w.value(), a.c2.x.value(),
            a.c2.z.value(), a.c2.w.value(), a.c3.x.value(), a.c3.z.value(), a.c3.w.value()));
        let p0 = m0 * t0;
        assert(m0 * (kv * t0) == kv * p0) by (nonlinear_arith)
            requires
                p0 == m0 * t0,
        ;
        let m1 = a.c1.x.value();
        let t1 = det3_value(a.c0.x.value(), a.c0.z.value(), a.c0.w.value(), a.c2.x.value(),
            a.c2.z.value(), a.c2.w.value(), a.c3.x.value(), a.c3.z.value(), a.c3.w.value());
        let p1 = m1 * t1;
        assert(m1 * (kv * t1) == kv * p1) by (nonlinear_arith)
            requires
                p1 == m1 * t1,
        ;
        let m2 = a.c2.x.value();
        let t2 = (-det3_value(a.c0.x.value(), a.c0.z.value(), a.c0.w.value(), a.c1.x.value(),
            a.c1.z.value(), a.c1.w.value(), a.c3.x.value(), a.c3.z.value(), a.c3.w.value()));
        let p2 = m2 * t2;
        assert(m2 * (kv * t2) == kv * p2) by (nonlinear_arith)
            requires
                p2 == m2 * t2,
        ;
        let m3 = a.c3.x.value();
        let t3 = det3_value(a.c0.x.value(), a.c0.z.value(), a.c0.w.value(), a.c1.x.value(),
            a.c1.z.value(), a.c1.w.value(), a.c2.x.value(), a.c2.z.value(), a.c2.w.value());
        let p3 = m3 * t3;
        assert(m3 * (kv * t3) == kv * p3) by (nonlinear_arith)
            requires
                p3 == m3 * t3,
        ;
        assert(kv * p0 + kv * p1 + kv * p2 + kv * p3 == kv * (p0 + p1 + p2
            + p3)) by (nonlinear_arith);
        lemma_det4_value_right_1_0(
            a.c0.x.value(), a.c0.y.value(), a.c0.z.value(), a.c0.w.value(), a.c1.x.value(),
                a.c1.y.value(), a.c1.z.value(), a.c1.w.value(), a.c2.x.value(), a.c2.y.value(),
                a.c2.z.value(), a.c2.w.value(), a.c3.x.value(), a.c3.y.value(), a.c3.z.value(),
                a.c3.w.value(),
        );
        assert(kv * (p0 + p1 + p2 + p3) == 0) by (nonlinear_arith)
            requires
                p0 + p1 + p2 + p3 == 0,
        ;
        S::lemma_value_injective(a.c0.x.times(S::one_spec().over(a.determinant_spec())
            .times(det3(a.c1.x, a.c1.z, a.c1.w, a.c2.x, a.c2.z, a.c2.w, a.c3.x, a.c3.z,
            a.c3.w).negated())).plus(a.c1.x.times(S::one_spec().over(a.determinant_spec())
            .times(det3(a.c0.x, a.c0.z, a.c0.w, a.c2.x, a.c2.z, a.c2.w, a.c3.x, a.c3.z,
            a.c3.w)))).plus(a.c2.x.times(S::one_spec().over(a.determinant_spec())
            .times(det3(a.c0.x, a.c0.z, a.c0.w, a.c1.x, a.c1.z, a.c1.w, a.c3.x, a.c3.z,
            a.c3.w).negated()))).plus(a.c3.x.times(S::one_spec().over(a.determinant_spec())
            .times(det3(a.c0.x, a.c0.z, a.c0.w, a.c1.x, a.c1.z, a.c1.w, a.c2.x, a.c2.z, a.c2.w)))),
            S::zero_spec());
    }
    {
        lemma_det3_value(a.c1.x, a.c1.z, a.c1.w, a.c2.x, a.c2.z, a.c2.w, a.c3.x, a.c3.z, a.c3.w);
        S::lemma_neg(det3(a.c1.x, a.c1.z, a.c1.w, a.c2.x, a.c2.z, a.c2.w, a.c3.x, a.c3.z, a.c3.w));
        S::lemma_mul(S::one_spec().over(a.determinant_spec()), det3(a.c1.x, a.c1.z, a.c1.w, a.c2.x,
            a.c2.z, a.c2.w, a.c3.x, a.c3.z, a.c3.w).negated());
        S::lemma_mul(a.c0.y, S::one_spec().over(a.determinant_spec()).times(det3(a.c1.x, a.c1.z,
            a.c1.w, a.c2.x, a.c2.z, a.c2.w, a.c3.x, a.c3.z, a.c3.w).negated()));
        lemma_det3_value(a.c0.x, a.c0.z, a.c0.w, a.c2.x, a.c2.z, a.c2.w, a.c3.x, a.c3.z, a.c3.w);
        S::lemma_mul(S::one_spec().over(a.determinant_spec()), det3(a.c0.x, a.c0.z, a.c0.w, a.c2.x,
            a.c2.z, a.c2.w, a.c3.x, a.c3.z, a.c3.w));
        S::lemma_mul(a.c1.y, S::one_spec().over(a.determinant_spec()).times(det3(a.c0.x, a.c0.z,
            a.c0.w, a.c2.x, a.c2.z, a.c2.w, a.c3.x, a.c3.z, a.c3.w)));
        S::lemma_add(a.c0.y.times(S::one_spec().over(a.determinant_spec()).times(det3(a.c1.x,
            a.c1.z, a.c1.w, a.c2.x, a.c2.z, a.c2.w, a.c3.x, a.c3.z, a.c3.w).negated())),
            a.c1.y.times(S::one_spec().over(a.determinant_spec()).times(det3(a.c0.x, a.c0.z,
            a.c0.w, a.c2.x, a.c2.z, a.c2.w, a.c3.x, a.c3.z, a.c3.w))));
        lemma_det3_value(a.c0.x, a.c0.z, a.c0.w, a.c1.x, a.c1.z, a.c1.w, a.c3.x, a.c3.z, a.c3.w);
        S::lemma_neg(det3(a.c0.x, a.c0.z, a.c0.w, a.c1.x, a.c1.z, a.c1.w, a.c3.x, a.c3.z, a.c3.w));
        S::lemma_mul(S::one_spec().over(a.determinant_spec()), det3(a.c0.x, a.c0.z, a.c0.w, a.c1.x,
            a.c1.z, a.c1.w, a.c3.x, a.c3.z, a.c3.w).negated());
        S::lemma_mul(a.c2.y, S::one_spec().over(a.determinant_spec()).times(det3(a.c0.x, a.c0.z,
            a.c0.w, a.c1.x, a.c1.z, a.c1.w, a.c3.x, a.c3.z, a.c3.w).negated()));
        S::lemma_add(a.c0.y.times(S::one_spec().over(a.determinant_spec()).times(det3(a.c1.x,
            a.c1.z, a.c1.w, a.c2.x, a.c2.z, a.c2.w, a.c3.x, a.c3.z, a.c3.w).negated()))
            .plus(a.c1.y.times(S::one_spec().over(a.determinant_spec()).times(det3(a.c0.x, a.c0.z,
            a.c0.w, a.c2.x, a.c2.z, a.c2.w, a.c3.x, a.c3.z, a.c3.w)))), a.c2.y
            .times(S::one_spec().over(a.determinant_spec()).times(det3(a.c0.x, a.c0.z, a.c0.w,
            a.c1.x, a.c1.z, a.c1.w, a.c3.x, a.c3.z, a.c3.w).negated())));
        lemma_det3_value(a.c0.x, a.c0.z, a.c0.w, a.c1.x, a.c1.z, a.c1.w, a.c2.x, a.c2.z, a.c2.w);
        S::lemma_mul(S::one_spec().over(a.determinant_spec()), det3(a.c0.x, a.c0.z, a.c0.w, a.c1.x,
            a.c1.z, a.c1.w, a.c2.x, a.c2.z, a.c2.w));
        S::lemma_mul(a.c3.y, S::one_spec().over(a.determinant_spec()).times(det3(a.c0.x, a.c0.z,
            a.c0.w, a.c1.x, a.c1.z, a.c1.w, a.c2.x, a.c2.z, a.c2.w)));
        S::lemma_add(a.c0.y.times(S::one_spec().over(a.determinant_spec()).times(det3(a.c1.x,
            a.c1.z, a.c1.w, a.c2.x, a.c2.z, a.c2.w, a.c3.x, a.c3.z, a.c3.w).negated()))
            .plus(a.c1.y.times(S::one_spec().over(a.determinant_spec()).times(det3(a.c0.x, a.c0.z,
            a.c0.w, a.c2.x, a.c2.z, a.c2.w, a.c3.x, a.c3.z, a.c3.w)))).plus(a.c2.y
            .times(S::one_spec().over(a.determinant_spec()).times(det3(a.c0.x, a.c0.z, a.c0.w,
            a.c1.x, a.c1.z, a.c1.w, a.c3.x, a.c3.z, a.c3.w).negated()))), a.c3.y
            .times(S::one_spec().over(a.determinant_spec()).times(det3(a.c0.x, a.c0.z, a.c0.w,
            a.c1.x, a.c1.z, a.c1.w, a.c2.x, a.c2.z, a.c2.w))));
        let m0 = a.c0.y.value();
        let t0 = (-det3_value(a.c1.x.value(), a.c1.z.value(), a.c1.w.value(), a.c2.x.value(),
            a.c2.z.value(), a.c2.w.value(), a.c3.x.value(), a.c3.z.value(), a.c3.w.value()));
        let p0 = m0 * t0;
        assert(m0 * (kv * t0) == kv * p0) by (nonlinear_arith)
            requires
                p0 == m0 * t0,
        ;
        let m1 = a.c1.y.value();
        let t1 = det3_value(a.c0.x.value(), a.c0.z.value(), a.c0.w.value(), a.c2.x.value(),
            a.c2.z.value(), a.c2.w.value(), a.c3.x.value(), a.c3.z.value(), a.c3.w.value());
        let p1 = m1 * t1;
        assert(m1 * (kv * t1) == kv * p1) by (nonlinear_arith)
            requires
                p1 == m1 * t1,
        ;
        let m2 = a.c2.y.value();
        let t2 = (-det3_value(a.c0.x.value(), a.c0.z.value(), a.c0.w.value(), a.c1.x.value(),
            a.c1.z.value(), a.c1.w.value(), a.c3.x.value(), a.c3.z.value(), a.c3.w.value()));
        let p2 = m2 * t2;
        assert(m2 * (kv * t2) == kv * p2) by (nonlinear_arith)
            requires
                p2 == m2 * t2,
        ;
        let m3 = a.c3.y.value();
        let t3 = det3_value(a.c0.x.value(), a.c0.z.value(), a.c0.w.value(), a.c1.x.value(),
            a.c1.z.value(), a.c1.w.value(), a.c2.x.value(), a.c2.z.value(), a.c2.w.value());
        let p3 = m3 * t3;
        assert(m3 * (kv * t3) == kv * p3) by (nonlinear_arith)
            requires
                p3 == m3 * t3,
        ;
        assert(kv * p0 + kv * p1 + kv * p2 + kv * p3 == kv * (p0 + p1 + p2
            + p3)) by (nonlinear_arith);
        lemma_det4_value_right_1_1(
            a.c0.x.value(), a.c0.y.value(), a.c0.z.value(), a.c0.w.value(), a.c1.x.value(),
                a.c1.y.value(), a.c1.z.value(), a.c1.w.value(), a.c2.x.value(), a.c2.y.value(),
                a.c2.z.value(), a.c2.w.value(), a.c3.x.value(), a.c3.y.value(), a.c3.z.value(),
                a.c3.w.value(),
        );
        assert(kv * (p0 + p1 + p2 + p3) == 1);
        S::lemma_value_injective(a.c0.y.times(S::one_spec().over(a.determinant_spec())
            .times(det3(a.c1.x, a.c1.z, a.c1.w, a.c2.x, a.c2.z, a.c2.w, a.c3.x, a.c3.z,
            a.c3.w).negated())).plus(a.c1.y.times(S::one_spec().over(a.determinant_spec())
            .times(det3(a.c0.x, a.c0.z, a.c0.w, a.c2.x, a.c2.z, a.c2.w, a.c3.x, a.c3.z,
            a.c3.w)))).plus(a.c2.y.times(S::one_spec().over(a.determinant_spec())
            .times(det3(a.c0.x, a.c0.z, a.c0.w, a.c1.x, a.c1.z, a.c1.w, a.c3.x, a.c3.z,
            a.c3.w).negated()))).plus(a.c3.y.times(S::one_spec().over(a.determinant_spec())
            .times(det3(a.c0.x, a.c0.z, a.c0.w, a.c1.x, a.c1.z, a.c1.w, a.c2.x, a.c2.z, a.c2.w)))),
            S::one_spec());
    }
    {
        lemma_det3_value(a.c1.x, a.c1.z, a.c1.w, a.c2.x, a.c2.z, a.c2.w, a.c3.x, a.c3.z, a.c3.w);
        S::lemma_neg(det3(a.c1.x, a.c1.z, a.c1.w, a.c2.x, a.c2.z, a.c2.w, a.c3.x, a.c3.z, a.c3.w));
        S::lemma_mul(S::one_spec().over(a.determinant_spec()), det3(a.c1.x, a.c1.z, a.c1.w, a.c2.x,
            a.c2.z, a.c2.w, a.c3.x, a.c3.z, a.c3.w).negated());
        S::lemma_mul(a.c0.z, S::one_spec().over(a.determinant_spec()).times(det3(a.c1.x, a.c1.z,
            a.c1.w, a.c2.x, a.c2.z, a.c2.w, a.c3.x, a.c3.z, a.c3.w).negated()));
        lemma_det3_value(a.c0.x, a.c0.z, a.c0.w, a.c2.x, a.c2.z, a.c2.w, a.c3.x, a.c3.z, a.c3.w);
        S::lemma_mul(S::one_spec().over(a.determinant_spec()), det3(a.c0.x, a.c0.z, a.c0.w, a.c2.x,
            a.c2.z, a.c2.w, a.c3.x, a.c3.z, a.c3.w));
        S::lemma_mul(a.c1.z, S::one_spec().over(a.determinant_spec()).times(det3(a.c0.x, a.c0.z,
            a.c0.w, a.c2.x, a.c2.z, a.c2.w, a.c3.x, a.c3.z, a.c3.w)));
        S::lemma_add(a.c0.z.times(S::one_spec().over(a.determinant_spec()).times(det3(a.c1.x,
            a.c1.z, a.c1.w, a.c2.x, a.c2.z, a.c2.w, a.c3.x, a.c3.z, a.c3.w).negated())),
            a.c1.z.times(S::one_spec().over(a.determinant_spec()).times(det3(a.c0.x, a.c0.z,
            a.c0.w, a.c2.x, a.c2.z, a.c2.w, a.c3.x, a.c3.z, a.c3.w))));
        lemma_det3_value(a.c0.x, a.c0.z, a.c0.w, a.c1.x, a.c1.z, a.c1.w, a.c3.x, a.c3.z, a.c3.w);
        S::lemma_neg(det3(a.c0.x, a.c0.z, a.c0.w, a.c1.x, a.c1.z, a.c1.w, a.c3.x, a.c3.z, a.c3.w));
        S::lemma_mul(S::one_spec().over(a.determinant_spec()), det3(a.c0.x, a.c0.z, a.c0.w, a.c1.x,
            a.c1.z, a.c1.w, a.c3.x, a.c3.z, a.c3.w).negated());
        S::lemma_mul(a.c2.z, S::one_spec().over(a.determinant_spec()).times(det3(a.c0.x, a.c0.z,
            a.c0.w, a.c1.x, a.c1.z, a.c1.w, a.c3.x, a.c3.z, a.c3.w).negated()));
        S::lemma_add(a.c0.z.times(S::one_spec().over(a.determinant_spec()).times(det3(a.c1.x,
            a.c1.z, a.c1.w, a.c2.x, a.c2.z, a.c2.w, a.c3.x, a.c3.z, a.c3.w).negated()))
            .plus(a.c1.z.times(S::one_spec().over(a.determinant_spec()).times(det3(a.c0.x, a.c0.z,
            a.c0.w, a.c2.x, a.c2.z, a.c2.w, a.c3.x, a.c3.z, a.c3.w)))), a.c2.z
            .times(S::one_spec().over(a.determinant_spec()).times(det3(a.c0.x, a.c0.z, a.c0.w,
            a.c1.x, a.c1.z, a.c1.w, a.c3.x, a.c3.z, a.c3.w).negated())));
        lemma_det3_value(a.c0.x, a.c0.z, a.c0.w, a.c1.x, a.c1.z, a.c1.w, a.c2.x, a.c2.z, a.c2.w);
        S::lemma_mul(S::one_spec().over(a.determinant_spec()), det3(a.c0.x, a.c0.z, a.c0.w, a.c1.x,
            a.c1.z, a.c1.w, a.c2.x, a.c2.z, a.c2.w));
        S::lemma_mul(a.c3.z, S::one_spec().over(a.determinant_spec()).times(det3(a.c0.x, a.c0.z,
            a.c0.w, a.c1.x, a.c1.z, a.c1.w, a.c2.x, a.c2.z, a.c2.w)));
        S::lemma_add(a.c0.z.times(S::one_spec().over(a.determinant_spec()).times(det3(a.c1.x,
            a.c1.z, a.c1.w, a.c2.x, a.c2.z, a.c2.w, a.c3.x, a.c3.z, a.c3.w).negated()))
            .plus(a.c1.z.times(S::one_spec().over(a.determinant_spec()).times(det3(a.c0.x, a.c0.z,
            a.c0.w, a.c2.x, a.c2.z, a.c2.w, a.c3.x, a.c3.z, a.c3.w)))).plus(a.c2.z
            .times(S::one_spec().over(a.determinant_spec()).times(det3(a.c0.x, a.c0.z, a.c0.w,
            a.c1.x, a.c1.z, a.c1.w, a.c3.x, a.c3.z, a.c3.w).negated()))), a.c3.z
            .times(S::one_spec().over(a.determinant_spec()).times(det3(a.c0.x, a.c0.z, a.c0.w,
            a.c1.x, a.c1.z, a.c1.w, a.c2.x, a.c2.z, a.c2.w))));
        let m0 = a.c0.z.value();
        let t0 = (-det3_value(a.c1.x.value(), a.c1.z.value(), a.c1.w.value(), a.c2.x.value(),
            a.c2.z.value(), a.c2.w.value(), a.c3.x.value(), a.c3.z.value(), a.c3.w.value()));
        let p0 = m0 * t0;
        assert(m0 * (kv * t0) == kv * p0) by (nonlinear_arith)
            requires
                p0 == m0 * t0,
        ;
        let m1 = a.c1.z.value();
        let t1 = det3_value(a.c0.x.value(), a.c0.z.value(), a.c0.w.value(), a.c2.x.value(),
            a.c2.z.value(), a.c2.w.value(), a.c3.x.value(), a.c3.z.value(), a.c3.w.value());
        let p1 = m1 * t1;
        assert(m1 * (kv * t1) == kv * p1) by (nonlinear_arith)
            requires
                p1 == m1 * t1,
        ;
        let m2 = a.c2.z.value();
        let t2 = (-det3_value(a.c0.x.value(), a.c0.z.value(), a.c0.w.value(), a.c1.x.value(),
            a.c1.z.value(), a.c1.w.value(), a.c3.x.value(), a.c3.z.value(), a.c3.w.value()));
        let p2 = m2 * t2;
        assert(m2 * (kv * t2) == kv * p2) by (nonlinear_arith)
            requires
                p2 == m2 * t2,
        ;
        let m3 = a.c3.z.value();
        let t3 = det3_value(a.c0.x.value(), a.c0.z.value(), a.c0.w.value(), a.c1.x.value(),
            a.c1.z.value(), a.c1.w.value(), a.c2.x.value(), a.c2.z.value(), a.c2.w.value());
        let p3 = m3 * t3;
        assert(m3 * (kv * t3) == kv * p3) by (nonlinear_arith)
            requires
                p3 == m3 * t3,
        ;
        assert(kv * p0 + kv * p1 + kv * p2 + kv * p3 == kv * (p0 + p1 + p2
            + p3)) by (nonlinear_arith);
        lemma_det4_value_right_1_2(
            a.c0.x.value(), a.c0.y.value(), a.c0.z.value(), a.c0.w.value(), a.c1.x.value(),
                a.c1.y.value(), a.c1.z.value(), a.c1.w.value(), a.c2.x.value(), a.c2.y.value(),
                a.c2.z.value(), a.c2.w.value(), a.c3.x.value(), a.c3.y.value(), a.c3.z.value(),
                a.c3.w.value(),
        );
        assert(kv * (p0 + p1 + p2 + p3) == 0) by (nonlinear_arith)
            requires
                p0 + p1 + p2 + p3 == 0,
        ;
        S::lemma_value_injective(a.c0.z.times(S::one_spec().over(a.determinant_spec())
            .times(det3(a.c1.x, a.c1.z, a.c1.w, a.c2.x, a.c2.z, a.c2.w, a.c3.x, a.c3.z,
            a.c3.w).negated())).plus(a.c1.z.times(S::one_spec().over(a.determinant_spec())
            .times(det3(a.c0.x, a.c0.z, a.c0.w, a.c2.x, a.c2.z, a.c2.w, a.c3.x, a.c3.z,
            a.c3.w)))).plus(a.c2.z.times(S::one_spec().over(a.determinant_spec())
            .times(det3(a.c0.x, a.c0.z, a.c0.w, a.c1.x, a.c1.z, a.c1.w, a.c3.x, a.c3.z,
            a.c3.w).negated()))).plus(a.c3.z.times(S::one_spec().over(a.determinant_spec())
            .times(det3(a.c0.x, a.c0.z, a.c0.w, a.c1.x, a.c1.z, a.c1.w, a.c2.x, a.c2.z, a.c2.w)))),
            S::zero_spec());
    }
    {
        lemma_det3_value(a.c1.x, a.c1.z, a.c1.w, a.c2.x, a.c2.z, a.c2.w, a.c3.x, a.c3.z, a.c3.w);
        S::lemma_neg(det3(a.c1.x, a.c1.z, a.c1.w, a.c2.x, a.c2.z, a.c2.w, a.c3.x, a.c3.z, a.c3.w));
        S::lemma_mul(S::one_spec().over(a.determinant_spec()), det3(a.c1.x, a.c1.z, a.c1.w, a.c2.x,
            a.c2.z, a.c2.w, a.c3.x, a.c3.z, a.c3.w).negated());
        S::lemma_mul(a.c0.w, S::one_spec().over(a.determinant_spec()).times(det3(a.c1.x, a.c1.z,
            a.c1.w, a.c2.x, a.c2.z, a.c2.w, a.c3.x, a.c3.z, a.c3.w).negated()));
        lemma_det3_value(a.c0.x, a.c0.z, a.c0.w, a.c2.x, a.c2.z, a.c2.w, a.c3.x, a.c3.z, a.c3.w);
        S::lemma_mul(S::one_spec().over(a.determinant_spec()), det3(a.c0.x, a.c0.z, a.c0.w, a.c2.x,
            a.c2.z, a.c2.w, a.c3.x, a.c3.z, a.c3.w));
        S::lemma_mul(a.c1.w, S::one_spec().over(a.determinant_spec()).times(det3(a.c0.x, a.c0.z,
            a.c0.w, a.c2.x, a.c2.z, a.c2.w, a.c3.x, a.c3.z, a.c3.w)));
        S::lemma_add(a.c0.w.times(S::one_spec().over(a.determinant_spec()).times(det3(a.c1.x,
            a.c1.z, a.c1.w, a.c2.x, a.c2.z, a.c2.w, a.c3.x, a.c3.z, a.c3.w).negated())),
            a.c1.w.times(S::one_spec().over(a.determinant_spec()).times(det3(a.c0.x, a.c0.z,
            a.c0.w, a.c2.x, a.c2.z, a.c2.w, a.c3.x, a.c3.z, a.c3.w))));
        lemma_det3_value(a.c0.x, a.c0.z, a.c0.w, a.c1.x, a.c1.z, a.c1.w, a.c3.x, a.c3.z, a.c3.w);
        S::lemma_neg(det3(a.c0.x, a.c0.z, a.c0.w, a.c1.x, a.c1.z, a.c1.w, a.c3.x, a.c3.z, a.c3.w));
        S::lemma_mul(S::one_spec().over(a.determinant_spec()), det3(a.c0.x, a.c0.z, a.c0.w, a.c1.x,
            a.c1.z, a.c1.w, a.c3.x, a.c3.z, a.c3.w).negated());
        S::lemma_mul(a.c2.w, S::one_spec().over(a.determinant_spec()).times(det3(a.c0.x, a.c0.z,
            a.c0.w, a.c1.x, a.c1.z, a.c1.w, a.c3.x, a.c3.z, a.c3.w).negated()));
        S::lemma_add(a.c0.w.times(S::one_spec().over(a.determinant_spec()).times(det3(a.c1.x,
            a.c1.z, a.c1.w, a.c2.x, a.c2.z, a.c2.w, a.c3.x, a.c3.z, a.c3.w).negated()))
            .plus(a.c1.w.times(S::one_spec().over(a.determinant_spec()).times(det3(a.c0.x, a.c0.z,
            a.c0.w, a.c2.x, a.c2.z, a.c2.w, a.c3.x, a.c3.z, a.c3.w)))), a.c2.w
            .times(S::one_spec().over(a.determinant_spec()).times(det3(a.c0.x, a.c0.z, a.c0.w,
            a.c1.x, a.c1.z, a.c1.w, a.c3.x, a.c3.z, a.c3.w).negated())));
        lemma_det3_value(a.c0.x, a.c0.z, a.c0.w, a.c1.x, a.c1.z, a.c1.w, a.c2.x, a.c2.z, a.c2.w);
        S::lemma_mul(S::one_spec().over(a.determinant_spec()), det3(a.c0.x, a.c0.z, a.c0.w, a.c1.x,
            a.c1.z, a.c1.w, a.c2.x, a.c2.z, a.c2.w));
        S::lemma_mul(a.c3.w, S::one_spec().over(a.determinant_spec()).times(det3(a.c0.x, a.c0.z,
            a.c0.w, a.c1.x, a.c1.z, a.c1.w, a.c2.x, a.c2.z, a.c2.w)));
        S::lemma_add(a.c0.w.times(S::one_spec().over(a.determinant_spec()).times(det3(a.c1.x,
            a.c1.z, a.c1.w, a.c2.x, a.c2.z, a.c2.w, a.c3.x, a.c3.z, a.c3.w).negated()))
            .plus(a.c1.w.times(S::one_spec().over(a.determinant_spec()).times(det3(a.c0.x, a.c0.z,
            a.c0.w, a.c2.x, a.c2.z, a.c2.w, a.c3.x, a.c3.z, a.c3.w)))).plus(a.c2.w
            .times(S::one_spec().over(a.determinant_spec()).times(det3(a.c0.x, a.c0.z, a.c0.w,
            a.c1.x, a.c1.z, a.c1.w, a.c3.x, a.c3.z, a.c3.w).negated()))), a.c3.w
            .times(S::one_spec().over(a.determinant_spec()).times(det3(a.c0.x, a.c0.z, a.c0.w,
            a.c1.x, a.c1.z, a.c1.w, a.c2.x, a.c2.z, a.c2.w))));
        let m0 = a.c0.w.value();
        let t0 = (-det3_value(a.c1.x.value(), a.c1.z.value(), a.c1.w.value(), a.c2.x.value(),
            a.c2.z.value(), a.c2.w.value(), a.c3.x.value(), a.c3.z.value(), a.c3.w.value()));
        let p0 = m0 * t0;
        assert(m0 * (kv * t0) == kv * p0) by (nonlinear_arith)
            requires
                p0 == m0 * t0,
        ;
        let m1 = a.c1.w.value();
        let t1 = det3_value(a.c0.x.value(), a.c0.z.value(), a.c0.w.value(), a.c2.x.value(),
            a.c2.z.value(), a.c2.w.value(), a.c3.x.value(), a.c3.z.value(), a.c3.w.value());
        let p1 = m1 * t1;
        assert(m1 * (kv * t1) == kv * p1) by (nonlinear_arith)
            requires
                p1 == m1 * t1,
        ;
        let m2 = a.c2.w.value();
        let t2 = (-det3_value(a.c0.x.value(), a.c0.z.value(), a.c0.w.value(), a.c1.x.value(),
            a.c1.z.value(), a.c1.w.value(), a.c3.x.value(), a.c3.z.value(), a.c3.w.value()));
        let p2 = m2 * t2;
        assert(m2 * (kv * t2) == kv * p2) by (nonlinear_arith)
            requires
                p2 == m2 * t2,
        ;
        let m3 = a.c3.w.value();
        let t3 = det3_value(a.c0.x.value(), a.c0.z.value(), a.c0.w.value(), a.c1.x.value(),
            a.c1.z.value(), a.c1.w.value(), a.c2.x.value(), a.c2.z.value(), a.c2.w.value());
        let p3 = m3 * t3;
        assert(m3 * (kv * t3) == kv * p3) by (nonlinear_arith)
            requires
                p3 == m3 * t3,
        ;
        assert(kv * p0 + kv * p1 + kv * p2 + kv * p3 == kv * (p0 + p1 + p2
            + p3)) by (nonlinear_arith);
        lemma_det4_value_right_1_3(
            a.c0.x.value(), a.c0.y.value(), a.c0.z.value(), a.c0.w.value(), a.c1.x.value(),
                a.c1.y.value(), a.c1.z.value(), a.c1.w.value(), a.c2.x.value(), a.c2.y.value(),
                a.c2.z.value(), a.c2.w.value(), a.c3.x.value(), a.c3.y.value(), a.c3.z.value(),
                a.c3.w.value(),
        );
        assert(kv * (p0 + p1 + p2 + p3) == 0) by (nonlinear_arith)
            requires
                p0 + p1 + p2 + p3 == 0,
        ;
        S::lemma_value_injective(a.c0.w.times(S::one_spec().over(a.determinant_spec())
            .times(det3(a.c1.x, a.c1.z, a.c1.w, a.c2.x, a.c2.z, a.c2.w, a.c3.x, a.c3.z,
            a.c3.w).negated())).plus(a.c1.w.times(S::one_spec().over(a.determinant_spec())
            .times(det3(a.c0.x, a.c0.z, a.c0.w, a.c2.x, a.c2.z, a.c2.w, a.c3.x, a.c3.z,
            a.c3.w)))).plus(a.c2.w.times(S::one_spec().over(a.determinant_spec())
            .times(det3(a.c0.x, a.c0.z, a.c0.w, a.c1.x, a.c1.z, a.c1.w, a.c3.x, a.c3.z,
            a.c3.w).negated()))).plus(a.c3.w.times(S::one_spec().over(a.determinant_spec())
            .times(det3(a.c0.x, a.c0.z, a.c0.w, a.c1.x, a.c1.z, a.c1.w, a.c2.x, a.c2.z, a.c2.w)))),
            S::zero_spec());
    }
    {
        lemma_det3_value(a.c1.x, a.c1.y, a.c1.w, a.c2.x, a.c2.y, a.c2.w, a.c3.x, a.c3.y, a.c3.w);
        S::lemma_mul(S::one_spec().over(a.determinant_spec()), det3(a.c1.x, a.c1.y, a.c1.w, a.c2.x,
            a.c2.y, a.c2.w, a.c3.x, a.c3.y, a.c3.w));
        S::lemma_mul(a.c0.x, S::one_spec().over(a.determinant_spec()).times(det3(a.c1.x, a.c1.y,
            a.c1.w, a.c2.x, a.c2.y, a.c2.w, a.c3.x, a.c3.y, a.c3.w)));
        lemma_det3_value(a.c0.x, a.c0.y, a.c0.w, a.c2.x, a.c2.y, a.c2.w, a.c3.x, a.c3.y, a.c3.w);
        S::lemma_neg(det3(a.c0.x, a.c0.y, a.c0.w, a.c2.x, a.c2.y, a.c2.w, a.c3.x, a.c3.y, a.c3.w));
        S::lemma_mul(S::one_spec().over(a.determinant_spec()), det3(a.c0.x, a.c0.y, a.c0.w, a.c2.x,
            a.c2.y, a.c2.w, a.c3.x, a.c3.y, a.c3.w).negated());
        S::lemma_mul(a.c1.x, S::one_spec().over(a.determinant_spec()).times(det3(a.c0.x, a.c0.y,
            a.c0.w, a.c2.x, a.c2.y, a.c2.w, a.c3.x, a.c3.y, a.c3.w).negated()));
        S::lemma_add(a.c0.x.times(S::one_spec().over(a.determinant_spec()).times(det3(a.c1.x,
            a.c1.y, a.c1.w, a.c2.x, a.c2.y, a.c2.w, a.c3.x, a.c3.y, a.c3.w))), a.c1.x
            .times(S::one_spec().over(a.determinant_spec()).times(det3(a.c0.x, a.c0.y, a.c0.w,
            a.c2.x, a.c2.y, a.c2.w, a.c3.x, a.c3.y, a.c3.w).negated())));
        lemma_det3_value(a.c0.x, a.c0.y, a.c0.w, a.c1.x, a.c1.y, a.c1.w, a.c3.x, a.c3.y, a.c3.w);
        S::lemma_mul(S::one_spec().over(a.determinant_spec()), det3(a.c0.x, a.c0.y, a.c0.w, a.c1.x,
            a.c1.y, a.c1.w, a.c3.x, a.c3.y, a.c3.w));
        S::lemma_mul(a.c2.x, S::one_spec().over(a.determinant_spec()).times(det3(a.c0.x, a.c0.y,
            a.c0.w, a.c1.x, a.c1.y, a.c1.w, a.c3.x, a.c3.y, a.c3.w)));
        S::lemma_add(a.c0.x.times(S::one_spec().over(a.determinant_spec()).times(det3(a.c1.x,
            a.c1.y, a.c1.w, a.c2.x, a.c2.y, a.c2.w, a.c3.x, a.c3.y, a.c3.w))).plus(a.c1.x
            .times(S::one_spec().over(a.determinant_spec()).times(det3(a.c0.x, a.c0.y, a.c0.w,
            a.c2.x, a.c2.y, a.c2.w, a.c3.x, a.c3.y, a.c3.w).negated()))), a.c2.x
            .times(S::one_spec().over(a.determinant_spec()).times(det3(a.c0.x, a.c0.y, a.c0.w,
            a.c1.x, a.c1.y, a.c1.w, a.c3.x, a.c3.y, a.c3.w))));
        lemma_det3_value(a.c0.x, a.c0.y, a.c0.w, a.c1.x, a.c1.y, a.c1.w, a.c2.x, a.c2.y, a.c2.w);
        S::lemma_neg(det3(a.c0.x, a.c0.y, a.c0.w, a.c1.x, a.c1.y, a.c1.w, a.c2.x, a.c2.y, a.c2.w));
        S::lemma_mul(S::one_spec().over(a.determinant_spec()), det3(a.c0.x, a.c0.y, a.c0.w, a.c1.x,
            a.c1.y, a.c1.w, a.c2.x, a.c2.y, a.c2.w).negated());
        S::lemma_mul(a.c3.x, S::one_spec().over(a.determinant_spec()).times(det3(a.c0.x, a.c0.y,
            a.c0.w, a.c1.x, a.c1.y, a.c1.w, a.c2.x, a.c2.y, a.c2.w).negated()));
        S::lemma_add(a.c0.x.times(S::one_spec().over(a.determinant_spec()).times(det3(a.c1.x,
            a.c1.y, a.c1.w, a.c2.x, a.c2.y, a.c2.w, a.c3.x, a.c3.y, a.c3.w))).plus(a.c1.x
            .times(S::one_spec().over(a.determinant_spec()).times(det3(a.c0.x, a.c0.y, a.c0.w,
            a.c2.x, a.c2.y, a.c2.w, a.c3.x, a.c3.y, a.c3.w).negated()))).plus(a.c2.x
            .times(S::one_spec().over(a.determinant_spec()).times(det3(a.c0.x, a.c0.y, a.c0.w,
            a.c1.x, a.c1.y, a.c1.w, a.c3.x, a.c3.y, a.c3.w)))), a.c3.x.times(S::one_spec()
            .over(a.determinant_spec()).times(det3(a.c0.x, a.c0.y, a.c0.w, a.c1.x, a.c1.y, a.c1.w,
            a.c2.x, a.c2.y, a.c2.w).negated())));
        let m0 = a.c0.x.value();
        let t0 = det3_value(a.c1.x.value(), a.c1.y.value(), a.c1.w.value(), a.c2.x.value(),
            a.c2.y.value(), a.c2.w.value(), a.c3.x.value(), a.c3.y.value(), a.c3.w.value());
        let p0 = m0 * t0;
        assert(m0 * (kv * t0) == kv * p0) by (nonlinear_arith)
            requires
                p0 == m0 * t0,
        ;
        let m1 = a.c1.x.value();
        let t1 = (-det3_value(a.c0.x.value(), a.c0.y.value(), a.c0.w.value(), a.c2.x.value(),
            a.c2.y.value(), a.c2.w.value(), a.c3.x.value(), a.c3.y.value(), a.c3.w.value()));
        let p1 = m1 * t1;
        assert(m1 * (kv * t1) == kv * p1) by (nonlinear_arith)
            requires
                p1 == m1 * t1,
        ;
        let m2 = a.c2.x.value();
        let t2 = det3_value(a.c0.x.value(), a.c0.y.value(), a.c0.w.value(), a.c1.x.value(),
            a.c1.y.value(), a.c1.w.value(), a.c3.x.value(), a.c3.y.value(), a.c3.w.value());
        let p2 = m2 * t2;
        assert(m2 * (kv * t2) == kv * p2) by (nonlinear_arith)
            requires
                p2 == m2 * t2,
        ;
        let m3 = a.c3.x.value();
        let t3 = (-det3_value(a.c0.x.value(), a.c0.y.value(), a.c0.w.value(), a.c1.x.value(),
            a.c1.y.value(), a.c1.w.value(), a.c2.x.value(), a.c2.y.value(), a.c2.w.value()));
        let p3 = m3 * t3;
        assert(m3 * (kv * t3) == kv * p3) by (nonlinear_arith)
            requires
                p3 == m3 * t3,
        ;
        assert(kv * p0 + kv * p1 + kv * p2 + kv * p3 == kv * (p0 + p1 + p2
            + p3)) by (nonlinear_arith);
        lemma_det4_value_right_2_0(
            a.c0.x.value(), a.c0.y.value(), a.c0.z.value(), a.c0.w.value(), a.c1.x.value(),
                a.c1.y.value(), a.c1.z.value(), a.c1.w.value(), a.c2.x.value(), a.c2.y.value(),
                a.c2.z.value(), a.c2.w.value(), a.c3.x.value(), a.c3.y.value(), a.c3.z.value(),
                a.c3.w.value(),
        );
        assert(kv * (p0 + p1 + p2 + p3) == 0) by (nonlinear_arith)
            requires
                p0 + p1 + p2 + p3 == 0,
        ;
        S::lemma_value_injective(a.c0.x.times(S::one_spec().over(a.determinant_spec())
            .times(det3(a.c1.x, a.c1.y, a.c1.w, a.c2.x, a.c2.y, a.c2.w, a.c3.x, a.c3.y,
            a.c3.w))).plus(a.c1.x.times(S::one_spec().over(a.determinant_spec()).times(det3(a.c0.x,
            a.c0.y, a.c0.w, a.c2.x, a.c2.y, a.c2.w, a.c3.x, a.c3.y, a.c3.w).negated())))
            .plus(a.c2.x.times(S::one_spec().over(a.determinant_spec()).times(det3(a.c0.x, a.c0.y,
            a.c0.w, a.c1.x, a.c1.y, a.c1.w, a.c3.x, a.c3.y, a.c3.w)))).plus(a.c3.x
            .times(S::one_spec().over(a.determinant_spec()).times(det3(a.c0.x, a.c0.y, a.c0.w,
            a.c1.x, a.c1.y, a.c1.w, a.c2.x, a.c2.y, a.c2.w).negated()))), S::zero_spec());
    }
    {
        lemma_det3_value(a.c1.x, a.c1.y, a.c1.w, a.c2.x, a.c2.y, a.c2.w, a.c3.x, a.c3.y, a.c3.w);
        S::lemma_mul(S::one_spec().over(a.determinant_spec()), det3(a.c1.x, a.c1.y, a.c1.w, a.c2.x,
            a.c2.y, a.c2.w, a.c3.x, a.c3.y, a.c3.w));
        S::lemma_mul(a.c0.y, S::one_spec().over(a.determinant_spec()).times(det3(a.c1.x, a.c1.y,
            a.c1.w, a.c2.x, a.c2.y, a.c2.w, a.c3.x, a.c3.y, a.c3.w)));
        lemma_det3_value(a.c0.x, a.c0.y, a.c0.w, a.c2.x, a.c2.y, a.c2.w, a.c3.x, a.c3.y, a.c3.w);
        S::lemma_neg(det3(a.c0.x, a.c0.y, a.c0.w, a.c2.x, a.c2.y, a.c2.w, a.c3.x, a.c3.y, a.c3.w));
        S::lemma_mul(S::one_spec().over(a.determinant_spec()), det3(a.c0.x, a.c0.y, a.c0.w, a.c2.x,
            a.c2.y, a.c2.w, a.c3.x, a.c3.y, a.c3.w).negated());
        S::lemma_mul(a.c1.y, S::one_spec().over(a.determinant_spec()).times(det3(a.c0.x, a.c0.y,
            a.c0.w, a.c2.x, a.c2.y, a.c2.w, a.c3.x, a.c3.y, a.c3.w).negated()));
        S::lemma_add(a.c0.y.times(S::one_spec().over(a.determinant_spec()).times(det3(a.c1.x,
            a.c1.y, a.c1.w, a.c2.x, a.c2.y, a.c2.w, a.c3.x, a.c3.y, a.c3.w))), a.c1.y
            .times(S::one_spec().over(a.determinant_spec()).times(det3(a.c0.x, a.c0.y, a.c0.w,
            a.c2.x, a.c2.y, a.c2.w, a.c3.x, a.c3.y, a.c3.w).negated())));
        lemma_det3_value(a.c0.x, a.c0.y, a.c0.w, a.c1.x, a.c1.y, a.c1.w, a.c3.x, a.c3.y, a.c3.w);
        S::lemma_mul(S::one_spec().over(a.determinant_spec()), det3(a.c0.x, a.c0.y, a.c0.w, a.c1.x,
            a.c1.y, a.c1.w, a.c3.x, a.c3.y, a.c3.w));
        S::lemma_mul(a.c2.y, S::one_spec().over(a.determinant_spec()).times(det3(a.c0.x, a.c0.y,
            a.c0.w, a.c1.x, a.c1.y, a.c1.w, a.c3.x, a.c3.y, a.c3.w)));
        S::lemma_add(a.c0.y.times(S::one_spec().over(a.determinant_spec()).times(det3(a.c1.x,
            a.c1.y, a.c1.w, a.c2.x, a.c2.y, a.c2.w, a.c3.x, a.c3.y, a.c3.w))).plus(a.c1.y
            .times(S::one_spec().over(a.determinant_spec()).times(det3(a.c0.x, a.c0.y, a.c0.w,
            a.c2.x, a.c2.y, a.c2.w, a.c3.x, a.c3.y, a.c3.w).negated()))), a.c2.y
            .times(S::one_spec().over(a.determinant_spec()).times(det3(a.c0.x, a.c0.y, a.c0.w,
            a.c1.x, a.c1.y, a.c1.w, a.c3.x, a.c3.y, a.c3.w))));
        lemma_det3_value(a.c0.x, a.c0.y, a.c0.w, a.c1.x, a.c1.y, a.c1.w, a.c2.x, a.c2.y, a.c2.w);
        S::lemma_neg(det3(a.c0.x, a.c0.y, a.c0.w, a.c1.x, a.c1.y, a.c1.w, a.c2.x, a.c2.y, a.c2.w));
        S::lemma_mul(S::one_spec().over(a.determinant_spec()), det3(a.c0.x, a.c0.y, a.c0.w, a.c1.x,
            a.c1.y, a.c1.w, a.c2.x, a.c2.y, a.c2.w).negated());
        S::lemma_mul(a.c3.y, S::one_spec().over(a.determinant_spec()).times(det3(a.c0.x, a.c0.y,
            a.c0.w, a.c1.x, a.c1.y, a.c1.w, a.c2.x, a.c2.y, a.c2.w).negated()));
        S::lemma_add(a.c0.y.times(S::one_spec().over(a.determinant_spec()).times(det3(a.c1.x,
            a.c1.y, a.c1.w, a.c2.x, a.c2.y, a.c2.w, a.c3.x, a.c3.y, a.c3.w))).plus(a.c1.y
            .times(S::one_spec().over(a.determinant_spec()).times(det3(a.c0.x, a.c0.y, a.c0.w,
            a.c2.x, a.c2.y, a.c2.w, a.c3.x, a.c3.y, a.c3.w).negated()))).plus(a.c2.y
            .times(S::one_spec().over(a.determinant_spec()).times(det3(a.c0.x, a.c0.y, a.c0.w,
            a.c1.x, a.c1.y, a.c1.w, a.c3.x, a.c3.y, a.c3.w)))), a.c3.y.times(S::one_spec()
            .over(a.determinant_spec()).times(det3(a.c0.x, a.c0.y, a.c0.w, a.c1.x, a.c1.y, a.c1.w,
            a.c2.x, a.c2.y, a.c2.w).negated())));
        let m0 = a.c0.y.value();
        let t0 = det3_value(a.c1.x.value(), a.c1.y.value(), a.c1.w.value(), a.c2.x.value(),
            a.c2.y.value(), a.c2.w.value(), a.c3.x.value(), a.c3.y.value(), a.c3.w.value());
        let p0 = m0 * t0;
        assert(m0 * (kv * t0) == kv * p0) by (nonlinear_arith)
            requires
                p0 == m0 * t0,
        ;
        let m1 = a.c1.y.value();
        let t1 = (-det3_value(a.c0.x.value(), a.c0.y.value(), a.c0.w.value(), a.c2.x.value(),
            a.c2.y.value(), a.c2.w.value(), a.c3.x.value(), a.c3.y.value(), a.c3.w.value()));
        let p1 = m1 * t1;
        assert(m1 * (kv * t1) == kv * p1) by (nonlinear_arith)
            requires
                p1 == m1 * t1,
        ;
        let m2 = a.c2.y.value();
        let t2 = det3_value(a.c0.x.value(), a.c0.y.value(), a.c0.w.value(), a.c1.x.value(),
            a.c1.y.value(), a.c1.w.value(), a.c3.x.value(), a.c3.y.value(), a.c3.w.value());
        let p2 = m2 * t2;
        assert(m2 * (kv * t2) == kv * p2) by (nonlinear_arith)
            requires
                p2 == m2 * t2,
        ;
        let m3 = a.c3.y.value();
        let t3 = (-det3_value(a.c0.x.value(), a.c0.y.value(), a.c0.w.value(), a.c1.x.value(),
            a.c1.y.value(), a.c1.w.value(), a.c2.x.value(), a.c2.y.value(), a.c2.w.value()));
        let p3 = m3 * t3;
        assert(m3 * (kv * t3) == kv * p3) by (nonlinear_arith)
            requires
                p3 == m3 * t3,
        ;
        assert(kv * p0 + kv * p1 + kv * p2 + kv * p3 == kv * (p0 + p1 + p2
            + p3)) by (nonlinear_arith);
        lemma_det4_value_right_2_1(
            a.c0.x.value(), a.c0.y.value(), a.c0.z.value(), a.c0.w.value(), a.c1.x.value(),
                a.c1.y.value(), a.c1.z.value(), a.c1.w.value(), a.c2.x.value(), a.c2.y.value(),
                a.c2.z.value(), a.c2.w.value(), a.c3.x.value(), a.c3.y.value(), a.c3.z.value(),
                a.c3.w.value(),
        );
        assert(kv * (p0 + p1 + p2 + p3) == 0) by (nonlinear_arith)
            requires
                p0 + p1 + p2 + p3 == 0,
        ;
        S::lemma_value_injective(a.c0.y.times(S::one_spec().over(a.determinant_spec())
            .times(det3(a.c1.x, a.c1.y, a.c1.w, a.c2.x, a.c2.y, a.c2.w, a.c3.x, a.c3.y,
            a.c3.w))).plus(a.c1.y.times(S::one_spec().over(a.determinant_spec()).times(det3(a.c0.x,
            a.c0.y, a.c0.w, a.c2.x, a.c2.y, a.c2.w, a.c3.x, a.c3.y, a.c3.w).negated())))
            .plus(a.c2.y.times(S::one_spec().over(a.determinant_spec()).times(det3(a.c0.x, a.c0.y,
            a.c0.w, a.c1.x, a.c1.y, a.c1.w, a.c3.x, a.c3.y, a.c3.w)))).plus(a.c3.y
            .times(S::one_spec().over(a.determinant_spec()).times(det3(a.c0.x, a.c0.y, a.c0.w,
            a.c1.x, a.c1.y, a.c1.w, a.c2.x, a.c2.y, a.c2.w).negated()))), S::zero_spec());
    }
    {
        lemma_det3_value(a.c1.x, a.c1.y, a.c1.w, a.c2.x, a.c2.y, a.c2.w, a.c3.x, a.c3.y, a.c3.w);
        S::lemma_mul(S::one_spec().over(a.determinant_spec()), det3(a.c1.x, a.c1.y, a.c1.w, a.c2.x,
            a.c2.y, a.c2.w, a.c3.x, a.c3.y, a.c3.w));
        S::lemma_mul(a.c0.z, S::one_spec().over(a.determinant_spec()).times(det3(a.c1.x, a.c1.y,
            a.c1.w, a.c2.x, a.c2.y, a.c2.w, a.c3.x, a.c3.y, a.c3.w)));
        lemma_det3_value(a.c0.x, a.c0.y, a.c0.w, a.c2.x, a.c2.y, a.c2.w, a.c3.x, a.c3.y, a.c3.w);
        S::lemma_neg(det3(a.c0.x, a.c0.y, a.c0.w, a.c2.x, a.c2.y, a.c2.w, a.c3.x, a.c3.y, a.c3.w));
        S::lemma_mul(S::one_spec().over(a.determinant_spec()), det3(a.c0.x, a.c0.y, a.c0.w, a.c2.x,
            a.c2.y, a.c2.w, a.c3.x, a.c3.y, a.c3.w).negated());
        S::lemma_mul(a.c1.z, S::one_spec().over(a.determinant_spec()).times(det3(a.c0.x, a.c0.y,
            a.c0.w, a.c2.x, a.c2.y, a.c2.w, a.c3.x, a.c3.y, a.c3.w).negated()));
        S::lemma_add(a.c0.z.times(S::one_spec().over(a.determinant_spec()).times(det3(a.c1.x,
            a.c1.y, a.c1.w, a.c2.x, a.c2.y, a.c2.w, a.c3.x, a.c3.y, a.c3.w))), a.c1.z
            .times(S::one_spec().over(a.determinant_spec()).times(det3(a.c0.x, a.c0.y, a.c0.w,
            a.c2.x, a.c2.y, a.c2.w, a.c3.x, a.c3.y, a.c3.w).negated())));
        lemma_det3_value(a.c0.x, a.c0.y, a.c0.w, a.c1.x, a.c1.y, a.c1.w, a.c3.x, a.c3.y, a.c3.w);
        S::lemma_mul(S::one_spec().over(a.determinant_spec()), det3(a.c0.x, a.c0.y, a.c0.w, a.c1.x,
            a.c1.y, a.c1.w, a.c3.x, a.c3.y, a.c3.w));
        S::lemma_mul(a.c2.z, S::one_spec().over(a.determinant_spec()).times(det3(a.c0.x, a.c0.y,
            a.c0.w, a.c1.x, a.c1.y, a.c1.w, a.c3.x, a.c3.y, a.c3.w)));
        S::lemma_add(a.c0.z.times(S::one_spec().over(a.determinant_spec()).times(det3(a.c1.x,
            a.c1.y, a.c1.w, a.c2.x, a.c2.y, a.c2.w, a.c3.x, a.c3.y, a.c3.w))).plus(a.c1.z
            .times(S::one_spec().over(a.determinant_spec()).times(det3(a.c0.x, a.c0.y, a.c0.w,
            a.c2.x, a.c2.y, a.c2.w, a.c3.x, a.c3.y, a.c3.w).negated()))), a.c2.z
            .times(S::one_spec().over(a.determinant_spec()).times(det3(a.c0.x, a.c0.y, a.c0.w,
            a.c1.x, a.c1.y, a.c1.w, a.c3.x, a.c3.y, a.c3.w))));
        lemma_det3_value(a.c0.x, a.c0.y, a.c0.w, a.c1.x, a.c1.y, a.c1.w, a.c2.x, a.c2.y, a.c2.w);
        S::lemma_neg(det3(a.c0.x, a.c0.y, a.c0.w, a.c1.x, a.c1.y, a.c1.w, a.c2.x, a.c2.y, a.c2.w));
        S::lemma_mul(S::one_spec().over(a.determinant_spec()), det3(a.c0.x, a.c0.y, a.c0.w, a.c1.x,
            a.c1.y, a.c1.w, a.c2.x, a.c2.y, a.c2.w).negated());
        S::lemma_mul(a.c3.z, S::one_spec().over(a.determinant_spec()).times(det3(a.c0.x, a.c0.y,
            a.c0.w, a.c1.x, a.c1.y, a.c1.w, a.c2.x, a.c2.y, a.c2.w).negated()));
        S::lemma_add(a.c0.z.times(S::one_spec().over(a.determinant_spec()).times(det3(a.c1.x,
            a.c1.y, a.c1.w, a.c2.x, a.c2.y, a.c2.w, a.c3.x, a.c3.y, a.c3.w))).plus(a.c1.z
            .times(S::one_spec().over(a.determinant_spec()).times(det3(a.c0.x, a.c0.y, a.c0.w,
            a.c2.x, a.c2.y, a.c2.w, a.c3.x, a.c3.y, a.c3.w).negated()))).plus(a.c2.z
            .times(S::one_spec().over(a.determinant_spec()).times(det3(a.c0.x, a.c0.y, a.c0.w,
            a.c1.x, a.c1.y, a.c1.w, a.c3.x, a.c3.y, a.c3.w)))), a.c3.z.times(S::one_spec()
            .over(a.determinant_spec()).times(det3(a.c0.x, a.c0.y, a.c0.w, a.c1.x, a.c1.y, a.c1.w,
            a.c2.x, a.c2.y, a.c2.w).negated())));
        let m0 = a.c0.z.value();
        let t0 = det3_value(a.c1.x.value(), a.c1.y.value(), a.c1.w.value(), a.c2.x.value(),
            a.c2.y.value(), a.c2.w.value(), a.c3.x.value(), a.c3.y.value(), a.c3.w.value());
        let p0 = m0 * t0;
        assert(m0 * (kv * t0) == kv * p0) by (nonlinear_arith)
            requires
                p0 == m0 * t0,
        ;
        let m1 = a.c1.z.value();
        let t1 = (-det3_value(a.c0.x.value(), a.c0.y.value(), a.c0.w.value(), a.c2.x.value(),
            a.c2.y.value(), a.c2.w.value(), a.c3.x.value(), a.c3.y.value(), a.c3.w.value()));
        let p1 = m1 * t1;
        assert(m1 * (kv * t1) == kv * p1) by (nonlinear_arith)
            requires
                p1 == m1 * t1,
        ;
        let m2 = a.c2.z.value();
        let t2 = det3_value(a.c0.x.value(), a.c0.y.value(), a.c0.w.value(), a.c1.x.value(),
            a.c1.y.value(), a.c1.w.value(), a.c3.x.value(), a.c3.y.value(), a.c3.w.value());
        let p2 = m2 * t2;
        assert(m2 * (kv * t2) == kv * p2) by (nonlinear_arith)
            requires
                p2 == m2 * t2,
        ;
        let m3 = a.c3.z.value();
        let t3 = (-det3_value(a.c0.x.value(), a.c0.y.value(), a.c0.w.value(), a.c1.x.value(),
            a.c1.y.value(), a.c1.w.value(), a.c2.x.value(), a.c2.y.value(), a.c2.w.value()));
        let p3 = m3 * t3;
        assert(m3 * (kv * t3) == kv * p3) by (nonlinear_arith)
            requires
                p3 == m3 * t3,
        ;
        assert(kv * p0 + kv * p1 + kv * p2 + kv * p3 == kv * (p0 + p1 + p2
            + p3)) by (nonlinear_arith);
        lemma_det4_value_right_2_2(
            a.c0.x.value(), a.c0.y.value(), a.c0.z.value(), a.c0.w.value(), a.c1.x.value(),
                a.c1.y.value(), a.c1.z.value(), a.c1.w.value(), a.c2.x.value(), a.c2.y.value(),
                a.c2.z.value(), a.c2.w.value(), a.c3.x.value(), a.c3.y.value(), a.c3.z.value(),
                a.c3.w.value(),
        );
        assert(kv * (p0 + p1 + p2 + p3) == 1);
        S::lemma_value_injective(a.c0.z.times(S::one_spec().over(a.determinant_spec())
            .times(det3(a.c1.x, a.c1.y, a.c1.w, a.c2.x, a.c2.y, a.c2.w, a.c3.x, a.c3.y,
            a.c3.w))).plus(a.c1.z.times(S::one_spec().over(a.determinant_spec()).times(det3(a.c0.x,
            a.c0.y, a.c0.w, a.c2.x, a.c2.y, a.c2.w, a.c3.x, a.c3.y, a.c3.w).negated())))
            .plus(a.c2.z.times(S::one_spec().over(a.determinant_spec()).times(det3(a.c0.x, a.c0.y,
            a.c0.w, a.c1.x, a.c1.y, a.c1.w, a.c3.x, a.c3.y, a.c3.w)))).plus(a.c3.z
            .times(S::one_spec().over(a.determinant_spec()).times(det3(a.c0.x, a.c0.y, a.c0.w,
            a.c1.x, a.c1.y, a.c1.w, a.c2.x, a.c2.y, a.c2.w).negated()))), S::one_spec());
    }
    {
        lemma_det3_value(a.c1.x, a.c1.y, a.c1.w, a.c2.x, a.c2.y, a.c2.w, a.c3.x, a.c3.y, a.c3.w);
        S::lemma_mul(S::one_spec().over(a.determinant_spec()), det3(a.c1.x, a.c1.y, a.c1.w, a.c2.x,
            a.c2.y, a.c2.w, a.c3.x, a.c3.y, a.c3.w));
        S::lemma_mul(a.c0.w, S::one_spec().over(a.determinant_spec()).times(det3(a.c1.x, a.c1.y,
            a.c1.w, a.c2.x, a.c2.y, a.c2.w, a.c3.x, a.c3.y, a.c3.w)));
        lemma_det3_value(a.c0.x, a.c0.y, a.c0.w, a.c2.x, a.c2.y, a.c2.w, a.c3.x, a.c3.y, a.c3.w);
        S::lemma_neg(det3(a.c0.x, a.c0.y, a.c0.w, a.c2.x, a.c2.y, a.c2.w, a.c3.x, a.c3.y, a.c3.w));
        S::lemma_mul(S::one_spec().over(a.determinant_spec()), det3(a.c0.x, a.c0.y, a.c0.w, a.c2.x,
            a.c2.y, a.c2.w, a.c3.x, a.c3.y, a.c3.w).negated());
        S::lemma_mul(a.c1.w, S::one_spec().over(a.determinant_spec()).times(det3(a.c0.x, a.c0.y,
            a.c0.w, a.c2.x, a.c2.y, a.c2.w, a.c3.x, a.c3.y, a.c3.w).negated()));
        S::lemma_add(a.c0.w.times(S::one_spec().over(a.determinant_spec()).times(det3(a.c1.x,
            a.c1.y, a.c1.w, a.c2.x, a.c2.y, a.c2.w, a.c3.x, a.c3.y, a.c3.w))), a.c1.w
            .times(S::one_spec().over(a.determinant_spec()).times(det3(a.c0.x, a.c0.y, a.c0.w,
            a.c2.x, a.c2.y, a.c2.w, a.c3.x, a.c3.y, a.c3.w).negated())));
        lemma_det3_value(a.c0.x, a.c0.y, a.c0.w, a.c1.x, a.c1.y, a.c1.w, a.c3.x, a.c3.y, a.c3.w);
        S::lemma_mul(S::one_spec().over(a.determinant_spec()), det3(a.c0.x, a.c0.y, a.c0.w, a.c1.x,
            a.c1.y, a.c1.w, a.c3.x, a.c3.y, a.c3.w));
        S::lemma_mul(a.c2.w, S::one_spec().over(a.determinant_spec()).times(det3(a.c0.x, a.c0.y,
            a.c0.w, a.c1.x, a.c1.y, a.c1.w, a.c3.x, a.c3.y, a.c3.w)));
        S::lemma_add(a.c0.w.times(S::one_spec().over(a.determinant_spec()).times(det3(a.c1.x,
            a.c1.y, a.c1.w, a.c2.x, a.c2.y, a.c2.w, a.c3.x, a.c3.y, a.c3.w))).plus(a.c1.w
            .times(S::one_spec().over(a.determinant_spec()).times(det3(a.c0.x, a.c0.y, a.c0.w,
            a.c2.x, a.c2.y, a.c2.w, a.c3.x, a.c3.y, a.c3.w).negated()))), a.c2.w
            .times(S::one_spec().over(a.determinant_spec()).times(det3(a.c0.x, a.c0.y, a.c0.w,
            a.c1.x, a.c1.y, a.c1.w, a.c3.x, a.c3.y, a.c3.w))));
        lemma_det3_value(a.c0.x, a.c0.y, a.c0.w, a.c1.x, a.c1.y, a.c1.w, a.c2.x, a.c2.y, a.c2.w);
        S::lemma_neg(det3(a.c0.x, a.c0.y, a.c0.w, a.c1.x, a.c1.y, a.c1.w, a.c2.x, a.c2.y, a.c2.w));
        S::lemma_mul(S::one_spec().over(a.determinant_spec()), det3(a.c0.x, a.c0.y, a.c0.w, a.c1.x,
            a.c1.y, a.c1.w, a.c2.x, a.c2.y, a.c2.w).negated());
        S::lemma_mul(a.c3.w, S::one_spec().over(a.determinant_spec()).times(det3(a.c0.x, a.c0.y,
            a.c0.w, a.c1.x, a.c1.y, a.c1.w, a.c2.x, a.c2.y, a.c2.w).negated()));
        S::lemma_add(a.c0.w.times(S::one_spec().over(a.determinant_spec()).times(det3(a.c1.x,
            a.c1.y, a.c1.w, a.c2.x, a.c2.y, a.c2.w, a.c3.x, a.c3.y, a.c3.w))).plus(a.c1.w
            .times(S::one_spec().over(a.determinant_spec()).times(det3(a.c0.x, a.c0.y, a.c0.w,
            a.c2.x, a.c2.y, a.c2.w, a.c3.x, a.c3.y, a.c3.w).negated()))).plus(a.c2.w
            .times(S::one_spec().over(a.determinant_spec()).times(det3(a.c0.x, a.c0.y, a.c0.w,
            a.c1.x, a.c1.y, a.c1.w, a.c3.x, a.c3.y, a.c3.w)))), a.c3.w.times(S::one_spec()
            .over(a.determinant_spec()).times(det3(a.c0.x, a.c0.y, a.c0.w, a.c1.x, a.c1.y, a.c1.w,
            a.c2.x, a.c2.y, a.c2.w).negated())));
        let m0 = a.c0.w.value();
        let t0 = det3_value(a.c1.x.value(), a.c1.y.value(), a.c1.w.value(), a.c2.x.value(),
            a.c2.y.value(), a.c2.w.value(), a.c3.x.value(), a.c3.y.value(), a.c3.w.value());
        let p0 = m0 * t0;
        assert(m0 * (kv * t0) == kv * p0) by (nonlinear_arith)
            requires
                p0 == m0 * t0,
        ;
        let m1 = a.c1.w.value();
        let t1 = (-det3_value(a.c0.x.value(), a.c0.y.value(), a.c0.w.value(), a.c2.x.value(),
            a.c2.y.value(), a.c2.w.value(), a.c3.x.value(), a.c3.y.value(), a.c3.w.value()));
        let p1 = m1 * t1;
        assert(m1 * (kv * t1) == kv * p1) by (nonlinear_arith)
            requires
                p1 == m1 * t1,
        ;
        let m2 = a.c2.w.value();
        let t2 = det3_value(a.c0.x.value(), a.c0.y.value(), a.c0.w.value(), a.c1.x.value(),
            a.c1.y.value(), a.c1.w.value(), a.c3.x.value(), a.c3.y.value(), a.c3.w.value());
        let p2 = m2 * t2;
        assert(m2 * (kv * t2) == kv * p2) by (nonlinear_arith)
            requires
                p2 == m2 * t2,
        ;
        let m3 = a.c3.w.value();
        let t3 = (-det3_value(a.c0.x.value(), a.c0.y.value(), a.c0.w.value(), a.c1.x.value(),
            a.c1.y.value(), a.c1.w.value(), a.c2.x.value(), a.c2.y.value(), a.c2.w.value()));
        let p3 = m3 * t3;
        assert(m3 * (kv * t3) == kv * p3) by (nonlinear_arith)
            requires
                p3 == m3 * t3,
        ;
        assert(kv * p0 + kv * p1 + kv * p2 + kv * p3 == kv * (p0 + p1 + p2
            + p3)) by (nonlinear_arith);
        lemma_det4_value_right_2_3(
            a.c0.x.value(), a.c0.y.value(), a.c0.z.value(), a.c0.w.value(), a.c1.x.value(),
                a.c1.y.value(), a.c1.z.value(), a.c1.w.value(), a.c2.x.value(), a.c2.y.value(),
                a.c2.z.value(), a.c2.w.value(), a.c3.x.value(), a.c3.y.value(), a.c3.z.value(),
                a.c3.w.value(),
        );
        assert(kv * (p0 + p1 + p2 + p3) == 0) by (nonlinear_arith)
            requires
                p0 + p1 + p2 + p3 == 0,
        ;
        S::lemma_value_injective(a.c0.w.times(S::one_spec().over(a.determinant_spec())
            .times(det3(a.c1.x, a.c1.y, a.c1.w, a.c2.x, a.c2.y, a.c2.w, a.c3.x, a.c3.y,
            a.c3.w))).plus(a.c1.w.times(S::one_spec().over(a.determinant_spec()).times(det3(a.c0.x,
            a.c0.y, a.c0.w, a.c2.x, a.c2.y, a.c2.w, a.c3.x, a.c3.y, a.c3.w).negated())))
            .plus(a.c2.w.times(S::one_spec().over(a.determinant_spec()).times(det3(a.c0.x, a.c0.y,
            a.c0.w, a.c1.x, a.c1.y, a.c1.w, a.c3.x, a.c3.y, a.c3.w)))).plus(a.c3.w
            .times(S::one_spec().over(a.determinant_spec()).times(det3(a.c0.x, a.c0.y, a.c0.w,
            a.c1.x, a.c1.y, a.c1.w, a.c2.x, a.c2.y, a.c2.w).negated()))), S::zero_spec());
    }
    {
        lemma_det3_value(a.c1.x, a.c1.y, a.c1.z, a.c2.x, a.c2.y, a.c2.z, a.c3.x, a.c3.y, a.c3.z);
        S::lemma_neg(det3(a.c1.x, a.c1.y, a.c1.z, a.c2.x, a.c2.y, a.c2.z, a.c3.x, a.c3.y, a.c3.z));
        S::lemma_mul(S::one_spec().over(a.determinant_spec()), det3(a.c1.x, a.c1.y, a.c1.z, a.c2.x,
            a.c2.y, a.c2.z, a.c3.x, a.c3.y, a.c3.z).negated());
        S::lemma_mul(a.c0.x, S::one_spec().over(a.determinant_spec()).times(det3(a.c1.x, a.c1.y,
            a.c1.z, a.c2.x, a.c2.y, a.c2.z, a.c3.x, a.c3.y, a.c3.z).negated()));
        lemma_det3_value(a.c0.x, a.c0.y, a.c0.z, a.c2.x, a.c2.y, a.c2.z, a.c3.x, a.c3.y, a.c3.z);
        S::lemma_mul(S::one_spec().over(a.determinant_spec()), det3(a.c0.x, a.c0.y, a.c0.z, a.c2.x,
            a.c2.y, a.c2.z, a.c3.x, a.c3.y, a.c3.z));
        S::lemma_mul(a.c1.x, S::one_spec().over(a.determinant_spec()).times(det3(a.c0.x, a.c0.y,
            a.c0.z, a.c2.x, a.c2.y, a.c2.z, a.c3.x, a.c3.y, a.c3.z)));
        S::lemma_add(a.c0.x.times(S::one_spec().over(a.determinant_spec()).times(det3(a.c1.x,
            a.c1.y, a.c1.z, a.c2.x, a.c2.y, a.c2.z, a.c3.x, a.c3.y, a.c3.z).negated())),
            a.c1.x.times(S::one_spec().over(a.determinant_spec()).times(det3(a.c0.x, a.c0.y,
            a.c0.z, a.c2.x, a.c2.y, a.c2.z, a.c3.x, a.c3.y, a.c3.z))));
        lemma_det3_value(a.c0.x, a.c0.y, a.c0.z, a.c1.x, a.c1.y, a.c1.z, a.c3.x, a.c3.y, a.c3.z);
        S::lemma_neg(det3(a.c0.x, a.c0.y, a.c0.z, a.c1.x, a.c1.y, a.c1.z, a.c3.x, a.c3.y, a.c3.z));
        S::lemma_mul(S::one_spec().over(a.determinant_spec()), det3(a.c0.x, a.c0.y, a.c0.z, a.c1.x,
            a.c1.y, a.c1.z, a.c3.x, a.c3.y, a.c3.z).negated());
        S::lemma_mul(a.c2.x, S::one_spec().over(a.determinant_spec()).times(det3(a.c0.x, a.c0.y,
            a.c0.z, a.c1.x, a.c1.y, a.c1.z, a.c3.x, a.c3.y, a.c3.z).negated()));
        S::lemma_add(a.c0.x.times(S::one_spec().over(a.determinant_spec()).times(det3(a.c1.x,
            a.c1.y, a.c1.z, a.c2.x, a.c2.y, a.c2.z, a.c3.x, a.c3.y, a.c3.z).negated()))
            .plus(a.c1.x.times(S::one_spec().over(a.determinant_spec()).times(det3(a.c0.x, a.c0.y,
            a.c0.z, a.c2.x, a.c2.y, a.c2.z, a.c3.x, a.c3.y, a.c3.z)))), a.c2.x
            .times(S::one_spec().over(a.determinant_spec()).times(det3(a.c0.x, a.c0.y, a.c0.z,
            a.c1.x, a.c1.y, a.c1.z, a.c3.x, a.c3.y, a.c3.z).negated())));
        lemma_det3_value(a.c0.x, a.c0.y, a.c0.z, a.c1.x, a.c1.y, a.c1.z, a.c2.x, a.c2.y, a.c2.z);
        S::lemma_mul(S::one_spec().over(a.determinant_spec()), det3(a.c0.x, a.c0.y, a.c0.z, a.c1.x,
            a.c1.y, a.c1.z, a.c2.x, a.c2.y, a.c2.z));
        S::lemma_mul(a.c3.x, S::one_spec().over(a.determinant_spec()).times(det3(a.c0.x, a.c0.y,
            a.c0.z, a.c1.x, a.c1.y, a.c1.z, a.c2.x, a.c2.y, a.c2.z)));
        S::lemma_add(a.c0.x.times(S::one_spec().over(a.determinant_spec()).times(det3(a.c1.x,
            a.c1.y, a.c1.z, a.c2.x, a.c2.y, a.c2.z, a.c3.x, a.c3.y, a.c3.z).negated()))
            .plus(a.c1.x.times(S::one_spec().over(a.determinant_spec()).times(det3(a.c0.x, a.c0.y,
            a.c0.z, a.c2.x, a.c2.y, a.c2.z, a.c3.x, a.c3.y, a.c3.z)))).plus(a.c2.x
            .times(S::one_spec().over(a.determinant_spec()).times(det3(a.c0.x, a.c0.y, a.c0.z,
            a.c1.x, a.c1.y, a.c1.z, a.c3.x, a.c3.y, a.c3.z).negated()))), a.c3.x
            .times(S::one_spec().over(a.determinant_spec()).times(det3(a.c0.x, a.c0.y, a.c0.z,
            a.c1.x, a.c1.y, a.c1.z, a.c2.x, a.c2.y, a.c2.z))));
        let m0 = a.c0.x.value();
        let t0 = (-det3_value(a.c1.x.value(), a.c1.y.value(), a.c1.z.value(), a.c2.x.value(),
            a.c2.y.value(), a.c2.z.value(), a.c3.x.value(), a.c3.y.value(), a.c3.z.value()));
        let p0 = m0 * t0;
        assert(m0 * (kv * t0) == kv * p0) by (nonlinear_arith)
            requires
                p0 == m0 * t0,
        ;
        let m1 = a.c1.x.value();
        let t1 = det3_value(a.c0.x.value(), a.c0.y.value(), a.c0.z.value(), a.c2.x.value(),
            a.c2.y.value(), a.c2.z.value(), a.c3.x.value(), a.c3.y.value(), a.c3.z.value());
        let p1 = m1 * t1;
        assert(m1 * (kv * t1) == kv * p1) by (nonlinear_arith)
            requires
                p1 == m1 * t1,
        ;
        let m2 = a.c2.x.value();
        let t2 = (-det3_value(a.c0.x.value(), a.c0.y.value(), a.c0.z.value(), a.c1.x.value(),
            a.c1.y.value(), a.c1.z.value(), a.c3.x.value(), a.c3.y.value(), a.c3.z.value()));
        let p2 = m2 * t2;
        assert(m2 * (kv * t2) == kv * p2) by (nonlinear_arith)
            requires
                p2 == m2 * t2,
        ;
        let m3 = a.c3.x.value();
        let t3 = det3_value(a.c0.x.value(), a.c0.y.value(), a.c0.z.value(), a.c1.x.value(),
            a.c1.y.value(), a.c1.z.value(), a.c2.x.value(), a.c2.y.value(), a.c2.z.value());
        let p3 = m3 * t3;
        assert(m3 * (kv * t3) == kv * p3) by (nonlinear_arith)
            requires
                p3 == m3 * t3,
        ;
        assert(kv * p0 + kv * p1 + kv * p2 + kv * p3 == kv * (p0 + p1 + p2
            + p3)) by (nonlinear_arith);
        lemma_det4_value_right_3_0(
            a.c0.x.value(), a.c0.y.value(), a.c0.z.value(), a.c0.w.value(), a.c1.x.value(),
                a.c1.y.value(), a.c1.z.value(), a.c1.w.value(), a.c2.x.value(), a.c2.y.value(),
                a.c2.z.value(), a.c2.w.value(), a.c3.x.value(), a.c3.y.value(), a.c3.z.value(),
                a.c3.w.value(),
        );
        assert(kv * (p0 + p1 + p2 + p3) == 0) by (nonlinear_arith)
            requires
                p0 + p1 + p2 + p3 == 0,
        ;
        S::lemma_value_injective(a.c0.x.times(S::one_spec().over(a.determinant_spec())
            .times(det3(a.c1.x, a.c1.y, a.c1.z, a.c2.x, a.c2.y, a.c2.z, a.c3.x, a.c3.y,
            a.c3.z).negated())).plus(a.c1.x.times(S::one_spec().over(a.determinant_spec())
            .times(det3(a.c0.x, a.c0.y, a.c0.z, a.c2.x, a.c2.y, a.c2.z, a.c3.x, a.c3.y,
            a.c3.z)))).plus(a.c2.x.times(S::one_spec().over(a.determinant_spec())
            .times(det3(a.c0.x, a.c0.y, a.c0.z, a.c1.x, a.c1.y, a.c1.z, a.c3.x, a.c3.y,
            a.c3.z).negated()))).plus(a.c3.x.times(S::one_spec().over(a.determinant_spec())
            .times(det3(a.c0.x, a.c0.y, a.c0.z, a.c1.x, a.c1.y, a.c1.z, a.c2.x, a.c2.y, a.c2.z)))),
            S::zero_spec());
    }
    {
        lemma_det3_value(a.c1.x, a.c1.y, a.c1.z, a.c2.x, a.c2.y, a.c2.z, a.c3.x, a.c3.y, a.c3.z);
        S::lemma_neg(det3(a.c1.x, a.c1.y, a.c1.z, a.c2.x, a.c2.y, a.c2.z, a.c3.x, a.c3.y, a.c3.z));
        S::lemma_mul(S::one_spec().over(a.determinant_spec()), det3(a.c1.x, a.c1.y, a.c1.z, a.c2.x,
            a.c2.y, a.c2.z, a.c3.x, a.c3.y, a.c3.z).negated());
        S::lemma_mul(a.c0.y, S::one_spec().over(a.determinant_spec()).times(det3(a.c1.x, a.c1.y,
            a.c1.z, a.c2.x, a.c2.y, a.c2.z, a.c3.x, a.c3.y, a.c3.z).negated()));
        lemma_det3_value(a.c0.x, a.c0.y, a.c0.z, a.c2.x, a.c2.y, a.c2.z, a.c3.x, a.c3.y, a.c3.z);
        S::lemma_mul(S::one_spec().over(a.determinant_spec()), det3(a.c0.x, a.c0.y, a.c0.z, a.c2.x,
            a.c2.y, a.c2.z, a.c3.x, a.c3.y, a.c3.z));
        S::lemma_mul(a.c1.y, S::one_spec().over(a.determinant_spec()).times(det3(a.c0.x, a.c0.y,
            a.c0.z, a.c2.x, a.c2.y, a.c2.z, a.c3.x, a.c3.y, a.c3.z)));
        S::lemma_add(a.c0.y.times(S::one_spec().over(a.determinant_spec()).times(det3(a.c1.x,
            a.c1.y, a.c1.z, a.c2.x, a.c2.y, a.c2.z, a.c3.x, a.c3.y, a.c3.z).negated())),
            a.c1.y.times(S::one_spec().over(a.determinant_spec()).times(det3(a.c0.x, a.c0.y,
            a.c0.z, a.c2.x, a.c2.y, a.c2.z, a.c3.x, a.c3.y, a.c3.z))));
        lemma_det3_value(a.c0.x, a.c0.y, a.c0.z, a.c1.x, a.c1.y, a.c1.z, a.c3.x, a.c3.y, a.c3.z);
        S::lemma_neg(det3(a.c0.x, a.c0.y, a.c0.z, a.c1.x, a.c1.y, a.c1.z, a.c3.x, a.c3.y, a.c3.z));
        S::lemma_mul(S::one_spec().over(a.determinant_spec()), det3(a.c0.x, a.c0.y, a.c0.z, a.c1.x,
            a.c1.y, a.c1.z, a.c3.x, a.c3.y, a.c3.z).negated());
        S::lemma_mul(a.c2.y, S::one_spec().over(a.determinant_spec()).times(det3(a.c0.x, a.c0.y,
            a.c0.z, a.c1.x, a.c1.y, a.c1.z, a.c3.x, a.c3.y, a.c3.z).negated()));
        S::lemma_add(a.c0.y.times(S::one_spec().over(a.determinant_spec()).times(det3(a.c1.x,
            a.c1.y, a.c1.z, a.c2.x, a.c2.y, a.c2.z, a.c3.x, a.c3.y, a.c3.z).negated()))
            .plus(a.c1.y.times(S::one_spec().over(a.determinant_spec()).times(det3(a.c0.x, a.c0.y,
            a.c0.z, a.c2.x, a.c2.y, a.c2.z, a.c3.x, a.c3.y, a.c3.z)))), a.c2.y
            .times(S::one_spec().over(a.determinant_spec()).times(det3(a.c0.x, a.c0.y, a.c0.z,
            a.c1.x, a.c1.y, a.c1.z, a.c3.x, a.c3.y, a.c3.z).negated())));
        lemma_det3_value(a.c0.x, a.c0.y, a.c0.z, a.c1.x, a.c1.y, a.c1.z, a.c2.x, a.c2.y, a.c2.z);
        S::lemma_mul(S::one_spec().over(a.determinant_spec()), det3(a.c0.x, a.c0.y, a.c0.z, a.c1.x,
            a.c1.y, a.c1.z, a.c2.x, a.c2.y, a.c2.z));
        S::lemma_mul(a.c3.y, S::one_spec().over(a.determinant_spec()).times(det3(a.c0.x, a.c0.y,
            a.c0.z, a.c1.x, a.c1.y, a.c1.z, a.c2.x, a.c2.y, a.c2.z)));
        S::lemma_add(a.c0.y.times(S::one_spec().over(a.determinant_spec()).times(det3(a.c1.x,
            a.c1.y, a.c1.z, a.c2.x, a.c2.y, a.c2.z, a.c3.x, a.c3.y, a.c3.z).negated()))
            .plus(a.c1.y.times(S::one_spec().over(a.determinant_spec()).times(det3(a.c0.x, a.c0.y,
            a.c0.z, a.c2.x, a.c2.y, a.c2.z, a.c3.x, a.c3.y, a.c3.z)))).plus(a.c2.y
            .times(S::one_spec().over(a.determinant_spec()).times(det3(a.c0.x, a.c0.y, a.c0.z,
            a.c1.x, a.c1.y, a.c1.z, a.c3.x, a.c3.y, a.c3.z).negated()))), a.c3.y
            .times(S::one_spec().over(a.determinant_spec()).times(det3(a.c0.x, a.c0.y, a.c0.z,
            a.c1.x, a.c1.y, a.c1.z, a.c2.x, a.c2.y, a.c2.z))));
        let m0 = a.c0.y.value();
        let t0 = (-det3_value(a.c1.x.value(), a.c1.y.value(), a.c1.z.value(), a.c2.x.value(),
            a.c2.y.value(), a.c2.z.value(), a.c3.x.value(), a.c3.y.value(), a.c3.z.value()));
        let p0 = m0 * t0;
        assert(m0 * (kv * t0) == kv * p0) by (nonlinear_arith)
            requires
                p0 == m0 * t0,
        ;
        let m1 = a.c1.y.value();
        let t1 = det3_value(a.c0.x.value(), a.c0.y.value(), a.c0.z.value(), a.c2.x.value(),
            a.c2.y.value(), a.c2.z.value(), a.c3.x.value(), a.c3.y.value(), a.c3.z.value());
        let p1 = m1 * t1;
        assert(m1 * (kv * t1) == kv * p1) by (nonlinear_arith)
            requires
                p1 == m1 * t1,
        ;
        let m2 = a.c2.y.value();
        let t2 = (-det3_value(a.c0.x.value(), a.c0.y.value(), a.c0.z.value(), a.c1.x.value(),
            a.c1.y.value(), a.c1.z.value(), a.c3.x.value(), a.c3.y.value(), a.c3.z.value()));
        let p2 = m2 * t2;
        assert(m2 * (kv * t2) == kv * p2) by (nonlinear_arith)
            requires
                p2 == m2 * t2,
        ;
        let m3 = a.c3.y.value();
        let t3 = det3_value(a.c0.x.value(), a.c0.y.value(), a.c0.z.value(), a.c1.x.value(),
            a.c1.y.value(), a.c1.z.value(), a.c2.x.value(), a.c2.y.value(), a.c2.z.value());
        let p3 = m3 * t3;
        assert(m3 * (kv * t3) == kv * p3) by (nonlinear_arith)
            requires
                p3 == m3 * t3,
        ;
        assert(kv * p0 + kv * p1 + kv * p2 + kv * p3 == kv * (p0 + p1 + p2
            + p3)) by (nonlinear_arith);
        lemma_det4_value_right_3_1(
            a.c0.x.value(), a.c0.y.value(), a.c0.z.value(), a.c0.w.value(), a.c1.x.value(),
                a.c1.y.value(), a.c1.z.value(), a.c1.w.value(), a.c2.x.value(), a.c2.y.value(),
                a.c2.z.value(), a.c2.w.value(), a.c3.x.value(), a.c3.y.value(), a.c3.z.value(),
                a.c3.w.value(),
        );
        assert(kv * (p0 + p1 + p2 + p3) == 0) by (nonlinear_arith)
            requires
                p0 + p1 + p2 + p3 == 0,
        ;
        S::lemma_value_injective(a.c0.y.times(S::one_spec().over(a.determinant_spec())
            .times(det3(a.c1.x, a.c1.y, a.c1.z, a.c2.x, a.c2.y, a.c2.z, a.c3.x, a.c3.y,
            a.c3.z).negated())).plus(a.c1.y.times(S::one_spec().over(a.determinant_spec())
            .times(det3(a.c0.x, a.c0.y, a.c0.z, a.c2.x, a.c2.y, a.c2.z, a.c3.x, a.c3.y,
            a.c3.z)))).plus(a.c2.y.times(S::one_spec().over(a.determinant_spec())
            .times(det3(a.c0.x, a.c0.y, a.c0.z, a.c1.x, a.c1.y, a.c1.z, a.c3.x, a.c3.y,
            a.c3.z).negated()))).plus(a.c3.y.times(S::one_spec().over(a.determinant_spec())
            .times(det3(a.c0.x, a.c0.y, a.c0.z, a.c1.x, a.c1.y, a.c1.z, a.c2.x, a.c2.y, a.c2.z)))),
            S::zero_spec());
    }
    {
        lemma_det3_value(a.c1.x, a.c1.y, a.c1.z, a.c2.x, a.c2.y, a.c2.z, a.c3.x, a.c3.y, a.c3.z);
        S::lemma_neg(det3(a.c1.x, a.c1.y, a.c1.z, a.c2.x, a.c2.y, a.c2.z, a.c3.x, a.c3.y, a.c3.z));
        S::lemma_mul(S::one_spec().over(a.determinant_spec()), det3(a.c1.x, a.c1.y, a.c1.z, a.c2.x,
            a.c2.y, a.c2.z, a.c3.x, a.c3.y, a.c3.z).negated());
        S::lemma_mul(a.c0.z, S::one_spec().over(a.determinant_spec()).times(det3(a.c1.x, a.c1.y,
            a.c1.z, a.c2.x, a.c2.y, a.c2.z, a.c3.x, a.c3.y, a.c3.z).negated()));
        lemma_det3_value(a.c0.x, a.c0.y, a.c0.z, a.c2.x, a.c2.y, a.c2.z, a.c3.x, a.c3.y, a.c3.z);
        S::lemma_mul(S::one_spec().over(a.determinant_spec()), det3(a.c0.x, a.c0.y, a.c0.z, a.c2.x,
            a.c2.y, a.c2.z, a.c3.x, a.c3.y, a.c3.z));
        S::lemma_mul(a.c1.z, S::one_spec().over(a.determinant_spec()).times(det3(a.c0.x, a.c0.y,
            a.c0.z, a.c2.x, a.c2.y, a.c2.z, a.c3.x, a.c3.y, a.c3.z)));
        S::lemma_add(a.c0.z.times(S::one_spec().over(a.determinant_spec()).times(det3(a.c1.x,
            a.c1.y, a.c1.z, a.c2.x, a.c2.y, a.c2.z, a.c3.x, a.c3.y, a.c3.z).negated())),
            a.c1.z.times(S::one_spec().over(a.determinant_spec()).times(det3(a.c0.x, a.c0.y,
            a.c0.z, a.c2.x, a.c2.y, a.c2.z, a.c3.x, a.c3.y, a.c3.z))));
        lemma_det3_value(a.c0.x, a.c0.y, a.c0.z, a.c1.x, a.c1.y, a.c1.z, a.c3.x, a.c3.y, a.c3.z);
        S::lemma_neg(det3(a.c0.x, a.c0.y, a.c0.z, a.c1.x, a.c1.y, a.c1.z, a.c3.x, a.c3.y, a.c3.z));
        S::lemma_mul(S::one_spec().over(a.determinant_spec()), det3(a.c0.x, a.c0.y, a.c0.z, a.c1.x,
            a.c1.y, a.c1.z, a.c3.x, a.c3.y, a.c3.z).negated());
        S::lemma_mul(a.c2.z, S::one_spec().over(a.determinant_spec()).times(det3(a.c0.x, a.c0.y,
            a.c0.z, a.c1.x, a.c1.y, a.c1.z, a.c3.x, a.c3.y, a.c3.z).negated()));
        S::lemma_add(a.c0.z.times(S::one_spec().over(a.determinant_spec()).times(det3(a.c1.x,
            a.c1.y, a.c1.z, a.c2.x, a.c2.y, a.c2.z, a.c3.x, a.c3.y, a.c3.z).negated()))
            .plus(a.c1.z.times(S::one_spec().over(a.determinant_spec()).times(det3(a.c0.x, a.c0.y,
            a.c0.z, a.c2.x, a.c2.y, a.c2.z, a.c3.x, a.c3.y, a.c3.z)))), a.c2.z
            .times(S::one_spec().over(a.determinant_spec()).times(det3(a.c0.x, a.c0.y, a.c0.z,
            a.c1.x, a.c1.y, a.c1.z, a.c3.x, a.c3.y, a.c3.z).negated())));
        lemma_det3_value(a.c0.x, a.c0.y, a.c0.z, a.c1.x, a.c1.y, a.c1.z, a.c2.x, a.c2.y, a.c2.z);
        S::lemma_mul(S::one_spec().over(a.determinant_spec()), det3(a.c0.x, a.c0.y, a.c0.z, a.c1.x,
            a.c1.y, a.c1.z, a.c2.x, a.c2.y, a.c2.z));
        S::lemma_mul(a.c3.z, S::one_spec().over(a.determinant_spec()).times(det3(a.c0.x, a.c0.y,
            a.c0.z, a.c1.x, a.c1.y, a.c1.z, a.c2.x, a.c2.y, a.c2.z)));
        S::lemma_add(a.c0.z.times(S::one_spec().over(a.determinant_spec()).times(det3(a.c1.x,
            a.c1.y, a.c1.z, a.c2.x, a.c2.y, a.c2.z, a.c3.x, a.c3.y, a.c3.z).negated()))
            .plus(a.c1.z.times(S::one_spec().over(a.determinant_spec()).times(det3(a.c0.x, a.c0.y,
            a.c0.z, a.c2.x, a.c2.y, a.c2.z, a.c3.x, a.c3.y, a.c3.z)))).plus(a.c2.z
            .times(S::one_spec().over(a.determinant_spec()).times(det3(a.c0.x, a.c0.y, a.c0.z,
            a.c1.x, a.c1.y, a.c1.z, a.c3.x, a.c3.y, a.c3.z).negated()))), a.c3.z
            .times(S::one_spec().over(a.determinant_spec()).times(det3(a.c0.x, a.c0.y, a.c0.z,
            a.c1.x, a.c1.y, a.c1.z, a.c2.x, a.c2.y, a.c2.z))));
        let m0 = a.c0.z.value();
        let t0 = (-det3_value(a.c1.x.value(), a.c1.y.value(), a.c1.z.value(), a.c2.x.value(),
            a.c2.y.value(), a.c2.z.value(), a.c3.x.value(), a.c3.y.value(), a.c3.z.value()));
        let p0 = m0 * t0;
        assert(m0 * (kv * t0) == kv * p0) by (nonlinear_arith)
            requires
                p0 == m0 * t0,
        ;
        let m1 = a.c1.z.value();
        let t1 = det3_value(a.c0.x.value(), a.c0.y.value(), a.c0.z.value(), a.c2.x.value(),
            a.c2.y.value(), a.c2.z.value(), a.c3.x.value(), a.c3.y.value(), a.c3.z.value());
        let p1 = m1 * t1;
        assert(m1 * (kv * t1) == kv * p1) by (nonlinear_arith)
            requires
                p1 == m1 * t1,
        ;
        let m2 = a.c2.z.value();
        let t2 = (-det3_value(a.c0.x.value(), a.c0.y.value(), a.c0.z.value(), a.c1.x.value(),
            a.c1.y.value(), a.c1.z.value(), a.c3.x.value(), a.c3.y.value(), a.c3.z.value()));
        let p2 = m2 * t2;
        assert(m2 * (kv * t2) == kv * p2) by (nonlinear_arith)
            requires
                p2 == m2 * t2,
        ;
        let m3 = a.c3.z.value();
        let t3 = det3_value(a.c0.x.value(), a.c0.y.value(), a.c0.z.value(), a.c1.x.value(),
            a.c1.y.value(), a.c1.z.value(), a.c2.x.value(), a.c2.y.value(), a.c2.z.value());
        let p3 = m3 * t3;
        assert(m3 * (kv * t3) == kv * p3) by (nonlinear_arith)
            requires
                p3 == m3 * t3,
        ;
        assert(kv * p0 + kv * p1 + kv * p2 + kv * p3 == kv * (p0 + p1 + p2
            + p3)) by (nonlinear_arith);
        lemma_det4_value_right_3_2(
            a.c0.x.value(), a.c0.y.value(), a.c0.z.value(), a.c0.w.value(), a.c1.x.value(),
                a.c1.y.value(), a.c1.z.value(), a.c1.w.value(), a.c2.x.value(), a.c2.y.value(),
                a.c2.z.value(), a.c2.w.value(), a.c3.x.value(), a.c3.y.value(), a.c3.z.value(),
                a.c3.w.value(),
        );
        assert(kv * (p0 + p1 + p2 + p3) == 0) by (nonlinear_arith)
            requires
                p0 + p1 + p2 + p3 == 0,
        ;
        S::lemma_value_injective(a.c0.z.times(S::one_spec().over(a.determinant_spec())
            .times(det3(a.c1.x, a.c1.y, a.c1.z, a.c2.x, a.c2.y, a.c2.z, a.c3.x, a.c3.y,
            a.c3.z).negated())).plus(a.c1.z.times(S::one_spec().over(a.determinant_spec())
            .times(det3(a.c0.x, a.c0.y, a.c0.z, a.c2.x, a.c2.y, a.c2.z, a.c3.x, a.c3.y,
            a.c3.z)))).plus(a.c2.z.times(S::one_spec().over(a.determinant_spec())
            .times(det3(a.c0.x, a.c0.y, a.c0.z, a.c1.x, a.c1.y, a.c1.z, a.c3.x, a.c3.y,
            a.c3.z).negated()))).plus(a.c3.z.times(S::one_spec().over(a.determinant_spec())
            .times(det3(a.c0.x, a.c0.y, a.c0.z, a.c1.x, a.c1.y, a.c1.z, a.c2.x, a.c2.y, a.c2.z)))),
            S::zero_spec());
    }
    {
        lemma_det3_value(a.c1.x, a.c1.y, a.c1.z, a.c2.x, a.c2.y, a.c2.z, a.c3.x, a.c3.y, a.c3.z);
        S::lemma_neg(det3(a.c1.x, a.c1.y, a.c1.z, a.c2.x, a.c2.y, a.c2.z, a.c3.x, a.c3.y, a.c3.z));
        S::lemma_mul(S::one_spec().over(a.determinant_spec()), det3(a.c1.x, a.c1.y, a.c1.z, a.c2.x,
            a.c2.y, a.c2.z, a.c3.x, a.c3.y, a.c3.z).negated());
        S::lemma_mul(a.c0.w, S::one_spec().over(a.determinant_spec()).times(det3(a.c1.x, a.c1.y,
            a.c1.z, a.c2.x, a.c2.y, a.c2.z, a.c3.x, a.c3.y, a.c3.z).negated()));
        lemma_det3_value(a.c0.x, a.c0.y, a.c0.z, a.c2.x, a.c2.y, a.c2.z, a.c3.x, a.c3.y, a.c3.z);
        S::lemma_mul(S::one_spec().over(a.determinant_spec()), det3(a.c0.x, a.c0.y, a.c0.z, a.c2.x,
            a.c2.y, a.c2.z, a.c3.x, a.c3.y, a.c3.z));
        S::lemma_mul(a.c1.w, S::one_spec().over(a.determinant_spec()).times(det3(a.c0.x, a.c0.y,
            a.c0.z, a.c2.x, a.c2.y, a.c2.z, a.c3.x, a.c3.y, a.c3.z)));
        S::lemma_add(a.c0.w.times(S::one_spec().over(a.determinant_spec()).times(det3(a.c1.x,
            a.c1.y, a.c1.z, a.c2.x, a.c2.y, a.c2.z, a.c3.x, a.c3.y, a.c3.z).negated())),
            a.c1.w.times(S::one_spec().over(a.determinant_spec()).times(det3(a.c0.x, a.c0.y,
            a.c0.z, a.c2.x, a.c2.y, a.c2.z, a.c3.x, a.c3.y, a.c3.z))));
        lemma_det3_value(a.c0.x, a.c0.y, a.c0.z, a.c1.x, a.c1.y, a.c1.z, a.c3.x, a.c3.y, a.c3.z);
        S::lemma_neg(det3(a.c0.x, a.c0.y, a.c0.z, a.c1.x, a.c1.y, a.c1.z, a.c3.x, a.c3.y, a.c3.z));
        S::lemma_mul(S::one_spec().over(a.determinant_spec()), det3(a.c0.x, a.c0.y, a.c0.z, a.c1.x,
            a.c1.y, a.c1.z, a.c3.x, a.c3.y, a.c3.z).negated());
        S::lemma_mul(a.c2.w, S::one_spec().over(a.determinant_spec()).times(det3(a.c0.x, a.c0.y,
            a.c0.z, a.c1.x, a.c1.y, a.c1.z, a.c3.x, a.c3.y, a.c3.z).negated()));
        S::lemma_add(a.c0.w.times(S::one_spec().over(a.determinant_spec()).times(det3(a.c1.x,
            a.c1.y, a.c1.z, a.c2.x, a.c2.y, a.c2.z, a.c3.x, a.c3.y, a.c3.z).negated()))
            .plus(a.c1.w.times(S::one_spec().over(a.determinant_spec()).times(det3(a.c0.x, a.c0.y,
            a.c0.z, a.c2.x, a.c2.y, a.c2.z, a.c3.x, a.c3.y, a.c3.z)))), a.c2.w
            .times(S::one_spec().over(a.determinant_spec()).times(det3(a.c0.x, a.c0.y, a.c0.z,
            a.c1.x, a.c1.y, a.c1.z, a.c3.x, a.c3.y, a.c3.z).negated())));
        lemma_det3_value(a.c0.x, a.c0.y, a.c0.z, a.c1.x, a.c1.y, a.c1.z, a.c2.x, a.c2.y, a.c2.z);
        S::lemma_mul(S::one_spec().over(a.determinant_spec()), det3(a.c0.x, a.c0.y, a.c0.z, a.c1.x,
            a.c1.y, a.c1.z, a.c2.x, a.c2.y, a.c2.z));
        S::lemma_mul(a.c3.w, S::one_spec().over(a.determinant_spec()).times(det3(a.c0.x, a.c0.y,
            a.c0.z, a.c1.x, a.c1.y, a.c1.z, a.c2.x, a.c2.y, a.c2.z)));
        S::lemma_add(a.c0.w.times(S::one_spec().over(a.determinant_spec()).times(det3(a.c1.x,
            a.c1.y, a.c1.z, a.c2.x, a.c2.y, a.c2.z, a.c3.x, a.c3.y, a.c3.z).negated()))
            .plus(a.c1.w.times(S::one_spec().over(a.determinant_spec()).times(det3(a.c0.x, a.c0.y,
            a.c0.z, a.c2.x, a.c2.y, a.c2.z, a.c3.x, a.c3.y, a.c3.z)))).plus(a.c2.w
            .times(S::one_spec().over(a.determinant_spec()).times(det3(a.c0.x, a.c0.y, a.c0.z,
            a.c1.x, a.c1.y, a.c1.z, a.c3.x, a.c3.y, a.c3.z).negated()))), a.c3.w
            .times(S::one_spec().over(a.determinant_spec()).times(det3(a.c0.x, a.c0.y, a.c0.z,
            a.c1.x, a.c1.y, a.c1.z, a.c2.x, a.c2.y, a.c2.z))));
        let m0 = a.c0.w.value();
        let t0 = (-det3_value(a.c1.x.value(), a.c1.y.value(), a.c1.z.value(), a.c2.x.value(),
            a.c2.y.value(), a.c2.z.value(), a.c3.x.value(), a.c3.y.value(), a.c3.z.value()));
        let p0 = m0 * t0;
        assert(m0 * (kv * t0) == kv * p0) by (nonlinear_arith)
            requires
                p0 == m0 * t0,
        ;
        let m1 = a.c1.w.value();
        let t1 = det3_value(a.c0.x.value(), a.c0.y.value(), a.c0.z.value(), a.c2.x.value(),
            a.c2.y.value(), a.c2.z.value(), a.c3.x.value(), a.c3.y.value(), a.c3.z.value());
        let p1 = m1 * t1;
        assert(m1 * (kv * t1) == kv * p1) by (nonlinear_arith)
            requires
                p1 == m1 * t1,
        ;
        let m2 = a.c2.w.value();
        let t2 = (-det3_value(a.c0.x.value(), a.c0.y.value(), a.c0.z.value(), a.c1.x.value(),
            a.c1.y.value(), a.c1.z.value(), a.c3.x.value(), a.c3.y.value(), a.c3.z.value()));
        let p2 = m2 * t2;
        assert(m2 * (kv * t2) == kv * p2) by (nonlinear_arith)
            requires
                p2 == m2 * t2,
        ;
        let m3 = a.c3.w.value();
        let t3 = det3_value(a.c0.x.value(), a.c0.y.value(), a.c0.z.value(), a.c1.x.value(),
            a.c1.y.value(), a.c1.z.value(), a.c2.x.value(), a.c2.y.value(), a.c2.z.value());
        let p3 = m3 * t3;
        assert(m3 * (kv * t3) == kv * p3) by (nonlinear_arith)
            requires
                p3 == m3 * t3,
        ;
        assert(kv * p0 + kv * p1 + kv * p2 + kv * p3 == kv * (p0 + p1 + p2
            + p3)) by (nonlinear_arith);
        lemma_det4_value_right_3_3(
            a.c0.x.value(), a.c0.y.value(), a.c0.z.value(), a.c0.w.value(), a.c1.x.value(),
                a.c1.y.value(), a.c1.z.value(), a.c1.w.value(), a.c2.x.value(), a.c2.y.value(),
                a.c2.z.value(), a.c2.w.value(), a.c3.x.value(), a.c3.y.value(), a.c3.z.value(),
                a.c3.w.value(),
        );
        assert(kv * (p0 + p1 + p2 + p3) == 1);
        S::lemma_value_injective(a.c0.w.times(S::one_spec().over(a.determinant_spec())
            .times(det3(a.c1.x, a.c1.y, a.c1.z, a.c2.x, a.c2.y, a.c2.z, a.c3.x, a.c3.y,
            a.c3.z).negated())).plus(a.c1.w.times(S::one_spec().over(a.determinant_spec())
            .times(det3(a.c0.x, a.c0.y, a.c0.z, a.c2.x, a.c2.y, a.c2.z, a.c3.x, a.c3.y,
            a.c3.z)))).plus(a.c2.w.times(S::one_spec().over(a.determinant_spec())
            .times(det3(a.c0.x, a.c0.y, a.c0.z, a.c1.x, a.c1.y, a.c1.z, a.c3.x, a.c3.y,
            a.c3.z).negated()))).plus(a.c3.w.times(S::one_spec().over(a.determinant_spec())
            .times(det3(a.c0.x, a.c0.y, a.c0.z, a.c1.x, a.c1.y, a.c1.z, a.c2.x, a.c2.y, a.c2.z)))),
            S::one_spec());
    }
}

/// For every four-by-four matrix `a` whose determinant is one or minus one and
/// whose inverse can be computed: the inverse is present, and where
/// the inverse of `a` times `a` is defined, it is the identity.
pub proof fn lemma_matrix4x4_unimodular_inverse_left<S: ExactSigned>(a: Matrix4x4<S>)
    requires
        a.can_inverse(),
        a.determinant_spec() == S::one_spec() || a.determinant_spec() == S::one_spec().negated(),
        a.inverse_spec() is Some ==> a.inverse_spec().unwrap().can_mul_4x4(a),
    ensures
        a.inverse_spec() is Some,
        a.inverse_spec().unwrap().times_4x4(a) == Matrix4x4::<S>::identity_spec(),
{
    S::lemma_identities();
    S::lemma_reciprocal_of_one();
    S::lemma_reciprocal_of_minus_one();
    S::lemma_neg(S::one_spec());
    S::lemma_same(a.determinant_spec(), S::zero_spec());
    lemma_matrix4x4_determinant_value(a);
    let kv = S::one_spec().over(a.determinant_spec()).value();
    let dv = a.determinant_spec().value();
    assert(kv == dv);
    assert(kv * dv == 1) by (nonlinear_arith)
        requires
            kv == dv,
            dv == 1 || dv == -1,
    ;
    {
        lemma_det3_value(a.c1.y, a.c1.z, a.c1.w, a.c2.y, a.c2.z, a.c2.w, a.c3.y, a.c3.z, a.c3.w);
        S::lemma_mul(S::one_spec().over(a.determinant_spec()), det3(a.c1.y, a.c1.z, a.c1.w, a.c2.y,
            a.c2.z, a.c2.w, a.c3.y, a.c3.z, a.c3.w));
        S::lemma_mul(S::one_spec().over(a.determinant_spec()).times(det3(a.c1.y, a.c1.z, a.c1.w,
            a.c2.y, a.c2.z, a.c2.w, a.c3.y, a.c3.z, a.c3.w)), a.c0.x);
        lemma_det3_value(a.c1.x, a.c1.z, a.c1.w, a.c2.x, a.c2.z, a.c2.w, a.c3.x, a.c3.z, a.c3.w);
        S::lemma_neg(det3(a.c1.x, a.c1.z, a.c1.w, a.c2.x, a.c2.z, a.c2.w, a.c3.x, a.c3.z, a.c3.w));
        S::lemma_mul(S::one_spec().over(a.determinant_spec()), det3(a.c1.x, a.c1.z, a.c1.w, a.c2.x,
            a.c2.z, a.c2.w, a.c3.x, a.c3.z, a.c3.w).negated());
        S::lemma_mul(S::one_spec().over(a.determinant_spec()).times(det3(a.c1.x, a.c1.z, a.c1.w,
            a.c2.x, a.c2.z, a.c2.w, a.c3.x, a.c3.z, a.c3.w).negated()), a.c0.y);
        S::lemma_add(S::one_spec().over(a.determinant_spec()).times(det3(a.c1.y, a.c1.z, a.c1.w,
            a.c2.y, a.c2.z, a.c2.w, a.c3.y, a.c3.z, a.c3.w)).times(a.c0.x), S::one_spec()
            .over(a.determinant_spec()).times(det3(a.c1.x, a.c1.z, a.c1.w, a.c2.x, a.c2.z, a.c2.w,
            a.c3.x, a.c3.z, a.c3.w).negated()).times(a.c0.y));
        lemma_det3_value(a.c1.x, a.c1.y, a.c1.w, a.c2.x, a.c2.y, a.c2.w, a.c3.x, a.c3.y, a.c3.w);
        S::lemma_mul(S::one_spec().over(a.determinant_spec()), det3(a.c1.x, a.c1.y, a.c1.w, a.c2.x,
            a.c2.y, a.c2.w, a.c3.x, a.c3.y, a.c3.w));
        S::lemma_mul(S::one_spec().over(a.determinant_spec()).times(det3(a.c1.x, a.c1.y, a.c1.w,
            a.c2.x, a.c2.y, a.c2.w, a.c3.x, a.c3.y, a.c3.w)), a.c0.z);
        S::lemma_add(S::one_spec().over(a.determinant_spec()).times(det3(a.c1.y, a.c1.z, a.c1.w,
            a.c2.y, a.c2.z, a.c2.w, a.c3.y, a.c3.z, a.c3.w)).times(a.c0.x).plus(S::one_spec()
            .over(a.determinant_spec()).times(det3(a.c1.x, a.c1.z, a.c1.w, a.c2.x, a.c2.z, a.c2.w,
            a.c3.x, a.c3.z, a.c3.w).negated()).times(a.c0.y)), S::one_spec()
            .over(a.determinant_spec()).times(det3(a.c1.x, a.c1.y, a.c1.w, a.c2.x, a.c2.y, a.c2.w,
            a.c3.x, a.c3.y, a.c3.w)).times(a.c0.z));
        lemma_det3_value(a.c1.x, a.c1.y, a.c1.z, a.c2.x, a.c2.y, a.c2.z, a.c3.x, a.c3.y, a.c3.z);
        S::lemma_neg(det3(a.c1.x, a.c1.y, a.c1.z, a.c2.x, a.c2.y, a.c2.z, a.c3.x, a.c3.y, a.c3.z));
        S::lemma_mul(S::one_spec().over(a.determinant_spec()), det3(a.c1.x, a.c1.y, a.c1.z, a.c2.x,
            a.c2.y, a.c2.z, a.c3.x, a.c3.y, a.c3.z).negated());
        S::lemma_mul(S::one_spec().over(a.determinant_spec()).times(det3(a.c1.x, a.c1.y, a.c1.z,
            a.c2.x, a.c2.y, a.c2.z, a.c3.x, a.c3.y, a.c3.z).negated()), a.c0.w);
        S::lemma_add(S::one_spec().over(a.determinant_spec()).times(det3(a.c1.y, a.c1.z, a.c1.w,
            a.c2.y, a.c2.z, a.c2.w, a.c3.y, a.c3.z, a.c3.w)).times(a.c0.x).plus(S::one_spec()
            .over(a.determinant_spec()).times(det3(a.c1.x, a.c1.z, a.c1.w, a.c2.x, a.c2.z, a.c2.w,
            a.c3.x, a.c3.z, a.c3.w).negated()).times(a.c0.y)).plus(S::one_spec()
            .over(a.determinant_spec()).times(det3(a.c1.x, a.c1.y, a.c1.w, a.c2.x, a.c2.y, a.c2.w,
            a.c3.x, a.c3.y, a.c3.w)).times(a.c0.z)), S::one_spec()
            .over(a.determinant_spec()).times(det3(a.c1.x, a.c1.y, a.c1.z, a.c2.x, a.c2.y, a.c2.z,
            a.c3.x, a.c3.y, a.c3.z).negated()).times(a.c0.w));
        let m0 = a.c0.x.value();
        let t0 = det3_value(a.c1.y.value(), a.c1.z.value(), a.c1.w.value(), a.c2.y.value(),
            a.c2.z.value(), a.c2.w.value(), a.c3.y.value(), a.c3.z.value(), a.c3.w.value());
        let p0 = t0 * m0;
        assert((kv * t0) * m0 == kv * p0) by (nonlinear_arith)
            requires
                p0 == t0 * m0,
        ;
        let m1 = a.c0.y.value();
        let t1 = (-det3_value(a.c1.x.value(), a.c1.z.value(), a.c1.w.value(), a.c2.x.value(),
            a.c2.z.value(), a.c2.w.value(), a.c3.x.value(), a.c3.z.value(), a.c3.w.value()));
        let p1 = t1 * m1;
        assert((kv * t1) * m1 == kv * p1) by (nonlinear_arith)
            requires
                p1 == t1 * m1,
        ;
        let m2 = a.c0.z.value();
        let t2 = det3_value(a.c1.x.value(), a.c1.y.value(), a.c1.w.value(), a.c2.x.value(),
            a.c2.y.value(), a.c2.w.value(), a.c3.x.value(), a.c3.y.value(), a.c3.w.value());
        let p2 = t2 * m2;
        assert((kv * t2) * m2 == kv * p2) by (nonlinear_arith)
            requires
                p2 == t2 * m2,
        ;
        let m3 = a.c0.w.value();
        let t3 = (-det3_value(a.c1.x.value(), a.c1.y.value(), a.c1.z.value(), a.c2.x.value(),
            a.c2.y.value(), a.c2.z.value(), a.c3.x.value(), a.c3.y.value(), a.c3.z.value()));
        let p3 = t3 * m3;
        assert((kv * t3) * m3 == kv * p3) by (nonlinear_arith)
            requires
                p3 == t3 * m3,
        ;
        assert(kv * p0 + kv * p1 + kv * p2 + kv * p3 == kv * (p0 + p1 + p2
            + p3)) by (nonlinear_arith);
        lemma_det4_value_left_0_0(
            a.c0.x.value(), a.c0.y.value(), a.c0.z.value(), a.c0.w.value(), a.c1.x.value(),
                a.c1.y.value(), a.c1.z.value(), a.c1.w.value(), a.c2.x.value(), a.c2.y.value(),
                a.c2.z.value(), a.c2.w.value(), a.c3.x.value(), a.c3.y.value(), a.c3.z.value(),
                a.c3.w.value(),
        );
        assert(kv * (p0 + p1 + p2 + p3) == 1);
        S::lemma_value_injective(S::one_spec().over(a.determinant_spec()).times(det3(a.c1.y,
            a.c1.z, a.c1.w, a.c2.y, a.c2.z, a.c2.w, a.c3.y, a.c3.z, a.c3.w)).times(a.c0.x)
            .plus(S::one_spec().over(a.determinant_spec()).times(det3(a.c1.x, a.c1.z, a.c1.w,
            a.c2.x, a.c2.z, a.c2.w, a.c3.x, a.c3.z, a.c3.w).negated()).times(a.c0.y))
            .plus(S::one_spec().over(a.determinant_spec()).times(det3(a.c1.x, a.c1.y, a.c1.w,
            a.c2.x, a.c2.y, a.c2.w, a.c3.x, a.c3.y, a.c3.w)).times(a.c0.z))
            .plus(S::one_spec().over(a.determinant_spec()).times(det3(a.c1.x, a.c1.y, a.c1.z,
            a.c2.x, a.c2.y, a.c2.z, a.c3.x, a.c3.y, a.c3.z).negated()).times(a.c0.w)),
            S::one_spec());
    }
    {
        lemma_det3_value(a.c0.y, a.c0.z, a.c0.w, a.c2.y, a.c2.z, a.c2.w, a.c3.y, a.c3.z, a.c3.w);
        S::lemma_neg(det3(a.c0.y, a.c0.z, a.c0.w, a.c2.y, a.c2.z, a.c2.w, a.c3.y, a.c3.z, a.c3.w));
        S::lemma_mul(S::one_spec().over(a.determinant_spec()), det3(a.c0.y, a.c0.z, a.c0.w, a.c2.y,
            a.c2.z, a.c2.w, a.c3.y, a.c3.z, a.c3.w).negated());
        S::lemma_mul(S::one_spec().over(a.determinant_spec()).times(det3(a.c0.y, a.c0.z, a.c0.w,
            a.c2.y, a.c2.z, a.c2.w, a.c3.y, a.c3.z, a.c3.w).negated()), a.c0.x);
        lemma_det3_value(a.c0.x, a.c0.z, a.c0.w, a.c2.x, a.c2.z, a.c2.w, a.c3.x, a.c3.z, a.c3.w);
        S::lemma_mul(S::one_spec().over(a.determinant_spec()), det3(a.c0.x, a.c0.z, a.c0.w, a.c2.x,
            a.c2.z, a.c2.w, a.c3.x, a.c3.z, a.c3.w));
        S::lemma_mul(S::one_spec().over(a.determinant_spec()).times(det3(a.c0.x, a.c0.z, a.c0.w,
            a.c2.x, a.c2.z, a.c2.w, a.c3.x, a.c3.z, a.c3.w)), a.c0.y);
        S::lemma_add(S::one_spec().over(a.determinant_spec()).times(det3(a.c0.y, a.c0.z, a.c0.w,
            a.c2.y, a.c2.z, a.c2.w, a.c3.y, a.c3.z, a.c3.w).negated()).times(a.c0.x),
            S::one_spec().over(a.determinant_spec()).times(det3(a.c0.x, a.c0.z, a.c0.w, a.c2.x,
            a.c2.z, a.c2.w, a.c3.x, a.c3.z, a.c3.w)).times(a.c0.y));
        lemma_det3_value(a.c0.x, a.c0.y, a.c0.w, a.c2.x, a.c2.y, a.c2.w, a.c3.x, a.c3.y, a.c3.w);
        S::lemma_neg(det3(a.c0.x, a.c0.y, a.c0.w, a.c2.x, a.c2.y, a.c2.w, a.c3.x, a.c3.y, a.c3.w));
        S::lemma_mul(S::one_spec().over(a.determinant_spec()), det3(a.c0.x, a.c0.y, a.c0.w, a.c2.x,
            a.c2.y, a.c2.w, a.c3.x, a.c3.y, a.c3.w).negated());
        S::lemma_mul(S::one_spec().over(a.determinant_spec()).times(det3(a.c0.x, a.c0.y, a.c0.w,
            a.c2.x, a.c2.y, a.c2.w, a.c3.x, a.c3.y, a.c3.w).negated()), a.c0.z);
        S::lemma_add(S::one_spec().over(a.determinant_spec()).times(det3(a.c0.y, a.c0.z, a.c0.w,
            a.c2.y, a.c2.z, a.c2.w, a.c3.y, a.c3.z, a.c3.w).negated()).times(a.c0.x)
            .plus(S::one_spec().over(a.determinant_spec()).times(det3(a.c0.x, a.c0.z, a.c0.w,
            a.c2.x, a.c2.z, a.c2.w, a.c3.x, a.c3.z, a.c3.w)).times(a.c0.y)), S::one_spec()
            .over(a.determinant_spec()).times(det3(a.c0.x, a.c0.y, a.c0.w, a.c2.x, a.c2.y, a.c2.w,
            a.c3.x, a.c3.y, a.c3.w).negated()).times(a.c0.z));
        lemma_det3_value(a.c0.x, a.c0.y, a.c0.z, a.c2.x, a.c2.y, a.c2.z, a.c3.x, a.c3.y, a.c3.z);
        S::lemma_mul(S::one_spec().over(a.determinant_spec()), det3(a.c0.x, a.c0.y, a.c0.z, a.c2.x,
            a.c2.y, a.c2.z, a.c3.x, a.c3.y, a.c3.z));
        S::lemma_mul(S::one_spec().over(a.determinant_spec()).times(det3(a.c0.x, a.c0.y, a.c0.z,
            a.c2.x, a.c2.y, a.c2.z, a.c3.x, a.c3.y, a.c3.z)), a.c0.w);
        S::lemma_add(S::one_spec().over(a.determinant_spec()).times(det3(a.c0.y, a.c0.z, a.c0.w,
            a.c2.y, a.c2.z, a.c2.w, a.c3.y, a.c3.z, a.c3.w).negated()).times(a.c0.x)
            .plus(S::one_spec().over(a.determinant_spec()).times(det3(a.c0.x, a.c0.z, a.c0.w,
            a.c2.x, a.c2.z, a.c2.w, a.c3.x, a.c3.z, a.c3.w)).times(a.c0.y))
            .plus(S::one_spec().over(a.determinant_spec()).times(det3(a.c0.x, a.c0.y, a.c0.w,
            a.c2.x, a.c2.y, a.c2.w, a.c3.x, a.c3.y, a.c3.w).negated()).times(a.c0.z)),
            S::one_spec().over(a.determinant_spec()).times(det3(a.c0.x, a.c0.y, a.c0.z, a.c2.x,
            a.c2.y, a.c2.z, a.c3.x, a.c3.y, a.c3.z)).times(a.c0.w));
        let m0 = a.c0.x.value();
        let t0 = (-det3_value(a.c0.y.value(), a.c0.z.value(), a.c0.w.value(), a.c2.y.value(),
            a.c2.z.value(), a.c2.w.value(), a.c3.y.value(), a.c3.z.value(), a.c3.w.value()));
        let p0 = t0 * m0;
        assert((kv * t0) * m0 == kv * p0) by (nonlinear_arith)
            requires
                p0 == t0 * m0,
        ;
        let m1 = a.c0.y.value();
        let t1 = det3_value(a.c0.x.value(), a.c0.z.value(), a.c0.w.value(), a.c2.x.value(),
            a.c2.z.value(), a.c2.w.value(), a.c3.x.value(), a.c3.z.value(), a.c3.w.value());
        let p1 = t1 * m1;
        assert((kv * t1) * m1 == kv * p1) by (nonlinear_arith)
            requires
                p1 == t1 * m1,
        ;
        let m2 = a.c0.z.value();
        let t2 = (-det3_value(a.c0.x.value(), a.c0.y.value(), a.c0.w.value(), a.c2.x.value(),
            a.c2.y.value(), a.c2.w.value(), a.c3.x.value(), a.c3.y.value(), a.c3.w.value()));
        let p2 = t2 * m2;
        assert((kv * t2) * m2 == kv * p2) by (nonlinear_arith)
            requires
                p2 == t2 * m2,
        ;
        let m3 = a.c0.w.value();
        let t3 = det3_value(a.c0.x.value(), a.c0.y.value(), a.c0.z.value(), a.c2.x.value(),
            a.c2.y.value(), a.c2.z.value(), a.c3.x.value(), a.c3.y.value(), a.c3.z.value());
        let p3 = t3 * m3;
        assert((kv * t3) * m3 == kv * p3) by (nonlinear_arith)
            requires
                p3 == t3 * m3,
        ;
        assert(kv * p0 + kv * p1 + kv * p2 + kv * p3 == kv * (p0 + p1 + p2
            + p3)) by (nonlinear_arith);
        lemma_det4_value_left_0_1(
            a.c0.x.value(), a.c0.y.value(), a.c0.z.value(), a.c0.w.value(), a.c1.x.value(),
                a.c1.y.value(), a.c1.z.value(), a.c1.w.value(), a.c2.x.value(), a.c2.y.value(),
                a.c2.z.value(), a.c2.w.value(), a.c3.x.value(), a.c3.y.value(), a.c3.z.value(),
                a.c3.w.value(),
        );
        assert(kv * (p0 + p1 + p2 + p3) == 0) by (nonlinear_arith)
            requires
                p0 + p1 + p2 + p3 == 0,
        ;
        S::lemma_value_injective(S::one_spec().over(a.determinant_spec()).times(det3(a.c0.y,
            a.c0.z, a.c0.w, a.c2.y, a.c2.z, a.c2.w, a.c3.y, a.c3.z, a.c3.w).negated())
            .times(a.c0.x).plus(S::one_spec().over(a.determinant_spec()).times(det3(a.c0.x, a.c0.z,
            a.c0.w, a.c2.x, a.c2.z, a.c2.w, a.c3.x, a.c3.z, a.c3.w)).times(a.c0.y))
            .plus(S::one_spec().over(a.determinant_spec()).times(det3(a.c0.x, a.c0.y, a.c0.w,
            a.c2.x, a.c2.y, a.c2.w, a.c3.x, a.c3.y, a.c3.w).negated()).times(a.c0.z))
            .plus(S::one_spec().over(a.determinant_spec()).times(det3(a.c0.x, a.c0.y, a.c0.z,
            a.c2.x, a.c2.y, a.c2.z, a.c3.x, a.c3.y, a.c3.z)).times(a.c0.w)), S::zero_spec());
    }
    {
        lemma_det3_value(a.c0.y, a.c0.z, a.c0.w, a.c1.y, a.c1.z, a.c1.w, a.c3.y, a.c3.z, a.c3.w);
        S::lemma_mul(S::one_spec().over(a.determinant_spec()), det3(a.c0.y, a.c0.z, a.c0.w, a.c1.y,
            a.c1.z, a.c1.w, a.c3.y, a.c3.z, a.c3.w));
        S::lemma_mul(S::one_spec().over(a.determinant_spec()).times(det3(a.c0.y, a.c0.z, a.c0.w,
            a.c1.y, a.c1.z, a.c1.w, a.c3.y, a.c3.z, a.c3.w)), a.c0.x);
        lemma_det3_value(a.c0.x, a.c0.z, a.c0.w, a.c1.x, a.c1.z, a.c1.w, a.c3.x, a.c3.z, a.c3.w);
        S::lemma_neg(det3(a.c0.x, a.c0.z, a.c0.w, a.c1.x, a.c1.z, a.c1.w, a.c3.x, a.c3.z, a.c3.w));
        S::lemma_mul(S::one_spec().over(a.determinant_spec()), det3(a.c0.x, a.c0.z, a.c0.w, a.c1.x,
            a.c1.z, a.c1.w, a.c3.x, a.c3.z, a.c3.w).negated());
        S::lemma_mul(S::one_spec().over(a.determinant_spec()).times(det3(a.c0.x, a.c0.z, a.c0.w,
            a.c1.x, a.c1.z, a.c1.w, a.c3.x, a.c3.z, a.c3.w).negated()), a.c0.y);
        S::lemma_add(S::one_spec().over(a.determinant_spec()).times(det3(a.c0.y, a.c0.z, a.c0.w,
            a.c1.y, a.c1.z, a.c1.w, a.c3.y, a.c3.z, a.c3.w)).times(a.c0.x), S::one_spec()
            .over(a.determinant_spec()).times(det3(a.c0.x, a.c0.z, a.c0.w, a.c1.x, a.c1.z, a.c1.w,
            a.c3.x, a.c3.z, a.c3.w).negated()).times(a.c0.y));
        lemma_det3_value(a.c0.x, a.c0.y, a.c0.w, a.c1.x, a.c1.y, a.c1.w, a.c3.x, a.c3.y, a.c3.w);
        S::lemma_mul(S::one_spec().over(a.determinant_spec()), det3(a.c0.x, a.c0.y, a.c0.w, a.c1.x,
            a.c1.y, a.c1.w, a.c3.x, a.c3.y, a.c3.w));
        S::lemma_mul(S::one_spec().over(a.determinant_spec()).times(det3(a.c0.x, a.c0.y, a.c0.w,
            a.c1.x, a.c1.y, a.c1.w, a.c3.x, a.c3.y, a.c3.w)), a.c0.z);
        S::lemma_add(S::one_spec().over(a.determinant_spec()).times(det3(a.c0.y, a.c0.z, a.c0.w,
            a.c1.y, a.c1.z, a.c1.w, a.c3.y, a.c3.z, a.c3.w)).times(a.c0.x).plus(S::one_spec()
            .over(a.determinant_spec()).times(det3(a.c0.x, a.c0.z, a.c0.w, a.c1.x, a.c1.z, a.c1.w,
            a.c3.x, a.c3.z, a.c3.w).negated()).times(a.c0.y)), S::one_spec()
            .over(a.determinant_spec()).times(det3(a.c0.x, a.c0.y, a.c0.w, a.c1.x, a.c1.y, a.c1.w,
            a.c3.x, a.c3.y, a.c3.w)).times(a.c0.z));
        lemma_det3_value(a.c0.x, a.c0.y, a.c0.z, a.c1.x, a.c1.y, a.c1.z, a.c3.x, a.c3.y, a.c3.z);
        S::lemma_neg(det3(a.c0.x, a.c0.y, a.c0.z, a.c1.x, a.c1.y, a.c1.z, a.c3.x, a.c3.y, a.c3.z));
        S::lemma_mul(S::one_spec().over(a.determinant_spec()), det3(a.c0.x, a.c0.y, a.c0.z, a.c1.x,
            a.c1.y, a.c1.z, a.c3.x, a.c3.y, a.c3.z).negated());
        S::lemma_mul(S::one_spec().over(a.determinant_spec()).times(det3(a.c0.x, a.c0.y, a.c0.z,
            a.c1.x, a.c1.y, a.c1.z, a.c3.x, a.c3.y, a.c3.z).negated()), a.c0.w);
        S::lemma_add(S::one_spec().over(a.determinant_spec()).times(det3(a.c0.y, a.c0.z, a.c0.w,
            a.c1.y, a.c1.z, a.c1.w, a.c3.y, a.c3.z, a.c3.w)).times(a.c0.x).plus(S::one_spec()
            .over(a.determinant_spec()).times(det3(a.c0.x, a.c0.z, a.c0.w, a.c1.x, a.c1.z, a.c1.w,
            a.c3.x, a.c3.z, a.c3.w).negated()).times(a.c0.y)).plus(S::one_spec()
            .over(a.determinant_spec()).times(det3(a.c0.x, a.c0.y, a.c0.w, a.c1.x, a.c1.y, a.c1.w,
            a.c3.x, a.c3.y, a.c3.w)).times(a.c0.z)), S::one_spec()
            .over(a.determinant_spec()).times(det3(a.c0.x, a.c0.y, a.c0.z, a.c1.x, a.c1.y, a.c1.z,
            a.c3.x, a.c3.y, a.c3.z).negated()).times(a.c0.w));
        let m0 = a.c0.x.value();
        let t0 = det3_value(a.c0.y.value(), a.c0.z.value(), a.c0.w.value(), a.c1.y.value(),
            a.c1.z.value(), a.c1.w.value(), a.c3.y.value(), a.c3.z.value(), a.c3.w.value());
        let p0 = t0 * m0;
        assert((kv * t0) * m0 == kv * p0) by (nonlinear_arith)
            requires
                p0 == t0 * m0,
        ;
        let m1 = a.c0.y.value();
        let t1 = (-det3_value(a.c0.x.value(), a.c0.z.value(), a.c0.w.value(), a.c1.x.value(),
            a.c1.z.value(), a.c1.w.value(), a.c3.x.value(), a.c3.z.value(), a.c3.w.value()));
        let p1 = t1 * m1;
        assert((kv * t1) * m1 == kv * p1) by (nonlinear_arith)
            requires
                p1 == t1 * m1,
        ;
        let m2 = a.c0.z.value();
        let t2 = det3_value(a.c0.x.value(), a.c0.y.value(), a.c0.w.value(), a.c1.x.value(),
            a.c1.y.value(), a.c1.w.value(), a.c3.x.value(), a.c3.y.value(), a.c3.w.value());
        let p2 = t2 * m2;
        assert((kv * t2) * m2 == kv * p2) by (nonlinear_arith)
            requires
                p2 == t2 * m2,
        ;
        let m3 = a.c0.w.value();
        let t3 = (-det3_value(a.c0.x.value(), a.c0.y.value(), a.c0.z.value(), a.c1.x.value(),
            a.c1.y.value(), a.c1.z.value(), a.c3.x.value(), a.c3.y.value(), a.c3.z.value()));
        let p3 = t3 * m3;
        assert((kv * t3) * m3 == kv * p3) by (nonlinear_arith)
            requires
                p3 == t3 * m3,
        ;
        assert(kv * p0 + kv * p1 + kv * p2 + kv * p3 == kv * (p0 + p1 + p2
            + p3)) by (nonlinear_arith);
        lemma_det4_value_left_0_2(
            a.c0.x.value(), a.c0.y.value(), a.c0.z.value(), a.c0.w.value(), a.c1.x.value(),
                a.c1.y.value(), a.c1.z.value(), a.c1.w.value(), a.c2.x.value(), a.c2.y.value(),
                a.c2.z.value(), a.c2.w.value(), a.c3.x.value(), a.c3.y.value(), a.c3.z.value(),
                a.c3.w.value(),
        );
        assert(kv * (p0 + p1 + p2 + p3) == 0) by (nonlinear_arith)
            requires
                p0 + p1 + p2 + p3 == 0,
        ;
        S::lemma_value_injective(S::one_spec().over(a.determinant_spec()).times(det3(a.c0.y,
            a.c0.z, a.c0.w, a.c1.y, a.c1.z, a.c1.w, a.c3.y, a.c3.z, a.c3.w)).times(a.c0.x)
            .plus(S::one_spec().over(a.determinant_spec()).times(det3(a.c0.x, a.c0.z, a.c0.w,
            a.c1.x, a.c1.z, a.c1.w, a.c3.x, a.c3.z, a.c3.w).negated()).times(a.c0.y))
            .plus(S::one_spec().over(a.determinant_spec()).times(det3(a.c0.x, a.c0.y, a.c0.w,
            a.c1.x, a.c1.y, a.c1.w, a.c3.x, a.c3.y, a.c3.w)).times(a.c0.z))
            .plus(S::one_spec().over(a.determinant_spec()).times(det3(a.c0.x, a.c0.y, a.c0.z,
            a.c1.x, a.c1.y, a.c1.z, a.c3.x, a.c3.y, a.c3.z).negated()).times(a.c0.w)),
            S::zero_spec());
    }
    {
        lemma_det3_value(a.c0.y, a.c0.z, a.c0.w, a.c1.y, a.c1.z, a.c1.w, a.c2.y, a.c2.z, a.c2.w);
        S::lemma_neg(det3(a.c0.y, a.c0.z, a.c0.w, a.c1.y, a.c1.z, a.c1.w, a.c2.y, a.c2.z, a.c2.w));
        S::lemma_mul(S::one_spec().over(a.determinant_spec()), det3(a.c0.y, a.c0.z, a.c0.w, a.c1.y,
            a.c1.z, a.c1.w, a.c2.y, a.c2.z, a.c2.w).negated());
        S::lemma_mul(S::one_spec().over(a.determinant_spec()).times(det3(a.c0.y, a.c0.z, a.c0.w,
            a.c1.y, a.c1.z, a.c1.w, a.c2.y, a.c2.z, a.c2.w).negated()), a.c0.x);
        lemma_det3_value(a.c0.x, a.c0.z, a.c0.w, a.c1.x, a.c1.z, a.c1.w, a.c2.x, a.c2.z, a.c2.w);
        S::lemma_mul(S::one_spec().over(a.determinant_spec()), det3(a.c0.x, a.c0.z, a.c0.w, a.c1.x,
            a.c1.z, a.c1.w, a.c2.x, a.c2.z, a.c2.w));
        S::lemma_mul(S::one_spec().over(a.determinant_spec()).times(det3(a.c0.x, a.c0.z, a.c0.w,
            a.c1.x, a.c1.z, a.c1.w, a.c2.x, a.c2.z, a.c2.w)), a.c0.y);
        S::lemma_add(S::one_spec().over(a.determinant_spec()).times(det3(a.c0.y, a.c0.z, a.c0.w,
            a.c1.y, a.c1.z, a.c1.w, a.c2.y, a.c2.z, a.c2.w).negated()).times(a.c0.x),
            S::one_spec().over(a.determinant_spec()).times(det3(a.c0.x, a.c0.z, a.c0.w, a.c1.x,
            a.c1.z, a.c1.w, a.c2.x, a.c2.z, a.c2.w)).times(a.c0.y));
        lemma_det3_value(a.c0.x, a.c0.y, a.c0.w, a.c1.x, a.c1.y, a.c1.w, a.c2.x, a.c2.y, a.c2.w);
        S::lemma_neg(det3(a.c0.x, a.c0.y, a.c0.w, a.c1.x, a.c1.y, a.c1.w, a.c2.x, a.c2.y, a.c2.w));
        S::lemma_mul(S::one_spec().over(a.determinant_spec()), det3(a.c0.x, a.c0.y, a.c0.w, a.c1.x,
            a.c1.y, a.c1.w, a.c2.x, a.c2.y, a.c2.w).negated());
        S::lemma_mul(S::one_spec().over(a.determinant_spec()).times(det3(a.c0.x, a.c0.y, a.c0.w,
            a.c1.x, a.c1.y, a.c1.w, a.c2.x, a.c2.y, a.c2.w).negated()), a.c0.z);
        S::lemma_add(S::one_spec().over(a.determinant_spec()).times(det3(a.c0.y, a.c0.z, a.c0.w,
            a.c1.y, a.c1.z, a.c1.w, a.c2.y, a.c2.z, a.c2.w).negated()).times(a.c0.x)
            .plus(S::one_spec().over(a.determinant_spec()).times(det3(a.c0.x, a.c0.z, a.c0.w,
            a.c1.x, a.c1.z, a.c1.w, a.c2.x, a.c2.z, a.c2.w)).times(a.c0.y)), S::one_spec()
            .over(a.determinant_spec()).times(det3(a.c0.x, a.c0.y, a.c0.w, a.c1.x, a.c1.y, a.c1.w,
            a.c2.x, a.c2.y, a.c2.w).negated()).times(a.c0.z));
        lemma_det3_value(a.c0.x, a.c0.y, a.c0.z, a.c1.x, a.c1.y, a.c1.z, a.c2.x, a.c2.y, a.c2.z);
        S::lemma_mul(S::one_spec().over(a.determinant_spec()), det3(a.c0.x, a.c0.y, a.c0.z, a.c1.x,
            a.c1.y, a.c1.z, a.c2.x, a.c2.y, a.c2.z));
        S::lemma_mul(S::one_spec().over(a.determinant_spec()).times(det3(a.c0.x, a.c0.y, a.c0.z,
            a.c1.x, a.c1.y, a.c1.z, a.c2.x, a.c2.y, a.c2.z)), a.c0.w);
        S::lemma_add(S::one_spec().over(a.determinant_spec()).times(det3(a.c0.y, a.c0.z, a.c0.w,
            a.c1.y, a.c1.z, a.c1.w, a.c2.y, a.c2.z, a.c2.w).negated()).times(a.c0.x)
            .plus(S::one_spec().over(a.determinant_spec()).times(det3(a.c0.x, a.c0.z, a.c0.w,
            a.c1.x, a.c1.z, a.c1.w, a.c2.x, a.c2.z, a.c2.w)).times(a.c0.y))
            .plus(S::one_spec().over(a.determinant_spec()).times(det3(a.c0.x, a.c0.y, a.c0.w,
            a.c1.x, a.c1.y, a.c1.w, a.c2.x, a.c2.y, a.c2.w).negated()).times(a.c0.z)),
            S::one_spec().over(a.determinant_spec()).times(det3(a.c0.x, a.c0.y, a.c0.z, a.c1.x,
            a.c1.y, a.c1.z, a.c2.x, a.c2.y, a.c2.z)).times(a.c0.w));
        let m0 = a.c0.x.value();
        let t0 = (-det3_value(a.c0.y.value(), a.c0.z.value(), a.c0.w.value(), a.c1.y.value(),
            a.c1.z.value(), a.c1.w.value(), a.c2.y.value(), a.c2.z.value(), a.c2.w.value()));
        let p0 = t0 * m0;
        assert((kv * t0) * m0 == kv * p0) by (nonlinear_arith)
            requires
                p0 == t0 * m0,
        ;
        let m1 = a.c0.y.value();
        let t1 = det3_value(a.c0.x.value(), a.c0.z.value(), a.c0.w.value(), a.c1.x.value(),
            a.c1.z.value(), a.c1.w.value(), a.c2.x.value(), a.c2.z.value(), a.c2.w.value());
        let p1 = t1 * m1;
        assert((kv * t1) * m1 == kv * p1) by (nonlinear_arith)
            requires
                p1 == t1 * m1,
        ;
        let m2 = a.c0.z.value();
        let t2 = (-det3_value(a.c0.x.value(), a.c0.y.value(), a.c0.w.value(), a.c1.x.value(),
            a.c1.y.value(), a.c1.w.value(), a.c2.x.value(), a.c2.y.value(), a.c2.w.value()));
        let p2 = t2 * m2;
        assert((kv * t2) * m2 == kv * p2) by (nonlinear_arith)
            requires
                p2 == t2 * m2,
        ;
        let m3 = a.c0.w.value();
        let t3 = det3_value(a.c0.x.value(), a.c0.y.value(), a.c0.z.value(), a.c1.x.value(),
            a.c1.y.value(), a.c1.z.value(), a.c2.x.value(), a.c2.y.value(), a.c2.z.value());
        let p3 = t3 * m3;
        assert((kv * t3) * m3 == kv * p3) by (nonlinear_arith)
            requires
                p3 == t3 * m3,
        ;
        assert(kv * p0 + kv * p1 + kv * p2 + kv * p3 == kv * (p0 + p1 + p2
            + p3)) by (nonlinear_arith);
        lemma_det4_value_left_0_3(
            a.c0.x.value(), a.c0.y.value(), a.c0.z.value(), a.c0.w.value(), a.c1.x.value(),
                a.c1.y.value(), a.c1.z.value(), a.c1.w.value(), a.c2.x.value(), a.c2.y.value(),
                a.c2.z.value(), a.c2.w.value(), a.c3.x.value(), a.c3.y.value(), a.c3.z.value(),
                a.c3.w.value(),
        );
        assert(kv * (p0 + p1 + p2 + p3) == 0) by (nonlinear_arith)
            requires
                p0 + p1 + p2 + p3 == 0,
        ;
        S::lemma_value_injective(S::one_spec().over(a.determinant_spec()).times(det3(a.c0.y,
            a.c0.z, a.c0.w, a.c1.y, a.c1.z, a.c1.w, a.c2.y, a.c2.z, a.c2.w).negated())
            .times(a.c0.x).plus(S::one_spec().over(a.determinant_spec()).times(det3(a.c0.x, a.c0.z,
            a.c0.w, a.c1.x, a.c1.z, a.c1.w, a.c2.x, a.c2.z, a.c2.w)).times(a.c0.y))
            .plus(S::one_spec().over(a.determinant_spec()).times(det3(a.c0.x, a.c0.y, a.c0.w,
            a.c1.x, a.c1.y, a.c1.w, a.c2.x, a.c2.y, a.c2.w).negated()).times(a.c0.z))
            .plus(S::one_spec().over(a.determinant_spec()).times(det3(a.c0.x, a.c0.y, a.c0.z,
            a.c1.x, a.c1.y, a.c1.z, a.c2.x, a.c2.y, a.c2.z)).times(a.c0.w)), S::zero_spec());
    }
    {
        lemma_det3_value(a.c1.y, a.c1.z, a.c1.w, a.c2.y, a.c2.z, a.c2.w, a.c3.y, a.c3.z, a.c3.w);
        S::lemma_mul(S::one_spec().over(a.determinant_spec()), det3(a.c1.y, a.c1.z, a.c1.w, a.c2.y,
            a.c2.z, a.c2.w, a.c3.y, a.c3.z, a.c3.w));
        S::lemma_mul(S::one_spec().over(a.determinant_spec()).times(det3(a.c1.y, a.c1.z, a.c1.w,
            a.c2.y, a.c2.z, a.c2.w, a.c3.y, a.c3.z, a.c3.w)), a.c1.x);
        lemma_det3_value(a.c1.x, a.c1.z, a.c1.w, a.c2.x, a.c2.z, a.c2.w, a.c3.x, a.c3.z, a.c3.w);
        S::lemma_neg(det3(a.c1.x, a.c1.z, a.c1.w, a.c2.x, a.c2.z, a.c2.w, a.c3.x, a.c3.z, a.c3.w));
        S::lemma_mul(S::one_spec().over(a.determinant_spec()), det3(a.c1.x, a.c1.z, a.c1.w, a.c2.x,
            a.c2.z, a.c2.w, a.c3.x, a.c3.z, a.c3.w).negated());
        S::lemma_mul(S::one_spec().over(a.determinant_spec()).times(det3(a.c1.x, a.c1.z, a.c1.w,
            a.c2.x, a.c2.z, a.c2.w, a.c3.x, a.c3.z, a.c3.w).negated()), a.c1.y);
        S::lemma_add(S::one_spec().over(a.determinant_spec()).times(det3(a.c1.y, a.c1.z, a.c1.w,
            a.c2.y, a.c2.z, a.c2.w, a.c3.y, a.c3.z, a.c3.w)).times(a.c1.x), S::one_spec()
            .over(a.determinant_spec()).times(det3(a.c1.x, a.c1.z, a.c1.w, a.c2.x, a.c2.z, a.c2.w,
            a.c3.x, a.c3.z, a.c3.w).negated()).times(a.c1.y));
        lemma_det3_value(a.c1.x, a.c1.y, a.c1.w, a.c2.x, a.c2.y, a.c2.w, a.c3.x, a.c3.y, a.c3.w);
        S::lemma_mul(S::one_spec().over(a.determinant_spec()), det3(a.c1.x, a.c1.y, a.c1.w, a.c2.x,
            a.c2.y, a.c2.w, a.c3.x, a.c3.y, a.c3.w));
        S::lemma_mul(S::one_spec().over(a.determinant_spec()).times(det3(a.c1.x, a.c1.y, a.c1.w,
            a.c2.x, a.c2.y, a.c2.w, a.c3.x, a.c3.y, a.c3.w)), a.c1.z);
        S::lemma_add(S::one_spec().over(a.determinant_spec()).times(det3(a.c1.y, a.c1.z, a.c1.w,
            a.c2.y, a.c2.z, a.c2.w, a.c3.y, a.c3.z, a.c3.w)).times(a.c1.x).plus(S::one_spec()
            .over(a.determinant_spec()).times(det3(a.c1.x, a.c1.z, a.c1.w, a.c2.x, a.c2.z, a.c2.w,
            a.c3.x, a.c3.z, a.c3.w).negated()).times(a.c1.y)), S::one_spec()
            .over(a.determinant_spec()).times(det3(a.c1.x, a.c1.y, a.c1.w, a.c2.x, a.c2.y, a.c2.w,
            a.c3.x, a.c3.y, a.c3.w)).times(a.c1.z));
        lemma_det3_value(a.c1.x, a.c1.y, a.c1.z, a.c2.x, a.c2.y, a.c2.z, a.c3.x, a.c3.y, a.c3.z);
        S::lemma_neg(det3(a.c1.x, a.c1.y, a.c1.z, a.c2.x, a.c2.y, a.c2.z, a.c3.x, a.c3.y, a.c3.z));
        S::lemma_mul(S::one_spec().over(a.determinant_spec()), det3(a.c1.x, a.c1.y, a.c1.z, a.c2.x,
            a.c2.y, a.c2.z, a.c3.x, a.c3.y, a.c3.z).negated());
        S::lemma_mul(S::one_spec().over(a.determinant_spec()).times(det3(a.c1.x, a.c1.y, a.c1.z,
            a.c2.x, a.c2.y, a.c2.z, a.c3.x, a.c3.y, a.c3.z).negated()), a.c1.w);
        S::lemma_add(S::one_spec().over(a.determinant_spec()).times(det3(a.c1.y, a.c1.z, a.c1.w,
            a.c2.y, a.c2.z, a.c2.w, a.c3.y, a.c3.z, a.c3.w)).times(a.c1.x).plus(S::one_spec()
            .over(a.determinant_spec()).times(det3(a.c1.x, a.c1.z, a.c1.w, a.c2.x, a.c2.z, a.c2.w,
            a.c3.x, a.c3.z, a.c3.w).negated()).times(a.c1.y)).plus(S::one_spec()
            .over(a.determinant_spec()).times(det3(a.c1.x, a.c1.y, a.c1.w, a.c2.x, a.c2.y, a.c2.w,
            a.c3.x, a.c3.y, a.c3.w)).times(a.c1.z)), S::one_spec()
            .over(a.determinant_spec()).times(det3(a.c1.x, a.c1.y, a.c1.z, a.c2.x, a.c2.y, a.c2.z,
            a.c3.x, a.c3.y, a.c3.z).negated()).times(a.c1.w));
        let m0 = a.c1.x.value();
        let t0 = det3_value(a.c1.y.value(), a.c1.z.value(), a.c1.w.value(), a.c2.y.value(),
            a.c2.z.value(), a.c2.w.value(), a.c3.y.value(), a.c3.z.value(), a.c3.w.value());
        let p0 = t0 * m0;
        assert((kv * t0) * m0 == kv * p0) by (nonlinear_arith)
            requires
                p0 == t0 * m0,
        ;
        let m1 = a.c1.y.value();
        let t1 = (-det3_value(a.c1.x.value(), a.c1.z.value(), a.c1.w.value(), a.c2.x.value(),
            a.c2.z.value(), a.c2.w.value(), a.c3.x.value(), a.c3.z.value(), a.c3.w.value()));
        let p1 = t1 * m1;
        assert((kv * t1) * m1 == kv * p1) by (nonlinear_arith)
            requires
                p1 == t1 * m1,
        ;
        let m2 = a.c1.z.value();
        let t2 = det3_value(a.c1.x.value(), a.c1.y.value(), a.c1.w.value(), a.c2.x.value(),
            a.c2.y.value(), a.c2.w.value(), a.c3.x.value(), a.c3.y.value(), a.c3.w.value());
        let p2 = t2 * m2;
        assert((kv * t2) * m2 == kv * p2) by (nonlinear_arith)
            requires
                p2 == t2 * m2,
        ;
        let m3 = a.c1.w.value();
        let t3 = (-det3_value(a.c1.x.value(), a.c1.y.value(), a.c1.z.value(), a.c2.x.value(),
            a.c2.y.value(), a.c2.z.value(), a.c3.x.value(), a.c3.y.value(), a.c3.z.value()));
        let p3 = t3 * m3;
        assert((kv * t3) * m3 == kv * p3) by (nonlinear_arith)
            requires
                p3 == t3 * m3,
        ;
        assert(kv * p0 + kv * p1 + kv * p2 + kv * p3 == kv * (p0 + p1 + p2
            + p3)) by (nonlinear_arith);
        lemma_det4_value_left_1_0(
            a.c0.x.value(), a.c0.y.value(), a.c0.z.value(), a.c0.w.value(), a.c1.x.value(),
                a.c1.y.value(), a.c1.z.value(), a.c1.w.value(), a.c2.x.value(), a.c2.y.value(),
                a.c2.z.value(), a.c2.w.value(), a.c3.x.value(), a.c3.y.value(), a.c3.z.value(),
                a.c3.w.value(),
        );
        assert(kv * (p0 + p1 + p2 + p3) == 0) by (nonlinear_arith)
            requires
                p0 + p1 + p2 + p3 == 0,
        ;
        S::lemma_value_injective(S::one_spec().over(a.determinant_spec()).times(det3(a.c1.y,
            a.c1.z, a.c1.w, a.c2.y, a.c2.z, a.c2.w, a.c3.y, a.c3.z, a.c3.w)).times(a.c1.x)
            .plus(S::one_spec().over(a.determinant_spec()).times(det3(a.c1.x, a.c1.z, a.c1.w,
            a.c2.x, a.c2.z, a.c2.w, a.c3.x, a.c3.z, a.c3.w).negated()).times(a.c1.y))
            .plus(S::one_spec().over(a.determinant_spec()).times(det3(a.c1.x, a.c1.y, a.c1.w,
            a.c2.x, a.c2.y, a.c2.w, a.c3.x, a.c3.y, a.c3.w)).times(a.c1.z))
            .plus(S::one_spec().over(a.determinant_spec()).times(det3(a.c1.x, a.c1.y, a.c1.z,
            a.c2.x, a.c2.y, a.c2.z, a.c3.x, a.c3.y, a.c3.z).negated()).times(a.c1.w)),
            S::zero_spec());
    }
    {
        lemma_det3_value(a.c0.y, a.c0.z, a.c0.w, a.c2.y, a.c2.z, a.c2.w, a.c3.y, a.c3.z, a.c3.w);
        S::lemma_neg(det3(a.c0.y, a.c0.z, a.c0.w, a.c2.y, a.c2.z, a.c2.w, a.c3.y, a.c3.z, a.c3.w));
        S::lemma_mul(S::one_spec().over(a.determinant_spec()), det3(a.c0.y, a.c0.z, a.c0.w, a.c2.y,
            a.c2.z, a.c2.w, a.c3.y, a.c3.z, a.c3.w).negated());
        S::lemma_mul(S::one_spec().over(a.determinant_spec()).times(det3(a.c0.y, a.c0.z, a.c0.w,
            a.c2.y, a.c2.z, a.c2.w, a.c3.y, a.c3.z, a.c3.w).negated()), a.c1.x);
        lemma_det3_value(a.c0.x, a.c0.z, a.c0.w, a.c2.x, a.c2.z, a.c2.w, a.c3.x, a.c3.z, a.c3.w);
        S::lemma_mul(S::one_spec().over(a.determinant_spec()), det3(a.c0.x, a.c0.z, a.c0.w, a.c2.x,
            a.c2.z, a.c2.w, a.c3.x, a.c3.z, a.c3.w));
        S::lemma_mul(S::one_spec().over(a.determinant_spec()).times(det3(a.c0.x, a.c0.z, a.c0.w,
            a.c2.x, a.c2.z, a.c2.w, a.c3.x, a.c3.z, a.c3.w)), a.c1.y);
        S::lemma_add(S::one_spec().over(a.determinant_spec()).times(det3(a.c0.y, a.c0.z, a.c0.w,
            a.c2.y, a.c2.z, a.c2.w, a.c3.y, a.c3.z, a.c3.w).negated()).times(a.c1.x),
            S::one_spec().over(a.determinant_spec()).times(det3(a.c0.x, a.c0.z, a.c0.w, a.c2.x,
            a.c2.z, a.c2.w, a.c3.x, a.c3.z, a.c3.w)).times(a.c1.y));
        lemma_det3_value(a.c0.x, a.c0.y, a.c0.w, a.c2.x, a.c2.y, a.c2.w, a.c3.x, a.c3.y, a.c3.w);
        S::lemma_neg(det3(a.c0.x, a.c0.y, a.c0.w, a.c2.x, a.c2.y, a.c2.w, a.c3.x, a.c3.y, a.c3.w));
        S::lemma_mul(S::one_spec().over(a.determinant_spec()), det3(a.c0.x, a.c0.y, a.c0.w, a.c2.x,
            a.c2.y, a.c2.w, a.c3.x, a.c3.y, a.c3.w).negated());
        S::lemma_mul(S::one_spec().over(a.determinant_spec()).times(det3(a.c0.x, a.c0.y, a.c0.w,
            a.c2.x, a.c2.y, a.c2.w, a.c3.x, a.c3.y, a.c3.w).negated()), a.c1.z);
        S::lemma_add(S::one_spec().over(a.determinant_spec()).times(det3(a.c0.y, a.c0.z, a.c0.w,
            a.c2.y, a.c2.z, a.c2.w, a.c3.y, a.c3.z, a.c3.w).negated()).times(a.c1.x)
            .plus(S::one_spec().over(a.determinant_spec()).times(det3(a.c0.x, a.c0.z, a.c0.w,
            a.c2.x, a.c2.z, a.c2.w, a.c3.x, a.c3.z, a.c3.w)).times(a.c1.y)), S::one_spec()
            .over(a.determinant_spec()).times(det3(a.c0.x, a.c0.y, a.c0.w, a.c2.x, a.c2.y, a.c2.w,
            a.c3.x, a.c3.y, a.c3.w).negated()).times(a.c1.z));
        lemma_det3_value(a.c0.x, a.c0.y, a.c0.z, a.c2.x, a.c2.y, a.c2.z, a.c3.x, a.c3.y, a.c3.z);
        S::lemma_mul(S::one_spec().over(a.determinant_spec()), det3(a.c0.x, a.c0.y, a.c0.z, a.c2.x,
            a.c2.y, a.c2.z, a.c3.x, a.c3.y, a.c3.z));
        S::lemma_mul(S::one_spec().over(a.determinant_spec()).times(det3(a.c0.x, a.c0.y, a.c0.z,
            a.c2.x, a.c2.y, a.c2.z, a.c3.x, a.c3.y, a.c3.z)), a.c1.w);
        S::lemma_add(S::one_spec().over(a.determinant_spec()).times(det3(a.c0.y, a.c0.z, a.c0.w,
            a.c2.y, a.c2.z, a.c2.w, a.c3.y, a.c3.z, a.c3.w).negated()).times(a.c1.x)
            .plus(S::one_spec().over(a.determinant_spec()).times(det3(a.c0.x, a.c0.z, a.c0.w,
            a.c2.x, a.c2.z, a.c2.w, a.c3.x, a.c3.z, a.c3.w)).times(a.c1.y))
            .plus(S::one_spec().over(a.determinant_spec()).times(det3(a.c0.x, a.c0.y, a.c0.w,
            a.c2.x, a.c2.y, a.c2.w, a.c3.x, a.c3.y, a.c3.w).negated()).times(a.c1.z)),
            S::one_spec().over(a.determinant_spec()).times(det3(a.c0.x, a.c0.y, a.c0.z, a.c2.x,
            a.c2.y, a.c2.z, a.c3.x, a.c3.y, a.c3.z)).times(a.c1.w));
        let m0 = a.c1.x.value();
        let t0 = (-det3_value(a.c0.y.value(), a.c0.z.value(), a.c0.w.value(), a.c2.y.value(),
            a.c2.z.value(), a.c2.w.value(), a.c3.y.value(), a.c3.z.value(), a.c3.w.value()));
        let p0 = t0 * m0;
        assert((kv * t0) * m0 == kv * p0) by (nonlinear_arith)
            requires
                p0 == t0 * m0,
        ;
        let m1 = a.c1.y.value();
        let t1 = det3_value(a.c0.x.value(), a.c0.z.value(), a.c0.w.value(), a.c2.x.value(),
            a.c2.z.value(), a.c2.w.value(), a.c3.x.value(), a.c3.z.value(), a.c3.w.value());
        let p1 = t1 * m1;
        assert((kv * t1) * m1 == kv * p1) by (nonlinear_arith)
            requires
                p1 == t1 * m1,
        ;
        let m2 = a.c1.z.value();
        let t2 = (-det3_value(a.c0.x.value(), a.c0.y.value(), a.c0.w.value(), a.c2.x.value(),
            a.c2.y.value(), a.c2.w.value(), a.c3.x.value(), a.c3.y.value(), a.c3.w.value()));
        let p2 = t2 * m2;
        assert((kv * t2) * m2 == kv * p2) by (nonlinear_arith)
            requires
                p2 == t2 * m2,
        ;
        let m3 = a.c1.w.value();
        let t3 = det3_value(a.c0.x.value(), a.c0.y.value(), a.c0.z.value(), a.c2.x.value(),
            a.c2.y.value(), a.c2.z.value(), a.c3.x.value(), a.c3.y.value(), a.c3.z.value());
        let p3 = t3 * m3;
        assert((kv * t3) * m3 == kv * p3) by (nonlinear_arith)
            requires
                p3 == t3 * m3,
        ;
        assert(kv * p0 + kv * p1 + kv * p2 + kv * p3 == kv * (p0 + p1 + p2
            + p3)) by (nonlinear_arith);
        lemma_det4_value_left_1_1(
            a.c0.x.value(), a.c0.y.value(), a.c0.z.value(), a.c0.w.value(), a.c1.x.value(),
                a.c1.y.value(), a.c1.z.value(), a.c1.w.value(), a.c2.x.value(), a.c2.y.value(),
                a.c2.z.value(), a.c2.w.value(), a.c3.x.value(), a.c3.y.value(), a.c3.z.value(),
                a.c3.w.value(),
        );
        assert(kv * (p0 + p1 + p2 + p3) == 1);
        S::lemma_value_injective(S::one_spec().over(a.determinant_spec()).times(det3(a.c0.y,
            a.c0.z, a.c0.w, a.c2.y, a.c2.z, a.c2.w, a.c3.y, a.c3.z, a.c3.w).negated())
            .times(a.c1.x).plus(S::one_spec().over(a.determinant_spec()).times(det3(a.c0.x, a.c0.z,
            a.c0.w, a.c2.x, a.c2.z, a.c2.w, a.c3.x, a.c3.z, a.c3.w)).times(a.c1.y))
            .plus(S::one_spec().over(a.determinant_spec()).times(det3(a.c0.x, a.c0.y, a.c0.w,
            a.c2.x, a.c2.y, a.c2.w, a.c3.x, a.c3.y, a.c3.w).negated()).times(a.c1.z))
            .plus(S::one_spec().over(a.determinant_spec()).times(det3(a.c0.x, a.c0.y, a.c0.z,
            a.c2.x, a.c2.y, a.c2.z, a.c3.x, a.c3.y, a.c3.z)).times(a.c1.w)), S::one_spec());
    }
    {
        lemma_det3_value(a.c0.y, a.c0.z, a.c0.w, a.c1.y, a.c1.z, a.c1.w, a.c3.y, a.c3.z, a.c3.w);
        S::lemma_mul(S::one_spec().over(a.determinant_spec()), det3(a.c0.y, a.c0.z, a.c0.w, a.c1.y,
            a.c1.z, a.c1.w, a.c3.y, a.c3.z, a.c3.w));
        S::lemma_mul(S::one_spec().over(a.determinant_spec()).times(det3(a.c0.y, a.c0.z, a.c0.w,
            a.c1.y, a.c1.z, a.c1.w, a.c3.y, a.c3.z, a.c3.w)), a.c1.x);
        lemma_det3_value(a.c0.x, a.c0.z, a.c0.w, a.c1.x, a.c1.z, a.c1.w, a.c3.x, a.c3.z, a.c3.w);
        S::lemma_neg(det3(a.c0.x, a.c0.z, a.c0.w, a.c1.x, a.c1.z, a.c1.w, a.c3.x, a.c3.z, a.c3.w));
        S::lemma_mul(S::one_spec().over(a.determinant_spec()), det3(a.c0.x, a.c0.z, a.c0.w, a.c1.x,
            a.c1.z, a.c1.w, a.c3.x, a.c3.z, a.c3.w).negated());
        S::lemma_mul(S::one_spec().over(a.determinant_spec()).times(det3(a.c0.x, a.c0.z, a.c0.w,
            a.c1.x, a.c1.z, a.c1.w, a.c3.x, a.c3.z, a.c3.w).negated()), a.c1.y);
        S::lemma_add(S::one_spec().over(a.determinant_spec()).times(det3(a.c0.y, a.c0.z, a.c0.w,
            a.c1.y, a.c1.z, a.c1.w, a.c3.y, a.c3.z, a.c3.w)).times(a.c1.x), S::one_spec()
            .over(a.determinant_spec()).times(det3(a.c0.x, a.c0.z, a.c0.w, a.c1.x, a.c1.z, a.c1.w,
            a.c3.x, a.c3.z, a.c3.w).negated()).times(a.c1.y));
        lemma_det3_value(a.c0.x, a.c0.y, a.c0.w, a.c1.x, a.c1.y, a.c1.w, a.c3.x, a.c3.y, a.c3.w);
        S::lemma_mul(S::one_spec().over(a.determinant_spec()), det3(a.c0.x, a.c0.y, a.c0.w, a.c1.x,
            a.c1.y, a.c1.w, a.c3.x, a.c3.y, a.c3.w));
        S::lemma_mul(S::one_spec().over(a.determinant_spec()).times(det3(a.c0.x, a.c0.y, a.c0.w,
            a.c1.x, a.c1.y, a.c1.w, a.c3.x, a.c3.y, a.c3.w)), a.c1.z);
        S::lemma_add(S::one_spec().over(a.determinant_spec()).times(det3(a.c0.y, a.c0.z, a.c0.w,
            a.c1.y, a.c1.z, a.c1.w, a.c3.y, a.c3.z, a.c3.w)).times(a.c1.x).plus(S::one_spec()
            .over(a.determinant_spec()).times(det3(a.c0.x, a.c0.z, a.c0.w, a.c1.x, a.c1.z, a.c1.w,
            a.c3.x, a.c3.z, a.c3.w).negated()).times(a.c1.y)), S::one_spec()
            .over(a.determinant_spec()).times(det3(a.c0.x, a.c0.y, a.c0.w, a.c1.x, a.c1.y, a.c1.w,
            a.c3.x, a.c3.y, a.c3.w)).times(a.c1.z));
        lemma_det3_value(a.c0.x, a.c0.y, a.c0.z, a.c1.x, a.c1.y, a.c1.z, a.c3.x, a.c3.y, a.c3.z);
        S::lemma_neg(det3(a.c0.x, a.c0.y, a.c0.z, a.c1.x, a.c1.y, a.c1.z, a.c3.x, a.c3.y, a.c3.z));
        S::lemma_mul(S::one_spec().over(a.determinant_spec()), det3(a.c0.x, a.c0.y, a.c0.z, a.c1.x,
            a.c1.y, a.c1.z, a.c3.x, a.c3.y, a.c3.z).negated());
        S::lemma_mul(S::one_spec().over(a.determinant_spec()).times(det3(a.c0.x, a.c0.y, a.c0.z,
            a.c1.x, a.c1.y, a.c1.z, a.c3.x, a.c3.y, a.c3.z).negated()), a.c1.w);
        S::lemma_add(S::one_spec().over(a.determinant_spec()).times(det3(a.c0.y, a.c0.z, a.c0.w,
            a.c1.y, a.c1.z, a.c1.w, a.c3.y, a.c3.z, a.c3.w)).times(a.c1.x).plus(S::one_spec()
            .over(a.determinant_spec()).times(det3(a.c0.x, a.c0.z, a.c0.w, a.c1.x, a.c1.z, a.c1.w,
            a.c3.x, a.c3.z, a.c3.w).negated()).times(a.c1.y)).plus(S::one_spec()
            .over(a.determinant_spec()).times(det3(a.c0.x, a.c0.y, a.c0.w, a.c1.x, a.c1.y, a.c1.w,
            a.c3.x, a.c3.y, a.c3.w)).times(a.c1.z)), S::one_spec()
            .over(a.determinant_spec()).times(det3(a.c0.x, a.c0.y, a.c0.z, a.c1.x, a.c1.y, a.c1.z,
            a.c3.x, a.c3.y, a.c3.z).negated()).times(a.c1.w));
        let m0 = a.c1.x.value();
        let t0 = det3_value(a.c0.y.value(), a.c0.z.value(), a.c0.w.value(), a.c1.y.value(),
            a.c1.z.value(), a.c1.w.value(), a.c3.y.value(), a.c3.z.value(), a.c3.w.value());
        let p0 = t0 * m0;
        assert((kv * t0) * m0 == kv * p0) by (nonlinear_arith)
            requires
                p0 == t0 * m0,
        ;
        let m1 = a.c1.y.value();
        let t1 = (-det3_value(a.c0.x.value(), a.c0.z.value(), a.c0.w.value(), a.c1.x.value(),
            a.c1.z.value(), a.c1.w.value(), a.c3.x.value(), a.c3.z.value(), a.c3.w.value()));
        let p1 = t1 * m1;
        assert((kv * t1) * m1 == kv * p1) by (nonlinear_arith)
            requires
                p1 == t1 * m1,
        ;
        let m2 = a.c1.z.value();
        let t2 = det3_value(a.c0.x.value(), a.c0.y.value(), a.c0.w.value(), a.c1.x.value(),
            a.c1.y.value(), a.c1.w.value(), a.c3.x.value(), a.c3.y.value(), a.c3.w.value());
        let p2 = t2 * m2;
        assert((kv * t2) * m2 == kv * p2) by (nonlinear_arith)
            requires
                p2 == t2 * m2,
        ;
        let m3 = a.c1.w.value();
        let t3 = (-det3_value(a.c0.x.value(), a.c0.y.value(), a.c0.z.value(), a.c1.x.value(),
            a.c1.y.value(), a.c1.z.value(), a.c3.x.value(), a.c3.y.value(), a.c3.z.value()));
        let p3 = t3 * m3;
        assert((kv * t3) * m3 == kv * p3) by (nonlinear_arith)
            requires
                p3 == t3 * m3,
        ;
        assert(kv * p0 + kv * p1 + kv * p2 + kv * p3 == kv * (p0 + p1 + p2
            + p3)) by (nonlinear_arith);
        lemma_det4_value_left_1_2(
            a.c0.x.value(), a.c0.y.value(), a.c0.z.value(), a.c0.w.value(), a.c1.x.value(),
                a.c1.y.value(), a.c1.z.value(), a.c1.w.value(), a.c2.x.value(), a.c2.y.value(),
                a.c2.z.value(), a.c2.w.value(), a.c3.x.value(), a.c3.y.value(), a.c3.z.value(),
                a.c3.w.value(),
        );
        assert(kv * (p0 + p1 + p2 + p3) == 0) by (nonlinear_arith)
            requires
                p0 + p1 + p2 + p3 == 0,
        ;
        S::lemma_value_injective(S::one_spec().over(a.determinant_spec()).times(det3(a.c0.y,
            a.c0.z, a.c0.w, a.c1.y, a.c1.z, a.c1.w, a.c3.y, a.c3.z, a.c3.w)).times(a.c1.x)
            .plus(S::one_spec().over(a.determinant_spec()).times(det3(a.c0.x, a.c0.z, a.c0.w,
            a.c1.x, a.c1.z, a.c1.w, a.c3.x, a.c3.z, a.c3.w).negated()).times(a.c1.y))
            .plus(S::one_spec().over(a.determinant_spec()).times(det3(a.c0.x, a.c0.y, a.c0.w,
            a.c1.x, a.c1.y, a.c1.w, a.c3.x, a.c3.y, a.c3.w)).times(a.c1.z))
            .plus(S::one_spec().over(a.determinant_spec()).times(det3(a.c0.x, a.c0.y, a.c0.z,
            a.c1.x, a.c1.y, a.c1.z, a.c3.x, a.c3.y, a.c3.z).negated()).times(a.c1.w)),
            S::zero_spec());
    }
    {
        lemma_det3_value(a.c0.y, a.c0.z, a.c0.w, a.c1.y, a.c1.z, a.c1.w, a.c2.y, a.c2.z, a.c2.w);
        S::lemma_neg(det3(a.c0.y, a.c0.z, a.c0.w, a.c1.y, a.c1.z, a.c1.w, a.c2.y, a.c2.z, a.c2.w));
        S::lemma_mul(S::one_spec().over(a.determinant_spec()), det3(a.c0.y, a.c0.z, a.c0.w, a.c1.y,
            a.c1.z, a.c1.w, a.c2.y, a.c2.z, a.c2.w).negated());
        S::lemma_mul(S::one_spec().over(a.determinant_spec()).times(det3(a.c0.y, a.c0.z, a.c0.w,
            a.c1.y, a.c1.z, a.c1.w, a.c2.y, a.c2.z, a.c2.w).negated()), a.c1.x);
        lemma_det3_value(a.c0.x, a.c0.z, a.c0.w, a.c1.x, a.c1.z, a.c1.w, a.c2.x, a.c2.z, a.c2.w);
        S::lemma_mul(S::one_spec().over(a.determinant_spec()), det3(a.c0.x, a.c0.z, a.c0.w, a.c1.x,
            a.c1.z, a.c1.w, a.c2.x, a.c2.z, a.c2.w));
        S::lemma_mul(S::one_spec().over(a.determinant_spec()).times(det3(a.c0.x, a.c0.z, a.c0.w,
            a.c1.x, a.c1.z, a.c1.w, a.c2.x, a.c2.z, a.c2.w)), a.c1.y);
        S::lemma_add(S::one_spec().over(a.determinant_spec()).times(det3(a.c0.y, a.c0.z, a.c0.w,
            a.c1.y, a.c1.z, a.c1.w, a.c2.y, a.c2.z, a.c2.w).negated()).times(a.c1.x),
            S::one_spec().over(a.determinant_spec()).times(det3(a.c0.x, a.c0.z, a.c0.w, a.c1.x,
            a.c1.z, a.c1.w, a.c2.x, a.c2.z, a.c2.w)).times(a.c1.y));
        lemma_det3_value(a.c0.x, a.c0.y, a.c0.w, a.c1.x, a.c1.y, a.c1.w, a.c2.x, a.c2.y, a.c2.w);
        S::lemma_neg(det3(a.c0.x, a.c0.y, a.c0.w, a.c1.x, a.c1.y, a.c1.w, a.c2.x, a.c2.y, a.c2.w));
        S::lemma_mul(S::one_spec().over(a.determinant_spec()), det3(a.c0.x, a.c0.y, a.c0.w, a.c1.x,
            a.c1.y, a.c1.w, a.c2.x, a.c2.y, a.c2.w).negated());
        S::lemma_mul(S::one_spec().over(a.determinant_spec()).times(det3(a.c0.x, a.c0.y, a.c0.w,
            a.c1.x, a.c1.y, a.c1.w, a.c2.x, a.c2.y, a.c2.w).negated()), a.c1.z);
        S::lemma_add(S::one_spec().over(a.determinant_spec()).times(det3(a.c0.y, a.c0.z, a.c0.w,
            a.c1.y, a.c1.z, a.c1.w, a.c2.y, a.c2.z, a.c2.w).negated()).times(a.c1.x)
            .plus(S::one_spec().over(a.determinant_spec()).times(det3(a.c0.x, a.c0.z, a.c0.w,
            a.c1.x, a.c1.z, a.c1.w, a.c2.x, a.c2.z, a.c2.w)).times(a.c1.y)), S::one_spec()
            .over(a.determinant_spec()).times(det3(a.c0.x, a.c0.y, a.c0.w, a.c1.x, a.c1.y, a.c1.w,
            a.c2.x, a.c2.y, a.c2.w).negated()).times(a.c1.z));
        lemma_det3_value(a.c0.x, a.c0.y, a.c0.z, a.c1.x, a.c1.y, a.c1.z, a.c2.x, a.c2.y, a.c2.z);
        S::lemma_mul(S::one_spec().over(a.determinant_spec()), det3(a.c0.x, a.c0.y, a.c0.z, a.c1.x,
            a.c1.y, a.c1.z, a.c2.x, a.c2.y, a.c2.z));
        S::lemma_mul(S::one_spec().over(a.determinant_spec()).times(det3(a.c0.x, a.c0.y, a.c0.z,
            a.c1.x, a.c1.y, a.c1.z, a.c2.x, a.c2.y, a.c2.z)), a.c1.w);
        S::lemma_add(S::one_spec().over(a.determinant_spec()).times(det3(a.c0.y, a.c0.z, a.c0.w,
            a.c1.y, a.c1.z, a.c1.w, a.c2.y, a.c2.z, a.c2.w).negated()).times(a.c1.x)
            .plus(S::one_spec().over(a.determinant_spec()).times(det3(a.c0.x, a.c0.z, a.c0.w,
            a.c1.x, a.c1.z, a.c1.w, a.c2.x, a.c2.z, a.c2.w)).times(a.c1.y))
            .plus(S::one_spec().over(a.determinant_spec()).times(det3(a.c0.x, a.c0.y, a.c0.w,
            a.c1.x, a.c1.y, a.c1.w, a.c2.x, a.c2.y, a.c2.w).negated()).times(a.c1.z)),
            S::one_spec().over(a.determinant_spec()).times(det3(a.c0.x, a.c0.y, a.c0.z, a.c1.x,
            a.c1.y, a.c1.z, a.c2.x, a.c2.y, a.c2.z)).times(a.c1.w));
        let m0 = a.c1.x.value();
        let t0 = (-det3_value(a.c0.y.value(), a.c0.z.value(), a.c0.w.value(), a.c1.y.value(),
            a.c1.z.value(), a.c1.w.value(), a.c2.y.value(), a.c2.z.value(), a.c2.w.value()));
        let p0 = t0 * m0;
        assert((kv * t0) * m0 == kv * p0) by (nonlinear_arith)
            requires
                p0 == t0 * m0,
        ;
        let m1 = a.c1.y.value();
        let t1 = det3_value(a.c0.x.value(), a.c0.z.value(), a.c0.w.value(), a.c1.x.value(),
            a.c1.z.value(), a.c1.w.value(), a.c2.x.value(), a.c2.z.value(), a.c2.w.value());
        let p1 = t1 * m1;
        assert((kv * t1) * m1 == kv * p1) by (nonlinear_arith)
            requires
                p1 == t1 * m1,
        ;
        let m2 = a.c1.z.value();
        let t2 = (-det3_value(a.c0.x.value(), a.c0.y.value(), a.c0.w.value(), a.c1.x.value(),
            a.c1.y.value(), a.c1.w.value(), a.c2.x.value(), a.c2.y.value(), a.c2.w.value()));
        let p2 = t2 * m2;
        assert((kv * t2) * m2 == kv * p2) by (nonlinear_arith)
            requires
                p2 == t2 * m2,
        ;
        let m3 = a.c1.w.value();
        let t3 = det3_value(a.c0.x.value(), a.c0.y.value(), a.c0.z.value(), a.c1.x.value(),
            a.c1.y.value(), a.c1.z.value(), a.c2.x.value(), a.c2.y.value(), a.c2.z.value());
        let p3 = t3 * m3;
        assert((kv * t3) * m3 == kv * p3) by (nonlinear_arith)
            requires
                p3 == t3 * m3,
        ;
        assert(kv * p0 + kv * p1 + kv * p2 + kv * p3 == kv * (p0 + p1 + p2
            + p3)) by (nonlinear_arith);
        lemma_det4_value_left_1_3(
            a.c0.x.value(), a.c0.y.value(), a.c0.z.value(), a.c0.w.value(), a.c1.x.value(),
                a.c1.y.value(), a.c1.z.value(), a.c1.w.value(), a.c2.x.value(), a.c2.y.value(),
                a.c2.z.value(), a.c2.w.value(), a.c3.x.value(), a.c3.y.value(), a.c3.z.value(),
                a.c3.w.value(),
        );
        assert(kv * (p0 + p1 + p2 + p3) == 0) by (nonlinear_arith)
            requires
                p0 + p1 + p2 + p3 == 0,
        ;
        S::lemma_value_injective(S::one_spec().over(a.determinant_spec()).times(det3(a.c0.y,
            a.c0.z, a.c0.w, a.c1.y, a.c1.z, a.c1.w, a.c2.y, a.c2.z, a.c2.w).negated())
            .times(a.c1.x).plus(S::one_spec().over(a.determinant_spec()).times(det3(a.c0.x, a.c0.z,
            a.c0.w, a.c1.x, a.c1.z, a.c1.w, a.c2.x, a.c2.z, a.c2.w)).times(a.c1.y))
            .plus(S::one_spec().over(a.determinant_spec()).times(det3(a.c0.x, a.c0.y, a.c0.w,
            a.c1.x, a.c1.y, a.c1.w, a.c2.x, a.c2.y, a.c2.w).negated()).times(a.c1.z))
            .plus(S::one_spec().over(a.determinant_spec()).times(det3(a.c0.x, a.c0.y, a.c0.z,
            a.c1.x, a.c1.y, a.c1.z, a.c2.x, a.c2.y, a.c2.z)).times(a.c1.w)), S::zero_spec());
    }
    {
        lemma_det3_value(a.c1.y, a.c1.z, a.c1.w, a.c2.y, a.c2.z, a.c2.w, a.c3.y, a.c3.z, a.c3.w);
        S::lemma_mul(S::one_spec().over(a.determinant_spec()), det3(a.c1.y, a.c1.z, a.c1.w, a.c2.y,
            a.c2.z, a.c2.w, a.c3.y, a.c3.z, a.c3.w));
        S::lemma_mul(S::one_spec().over(a.determinant_spec()).times(det3(a.c1.y, a.c1.z, a.c1.w,
            a.c2.y, a.c2.z, a.c2.w, a.c3.y, a.c3.z, a.c3.w)), a.c2.x);
        lemma_det3_value(a.c1.x, a.c1.z, a.c1.w, a.c2.x, a.c2.z, a.c2.w, a.c3.x, a.c3.z, a.c3.w);
        S::lemma_neg(det3(a.c1.x, a.c1.z, a.c1.w, a.c2.x, a.c2.z, a.c2.w, a.c3.x, a.c3.z, a.c3.w));
        S::lemma_mul(S::one_spec().over(a.determinant_spec()), det3(a.c1.x, a.c1.z, a.c1.w, a.c2.x,
            a.c2.z, a.c2.w, a.c3.x, a.c3.z, a.c3.w).negated());
        S::lemma_mul(S::one_spec().over(a.determinant_spec()).times(det3(a.c1.x, a.c1.z, a.c1.w,
            a.c2.x, a.c2.z, a.c2.w, a.c3.x, a.c3.z, a.c3.w).negated()), a.c2.y);
        S::lemma_add(S::one_spec().over(a.determinant_spec()).times(det3(a.c1.y, a.c1.z, a.c1.w,
            a.c2.y, a.c2.z, a.c2.w, a.c3.y, a.c3.z, a.c3.w)).times(a.c2.x), S::one_spec()
            .over(a.determinant_spec()).times(det3(a.c1.x, a.c1.z, a.c1.w, a.c2.x, a.c2.z, a.c2.w,
            a.c3.x, a.c3.z, a.c3.w).negated()).times(a.c2.y));
        lemma_det3_value(a.c1.x, a.c1.y, a.c1.w, a.c2.x, a.c2.y, a.c2.w, a.c3.x, a.c3.y, a.c3.w);
        S::lemma_mul(S::one_spec().over(a.determinant_spec()), det3(a.c1.x, a.c1.y, a.c1.w, a.c2.x,
            a.c2.y, a.c2.w, a.c3.x, a.c3.y, a.c3.w));
        S::lemma_mul(S::one_spec().over(a.determinant_spec()).times(det3(a.c1.x, a.c1.y, a.c1.w,
            a.c2.x, a.c2.y, a.c2.w, a.c3.x, a.c3.y, a.c3.w)), a.c2.z);
        S::lemma_add(S::one_spec().over(a.determinant_spec()).times(det3(a.c1.y, a.c1.z, a.c1.w,
            a.c2.y, a.c2.z, a.c2.w, a.c3.y, a.c3.z, a.c3.w)).times(a.c2.x).plus(S::one_spec()
            .over(a.determinant_spec()).times(det3(a.c1.x, a.c1.z, a.c1.w, a.c2.x, a.c2.z, a.c2.w,
            a.c3.x, a.c3.z, a.c3.w).negated()).times(a.c2.y)), S::one_spec()
            .over(a.determinant_spec()).times(det3(a.c1.x, a.c1.y, a.c1.w, a.c2.x, a.c2.y, a.c2.w,
            a.c3.x, a.c3.y, a.c3.w)).times(a.c2.z));
        lemma_det3_value(a.c1.x, a.c1.y, a.c1.z, a.c2.x, a.c2.y, a.c2.z, a.c3.x, a.c3.y, a.c3.z);
        S::lemma_neg(det3(a.c1.x, a.c1.y, a.c1.z, a.c2.x, a.c2.y, a.c2.z, a.c3.x, a.c3.y, a.c3.z));
        S::lemma_mul(S::one_spec().over(a.determinant_spec()), det3(a.c1.x, a.c1.y, a.c1.z, a.c2.x,
            a.c2.y, a.c2.z, a.c3.x, a.c3.y, a.c3.z).negated());
        S::lemma_mul(S::one_spec().over(a.determinant_spec()).times(det3(a.c1.x, a.c1.y, a.c1.z,
            a.c2.x, a.c2.y, a.c2.z, a.c3.x, a.c3.y, a.c3.z).negated()), a.c2.w);
        S::lemma_add(S::one_spec().over(a.determinant_spec()).times(det3(a.c1.y, a.c1.z, a.c1.w,
            a.c2.y, a.c2.z, a.c2.w, a.c3.y, a.c3.z, a.c3.w)).times(a.c2.x).plus(S::one_spec()
            .over(a.determinant_spec()).times(det3(a.c1.x, a.c1.z, a.c1.w, a.c2.x, a.c2.z, a.c2.w,
            a.c3.x, a.c3.z, a.c3.w).negated()).times(a.c2.y)).plus(S::one_spec()
            .over(a.determinant_spec()).times(det3(a.c1.x, a.c1.y, a.c1.w, a.c2.x, a.c2.y, a.c2.w,
            a.c3.x, a.c3.y, a.c3.w)).times(a.c2.z)), S::one_spec()
            .over(a.determinant_spec()).times(det3(a.c1.x, a.c1.y, a.c1.z, a.c2.x, a.c2.y, a.c2.z,
            a.c3.x, a.c3.y, a.c3.z).negated()).times(a.c2.w));
        let m0 = a.c2.x.value();
        let t0 = det3_value(a.c1.y.value(), a.c1.z.value(), a.c1.w.value(), a.c2.y.value(),
            a.c2.z.value(), a.c2.w.value(), a.c3.y.value(), a.c3.z.value(), a.c3.w.value());
        let p0 = t0 * m0;
        assert((kv * t0) * m0 == kv * p0) by (nonlinear_arith)
            requires
                p0 == t0 * m0,
        ;
        let m1 = a.c2.y.value();
        let t1 = (-det3_value(a.c1.x.value(), a.c1.z.value(), a.c1.w.value(), a.c2.x.value(),
            a.c2.z.value(), a.c2.w.value(), a.c3.x.value(), a.c3.z.value(), a.c3.w.value()));
        let p1 = t1 * m1;
        assert((kv * t1) * m1 == kv * p1) by (nonlinear_arith)
            requires
                p1 == t1 * m1,
        ;
        let m2 = a.c2.z.value();
        let t2 = det3_value(a.c1.x.value(), a.c1.y.value(), a.c1.w.value(), a.c2.x.value(),
            a.c2.y.value(), a.c2.w.value(), a.c3.x.value(), a.c3.y.value(), a.c3.w.value());
        let p2 = t2 * m2;
        assert((kv * t2) * m2 == kv * p2) by (nonlinear_arith)
            requires
                p2 == t2 * m2,
        ;
        let m3 = a.c2.w.value();
        let t3 = (-det3_value(a.c1.x.value(), a.c1.y.value(), a.c1.z.value(), a.c2.x.value(),
            a.c2.y.value(), a.c2.z.value(), a.c3.x.value(), a.c3.y.value(), a.c3.z.value()));
        let p3 = t3 * m3;
        assert((kv * t3) * m3 == kv * p3) by (nonlinear_arith)
            requires
                p3 == t3 * m3,
        ;
        assert(kv * p0 + kv * p1 + kv * p2 + kv * p3 == kv * (p0 + p1 + p2
            + p3)) by (nonlinear_arith);
        lemma_det4_value_left_2_0(
            a.c0.x.value(), a.c0.y.value(), a.c0.z.value(), a.c0.w.value(), a.c1.x.value(),
                a.c1.y.value(), a.c1.z.value(), a.c1.w.value(), a.c2.x.value(), a.c2.y.value(),
                a.c2.z.value(), a.c2.w.value(), a.c3.x.value(), a.c3.y.value(), a.c3.z.value(),
                a.c3.w.value(),
        );
        assert(kv * (p0 + p1 + p2 + p3) == 0) by (nonlinear_arith)
            requires
                p0 + p1 + p2 + p3 == 0,
        ;
        S::lemma_value_injective(S::one_spec().over(a.determinant_spec()).times(det3(a.c1.y,
            a.c1.z, a.c1.w, a.c2.y, a.c2.z, a.c2.w, a.c3.y, a.c3.z, a.c3.w)).times(a.c2.x)
            .plus(S::one_spec().over(a.determinant_spec()).times(det3(a.c1.x, a.c1.z, a.c1.w,
            a.c2.x, a.c2.z, a.c2.w, a.c3.x, a.c3.z, a.c3.w).negated()).times(a.c2.y))
            .plus(S::one_spec().over(a.determinant_spec()).times(det3(a.c1.x, a.c1.y, a.c1.w,
            a.c2.x, a.c2.y, a.c2.w, a.c3.x, a.c3.y, a.c3.w)).times(a.c2.z))
            .plus(S::one_spec().over(a.determinant_spec()).times(det3(a.c1.x, a.c1.y, a.c1.z,
            a.c2.x, a.c2.y, a.c2.z, a.c3.x, a.c3.y, a.c3.z).negated()).times(a.c2.w)),
            S::zero_spec());
    }
    {
        lemma_det3_value(a.c0.y, a.c0.z, a.c0.w, a.c2.y, a.c2.z, a.c2.w, a.c3.y, a.c3.z, a.c3.w);
        S::lemma_neg(det3(a.c0.y, a.c0.z, a.c0.w, a.c2.y, a.c2.z, a.c2.w, a.c3.y, a.c3.z, a.c3.w));
        S::lemma_mul(S::one_spec().over(a.determinant_spec()), det3(a.c0.y, a.c0.z, a.c0.w, a.c2.y,
            a.c2.z, a.c2.w, a.c3.y, a.c3.z, a.c3.w).negated());
        S::lemma_mul(S::one_spec().over(a.determinant_spec()).times(det3(a.c0.y, a.c0.z, a.c0.w,
            a.c2.y, a.c2.z, a.c2.w, a.c3.y, a.c3.z, a.c3.w).negated()), a.c2.x);
        lemma_det3_value(a.c0.x, a.c0.z, a.c0.w, a.c2.x, a.c2.z, a.c2.w, a.c3.x, a.c3.z, a.c3.w);
        S::lemma_mul(S::one_spec().over(a.determinant_spec()), det3(a.c0.x, a.c0.z, a.c0.w, a.c2.x,
            a.c2.z, a.c2.w, a.c3.x, a.c3.z, a.c3.w));
        S::lemma_mul(S::one_spec().over(a.determinant_spec()).times(det3(a.c0.x, a.c0.z, a.c0.w,
            a.c2.x, a.c2.z, a.c2.w, a.c3.x, a.c3.z, a.c3.w)), a.c2.y);
        S::lemma_add(S::one_spec().over(a.determinant_spec()).times(det3(a.c0.y, a.c0.z, a.c0.w,
            a.c2.y, a.c2.z, a.c2.w, a.c3.y, a.c3.z, a.c3.w).negated()).times(a.c2.x),
            S::one_spec().over(a.determinant_spec()).times(det3(a.c0.x, a.c0.z, a.c0.w, a.c2.x,
            a.c2.z, a.c2.w, a.c3.x, a.c3.z, a.c3.w)).times(a.c2.y));
        lemma_det3_value(a.c0.x, a.c0.y, a.c0.w, a.c2.x, a.c2.y, a.c2.w, a.c3.x, a.c3.y, a.c3.w);
        S::lemma_neg(det3(a.c0.x, a.c0.y, a.c0.w, a.c2.x, a.c2.y, a.c2.w, a.c3.x, a.c3.y, a.c3.w));
        S::lemma_mul(S::one_spec().over(a.determinant_spec()), det3(a.c0.x, a.c0.y, a.c0.w, a.c2.x,
            a.c2.y, a.c2.w, a.c3.x, a.c3.y, a.c3.w).negated());
        S::lemma_mul(S::one_spec().over(a.determinant_spec()).times(det3(a.c0.x, a.c0.y, a.c0.w,
            a.c2.x, a.c2.y, a.c2.w, a.c3.x, a.c3.y, a.c3.w).negated()), a.c2.z);
        S::lemma_add(S::one_spec().over(a.determinant_spec()).times(det3(a.c0.y, a.c0.z, a.c0.w,
            a.c2.y, a.c2.z, a.c2.w, a.c3.y, a.c3.z, a.c3.w).negated()).times(a.c2.x)
            .plus(S::one_spec().over(a.determinant_spec()).times(det3(a.c0.x, a.c0.z, a.c0.w,
            a.c2.x, a.c2.z, a.c2.w, a.c3.x, a.c3.z, a.c3.w)).times(a.c2.y)), S::one_spec()
            .over(a.determinant_spec()).times(det3(a.c0.x, a.c0.y, a.c0.w, a.c2.x, a.c2.y, a.c2.w,
            a.c3.x, a.c3.y, a.c3.w).negated()).times(a.c2.z));
        lemma_det3_value(a.c0.x, a.c0.y, a.c0.z, a.c2.x, a.c2.y, a.c2.z, a.c3.x, a.c3.y, a.c3.z);
        S::lemma_mul(S::one_spec().over(a.determinant_spec()), det3(a.c0.x, a.c0.y, a.c0.z, a.c2.x,
            a.c2.y, a.c2.z, a.c3.x, a.c3.y, a.c3.z));
        S::lemma_mul(S::one_spec().over(a.determinant_spec()).times(det3(a.c0.x, a.c0.y, a.c0.z,
            a.c2.x, a.c2.y, a.c2.z, a.c3.x, a.c3.y, a.c3.z)), a.c2.w);
        S::lemma_add(S::one_spec().over(a.determinant_spec()).times(det3(a.c0.y, a.c0.z, a.c0.w,
            a.c2.y, a.c2.z, a.c2.w, a.c3.y, a.c3.z, a.c3.w).negated()).times(a.c2.x)
            .plus(S::one_spec().over(a.determinant_spec()).times(det3(a.c0.x, a.c0.z, a.c0.w,
            a.c2.x, a.c2.z, a.c2.w, a.c3.x, a.c3.z, a.c3.w)).times(a.c2.y))
            .plus(S::one_spec().over(a.determinant_spec()).times(det3(a.c0.x, a.c0.y, a.c0.w,
            a.c2.x, a.c2.y, a.c2.w, a.c3.x, a.c3.y, a.c3.w).negated()).times(a.c2.z)),
            S::one_spec().over(a.determinant_spec()).times(det3(a.c0.x, a.c0.y, a.c0.z, a.c2.x,
            a.c2.y, a.c2.z, a.c3.x, a.c3.y, a.c3.z)).times(a.c2.w));
        let m0 = a.c2.x.value();
        let t0 = (-det3_value(a.c0.y.value(), a.c0.z.value(), a.c0.w.value(), a.c2.y.value(),
            a.c2.z.value(), a.c2.w.value(), a.c3.y.value(), a.c3.z.value(), a.c3.w.value()));
        let p0 = t0 * m0;
        assert((kv * t0) * m0 == kv * p0) by (nonlinear_arith)
            requires
                p0 == t0 * m0,
        ;
        let m1 = a.c2.y.value();
        let t1 = det3_value(a.c0.x.value(), a.c0.z.value(), a.c0.w.value(), a.c2.x.value(),
            a.c2.z.value(), a.c2.w.value(), a.c3.x.value(), a.c3.z.value(), a.c3.w.value());
        let p1 = t1 * m1;
        assert((kv * t1) * m1 == kv * p1) by (nonlinear_arith)
            requires
                p1 == t1 * m1,
        ;
        let m2 = a.c2.z.value();
        let t2 = (-det3_value(a.c0.x.value(), a.c0.y.value(), a.c0.w.value(), a.c2.x.value(),
            a.c2.y.value(), a.c2.w.value(), a.c3.x.value(), a.c3.y.value(), a.c3.w.value()));
        let p2 = t2 * m2;
        assert((kv * t2) * m2 == kv * p2) by (nonlinear_arith)
            requires
                p2 == t2 * m2,
        ;
        let m3 = a.c2.w.value();
        let t3 = det3_value(a.c0.x.value(), a.c0.y.value(), a.c0.z.value(), a.c2.x.value(),
            a.c2.y.value(), a.c2.z.value(), a.c3.x.value(), a.c3.y.value(), a.c3.z.value());
        let p3 = t3 * m3;
        assert((kv * t3) * m3 == kv * p3) by (nonlinear_arith)
            requires
                p3 == t3 * m3,
        ;
        assert(kv * p0 + kv * p1 + kv * p2 + kv * p3 == kv * (p0 + p1 + p2
            + p3)) by (nonlinear_arith);
        lemma_det4_value_left_2_1(
            a.c0.x.value(), a.c0.y.value(), a.c0.z.value(), a.c0.w.value(), a.c1.x.value(),
                a.c1.y.value(), a.c1.z.value(), a.c1.w.value(), a.c2.x.value(), a.c2.y.value(),
                a.c2.z.value(), a.c2.w.value(), a.c3.x.value(), a.c3.y.value(), a.c3.z.value(),
                a.c3.w.value(),
        );
        assert(kv * (p0 + p1 + p2 + p3) == 0) by (nonlinear_arith)
            requires
                p0 + p1 + p2 + p3 == 0,
        ;
        S::lemma_value_injective(S::one_spec().over(a.determinant_spec()).times(det3(a.c0.y,
            a.c0.z, a.c0.w, a.c2.y, a.c2.z, a.c2.w, a.c3.y, a.c3.z, a.c3.w).negated())
            .times(a.c2.x).plus(S::one_spec().over(a.determinant_spec()).times(det3(a.c0.x, a.c0.z,
            a.c0.w, a.c2.x, a.c2.z, a.c2.w, a.c3.x, a.c3.z, a.c3.w)).times(a.c2.y))
            .plus(S::one_spec().over(a.determinant_spec()).times(det3(a.c0.x, a.c0.y, a.c0.w,
            a.c2.x, a.c2.y, a.c2.w, a.c3.x, a.c3.y, a.c3.w).negated()).times(a.c2.z))
            .plus(S::one_spec().over(a.determinant_spec()).times(det3(a.c0.x, a.c0.y, a.c0.z,
            a.c2.x, a.c2.y, a.c2.z, a.c3.x, a.c3.y, a.c3.z)).times(a.c2.w)), S::zero_spec());
    }
    {
        lemma_det3_value(a.c0.y, a.c0.z, a.c0.w, a.c1.y, a.c1.z, a.c1.w, a.c3.y, a.c3.z, a.c3.w);
        S::lemma_mul(S::one_spec().over(a.determinant_spec()), det3(a.c0.y, a.c0.z, a.c0.w, a.c1.y,
            a.c1.z, a.c1.w, a.c3.y, a.c3.z, a.c3.w));
        S::lemma_mul(S::one_spec().over(a.determinant_spec()).times(det3(a.c0.y, a.c0.z, a.c0.w,
            a.c1.y, a.c1.z, a.c1.w, a.c3.y, a.c3.z, a.c3.w)), a.c2.x);
        lemma_det3_value(a.c0.x, a.c0.z, a.c0.w, a.c1.x, a.c1.z, a.c1.w, a.c3.x, a.c3.z, a.c3.w);
        S::lemma_neg(det3(a.c0.x, a.c0.z, a.c0.w, a.c1.x, a.c1.z, a.c1.w, a.c3.x, a.c3.z, a.c3.w));
        S::lemma_mul(S::one_spec().over(a.determinant_spec()), det3(a.c0.x, a.c0.z, a.c0.w, a.c1.x,
            a.c1.z, a.c1.w, a.c3.x, a.c3.z, a.c3.w).negated());
        S::lemma_mul(S::one_spec().over(a.determinant_spec()).times(det3(a.c0.x, a.c0.z, a.c0.w,
            a.c1.x, a.c1.z, a.c1.w, a.c3.x, a.c3.z, a.c3.w).negated()), a.c2.y);
        S::lemma_add(S::one_spec().over(a.determinant_spec()).times(det3(a.c0.y, a.c0.z, a.c0.w,
            a.c1.y, a.c1.z, a.c1.w, a.c3.y, a.c3.z, a.c3.w)).times(a.c2.x), S::one_spec()
            .over(a.determinant_spec()).times(det3(a.c0.x, a.c0.z, a.c0.w, a.c1.x, a.c1.z, a.c1.w,
            a.c3.x, a.c3.z, a.c3.w).negated()).times(a.c2.y));
        lemma_det3_value(a.c0.x, a.c0.y, a.c0.w, a.c1.x, a.c1.y, a.c1.w, a.c3.x, a.c3.y, a.c3.w);
        S::lemma_mul(S::one_spec().over(a.determinant_spec()), det3(a.c0.x, a.c0.y, a.c0.w, a.c1.x,
            a.c1.y, a.c1.w, a.c3.x, a.c3.y, a.c3.w));
        S::lemma_mul(S::one_spec().over(a.determinant_spec()).times(det3(a.c0.x, a.c0.y, a.c0.w,
            a.c1.x, a.c1.y, a.c1.w, a.c3.x, a.c3.y, a.c3.w)), a.c2.z);
        S::lemma_add(S::one_spec().over(a.determinant_spec()).times(det3(a.c0.y, a.c0.z, a.c0.w,
            a.c1.y, a.c1.z, a.c1.w, a.c3.y, a.c3.z, a.c3.w)).times(a.c2.x).plus(S::one_spec()
            .over(a.determinant_spec()).times(det3(a.c0.x, a.c0.z, a.c0.w, a.c1.x, a.c1.z, a.c1.w,
            a.c3.x, a.c3.z, a.c3.w).negated()).times(a.c2.y)), S::one_spec()
            .over(a.determinant_spec()).times(det3(a.c0.x, a.c0.y, a.c0.w, a.c1.x, a.c1.y, a.c1.w,
            a.c3.x, a.c3.y, a.c3.w)).times(a.c2.z));
        lemma_det3_value(a.c0.x, a.c0.y, a.c0.z, a.c1.x, a.c1.y, a.c1.z, a.c3.x, a.c3.y, a.c3.z);
        S::lemma_neg(det3(a.c0.x, a.c0.y, a.c0.z, a.c1.x, a.c1.y, a.c1.z, a.c3.x, a.c3.y, a.c3.z));
        S::lemma_mul(S::one_spec().over(a.determinant_spec()), det3(a.c0.x, a.c0.y, a.c0.z, a.c1.x,
            a.c1.y, a.c1.z, a.c3.x, a.c3.y, a.c3.z).negated());
        S::lemma_mul(S::one_spec().over(a.determinant_spec()).times(det3(a.c0.x, a.c0.y, a.c0.z,
            a.c1.x, a.c1.y, a.c1.z, a.c3.x, a.c3.y, a.c3.z).negated()), a.c2.w);
        S::lemma_add(S::one_spec().over(a.determinant_spec()).times(det3(a.c0.y, a.c0.z, a.c0.w,
            a.c1.y, a.c1.z, a.c1.w, a.c3.y, a.c3.z, a.c3.w)).times(a.c2.x).plus(S::one_spec()
            .over(a.determinant_spec()).times(det3(a.c0.x, a.c0.z, a.c0.w, a.c1.x, a.c1.z, a.c1.w,
            a.c3.x, a.c3.z, a.c3.w).negated()).times(a.c2.y)).plus(S::one_spec()
            .over(a.determinant_spec()).times(det3(a.c0.x, a.c0.y, a.c0.w, a.c1.x, a.c1.y, a.c1.w,
            a.c3.x, a.c3.y, a.c3.w)).times(a.c2.z)), S::one_spec()
            .over(a.determinant_spec()).times(det3(a.c0.x, a.c0.y, a.c0.z, a.c1.x, a.c1.y, a.c1.z,
            a.c3.x, a.c3.y, a.c3.z).negated()).times(a.c2.w));
        let m0 = a.c2.x.value();
        let t0 = det3_value(a.c0.y.value(), a.c0.z.value(), a.c0.w.value(), a.c1.y.value(),
            a.c1.z.value(), a.c1.w.value(), a.c3.y.value(), a.c3.z.value(), a.c3.w.value());
        let p0 = t0 * m0;
        assert((kv * t0) * m0 == kv * p0) by (nonlinear_arith)
            requires
                p0 == t0 * m0,
        ;
        let m1 = a.c2.y.value();
        let t1 = (-det3_value(a.c0.x.value(), a.c0.z.value(), a.c0.w.value(), a.c1.x.value(),
            a.c1.z.value(), a.c1.w.value(), a.c3.x.value(), a.c3.z.value(), a.c3.w.value()));
        let p1 = t1 * m1;
        assert((kv * t1) * m1 == kv * p1) by (nonlinear_arith)
            requires
                p1 == t1 * m1,
        ;
        let m2 = a.c2.z.value();
        let t2 = det3_value(a.c0.x.value(), a.c0.y.value(), a.c0.w.value(), a.c1.x.value(),
            a.c1.y.value(), a.c1.w.value(), a.c3.x.value(), a.c3.y.value(), a.c3.w.value());
        let p2 = t2 * m2;
        assert((kv * t2) * m2 == kv * p2) by (nonlinear_arith)
            requires
                p2 == t2 * m2,
        ;
        let m3 = a.c2.w.value();
        let t3 = (-det3_value(a.c0.x.value(), a.c0.y.value(), a.c0.z.value(), a.c1.x.value(),
            a.c1.y.value(), a.c1.z.value(), a.c3.x.value(), a.c3.y.value(), a.c3.z.value()));
        let p3 = t3 * m3;
        assert((kv * t3) * m3 == kv * p3) by (nonlinear_arith)
            requires
                p3 == t3 * m3,
        ;
        assert(kv * p0 + kv * p1 + kv * p2 + kv * p3 == kv * (p0 + p1 + p2
            + p3)) by (nonlinear_arith);
        lemma_det4_value_left_2_2(
            a.c0.x.value(), a.c0.y.value(), a.c0.z.value(), a.c0.w.value(), a.c1.x.value(),
                a.c1.y.value(), a.c1.z.value(), a.c1.w.value(), a.c2.x.value(), a.c2.y.value(),
                a.c2.z.value(), a.c2.w.value(), a.c3.x.value(), a.c3.y.value(), a.c3.z.value(),
                a.c3.w.value(),
        );
        assert(kv * (p0 + p1 + p2 + p3) == 1);
        S::lemma_value_injective(S::one_spec().over(a.determinant_spec()).times(det3(a.c0.y,
            a.c0.z, a.c0.w, a.c1.y, a.c1.z, a.c1.w, a.c3.y, a.c3.z, a.c3.w)).times(a.c2.x)
            .plus(S::one_spec().over(a.determinant_spec()).times(det3(a.c0.x, a.c0.z, a.c0.w,
            a.c1.x, a.c1.z, a.c1.w, a.c3.x, a.c3.z, a.c3.w).negated()).times(a.c2.y))
            .plus(S::one_spec().over(a.determinant_spec()).times(det3(a.c0.x, a.c0.y, a.c0.w,
            a.c1.x, a.c1.y, a.c1.w, a.c3.x, a.c3.y, a.c3.w)).times(a.c2.z))
            .plus(S::one_spec().over(a.determinant_spec()).times(det3(a.c0.x, a.c0.y, a.c0.z,
            a.c1.x, a.c1.y, a.c1.z, a.c3.x, a.c3.y, a.c3.z).negated()).times(a.c2.w)),
            S::one_spec());
    }
    {
        lemma_det3_value(a.c0.y, a.c0.z, a.c0.w, a.c1.y, a.c1.z, a.c1.w, a.c2.y, a.c2.z, a.c2.w);
        S::lemma_neg(det3(a.c0.y, a.c0.z, a.c0.w, a.c1.y, a.c1.z, a.c1.w, a.c2.y, a.c2.z, a.c2.w));
        S::lemma_mul(S::one_spec().over(a.determinant_spec()), det3(a.c0.y, a.c0.z, a.c0.w, a.c1.y,
            a.c1.z, a.c1.w, a.c2.y, a.c2.z, a.c2.w).negated());
        S::lemma_mul(S::one_spec().over(a.determinant_spec()).times(det3(a.c0.y, a.c0.z, a.c0.w,
            a.c1.y, a.c1.z, a.c1.w, a.c2.y, a.c2.z, a.c2.w).negated()), a.c2.x);
        lemma_det3_value(a.c0.x, a.c0.z, a.c0.w, a.c1.x, a.c1.z, a.c1.w, a.c2.x, a.c2.z, a.c2.w);
        S::lemma_mul(S::one_spec().over(a.determinant_spec()), det3(a.c0.x, a.c0.z, a.c0.w, a.c1.x,
            a.c1.z, a.c1.w, a.c2.x, a.c2.z, a.c2.w));
        S::lemma_mul(S::one_spec().over(a.determinant_spec()).times(det3(a.c0.x, a.c0.z, a.c0.w,
            a.c1.x, a.c1.z, a.c1.w, a.c2.x, a.c2.z, a.c2.w)), a.c2.y);
        S::lemma_add(S::one_spec().over(a.determinant_spec()).times(det3(a.c0.y, a.c0.z, a.c0.w,
            a.c1.y, a.c1.z, a.c1.w, a.c2.y, a.c2.z, a.c2.w).negated()).times(a.c2.x),
            S::one_spec().over(a.determinant_spec()).times(det3(a.c0.x, a.c0.z, a.c0.w, a.c1.x,
            a.c1.z, a.c1.w, a.c2.x, a.c2.z, a.c2.w)).times(a.c2.y));
        lemma_det3_value(a.c0.x, a.c0.y, a.c0.w, a.c1.x, a.c1.y, a.c1.w, a.c2.x, a.c2.y, a.c2.w);
        S::lemma_neg(det3(a.c0.x, a.c0.y, a.c0.w, a.c1.x, a.c1.y, a.c1.w, a.c2.x, a.c2.y, a.c2.w));
        S::lemma_mul(S::one_spec().over(a.determinant_spec()), det3(a.c0.x, a.c0.y, a.c0.w, a.c1.x,
            a.c1.y, a.c1.w, a.c2.x, a.c2.y, a.c2.w).negated());
        S::lemma_mul(S::one_spec().over(a.determinant_spec()).times(det3(a.c0.x, a.c0.y, a.c0.w,
            a.c1.x, a.c1.y, a.c1.w, a.c2.x, a.c2.y, a.c2.w).negated()), a.c2.z);
        S::lemma_add(S::one_spec().over(a.determinant_spec()).times(det3(a.c0.y, a.c0.z, a.c0.w,
            a.c1.y, a.c1.z, a.c1.w, a.c2.y, a.c2.z, a.c2.w).negated()).times(a.c2.x)
            .plus(S::one_spec().over(a.determinant_spec()).times(det3(a.c0.x, a.c0.z, a.c0.w,
            a.c1.x, a.c1.z, a.c1.w, a.c2.x, a.c2.z, a.c2.w)).times(a.c2.y)), S::one_spec()
            .over(a.determinant_spec()).times(det3(a.c0.x, a.c0.y, a.c0.w, a.c1.x, a.c1.y, a.c1.w,
            a.c2.x, a.c2.y, a.c2.w).negated()).times(a.c2.z));
        lemma_det3_value(a.c0.x, a.c0.y, a.c0.z, a.c1.x, a.c1.y, a.c1.z, a.c2.x, a.c2.y, a.c2.z);
        S::lemma_mul(S::one_spec().over(a.determinant_spec()), det3(a.c0.x, a.c0.y, a.c0.z, a.c1.x,
            a.c1.y, a.c1.z, a.c2.x, a.c2.y, a.c2.z));
        S::lemma_mul(S::one_spec().over(a.determinant_spec()).times(det3(a.c0.x, a.c0.y, a.c0.z,
            a.c1.x, a.c1.y, a.c1.z, a.c2.x, a.c2.y, a.c2.z)), a.c2.w);
        S::lemma_add(S::one_spec().over(a.determinant_spec()).times(det3(a.c0.y, a.c0.z, a.c0.w,
            a.c1.y, a.c1.z, a.c1.w, a.c2.y, a.c2.z, a.c2.w).negated()).times(a.c2.x)
            .plus(S::one_spec().over(a.determinant_spec()).times(det3(a.c0.x, a.c0.z, a.c0.w,
            a.c1.x, a.c1.z, a.c1.w, a.c2.x, a.c2.z, a.c2.w)).times(a.c2.y))
            .plus(S::one_spec().over(a.determinant_spec()).times(det3(a.c0.x, a.c0.y, a.c0.w,
            a.c1.x, a.c1.y, a.c1.w, a.c2.x, a.c2.y, a.c2.w).negated()).times(a.c2.z)),
            S::one_spec().over(a.determinant_spec()).times(det3(a.c0.x, a.c0.y, a.c0.z, a.c1.x,
            a.c1.y, a.c1.z, a.c2.x, a.c2.y, a.c2.z)).times(a.c2.w));
        let m0 = a.c2.x.value();
        let t0 = (-det3_value(a.c0.y.value(), a.c0.z.value(), a.c0.w.value(), a.c1.y.value(),
            a.c1.z.value(), a.c1.w.value(), a.c2.y.value(), a.c2.z.value(), a.c2.w.value()));
        let p0 = t0 * m0;
        assert((kv * t0) * m0 == kv * p0) by (nonlinear_arith)
            requires
                p0 == t0 * m0,
        ;
        let m1 = a.c2.y.value();
        let t1 = det3_value(a.c0.x.value(), a.c0.z.value(), a.c0.w.value(), a.c1.x.value(),
            a.c1.z.value(), a.c1.w.value(), a.c2.x.value(), a.c2.z.value(), a.c2.w.value());
        let p1 = t1 * m1;
        assert((kv * t1) * m1 == kv * p1) by (nonlinear_arith)
            requires
                p1 == t1 * m1,
        ;
        let m2 = a.c2.z.value();
        let t2 = (-det3_value(a.c0.x.value(), a.c0.y.value(), a.c0.w.value(), a.c1.x.value(),
            a.c1.y.value(), a.c1.w.value(), a.c2.x.value(), a.c2.y.value(), a.c2.w.value()));
        let p2 = t2 * m2;
        assert((kv * t2) * m2 == kv * p2) by (nonlinear_arith)
            requires
                p2 == t2 * m2,
        ;
        let m3 = a.c2.w.value();
        let t3 = det3_value(a.c0.x.value(), a.c0.y.value(), a.c0.z.value(), a.c1.x.value(),
            a.c1.y.value(), a.c1.z.value(), a.c2.x.value(), a.c2.y.value(), a.c2.z.value());
        let p3 = t3 * m3;
        assert((kv * t3) * m3 == kv * p3) by (nonlinear_arith)
            requires
                p3 == t3 * m3,
        ;
        assert(kv * p0 + kv * p1 + kv * p2 + kv * p3 == kv * (p0 + p1 + p2
            + p3)) by (nonlinear_arith);
        lemma_det4_value_left_2_3(
            a.c0.x.value(), a.c0.y.value(), a.c0.z.value(), a.c0.w.value(), a.c1.x.value(),
                a.c1.y.value(), a.c1.z.value(), a.c1.w.value(), a.c2.x.value(), a.c2.y.value(),
                a.c2.z.value(), a.c2.w.value(), a.c3.x.value(), a.c3.y.value(), a.c3.z.value(),
                a.c3.w.value(),
        );
        assert(kv * (p0 + p1 + p2 + p3) == 0) by (nonlinear_arith)
            requires
                p0 + p1 + p2 + p3 == 0,
        ;
        S::lemma_value_injective(S::one_spec().over(a.determinant_spec()).times(det3(a.c0.y,
            a.c0.z, a.c0.w, a.c1.y, a.c1.z, a.c1.w, a.c2.y, a.c2.z, a.c2.w).negated())
            .times(a.c2.x).plus(S::one_spec().over(a.determinant_spec()).times(det3(a.c0.x, a.c0.z,
            a.c0.w, a.c1.x, a.c1.z, a.c1.w, a.c2.x, a.c2.z, a.c2.w)).times(a.c2.y))
            .plus(S::one_spec().over(a.determinant_spec()).times(det3(a.c0.x, a.c0.y, a.c0.w,
            a.c1.x, a.c1.y, a.c1.w, a.c2.x, a.c2.y, a.c2.w).negated()).times(a.c2.z))
            .plus(S::one_spec().over(a.determinant_spec()).times(det3(a.c0.x, a.c0.y, a.c0.z,
            a.c1.x, a.c1.y, a.c1.z, a.c2.x, a.c2.y, a.c2.z)).times(a.c2.w)), S::zero_spec());
    }
    {
        lemma_det3_value(a.c1.y, a.c1.z, a.c1.w, a.c2.y, a.c2.z, a.c2.w, a.c3.y, a.c3.z, a.c3.w);
        S::lemma_mul(S::one_spec().over(a.determinant_spec()), det3(a.c1.y, a.c1.z, a.c1.w, a.c2.y,
            a.c2.z, a.c2.w, a.c3.y, a.c3.z, a.c3.w));
        S::lemma_mul(S::one_spec().over(a.determinant_spec()).times(det3(a.c1.y, a.c1.z, a.c1.w,
            a.c2.y, a.c2.z, a.c2.w, a.c3.y, a.c3.z, a.c3.w)), a.c3.x);
        lemma_det3_value(a.c1.x, a.c1.z, a.c1.w, a.c2.x, a.c2.z, a.c2.w, a.c3.x, a.c3.z, a.c3.w);
        S::lemma_neg(det3(a.c1.x, a.c1.z, a.c1.w, a.c2.x, a.c2.z, a.c2.w, a.c3.x, a.c3.z, a.c3.w));
        S::lemma_mul(S::one_spec().over(a.determinant_spec()), det3(a.c1.x, a.c1.z, a.c1.w, a.c2.x,
            a.c2.z, a.c2.w, a.c3.x, a.c3.z, a.c3.w).negated());
        S::lemma_mul(S::one_spec().over(a.determinant_spec()).times(det3(a.c1.x, a.c1.z, a.c1.w,
            a.c2.x, a.c2.z, a.c2.w, a.c3.x, a.c3.z, a.c3.w).negated()), a.c3.y);
        S::lemma_add(S::one_spec().over(a.determinant_spec()).times(det3(a.c1.y, a.c1.z, a.c1.w,
            a.c2.y, a.c2.z, a.c2.w, a.c3.y, a.c3.z, a.c3.w)).times(a.c3.x), S::one_spec()
            .over(a.determinant_spec()).times(det3(a.c1.x, a.c1.z, a.c1.w, a.c2.x, a.c2.z, a.c2.w,
            a.c3.x, a.c3.z, a.c3.w).negated()).times(a.c3.y));
        lemma_det3_value(a.c1.x, a.c1.y, a.c1.w, a.c2.x, a.c2.y, a.c2.w, a.c3.x, a.c3.y, a.c3.w);
        S::lemma_mul(S::one_spec().over(a.determinant_spec()), det3(a.c1.x, a.c1.y, a.c1.w, a.c2.x,
            a.c2.y, a.c2.w, a.c3.x, a.c3.y, a.c3.w));
        S::lemma_mul(S::one_spec().over(a.determinant_spec()).times(det3(a.c1.x, a.c1.y, a.c1.w,
            a.c2.x, a.c2.y, a.c2.w, a.c3.x, a.c3.y, a.c3.w)), a.c3.z);
        S::lemma_add(S::one_spec().over(a.determinant_spec()).times(det3(a.c1.y, a.c1.z, a.c1.w,
            a.c2.y, a.c2.z, a.c2.w, a.c3.y, a.c3.z, a.c3.w)).times(a.c3.x).plus(S::one_spec()
            .over(a.determinant_spec()).times(det3(a.c1.x, a.c1.z, a.c1.w, a.c2.x, a.c2.z, a.c2.w,
            a.c3.x, a.c3.z, a.c3.w).negated()).times(a.c3.y)), S::one_spec()
            .over(a.determinant_spec()).times(det3(a.c1.x, a.c1.y, a.c1.w, a.c2.x, a.c2.y, a.c2.w,
            a.c3.x, a.c3.y, a.c3.w)).times(a.c3.z));
        lemma_det3_value(a.c1.x, a.c1.y, a.c1.z, a.c2.x, a.c2.y, a.c2.z, a.c3.x, a.c3.y, a.c3.z);
        S::lemma_neg(det3(a.c1.x, a.c1.y, a.c1.z, a.c2.x, a.c2.y, a.c2.z, a.c3.x, a.c3.y, a.c3.z));
        S::lemma_mul(S::one_spec().over(a.determinant_spec()), det3(a.c1.x, a.c1.y, a.c1.z, a.c2.x,
            a.c2.y, a.c2.z, a.c3.x, a.c3.y, a.c3.z).negated());
        S::lemma_mul(S::one_spec().over(a.determinant_spec()).times(det3(a.c1.x, a.c1.y, a.c1.z,
            a.c2.x, a.c2.y, a.c2.z, a.c3.x, a.c3.y, a.c3.z).negated()), a.c3.w);
        S::lemma_add(S::one_spec().over(a.determinant_spec()).times(det3(a.c1.y, a.c1.z, a.c1.w,
            a.c2.y, a.c2.z, a.c2.w, a.c3.y, a.c3.z, a.c3.w)).times(a.c3.x).plus(S::one_spec()
            .over(a.determinant_spec()).times(det3(a.c1.x, a.c1.z, a.c1.w, a.c2.x, a.c2.z, a.c2.w,
            a.c3.x, a.c3.z, a.c3.w).negated()).times(a.c3.y)).plus(S::one_spec()
            .over(a.determinant_spec()).times(det3(a.c1.x, a.c1.y, a.c1.w, a.c2.x, a.c2.y, a.c2.w,
            a.c3.x, a.c3.y, a.c3.w)).times(a.c3.z)), S::one_spec()
            .over(a.determinant_spec()).times(det3(a.c1.x, a.c1.y, a.c1.z, a.c2.x, a.c2.y, a.c2.z,
            a.c3.x, a.c3.y, a.c3.z).negated()).times(a.c3.w));
        let m0 = a.c3.x.value();
        let t0 = det3_value(a.c1.y.value(), a.c1.z.value(), a.c1.w.value(), a.c2.y.value(),
            a.c2.z.value(), a.c2.w.value(), a.c3.y.value(), a.c3.z.value(), a.c3.w.value());
        let p0 = t0 * m0;
        assert((kv * t0) * m0 == kv * p0) by (nonlinear_arith)
            requires
                p0 == t0 * m0,
        ;
        let m1 = a.c3.y.value();
        let t1 = (-det3_value(a.c1.x.value(), a.c1.z.value(), a.c1.w.value(), a.c2.x.value(),
            a.c2.z.value(), a.c2.w.value(), a.c3.x.value(), a.c3.z.value(), a.c3.w.value()));
        let p1 = t1 * m1;
        assert((kv * t1) * m1 == kv * p1) by (nonlinear_arith)
            requires
                p1 == t1 * m1,
        ;
        let m2 = a.c3.z.value();
        let t2 = det3_value(a.c1.x.value(), a.c1.y.value(), a.c1.w.value(), a.c2.x.value(),
            a.c2.y.value(), a.c2.w.value(), a.c3.x.value(), a.c3.y.value(), a.c3.w.value());
        let p2 = t2 * m2;
        assert((kv * t2) * m2 == kv * p2) by (nonlinear_arith)
            requires
                p2 == t2 * m2,
        ;
        let m3 = a.c3.w.value();
        let t3 = (-det3_value(a.c1.x.value(), a.c1.y.value(), a.c1.z.value(), a.c2.x.value(),
            a.c2.y.value(), a.c2.z.value(), a.c3.x.value(), a.c3.y.value(), a.c3.z.value()));
        let p3 = t3 * m3;
        assert((kv * t3) * m3 == kv * p3) by (nonlinear_arith)
            requires
                p3 == t3 * m3,
        ;
        assert(kv * p0 + kv * p1 + kv * p2 + kv * p3 == kv * (p0 + p1 + p2
            + p3)) by (nonlinear_arith);
        lemma_det4_value_left_3_0(
            a.c0.x.value(), a.c0.y.value(), a.c0.z.value(), a.c0.w.value(), a.c1.x.value(),
                a.c1.y.value(), a.c1.z.value(), a.c1.w.value(), a.c2.x.value(), a.c2.y.value(),
                a.c2.z.value(), a.c2.w.value(), a.c3.x.value(), a.c3.y.value(), a.c3.z.value(),
                a.c3.w.value(),
        );
        assert(kv * (p0 + p1 + p2 + p3) == 0) by (nonlinear_arith)
            requires
                p0 + p1 + p2 + p3 == 0,
        ;
        S::lemma_value_injective(S::one_spec().over(a.determinant_spec()).times(det3(a.c1.y,
            a.c1.z, a.c1.w, a.c2.y, a.c2.z, a.c2.w, a.c3.y, a.c3.z, a.c3.w)).times(a.c3.x)
            .plus(S::one_spec().over(a.determinant_spec()).times(det3(a.c1.x, a.c1.z, a.c1.w,
            a.c2.x, a.c2.z, a.c2.w, a.c3.x, a.c3.z, a.c3.w).negated()).times(a.c3.y))
            .plus(S::one_spec().over(a.determinant_spec()).times(det3(a.c1.x, a.c1.y, a.c1.w,
            a.c2.x, a.c2.y, a.c2.w, a.c3.x, a.c3.y, a.c3.w)).times(a.c3.z))
            .plus(S::one_spec().over(a.determinant_spec()).times(det3(a.c1.x, a.c1.y, a.c1.z,
            a.c2.x, a.c2.y, a.c2.z, a.c3.x, a.c3.y, a.c3.z).negated()).times(a.c3.w)),
            S::zero_spec());
    }
    {
        lemma_det3_value(a.c0.y, a.c0.z, a.c0.w, a.c2.y, a.c2.z, a.c2.w, a.c3.y, a.c3.z, a.c3.w);
        S::lemma_neg(det3(a.c0.y, a.c0.z, a.c0.w, a.c2.y, a.c2.z, a.c2.w, a.c3.y, a.c3.z, a.c3.w));
        S::lemma_mul(S::one_spec().over(a.determinant_spec()), det3(a.c0.y, a.c0.z, a.c0.w, a.c2.y,
            a.c2.z, a.c2.w, a.c3.y, a.c3.z, a.c3.w).negated());
        S::lemma_mul(S::one_spec().over(a.determinant_spec()).times(det3(a.c0.y, a.c0.z, a.c0.w,
            a.c2.y, a.c2.z, a.c2.w, a.c3.y, a.c3.z, a.c3.w).negated()), a.c3.x);
        lemma_det3_value(a.c0.x, a.c0.z, a.c0.w, a.c2.x, a.c2.z, a.c2.w, a.c3.x, a.c3.z, a.c3.w);
        S::lemma_mul(S::one_spec().over(a.determinant_spec()), det3(a.c0.x, a.c0.z, a.c0.w, a.c2.x,
            a.c2.z, a.c2.w, a.c3.x, a.c3.z, a.c3.w));
        S::lemma_mul(S::one_spec().over(a.determinant_spec()).times(det3(a.c0.x, a.c0.z, a.c0.w,
            a.c2.x, a.c2.z, a.c2.w, a.c3.x, a.c3.z, a.c3.w)), a.c3.y);
        S::lemma_add(S::one_spec().over(a.determinant_spec()).times(det3(a.c0.y, a.c0.z, a.c0.w,
            a.c2.y, a.c2.z, a.c2.w, a.c3.y, a.c3.z, a.c3.w).negated()).times(a.c3.x),
            S::one_spec().over(a.determinant_spec()).times(det3(a.c0.x, a.c0.z, a.c0.w, a.c2.x,
            a.c2.z, a.c2.w, a.c3.x, a.c3.z, a.c3.w)).times(a.c3.y));
        lemma_det3_value(a.c0.x, a.c0.y, a.c0.w, a.c2.x, a.c2.y, a.c2.w, a.c3.x, a.c3.y, a.c3.w);
        S::lemma_neg(det3(a.c0.x, a.c0.y, a.c0.w, a.c2.x, a.c2.y, a.c2.w, a.c3.x, a.c3.y, a.c3.w));
        S::lemma_mul(S::one_spec().over(a.determinant_spec()), det3(a.c0.x, a.c0.y, a.c0.w, a.c2.x,
            a.c2.y, a.c2.w, a.c3.x, a.c3.y, a.c3.w).negated());
        S::lemma_mul(S::one_spec().over(a.determinant_spec()).times(det3(a.c0.x, a.c0.y, a.c0.w,
            a.c2.x, a.c2.y, a.c2.w, a.c3.x, a.c3.y, a.c3.w).negated()), a.c3.z);
        S::lemma_add(S::one_spec().over(a.determinant_spec()).times(det3(a.c0.y, a.c0.z, a.c0.w,
            a.c2.y, a.c2.z, a.c2.w, a.c3.y, a.c3.z, a.c3.w).negated()).times(a.c3.x)
            .plus(S::one_spec().over(a.determinant_spec()).times(det3(a.c0.x, a.c0.z, a.c0.w,
            a.c2.x, a.c2.z, a.c2.w, a.c3.x, a.c3.z, a.c3.w)).times(a.c3.y)), S::one_spec()
            .over(a.determinant_spec()).times(det3(a.c0.x, a.c0.y, a.c0.w, a.c2.x, a.c2.y, a.c2.w,
            a.c3.x, a.c3.y, a.c3.w).negated()).times(a.c3.z));
        lemma_det3_value(a.c0.x, a.c0.y, a.c0.z, a.c2.x, a.c2.y, a.c2.z, a.c3.x, a.c3.y, a.c3.z);
        S::lemma_mul(S::one_spec().over(a.determinant_spec()), det3(a.c0.x, a.c0.y, a.c0.z, a.c2.x,
            a.c2.y, a.c2.z, a.c3.x, a.c3.y, a.c3.z));
        S::lemma_mul(S::one_spec().over(a.determinant_spec()).times(det3(a.c0.x, a.c0.y, a.c0.z,
            a.c2.x, a.c2.y, a.c2.z, a.c3.x, a.c3.y, a.c3.z)), a.c3.w);
        S::lemma_add(S::one_spec().over(a.determinant_spec()).times(det3(a.c0.y, a.c0.z, a.c0.w,
            a.c2.y, a.c2.z, a.c2.w, a.c3.y, a.c3.z, a.c3.w).negated()).times(a.c3.x)
            .plus(S::one_spec().over(a.determinant_spec()).times(det3(a.c0.x, a.c0.z, a.c0.w,
            a.c2.x, a.c2.z, a.c2.w, a.c3.x, a.c3.z, a.c3.w)).times(a.c3.y))
            .plus(S::one_spec().over(a.determinant_spec()).times(det3(a.c0.x, a.c0.y, a.c0.w,
            a.c2.x, a.c2.y, a.c2.w, a.c3.x, a.c3.y, a.c3.w).negated()).times(a.c3.z)),
            S::one_spec().over(a.determinant_spec()).times(det3(a.c0.x, a.c0.y, a.c0.z, a.c2.x,
            a.c2.y, a.c2.z, a.c3.x, a.c3.y, a.c3.z)).times(a.c3.w));
        let m0 = a.c3.x.value();
        let t0 = (-det3_value(a.c0.y.value(), a.c0.z.value(), a.c0.w.value(), a.c2.y.value(),
            a.c2.z.value(), a.c2.w.value(), a.c3.y.value(), a.c3.z.value(), a.c3.w.value()));
        let p0 = t0 * m0;
        assert((kv * t0) * m0 == kv * p0) by (nonlinear_arith)
            requires
                p0 == t0 * m0,
        ;
        let m1 = a.c3.y.value();
        let t1 = det3_value(a.c0.x.value(), a.c0.z.value(), a.c0.w.value(), a.c2.x.value(),
            a.c2.z.value(), a.c2.w.value(), a.c3.x.value(), a.c3.z.value(), a.c3.w.value());
        let p1 = t1 * m1;
        assert((kv * t1) * m1 == kv * p1) by (nonlinear_arith)
            requires
                p1 == t1 * m1,
        ;
        let m2 = a.c3.z.value();
        let t2 = (-det3_value(a.c0.x.value(), a.c0.y.value(), a.c0.w.value(), a.c2.x.value(),
            a.c2.y.value(), a.c2.w.value(), a.c3.x.value(), a.c3.y.value(), a.c3.w.value()));
        let p2 = t2 * m2;
        assert((kv * t2) * m2 == kv * p2) by (nonlinear_arith)
            requires
                p2 == t2 * m2,
        ;
        let m3 = a.c3.w.value();
        let t3 = det3_value(a.c0.x.value(), a.c0.y.value(), a.c0.z.value(), a.c2.x.value(),
            a.c2.y.value(), a.c2.z.value(), a.c3.x.value(), a.c3.y.value(), a.c3.z.value());
        let p3 = t3 * m3;
        assert((kv * t3) * m3 == kv * p3) by (nonlinear_arith)
            requires
                p3 == t3 * m3,
        ;
        assert(kv * p0 + kv * p1 + kv * p2 + kv * p3 == kv * (p0 + p1 + p2
            + p3)) by (nonlinear_arith);
        lemma_det4_value_left_3_1(
            a.c0.x.value(), a.c0.y.value(), a.c0.z.value(), a.c0.w.value(), a.c1.x.value(),
                a.c1.y.value(), a.c1.z.value(), a.c1.w.value(), a.c2.x.value(), a.c2.y.value(),
                a.c2.z.value(), a.c2.w.value(), a.c3.x.value(), a.c3.y.value(), a.c3.z.value(),
                a.c3.w.value(),
        );
        assert(kv * (p0 + p1 + p2 + p3) == 0) by (nonlinear_arith)
            requires
                p0 + p1 + p2 + p3 == 0,
        ;
        S::lemma_value_injective(S::one_spec().over(a.determinant_spec()).times(det3(a.c0.y,
            a.c0.z, a.c0.w, a.c2.y, a.c2.z, a.c2.w, a.c3.y, a.c3.z, a.c3.w).negated())
            .times(a.c3.x).plus(S::one_spec().over(a.determinant_spec()).times(det3(a.c0.x, a.c0.z,
            a.c0.w, a.c2.x, a.c2.z, a.c2.w, a.c3.x, a.c3.z, a.c3.w)).times(a.c3.y))
            .plus(S::one_spec().over(a.determinant_spec()).times(det3(a.c0.x, a.c0.y, a.c0.w,
            a.c2.x, a.c2.y, a.c2.w, a.c3.x, a.c3.y, a.c3.w).negated()).times(a.c3.z))
            .plus(S::one_spec().over(a.determinant_spec()).times(det3(a.c0.x, a.c0.y, a.c0.z,
            a.c2.x, a.c2.y, a.c2.z, a.c3.x, a.c3.y, a.c3.z)).times(a.c3.w)), S::zero_spec());
    }
    {
        lemma_det3_value(a.c0.y, a.c0.z, a.c0.w, a.c1.y, a.c1.z, a.c1.w, a.c3.y, a.c3.z, a.c3.w);
        S::lemma_mul(S::one_spec().over(a.determinant_spec()), det3(a.c0.y, a.c0.z, a.c0.w, a.c1.y,
            a.c1.z, a.c1.w, a.c3.y, a.c3.z, a.c3.w));
        S::lemma_mul(S::one_spec().over(a.determinant_spec()).times(det3(a.c0.y, a.c0.z, a.c0.w,
            a.c1.y, a.c1.z, a.c1.w, a.c3.y, a.c3.z, a.c3.w)), a.c3.x);
        lemma_det3_value(a.c0.x, a.c0.z, a.c0.w, a.c1.x, a.c1.z, a.c1.w, a.c3.x, a.c3.z, a.c3.w);
        S::lemma_neg(det3(a.c0.x, a.c0.z, a.c0.w, a.c1.x, a.c1.z, a.c1.w, a.c3.x, a.c3.z, a.c3.w));
        S::lemma_mul(S::one_spec().over(a.determinant_spec()), det3(a.c0.x, a.c0.z, a.c0.w, a.c1.x,
            a.c1.z, a.c1.w, a.c3.x, a.c3.z, a.c3.w).negated());
        S::lemma_mul(S::one_spec().over(a.determinant_spec()).times(det3(a.c0.x, a.c0.z, a.c0.w,
            a.c1.x, a.c1.z, a.c1.w, a.c3.x, a.c3.z, a.c3.w).negated()), a.c3.y);
        S::lemma_add(S::one_spec().over(a.determinant_spec()).times(det3(a.c0.y, a.c0.z, a.c0.w,
            a.c1.y, a.c1.z, a.c1.w, a.c3.y, a.c3.z, a.c3.w)).times(a.c3.x), S::one_spec()
            .over(a.determinant_spec()).times(det3(a.c0.x, a.c0.z, a.c0.w, a.c1.x, a.c1.z, a.c1.w,
            a.c3.x, a.c3.z, a.c3.w).negated()).times(a.c3.y));
        lemma_det3_value(a.c0.x, a.c0.y, a.c0.w, a.c1.x, a.c1.y, a.c1.w, a.c3.x, a.c3.y, a.c3.w);
        S::lemma_mul(S::one_spec().over(a.determinant_spec()), det3(a.c0.x, a.c0.y, a.c0.w, a.c1.x,
            a.c1.y, a.c1.w, a.c3.x, a.c3.y, a.c3.w));
        S::lemma_mul(S::one_spec().over(a.determinant_spec()).times(det3(a.c0.x, a.c0.y, a.c0.w,
            a.c1.x, a.c1.y, a.c1.w, a.c3.x, a.c3.y, a.c3.w)), a.c3.z);
        S::lemma_add(S::one_spec().over(a.determinant_spec()).times(det3(a.c0.y, a.c0.z, a.c0.w,
            a.c1.y, a.c1.z, a.c1.w, a.c3.y, a.c3.z, a.c3.w)).times(a.c3.x).plus(S::one_spec()
            .over(a.determinant_spec()).times(det3(a.c0.x, a.c0.z, a.c0.w, a.c1.x, a.c1.z, a.c1.w,
            a.c3.x, a.c3.z, a.c3.w).negated()).times(a.c3.y)), S::one_spec()
            .over(a.determinant_spec()).times(det3(a.c0.x, a.c0.y, a.c0.w, a.c1.x, a.c1.y, a.c1.w,
            a.c3.x, a.c3.y, a.c3.w)).times(a.c3.z));
        lemma_det3_value(a.c0.x, a.c0.y, a.c0.z, a.c1.x, a.c1.y, a.c1.z, a.c3.x, a.c3.y, a.c3.z);
        S::lemma_neg(det3(a.c0.x, a.c0.y, a.c0.z, a.c1.x, a.c1.y, a.c1.z, a.c3.x, a.c3.y, a.c3.z));
        S::lemma_mul(S::one_spec().over(a.determinant_spec()), det3(a.c0.x, a.c0.y, a.c0.z, a.c1.x,
            a.c1.y, a.c1.z, a.c3.x, a.c3.y, a.c3.z).negated());
        S::lemma_mul(S::one_spec().over(a.determinant_spec()).times(det3(a.c0.x, a.c0.y, a.c0.z,
            a.c1.x, a.c1.y, a.c1.z, a.c3.x, a.c3.y, a.c3.z).negated()), a.c3.w);
        S::lemma_add(S::one_spec().over(a.determinant_spec()).times(det3(a.c0.y, a.c0.z, a.c0.w,
            a.c1.y, a.c1.z, a.c1.w, a.c3.y, a.c3.z, a.c3.w)).times(a.c3.x).plus(S::one_spec()
            .over(a.determinant_spec()).times(det3(a.c0.x, a.c0.z, a.c0.w, a.c1.x, a.c1.z, a.c1.w,
            a.c3.x, a.c3.z, a.c3.w).negated()).times(a.c3.y)).plus(S::one_spec()
            .over(a.determinant_spec()).times(det3(a.c0.x, a.c0.y, a.c0.w, a.c1.x, a.c1.y, a.c1.w,
            a.c3.x, a.c3.y, a.c3.w)).times(a.c3.z)), S::one_spec()
            .over(a.determinant_spec()).times(det3(a.c0.x, a.c0.y, a.c0.z, a.c1.x, a.c1.y, a.c1.z,
            a.c3.x, a.c3.y, a.c3.z).negated()).times(a.c3.w));
        let m0 = a.c3.x.value();
        let t0 = det3_value(a.c0.y.value(), a.c0.z.value(), a.c0.w.value(), a.c1.y.value(),
            a.c1.z.value(), a.c1.w.value(), a.c3.y.value(), a.c3.z.value(), a.c3.w.value());
        let p0 = t0 * m0;
        assert((kv * t0) * m0 == kv * p0) by (nonlinear_arith)
            requires
                p0 == t0 * m0,
        ;
        let m1 = a.c3.y.value();
        let t1 = (-det3_value(a.c0.x.value(), a.c0.z.value(), a.c0.w.value(), a.c1.x.value(),
            a.c1.z.value(), a.c1.w.value(), a.c3.x.value(), a.c3.z.value(), a.c3.w.value()));
        let p1 = t1 * m1;
        assert((kv * t1) * m1 == kv * p1) by (nonlinear_arith)
            requires
                p1 == t1 * m1,
        ;
        let m2 = a.c3.z.value();
        let t2 = det3_value(a.c0.x.value(), a.c0.y.value(), a.c0.w.value(), a.c1.x.value(),
            a.c1.y.value(), a.c1.w.value(), a.c3.x.value(), a.c3.y.value(), a.c3.w.value());
        let p2 = t2 * m2;
        assert((kv * t2) * m2 == kv * p2) by (nonlinear_arith)
            requires
                p2 == t2 * m2,
        ;
        let m3 = a.c3.w.value();
        let t3 = (-det3_value(a.c0.x.value(), a.c0.y.value(), a.c0.z.value(), a.c1.x.value(),
            a.c1.y.value(), a.c1.z.value(), a.c3.x.value(), a.c3.y.value(), a.c3.z.value()));
        let p3 = t3 * m3;
        assert((kv * t3) * m3 == kv * p3) by (nonlinear_arith)
            requires
                p3 == t3 * m3,
        ;
        assert(kv * p0 + kv * p1 + kv * p2 + kv * p3 == kv * (p0 + p1 + p2
            + p3)) by (nonlinear_arith);
        lemma_det4_value_left_3_2(
            a.c0.x.value(), a.c0.y.value(), a.c0.z.value(), a.c0.w.value(), a.c1.x.value(),
                a.c1.y.value(), a.c1.z.value(), a.c1.w.value(), a.c2.x.value(), a.c2.y.value(),
                a.c2.z.value(), a.c2.w.value(), a.c3.x.value(), a.c3.y.value(), a.c3.z.value(),
                a.c3.w.value(),
        );
        assert(kv * (p0 + p1 + p2 + p3) == 0) by (nonlinear_arith)
            requires
                p0 + p1 + p2 + p3 == 0,
        ;
        S::lemma_value_injective(S::one_spec().over(a.determinant_spec()).times(det3(a.c0.y,
            a.c0.z, a.c0.w, a.c1.y, a.c1.z, a.c1.w, a.c3.y, a.c3.z, a.c3.w)).times(a.c3.x)
            .plus(S::one_spec().over(a.determinant_spec()).times(det3(a.c0.x, a.c0.z, a.c0.w,
            a.c1.x, a.c1.z, a.c1.w, a.c3.x, a.c3.z, a.c3.w).negated()).times(a.c3.y))
            .plus(S::one_spec().over(a.determinant_spec()).times(det3(a.c0.x, a.c0.y, a.c0.w,
            a.c1.x, a.c1.y, a.c1.w, a.c3.x, a.c3.y, a.c3.w)).times(a.c3.z))
            .plus(S::one_spec().over(a.determinant_spec()).times(det3(a.c0.x, a.c0.y, a.c0.z,
            a.c1.x, a.c1.y, a.c1.z, a.c3.x, a.c3.y, a.c3.z).negated()).times(a.c3.w)),
            S::zero_spec());
    }
    {
        lemma_det3_value(a.c0.y, a.c0.z, a.c0.w, a.c1.y, a.c1.z, a.c1.w, a.c2.y, a.c2.z, a.c2.w);
        S::lemma_neg(det3(a.c0.y, a.c0.z, a.c0.w, a.c1.y, a.c1.z, a.c1.w, a.c2.y, a.c2.z, a.c2.w));
        S::lemma_mul(S::one_spec().over(a.determinant_spec()), det3(a.c0.y, a.c0.z, a.c0.w, a.c1.y,
            a.c1.z, a.c1.w, a.c2.y, a.c2.z, a.c2.w).negated());
        S::lemma_mul(S::one_spec().over(a.determinant_spec()).times(det3(a.c0.y, a.c0.z, a.c0.w,
            a.c1.y, a.c1.z, a.c1.w, a.c2.y, a.c2.z, a.c2.w).negated()), a.c3.x);
        lemma_det3_value(a.c0.x, a.c0.z, a.c0.w, a.c1.x, a.c1.z, a.c1.w, a.c2.x, a.c2.z, a.c2.w);
        S::lemma_mul(S::one_spec().over(a.determinant_spec()), det3(a.c0.x, a.c0.z, a.c0.w, a.c1.x,
            a.c1.z, a.c1.w, a.c2.x, a.c2.z, a.c2.w));
        S::lemma_mul(S::one_spec().over(a.determinant_spec()).times(det3(a.c0.x, a.c0.z, a.c0.w,
            a.c1.x, a.c1.z, a.c1.w, a.c2.x, a.c2.z, a.c2.w)), a.c3.y);
        S::lemma_add(S::one_spec().over(a.determinant_spec()).times(det3(a.c0.y, a.c0.z, a.c0.w,
            a.c1.y, a.c1.z, a.c1.w, a.c2.y, a.c2.z, a.c2.w).negated()).times(a.c3.x),
            S::one_spec().over(a.determinant_spec()).times(det3(a.c0.x, a.c0.z, a.c0.w, a.c1.x,
            a.c1.z, a.c1.w, a.c2.x, a.c2.z, a.c2.w)).times(a.c3.y));
        lemma_det3_value(a.c0.x, a.c0.y, a.c0.w, a.c1.x, a.c1.y, a.c1.w, a.c2.x, a.c2.y, a.c2.w);
        S::lemma_neg(det3(a.c0.x, a.c0.y, a.c0.w, a.c1.x, a.c1.y, a.c1.w, a.c2.x, a.c2.y, a.c2.w));
        S::lemma_mul(S::one_spec().over(a.determinant_spec()), det3(a.c0.x, a.c0.y, a.c0.w, a.c1.x,
            a.c1.y, a.c1.w, a.c2.x, a.c2.y, a.c2.w).negated());
        S::lemma_mul(S::one_spec().over(a.determinant_spec()).times(det3(a.c0.x, a.c0.y, a.c0.w,
            a.c1.x, a.c1.y, a.c1.w, a.c2.x, a.c2.y, a.c2.w).negated()), a.c3.z);
        S::lemma_add(S::one_spec().over(a.determinant_spec()).times(det3(a.c0.y, a.c0.z, a.c0.w,
            a.c1.y, a.c1.z, a.c1.w, a.c2.y, a.c2.z, a.c2.w).negated()).times(a.c3.x)
            .plus(S::one_spec().over(a.determinant_spec()).times(det3(a.c0.x, a.c0.z, a.c0.w,
            a.c1.x, a.c1.z, a.c1.w, a.c2.x, a.c2.z, a.c2.w)).times(a.c3.y)), S::one_spec()
            .over(a.determinant_spec()).times(det3(a.c0.x, a.c0.y, a.c0.w, a.c1.x, a.c1.y, a.c1.w,
            a.c2.x, a.c2.y, a.c2.w).negated()).times(a.c3.z));
        lemma_det3_value(a.c0.x, a.c0.y, a.c0.z, a.c1.x, a.c1.y, a.c1.z, a.c2.x, a.c2.y, a.c2.z);
        S::lemma_mul(S::one_spec().over(a.determinant_spec()), det3(a.c0.x, a.c0.y, a.c0.z, a.c1.x,
            a.c1.y, a.c1.z, a.c2.x, a.c2.y, a.c2.z));
        S::lemma_mul(S::one_spec().over(a.determinant_spec()).times(det3(a.c0.x, a.c0.y, a.c0.z,
            a.c1.x, a.c1.y, a.c1.z, a.c2.x, a.c2.y, a.c2.z)), a.c3.w);
        S::lemma_add(S::one_spec().over(a.determinant_spec()).times(det3(a.c0.y, a.c0.z, a.c0.w,
            a.c1.y, a.c1.z, a.c1.w, a.c2.y, a.c2.z, a.c2.w).negated()).times(a.c3.x)
            .plus(S::one_spec().over(a.determinant_spec()).times(det3(a.c0.x, a.c0.z, a.c0.w,
            a.c1.x, a.c1.z, a.c1.w, a.c2.x, a.c2.z, a.c2.w)).times(a.c3.y))
            .plus(S::one_spec().over(a.determinant_spec()).times(det3(a.c0.x, a.c0.y, a.c0.w,
            a.c1.x, a.c1.y, a.c1.w, a.c2.x, a.c2.y, a.c2.w).negated()).times(a.c3.z)),
            S::one_spec().over(a.determinant_spec()).times(det3(a.c0.x, a.c0.y, a.c0.z, a.c1.x,
            a.c1.y, a.c1.z, a.c2.x, a.c2.y, a.c2.z)).times(a.c3.w));
        let m0 = a.c3.x.value();
        let t0 = (-det3_value(a.c0.y.value(), a.c0.z.value(), a.c0.w.value(), a.c1.y.value(),
            a.c1.z.value(), a.c1.w.value(), a.c2.y.value(), a.c2.z.value(), a.c2.w.value()));
        let p0 = t0 * m0;
        assert((kv * t0) * m0 == kv * p0) by (nonlinear_arith)
            requires
                p0 == t0 * m0,
        ;
        let m1 = a.c3.y.value();
        let t1 = det3_value(a.c0.x.value(), a.c0.z.value(), a.c0.w.value(), a.c1.x.value(),
            a.c1.z.value(), a.c1.w.value(), a.c2.x.value(), a.c2.z.value(), a.c2.w.value());
        let p1 = t1 * m1;
        assert((kv * t1) * m1 == kv * p1) by (nonlinear_arith)
            requires
                p1 == t1 * m1,
        ;
        let m2 = a.c3.z.value();
        let t2 = (-det3_value(a.c0.x.value(), a.c0.y.value(), a.c0.w.value(), a.c1.x.value(),
            a.c1.y.value(), a.c1.w.value(), a.c2.x.value(), a.c2.y.value(), a.c2.w.value()));
        let p2 = t2 * m2;
        assert((kv * t2) * m2 == kv * p2) by (nonlinear_arith)
            requires
                p2 == t2 * m2,
        ;
        let m3 = a.c3.w.value();
        let t3 = det3_value(a.c0.x.value(), a.c0.y.value(), a.c0.z.value(), a.c1.x.value(),
            a.c1.y.value(), a.c1.z.value(), a.c2.x.value(), a.c2.y.value(), a.c2.z.value());
        let p3 = t3 * m3;
        assert((kv * t3) * m3 == kv * p3) by (nonlinear_arith)
            requires
                p3 == t3 * m3,
        ;
        assert(kv * p0 + kv * p1 + kv * p2 + kv * p3 == kv * (p0 + p1 + p2
            + p3)) by (nonlinear_arith);
        lemma_det4_value_left_3_3(
            a.c0.x.value(), a.c0.y.value(), a.c0.z.value(), a.c0.w.value(), a.c1.x.value(),
                a.c1.y.value(), a.c1.z.value(), a.c1.w.value(), a.c2.x.value(), a.c2.y.value(),
                a.c2.z.value(), a.c2.w.value(), a.c3.x.value(), a.c3.y.value(), a.c3.z.value(),
                a.c3.w.value(),
        );
        assert(kv * (p0 + p1 + p2 + p3) == 1);
        S::lemma_value_injective(S::one_spec().over(a.determinant_spec()).times(det3(a.c0.y,
            a.c0.z, a.c0.w, a.c1.y, a.c1.z, a.c1.w, a.c2.y, a.c2.z, a.c2.w).negated())
            .times(a.c3.x).plus(S::one_spec().over(a.determinant_spec()).times(det3(a.c0.x, a.c0.z,
            a.c0.w, a.c1.x, a.c1.z, a.c1.w, a.c2.x, a.c2.z, a.c2.w)).times(a.c3.y))
            .plus(S::one_spec().over(a.determinant_spec()).times(det3(a.c0.x, a.c0.y, a.c0.w,
            a.c1.x, a.c1.y, a.c1.w, a.c2.x, a.c2.y, a.c2.w).negated()).times(a.c3.z))
            .plus(S::one_spec().over(a.determinant_spec()).times(det3(a.c0.x, a.c0.y, a.c0.z,
            a.c1.x, a.c1.y, a.c1.z, a.c2.x, a.c2.y, a.c2.z)).times(a.c3.w)), S::one_spec());
    }
}

} // verus!
