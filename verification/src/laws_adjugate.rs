//! Laws of the adjugate, proved for every signed integer scalar: a matrix
//! times its adjugate, in either order, is the determinant times the
//! identity. The inverse divides the adjugate by the determinant, so this
//! is what makes it an inverse.

use vstd::prelude::*;
use crate::adjugate_value::{
    lemma_det2_value_left_0_0, lemma_det2_value_left_0_1, lemma_det2_value_left_1_0,
    lemma_det2_value_left_1_1, lemma_det2_value_right_0_0, lemma_det2_value_right_0_1,
    lemma_det2_value_right_1_0, lemma_det2_value_right_1_1, lemma_det3_value_left_0_0,
    lemma_det3_value_left_0_1, lemma_det3_value_left_0_2, lemma_det3_value_left_1_0,
    lemma_det3_value_left_1_1, lemma_det3_value_left_1_2, lemma_det3_value_left_2_0,
    lemma_det3_value_left_2_1, lemma_det3_value_left_2_2, lemma_det3_value_right_0_0,
    lemma_det3_value_right_0_1, lemma_det3_value_right_0_2, lemma_det3_value_right_1_0,
    lemma_det3_value_right_1_1, lemma_det3_value_right_1_2, lemma_det3_value_right_2_0,
    lemma_det3_value_right_2_1, lemma_det3_value_right_2_2, lemma_det4_value_left_0_0,
    lemma_det4_value_left_0_1, lemma_det4_value_left_0_2, lemma_det4_value_left_0_3,
    lemma_det4_value_left_1_0, lemma_det4_value_left_1_1, lemma_det4_value_left_1_2,
    lemma_det4_value_left_1_3, lemma_det4_value_left_2_0, lemma_det4_value_left_2_1,
    lemma_det4_value_left_2_2, lemma_det4_value_left_2_3, lemma_det4_value_left_3_0,
    lemma_det4_value_left_3_1, lemma_det4_value_left_3_2, lemma_det4_value_left_3_3,
    lemma_det4_value_right_0_0, lemma_det4_value_right_0_1, lemma_det4_value_right_0_2,
    lemma_det4_value_right_0_3, lemma_det4_value_right_1_0, lemma_det4_value_right_1_1,
    lemma_det4_value_right_1_2, lemma_det4_value_right_1_3, lemma_det4_value_right_2_0,
    lemma_det4_value_right_2_1, lemma_det4_value_right_2_2, lemma_det4_value_right_2_3,
    lemma_det4_value_right_3_0, lemma_det4_value_right_3_1, lemma_det4_value_right_3_2,
    lemma_det4_value_right_3_3,
};
use crate::determinant::{det2, det3};
use crate::laws_determinant::{
    lemma_det2_value, lemma_det3_value, lemma_matrix2x2_determinant_value,
    lemma_matrix3x3_determinant_value, lemma_matrix4x4_determinant_value,
};
use crate::matrix2x2::Matrix2x2;
use crate::matrix3x3::Matrix3x3;
use crate::matrix4x4::Matrix4x4;
use crate::scalar::ExactSigned;

verus! {

/// For every two-by-two matrix `a` whose determinant and adjugate are defined:
/// where `a` times its adjugate is defined, it is the matrix with the determinant
/// of `a` on the diagonal and zero elsewhere.
pub proof fn lemma_matrix2x2_times_adjugate<S: ExactSigned>(a: Matrix2x2<S>)
    requires
        a.can_determinant(),
        a.can_adjugate(),
        a.can_mul_2x2(a.adjugate_spec()),
    ensures
        a.times_2x2(a.adjugate_spec()) == Matrix2x2::<S>::scale_spec(a.determinant_spec()),
{
    S::lemma_identities();
    lemma_matrix2x2_determinant_value(a);
    S::lemma_mul(a.c0.x, a.c1.y);
    S::lemma_neg(a.c0.y);
    S::lemma_mul(a.c1.x, a.c0.y.negated());
    S::lemma_add(a.c0.x.times(a.c1.y), a.c1.x.times(a.c0.y.negated()));
    lemma_det2_value_right_0_0(
        a.c0.x.value(), a.c0.y.value(), a.c1.x.value(), a.c1.y.value(),
    );
    S::lemma_value_injective(a.c0.x.times(a.c1.y).plus(a.c1.x.times(a.c0.y.negated())),
        a.determinant_spec());
    S::lemma_mul(a.c0.y, a.c1.y);
    S::lemma_neg(a.c0.y);
    S::lemma_mul(a.c1.y, a.c0.y.negated());
    S::lemma_add(a.c0.y.times(a.c1.y), a.c1.y.times(a.c0.y.negated()));
    lemma_det2_value_right_0_1(
        a.c0.x.value(), a.c0.y.value(), a.c1.x.value(), a.c1.y.value(),
    );
    S::lemma_value_injective(a.c0.y.times(a.c1.y).plus(a.c1.y.times(a.c0.y.negated())),
        S::zero_spec());
    S::lemma_neg(a.c1.x);
    S::lemma_mul(a.c0.x, a.c1.x.negated());
    S::lemma_mul(a.c1.x, a.c0.x);
    S::lemma_add(a.c0.x.times(a.c1.x.negated()), a.c1.x.times(a.c0.x));
    lemma_det2_value_right_1_0(
        a.c0.x.value(), a.c0.y.value(), a.c1.x.value(), a.c1.y.value(),
    );
    S::lemma_value_injective(a.c0.x.times(a.c1.x.negated()).plus(a.c1.x.times(a.c0.x)),
        S::zero_spec());
    S::lemma_neg(a.c1.x);
    S::lemma_mul(a.c0.y, a.c1.x.negated());
    S::lemma_mul(a.c1.y, a.c0.x);
    S::lemma_add(a.c0.y.times(a.c1.x.negated()), a.c1.y.times(a.c0.x));
    lemma_det2_value_right_1_1(
        a.c0.x.value(), a.c0.y.value(), a.c1.x.value(), a.c1.y.value(),
    );
    S::lemma_value_injective(a.c0.y.times(a.c1.x.negated()).plus(a.c1.y.times(a.c0.x)),
        a.determinant_spec());
}

/// For every two-by-two matrix `a` whose determinant and adjugate are defined:
/// where the adjugate of `a` times `a` is defined, it is the matrix with the determinant
/// of `a` on the diagonal and zero elsewhere.
pub proof fn lemma_matrix2x2_adjugate_times<S: ExactSigned>(a: Matrix2x2<S>)
    requires
        a.can_determinant(),
        a.can_adjugate(),
        a.adjugate_spec().can_mul_2x2(a),
    ensures
        a.adjugate_spec().times_2x2(a) == Matrix2x2::<S>::scale_spec(a.determinant_spec()),
{
    S::lemma_identities();
    lemma_matrix2x2_determinant_value(a);
    S::lemma_mul(a.c1.y, a.c0.x);
    S::lemma_neg(a.c1.x);
    S::lemma_mul(a.c1.x.negated(), a.c0.y);
    S::lemma_add(a.c1.y.times(a.c0.x), a.c1.x.negated().times(a.c0.y));
    lemma_det2_value_left_0_0(
        a.c0.x.value(), a.c0.y.value(), a.c1.x.value(), a.c1.y.value(),
    );
    S::lemma_value_injective(a.c1.y.times(a.c0.x).plus(a.c1.x.negated().times(a.c0.y)),
        a.determinant_spec());
    S::lemma_neg(a.c0.y);
    S::lemma_mul(a.c0.y.negated(), a.c0.x);
    S::lemma_mul(a.c0.x, a.c0.y);
    S::lemma_add(a.c0.y.negated().times(a.c0.x), a.c0.x.times(a.c0.y));
    lemma_det2_value_left_0_1(
        a.c0.x.value(), a.c0.y.value(), a.c1.x.value(), a.c1.y.value(),
    );
    S::lemma_value_injective(a.c0.y.negated().times(a.c0.x).plus(a.c0.x.times(a.c0.y)),
        S::zero_spec());
    S::lemma_mul(a.c1.y, a.c1.x);
    S::lemma_neg(a.c1.x);
    S::lemma_mul(a.c1.x.negated(), a.c1.y);
    S::lemma_add(a.c1.y.times(a.c1.x), a.c1.x.negated().times(a.c1.y));
    lemma_det2_value_left_1_0(
        a.c0.x.value(), a.c0.y.value(), a.c1.x.value(), a.c1.y.value(),
    );
    S::lemma_value_injective(a.c1.y.times(a.c1.x).plus(a.c1.x.negated().times(a.c1.y)),
        S::zero_spec());
    S::lemma_neg(a.c0.y);
    S::lemma_mul(a.c0.y.negated(), a.c1.x);
    S::lemma_mul(a.c0.x, a.c1.y);
    S::lemma_add(a.c0.y.negated().times(a.c1.x), a.c0.x.times(a.c1.y));
    lemma_det2_value_left_1_1(
        a.c0.x.value(), a.c0.y.value(), a.c1.x.value(), a.c1.y.value(),
    );
    S::lemma_value_injective(a.c0.y.negated().times(a.c1.x).plus(a.c0.x.times(a.c1.y)),
        a.determinant_spec());
}

/// For every three-by-three matrix `a` whose determinant and adjugate are defined:
/// where `a` times its adjugate is defined, it is the matrix with the determinant
/// of `a` on the diagonal and zero elsewhere.
pub proof fn lemma_matrix3x3_times_adjugate<S: ExactSigned>(a: Matrix3x3<S>)
    requires
        a.can_determinant(),
        a.can_adjugate(),
        a.can_mul_3x3(a.adjugate_spec()),
    ensures
        a.times_3x3(a.adjugate_spec()) == Matrix3x3::<S>::scale_spec(a.determinant_spec()),
{
    S::lemma_identities();
    lemma_matrix3x3_determinant_value(a);
    lemma_det2_value(a.c1.y, a.c1.z, a.c2.y, a.c2.z);
    S::lemma_mul(a.c0.x, det2(a.c1.y, a.c1.z, a.c2.y, a.c2.z));
    lemma_det2_value(a.c0.y, a.c0.z, a.c2.y, a.c2.z);
    S::lemma_neg(det2(a.c0.y, a.c0.z, a.c2.y, a.c2.z));
    S::lemma_mul(a.c1.x, det2(a.c0.y, a.c0.z, a.c2.y, a.c2.z).negated());
    S::lemma_add(a.c0.x.times(det2(a.c1.y, a.c1.z, a.c2.y, a.c2.z)), a.c1.x.times(det2(a.c0.y,
        a.c0.z, a.c2.y, a.c2.z).negated()));
    lemma_det2_value(a.c0.y, a.c0.z, a.c1.y, a.c1.z);
    S::lemma_mul(a.c2.x, det2(a.c0.y, a.c0.z, a.c1.y, a.c1.z));
    S::lemma_add(a.c0.x.times(det2(a.c1.y, a.c1.z, a.c2.y, a.c2.z)).plus(a.c1.x.times(det2(a.c0.y,
        a.c0.z, a.c2.y, a.c2.z).negated())), a.c2.x.times(det2(a.c0.y, a.c0.z, a.c1.y, a.c1.z)));
    lemma_det3_value_right_0_0(
        a.c0.x.value(), a.c0.y.value(), a.c0.z.value(), a.c1.x.value(), a.c1.y.value(),
            a.c1.z.value(), a.c2.x.value(), a.c2.y.value(), a.c2.z.value(),
    );
    S::lemma_value_injective(a.c0.x.times(det2(a.c1.y, a.c1.z, a.c2.y, a.c2.z)).plus(a.c1.x
        .times(det2(a.c0.y, a.c0.z, a.c2.y, a.c2.z).negated())).plus(a.c2.x.times(det2(a.c0.y,
        a.c0.z, a.c1.y, a.c1.z))), a.determinant_spec());
    lemma_det2_value(a.c1.y, a.c1.z, a.c2.y, a.c2.z);
    S::lemma_mul(a.c0.y, det2(a.c1.y, a.c1.z, a.c2.y, a.c2.z));
    lemma_det2_value(a.c0.y, a.c0.z, a.c2.y, a.c2.z);
    S::lemma_neg(det2(a.c0.y, a.c0.z, a.c2.y, a.c2.z));
    S::lemma_mul(a.c1.y, det2(a.c0.y, a.c0.z, a.c2.y, a.c2.z).negated());
    S::lemma_add(a.c0.y.times(det2(a.c1.y, a.c1.z, a.c2.y, a.c2.z)), a.c1.y.times(det2(a.c0.y,
        a.c0.z, a.c2.y, a.c2.z).negated()));
    lemma_det2_value(a.c0.y, a.c0.z, a.c1.y, a.c1.z);
    S::lemma_mul(a.c2.y, det2(a.c0.y, a.c0.z, a.c1.y, a.c1.z));
    S::lemma_add(a.c0.y.times(det2(a.c1.y, a.c1.z, a.c2.y, a.c2.z)).plus(a.c1.y.times(det2(a.c0.y,
        a.c0.z, a.c2.y, a.c2.z).negated())), a.c2.y.times(det2(a.c0.y, a.c0.z, a.c1.y, a.c1.z)));
    lemma_det3_value_right_0_1(
        a.c0.x.value(), a.c0.y.value(), a.c0.z.value(), a.c1.x.value(), a.c1.y.value(),
            a.c1.z.value(), a.c2.x.value(), a.c2.y.value(), a.c2.z.value(),
    );
    S::lemma_value_injective(a.c0.y.times(det2(a.c1.y, a.c1.z, a.c2.y, a.c2.z)).plus(a.c1.y
        .times(det2(a.c0.y, a.c0.z, a.c2.y, a.c2.z).negated())).plus(a.c2.y.times(det2(a.c0.y,
        a.c0.z, a.c1.y, a.c1.z))), S::zero_spec());
    lemma_det2_value(a.c1.y, a.c1.z, a.c2.y, a.c2.z);
    S::lemma_mul(a.c0.z, det2(a.c1.y, a.c1.z, a.c2.y, a.c2.z));
    lemma_det2_value(a.c0.y, a.c0.z, a.c2.y, a.c2.z);
    S::lemma_neg(det2(a.c0.y, a.c0.z, a.c2.y, a.c2.z));
    S::lemma_mul(a.c1.z, det2(a.c0.y, a.c0.z, a.c2.y, a.c2.z).negated());
    S::lemma_add(a.c0.z.times(det2(a.c1.y, a.c1.z, a.c2.y, a.c2.z)), a.c1.z.times(det2(a.c0.y,
        a.c0.z, a.c2.y, a.c2.z).negated()));
    lemma_det2_value(a.c0.y, a.c0.z, a.c1.y, a.c1.z);
    S::lemma_mul(a.c2.z, det2(a.c0.y, a.c0.z, a.c1.y, a.c1.z));
    S::lemma_add(a.c0.z.times(det2(a.c1.y, a.c1.z, a.c2.y, a.c2.z)).plus(a.c1.z.times(det2(a.c0.y,
        a.c0.z, a.c2.y, a.c2.z).negated())), a.c2.z.times(det2(a.c0.y, a.c0.z, a.c1.y, a.c1.z)));
    lemma_det3_value_right_0_2(
        a.c0.x.value(), a.c0.y.value(), a.c0.z.value(), a.c1.x.value(), a.c1.y.value(),
            a.c1.z.value(), a.c2.x.value(), a.c2.y.value(), a.c2.z.value(),
    );
    S::lemma_value_injective(a.c0.z.times(det2(a.c1.y, a.c1.z, a.c2.y, a.c2.z)).plus(a.c1.z
        .times(det2(a.c0.y, a.c0.z, a.c2.y, a.c2.z).negated())).plus(a.c2.z.times(det2(a.c0.y,
        a.c0.z, a.c1.y, a.c1.z))), S::zero_spec());
    lemma_det2_value(a.c1.x, a.c1.z, a.c2.x, a.c2.z);
    S::lemma_neg(det2(a.c1.x, a.c1.z, a.c2.x, a.c2.z));
    S::lemma_mul(a.c0.x, det2(a.c1.x, a.c1.z, a.c2.x, a.c2.z).negated());
    lemma_det2_value(a.c0.x, a.c0.z, a.c2.x, a.c2.z);
    S::lemma_mul(a.c1.x, det2(a.c0.x, a.c0.z, a.c2.x, a.c2.z));
    S::lemma_add(a.c0.x.times(det2(a.c1.x, a.c1.z, a.c2.x, a.c2.z).negated()), a.c1.x
        .times(det2(a.c0.x, a.c0.z, a.c2.x, a.c2.z)));
    lemma_det2_value(a.c0.x, a.c0.z, a.c1.x, a.c1.z);
    S::lemma_neg(det2(a.c0.x, a.c0.z, a.c1.x, a.c1.z));
    S::lemma_mul(a.c2.x, det2(a.c0.x, a.c0.z, a.c1.x, a.c1.z).negated());
    S::lemma_add(a.c0.x.times(det2(a.c1.x, a.c1.z, a.c2.x, a.c2.z).negated()).plus(a.c1.x
        .times(det2(a.c0.x, a.c0.z, a.c2.x, a.c2.z))), a.c2.x.times(det2(a.c0.x, a.c0.z, a.c1.x,
        a.c1.z).negated()));
    lemma_det3_value_right_1_0(
        a.c0.x.value(), a.c0.y.value(), a.c0.z.value(), a.c1.x.value(), a.c1.y.value(),
            a.c1.z.value(), a.c2.x.value(), a.c2.y.value(), a.c2.z.value(),
    );
    S::lemma_value_injective(a.c0.x.times(det2(a.c1.x, a.c1.z, a.c2.x, a.c2.z).negated())
        .plus(a.c1.x.times(det2(a.c0.x, a.c0.z, a.c2.x, a.c2.z))).plus(a.c2.x.times(det2(a.c0.x,
        a.c0.z, a.c1.x, a.c1.z).negated())), S::zero_spec());
    lemma_det2_value(a.c1.x, a.c1.z, a.c2.x, a.c2.z);
    S::lemma_neg(det2(a.c1.x, a.c1.z, a.c2.x, a.c2.z));
    S::lemma_mul(a.c0.y, det2(a.c1.x, a.c1.z, a.c2.x, a.c2.z).negated());
    lemma_det2_value(a.c0.x, a.c0.z, a.c2.x, a.c2.z);
    S::lemma_mul(a.c1.y, det2(a.c0.x, a.c0.z, a.c2.x, a.c2.z));
    S::lemma_add(a.c0.y.times(det2(a.c1.x, a.c1.z, a.c2.x, a.c2.z).negated()), a.c1.y
        .times(det2(a.c0.x, a.c0.z, a.c2.x, a.c2.z)));
    lemma_det2_value(a.c0.x, a.c0.z, a.c1.x, a.c1.z);
    S::lemma_neg(det2(a.c0.x, a.c0.z, a.c1.x, a.c1.z));
    S::lemma_mul(a.c2.y, det2(a.c0.x, a.c0.z, a.c1.x, a.c1.z).negated());
    S::lemma_add(a.c0.y.times(det2(a.c1.x, a.c1.z, a.c2.x, a.c2.z).negated()).plus(a.c1.y
        .times(det2(a.c0.x, a.c0.z, a.c2.x, a.c2.z))), a.c2.y.times(det2(a.c0.x, a.c0.z, a.c1.x,
        a.c1.z).negated()));
    lemma_det3_value_right_1_1(
        a.c0.x.value(), a.c0.y.value(), a.c0.z.value(), a.c1.x.value(), a.c1.y.value(),
            a.c1.z.value(), a.c2.x.value(), a.c2.y.value(), a.c2.z.value(),
    );
    S::lemma_value_injective(a.c0.y.times(det2(a.c1.x, a.c1.z, a.c2.x, a.c2.z).negated())
        .plus(a.c1.y.times(det2(a.c0.x, a.c0.z, a.c2.x, a.c2.z))).plus(a.c2.y.times(det2(a.c0.x,
        a.c0.z, a.c1.x, a.c1.z).negated())), a.determinant_spec());
    lemma_det2_value(a.c1.x, a.c1.z, a.c2.x, a.c2.z);
    S::lemma_neg(det2(a.c1.x, a.c1.z, a.c2.x, a.c2.z));
    S::lemma_mul(a.c0.z, det2(a.c1.x, a.c1.z, a.c2.x, a.c2.z).negated());
    lemma_det2_value(a.c0.x, a.c0.z, a.c2.x, a.c2.z);
    S::lemma_mul(a.c1.z, det2(a.c0.x, a.c0.z, a.c2.x, a.c2.z));
    S::lemma_add(a.c0.z.times(det2(a.c1.x, a.c1.z, a.c2.x, a.c2.z).negated()), a.c1.z
        .times(det2(a.c0.x, a.c0.z, a.c2.x, a.c2.z)));
    lemma_det2_value(a.c0.x, a.c0.z, a.c1.x, a.c1.z);
    S::lemma_neg(det2(a.c0.x, a.c0.z, a.c1.x, a.c1.z));
    S::lemma_mul(a.c2.z, det2(a.c0.x, a.c0.z, a.c1.x, a.c1.z).negated());
    S::lemma_add(a.c0.z.times(det2(a.c1.x, a.c1.z, a.c2.x, a.c2.z).negated()).plus(a.c1.z
        .times(det2(a.c0.x, a.c0.z, a.c2.x, a.c2.z))), a.c2.z.times(det2(a.c0.x, a.c0.z, a.c1.x,
        a.c1.z).negated()));
    lemma_det3_value_right_1_2(
        a.c0.x.value(), a.c0.y.value(), a.c0.z.value(), a.c1.x.value(), a.c1.y.value(),
            a.c1.z.value(), a.c2.x.value(), a.c2.y.value(), a.c2.z.value(),
    );
    S::lemma_value_injective(a.c0.z.times(det2(a.c1.x, a.c1.z, a.c2.x, a.c2.z).negated())
        .plus(a.c1.z.times(det2(a.c0.x, a.c0.z, a.c2.x, a.c2.z))).plus(a.c2.z.times(det2(a.c0.x,
        a.c0.z, a.c1.x, a.c1.z).negated())), S::zero_spec());
    lemma_det2_value(a.c1.x, a.c1.y, a.c2.x, a.c2.y);
    S::lemma_mul(a.c0.x, det2(a.c1.x, a.c1.y, a.c2.x, a.c2.y));
    lemma_det2_value(a.c0.x, a.c0.y, a.c2.x, a.c2.y);
    S::lemma_neg(det2(a.c0.x, a.c0.y, a.c2.x, a.c2.y));
    S::lemma_mul(a.c1.x, det2(a.c0.x, a.c0.y, a.c2.x, a.c2.y).negated());
    S::lemma_add(a.c0.x.times(det2(a.c1.x, a.c1.y, a.c2.x, a.c2.y)), a.c1.x.times(det2(a.c0.x,
        a.c0.y, a.c2.x, a.c2.y).negated()));
    lemma_det2_value(a.c0.x, a.c0.y, a.c1.x, a.c1.y);
    S::lemma_mul(a.c2.x, det2(a.c0.x, a.c0.y, a.c1.x, a.c1.y));
    S::lemma_add(a.c0.x.times(det2(a.c1.x, a.c1.y, a.c2.x, a.c2.y)).plus(a.c1.x.times(det2(a.c0.x,
        a.c0.y, a.c2.x, a.c2.y).negated())), a.c2.x.times(det2(a.c0.x, a.c0.y, a.c1.x, a.c1.y)));
    lemma_det3_value_right_2_0(
        a.c0.x.value(), a.c0.y.value(), a.c0.z.value(), a.c1.x.value(), a.c1.y.value(),
            a.c1.z.value(), a.c2.x.value(), a.c2.y.value(), a.c2.z.value(),
    );
    S::lemma_value_injective(a.c0.x.times(det2(a.c1.x, a.c1.y, a.c2.x, a.c2.y)).plus(a.c1.x
        .times(det2(a.c0.x, a.c0.y, a.c2.x, a.c2.y).negated())).plus(a.c2.x.times(det2(a.c0.x,
        a.c0.y, a.c1.x, a.c1.y))), S::zero_spec());
    lemma_det2_value(a.c1.x, a.c1.y, a.c2.x, a.c2.y);
    S::lemma_mul(a.c0.y, det2(a.c1.x, a.c1.y, a.c2.x, a.c2.y));
    lemma_det2_value(a.c0.x, a.c0.y, a.c2.x, a.c2.y);
    S::lemma_neg(det2(a.c0.x, a.c0.y, a.c2.x, a.c2.y));
    S::lemma_mul(a.c1.y, det2(a.c0.x, a.c0.y, a.c2.x, a.c2.y).negated());
    S::lemma_add(a.c0.y.times(det2(a.c1.x, a.c1.y, a.c2.x, a.c2.y)), a.c1.y.times(det2(a.c0.x,
        a.c0.y, a.c2.x, a.c2.y).negated()));
    lemma_det2_value(a.c0.x, a.c0.y, a.c1.x, a.c1.y);
    S::lemma_mul(a.c2.y, det2(a.c0.x, a.c0.y, a.c1.x, a.c1.y));
    S::lemma_add(a.c0.y.times(det2(a.c1.x, a.c1.y, a.c2.x, a.c2.y)).plus(a.c1.y.times(det2(a.c0.x,
        a.c0.y, a.c2.x, a.c2.y).negated())), a.c2.y.times(det2(a.c0.x, a.c0.y, a.c1.x, a.c1.y)));
    lemma_det3_value_right_2_1(
        a.c0.x.value(), a.c0.y.value(), a.c0.z.value(), a.c1.x.value(), a.c1.y.value(),
            a.c1.z.value(), a.c2.x.value(), a.c2.y.value(), a.c2.z.value(),
    );
    S::lemma_value_injective(a.c0.y.times(det2(a.c1.x, a.c1.y, a.c2.x, a.c2.y)).plus(a.c1.y
        .times(det2(a.c0.x, a.c0.y, a.c2.x, a.c2.y).negated())).plus(a.c2.y.times(det2(a.c0.x,
        a.c0.y, a.c1.x, a.c1.y))), S::zero_spec());
    lemma_det2_value(a.c1.x, a.c1.y, a.c2.x, a.c2.y);
    S::lemma_mul(a.c0.z, det2(a.c1.x, a.c1.y, a.c2.x, a.c2.y));
    lemma_det2_value(a.c0.x, a.c0.y, a.c2.x, a.c2.y);
    S::lemma_neg(det2(a.c0.x, a.c0.y, a.c2.x, a.c2.y));
    S::lemma_mul(a.c1.z, det2(a.c0.x, a.c0.y, a.c2.x, a.c2.y).negated());
    S::lemma_add(a.c0.z.times(det2(a.c1.x, a.c1.y, a.c2.x, a.c2.y)), a.c1.z.times(det2(a.c0.x,
        a.c0.y, a.c2.x, a.c2.y).negated()));
    lemma_det2_value(a.c0.x, a.c0.y, a.c1.x, a.c1.y);
    S::lemma_mul(a.c2.z, det2(a.c0.x, a.c0.y, a.c1.x, a.c1.y));
    S::lemma_add(a.c0.z.times(det2(a.c1.x, a.c1.y, a.c2.x, a.c2.y)).plus(a.c1.z.times(det2(a.c0.x,
        a.c0.y, a.c2.x, a.c2.y).negated())), a.c2.z.times(det2(a.c0.x, a.c0.y, a.c1.x, a.c1.y)));
    lemma_det3_value_right_2_2(
        a.c0.x.value(), a.c0.y.value(), a.c0.z.value(), a.c1.x.value(), a.c1.y.value(),
            a.c1.z.value(), a.c2.x.value(), a.c2.y.value(), a.c2.z.value(),
    );
    S::lemma_value_injective(a.c0.z.times(det2(a.c1.x, a.c1.y, a.c2.x, a.c2.y)).plus(a.c1.z
        .times(det2(a.c0.x, a.c0.y, a.c2.x, a.c2.y).negated())).plus(a.c2.z.times(det2(a.c0.x,
        a.c0.y, a.c1.x, a.c1.y))), a.determinant_spec());
}

/// For every three-by-three matrix `a` whose determinant and adjugate are defined:
/// where the adjugate of `a` times `a` is defined, it is the matrix with the determinant
/// of `a` on the diagonal and zero elsewhere.
pub proof fn lemma_matrix3x3_adjugate_times<S: ExactSigned>(a: Matrix3x3<S>)
    requires
        a.can_determinant(),
        a.can_adjugate(),
        a.adjugate_spec().can_mul_3x3(a),
    ensures
        a.adjugate_spec().times_3x3(a) == Matrix3x3::<S>::scale_spec(a.determinant_spec()),
{
    S::lemma_identities();
    lemma_matrix3x3_determinant_value(a);
    lemma_det2_value(a.c1.y, a.c1.z, a.c2.y, a.c2.z);
    S::lemma_mul(det2(a.c1.y, a.c1.z, a.c2.y, a.c2.z), a.c0.x);
    lemma_det2_value(a.c1.x, a.c1.z, a.c2.x, a.c2.z);
    S::lemma_neg(det2(a.c1.x, a.c1.z, a.c2.x, a.c2.z));
    S::lemma_mul(det2(a.c1.x, a.c1.z, a.c2.x, a.c2.z).negated(), a.c0.y);
    S::lemma_add(det2(a.c1.y, a.c1.z, a.c2.y, a.c2.z).times(a.c0.x), det2(a.c1.x, a.c1.z, a.c2.x,
        a.c2.z).negated().times(a.c0.y));
    lemma_det2_value(a.c1.x, a.c1.y, a.c2.x, a.c2.y);
    S::lemma_mul(det2(a.c1.x, a.c1.y, a.c2.x, a.c2.y), a.c0.z);
    S::lemma_add(det2(a.c1.y, a.c1.z, a.c2.y, a.c2.z).times(a.c0.x).plus(det2(a.c1.x, a.c1.z,
        a.c2.x, a.c2.z).negated().times(a.c0.y)), det2(a.c1.x, a.c1.y, a.c2.x, a.c2.y)
        .times(a.c0.z));
    lemma_det3_value_left_0_0(
        a.c0.x.value(), a.c0.y.value(), a.c0.z.value(), a.c1.x.value(), a.c1.y.value(),
            a.c1.z.value(), a.c2.x.value(), a.c2.y.value(), a.c2.z.value(),
    );
    S::lemma_value_injective(det2(a.c1.y, a.c1.z, a.c2.y, a.c2.z).times(a.c0.x).plus(det2(a.c1.x,
        a.c1.z, a.c2.x, a.c2.z).negated().times(a.c0.y)).plus(det2(a.c1.x, a.c1.y, a.c2.x,
        a.c2.y).times(a.c0.z)), a.determinant_spec());
    lemma_det2_value(a.c0.y, a.c0.z, a.c2.y, a.c2.z);
    S::lemma_neg(det2(a.c0.y, a.c0.z, a.c2.y, a.c2.z));
    S::lemma_mul(det2(a.c0.y, a.c0.z, a.c2.y, a.c2.z).negated(), a.c0.x);
    lemma_det2_value(a.c0.x, a.c0.z, a.c2.x, a.c2.z);
    S::lemma_mul(det2(a.c0.x, a.c0.z, a.c2.x, a.c2.z), a.c0.y);
    S::lemma_add(det2(a.c0.y, a.c0.z, a.c2.y, a.c2.z).negated().times(a.c0.x), det2(a.c0.x, a.c0.z,
        a.c2.x, a.c2.z).times(a.c0.y));
    lemma_det2_value(a.c0.x, a.c0.y, a.c2.x, a.c2.y);
    S::lemma_neg(det2(a.c0.x, a.c0.y, a.c2.x, a.c2.y));
    S::lemma_mul(det2(a.c0.x, a.c0.y, a.c2.x, a.c2.y).negated(), a.c0.z);
    S::lemma_add(det2(a.c0.y, a.c0.z, a.c2.y, a.c2.z).negated().times(a.c0.x).plus(det2(a.c0.x,
        a.c0.z, a.c2.x, a.c2.z).times(a.c0.y)), det2(a.c0.x, a.c0.y, a.c2.x,
        a.c2.y).negated().times(a.c0.z));
    lemma_det3_value_left_0_1(
        a.c0.x.value(), a.c0.y.value(), a.c0.z.value(), a.c1.x.value(), a.c1.y.value(),
            a.c1.z.value(), a.c2.x.value(), a.c2.y.value(), a.c2.z.value(),
    );
    S::lemma_value_injective(det2(a.c0.y, a.c0.z, a.c2.y, a.c2.z).negated().times(a.c0.x)
        .plus(det2(a.c0.x, a.c0.z, a.c2.x, a.c2.z).times(a.c0.y)).plus(det2(a.c0.x, a.c0.y, a.c2.x,
        a.c2.y).negated().times(a.c0.z)), S::zero_spec());
    lemma_det2_value(a.c0.y, a.c0.z, a.c1.y, a.c1.z);
    S::lemma_mul(det2(a.c0.y, a.c0.z, a.c1.y, a.c1.z), a.c0.x);
    lemma_det2_value(a.c0.x, a.c0.z, a.c1.x, a.c1.z);
    S::lemma_neg(det2(a.c0.x, a.c0.z, a.c1.x, a.c1.z));
    S::lemma_mul(det2(a.c0.x, a.c0.z, a.c1.x, a.c1.z).negated(), a.c0.y);
    S::lemma_add(det2(a.c0.y, a.c0.z, a.c1.y, a.c1.z).times(a.c0.x), det2(a.c0.x, a.c0.z, a.c1.x,
        a.c1.z).negated().times(a.c0.y));
    lemma_det2_value(a.c0.x, a.c0.y, a.c1.x, a.c1.y);
    S::lemma_mul(det2(a.c0.x, a.c0.y, a.c1.x, a.c1.y), a.c0.z);
    S::lemma_add(det2(a.c0.y, a.c0.z, a.c1.y, a.c1.z).times(a.c0.x).plus(det2(a.c0.x, a.c0.z,
        a.c1.x, a.c1.z).negated().times(a.c0.y)), det2(a.c0.x, a.c0.y, a.c1.x, a.c1.y)
        .times(a.c0.z));
    lemma_det3_value_left_0_2(
        a.c0.x.value(), a.c0.y.value(), a.c0.z.value(), a.c1.x.value(), a.c1.y.value(),
            a.c1.z.value(), a.c2.x.value(), a.c2.y.value(), a.c2.z.value(),
    );
    S::lemma_value_injective(det2(a.c0.y, a.c0.z, a.c1.y, a.c1.z).times(a.c0.x).plus(det2(a.c0.x,
        a.c0.z, a.c1.x, a.c1.z).negated().times(a.c0.y)).plus(det2(a.c0.x, a.c0.y, a.c1.x,
        a.c1.y).times(a.c0.z)), S::zero_spec());
    lemma_det2_value(a.c1.y, a.c1.z, a.c2.y, a.c2.z);
    S::lemma_mul(det2(a.c1.y, a.c1.z, a.c2.y, a.c2.z), a.c1.x);
    lemma_det2_value(a.c1.x, a.c1.z, a.c2.x, a.c2.z);
    S::lemma_neg(det2(a.c1.x, a.c1.z, a.c2.x, a.c2.z));
    S::lemma_mul(det2(a.c1.x, a.c1.z, a.c2.x, a.c2.z).negated(), a.c1.y);
    S::lemma_add(det2(a.c1.y, a.c1.z, a.c2.y, a.c2.z).times(a.c1.x), det2(a.c1.x, a.c1.z, a.c2.x,
        a.c2.z).negated().times(a.c1.y));
    lemma_det2_value(a.c1.x, a.c1.y, a.c2.x, a.c2.y);
    S::lemma_mul(det2(a.c1.x, a.c1.y, a.c2.x, a.c2.y), a.c1.z);
    S::lemma_add(det2(a.c1.y, a.c1.z, a.c2.y, a.c2.z).times(a.c1.x).plus(det2(a.c1.x, a.c1.z,
        a.c2.x, a.c2.z).negated().times(a.c1.y)), det2(a.c1.x, a.c1.y, a.c2.x, a.c2.y)
        .times(a.c1.z));
    lemma_det3_value_left_1_0(
        a.c0.x.value(), a.c0.y.value(), a.c0.z.value(), a.c1.x.value(), a.c1.y.value(),
            a.c1.z.value(), a.c2.x.value(), a.c2.y.value(), a.c2.z.value(),
    );
    S::lemma_value_injective(det2(a.c1.y, a.c1.z, a.c2.y, a.c2.z).times(a.c1.x).plus(det2(a.c1.x,
        a.c1.z, a.c2.x, a.c2.z).negated().times(a.c1.y)).plus(det2(a.c1.x, a.c1.y, a.c2.x,
        a.c2.y).times(a.c1.z)), S::zero_spec());
    lemma_det2_value(a.c0.y, a.c0.z, a.c2.y, a.c2.z);
    S::lemma_neg(det2(a.c0.y, a.c0.z, a.c2.y, a.c2.z));
    S::lemma_mul(det2(a.c0.y, a.c0.z, a.c2.y, a.c2.z).negated(), a.c1.x);
    lemma_det2_value(a.c0.x, a.c0.z, a.c2.x, a.c2.z);
    S::lemma_mul(det2(a.c0.x, a.c0.z, a.c2.x, a.c2.z), a.c1.y);
    S::lemma_add(det2(a.c0.y, a.c0.z, a.c2.y, a.c2.z).negated().times(a.c1.x), det2(a.c0.x, a.c0.z,
        a.c2.x, a.c2.z).times(a.c1.y));
    lemma_det2_value(a.c0.x, a.c0.y, a.c2.x, a.c2.y);
    S::lemma_neg(det2(a.c0.x, a.c0.y, a.c2.x, a.c2.y));
    S::lemma_mul(det2(a.c0.x, a.c0.y, a.c2.x, a.c2.y).negated(), a.c1.z);
    S::lemma_add(det2(a.c0.y, a.c0.z, a.c2.y, a.c2.z).negated().times(a.c1.x).plus(det2(a.c0.x,
        a.c0.z, a.c2.x, a.c2.z).times(a.c1.y)), det2(a.c0.x, a.c0.y, a.c2.x,
        a.c2.y).negated().times(a.c1.z));
    lemma_det3_value_left_1_1(
        a.c0.x.value(), a.c0.y.value(), a.c0.z.value(), a.c1.x.value(), a.c1.y.value(),
            a.c1.z.value(), a.c2.x.value(), a.c2.y.value(), a.c2.z.value(),
    );
    S::lemma_value_injective(det2(a.c0.y, a.c0.z, a.c2.y, a.c2.z).negated().times(a.c1.x)
        .plus(det2(a.c0.x, a.c0.z, a.c2.x, a.c2.z).times(a.c1.y)).plus(det2(a.c0.x, a.c0.y, a.c2.x,
        a.c2.y).negated().times(a.c1.z)), a.determinant_spec());
    lemma_det2_value(a.c0.y, a.c0.z, a.c1.y, a.c1.z);
    S::lemma_mul(det2(a.c0.y, a.c0.z, a.c1.y, a.c1.z), a.c1.x);
    lemma_det2_value(a.c0.x, a.c0.z, a.c1.x, a.c1.z);
    S::lemma_neg(det2(a.c0.x, a.c0.z, a.c1.x, a.c1.z));
    S::lemma_mul(det2(a.c0.x, a.c0.z, a.c1.x, a.c1.z).negated(), a.c1.y);
    S::lemma_add(det2(a.c0.y, a.c0.z, a.c1.y, a.c1.z).times(a.c1.x), det2(a.c0.x, a.c0.z, a.c1.x,
        a.c1.z).negated().times(a.c1.y));
    lemma_det2_value(a.c0.x, a.c0.y, a.c1.x, a.c1.y);
    S::lemma_mul(det2(a.c0.x, a.c0.y, a.c1.x, a.c1.y), a.c1.z);
    S::lemma_add(det2(a.c0.y, a.c0.z, a.c1.y, a.c1.z).times(a.c1.x).plus(det2(a.c0.x, a.c0.z,
        a.c1.x, a.c1.z).negated().times(a.c1.y)), det2(a.c0.x, a.c0.y, a.c1.x, a.c1.y)
        .times(a.c1.z));
    lemma_det3_value_left_1_2(
        a.c0.x.value(), a.c0.y.value(), a.c0.z.value(), a.c1.x.value(), a.c1.y.value(),
            a.c1.z.value(), a.c2.x.value(), a.c2.y.value(), a.c2.z.value(),
    );
    S::lemma_value_injective(det2(a.c0.y, a.c0.z, a.c1.y, a.c1.z).times(a.c1.x).plus(det2(a.c0.x,
        a.c0.z, a.c1.x, a.c1.z).negated().times(a.c1.y)).plus(det2(a.c0.x, a.c0.y, a.c1.x,
        a.c1.y).times(a.c1.z)), S::zero_spec());
    lemma_det2_value(a.c1.y, a.c1.z, a.c2.y, a.c2.z);
    S::lemma_mul(det2(a.c1.y, a.c1.z, a.c2.y, a.c2.z), a.c2.x);
    lemma_det2_value(a.c1.x, a.c1.z, a.c2.x, a.c2.z);
    S::lemma_neg(det2(a.c1.x, a.c1.z, a.c2.x, a.c2.z));
    S::lemma_mul(det2(a.c1.x, a.c1.z, a.c2.x, a.c2.z).negated(), a.c2.y);
    S::lemma_add(det2(a.c1.y, a.c1.z, a.c2.y, a.c2.z).times(a.c2.x), det2(a.c1.x, a.c1.z, a.c2.x,
        a.c2.z).negated().times(a.c2.y));
    lemma_det2_value(a.c1.x, a.c1.y, a.c2.x, a.c2.y);
    S::lemma_mul(det2(a.c1.x, a.c1.y, a.c2.x, a.c2.y), a.c2.z);
    S::lemma_add(det2(a.c1.y, a.c1.z, a.c2.y, a.c2.z).times(a.c2.x).plus(det2(a.c1.x, a.c1.z,
        a.c2.x, a.c2.z).negated().times(a.c2.y)), det2(a.c1.x, a.c1.y, a.c2.x, a.c2.y)
        .times(a.c2.z));
    lemma_det3_value_left_2_0(
        a.c0.x.value(), a.c0.y.value(), a.c0.z.value(), a.c1.x.value(), a.c1.y.value(),
            a.c1.z.value(), a.c2.x.value(), a.c2.y.value(), a.c2.z.value(),
    );
    S::lemma_value_injective(det2(a.c1.y, a.c1.z, a.c2.y, a.c2.z).times(a.c2.x).plus(det2(a.c1.x,
        a.c1.z, a.c2.x, a.c2.z).negated().times(a.c2.y)).plus(det2(a.c1.x, a.c1.y, a.c2.x,
        a.c2.y).times(a.c2.z)), S::zero_spec());
    lemma_det2_value(a.c0.y, a.c0.z, a.c2.y, a.c2.z);
    S::lemma_neg(det2(a.c0.y, a.c0.z, a.c2.y, a.c2.z));
    S::lemma_mul(det2(a.c0.y, a.c0.z, a.c2.y, a.c2.z).negated(), a.c2.x);
    lemma_det2_value(a.c0.x, a.c0.z, a.c2.x, a.c2.z);
    S::lemma_mul(det2(a.c0.x, a.c0.z, a.c2.x, a.c2.z), a.c2.y);
    S::lemma_add(det2(a.c0.y, a.c0.z, a.c2.y, a.c2.z).negated().times(a.c2.x), det2(a.c0.x, a.c0.z,
        a.c2.x, a.c2.z).times(a.c2.y));
    lemma_det2_value(a.c0.x, a.c0.y, a.c2.x, a.c2.y);
    S::lemma_neg(det2(a.c0.x, a.c0.y, a.c2.x, a.c2.y));
    S::lemma_mul(det2(a.c0.x, a.c0.y, a.c2.x, a.c2.y).negated(), a.c2.z);
    S::lemma_add(det2(a.c0.y, a.c0.z, a.c2.y, a.c2.z).negated().times(a.c2.x).plus(det2(a.c0.x,
        a.c0.z, a.c2.x, a.c2.z).times(a.c2.y)), det2(a.c0.x, a.c0.y, a.c2.x,
        a.c2.y).negated().times(a.c2.z));
    lemma_det3_value_left_2_1(
        a.c0.x.value(), a.c0.y.value(), a.c0.z.value(), a.c1.x.value(), a.c1.y.value(),
            a.c1.z.value(), a.c2.x.value(), a.c2.y.value(), a.c2.z.value(),
    );
    S::lemma_value_injective(det2(a.c0.y, a.c0.z, a.c2.y, a.c2.z).negated().times(a.c2.x)
        .plus(det2(a.c0.x, a.c0.z, a.c2.x, a.c2.z).times(a.c2.y)).plus(det2(a.c0.x, a.c0.y, a.c2.x,
        a.c2.y).negated().times(a.c2.z)), S::zero_spec());
    lemma_det2_value(a.c0.y, a.c0.z, a.c1.y, a.c1.z);
    S::lemma_mul(det2(a.c0.y, a.c0.z, a.c1.y, a.c1.z), a.c2.x);
    lemma_det2_value(a.c0.x, a.c0.z, a.c1.x, a.c1.z);
    S::lemma_neg(det2(a.c0.x, a.c0.z, a.c1.x, a.c1.z));
    S::lemma_mul(det2(a.c0.x, a.c0.z, a.c1.x, a.c1.z).negated(), a.c2.y);
    S::lemma_add(det2(a.c0.y, a.c0.z, a.c1.y, a.c1.z).times(a.c2.x), det2(a.c0.x, a.c0.z, a.c1.x,
        a.c1.z).negated().times(a.c2.y));
    lemma_det2_value(a.c0.x, a.c0.y, a.c1.x, a.c1.y);
    S::lemma_mul(det2(a.c0.x, a.c0.y, a.c1.x, a.c1.y), a.c2.z);
    S::lemma_add(det2(a.c0.y, a.c0.z, a.c1.y, a.c1.z).times(a.c2.x).plus(det2(a.c0.x, a.c0.z,
        a.c1.x, a.c1.z).negated().times(a.c2.y)), det2(a.c0.x, a.c0.y, a.c1.x, a.c1.y)
        .times(a.c2.z));
    lemma_det3_value_left_2_2(
        a.c0.x.value(), a.c0.y.value(), a.c0.z.value(), a.c1.x.value(), a.c1.y.value(),
            a.c1.z.value(), a.c2.x.value(), a.c2.y.value(), a.c2.z.value(),
    );
    S::lemma_value_injective(det2(a.c0.y, a.c0.z, a.c1.y, a.c1.z).times(a.c2.x).plus(det2(a.c0.x,
        a.c0.z, a.c1.x, a.c1.z).negated().times(a.c2.y)).plus(det2(a.c0.x, a.c0.y, a.c1.x,
        a.c1.y).times(a.c2.z)), a.determinant_spec());
}

/// For every four-by-four matrix `a` whose determinant and adjugate are defined:
/// where `a` times its adjugate is defined, it is the matrix with the determinant
/// of `a` on the diagonal and zero elsewhere.
pub proof fn lemma_matrix4x4_times_adjugate<S: ExactSigned>(a: Matrix4x4<S>)
    requires
        a.can_determinant(),
        a.can_adjugate(),
        a.can_mul_4x4(a.adjugate_spec()),
    ensures
        a.times_4x4(a.adjugate_spec()) == Matrix4x4::<S>::scale_spec(a.determinant_spec()),
{
    S::lemma_identities();
    lemma_matrix4x4_determinant_value(a);
    lemma_det3_value(a.c1.y, a.c1.z, a.c1.w, a.c2.y, a.c2.z, a.c2.w, a.c3.y, a.c3.z, a.c3.w);
    S::lemma_mul(a.c0.x, det3(a.c1.y, a.c1.z, a.c1.w, a.c2.y, a.c2.z, a.c2.w, a.c3.y, a.c3.z,
        a.c3.w));
    lemma_det3_value(a.c0.y, a.c0.z, a.c0.w, a.c2.y, a.c2.z, a.c2.w, a.c3.y, a.c3.z, a.c3.w);
    S::lemma_neg(det3(a.c0.y, a.c0.z, a.c0.w, a.c2.y, a.c2.z, a.c2.w, a.c3.y, a.c3.z, a.c3.w));
    S::lemma_mul(a.c1.x, det3(a.c0.y, a.c0.z, a.c0.w, a.c2.y, a.c2.z, a.c2.w, a.c3.y, a.c3.z,
        a.c3.w).negated());
    S::lemma_add(a.c0.x.times(det3(a.c1.y, a.c1.z, a.c1.w, a.c2.y, a.c2.z, a.c2.w, a.c3.y, a.c3.z,
        a.c3.w)), a.c1.x.times(det3(a.c0.y, a.c0.z, a.c0.w, a.c2.y, a.c2.z, a.c2.w, a.c3.y, a.c3.z,
        a.c3.w).negated()));
    lemma_det3_value(a.c0.y, a.c0.z, a.c0.w, a.c1.y, a.c1.z, a.c1.w, a.c3.y, a.c3.z, a.c3.w);
    S::lemma_mul(a.c2.x, det3(a.c0.y, a.c0.z, a.c0.w, a.c1.y, a.c1.z, a.c1.w, a.c3.y, a.c3.z,
        a.c3.w));
    S::lemma_add(a.c0.x.times(det3(a.c1.y, a.c1.z, a.c1.w, a.c2.y, a.c2.z, a.c2.w, a.c3.y, a.c3.z,
        a.c3.w)).plus(a.c1.x.times(det3(a.c0.y, a.c0.z, a.c0.w, a.c2.y, a.c2.z, a.c2.w, a.c3.y,
        a.c3.z, a.c3.w).negated())), a.c2.x.times(det3(a.c0.y, a.c0.z, a.c0.w, a.c1.y, a.c1.z,
        a.c1.w, a.c3.y, a.c3.z, a.c3.w)));
    lemma_det3_value(a.c0.y, a.c0.z, a.c0.w, a.c1.y, a.c1.z, a.c1.w, a.c2.y, a.c2.z, a.c2.w);
    S::lemma_neg(det3(a.c0.y, a.c0.z, a.c0.w, a.c1.y, a.c1.z, a.c1.w, a.c2.y, a.c2.z, a.c2.w));
    S::lemma_mul(a.c3.x, det3(a.c0.y, a.c0.z, a.c0.w, a.c1.y, a.c1.z, a.c1.w, a.c2.y, a.c2.z,
        a.c2.w).negated());
    S::lemma_add(a.c0.x.times(det3(a.c1.y, a.c1.z, a.c1.w, a.c2.y, a.c2.z, a.c2.w, a.c3.y, a.c3.z,
        a.c3.w)).plus(a.c1.x.times(det3(a.c0.y, a.c0.z, a.c0.w, a.c2.y, a.c2.z, a.c2.w, a.c3.y,
        a.c3.z, a.c3.w).negated())).plus(a.c2.x.times(det3(a.c0.y, a.c0.z, a.c0.w, a.c1.y, a.c1.z,
        a.c1.w, a.c3.y, a.c3.z, a.c3.w))), a.c3.x.times(det3(a.c0.y, a.c0.z, a.c0.w, a.c1.y,
        a.c1.z, a.c1.w, a.c2.y, a.c2.z, a.c2.w).negated()));
    lemma_det4_value_right_0_0(
        a.c0.x.value(), a.c0.y.value(), a.c0.z.value(), a.c0.w.value(), a.c1.x.value(),
            a.c1.y.value(), a.c1.z.value(), a.c1.w.value(), a.c2.x.value(), a.c2.y.value(),
            a.c2.z.value(), a.c2.w.value(), a.c3.x.value(), a.c3.y.value(), a.c3.z.value(),
            a.c3.w.value(),
    );
    S::lemma_value_injective(a.c0.x.times(det3(a.c1.y, a.c1.z, a.c1.w, a.c2.y, a.c2.z, a.c2.w,
        a.c3.y, a.c3.z, a.c3.w)).plus(a.c1.x.times(det3(a.c0.y, a.c0.z, a.c0.w, a.c2.y, a.c2.z,
        a.c2.w, a.c3.y, a.c3.z, a.c3.w).negated())).plus(a.c2.x.times(det3(a.c0.y, a.c0.z, a.c0.w,
        a.c1.y, a.c1.z, a.c1.w, a.c3.y, a.c3.z, a.c3.w))).plus(a.c3.x.times(det3(a.c0.y, a.c0.z,
        a.c0.w, a.c1.y, a.c1.z, a.c1.w, a.c2.y, a.c2.z, a.c2.w).negated())), a.determinant_spec());
    lemma_det3_value(a.c1.y, a.c1.z, a.c1.w, a.c2.y, a.c2.z, a.c2.w, a.c3.y, a.c3.z, a.c3.w);
    S::lemma_mul(a.c0.y, det3(a.c1.y, a.c1.z, a.c1.w, a.c2.y, a.c2.z, a.c2.w, a.c3.y, a.c3.z,
        a.c3.w));
    lemma_det3_value(a.c0.y, a.c0.z, a.c0.w, a.c2.y, a.c2.z, a.c2.w, a.c3.y, a.c3.z, a.c3.w);
    S::lemma_neg(det3(a.c0.y, a.c0.z, a.c0.w, a.c2.y, a.c2.z, a.c2.w, a.c3.y, a.c3.z, a.c3.w));
    S::lemma_mul(a.c1.y, det3(a.c0.y, a.c0.z, a.c0.w, a.c2.y, a.c2.z, a.c2.w, a.c3.y, a.c3.z,
        a.c3.w).negated());
    S::lemma_add(a.c0.y.times(det3(a.c1.y, a.c1.z, a.c1.w, a.c2.y, a.c2.z, a.c2.w, a.c3.y, a.c3.z,
        a.c3.w)), a.c1.y.times(det3(a.c0.y, a.c0.z, a.c0.w, a.c2.y, a.c2.z, a.c2.w, a.c3.y, a.c3.z,
        a.c3.w).negated()));
    lemma_det3_value(a.c0.y, a.c0.z, a.c0.w, a.c1.y, a.c1.z, a.c1.w, a.c3.y, a.c3.z, a.c3.w);
    S::lemma_mul(a.c2.y, det3(a.c0.y, a.c0.z, a.c0.w, a.c1.y, a.c1.z, a.c1.w, a.c3.y, a.c3.z,
        a.c3.w));
    S::lemma_add(a.c0.y.times(det3(a.c1.y, a.c1.z, a.c1.w, a.c2.y, a.c2.z, a.c2.w, a.c3.y, a.c3.z,
        a.c3.w)).plus(a.c1.y.times(det3(a.c0.y, a.c0.z, a.c0.w, a.c2.y, a.c2.z, a.c2.w, a.c3.y,
        a.c3.z, a.c3.w).negated())), a.c2.y.times(det3(a.c0.y, a.c0.z, a.c0.w, a.c1.y, a.c1.z,
        a.c1.w, a.c3.y, a.c3.z, a.c3.w)));
    lemma_det3_value(a.c0.y, a.c0.z, a.c0.w, a.c1.y, a.c1.z, a.c1.w, a.c2.y, a.c2.z, a.c2.w);
    S::lemma_neg(det3(a.c0.y, a.c0.z, a.c0.w, a.c1.y, a.c1.z, a.c1.w, a.c2.y, a.c2.z, a.c2.w));
    S::lemma_mul(a.c3.y, det3(a.c0.y, a.c0.z, a.c0.w, a.c1.y, a.c1.z, a.c1.w, a.c2.y, a.c2.z,
        a.c2.w).negated());
    S::lemma_add(a.c0.y.times(det3(a.c1.y, a.c1.z, a.c1.w, a.c2.y, a.c2.z, a.c2.w, a.c3.y, a.c3.z,
        a.c3.w)).plus(a.c1.y.times(det3(a.c0.y, a.c0.z, a.c0.w, a.c2.y, a.c2.z, a.c2.w, a.c3.y,
        a.c3.z, a.c3.w).negated())).plus(a.c2.y.times(det3(a.c0.y, a.c0.z, a.c0.w, a.c1.y, a.c1.z,
        a.c1.w, a.c3.y, a.c3.z, a.c3.w))), a.c3.y.times(det3(a.c0.y, a.c0.z, a.c0.w, a.c1.y,
        a.c1.z, a.c1.w, a.c2.y, a.c2.z, a.c2.w).negated()));
    lemma_det4_value_right_0_1(
        a.c0.x.value(), a.c0.y.value(), a.c0.z.value(), a.c0.w.value(), a.c1.x.value(),
            a.c1.y.value(), a.c1.z.value(), a.c1.w.value(), a.c2.x.value(), a.c2.y.value(),
            a.c2.z.value(), a.c2.w.value(), a.c3.x.value(), a.c3.y.value(), a.c3.z.value(),
            a.c3.w.value(),
    );
    S::lemma_value_injective(a.c0.y.times(det3(a.c1.y, a.c1.z, a.c1.w, a.c2.y, a.c2.z, a.c2.w,
        a.c3.y, a.c3.z, a.c3.w)).plus(a.c1.y.times(det3(a.c0.y, a.c0.z, a.c0.w, a.c2.y, a.c2.z,
        a.c2.w, a.c3.y, a.c3.z, a.c3.w).negated())).plus(a.c2.y.times(det3(a.c0.y, a.c0.z, a.c0.w,
        a.c1.y, a.c1.z, a.c1.w, a.c3.y, a.c3.z, a.c3.w))).plus(a.c3.y.times(det3(a.c0.y, a.c0.z,
        a.c0.w, a.c1.y, a.c1.z, a.c1.w, a.c2.y, a.c2.z, a.c2.w).negated())), S::zero_spec());
    lemma_det3_value(a.c1.y, a.c1.z, a.c1.w, a.c2.y, a.c2.z, a.c2.w, a.c3.y, a.c3.z, a.c3.w);
    S::lemma_mul(a.c0.z, det3(a.c1.y, a.c1.z, a.c1.w, a.c2.y, a.c2.z, a.c2.w, a.c3.y, a.c3.z,
        a.c3.w));
    lemma_det3_value(a.c0.y, a.c0.z, a.c0.w, a.c2.y, a.c2.z, a.c2.w, a.c3.y, a.c3.z, a.c3.w);
    S::lemma_neg(det3(a.c0.y, a.c0.z, a.c0.w, a.c2.y, a.c2.z, a.c2.w, a.c3.y, a.c3.z, a.c3.w));
    S::lemma_mul(a.c1.z, det3(a.c0.y, a.c0.z, a.c0.w, a.c2.y, a.c2.z, a.c2.w, a.c3.y, a.c3.z,
        a.c3.w).negated());
    S::lemma_add(a.c0.z.times(det3(a.c1.y, a.c1.z, a.c1.w, a.c2.y, a.c2.z, a.c2.w, a.c3.y, a.c3.z,
        a.c3.w)), a.c1.z.times(det3(a.c0.y, a.c0.z, a.c0.w, a.c2.y, a.c2.z, a.c2.w, a.c3.y, a.c3.z,
        a.c3.w).negated()));
    lemma_det3_value(a.c0.y, a.c0.z, a.c0.w, a.c1.y, a.c1.z, a.c1.w, a.c3.y, a.c3.z, a.c3.w);
    S::lemma_mul(a.c2.z, det3(a.c0.y, a.c0.z, a.c0.w, a.c1.y, a.c1.z, a.c1.w, a.c3.y, a.c3.z,
        a.c3.w));
    S::lemma_add(a.c0.z.times(det3(a.c1.y, a.c1.z, a.c1.w, a.c2.y, a.c2.z, a.c2.w, a.c3.y, a.c3.z,
        a.c3.w)).plus(a.c1.z.times(det3(a.c0.y, a.c0.z, a.c0.w, a.c2.y, a.c2.z, a.c2.w, a.c3.y,
        a.c3.z, a.c3.w).negated())), a.c2.z.times(det3(a.c0.y, a.c0.z, a.c0.w, a.c1.y, a.c1.z,
        a.c1.w, a.c3.y, a.c3.z, a.c3.w)));
    lemma_det3_value(a.c0.y, a.c0.z, a.c0.w, a.c1.y, a.c1.z, a.c1.w, a.c2.y, a.c2.z, a.c2.w);
    S::lemma_neg(det3(a.c0.y, a.c0.z, a.c0.w, a.c1.y, a.c1.z, a.c1.w, a.c2.y, a.c2.z, a.c2.w));
    S::lemma_mul(a.c3.z, det3(a.c0.y, a.c0.z, a.c0.w, a.c1.y, a.c1.z, a.c1.w, a.c2.y, a.c2.z,
        a.c2.w).negated());
    S::lemma_add(a.c0.z.times(det3(a.c1.y, a.c1.z, a.c1.w, a.c2.y, a.c2.z, a.c2.w, a.c3.y, a.c3.z,
        a.c3.w)).plus(a.c1.z.times(det3(a.c0.y, a.c0.z, a.c0.w, a.c2.y, a.c2.z, a.c2.w, a.c3.y,
        a.c3.z, a.c3.w).negated())).plus(a.c2.z.times(det3(a.c0.y, a.c0.z, a.c0.w, a.c1.y, a.c1.z,
        a.c1.w, a.c3.y, a.c3.z, a.c3.w))), a.c3.z.times(det3(a.c0.y, a.c0.z, a.c0.w, a.c1.y,
        a.c1.z, a.c1.w, a.c2.y, a.c2.z, a.c2.w).negated()));
    lemma_det4_value_right_0_2(
        a.c0.x.value(), a.c0.y.value(), a.c0.z.value(), a.c0.w.value(), a.c1.x.value(),
            a.c1.y.value(), a.c1.z.value(), a.c1.w.value(), a.c2.x.value(), a.c2.y.value(),
            a.c2.z.value(), a.c2.w.value(), a.c3.x.value(), a.c3.y.value(), a.c3.z.value(),
            a.c3.w.value(),
    );
    S::lemma_value_injective(a.c0.z.times(det3(a.c1.y, a.c1.z, a.c1.w, a.c2.y, a.c2.z, a.c2.w,
        a.c3.y, a.c3.z, a.c3.w)).plus(a.c1.z.times(det3(a.c0.y, a.c0.z, a.c0.w, a.c2.y, a.c2.z,
        a.c2.w, a.c3.y, a.c3.z, a.c3.w).negated())).plus(a.c2.z.times(det3(a.c0.y, a.c0.z, a.c0.w,
        a.c1.y, a.c1.z, a.c1.w, a.c3.y, a.c3.z, a.c3.w))).plus(a.c3.z.times(det3(a.c0.y, a.c0.z,
        a.c0.w, a.c1.y, a.c1.z, a.c1.w, a.c2.y, a.c2.z, a.c2.w).negated())), S::zero_spec());
    lemma_det3_value(a.c1.y, a.c1.z, a.c1.w, a.c2.y, a.c2.z, a.c2.w, a.c3.y, a.c3.z, a.c3.w);
    S::lemma_mul(a.c0.w, det3(a.c1.y, a.c1.z, a.c1.w, a.c2.y, a.c2.z, a.c2.w, a.c3.y, a.c3.z,
        a.c3.w));
    lemma_det3_value(a.c0.y, a.c0.z, a.c0.w, a.c2.y, a.c2.z, a.c2.w, a.c3.y, a.c3.z, a.c3.w);
    S::lemma_neg(det3(a.c0.y, a.c0.z, a.c0.w, a.c2.y, a.c2.z, a.c2.w, a.c3.y, a.c3.z, a.c3.w));
    S::lemma_mul(a.c1.w, det3(a.c0.y, a.c0.z, a.c0.w, a.c2.y, a.c2.z, a.c2.w, a.c3.y, a.c3.z,
        a.c3.w).negated());
    S::lemma_add(a.c0.w.times(det3(a.c1.y, a.c1.z, a.c1.w, a.c2.y, a.c2.z, a.c2.w, a.c3.y, a.c3.z,
        a.c3.w)), a.c1.w.times(det3(a.c0.y, a.c0.z, a.c0.w, a.c2.y, a.c2.z, a.c2.w, a.c3.y, a.c3.z,
        a.c3.w).negated()));
    lemma_det3_value(a.c0.y, a.c0.z, a.c0.w, a.c1.y, a.c1.z, a.c1.w, a.c3.y, a.c3.z, a.c3.w);
    S::lemma_mul(a.c2.w, det3(a.c0.y, a.c0.z, a.c0.w, a.c1.y, a.c1.z, a.c1.w, a.c3.y, a.c3.z,
        a.c3.w));
    S::lemma_add(a.c0.w.times(det3(a.c1.y, a.c1.z, a.c1.w, a.c2.y, a.c2.z, a.c2.w, a.c3.y, a.c3.z,
        a.c3.w)).plus(a.c1.w.times(det3(a.c0.y, a.c0.z, a.c0.w, a.c2.y, a.c2.z, a.c2.w, a.c3.y,
        a.c3.z, a.c3.w).negated())), a.c2.w.times(det3(a.c0.y, a.c0.z, a.c0.w, a.c1.y, a.c1.z,
        a.c1.w, a.c3.y, a.c3.z, a.c3.w)));
    lemma_det3_value(a.c0.y, a.c0.z, a.c0.w, a.c1.y, a.c1.z, a.c1.w, a.c2.y, a.c2.z, a.c2.w);
    S::lemma_neg(det3(a.c0.y, a.c0.z, a.c0.w, a.c1.y, a.c1.z, a.c1.w, a.c2.y, a.c2.z, a.c2.w));
    S::lemma_mul(a.c3.w, det3(a.c0.y, a.c0.z, a.c0.w, a.c1.y, a.c1.z, a.c1.w, a.c2.y, a.c2.z,
        a.c2.w).negated());
    S::lemma_add(a.c0.w.times(det3(a.c1.y, a.c1.z, a.c1.w, a.c2.y, a.c2.z, a.c2.w, a.c3.y, a.c3.z,
        a.c3.w)).plus(a.c1.w.times(det3(a.c0.y, a.c0.z, a.c0.w, a.c2.y, a.c2.z, a.c2.w, a.c3.y,
        a.c3.z, a.c3.w).negated())).plus(a.c2.w.times(det3(a.c0.y, a.c0.z, a.c0.w, a.c1.y, a.c1.z,
        a.c1.w, a.c3.y, a.c3.z, a.c3.w))), a.c3.w.times(det3(a.c0.y, a.c0.z, a.c0.w, a.c1.y,
        a.c1.z, a.c1.w, a.c2.y, a.c2.z, a.c2.w).negated()));
    lemma_det4_value_right_0_3(
        a.c0.x.value(), a.c0.y.value(), a.c0.z.value(), a.c0.w.value(), a.c1.x.value(),
            a.c1.y.value(), a.c1.z.value(), a.c1.w.value(), a.c2.x.value(), a.c2.y.value(),
            a.c2.z.value(), a.c2.w.value(), a.c3.x.value(), a.c3.y.value(), a.c3.z.value(),
            a.c3.w.value(),
    );
    S::lemma_value_injective(a.c0.w.times(det3(a.c1.y, a.c1.z, a.c1.w, a.c2.y, a.c2.z, a.c2.w,
        a.c3.y, a.c3.z, a.c3.w)).plus(a.c1.w.times(det3(a.c0.y, a.c0.z, a.c0.w, a.c2.y, a.c2.z,
        a.c2.w, a.c3.y, a.c3.z, a.c3.w).negated())).plus(a.c2.w.times(det3(a.c0.y, a.c0.z, a.c0.w,
        a.c1.y, a.c1.z, a.c1.w, a.c3.y, a.c3.z, a.c3.w))).plus(a.c3.w.times(det3(a.c0.y, a.c0.z,
        a.c0.w, a.c1.y, a.c1.z, a.c1.w, a.c2.y, a.c2.z, a.c2.w).negated())), S::zero_spec());
    lemma_det3_value(a.c1.x, a.c1.z, a.c1.w, a.c2.x, a.c2.z, a.c2.w, a.c3.x, a.c3.z, a.c3.w);
    S::lemma_neg(det3(a.c1.x, a.c1.z, a.c1.w, a.c2.x, a.c2.z, a.c2.w, a.c3.x, a.c3.z, a.c3.w));
    S::lemma_mul(a.c0.x, det3(a.c1.x, a.c1.z, a.c1.w, a.c2.x, a.c2.z, a.c2.w, a.c3.x, a.c3.z,
        a.c3.w).negated());
    lemma_det3_value(a.c0.x, a.c0.z, a.c0.w, a.c2.x, a.c2.z, a.c2.w, a.c3.x, a.c3.z, a.c3.w);
    S::lemma_mul(a.c1.x, det3(a.c0.x, a.c0.z, a.c0.w, a.c2.x, a.c2.z, a.c2.w, a.c3.x, a.c3.z,
        a.c3.w));
    S::lemma_add(a.c0.x.times(det3(a.c1.x, a.c1.z, a.c1.w, a.c2.x, a.c2.z, a.c2.w, a.c3.x, a.c3.z,
        a.c3.w).negated()), a.c1.x.times(det3(a.c0.x, a.c0.z, a.c0.w, a.c2.x, a.c2.z, a.c2.w,
        a.c3.x, a.c3.z, a.c3.w)));
    lemma_det3_value(a.c0.x, a.c0.z, a.c0.w, a.c1.x, a.c1.z, a.c1.w, a.c3.x, a.c3.z, a.c3.w);
    S::lemma_neg(det3(a.c0.x, a.c0.z, a.c0.w, a.c1.x, a.c1.z, a.c1.w, a.c3.x, a.c3.z, a.c3.w));
    S::lemma_mul(a.c2.x, det3(a.c0.x, a.c0.z, a.c0.w, a.c1.x, a.c1.z, a.c1.w, a.c3.x, a.c3.z,
        a.c3.w).negated());
    S::lemma_add(a.c0.x.times(det3(a.c1.x, a.c1.z, a.c1.w, a.c2.x, a.c2.z, a.c2.w, a.c3.x, a.c3.z,
        a.c3.w).negated()).plus(a.c1.x.times(det3(a.c0.x, a.c0.z, a.c0.w, a.c2.x, a.c2.z, a.c2.w,
        a.c3.x, a.c3.z, a.c3.w))), a.c2.x.times(det3(a.c0.x, a.c0.z, a.c0.w, a.c1.x, a.c1.z,
        a.c1.w, a.c3.x, a.c3.z, a.c3.w).negated()));
    lemma_det3_value(a.c0.x, a.c0.z, a.c0.w, a.c1.x, a.c1.z, a.c1.w, a.c2.x, a.c2.z, a.c2.w);
    S::lemma_mul(a.c3.x, det3(a.c0.x, a.c0.z, a.c0.w, a.c1.x, a.c1.z, a.c1.w, a.c2.x, a.c2.z,
        a.c2.w));
    S::lemma_add(a.c0.x.times(det3(a.c1.x, a.c1.z, a.c1.w, a.c2.x, a.c2.z, a.c2.w, a.c3.x, a.c3.z,
        a.c3.w).negated()).plus(a.c1.x.times(det3(a.c0.x, a.c0.z, a.c0.w, a.c2.x, a.c2.z, a.c2.w,
        a.c3.x, a.c3.z, a.c3.w))).plus(a.c2.x.times(det3(a.c0.x, a.c0.z, a.c0.w, a.c1.x, a.c1.z,
        a.c1.w, a.c3.x, a.c3.z, a.c3.w).negated())), a.c3.x.times(det3(a.c0.x, a.c0.z, a.c0.w,
        a.c1.x, a.c1.z, a.c1.w, a.c2.x, a.c2.z, a.c2.w)));
    lemma_det4_value_right_1_0(
        a.c0.x.value(), a.c0.y.value(), a.c0.z.value(), a.c0.w.value(), a.c1.x.value(),
            a.c1.y.value(), a.c1.z.value(), a.c1.w.value(), a.c2.x.value(), a.c2.y.value(),
            a.c2.z.value(), a.c2.w.value(), a.c3.x.value(), a.c3.y.value(), a.c3.z.value(),
            a.c3.w.value(),
    );
    S::lemma_value_injective(a.c0.x.times(det3(a.c1.x, a.c1.z, a.c1.w, a.c2.x, a.c2.z, a.c2.w,
        a.c3.x, a.c3.z, a.c3.w).negated()).plus(a.c1.x.times(det3(a.c0.x, a.c0.z, a.c0.w, a.c2.x,
        a.c2.z, a.c2.w, a.c3.x, a.c3.z, a.c3.w))).plus(a.c2.x.times(det3(a.c0.x, a.c0.z, a.c0.w,
        a.c1.x, a.c1.z, a.c1.w, a.c3.x, a.c3.z, a.c3.w).negated())).plus(a.c3.x.times(det3(a.c0.x,
        a.c0.z, a.c0.w, a.c1.x, a.c1.z, a.c1.w, a.c2.x, a.c2.z, a.c2.w))), S::zero_spec());
    lemma_det3_value(a.c1.x, a.c1.z, a.c1.w, a.c2.x, a.c2.z, a.c2.w, a.c3.x, a.c3.z, a.c3.w);
    S::lemma_neg(det3(a.c1.x, a.c1.z, a.c1.w, a.c2.x, a.c2.z, a.c2.w, a.c3.x, a.c3.z, a.c3.w));
    S::lemma_mul(a.c0.y, det3(a.c1.x, a.c1.z, a.c1.w, a.c2.x, a.c2.z, a.c2.w, a.c3.x, a.c3.z,
        a.c3.w).negated());
    lemma_det3_value(a.c0.x, a.c0.z, a.c0.w, a.c2.x, a.c2.z, a.c2.w, a.c3.x, a.c3.z, a.c3.w);
    S::lemma_mul(a.c1.y, det3(a.c0.x, a.c0.z, a.c0.w, a.c2.x, a.c2.z, a.c2.w, a.c3.x, a.c3.z,
        a.c3.w));
    S::lemma_add(a.c0.y.times(det3(a.c1.x, a.c1.z, a.c1.w, a.c2.x, a.c2.z, a.c2.w, a.c3.x, a.c3.z,
        a.c3.w).negated()), a.c1.y.times(det3(a.c0.x, a.c0.z, a.c0.w, a.c2.x, a.c2.z, a.c2.w,
        a.c3.x, a.c3.z, a.c3.w)));
    lemma_det3_value(a.c0.x, a.c0.z, a.c0.w, a.c1.x, a.c1.z, a.c1.w, a.c3.x, a.c3.z, a.c3.w);
    S::lemma_neg(det3(a.c0.x, a.c0.z, a.c0.w, a.c1.x, a.c1.z, a.c1.w, a.c3.x, a.c3.z, a.c3.w));
    S::lemma_mul(a.c2.y, det3(a.c0.x, a.c0.z, a.c0.w, a.c1.x, a.c1.z, a.c1.w, a.c3.x, a.c3.z,
        a.c3.w).negated());
    S::lemma_add(a.c0.y.times(det3(a.c1.x, a.c1.z, a.c1.w, a.c2.x, a.c2.z, a.c2.w, a.c3.x, a.c3.z,
        a.c3.w).negated()).plus(a.c1.y.times(det3(a.c0.x, a.c0.z, a.c0.w, a.c2.x, a.c2.z, a.c2.w,
        a.c3.x, a.c3.z, a.c3.w))), a.c2.y.times(det3(a.c0.x, a.c0.z, a.c0.w, a.c1.x, a.c1.z,
        a.c1.w, a.c3.x, a.c3.z, a.c3.w).negated()));
    lemma_det3_value(a.c0.x, a.c0.z, a.c0.w, a.c1.x, a.c1.z, a.c1.w, a.c2.x, a.c2.z, a.c2.w);
    S::lemma_mul(a.c3.y, det3(a.c0.x, a.c0.z, a.c0.w, a.c1.x, a.c1.z, a.c1.w, a.c2.x, a.c2.z,
        a.c2.w));
    S::lemma_add(a.c0.y.times(det3(a.c1.x, a.c1.z, a.c1.w, a.c2.x, a.c2.z, a.c2.w, a.c3.x, a.c3.z,
        a.c3.w).negated()).plus(a.c1.y.times(det3(a.c0.x, a.c0.z, a.c0.w, a.c2.x, a.c2.z, a.c2.w,
        a.c3.x, a.c3.z, a.c3.w))).plus(a.c2.y.times(det3(a.c0.x, a.c0.z, a.c0.w, a.c1.x, a.c1.z,
        a.c1.w, a.c3.x, a.c3.z, a.c3.w).negated())), a.c3.y.times(det3(a.c0.x, a.c0.z, a.c0.w,
        a.c1.x, a.c1.z, a.c1.w, a.c2.x, a.c2.z, a.c2.w)));
    lemma_det4_value_right_1_1(
        a.c0.x.value(), a.c0.y.value(), a.c0.z.value(), a.c0.w.value(), a.c1.x.value(),
            a.c1.y.value(), a.c1.z.value(), a.c1.w.value(), a.c2.x.value(), a.c2.y.value(),
            a.c2.z.value(), a.c2.w.value(), a.c3.x.value(), a.c3.y.value(), a.c3.z.value(),
            a.c3.w.value(),
    );
    S::lemma_value_injective(a.c0.y.times(det3(a.c1.x, a.c1.z, a.c1.w, a.c2.x, a.c2.z, a.c2.w,
        a.c3.x, a.c3.z, a.c3.w).negated()).plus(a.c1.y.times(det3(a.c0.x, a.c0.z, a.c0.w, a.c2.x,
        a.c2.z, a.c2.w, a.c3.x, a.c3.z, a.c3.w))).plus(a.c2.y.times(det3(a.c0.x, a.c0.z, a.c0.w,
        a.c1.x, a.c1.z, a.c1.w, a.c3.x, a.c3.z, a.c3.w).negated())).plus(a.c3.y.times(det3(a.c0.x,
        a.c0.z, a.c0.w, a.c1.x, a.c1.z, a.c1.w, a.c2.x, a.c2.z, a.c2.w))), a.determinant_spec());
    lemma_det3_value(a.c1.x, a.c1.z, a.c1.w, a.c2.x, a.c2.z, a.c2.w, a.c3.x, a.c3.z, a.c3.w);
    S::lemma_neg(det3(a.c1.x, a.c1.z, a.c1.w, a.c2.x, a.c2.z, a.c2.w, a.c3.x, a.c3.z, a.c3.w));
    S::lemma_mul(a.c0.z, det3(a.c1.x, a.c1.z, a.c1.w, a.c2.x, a.c2.z, a.c2.w, a.c3.x, a.c3.z,
        a.c3.w).negated());
    lemma_det3_value(a.c0.x, a.c0.z, a.c0.w, a.c2.x, a.c2.z, a.c2.w, a.c3.x, a.c3.z, a.c3.w);
    S::lemma_mul(a.c1.z, det3(a.c0.x, a.c0.z, a.c0.w, a.c2.x, a.c2.z, a.c2.w, a.c3.x, a.c3.z,
        a.c3.w));
    S::lemma_add(a.c0.z.times(det3(a.c1.x, a.c1.z, a.c1.w, a.c2.x, a.c2.z, a.c2.w, a.c3.x, a.c3.z,
        a.c3.w).negated()), a.c1.z.times(det3(a.c0.x, a.c0.z, a.c0.w, a.c2.x, a.c2.z, a.c2.w,
        a.c3.x, a.c3.z, a.c3.w)));
    lemma_det3_value(a.c0.x, a.c0.z, a.c0.w, a.c1.x, a.c1.z, a.c1.w, a.c3.x, a.c3.z, a.c3.w);
    S::lemma_neg(det3(a.c0.x, a.c0.z, a.c0.w, a.c1.x, a.c1.z, a.c1.w, a.c3.x, a.c3.z, a.c3.w));
    S::lemma_mul(a.c2.z, det3(a.c0.x, a.c0.z, a.c0.w, a.c1.x, a.c1.z, a.c1.w, a.c3.x, a.c3.z,
        a.c3.w).negated());
    S::lemma_add(a.c0.z.times(det3(a.c1.x, a.c1.z, a.c1.w, a.c2.x, a.c2.z, a.c2.w, a.c3.x, a.c3.z,
        a.c3.w).negated()).plus(a.c1.z.times(det3(a.c0.x, a.c0.z, a.c0.w, a.c2.x, a.c2.z, a.c2.w,
        a.c3.x, a.c3.z, a.c3.w))), a.c2.z.times(det3(a.c0.x, a.c0.z, a.c0.w, a.c1.x, a.c1.z,
        a.c1.w, a.c3.x, a.c3.z, a.c3.w).negated()));
    lemma_det3_value(a.c0.x, a.c0.z, a.c0.w, a.c1.x, a.c1.z, a.c1.w, a.c2.x, a.c2.z, a.c2.w);
    S::lemma_mul(a.c3.z, det3(a.c0.x, a.c0.z, a.c0.w, a.c1.x, a.c1.z, a.c1.w, a.c2.x, a.c2.z,
        a.c2.w));
    S::lemma_add(a.c0.z.times(det3(a.c1.x, a.c1.z, a.c1.w, a.c2.x, a.c2.z, a.c2.w, a.c3.x, a.c3.z,
        a.c3.w).negated()).plus(a.c1.z.times(det3(a.c0.x, a.c0.z, a.c0.w, a.c2.x, a.c2.z, a.c2.w,
        a.c3.x, a.c3.z, a.c3.w))).plus(a.c2.z.times(det3(a.c0.x, a.c0.z, a.c0.w, a.c1.x, a.c1.z,
        a.c1.w, a.c3.x, a.c3.z, a.c3.w).negated())), a.c3.z.times(det3(a.c0.x, a.c0.z, a.c0.w,
        a.c1.x, a.c1.z, a.c1.w, a.c2.x, a.c2.z, a.c2.w)));
    lemma_det4_value_right_1_2(
        a.c0.x.value(), a.c0.y.value(), a.c0.z.value(), a.c0.w.value(), a.c1.x.value(),
            a.c1.y.value(), a.c1.z.value(), a.c1.w.value(), a.c2.x.value(), a.c2.y.value(),
            a.c2.z.value(), a.c2.w.value(), a.c3.x.value(), a.c3.y.value(), a.c3.z.value(),
            a.c3.w.value(),
    );
    S::lemma_value_injective(a.c0.z.times(det3(a.c1.x, a.c1.z, a.c1.w, a.c2.x, a.c2.z, a.c2.w,
        a.c3.x, a.c3.z, a.c3.w).negated()).plus(a.c1.z.times(det3(a.c0.x, a.c0.z, a.c0.w, a.c2.x,
        a.c2.z, a.c2.w, a.c3.x, a.c3.z, a.c3.w))).plus(a.c2.z.times(det3(a.c0.x, a.c0.z, a.c0.w,
        a.c1.x, a.c1.z, a.c1.w, a.c3.x, a.c3.z, a.c3.w).negated())).plus(a.c3.z.times(det3(a.c0.x,
        a.c0.z, a.c0.w, a.c1.x, a.c1.z, a.c1.w, a.c2.x, a.c2.z, a.c2.w))), S::zero_spec());
    lemma_det3_value(a.c1.x, a.c1.z, a.c1.w, a.c2.x, a.c2.z, a.c2.w, a.c3.x, a.c3.z, a.c3.w);
    S::lemma_neg(det3(a.c1.x, a.c1.z, a.c1.w, a.c2.x, a.c2.z, a.c2.w, a.c3.x, a.c3.z, a.c3.w));
    S::lemma_mul(a.c0.w, det3(a.c1.x, a.c1.z, a.c1.w, a.c2.x, a.c2.z, a.c2.w, a.c3.x, a.c3.z,
        a.c3.w).negated());
    lemma_det3_value(a.c0.x, a.c0.z, a.c0.w, a.c2.x, a.c2.z, a.c2.w, a.c3.x, a.c3.z, a.c3.w);
    S::lemma_mul(a.c1.w, det3(a.c0.x, a.c0.z, a.c0.w, a.c2.x, a.c2.z, a.c2.w, a.c3.x, a.c3.z,
        a.c3.w));
    S::lemma_add(a.c0.w.times(det3(a.c1.x, a.c1.z, a.c1.w, a.c2.x, a.c2.z, a.c2.w, a.c3.x, a.c3.z,
        a.c3.w).negated()), a.c1.w.times(det3(a.c0.x, a.c0.z, a.c0.w, a.c2.x, a.c2.z, a.c2.w,
        a.c3.x, a.c3.z, a.c3.w)));
    lemma_det3_value(a.c0.x, a.c0.z, a.c0.w, a.c1.x, a.c1.z, a.c1.w, a.c3.x, a.c3.z, a.c3.w);
    S::lemma_neg(det3(a.c0.x, a.c0.z, a.c0.w, a.c1.x, a.c1.z, a.c1.w, a.c3.x, a.c3.z, a.c3.w));
    S::lemma_mul(a.c2.w, det3(a.c0.x, a.c0.z, a.c0.w, a.c1.x, a.c1.z, a.c1.w, a.c3.x, a.c3.z,
        a.c3.w).negated());
    S::lemma_add(a.c0.w.times(det3(a.c1.x, a.c1.z, a.c1.w, a.c2.x, a.c2.z, a.c2.w, a.c3.x, a.c3.z,
        a.c3.w).negated()).plus(a.c1.w.times(det3(a.c0.x, a.c0.z, a.c0.w, a.c2.x, a.c2.z, a.c2.w,
        a.c3.x, a.c3.z, a.c3.w))), a.c2.w.times(det3(a.c0.x, a.c0.z, a.c0.w, a.c1.x, a.c1.z,
        a.c1.w, a.c3.x, a.c3.z, a.c3.w).negated()));
    lemma_det3_value(a.c0.x, a.c0.z, a.c0.w, a.c1.x, a.c1.z, a.c1.w, a.c2.x, a.c2.z, a.c2.w);
    S::lemma_mul(a.c3.w, det3(a.c0.x, a.c0.z, a.c0.w, a.c1.x, a.c1.z, a.c1.w, a.c2.x, a.c2.z,
        a.c2.w));
    S::lemma_add(a.c0.w.times(det3(a.c1.x, a.c1.z, a.c1.w, a.c2.x, a.c2.z, a.c2.w, a.c3.x, a.c3.z,
        a.c3.w).negated()).plus(a.c1.w.times(det3(a.c0.x, a.c0.z, a.c0.w, a.c2.x, a.c2.z, a.c2.w,
        a.c3.x, a.c3.z, a.c3.w))).plus(a.c2.w.times(det3(a.c0.x, a.c0.z, a.c0.w, a.c1.x, a.c1.z,
        a.c1.w, a.c3.x, a.c3.z, a.c3.w).negated())), a.c3.w.times(det3(a.c0.x, a.c0.z, a.c0.w,
        a.c1.x, a.c1.z, a.c1.w, a.c2.x, a.c2.z, a.c2.w)));
    lemma_det4_value_right_1_3(
        a.c0.x.value(), a.c0.y.value(), a.c0.z.value(), a.c0.w.value(), a.c1.x.value(),
            a.c1.y.value(), a.c1.z.value(), a.c1.w.value(), a.c2.x.value(), a.c2.y.value(),
            a.c2.z.value(), a.c2.w.value(), a.c3.x.value(), a.c3.y.value(), a.c3.z.value(),
            a.c3.w.value(),
    );
    S::lemma_value_injective(a.c0.w.times(det3(a.c1.x, a.c1.z, a.c1.w, a.c2.x, a.c2.z, a.c2.w,
        a.c3.x, a.c3.z, a.c3.w).negated()).plus(a.c1.w.times(det3(a.c0.x, a.c0.z, a.c0.w, a.c2.x,
        a.c2.z, a.c2.w, a.c3.x, a.c3.z, a.c3.w))).plus(a.c2.w.times(det3(a.c0.x, a.c0.z, a.c0.w,
        a.c1.x, a.c1.z, a.c1.w, a.c3.x, a.c3.z, a.c3.w).negated())).plus(a.c3.w.times(det3(a.c0.x,
        a.c0.z, a.c0.w, a.c1.x, a.c1.z, a.c1.w, a.c2.x, a.c2.z, a.c2.w))), S::zero_spec());
    lemma_det3_value(a.c1.x, a.c1.y, a.c1.w, a.c2.x, a.c2.y, a.c2.w, a.c3.x, a.c3.y, a.c3.w);
    S::lemma_mul(a.c0.x, det3(a.c1.x, a.c1.y, a.c1.w, a.c2.x, a.c2.y, a.c2.w, a.c3.x, a.c3.y,
        a.c3.w));
    lemma_det3_value(a.c0.x, a.c0.y, a.c0.w, a.c2.x, a.c2.y, a.c2.w, a.c3.x, a.c3.y, a.c3.w);
    S::lemma_neg(det3(a.c0.x, a.c0.y, a.c0.w, a.c2.x, a.c2.y, a.c2.w, a.c3.x, a.c3.y, a.c3.w));
    S::lemma_mul(a.c1.x, det3(a.c0.x, a.c0.y, a.c0.w, a.c2.x, a.c2.y, a.c2.w, a.c3.x, a.c3.y,
        a.c3.w).negated());
    S::lemma_add(a.c0.x.times(det3(a.c1.x, a.c1.y, a.c1.w, a.c2.x, a.c2.y, a.c2.w, a.c3.x, a.c3.y,
        a.c3.w)), a.c1.x.times(det3(a.c0.x, a.c0.y, a.c0.w, a.c2.x, a.c2.y, a.c2.w, a.c3.x, a.c3.y,
        a.c3.w).negated()));
    lemma_det3_value(a.c0.x, a.c0.y, a.c0.w, a.c1.x, a.c1.y, a.c1.w, a.c3.x, a.c3.y, a.c3.w);
    S::lemma_mul(a.c2.x, det3(a.c0.x, a.c0.y, a.c0.w, a.c1.x, a.c1.y, a.c1.w, a.c3.x, a.c3.y,
        a.c3.w));
    S::lemma_add(a.c0.x.times(det3(a.c1.x, a.c1.y, a.c1.w, a.c2.x, a.c2.y, a.c2.w, a.c3.x, a.c3.y,
        a.c3.w)).plus(a.c1.x.times(det3(a.c0.x, a.c0.y, a.c0.w, a.c2.x, a.c2.y, a.c2.w, a.c3.x,
        a.c3.y, a.c3.w).negated())), a.c2.x.times(det3(a.c0.x, a.c0.y, a.c0.w, a.c1.x, a.c1.y,
        a.c1.w, a.c3.x, a.c3.y, a.c3.w)));
    lemma_det3_value(a.c0.x, a.c0.y, a.c0.w, a.c1.x, a.c1.y, a.c1.w, a.c2.x, a.c2.y, a.c2.w);
    S::lemma_neg(det3(a.c0.x, a.c0.y, a.c0.w, a.c1.x, a.c1.y, a.c1.w, a.c2.x, a.c2.y, a.c2.w));
    S::lemma_mul(a.c3.x, det3(a.c0.x, a.c0.y, a.c0.w, a.c1.x, a.c1.y, a.c1.w, a.c2.x, a.c2.y,
        a.c2.w).negated());
    S::lemma_add(a.c0.x.times(det3(a.c1.x, a.c1.y, a.c1.w, a.c2.x, a.c2.y, a.c2.w, a.c3.x, a.c3.y,
        a.c3.w)).plus(a.c1.x.times(det3(a.c0.x, a.c0.y, a.c0.w, a.c2.x, a.c2.y, a.c2.w, a.c3.x,
        a.c3.y, a.c3.w).negated())).plus(a.c2.x.times(det3(a.c0.x, a.c0.y, a.c0.w, a.c1.x, a.c1.y,
        a.c1.w, a.c3.x, a.c3.y, a.c3.w))), a.c3.x.times(det3(a.c0.x, a.c0.y, a.c0.w, a.c1.x,
        a.c1.y, a.c1.w, a.c2.x, a.c2.y, a.c2.w).negated()));
    lemma_det4_value_right_2_0(
        a.c0.x.value(), a.c0.y.value(), a.c0.z.value(), a.c0.w.value(), a.c1.x.value(),
            a.c1.y.value(), a.c1.z.value(), a.c1.w.value(), a.c2.x.value(), a.c2.y.value(),
            a.c2.z.value(), a.c2.w.value(), a.c3.x.value(), a.c3.y.value(), a.c3.z.value(),
            a.c3.w.value(),
    );
    S::lemma_value_injective(a.c0.x.times(det3(a.c1.x, a.c1.y, a.c1.w, a.c2.x, a.c2.y, a.c2.w,
        a.c3.x, a.c3.y, a.c3.w)).plus(a.c1.x.times(det3(a.c0.x, a.c0.y, a.c0.w, a.c2.x, a.c2.y,
        a.c2.w, a.c3.x, a.c3.y, a.c3.w).negated())).plus(a.c2.x.times(det3(a.c0.x, a.c0.y, a.c0.w,
        a.c1.x, a.c1.y, a.c1.w, a.c3.x, a.c3.y, a.c3.w))).plus(a.c3.x.times(det3(a.c0.x, a.c0.y,
        a.c0.w, a.c1.x, a.c1.y, a.c1.w, a.c2.x, a.c2.y, a.c2.w).negated())), S::zero_spec());
    lemma_det3_value(a.c1.x, a.c1.y, a.c1.w, a.c2.x, a.c2.y, a.c2.w, a.c3.x, a.c3.y, a.c3.w);
    S::lemma_mul(a.c0.y, det3(a.c1.x, a.c1.y, a.c1.w, a.c2.x, a.c2.y, a.c2.w, a.c3.x, a.c3.y,
        a.c3.w));
    lemma_det3_value(a.c0.x, a.c0.y, a.c0.w, a.c2.x, a.c2.y, a.c2.w, a.c3.x, a.c3.y, a.c3.w);
    S::lemma_neg(det3(a.c0.x, a.c0.y, a.c0.w, a.c2.x, a.c2.y, a.c2.w, a.c3.x, a.c3.y, a.c3.w));
    S::lemma_mul(a.c1.y, det3(a.c0.x, a.c0.y, a.c0.w, a.c2.x, a.c2.y, a.c2.w, a.c3.x, a.c3.y,
        a.c3.w).negated());
    S::lemma_add(a.c0.y.times(det3(a.c1.x, a.c1.y, a.c1.w, a.c2.x, a.c2.y, a.c2.w, a.c3.x, a.c3.y,
        a.c3.w)), a.c1.y.times(det3(a.c0.x, a.c0.y, a.c0.w, a.c2.x, a.c2.y, a.c2.w, a.c3.x, a.c3.y,
        a.c3.w).negated()));
    lemma_det3_value(a.c0.x, a.c0.y, a.c0.w, a.c1.x, a.c1.y, a.c1.w, a.c3.x, a.c3.y, a.c3.w);
    S::lemma_mul(a.c2.y, det3(a.c0.x, a.c0.y, a.c0.w, a.c1.x, a.c1.y, a.c1.w, a.c3.x, a.c3.y,
        a.c3.w));
    S::lemma_add(a.c0.y.times(det3(a.c1.x, a.c1.y, a.c1.w, a.c2.x, a.c2.y, a.c2.w, a.c3.x, a.c3.y,
        a.c3.w)).plus(a.c1.y.times(det3(a.c0.x, a.c0.y, a.c0.w, a.c2.x, a.c2.y, a.c2.w, a.c3.x,
        a.c3.y, a.c3.w).negated())), a.c2.y.times(det3(a.c0.x, a.c0.y, a.c0.w, a.c1.x, a.c1.y,
        a.c1.w, a.c3.x, a.c3.y, a.c3.w)));
    lemma_det3_value(a.c0.x, a.c0.y, a.c0.w, a.c1.x, a.c1.y, a.c1.w, a.c2.x, a.c2.y, a.c2.w);
    S::lemma_neg(det3(a.c0.x, a.c0.y, a.c0.w, a.c1.x, a.c1.y, a.c1.w, a.c2.x, a.c2.y, a.c2.w));
    S::lemma_mul(a.c3.y, det3(a.c0.x, a.c0.y, a.c0.w, a.c1.x, a.c1.y, a.c1.w, a.c2.x, a.c2.y,
        a.c2.w).negated());
    S::lemma_add(a.c0.y.times(det3(a.c1.x, a.c1.y, a.c1.w, a.c2.x, a.c2.y, a.c2.w, a.c3.x, a.c3.y,
        a.c3.w)).plus(a.c1.y.times(det3(a.c0.x, a.c0.y, a.c0.w, a.c2.x, a.c2.y, a.c2.w, a.c3.x,
        a.c3.y, a.c3.w).negated())).plus(a.c2.y.times(det3(a.c0.x, a.c0.y, a.c0.w, a.c1.x, a.c1.y,
        a.c1.w, a.c3.x, a.c3.y, a.c3.w))), a.c3.y.times(det3(a.c0.x, a.c0.y, a.c0.w, a.c1.x,
        a.c1.y, a.c1.w, a.c2.x, a.c2.y, a.c2.w).negated()));
    lemma_det4_value_right_2_1(
        a.c0.x.value(), a.c0.y.value(), a.c0.z.value(), a.c0.w.value(), a.c1.x.value(),
            a.c1.y.value(), a.c1.z.value(), a.c1.w.value(), a.c2.x.value(), a.c2.y.value(),
            a.c2.z.value(), a.c2.w.value(), a.c3.x.value(), a.c3.y.value(), a.c3.z.value(),
            a.c3.w.value(),
    );
    S::lemma_value_injective(a.c0.y.times(det3(a.c1.x, a.c1.y, a.c1.w, a.c2.x, a.c2.y, a.c2.w,
        a.c3.x, a.c3.y, a.c3.w)).plus(a.c1.y.times(det3(a.c0.x, a.c0.y, a.c0.w, a.c2.x, a.c2.y,
        a.c2.w, a.c3.x, a.c3.y, a.c3.w).negated())).plus(a.c2.y.times(det3(a.c0.x, a.c0.y, a.c0.w,
        a.c1.x, a.c1.y, a.c1.w, a.c3.x, a.c3.y, a.c3.w))).plus(a.c3.y.times(det3(a.c0.x, a.c0.y,
        a.c0.w, a.c1.x, a.c1.y, a.c1.w, a.c2.x, a.c2.y, a.c2.w).negated())), S::zero_spec());
    lemma_det3_value(a.c1.x, a.c1.y, a.c1.w, a.c2.x, a.c2.y, a.c2.w, a.c3.x, a.c3.y, a.c3.w);
    S::lemma_mul(a.c0.z, det3(a.c1.x, a.c1.y, a.c1.w, a.c2.x, a.c2.y, a.c2.w, a.c3.x, a.c3.y,
        a.c3.w));
    lemma_det3_value(a.c0.x, a.c0.y, a.c0.w, a.c2.x, a.c2.y, a.c2.w, a.c3.x, a.c3.y, a.c3.w);
    S::lemma_neg(det3(a.c0.x, a.c0.y, a.c0.w, a.c2.x, a.c2.y, a.c2.w, a.c3.x, a.c3.y, a.c3.w));
    S::lemma_mul(a.c1.z, det3(a.c0.x, a.c0.y, a.c0.w, a.c2.x, a.c2.y, a.c2.w, a.c3.x, a.c3.y,
        a.c3.w).negated());
    S::lemma_add(a.c0.z.times(det3(a.c1.x, a.c1.y, a.c1.w, a.c2.x, a.c2.y, a.c2.w, a.c3.x, a.c3.y,
        a.c3.w)), a.c1.z.times(det3(a.c0.x, a.c0.y, a.c0.w, a.c2.x, a.c2.y, a.c2.w, a.c3.x, a.c3.y,
        a.c3.w).negated()));
    lemma_det3_value(a.c0.x, a.c0.y, a.c0.w, a.c1.x, a.c1.y, a.c1.w, a.c3.x, a.c3.y, a.c3.w);
    S::lemma_mul(a.c2.z, det3(a.c0.x, a.c0.y, a.c0.w, a.c1.x, a.c1.y, a.c1.w, a.c3.x, a.c3.y,
        a.c3.w));
    S::lemma_add(a.c0.z.times(det3(a.c1.x, a.c1.y, a.c1.w, a.c2.x, a.c2.y, a.c2.w, a.c3.x, a.c3.y,
        a.c3.w)).plus(a.c1.z.times(det3(a.c0.x, a.c0.y, a.c0.w, a.c2.x, a.c2.y, a.c2.w, a.c3.x,
        a.c3.y, a.c3.w).negated())), a.c2.z.times(det3(a.c0.x, a.c0.y, a.c0.w, a.c1.x, a.c1.y,
        a.c1.w, a.c3.x, a.c3.y, a.c3.w)));
    lemma_det3_value(a.c0.x, a.c0.y, a.c0.w, a.c1.x, a.c1.y, a.c1.w, a.c2.x, a.c2.y, a.c2.w);
    S::lemma_neg(det3(a.c0.x, a.c0.y, a.c0.w, a.c1.x, a.c1.y, a.c1.w, a.c2.x, a.c2.y, a.c2.w));
    S::lemma_mul(a.c3.z, det3(a.c0.x, a.c0.y, a.c0.w, a.c1.x, a.c1.y, a.c1.w, a.c2.x, a.c2.y,
        a.c2.w).negated());
    S::lemma_add(a.c0.z.times(det3(a.c1.x, a.c1.y, a.c1.w, a.c2.x, a.c2.y, a.c2.w, a.c3.x, a.c3.y,
        a.c3.w)).plus(a.c1.z.times(det3(a.c0.x, a.c0.y, a.c0.w, a.c2.x, a.c2.y, a.c2.w, a.c3.x,
        a.c3.y, a.c3.w).negated())).plus(a.c2.z.times(det3(a.c0.x, a.c0.y, a.c0.w, a.c1.x, a.c1.y,
        a.c1.w, a.c3.x, a.c3.y, a.c3.w))), a.c3.z.times(det3(a.c0.x, a.c0.y, a.c0.w, a.c1.x,
        a.c1.y, a.c1.w, a.c2.x, a.c2.y, a.c2.w).negated()));
    lemma_det4_value_right_2_2(
        a.c0.x.value(), a.c0.y.value(), a.c0.z.value(), a.c0.w.value(), a.c1.x.value(),
            a.c1.y.value(), a.c1.z.value(), a.c1.w.value(), a.c2.x.value(), a.c2.y.value(),
            a.c2.z.value(), a.c2.w.value(), a.c3.x.value(), a.c3.y.value(), a.c3.z.value(),
            a.c3.w.value(),
    );
    S::lemma_value_injective(a.c0.z.times(det3(a.c1.x, a.c1.y, a.c1.w, a.c2.x, a.c2.y, a.c2.w,
        a.c3.x, a.c3.y, a.c3.w)).plus(a.c1.z.times(det3(a.c0.x, a.c0.y, a.c0.w, a.c2.x, a.c2.y,
        a.c2.w, a.c3.x, a.c3.y, a.c3.w).negated())).plus(a.c2.z.times(det3(a.c0.x, a.c0.y, a.c0.w,
        a.c1.x, a.c1.y, a.c1.w, a.c3.x, a.c3.y, a.c3.w))).plus(a.c3.z.times(det3(a.c0.x, a.c0.y,
        a.c0.w, a.c1.x, a.c1.y, a.c1.w, a.c2.x, a.c2.y, a.c2.w).negated())), a.determinant_spec());
    lemma_det3_value(a.c1.x, a.c1.y, a.c1.w, a.c2.x, a.c2.y, a.c2.w, a.c3.x, a.c3.y, a.c3.w);
    S::lemma_mul(a.c0.w, det3(a.c1.x, a.c1.y, a.c1.w, a.c2.x, a.c2.y, a.c2.w, a.c3.x, a.c3.y,
        a.c3.w));
    lemma_det3_value(a.c0.x, a.c0.y, a.c0.w, a.c2.x, a.c2.y, a.c2.w, a.c3.x, a.c3.y, a.c3.w);
    S::lemma_neg(det3(a.c0.x, a.c0.y, a.c0.w, a.c2.x, a.c2.y, a.c2.w, a.c3.x, a.c3.y, a.c3.w));
    S::lemma_mul(a.c1.w, det3(a.c0.x, a.c0.y, a.c0.w, a.c2.x, a.c2.y, a.c2.w, a.c3.x, a.c3.y,
        a.c3.w).negated());
    S::lemma_add(a.c0.w.times(det3(a.c1.x, a.c1.y, a.c1.w, a.c2.x, a.c2.y, a.c2.w, a.c3.x, a.c3.y,
        a.c3.w)), a.c1.w.times(det3(a.c0.x, a.c0.y, a.c0.w, a.c2.x, a.c2.y, a.c2.w, a.c3.x, a.c3.y,
        a.c3.w).negated()));
    lemma_det3_value(a.c0.x, a.c0.y, a.c0.w, a.c1.x, a.c1.y, a.c1.w, a.c3.x, a.c3.y, a.c3.w);
    S::lemma_mul(a.c2.w, det3(a.c0.x, a.c0.y, a.c0.w, a.c1.x, a.c1.y, a.c1.w, a.c3.x, a.c3.y,
        a.c3.w));
    S::lemma_add(a.c0.w.times(det3(a.c1.x, a.c1.y, a.c1.w, a.c2.x, a.c2.y, a.c2.w, a.c3.x, a.c3.y,
        a.c3.w)).plus(a.c1.w.times(det3(a.c0.x, a.c0.y, a.c0.w, a.c2.x, a.c2.y, a.c2.w, a.c3.x,
        a.c3.y, a.c3.w).negated())), a.c2.w.times(det3(a.c0.x, a.c0.y, a.c0.w, a.c1.x, a.c1.y,
        a.c1.w, a.c3.x, a.c3.y, a.c3.w)));
    lemma_det3_value(a.c0.x, a.c0.y, a.c0.w, a.c1.x, a.c1.y, a.c1.w, a.c2.x, a.c2.y, a.c2.w);
    S::lemma_neg(det3(a.c0.x, a.c0.y, a.c0.w, a.c1.x, a.c1.y, a.c1.w, a.c2.x, a.c2.y, a.c2.w));
    S::lemma_mul(a.c3.w, det3(a.c0.x, a.c0.y, a.c0.w, a.c1.x, a.c1.y, a.c1.w, a.c2.x, a.c2.y,
        a.c2.w).negated());
    S::lemma_add(a.c0.w.times(det3(a.c1.x, a.c1.y, a.c1.w, a.c2.x, a.c2.y, a.c2.w, a.c3.x, a.c3.y,
        a.c3.w)).plus(a.c1.w.times(det3(a.c0.x, a.c0.y, a.c0.w, a.c2.x, a.c2.y, a.c2.w, a.c3.x,
        a.c3.y, a.c3.w).negated())).plus(a.c2.w.times(det3(a.c0.x, a.c0.y, a.c0.w, a.c1.x, a.c1.y,
        a.c1.w, a.c3.x, a.c3.y, a.c3.w))), a.c3.w.times(det3(a.c0.x, a.c0.y, a.c0.w, a.c1.x,
        a.c1.y, a.c1.w, a.c2.x, a.c2.y, a.c2.w).negated()));
    lemma_det4_value_right_2_3(
        a.c0.x.value(), a.c0.y.value(), a.c0.z.value(), a.c0.w.value(), a.c1.x.value(),
            a.c1.y.value(), a.c1.z.value(), a.c1.w.value(), a.c2.x.value(), a.c2.y.value(),
            a.c2.z.value(), a.c2.w.value(), a.c3.x.value(), a.c3.y.value(), a.c3.z.value(),
            a.c3.w.value(),
    );
    S::lemma_value_injective(a.c0.w.times(det3(a.c1.x, a.c1.y, a.c1.w, a.c2.x, a.c2.y, a.c2.w,
        a.c3.x, a.c3.y, a.c3.w)).plus(a.c1.w.times(det3(a.c0.x, a.c0.y, a.c0.w, a.c2.x, a.c2.y,
        a.c2.w, a.c3.x, a.c3.y, a.c3.w).negated())).plus(a.c2.w.times(det3(a.c0.x, a.c0.y, a.c0.w,
        a.c1.x, a.c1.y, a.c1.w, a.c3.x, a.c3.y, a.c3.w))).plus(a.c3.w.times(det3(a.c0.x, a.c0.y,
        a.c0.w, a.c1.x, a.c1.y, a.c1.w, a.c2.x, a.c2.y, a.c2.w).negated())), S::zero_spec());
    lemma_det3_value(a.c1.x, a.c1.y, a.c1.z, a.c2.x, a.c2.y, a.c2.z, a.c3.x, a.c3.y, a.c3.z);
    S::lemma_neg(det3(a.c1.x, a.c1.y, a.c1.z, a.c2.x, a.c2.y, a.c2.z, a.c3.x, a.c3.y, a.c3.z));
    S::lemma_mul(a.c0.x, det3(a.c1.x, a.c1.y, a.c1.z, a.c2.x, a.c2.y, a.c2.z, a.c3.x, a.c3.y,
        a.c3.z).negated());
    lemma_det3_value(a.c0.x, a.c0.y, a.c0.z, a.c2.x, a.c2.y, a.c2.z, a.c3.x, a.c3.y, a.c3.z);
    S::lemma_mul(a.c1.x, det3(a.c0.x, a.c0.y, a.c0.z, a.c2.x, a.c2.y, a.c2.z, a.c3.x, a.c3.y,
        a.c3.z));
    S::lemma_add(a.c0.x.times(det3(a.c1.x, a.c1.y, a.c1.z, a.c2.x, a.c2.y, a.c2.z, a.c3.x, a.c3.y,
        a.c3.z).negated()), a.c1.x.times(det3(a.c0.x, a.c0.y, a.c0.z, a.c2.x, a.c2.y, a.c2.z,
        a.c3.x, a.c3.y, a.c3.z)));
    lemma_det3_value(a.c0.x, a.c0.y, a.c0.z, a.c1.x, a.c1.y, a.c1.z, a.c3.x, a.c3.y, a.c3.z);
    S::lemma_neg(det3(a.c0.x, a.c0.y, a.c0.z, a.c1.x, a.c1.y, a.c1.z, a.c3.x, a.c3.y, a.c3.z));
    S::lemma_mul(a.c2.x, det3(a.c0.x, a.c0.y, a.c0.z, a.c1.x, a.c1.y, a.c1.z, a.c3.x, a.c3.y,
        a.c3.z).negated());
    S::lemma_add(a.c0.x.times(det3(a.c1.x, a.c1.y, a.c1.z, a.c2.x, a.c2.y, a.c2.z, a.c3.x, a.c3.y,
        a.c3.z).negated()).plus(a.c1.x.times(det3(a.c0.x, a.c0.y, a.c0.z, a.c2.x, a.c2.y, a.c2.z,
        a.c3.x, a.c3.y, a.c3.z))), a.c2.x.times(det3(a.c0.x, a.c0.y, a.c0.z, a.c1.x, a.c1.y,
        a.c1.z, a.c3.x, a.c3.y, a.c3.z).negated()));
    lemma_det3_value(a.c0.x, a.c0.y, a.c0.z, a.c1.x, a.c1.y, a.c1.z, a.c2.x, a.c2.y, a.c2.z);
    S::lemma_mul(a.c3.x, det3(a.c0.x, a.c0.y, a.c0.z, a.c1.x, a.c1.y, a.c1.z, a.c2.x, a.c2.y,
        a.c2.z));
    S::lemma_add(a.c0.x.times(det3(a.c1.x, a.c1.y, a.c1.z, a.c2.x, a.c2.y, a.c2.z, a.c3.x, a.c3.y,
        a.c3.z).negated()).plus(a.c1.x.times(det3(a.c0.x, a.c0.y, a.c0.z, a.c2.x, a.c2.y, a.c2.z,
        a.c3.x, a.c3.y, a.c3.z))).plus(a.c2.x.times(det3(a.c0.x, a.c0.y, a.c0.z, a.c1.x, a.c1.y,
        a.c1.z, a.c3.x, a.c3.y, a.c3.z).negated())), a.c3.x.times(det3(a.c0.x, a.c0.y, a.c0.z,
        a.c1.x, a.c1.y, a.c1.z, a.c2.x, a.c2.y, a.c2.z)));
    lemma_det4_value_right_3_0(
        a.c0.x.value(), a.c0.y.value(), a.c0.z.value(), a.c0.w.value(), a.c1.x.value(),
            a.c1.y.value(), a.c1.z.value(), a.c1.w.value(), a.c2.x.value(), a.c2.y.value(),
            a.c2.z.value(), a.c2.w.value(), a.c3.x.value(), a.c3.y.value(), a.c3.z.value(),
            a.c3.w.value(),
    );
    S::lemma_value_injective(a.c0.x.times(det3(a.c1.x, a.c1.y, a.c1.z, a.c2.x, a.c2.y, a.c2.z,
        a.c3.x, a.c3.y, a.c3.z).negated()).plus(a.c1.x.times(det3(a.c0.x, a.c0.y, a.c0.z, a.c2.x,
        a.c2.y, a.c2.z, a.c3.x, a.c3.y, a.c3.z))).plus(a.c2.x.times(det3(a.c0.x, a.c0.y, a.c0.z,
        a.c1.x, a.c1.y, a.c1.z, a.c3.x, a.c3.y, a.c3.z).negated())).plus(a.c3.x.times(det3(a.c0.x,
        a.c0.y, a.c0.z, a.c1.x, a.c1.y, a.c1.z, a.c2.x, a.c2.y, a.c2.z))), S::zero_spec());
    lemma_det3_value(a.c1.x, a.c1.y, a.c1.z, a.c2.x, a.c2.y, a.c2.z, a.c3.x, a.c3.y, a.c3.z);
    S::lemma_neg(det3(a.c1.x, a.c1.y, a.c1.z, a.c2.x, a.c2.y, a.c2.z, a.c3.x, a.c3.y, a.c3.z));
    S::lemma_mul(a.c0.y, det3(a.c1.x, a.c1.y, a.c1.z, a.c2.x, a.c2.y, a.c2.z, a.c3.x, a.c3.y,
        a.c3.z).negated());
    lemma_det3_value(a.c0.x, a.c0.y, a.c0.z, a.c2.x, a.c2.y, a.c2.z, a.c3.x, a.c3.y, a.c3.z);
    S::lemma_mul(a.c1.y, det3(a.c0.x, a.c0.y, a.c0.z, a.c2.x, a.c2.y, a.c2.z, a.c3.x, a.c3.y,
        a.c3.z));
    S::lemma_add(a.c0.y.times(det3(a.c1.x, a.c1.y, a.c1.z, a.c2.x, a.c2.y, a.c2.z, a.c3.x, a.c3.y,
        a.c3.z).negated()), a.c1.y.times(det3(a.c0.x, a.c0.y, a.c0.z, a.c2.x, a.c2.y, a.c2.z,
        a.c3.x, a.c3.y, a.c3.z)));
    lemma_det3_value(a.c0.x, a.c0.y, a.c0.z, a.c1.x, a.c1.y, a.c1.z, a.c3.x, a.c3.y, a.c3.z);
    S::lemma_neg(det3(a.c0.x, a.c0.y, a.c0.z, a.c1.x, a.c1.y, a.c1.z, a.c3.x, a.c3.y, a.c3.z));
    S::lemma_mul(a.c2.y, det3(a.c0.x, a.c0.y, a.c0.z, a.c1.x, a.c1.y, a.c1.z, a.c3.x, a.c3.y,
        a.c3.z).negated());
    S::lemma_add(a.c0.y.times(det3(a.c1.x, a.c1.y, a.c1.z, a.c2.x, a.c2.y, a.c2.z, a.c3.x, a.c3.y,
        a.c3.z).negated()).plus(a.c1.y.times(det3(a.c0.x, a.c0.y, a.c0.z, a.c2.x, a.c2.y, a.c2.z,
        a.c3.x, a.c3.y, a.c3.z))), a.c2.y.times(det3(a.c0.x, a.c0.y, a.c0.z, a.c1.x, a.c1.y,
        a.c1.z, a.c3.x, a.c3.y, a.c3.z).negated()));
    lemma_det3_value(a.c0.x, a.c0.y, a.c0.z, a.c1.x, a.c1.y, a.c1.z, a.c2.x, a.c2.y, a.c2.z);
    S::lemma_mul(a.c3.y, det3(a.c0.x, a.c0.y, a.c0.z, a.c1.x, a.c1.y, a.c1.z, a.c2.x, a.c2.y,
        a.c2.z));
    S::lemma_add(a.c0.y.times(det3(a.c1.x, a.c1.y, a.c1.z, a.c2.x, a.c2.y, a.c2.z, a.c3.x, a.c3.y,
        a.c3.z).negated()).plus(a.c1.y.times(det3(a.c0.x, a.c0.y, a.c0.z, a.c2.x, a.c2.y, a.c2.z,
        a.c3.x, a.c3.y, a.c3.z))).plus(a.c2.y.times(det3(a.c0.x, a.c0.y, a.c0.z, a.c1.x, a.c1.y,
        a.c1.z, a.c3.x, a.c3.y, a.c3.z).negated())), a.c3.y.times(det3(a.c0.x, a.c0.y, a.c0.z,
        a.c1.x, a.c1.y, a.c1.z, a.c2.x, a.c2.y, a.c2.z)));
    lemma_det4_value_right_3_1(
        a.c0.x.value(), a.c0.y.value(), a.c0.z.value(), a.c0.w.value(), a.c1.x.value(),
            a.c1.y.value(), a.c1.z.value(), a.c1.w.value(), a.c2.x.value(), a.c2.y.value(),
            a.c2.z.value(), a.c2.w.value(), a.c3.x.value(), a.c3.y.value(), a.c3.z.value(),
            a.c3.w.value(),
    );
    S::lemma_value_injective(a.c0.y.times(det3(a.c1.x, a.c1.y, a.c1.z, a.c2.x, a.c2.y, a.c2.z,
        a.c3.x, a.c3.y, a.c3.z).negated()).plus(a.c1.y.times(det3(a.c0.x, a.c0.y, a.c0.z, a.c2.x,
        a.c2.y, a.c2.z, a.c3.x, a.c3.y, a.c3.z))).plus(a.c2.y.times(det3(a.c0.x, a.c0.y, a.c0.z,
        a.c1.x, a.c1.y, a.c1.z, a.c3.x, a.c3.y, a.c3.z).negated())).plus(a.c3.y.times(det3(a.c0.x,
        a.c0.y, a.c0.z, a.c1.x, a.c1.y, a.c1.z, a.c2.x, a.c2.y, a.c2.z))), S::zero_spec());
    lemma_det3_value(a.c1.x, a.c1.y, a.c1.z, a.c2.x, a.c2.y, a.c2.z, a.c3.x, a.c3.y, a.c3.z);
    S::lemma_neg(det3(a.c1.x, a.c1.y, a.c1.z, a.c2.x, a.c2.y, a.c2.z, a.c3.x, a.c3.y, a.c3.z));
    S::lemma_mul(a.c0.z, det3(a.c1.x, a.c1.y, a.c1.z, a.c2.x, a.c2.y, a.c2.z, a.c3.x, a.c3.y,
        a.c3.z).negated());
    lemma_det3_value(a.c0.x, a.c0.y, a.c0.z, a.c2.x, a.c2.y, a.c2.z, a.c3.x, a.c3.y, a.c3.z);
    S::lemma_mul(a.c1.z, det3(a.c0.x, a.c0.y, a.c0.z, a.c2.x, a.c2.y, a.c2.z, a.c3.x, a.c3.y,
        a.c3.z));
    S::lemma_add(a.c0.z.times(det3(a.c1.x, a.c1.y, a.c1.z, a.c2.x, a.c2.y, a.c2.z, a.c3.x, a.c3.y,
        a.c3.z).negated()), a.c1.z.times(det3(a.c0.x, a.c0.y, a.c0.z, a.c2.x, a.c2.y, a.c2.z,
        a.c3.x, a.c3.y, a.c3.z)));
    lemma_det3_value(a.c0.x, a.c0.y, a.c0.z, a.c1.x, a.c1.y, a.c1.z, a.c3.x, a.c3.y, a.c3.z);
    S::lemma_neg(det3(a.c0.x, a.c0.y, a.c0.z, a.c1.x, a.c1.y, a.c1.z, a.c3.x, a.c3.y, a.c3.z));
    S::lemma_mul(a.c2.z, det3(a.c0.x, a.c0.y, a.c0.z, a.c1.x, a.c1.y, a.c1.z, a.c3.x, a.c3.y,
        a.c3.z).negated());
    S::lemma_add(a.c0.z.times(det3(a.c1.x, a.c1.y, a.c1.z, a.c2.x, a.c2.y, a.c2.z, a.c3.x, a.c3.y,
        a.c3.z).negated()).plus(a.c1.z.times(det3(a.c0.x, a.c0.y, a.c0.z, a.c2.x, a.c2.y, a.c2.z,
        a.c3.x, a.c3.y, a.c3.z))), a.c2.z.times(det3(a.c0.x, a.c0.y, a.c0.z, a.c1.x, a.c1.y,
        a.c1.z, a.c3.x, a.c3.y, a.c3.z).negated()));
    lemma_det3_value(a.c0.x, a.c0.y, a.c0.z, a.c1.x, a.c1.y, a.c1.z, a.c2.x, a.c2.y, a.c2.z);
    S::lemma_mul(a.c3.z, det3(a.c0.x, a.c0.y, a.c0.z, a.c1.x, a.c1.y, a.c1.z, a.c2.x, a.c2.y,
        a.c2.z));
    S::lemma_add(a.c0.z.times(det3(a.c1.x, a.c1.y, a.c1.z, a.c2.x, a.c2.y, a.c2.z, a.c3.x, a.c3.y,
        a.c3.z).negated()).plus(a.c1.z.times(det3(a.c0.x, a.c0.y, a.c0.z, a.c2.x, a.c2.y, a.c2.z,
        a.c3.x, a.c3.y, a.c3.z))).plus(a.c2.z.times(det3(a.c0.x, a.c0.y, a.c0.z, a.c1.x, a.c1.y,
        a.c1.z, a.c3.x, a.c3.y, a.c3.z).negated())), a.c3.z.times(det3(a.c0.x, a.c0.y, a.c0.z,
        a.c1.x, a.c1.y, a.c1.z, a.c2.x, a.c2.y, a.c2.z)));
    lemma_det4_value_right_3_2(
        a.c0.x.value(), a.c0.y.value(), a.c0.z.value(), a.c0.w.value(), a.c1.x.value(),
            a.c1.y.value(), a.c1.z.value(), a.c1.w.value(), a.c2.x.value(), a.c2.y.value(),
            a.c2.z.value(), a.c2.w.value(), a.c3.x.value(), a.c3.y.value(), a.c3.z.value(),
            a.c3.w.value(),
    );
    S::lemma_value_injective(a.c0.z.times(det3(a.c1.x, a.c1.y, a.c1.z, a.c2.x, a.c2.y, a.c2.z,
        a.c3.x, a.c3.y, a.c3.z).negated()).plus(a.c1.z.times(det3(a.c0.x, a.c0.y, a.c0.z, a.c2.x,
        a.c2.y, a.c2.z, a.c3.x, a.c3.y, a.c3.z))).plus(a.c2.z.times(det3(a.c0.x, a.c0.y, a.c0.z,
        a.c1.x, a.c1.y, a.c1.z, a.c3.x, a.c3.y, a.c3.z).negated())).plus(a.c3.z.times(det3(a.c0.x,
        a.c0.y, a.c0.z, a.c1.x, a.c1.y, a.c1.z, a.c2.x, a.c2.y, a.c2.z))), S::zero_spec());
    lemma_det3_value(a.c1.x, a.c1.y, a.c1.z, a.c2.x, a.c2.y, a.c2.z, a.c3.x, a.c3.y, a.c3.z);
    S::lemma_neg(det3(a.c1.x, a.c1.y, a.c1.z, a.c2.x, a.c2.y, a.c2.z, a.c3.x, a.c3.y, a.c3.z));
    S::lemma_mul(a.c0.w, det3(a.c1.x, a.c1.y, a.c1.z, a.c2.x, a.c2.y, a.c2.z, a.c3.x, a.c3.y,
        a.c3.z).negated());
    lemma_det3_value(a.c0.x, a.c0.y, a.c0.z, a.c2.x, a.c2.y, a.c2.z, a.c3.x, a.c3.y, a.c3.z);
    S::lemma_mul(a.c1.w, det3(a.c0.x, a.c0.y, a.c0.z, a.c2.x, a.c2.y, a.c2.z, a.c3.x, a.c3.y,
        a.c3.z));
    S::lemma_add(a.c0.w.times(det3(a.c1.x, a.c1.y, a.c1.z, a.c2.x, a.c2.y, a.c2.z, a.c3.x, a.c3.y,
        a.c3.z).negated()), a.c1.w.times(det3(a.c0.x, a.c0.y, a.c0.z, a.c2.x, a.c2.y, a.c2.z,
        a.c3.x, a.c3.y, a.c3.z)));
    lemma_det3_value(a.c0.x, a.c0.y, a.c0.z, a.c1.x, a.c1.y, a.c1.z, a.c3.x, a.c3.y, a.c3.z);
    S::lemma_neg(det3(a.c0.x, a.c0.y, a.c0.z, a.c1.x, a.c1.y, a.c1.z, a.c3.x, a.c3.y, a.c3.z));
    S::lemma_mul(a.c2.w, det3(a.c0.x, a.c0.y, a.c0.z, a.c1.x, a.c1.y, a.c1.z, a.c3.x, a.c3.y,
        a.c3.z).negated());
    S::lemma_add(a.c0.w.times(det3(a.c1.x, a.c1.y, a.c1.z, a.c2.x, a.c2.y, a.c2.z, a.c3.x, a.c3.y,
        a.c3.z).negated()).plus(a.c1.w.times(det3(a.c0.x, a.c0.y, a.c0.z, a.c2.x, a.c2.y, a.c2.z,
        a.c3.x, a.c3.y, a.c3.z))), a.c2.w.times(det3(a.c0.x, a.c0.y, a.c0.z, a.c1.x, a.c1.y,
        a.c1.z, a.c3.x, a.c3.y, a.c3.z).negated()));
    lemma_det3_value(a.c0.x, a.c0.y, a.c0.z, a.c1.x, a.c1.y, a.c1.z, a.c2.x, a.c2.y, a.c2.z);
    S::lemma_mul(a.c3.w, det3(a.c0.x, a.c0.y, a.c0.z, a.c1.x, a.c1.y, a.c1.z, a.c2.x, a.c2.y,
        a.c2.z));
    S::lemma_add(a.c0.w.times(det3(a.c1.x, a.c1.y, a.c1.z, a.c2.x, a.c2.y, a.c2.z, a.c3.x, a.c3.y,
        a.c3.z).negated()).plus(a.c1.w.times(det3(a.c0.x, a.c0.y, a.c0.z, a.c2.x, a.c2.y, a.c2.z,
        a.c3.x, a.c3.y, a.c3.z))).plus(a.c2.w.times(det3(a.c0.x, a.c0.y, a.c0.z, a.c1.x, a.c1.y,
        a.c1.z, a.c3.x, a.c3.y, a.c3.z).negated())), a.c3.w.times(det3(a.c0.x, a.c0.y, a.c0.z,
        a.c1.x, a.c1.y, a.c1.z, a.c2.x, a.c2.y, a.c2.z)));
    lemma_det4_value_right_3_3(
        a.c0.x.value(), a.c0.y.value(), a.c0.z.value(), a.c0.w.value(), a.c1.x.value(),
            a.c1.y.value(), a.c1.z.value(), a.c1.w.value(), a.c2.x.value(), a.c2.y.value(),
            a.c2.z.value(), a.c2.w.value(), a.c3.x.value(), a.c3.y.value(), a.c3.z.value(),
            a.c3.w.value(),
    );
    S::lemma_value_injective(a.c0.w.times(det3(a.c1.x, a.c1.y, a.c1.z, a.c2.x, a.c2.y, a.c2.z,
        a.c3.x, a.c3.y, a.c3.z).negated()).plus(a.c1.w.times(det3(a.c0.x, a.c0.y, a.c0.z, a.c2.x,
        a.c2.y, a.c2.z, a.c3.x, a.c3.y, a.c3.z))).plus(a.c2.w.times(det3(a.c0.x, a.c0.y, a.c0.z,
        a.c1.x, a.c1.y, a.c1.z, a.c3.x, a.c3.y, a.c3.z).negated())).plus(a.c3.w.times(det3(a.c0.x,
        a.c0.y, a.c0.z, a.c1.x, a.c1.y, a.c1.z, a.c2.x, a.c2.y, a.c2.z))), a.determinant_spec());
}

/// For every four-by-four matrix `a` whose determinant and adjugate are defined:
/// where the adjugate of `a` times `a` is defined, it is the matrix with the determinant
/// of `a` on the diagonal and zero elsewhere.
pub proof fn lemma_matrix4x4_adjugate_times<S: ExactSigned>(a: Matrix4x4<S>)
    requires
        a.can_determinant(),
        a.can_adjugate(),
        a.adjugate_spec().can_mul_4x4(a),
    ensures
        a.adjugate_spec().times_4x4(a) == Matrix4x4::<S>::scale_spec(a.determinant_spec()),
{
    S::lemma_identities();
    lemma_matrix4x4_determinant_value(a);
    lemma_det3_value(a.c1.y, a.c1.z, a.c1.w, a.c2.y, a.c2.z, a.c2.w, a.c3.y, a.c3.z, a.c3.w);
    S::lemma_mul(det3(a.c1.y, a.c1.z, a.c1.w, a.c2.y, a.c2.z, a.c2.w, a.c3.y, a.c3.z, a.c3.w),
        a.c0.x);
    lemma_det3_value(a.c1.x, a.c1.z, a.c1.w, a.c2.x, a.c2.z, a.c2.w, a.c3.x, a.c3.z, a.c3.w);
    S::lemma_neg(det3(a.c1.x, a.c1.z, a.c1.w, a.c2.x, a.c2.z, a.c2.w, a.c3.x, a.c3.z, a.c3.w));
    S::lemma_mul(det3(a.c1.x, a.c1.z, a.c1.w, a.c2.x, a.c2.z, a.c2.w, a.c3.x, a.c3.z,
        a.c3.w).negated(), a.c0.y);
    S::lemma_add(det3(a.c1.y, a.c1.z, a.c1.w, a.c2.y, a.c2.z, a.c2.w, a.c3.y, a.c3.z,
        a.c3.w).times(a.c0.x), det3(a.c1.x, a.c1.z, a.c1.w, a.c2.x, a.c2.z, a.c2.w, a.c3.x, a.c3.z,
        a.c3.w).negated().times(a.c0.y));
    lemma_det3_value(a.c1.x, a.c1.y, a.c1.w, a.c2.x, a.c2.y, a.c2.w, a.c3.x, a.c3.y, a.c3.w);
    S::lemma_mul(det3(a.c1.x, a.c1.y, a.c1.w, a.c2.x, a.c2.y, a.c2.w, a.c3.x, a.c3.y, a.c3.w),
        a.c0.z);
    S::lemma_add(det3(a.c1.y, a.c1.z, a.c1.w, a.c2.y, a.c2.z, a.c2.w, a.c3.y, a.c3.z,
        a.c3.w).times(a.c0.x).plus(det3(a.c1.x, a.c1.z, a.c1.w, a.c2.x, a.c2.z, a.c2.w, a.c3.x,
        a.c3.z, a.c3.w).negated().times(a.c0.y)), det3(a.c1.x, a.c1.y, a.c1.w, a.c2.x, a.c2.y,
        a.c2.w, a.c3.x, a.c3.y, a.c3.w).times(a.c0.z));
    lemma_det3_value(a.c1.x, a.c1.y, a.c1.z, a.c2.x, a.c2.y, a.c2.z, a.c3.x, a.c3.y, a.c3.z);
    S::lemma_neg(det3(a.c1.x, a.c1.y, a.c1.z, a.c2.x, a.c2.y, a.c2.z, a.c3.x, a.c3.y, a.c3.z));
    S::lemma_mul(det3(a.c1.x, a.c1.y, a.c1.z, a.c2.x, a.c2.y, a.c2.z, a.c3.x, a.c3.y,
        a.c3.z).negated(), a.c0.w);
    S::lemma_add(det3(a.c1.y, a.c1.z, a.c1.w, a.c2.y, a.c2.z, a.c2.w, a.c3.y, a.c3.z,
        a.c3.w).times(a.c0.x).plus(det3(a.c1.x, a.c1.z, a.c1.w, a.c2.x, a.c2.z, a.c2.w, a.c3.x,
        a.c3.z, a.c3.w).negated().times(a.c0.y)).plus(det3(a.c1.x, a.c1.y, a.c1.w, a.c2.x, a.c2.y,
        a.c2.w, a.c3.x, a.c3.y, a.c3.w).times(a.c0.z)), det3(a.c1.x, a.c1.y, a.c1.z, a.c2.x,
        a.c2.y, a.c2.z, a.c3.x, a.c3.y, a.c3.z).negated().times(a.c0.w));
    lemma_det4_value_left_0_0(
        a.c0.x.value(), a.c0.y.value(), a.c0.z.value(), a.c0.w.value(), a.c1.x.value(),
            a.c1.y.value(), a.c1.z.value(), a.c1.w.value(), a.c2.x.value(), a.c2.y.value(),
            a.c2.z.value(), a.c2.w.value(), a.c3.x.value(), a.c3.y.value(), a.c3.z.value(),
            a.c3.w.value(),
    );
    S::lemma_value_injective(det3(a.c1.y, a.c1.z, a.c1.w, a.c2.y, a.c2.z, a.c2.w, a.c3.y, a.c3.z,
        a.c3.w).times(a.c0.x).plus(det3(a.c1.x, a.c1.z, a.c1.w, a.c2.x, a.c2.z, a.c2.w, a.c3.x,
        a.c3.z, a.c3.w).negated().times(a.c0.y)).plus(det3(a.c1.x, a.c1.y, a.c1.w, a.c2.x, a.c2.y,
        a.c2.w, a.c3.x, a.c3.y, a.c3.w).times(a.c0.z)).plus(det3(a.c1.x, a.c1.y, a.c1.z, a.c2.x,
        a.c2.y, a.c2.z, a.c3.x, a.c3.y, a.c3.z).negated().times(a.c0.w)), a.determinant_spec());
    lemma_det3_value(a.c0.y, a.c0.z, a.c0.w, a.c2.y, a.c2.z, a.c2.w, a.c3.y, a.c3.z, a.c3.w);
    S::lemma_neg(det3(a.c0.y, a.c0.z, a.c0.w, a.c2.y, a.c2.z, a.c2.w, a.c3.y, a.c3.z, a.c3.w));
    S::lemma_mul(det3(a.c0.y, a.c0.z, a.c0.w, a.c2.y, a.c2.z, a.c2.w, a.c3.y, a.c3.z,
        a.c3.w).negated(), a.c0.x);
    lemma_det3_value(a.c0.x, a.c0.z, a.c0.w, a.c2.x, a.c2.z, a.c2.w, a.c3.x, a.c3.z, a.c3.w);
    S::lemma_mul(det3(a.c0.x, a.c0.z, a.c0.w, a.c2.x, a.c2.z, a.c2.w, a.c3.x, a.c3.z, a.c3.w),
        a.c0.y);
    S::lemma_add(det3(a.c0.y, a.c0.z, a.c0.w, a.c2.y, a.c2.z, a.c2.w, a.c3.y, a.c3.z,
        a.c3.w).negated().times(a.c0.x), det3(a.c0.x, a.c0.z, a.c0.w, a.c2.x, a.c2.z, a.c2.w,
        a.c3.x, a.c3.z, a.c3.w).times(a.c0.y));
    lemma_det3_value(a.c0.x, a.c0.y, a.c0.w, a.c2.x, a.c2.y, a.c2.w, a.c3.x, a.c3.y, a.c3.w);
    S::lemma_neg(det3(a.c0.x, a.c0.y, a.c0.w, a.c2.x, a.c2.y, a.c2.w, a.c3.x, a.c3.y, a.c3.w));
    S::lemma_mul(det3(a.c0.x, a.c0.y, a.c0.w, a.c2.x, a.c2.y, a.c2.w, a.c3.x, a.c3.y,
        a.c3.w).negated(), a.c0.z);
    S::lemma_add(det3(a.c0.y, a.c0.z, a.c0.w, a.c2.y, a.c2.z, a.c2.w, a.c3.y, a.c3.z,
        a.c3.w).negated().times(a.c0.x).plus(det3(a.c0.x, a.c0.z, a.c0.w, a.c2.x, a.c2.z, a.c2.w,
        a.c3.x, a.c3.z, a.c3.w).times(a.c0.y)), det3(a.c0.x, a.c0.y, a.c0.w, a.c2.x, a.c2.y,
        a.c2.w, a.c3.x, a.c3.y, a.c3.w).negated().times(a.c0.z));
    lemma_det3_value(a.c0.x, a.c0.y, a.c0.z, a.c2.x, a.c2.y, a.c2.z, a.c3.x, a.c3.y, a.c3.z);
    S::lemma_mul(det3(a.c0.x, a.c0.y, a.c0.z, a.c2.x, a.c2.y, a.c2.z, a.c3.x, a.c3.y, a.c3.z),
        a.c0.w);
    S::lemma_add(det3(a.c0.y, a.c0.z, a.c0.w, a.c2.y, a.c2.z, a.c2.w, a.c3.y, a.c3.z,
        a.c3.w).negated().times(a.c0.x).plus(det3(a.c0.x, a.c0.z, a.c0.w, a.c2.x, a.c2.z, a.c2.w,
        a.c3.x, a.c3.z, a.c3.w).times(a.c0.y)).plus(det3(a.c0.x, a.c0.y, a.c0.w, a.c2.x, a.c2.y,
        a.c2.w, a.c3.x, a.c3.y, a.c3.w).negated().times(a.c0.z)), det3(a.c0.x, a.c0.y, a.c0.z,
        a.c2.x, a.c2.y, a.c2.z, a.c3.x, a.c3.y, a.c3.z).times(a.c0.w));
    lemma_det4_value_left_0_1(
        a.c0.x.value(), a.c0.y.value(), a.c0.z.value(), a.c0.w.value(), a.c1.x.value(),
            a.c1.y.value(), a.c1.z.value(), a.c1.w.value(), a.c2.x.value(), a.c2.y.value(),
            a.c2.z.value(), a.c2.w.value(), a.c3.x.value(), a.c3.y.value(), a.c3.z.value(),
            a.c3.w.value(),
    );
    S::lemma_value_injective(det3(a.c0.y, a.c0.z, a.c0.w, a.c2.y, a.c2.z, a.c2.w, a.c3.y, a.c3.z,
        a.c3.w).negated().times(a.c0.x).plus(det3(a.c0.x, a.c0.z, a.c0.w, a.c2.x, a.c2.z, a.c2.w,
        a.c3.x, a.c3.z, a.c3.w).times(a.c0.y)).plus(det3(a.c0.x, a.c0.y, a.c0.w, a.c2.x, a.c2.y,
        a.c2.w, a.c3.x, a.c3.y, a.c3.w).negated().times(a.c0.z)).plus(det3(a.c0.x, a.c0.y, a.c0.z,
        a.c2.x, a.c2.y, a.c2.z, a.c3.x, a.c3.y, a.c3.z).times(a.c0.w)), S::zero_spec());
    lemma_det3_value(a.c0.y, a.c0.z, a.c0.w, a.c1.y, a.c1.z, a.c1.w, a.c3.y, a.c3.z, a.c3.w);
    S::lemma_mul(det3(a.c0.y, a.c0.z, a.c0.w, a.c1.y, a.c1.z, a.c1.w, a.c3.y, a.c3.z, a.c3.w),
        a.c0.x);
    lemma_det3_value(a.c0.x, a.c0.z, a.c0.w, a.c1.x, a.c1.z, a.c1.w, a.c3.x, a.c3.z, a.c3.w);
    S::lemma_neg(det3(a.c0.x, a.c0.z, a.c0.w, a.c1.x, a.c1.z, a.c1.w, a.c3.x, a.c3.z, a.c3.w));
    S::lemma_mul(det3(a.c0.x, a.c0.z, a.c0.w, a.c1.x, a.c1.z, a.c1.w, a.c3.x, a.c3.z,
        a.c3.w).negated(), a.c0.y);
    S::lemma_add(det3(a.c0.y, a.c0.z, a.c0.w, a.c1.y, a.c1.z, a.c1.w, a.c3.y, a.c3.z,
        a.c3.w).times(a.c0.x), det3(a.c0.x, a.c0.z, a.c0.w, a.c1.x, a.c1.z, a.c1.w, a.c3.x, a.c3.z,
        a.c3.w).negated().times(a.c0.y));
    lemma_det3_value(a.c0.x, a.c0.y, a.c0.w, a.c1.x, a.c1.y, a.c1.w, a.c3.x, a.c3.y, a.c3.w);
    S::lemma_mul(det3(a.c0.x, a.c0.y, a.c0.w, a.c1.x, a.c1.y, a.c1.w, a.c3.x, a.c3.y, a.c3.w),
        a.c0.z);
    S::lemma_add(det3(a.c0.y, a.c0.z, a.c0.w, a.c1.y, a.c1.z, a.c1.w, a.c3.y, a.c3.z,
        a.c3.w).times(a.c0.x).plus(det3(a.c0.x, a.c0.z, a.c0.w, a.c1.x, a.c1.z, a.c1.w, a.c3.x,
        a.c3.z, a.c3.w).negated().times(a.c0.y)), det3(a.c0.x, a.c0.y, a.c0.w, a.c1.x, a.c1.y,
        a.c1.w, a.c3.x, a.c3.y, a.c3.w).times(a.c0.z));
    lemma_det3_value(a.c0.x, a.c0.y, a.c0.z, a.c1.x, a.c1.y, a.c1.z, a.c3.x, a.c3.y, a.c3.z);
    S::lemma_neg(det3(a.c0.x, a.c0.y, a.c0.z, a.c1.x, a.c1.y, a.c1.z, a.c3.x, a.c3.y, a.c3.z));
    S::lemma_mul(det3(a.c0.x, a.c0.y, a.c0.z, a.c1.x, a.c1.y, a.c1.z, a.c3.x, a.c3.y,
        a.c3.z).negated(), a.c0.w);
    S::lemma_add(det3(a.c0.y, a.c0.z, a.c0.w, a.c1.y, a.c1.z, a.c1.w, a.c3.y, a.c3.z,
        a.c3.w).times(a.c0.x).plus(det3(a.c0.x, a.c0.z, a.c0.w, a.c1.x, a.c1.z, a.c1.w, a.c3.x,
        a.c3.z, a.c3.w).negated().times(a.c0.y)).plus(det3(a.c0.x, a.c0.y, a.c0.w, a.c1.x, a.c1.y,
        a.c1.w, a.c3.x, a.c3.y, a.c3.w).times(a.c0.z)), det3(a.c0.x, a.c0.y, a.c0.z, a.c1.x,
        a.c1.y, a.c1.z, a.c3.x, a.c3.y, a.c3.z).negated().times(a.c0.w));
    lemma_det4_value_left_0_2(
        a.c0.x.value(), a.c0.y.value(), a.c0.z.value(), a.c0.w.value(), a.c1.x.value(),
            a.c1.y.value(), a.c1.z.value(), a.c1.w.value(), a.c2.x.value(), a.c2.y.value(),
            a.c2.z.value(), a.c2.w.value(), a.c3.x.value(), a.c3.y.value(), a.c3.z.value(),
            a.c3.w.value(),
    );
    S::lemma_value_injective(det3(a.c0.y, a.c0.z, a.c0.w, a.c1.y, a.c1.z, a.c1.w, a.c3.y, a.c3.z,
        a.c3.w).times(a.c0.x).plus(det3(a.c0.x, a.c0.z, a.c0.w, a.c1.x, a.c1.z, a.c1.w, a.c3.x,
        a.c3.z, a.c3.w).negated().times(a.c0.y)).plus(det3(a.c0.x, a.c0.y, a.c0.w, a.c1.x, a.c1.y,
        a.c1.w, a.c3.x, a.c3.y, a.c3.w).times(a.c0.z)).plus(det3(a.c0.x, a.c0.y, a.c0.z, a.c1.x,
        a.c1.y, a.c1.z, a.c3.x, a.c3.y, a.c3.z).negated().times(a.c0.w)), S::zero_spec());
    lemma_det3_value(a.c0.y, a.c0.z, a.c0.w, a.c1.y, a.c1.z, a.c1.w, a.c2.y, a.c2.z, a.c2.w);
    S::lemma_neg(det3(a.c0.y, a.c0.z, a.c0.w, a.c1.y, a.c1.z, a.c1.w, a.c2.y, a.c2.z, a.c2.w));
    S::lemma_mul(det3(a.c0.y, a.c0.z, a.c0.w, a.c1.y, a.c1.z, a.c1.w, a.c2.y, a.c2.z,
        a.c2.w).negated(), a.c0.x);
    lemma_det3_value(a.c0.x, a.c0.z, a.c0.w, a.c1.x, a.c1.z, a.c1.w, a.c2.x, a.c2.z, a.c2.w);
    S::lemma_mul(det3(a.c0.x, a.c0.z, a.c0.w, a.c1.x, a.c1.z, a.c1.w, a.c2.x, a.c2.z, a.c2.w),
        a.c0.y);
    S::lemma_add(det3(a.c0.y, a.c0.z, a.c0.w, a.c1.y, a.c1.z, a.c1.w, a.c2.y, a.c2.z,
        a.c2.w).negated().times(a.c0.x), det3(a.c0.x, a.c0.z, a.c0.w, a.c1.x, a.c1.z, a.c1.w,
        a.c2.x, a.c2.z, a.c2.w).times(a.c0.y));
    lemma_det3_value(a.c0.x, a.c0.y, a.c0.w, a.c1.x, a.c1.y, a.c1.w, a.c2.x, a.c2.y, a.c2.w);
    S::lemma_neg(det3(a.c0.x, a.c0.y, a.c0.w, a.c1.x, a.c1.y, a.c1.w, a.c2.x, a.c2.y, a.c2.w));
    S::lemma_mul(det3(a.c0.x, a.c0.y, a.c0.w, a.c1.x, a.c1.y, a.c1.w, a.c2.x, a.c2.y,
        a.c2.w).negated(), a.c0.z);
    S::lemma_add(det3(a.c0.y, a.c0.z, a.c0.w, a.c1.y, a.c1.z, a.c1.w, a.c2.y, a.c2.z,
        a.c2.w).negated().times(a.c0.x).plus(det3(a.c0.x, a.c0.z, a.c0.w, a.c1.x, a.c1.z, a.c1.w,
        a.c2.x, a.c2.z, a.c2.w).times(a.c0.y)), det3(a.c0.x, a.c0.y, a.c0.w, a.c1.x, a.c1.y,
        a.c1.w, a.c2.x, a.c2.y, a.c2.w).negated().times(a.c0.z));
    lemma_det3_value(a.c0.x, a.c0.y, a.c0.z, a.c1.x, a.c1.y, a.c1.z, a.c2.x, a.c2.y, a.c2.z);
    S::lemma_mul(det3(a.c0.x, a.c0.y, a.c0.z, a.c1.x, a.c1.y, a.c1.z, a.c2.x, a.c2.y, a.c2.z),
        a.c0.w);
    S::lemma_add(det3(a.c0.y, a.c0.z, a.c0.w, a.c1.y, a.c1.z, a.c1.w, a.c2.y, a.c2.z,
        a.c2.w).negated().times(a.c0.x).plus(det3(a.c0.x, a.c0.z, a.c0.w, a.c1.x, a.c1.z, a.c1.w,
        a.c2.x, a.c2.z, a.c2.w).times(a.c0.y)).plus(det3(a.c0.x, a.c0.y, a.c0.w, a.c1.x, a.c1.y,
        a.c1.w, a.c2.x, a.c2.y, a.c2.w).negated().times(a.c0.z)), det3(a.c0.x, a.c0.y, a.c0.z,
        a.c1.x, a.c1.y, a.c1.z, a.c2.x, a.c2.y, a.c2.z).times(a.c0.w));
    lemma_det4_value_left_0_3(
        a.c0.x.value(), a.c0.y.value(), a.c0.z.value(), a.c0.w.value(), a.c1.x.value(),
            a.c1.y.value(), a.c1.z.value(), a.c1.w.value(), a.c2.x.value(), a.c2.y.value(),
            a.c2.z.value(), a.c2.w.value(), a.c3.x.value(), a.c3.y.value(), a.c3.z.value(),
            a.c3.w.value(),
    );
    S::lemma_value_injective(det3(a.c0.y, a.c0.z, a.c0.w, a.c1.y, a.c1.z, a.c1.w, a.c2.y, a.c2.z,
        a.c2.w).negated().times(a.c0.x).plus(det3(a.c0.x, a.c0.z, a.c0.w, a.c1.x, a.c1.z, a.c1.w,
        a.c2.x, a.c2.z, a.c2.w).times(a.c0.y)).plus(det3(a.c0.x, a.c0.y, a.c0.w, a.c1.x, a.c1.y,
        a.c1.w, a.c2.x, a.c2.y, a.c2.w).negated().times(a.c0.z)).plus(det3(a.c0.x, a.c0.y, a.c0.z,
        a.c1.x, a.c1.y, a.c1.z, a.c2.x, a.c2.y, a.c2.z).times(a.c0.w)), S::zero_spec());
    lemma_det3_value(a.c1.y, a.c1.z, a.c1.w, a.c2.y, a.c2.z, a.c2.w, a.c3.y, a.c3.z, a.c3.w);
    S::lemma_mul(det3(a.c1.y, a.c1.z, a.c1.w, a.c2.y, a.c2.z, a.c2.w, a.c3.y, a.c3.z, a.c3.w),
        a.c1.x);
    lemma_det3_value(a.c1.x, a.c1.z, a.c1.w, a.c2.x, a.c2.z, a.c2.w, a.c3.x, a.c3.z, a.c3.w);
    S::lemma_neg(det3(a.c1.x, a.c1.z, a.c1.w, a.c2.x, a.c2.z, a.c2.w, a.c3.x, a.c3.z, a.c3.w));
    S::lemma_mul(det3(a.c1.x, a.c1.z, a.c1.w, a.c2.x, a.c2.z, a.c2.w, a.c3.x, a.c3.z,
        a.c3.w).negated(), a.c1.y);
    S::lemma_add(det3(a.c1.y, a.c1.z, a.c1.w, a.c2.y, a.c2.z, a.c2.w, a.c3.y, a.c3.z,
        a.c3.w).times(a.c1.x), det3(a.c1.x, a.c1.z, a.c1.w, a.c2.x, a.c2.z, a.c2.w, a.c3.x, a.c3.z,
        a.c3.w).negated().times(a.c1.y));
    lemma_det3_value(a.c1.x, a.c1.y, a.c1.w, a.c2.x, a.c2.y, a.c2.w, a.c3.x, a.c3.y, a.c3.w);
    S::lemma_mul(det3(a.c1.x, a.c1.y, a.c1.w, a.c2.x, a.c2.y, a.c2.w, a.c3.x, a.c3.y, a.c3.w),
        a.c1.z);
    S::lemma_add(det3(a.c1.y, a.c1.z, a.c1.w, a.c2.y, a.c2.z, a.c2.w, a.c3.y, a.c3.z,
        a.c3.w).times(a.c1.x).plus(det3(a.c1.x, a.c1.z, a.c1.w, a.c2.x, a.c2.z, a.c2.w, a.c3.x,
        a.c3.z, a.c3.w).negated().times(a.c1.y)), det3(a.c1.x, a.c1.y, a.c1.w, a.c2.x, a.c2.y,
        a.c2.w, a.c3.x, a.c3.y, a.c3.w).times(a.c1.z));
    lemma_det3_value(a.c1.x, a.c1.y, a.c1.z, a.c2.x, a.c2.y, a.c2.z, a.c3.x, a.c3.y, a.c3.z);
    S::lemma_neg(det3(a.c1.x, a.c1.y, a.c1.z, a.c2.x, a.c2.y, a.c2.z, a.c3.x, a.c3.y, a.c3.z));
    S::lemma_mul(det3(a.c1.x, a.c1.y, a.c1.z, a.c2.x, a.c2.y, a.c2.z, a.c3.x, a.c3.y,
        a.c3.z).negated(), a.c1.w);
    S::lemma_add(det3(a.c1.y, a.c1.z, a.c1.w, a.c2.y, a.c2.z, a.c2.w, a.c3.y, a.c3.z,
        a.c3.w).times(a.c1.x).plus(det3(a.c1.x, a.c1.z, a.c1.w, a.c2.x, a.c2.z, a.c2.w, a.c3.x,
        a.c3.z, a.c3.w).negated().times(a.c1.y)).plus(det3(a.c1.x, a.c1.y, a.c1.w, a.c2.x, a.c2.y,
        a.c2.w, a.c3.x, a.c3.y, a.c3.w).times(a.c1.z)), det3(a.c1.x, a.c1.y, a.c1.z, a.c2.x,
        a.c2.y, a.c2.z, a.c3.x, a.c3.y, a.c3.z).negated().times(a.c1.w));
    lemma_det4_value_left_1_0(
        a.c0.x.value(), a.c0.y.value(), a.c0.z.value(), a.c0.w.value(), a.c1.x.value(),
            a.c1.y.value(), a.c1.z.value(), a.c1.w.value(), a.c2.x.value(), a.c2.y.value(),
            a.c2.z.value(), a.c2.w.value(), a.c3.x.value(), a.c3.y.value(), a.c3.z.value(),
            a.c3.w.value(),
    );
    S::lemma_value_injective(det3(a.c1.y, a.c1.z, a.c1.w, a.c2.y, a.c2.z, a.c2.w, a.c3.y, a.c3.z,
        a.c3.w).times(a.c1.x).plus(det3(a.c1.x, a.c1.z, a.c1.w, a.c2.x, a.c2.z, a.c2.w, a.c3.x,
        a.c3.z, a.c3.w).negated().times(a.c1.y)).plus(det3(a.c1.x, a.c1.y, a.c1.w, a.c2.x, a.c2.y,
        a.c2.w, a.c3.x, a.c3.y, a.c3.w).times(a.c1.z)).plus(det3(a.c1.x, a.c1.y, a.c1.z, a.c2.x,
        a.c2.y, a.c2.z, a.c3.x, a.c3.y, a.c3.z).negated().times(a.c1.w)), S::zero_spec());
    lemma_det3_value(a.c0.y, a.c0.z, a.c0.w, a.c2.y, a.c2.z, a.c2.w, a.c3.y, a.c3.z, a.c3.w);
    S::lemma_neg(det3(a.c0.y, a.c0.z, a.c0.w, a.c2.y, a.c2.z, a.c2.w, a.c3.y, a.c3.z, a.c3.w));
    S::lemma_mul(det3(a.c0.y, a.c0.z, a.c0.w, a.c2.y, a.c2.z, a.c2.w, a.c3.y, a.c3.z,
        a.c3.w).negated(), a.c1.x);
    lemma_det3_value(a.c0.x, a.c0.z, a.c0.w, a.c2.x, a.c2.z, a.c2.w, a.c3.x, a.c3.z, a.c3.w);
    S::lemma_mul(det3(a.c0.x, a.c0.z, a.c0.w, a.c2.x, a.c2.z, a.c2.w, a.c3.x, a.c3.z, a.c3.w),
        a.c1.y);
    S::lemma_add(det3(a.c0.y, a.c0.z, a.c0.w, a.c2.y, a.c2.z, a.c2.w, a.c3.y, a.c3.z,
        a.c3.w).negated().times(a.c1.x), det3(a.c0.x, a.c0.z, a.c0.w, a.c2.x, a.c2.z, a.c2.w,
        a.c3.x, a.c3.z, a.c3.w).times(a.c1.y));
    lemma_det3_value(a.c0.x, a.c0.y, a.c0.w, a.c2.x, a.c2.y, a.c2.w, a.c3.x, a.c3.y, a.c3.w);
    S::lemma_neg(det3(a.c0.x, a.c0.y, a.c0.w, a.c2.x, a.c2.y, a.c2.w, a.c3.x, a.c3.y, a.c3.w));
    S::lemma_mul(det3(a.c0.x, a.c0.y, a.c0.w, a.c2.x, a.c2.y, a.c2.w, a.c3.x, a.c3.y,
        a.c3.w).negated(), a.c1.z);
    S::lemma_add(det3(a.c0.y, a.c0.z, a.c0.w, a.c2.y, a.c2.z, a.c2.w, a.c3.y, a.c3.z,
        a.c3.w).negated().times(a.c1.x).plus(det3(a.c0.x, a.c0.z, a.c0.w, a.c2.x, a.c2.z, a.c2.w,
        a.c3.x, a.c3.z, a.c3.w).times(a.c1.y)), det3(a.c0.x, a.c0.y, a.c0.w, a.c2.x, a.c2.y,
        a.c2.w, a.c3.x, a.c3.y, a.c3.w).negated().times(a.c1.z));
    lemma_det3_value(a.c0.x, a.c0.y, a.c0.z, a.c2.x, a.c2.y, a.c2.z, a.c3.x, a.c3.y, a.c3.z);
    S::lemma_mul(det3(a.c0.x, a.c0.y, a.c0.z, a.c2.x, a.c2.y, a.c2.z, a.c3.x, a.c3.y, a.c3.z),
        a.c1.w);
    S::lemma_add(det3(a.c0.y, a.c0.z, a.c0.w, a.c2.y, a.c2.z, a.c2.w, a.c3.y, a.c3.z,
        a.c3.w).negated().times(a.c1.x).plus(det3(a.c0.x, a.c0.z, a.c0.w, a.c2.x, a.c2.z, a.c2.w,
        a.c3.x, a.c3.z, a.c3.w).times(a.c1.y)).plus(det3(a.c0.x, a.c0.y, a.c0.w, a.c2.x, a.c2.y,
        a.c2.w, a.c3.x, a.c3.y, a.c3.w).negated().times(a.c1.z)), det3(a.c0.x, a.c0.y, a.c0.z,
        a.c2.x, a.c2.y, a.c2.z, a.c3.x, a.c3.y, a.c3.z).times(a.c1.w));
    lemma_det4_value_left_1_1(
        a.c0.x.value(), a.c0.y.value(), a.c0.z.value(), a.c0.w.value(), a.c1.x.value(),
            a.c1.y.value(), a.c1.z.value(), a.c1.w.value(), a.c2.x.value(), a.c2.y.value(),
            a.c2.z.value(), a.c2.w.value(), a.c3.x.value(), a.c3.y.value(), a.c3.z.value(),
            a.c3.w.value(),
    );
    S::lemma_value_injective(det3(a.c0.y, a.c0.z, a.c0.w, a.c2.y, a.c2.z, a.c2.w, a.c3.y, a.c3.z,
        a.c3.w).negated().times(a.c1.x).plus(det3(a.c0.x, a.c0.z, a.c0.w, a.c2.x, a.c2.z, a.c2.w,
        a.c3.x, a.c3.z, a.c3.w).times(a.c1.y)).plus(det3(a.c0.x, a.c0.y, a.c0.w, a.c2.x, a.c2.y,
        a.c2.w, a.c3.x, a.c3.y, a.c3.w).negated().times(a.c1.z)).plus(det3(a.c0.x, a.c0.y, a.c0.z,
        a.c2.x, a.c2.y, a.c2.z, a.c3.x, a.c3.y, a.c3.z).times(a.c1.w)), a.determinant_spec());
    lemma_det3_value(a.c0.y, a.c0.z, a.c0.w, a.c1.y, a.c1.z, a.c1.w, a.c3.y, a.c3.z, a.c3.w);
    S::lemma_mul(det3(a.c0.y, a.c0.z, a.c0.w, a.c1.y, a.c1.z, a.c1.w, a.c3.y, a.c3.z, a.c3.w),
        a.c1.x);
    lemma_det3_value(a.c0.x, a.c0.z, a.c0.w, a.c1.x, a.c1.z, a.c1.w, a.c3.x, a.c3.z, a.c3.w);
    S::lemma_neg(det3(a.c0.x, a.c0.z, a.c0.w, a.c1.x, a.c1.z, a.c1.w, a.c3.x, a.c3.z, a.c3.w));
    S::lemma_mul(det3(a.c0.x, a.c0.z, a.c0.w, a.c1.x, a.c1.z, a.c1.w, a.c3.x, a.c3.z,
        a.c3.w).negated(), a.c1.y);
    S::lemma_add(det3(a.c0.y, a.c0.z, a.c0.w, a.c1.y, a.c1.z, a.c1.w, a.c3.y, a.c3.z,
        a.c3.w).times(a.c1.x), det3(a.c0.x, a.c0.z, a.c0.w, a.c1.x, a.c1.z, a.c1.w, a.c3.x, a.c3.z,
        a.c3.w).negated().times(a.c1.y));
    lemma_det3_value(a.c0.x, a.c0.y, a.c0.w, a.c1.x, a.c1.y, a.c1.w, a.c3.x, a.c3.y, a.c3.w);
    S::lemma_mul(det3(a.c0.x, a.c0.y, a.c0.w, a.c1.x, a.c1.y, a.c1.w, a.c3.x, a.c3.y, a.c3.w),
        a.c1.z);
    S::lemma_add(det3(a.c0.y, a.c0.z, a.c0.w, a.c1.y, a.c1.z, a.c1.w, a.c3.y, a.c3.z,
        a.c3.w).times(a.c1.x).plus(det3(a.c0.x, a.c0.z, a.c0.w, a.c1.x, a.c1.z, a.c1.w, a.c3.x,
        a.c3.z, a.c3.w).negated().times(a.c1.y)), det3(a.c0.x, a.c0.y, a.c0.w, a.c1.x, a.c1.y,
        a.c1.w, a.c3.x, a.c3.y, a.c3.w).times(a.c1.z));
    lemma_det3_value(a.c0.x, a.c0.y, a.c0.z, a.c1.x, a.c1.y, a.c1.z, a.c3.x, a.c3.y, a.c3.z);
    S::lemma_neg(det3(a.c0.x, a.c0.y, a.c0.z, a.c1.x, a.c1.y, a.c1.z, a.c3.x, a.c3.y, a.c3.z));
    S::lemma_mul(det3(a.c0.x, a.c0.y, a.c0.z, a.c1.x, a.c1.y, a.c1.z, a.c3.x, a.c3.y,
        a.c3.z).negated(), a.c1.w);
    S::lemma_add(det3(a.c0.y, a.c0.z, a.c0.w, a.c1.y, a.c1.z, a.c1.w, a.c3.y, a.c3.z,
        a.c3.w).times(a.c1.x).plus(det3(a.c0.x, a.c0.z, a.c0.w, a.c1.x, a.c1.z, a.c1.w, a.c3.x,
        a.c3.z, a.c3.w).negated().times(a.c1.y)).plus(det3(a.c0.x, a.c0.y, a.c0.w, a.c1.x, a.c1.y,
        a.c1.w, a.c3.x, a.c3.y, a.c3.w).times(a.c1.z)), det3(a.c0.x, a.c0.y, a.c0.z, a.c1.x,
        a.c1.y, a.c1.z, a.c3.x, a.c3.y, a.c3.z).negated().times(a.c1.w));
    lemma_det4_value_left_1_2(
        a.c0.x.value(), a.c0.y.value(), a.c0.z.value(), a.c0.w.value(), a.c1.x.value(),
            a.c1.y.value(), a.c1.z.value(), a.c1.w.value(), a.c2.x.value(), a.c2.y.value(),
            a.c2.z.value(), a.c2.w.value(), a.c3.x.value(), a.c3.y.value(), a.c3.z.value(),
            a.c3.w.value(),
    );
    S::lemma_value_injective(det3(a.c0.y, a.c0.z, a.c0.w, a.c1.y, a.c1.z, a.c1.w, a.c3.y, a.c3.z,
        a.c3.w).times(a.c1.x).plus(det3(a.c0.x, a.c0.z, a.c0.w, a.c1.x, a.c1.z, a.c1.w, a.c3.x,
        a.c3.z, a.c3.w).negated().times(a.c1.y)).plus(det3(a.c0.x, a.c0.y, a.c0.w, a.c1.x, a.c1.y,
        a.c1.w, a.c3.x, a.c3.y, a.c3.w).times(a.c1.z)).plus(det3(a.c0.x, a.c0.y, a.c0.z, a.c1.x,
        a.c1.y, a.c1.z, a.c3.x, a.c3.y, a.c3.z).negated().times(a.c1.w)), S::zero_spec());
    lemma_det3_value(a.c0.y, a.c0.z, a.c0.w, a.c1.y, a.c1.z, a.c1.w, a.c2.y, a.c2.z, a.c2.w);
    S::lemma_neg(det3(a.c0.y, a.c0.z, a.c0.w, a.c1.y, a.c1.z, a.c1.w, a.c2.y, a.c2.z, a.c2.w));
    S::lemma_mul(det3(a.c0.y, a.c0.z, a.c0.w, a.c1.y, a.c1.z, a.c1.w, a.c2.y, a.c2.z,
        a.c2.w).negated(), a.c1.x);
    lemma_det3_value(a.c0.x, a.c0.z, a.c0.w, a.c1.x, a.c1.z, a.c1.w, a.c2.x, a.c2.z, a.c2.w);
    S::lemma_mul(det3(a.c0.x, a.c0.z, a.c0.w, a.c1.x, a.c1.z, a.c1.w, a.c2.x, a.c2.z, a.c2.w),
        a.c1.y);
    S::lemma_add(det3(a.c0.y, a.c0.z, a.c0.w, a.c1.y, a.c1.z, a.c1.w, a.c2.y, a.c2.z,
        a.c2.w).negated().times(a.c1.x), det3(a.c0.x, a.c0.z, a.c0.w, a.c1.x, a.c1.z, a.c1.w,
        a.c2.x, a.c2.z, a.c2.w).times(a.c1.y));
    lemma_det3_value(a.c0.x, a.c0.y, a.c0.w, a.c1.x, a.c1.y, a.c1.w, a.c2.x, a.c2.y, a.c2.w);
    S::lemma_neg(det3(a.c0.x, a.c0.y, a.c0.w, a.c1.x, a.c1.y, a.c1.w, a.c2.x, a.c2.y, a.c2.w));
    S::lemma_mul(det3(a.c0.x, a.c0.y, a.c0.w, a.c1.x, a.c1.y, a.c1.w, a.c2.x, a.c2.y,
        a.c2.w).negated(), a.c1.z);
    S::lemma_add(det3(a.c0.y, a.c0.z, a.c0.w, a.c1.y, a.c1.z, a.c1.w, a.c2.y, a.c2.z,
        a.c2.w).negated().times(a.c1.x).plus(det3(a.c0.x, a.c0.z, a.c0.w, a.c1.x, a.c1.z, a.c1.w,
        a.c2.x, a.c2.z, a.c2.w).times(a.c1.y)), det3(a.c0.x, a.c0.y, a.c0.w, a.c1.x, a.c1.y,
        a.c1.w, a.c2.x, a.c2.y, a.c2.w).negated().times(a.c1.z));
    lemma_det3_value(a.c0.x, a.c0.y, a.c0.z, a.c1.x, a.c1.y, a.c1.z, a.c2.x, a.c2.y, a.c2.z);
    S::lemma_mul(det3(a.c0.x, a.c0.y, a.c0.z, a.c1.x, a.c1.y, a.c1.z, a.c2.x, a.c2.y, a.c2.z),
        a.c1.w);
    S::lemma_add(det3(a.c0.y, a.c0.z, a.c0.w, a.c1.y, a.c1.z, a.c1.w, a.c2.y, a.c2.z,
        a.c2.w).negated().times(a.c1.x).plus(det3(a.c0.x, a.c0.z, a.c0.w, a.c1.x, a.c1.z, a.c1.w,
        a.c2.x, a.c2.z, a.c2.w).times(a.c1.y)).plus(det3(a.c0.x, a.c0.y, a.c0.w, a.c1.x, a.c1.y,
        a.c1.w, a.c2.x, a.c2.y, a.c2.w).negated().times(a.c1.z)), det3(a.c0.x, a.c0.y, a.c0.z,
        a.c1.x, a.c1.y, a.c1.z, a.c2.x, a.c2.y, a.c2.z).times(a.c1.w));
    lemma_det4_value_left_1_3(
        a.c0.x.value(), a.c0.y.value(), a.c0.z.value(), a.c0.w.value(), a.c1.x.value(),
            a.c1.y.value(), a.c1.z.value(), a.c1.w.value(), a.c2.x.value(), a.c2.y.value(),
            a.c2.z.value(), a.c2.w.value(), a.c3.x.value(), a.c3.y.value(), a.c3.z.value(),
            a.c3.w.value(),
    );
    S::lemma_value_injective(det3(a.c0.y, a.c0.z, a.c0.w, a.c1.y, a.c1.z, a.c1.w, a.c2.y, a.c2.z,
        a.c2.w).negated().times(a.c1.x).plus(det3(a.c0.x, a.c0.z, a.c0.w, a.c1.x, a.c1.z, a.c1.w,
        a.c2.x, a.c2.z, a.c2.w).times(a.c1.y)).plus(det3(a.c0.x, a.c0.y, a.c0.w, a.c1.x, a.c1.y,
        a.c1.w, a.c2.x, a.c2.y, a.c2.w).negated().times(a.c1.z)).plus(det3(a.c0.x, a.c0.y, a.c0.z,
        a.c1.x, a.c1.y, a.c1.z, a.c2.x, a.c2.y, a.c2.z).times(a.c1.w)), S::zero_spec());
    lemma_det3_value(a.c1.y, a.c1.z, a.c1.w, a.c2.y, a.c2.z, a.c2.w, a.c3.y, a.c3.z, a.c3.w);
    S::lemma_mul(det3(a.c1.y, a.c1.z, a.c1.w, a.c2.y, a.c2.z, a.c2.w, a.c3.y, a.c3.z, a.c3.w),
        a.c2.x);
    lemma_det3_value(a.c1.x, a.c1.z, a.c1.w, a.c2.x, a.c2.z, a.c2.w, a.c3.x, a.c3.z, a.c3.w);
    S::lemma_neg(det3(a.c1.x, a.c1.z, a.c1.w, a.c2.x, a.c2.z, a.c2.w, a.c3.x, a.c3.z, a.c3.w));
    S::lemma_mul(det3(a.c1.x, a.c1.z, a.c1.w, a.c2.x, a.c2.z, a.c2.w, a.c3.x, a.c3.z,
        a.c3.w).negated(), a.c2.y);
    S::lemma_add(det3(a.c1.y, a.c1.z, a.c1.w, a.c2.y, a.c2.z, a.c2.w, a.c3.y, a.c3.z,
        a.c3.w).times(a.c2.x), det3(a.c1.x, a.c1.z, a.c1.w, a.c2.x, a.c2.z, a.c2.w, a.c3.x, a.c3.z,
        a.c3.w).negated().times(a.c2.y));
    lemma_det3_value(a.c1.x, a.c1.y, a.c1.w, a.c2.x, a.c2.y, a.c2.w, a.c3.x, a.c3.y, a.c3.w);
    S::lemma_mul(det3(a.c1.x, a.c1.y, a.c1.w, a.c2.x, a.c2.y, a.c2.w, a.c3.x, a.c3.y, a.c3.w),
        a.c2.z);
    S::lemma_add(det3(a.c1.y, a.c1.z, a.c1.w, a.c2.y, a.c2.z, a.c2.w, a.c3.y, a.c3.z,
        a.c3.w).times(a.c2.x).plus(det3(a.c1.x, a.c1.z, a.c1.w, a.c2.x, a.c2.z, a.c2.w, a.c3.x,
        a.c3.z, a.c3.w).negated().times(a.c2.y)), det3(a.c1.x, a.c1.y, a.c1.w, a.c2.x, a.c2.y,
        a.c2.w, a.c3.x, a.c3.y, a.c3.w).times(a.c2.z));
    lemma_det3_value(a.c1.x, a.c1.y, a.c1.z, a.c2.x, a.c2.y, a.c2.z, a.c3.x, a.c3.y, a.c3.z);
    S::lemma_neg(det3(a.c1.x, a.c1.y, a.c1.z, a.c2.x, a.c2.y, a.c2.z, a.c3.x, a.c3.y, a.c3.z));
    S::lemma_mul(det3(a.c1.x, a.c1.y, a.c1.z, a.c2.x, a.c2.y, a.c2.z, a.c3.x, a.c3.y,
        a.c3.z).negated(), a.c2.w);
    S::lemma_add(det3(a.c1.y, a.c1.z, a.c1.w, a.c2.y, a.c2.z, a.c2.w, a.c3.y, a.c3.z,
        a.c3.w).times(a.c2.x).plus(det3(a.c1.x, a.c1.z, a.c1.w, a.c2.x, a.c2.z, a.c2.w, a.c3.x,
        a.c3.z, a.c3.w).negated().times(a.c2.y)).plus(det3(a.c1.x, a.c1.y, a.c1.w, a.c2.x, a.c2.y,
        a.c2.w, a.c3.x, a.c3.y, a.c3.w).times(a.c2.z)), det3(a.c1.x, a.c1.y, a.c1.z, a.c2.x,
        a.c2.y, a.c2.z, a.c3.x, a.c3.y, a.c3.z).negated().times(a.c2.w));
    lemma_det4_value_left_2_0(
        a.c0.x.value(), a.c0.y.value(), a.c0.z.value(), a.c0.w.value(), a.c1.x.value(),
            a.c1.y.value(), a.c1.z.value(), a.c1.w.value(), a.c2.x.value(), a.c2.y.value(),
            a.c2.z.value(), a.c2.w.value(), a.c3.x.value(), a.c3.y.value(), a.c3.z.value(),
            a.c3.w.value(),
    );
    S::lemma_value_injective(det3(a.c1.y, a.c1.z, a.c1.w, a.c2.y, a.c2.z, a.c2.w, a.c3.y, a.c3.z,
        a.c3.w).times(a.c2.x).plus(det3(a.c1.x, a.c1.z, a.c1.w, a.c2.x, a.c2.z, a.c2.w, a.c3.x,
        a.c3.z, a.c3.w).negated().times(a.c2.y)).plus(det3(a.c1.x, a.c1.y, a.c1.w, a.c2.x, a.c2.y,
        a.c2.w, a.c3.x, a.c3.y, a.c3.w).times(a.c2.z)).plus(det3(a.c1.x, a.c1.y, a.c1.z, a.c2.x,
        a.c2.y, a.c2.z, a.c3.x, a.c3.y, a.c3.z).negated().times(a.c2.w)), S::zero_spec());
    lemma_det3_value(a.c0.y, a.c0.z, a.c0.w, a.c2.y, a.c2.z, a.c2.w, a.c3.y, a.c3.z, a.c3.w);
    S::lemma_neg(det3(a.c0.y, a.c0.z, a.c0.w, a.c2.y, a.c2.z, a.c2.w, a.c3.y, a.c3.z, a.c3.w));
    S::lemma_mul(det3(a.c0.y, a.c0.z, a.c0.w, a.c2.y, a.c2.z, a.c2.w, a.c3.y, a.c3.z,
        a.c3.w).negated(), a.c2.x);
    lemma_det3_value(a.c0.x, a.c0.z, a.c0.w, a.c2.x, a.c2.z, a.c2.w, a.c3.x, a.c3.z, a.c3.w);
    S::lemma_mul(det3(a.c0.x, a.c0.z, a.c0.w, a.c2.x, a.c2.z, a.c2.w, a.c3.x, a.c3.z, a.c3.w),
        a.c2.y);
    S::lemma_add(det3(a.c0.y, a.c0.z, a.c0.w, a.c2.y, a.c2.z, a.c2.w, a.c3.y, a.c3.z,
        a.c3.w).negated().times(a.c2.x), det3(a.c0.x, a.c0.z, a.c0.w, a.c2.x, a.c2.z, a.c2.w,
        a.c3.x, a.c3.z, a.c3.w).times(a.c2.y));
    lemma_det3_value(a.c0.x, a.c0.y, a.c0.w, a.c2.x, a.c2.y, a.c2.w, a.c3.x, a.c3.y, a.c3.w);
    S::lemma_neg(det3(a.c0.x, a.c0.y, a.c0.w, a.c2.x, a.c2.y, a.c2.w, a.c3.x, a.c3.y, a.c3.w));
    S::lemma_mul(det3(a.c0.x, a.c0.y, a.c0.w, a.c2.x, a.c2.y, a.c2.w, a.c3.x, a.c3.y,
        a.c3.w).negated(), a.c2.z);
    S::lemma_add(det3(a.c0.y, a.c0.z, a.c0.w, a.c2.y, a.c2.z, a.c2.w, a.c3.y, a.c3.z,
        a.c3.w).negated().times(a.c2.x).plus(det3(a.c0.x, a.c0.z, a.c0.w, a.c2.x, a.c2.z, a.c2.w,
        a.c3.x, a.c3.z, a.c3.w).times(a.c2.y)), det3(a.c0.x, a.c0.y, a.c0.w, a.c2.x, a.c2.y,
        a.c2.w, a.c3.x, a.c3.y, a.c3.w).negated().times(a.c2.z));
    lemma_det3_value(a.c0.x, a.c0.y, a.c0.z, a.c2.x, a.c2.y, a.c2.z, a.c3.x, a.c3.y, a.c3.z);
    S::lemma_mul(det3(a.c0.x, a.c0.y, a.c0.z, a.c2.x, a.c2.y, a.c2.z, a.c3.x, a.c3.y, a.c3.z),
        a.c2.w);
    S::lemma_add(det3(a.c0.y, a.c0.z, a.c0.w, a.c2.y, a.c2.z, a.c2.w, a.c3.y, a.c3.z,
        a.c3.w).negated().times(a.c2.x).plus(det3(a.c0.x, a.c0.z, a.c0.w, a.c2.x, a.c2.z, a.c2.w,
        a.c3.x, a.c3.z, a.c3.w).times(a.c2.y)).plus(det3(a.c0.x, a.c0.y, a.c0.w, a.c2.x, a.c2.y,
        a.c2.w, a.c3.x, a.c3.y, a.c3.w).negated().times(a.c2.z)), det3(a.c0.x, a.c0.y, a.c0.z,
        a.c2.x, a.c2.y, a.c2.z, a.c3.x, a.c3.y, a.c3.z).times(a.c2.w));
    lemma_det4_value_left_2_1(
        a.c0.x.value(), a.c0.y.value(), a.c0.z.value(), a.c0.w.value(), a.c1.x.value(),
            a.c1.y.value(), a.c1.z.value(), a.c1.w.value(), a.c2.x.value(), a.c2.y.value(),
            a.c2.z.value(), a.c2.w.value(), a.c3.x.value(), a.c3.y.value(), a.c3.z.value(),
            a.c3.w.value(),
    );
    S::lemma_value_injective(det3(a.c0.y, a.c0.z, a.c0.w, a.c2.y, a.c2.z, a.c2.w, a.c3.y, a.c3.z,
        a.c3.w).negated().times(a.c2.x).plus(det3(a.c0.x, a.c0.z, a.c0.w, a.c2.x, a.c2.z, a.c2.w,
        a.c3.x, a.c3.z, a.c3.w).times(a.c2.y)).plus(det3(a.c0.x, a.c0.y, a.c0.w, a.c2.x, a.c2.y,
        a.c2.w, a.c3.x, a.c3.y, a.c3.w).negated().times(a.c2.z)).plus(det3(a.c0.x, a.c0.y, a.c0.z,
        a.c2.x, a.c2.y, a.c2.z, a.c3.x, a.c3.y, a.c3.z).times(a.c2.w)), S::zero_spec());
    lemma_det3_value(a.c0.y, a.c0.z, a.c0.w, a.c1.y, a.c1.z, a.c1.w, a.c3.y, a.c3.z, a.c3.w);
    S::lemma_mul(det3(a.c0.y, a.c0.z, a.c0.w, a.c1.y, a.c1.z, a.c1.w, a.c3.y, a.c3.z, a.c3.w),
        a.c2.x);
    lemma_det3_value(a.c0.x, a.c0.z, a.c0.w, a.c1.x, a.c1.z, a.c1.w, a.c3.x, a.c3.z, a.c3.w);
    S::lemma_neg(det3(a.c0.x, a.c0.z, a.c0.w, a.c1.x, a.c1.z, a.c1.w, a.c3.x, a.c3.z, a.c3.w));
    S::lemma_mul(det3(a.c0.x, a.c0.z, a.c0.w, a.c1.x, a.c1.z, a.c1.w, a.c3.x, a.c3.z,
        a.c3.w).negated(), a.c2.y);
    S::lemma_add(det3(a.c0.y, a.c0.z, a.c0.w, a.c1.y, a.c1.z, a.c1.w, a.c3.y, a.c3.z,
        a.c3.w).times(a.c2.x), det3(a.c0.x, a.c0.z, a.c0.w, a.c1.x, a.c1.z, a.c1.w, a.c3.x, a.c3.z,
        a.c3.w).negated().times(a.c2.y));
    lemma_det3_value(a.c0.x, a.c0.y, a.c0.w, a.c1.x, a.c1.y, a.c1.w, a.c3.x, a.c3.y, a.c3.w);
    S::lemma_mul(det3(a.c0.x, a.c0.y, a.c0.w, a.c1.x, a.c1.y, a.c1.w, a.c3.x, a.c3.y, a.c3.w),
        a.c2.z);
    S::lemma_add(det3(a.c0.y, a.c0.z, a.c0.w, a.c1.y, a.c1.z, a.c1.w, a.c3.y, a.c3.z,
        a.c3.w).times(a.c2.x).plus(det3(a.c0.x, a.c0.z, a.c0.w, a.c1.x, a.c1.z, a.c1.w, a.c3.x,
        a.c3.z, a.c3.w).negated().times(a.c2.y)), det3(a.c0.x, a.c0.y, a.c0.w, a.c1.x, a.c1.y,
        a.c1.w, a.c3.x, a.c3.y, a.c3.w).times(a.c2.z));
    lemma_det3_value(a.c0.x, a.c0.y, a.c0.z, a.c1.x, a.c1.y, a.c1.z, a.c3.x, a.c3.y, a.c3.z);
    S::lemma_neg(det3(a.c0.x, a.c0.y, a.c0.z, a.c1.x, a.c1.y, a.c1.z, a.c3.x, a.c3.y, a.c3.z));
    S::lemma_mul(det3(a.c0.x, a.c0.y, a.c0.z, a.c1.x, a.c1.y, a.c1.z, a.c3.x, a.c3.y,
        a.c3.z).negated(), a.c2.w);
    S::lemma_add(det3(a.c0.y, a.c0.z, a.c0.w, a.c1.y, a.c1.z, a.c1.w, a.c3.y, a.c3.z,
        a.c3.w).times(a.c2.x).plus(det3(a.c0.x, a.c0.z, a.c0.w, a.c1.x, a.c1.z, a.c1.w, a.c3.x,
        a.c3.z, a.c3.w).negated().times(a.c2.y)).plus(det3(a.c0.x, a.c0.y, a.c0.w, a.c1.x, a.c1.y,
        a.c1.w, a.c3.x, a.c3.y, a.c3.w).times(a.c2.z)), det3(a.c0.x, a.c0.y, a.c0.z, a.c1.x,
        a.c1.y, a.c1.z, a.c3.x, a.c3.y, a.c3.z).negated().times(a.c2.w));
    lemma_det4_value_left_2_2(
        a.c0.x.value(), a.c0.y.value(), a.c0.z.value(), a.c0.w.value(), a.c1.x.value(),
            a.c1.y.value(), a.c1.z.value(), a.c1.w.value(), a.c2.x.value(), a.c2.y.value(),
            a.c2.z.value(), a.c2.w.value(), a.c3.x.value(), a.c3.y.value(), a.c3.z.value(),
            a.c3.w.value(),
    );
    S::lemma_value_injective(det3(a.c0.y, a.c0.z, a.c0.w, a.c1.y, a.c1.z, a.c1.w, a.c3.y, a.c3.z,
        a.c3.w).times(a.c2.x).plus(det3(a.c0.x, a.c0.z, a.c0.w, a.c1.x, a.c1.z, a.c1.w, a.c3.x,
        a.c3.z, a.c3.w).negated().times(a.c2.y)).plus(det3(a.c0.x, a.c0.y, a.c0.w, a.c1.x, a.c1.y,
        a.c1.w, a.c3.x, a.c3.y, a.c3.w).times(a.c2.z)).plus(det3(a.c0.x, a.c0.y, a.c0.z, a.c1.x,
        a.c1.y, a.c1.z, a.c3.x, a.c3.y, a.c3.z).negated().times(a.c2.w)), a.determinant_spec());
    lemma_det3_value(a.c0.y, a.c0.z, a.c0.w, a.c1.y, a.c1.z, a.c1.w, a.c2.y, a.c2.z, a.c2.w);
    S::lemma_neg(det3(a.c0.y, a.c0.z, a.c0.w, a.c1.y, a.c1.z, a.c1.w, a.c2.y, a.c2.z, a.c2.w));
    S::lemma_mul(det3(a.c0.y, a.c0.z, a.c0.w, a.c1.y, a.c1.z, a.c1.w, a.c2.y, a.c2.z,
        a.c2.w).negated(), a.c2.x);
    lemma_det3_value(a.c0.x, a.c0.z, a.c0.w, a.c1.x, a.c1.z, a.c1.w, a.c2.x, a.c2.z, a.c2.w);
    S::lemma_mul(det3(a.c0.x, a.c0.z, a.c0.w, a.c1.x, a.c1.z, a.c1.w, a.c2.x, a.c2.z, a.c2.w),
        a.c2.y);
    S::lemma_add(det3(a.c0.y, a.c0.z, a.c0.w, a.c1.y, a.c1.z, a.c1.w, a.c2.y, a.c2.z,
        a.c2.w).negated().times(a.c2.x), det3(a.c0.x, a.c0.z, a.c0.w, a.c1.x, a.c1.z, a.c1.w,
        a.c2.x, a.c2.z, a.c2.w).times(a.c2.y));
    lemma_det3_value(a.c0.x, a.c0.y, a.c0.w, a.c1.x, a.c1.y, a.c1.w, a.c2.x, a.c2.y, a.c2.w);
    S::lemma_neg(det3(a.c0.x, a.c0.y, a.c0.w, a.c1.x, a.c1.y, a.c1.w, a.c2.x, a.c2.y, a.c2.w));
    S::lemma_mul(det3(a.c0.x, a.c0.y, a.c0.w, a.c1.x, a.c1.y, a.c1.w, a.c2.x, a.c2.y,
        a.c2.w).negated(), a.c2.z);
    S::lemma_add(det3(a.c0.y, a.c0.z, a.c0.w, a.c1.y, a.c1.z, a.c1.w, a.c2.y, a.c2.z,
        a.c2.w).negated().times(a.c2.x).plus(det3(a.c0.x, a.c0.z, a.c0.w, a.c1.x, a.c1.z, a.c1.w,
        a.c2.x, a.c2.z, a.c2.w).times(a.c2.y)), det3(a.c0.x, a.c0.y, a.c0.w, a.c1.x, a.c1.y,
        a.c1.w, a.c2.x, a.c2.y, a.c2.w).negated().times(a.c2.z));
    lemma_det3_value(a.c0.x, a.c0.y, a.c0.z, a.c1.x, a.c1.y, a.c1.z, a.c2.x, a.c2.y, a.c2.z);
    S::lemma_mul(det3(a.c0.x, a.c0.y, a.c0.z, a.c1.x, a.c1.y, a.c1.z, a.c2.x, a.c2.y, a.c2.z),
        a.c2.w);
    S::lemma_add(det3(a.c0.y, a.c0.z, a.c0.w, a.c1.y, a.c1.z, a.c1.w, a.c2.y, a.c2.z,
        a.c2.w).negated().times(a.c2.x).plus(det3(a.c0.x, a.c0.z, a.c0.w, a.c1.x, a.c1.z, a.c1.w,
        a.c2.x, a.c2.z, a.c2.w).times(a.c2.y)).plus(det3(a.c0.x, a.c0.y, a.c0.w, a.c1.x, a.c1.y,
        a.c1.w, a.c2.x, a.c2.y, a.c2.w).negated().times(a.c2.z)), det3(a.c0.x, a.c0.y, a.c0.z,
        a.c1.x, a.c1.y, a.c1.z, a.c2.x, a.c2.y, a.c2.z).times(a.c2.w));
    lemma_det4_value_left_2_3(
        a.c0.x.value(), a.c0.y.value(), a.c0.z.value(), a.c0.w.value(), a.c1.x.value(),
            a.c1.y.value(), a.c1.z.value(), a.c1.w.value(), a.c2.x.value(), a.c2.y.value(),
            a.c2.z.value(), a.c2.w.value(), a.c3.x.value(), a.c3.y.value(), a.c3.z.value(),
            a.c3.w.value(),
    );
    S::lemma_value_injective(det3(a.c0.y, a.c0.z, a.c0.w, a.c1.y, a.c1.z, a.c1.w, a.c2.y, a.c2.z,
        a.c2.w).negated().times(a.c2.x).plus(det3(a.c0.x, a.c0.z, a.c0.w, a.c1.x, a.c1.z, a.c1.w,
        a.c2.x, a.c2.z, a.c2.w).times(a.c2.y)).plus(det3(a.c0.x, a.c0.y, a.c0.w, a.c1.x, a.c1.y,
        a.c1.w, a.c2.x, a.c2.y, a.c2.w).negated().times(a.c2.z)).plus(det3(a.c0.x, a.c0.y, a.c0.z,
        a.c1.x, a.c1.y, a.c1.z, a.c2.x, a.c2.y, a.c2.z).times(a.c2.w)), S::zero_spec());
    lemma_det3_value(a.c1.y, a.c1.z, a.c1.w, a.c2.y, a.c2.z, a.c2.w, a.c3.y, a.c3.z, a.c3.w);
    S::lemma_mul(det3(a.c1.y, a.c1.z, a.c1.w, a.c2.y, a.c2.z, a.c2.w, a.c3.y, a.c3.z, a.c3.w),
        a.c3.x);
    lemma_det3_value(a.c1.x, a.c1.z, a.c1.w, a.c2.x, a.c2.z, a.c2.w, a.c3.x, a.c3.z, a.c3.w);
    S::lemma_neg(det3(a.c1.x, a.c1.z, a.c1.w, a.c2.x, a.c2.z, a.c2.w, a.c3.x, a.c3.z, a.c3.w));
    S::lemma_mul(det3(a.c1.x, a.c1.z, a.c1.w, a.c2.x, a.c2.z, a.c2.w, a.c3.x, a.c3.z,
        a.c3.w).negated(), a.c3.y);
    S::lemma_add(det3(a.c1.y, a.c1.z, a.c1.w, a.c2.y, a.c2.z, a.c2.w, a.c3.y, a.c3.z,
        a.c3.w).times(a.c3.x), det3(a.c1.x, a.c1.z, a.c1.w, a.c2.x, a.c2.z, a.c2.w, a.c3.x, a.c3.z,
        a.c3.w).negated().times(a.c3.y));
    lemma_det3_value(a.c1.x, a.c1.y, a.c1.w, a.c2.x, a.c2.y, a.c2.w, a.c3.x, a.c3.y, a.c3.w);
    S::lemma_mul(det3(a.c1.x, a.c1.y, a.c1.w, a.c2.x, a.c2.y, a.c2.w, a.c3.x, a.c3.y, a.c3.w),
        a.c3.z);
    S::lemma_add(det3(a.c1.y, a.c1.z, a.c1.w, a.c2.y, a.c2.z, a.c2.w, a.c3.y, a.c3.z,
        a.c3.w).times(a.c3.x).plus(det3(a.c1.x, a.c1.z, a.c1.w, a.c2.x, a.c2.z, a.c2.w, a.c3.x,
        a.c3.z, a.c3.w).negated().times(a.c3.y)), det3(a.c1.x, a.c1.y, a.c1.w, a.c2.x, a.c2.y,
        a.c2.w, a.c3.x, a.c3.y, a.c3.w).times(a.c3.z));
    lemma_det3_value(a.c1.x, a.c1.y, a.c1.z, a.c2.x, a.c2.y, a.c2.z, a.c3.x, a.c3.y, a.c3.z);
    S::lemma_neg(det3(a.c1.x, a.c1.y, a.c1.z, a.c2.x, a.c2.y, a.c2.z, a.c3.x, a.c3.y, a.c3.z));
    S::lemma_mul(det3(a.c1.x, a.c1.y, a.c1.z, a.c2.x, a.c2.y, a.c2.z, a.c3.x, a.c3.y,
        a.c3.z).negated(), a.c3.w);
    S::lemma_add(det3(a.c1.y, a.c1.z, a.c1.w, a.c2.y, a.c2.z, a.c2.w, a.c3.y, a.c3.z,
        a.c3.w).times(a.c3.x).plus(det3(a.c1.x, a.c1.z, a.c1.w, a.c2.x, a.c2.z, a.c2.w, a.c3.x,
        a.c3.z, a.c3.w).negated().times(a.c3.y)).plus(det3(a.c1.x, a.c1.y, a.c1.w, a.c2.x, a.c2.y,
        a.c2.w, a.c3.x, a.c3.y, a.c3.w).times(a.c3.z)), det3(a.c1.x, a.c1.y, a.c1.z, a.c2.x,
        a.c2.y, a.c2.z, a.c3.x, a.c3.y, a.c3.z).negated().times(a.c3.w));
    lemma_det4_value_left_3_0(
        a.c0.x.value(), a.c0.y.value(), a.c0.z.value(), a.c0.w.value(), a.c1.x.value(),
            a.c1.y.value(), a.c1.z.value(), a.c1.w.value(), a.c2.x.value(), a.c2.y.value(),
            a.c2.z.value(), a.c2.w.value(), a.c3.x.value(), a.c3.y.value(), a.c3.z.value(),
            a.c3.w.value(),
    );
    S::lemma_value_injective(det3(a.c1.y, a.c1.z, a.c1.w, a.c2.y, a.c2.z, a.c2.w, a.c3.y, a.c3.z,
        a.c3.w).times(a.c3.x).plus(det3(a.c1.x, a.c1.z, a.c1.w, a.c2.x, a.c2.z, a.c2.w, a.c3.x,
        a.c3.z, a.c3.w).negated().times(a.c3.y)).plus(det3(a.c1.x, a.c1.y, a.c1.w, a.c2.x, a.c2.y,
        a.c2.w, a.c3.x, a.c3.y, a.c3.w).times(a.c3.z)).plus(det3(a.c1.x, a.c1.y, a.c1.z, a.c2.x,
        a.c2.y, a.c2.z, a.c3.x, a.c3.y, a.c3.z).negated().times(a.c3.w)), S::zero_spec());
    lemma_det3_value(a.c0.y, a.c0.z, a.c0.w, a.c2.y, a.c2.z, a.c2.w, a.c3.y, a.c3.z, a.c3.w);
    S::lemma_neg(det3(a.c0.y, a.c0.z, a.c0.w, a.c2.y, a.c2.z, a.c2.w, a.c3.y, a.c3.z, a.c3.w));
    S::lemma_mul(det3(a.c0.y, a.c0.z, a.c0.w, a.c2.y, a.c2.z, a.c2.w, a.c3.y, a.c3.z,
        a.c3.w).negated(), a.c3.x);
    lemma_det3_value(a.c0.x, a.c0.z, a.c0.w, a.c2.x, a.c2.z, a.c2.w, a.c3.x, a.c3.z, a.c3.w);
    S::lemma_mul(det3(a.c0.x, a.c0.z, a.c0.w, a.c2.x, a.c2.z, a.c2.w, a.c3.x, a.c3.z, a.c3.w),
        a.c3.y);
    S::lemma_add(det3(a.c0.y, a.c0.z, a.c0.w, a.c2.y, a.c2.z, a.c2.w, a.c3.y, a.c3.z,
        a.c3.w).negated().times(a.c3.x), det3(a.c0.x, a.c0.z, a.c0.w, a.c2.x, a.c2.z, a.c2.w,
        a.c3.x, a.c3.z, a.c3.w).times(a.c3.y));
    lemma_det3_value(a.c0.x, a.c0.y, a.c0.w, a.c2.x, a.c2.y, a.c2.w, a.c3.x, a.c3.y, a.c3.w);
    S::lemma_neg(det3(a.c0.x, a.c0.y, a.c0.w, a.c2.x, a.c2.y, a.c2.w, a.c3.x, a.c3.y, a.c3.w));
    S::lemma_mul(det3(a.c0.x, a.c0.y, a.c0.w, a.c2.x, a.c2.y, a.c2.w, a.c3.x, a.c3.y,
        a.c3.w).negated(), a.c3.z);
    S::lemma_add(det3(a.c0.y, a.c0.z, a.c0.w, a.c2.y, a.c2.z, a.c2.w, a.c3.y, a.c3.z,
        a.c3.w).negated().times(a.c3.x).plus(det3(a.c0.x, a.c0.z, a.c0.w, a.c2.x, a.c2.z, a.c2.w,
        a.c3.x, a.c3.z, a.c3.w).times(a.c3.y)), det3(a.c0.x, a.c0.y, a.c0.w, a.c2.x, a.c2.y,
        a.c2.w, a.c3.x, a.c3.y, a.c3.w).negated().times(a.c3.z));
    lemma_det3_value(a.c0.x, a.c0.y, a.c0.z, a.c2.x, a.c2.y, a.c2.z, a.c3.x, a.c3.y, a.c3.z);
    S::lemma_mul(det3(a.c0.x, a.c0.y, a.c0.z, a.c2.x, a.c2.y, a.c2.z, a.c3.x, a.c3.y, a.c3.z),
        a.c3.w);
    S::lemma_add(det3(a.c0.y, a.c0.z, a.c0.w, a.c2.y, a.c2.z, a.c2.w, a.c3.y, a.c3.z,
        a.c3.w).negated().times(a.c3.x).plus(det3(a.c0.x, a.c0.z, a.c0.w, a.c2.x, a.c2.z, a.c2.w,
        a.c3.x, a.c3.z, a.c3.w).times(a.c3.y)).plus(det3(a.c0.x, a.c0.y, a.c0.w, a.c2.x, a.c2.y,
        a.c2.w, a.c3.x, a.c3.y, a.c3.w).negated().times(a.c3.z)), det3(a.c0.x, a.c0.y, a.c0.z,
        a.c2.x, a.c2.y, a.c2.z, a.c3.x, a.c3.y, a.c3.z).times(a.c3.w));
    lemma_det4_value_left_3_1(
        a.c0.x.value(), a.c0.y.value(), a.c0.z.value(), a.c0.w.value(), a.c1.x.value(),
            a.c1.y.value(), a.c1.z.value(), a.c1.w.value(), a.c2.x.value(), a.c2.y.value(),
            a.c2.z.value(), a.c2.w.value(), a.c3.x.value(), a.c3.y.value(), a.c3.z.value(),
            a.c3.w.value(),
    );
    S::lemma_value_injective(det3(a.c0.y, a.c0.z, a.c0.w, a.c2.y, a.c2.z, a.c2.w, a.c3.y, a.c3.z,
        a.c3.w).negated().times(a.c3.x).plus(det3(a.c0.x, a.c0.z, a.c0.w, a.c2.x, a.c2.z, a.c2.w,
        a.c3.x, a.c3.z, a.c3.w).times(a.c3.y)).plus(det3(a.c0.x, a.c0.y, a.c0.w, a.c2.x, a.c2.y,
        a.c2.w, a.c3.x, a.c3.y, a.c3.w).negated().times(a.c3.z)).plus(det3(a.c0.x, a.c0.y, a.c0.z,
        a.c2.x, a.c2.y, a.c2.z, a.c3.x, a.c3.y, a.c3.z).times(a.c3.w)), S::zero_spec());
    lemma_det3_value(a.c0.y, a.c0.z, a.c0.w, a.c1.y, a.c1.z, a.c1.w, a.c3.y, a.c3.z, a.c3.w);
    S::lemma_mul(det3(a.c0.y, a.c0.z, a.c0.w, a.c1.y, a.c1.z, a.c1.w, a.c3.y, a.c3.z, a.c3.w),
        a.c3.x);
    lemma_det3_value(a.c0.x, a.c0.z, a.c0.w, a.c1.x, a.c1.z, a.c1.w, a.c3.x, a.c3.z, a.c3.w);
    S::lemma_neg(det3(a.c0.x, a.c0.z, a.c0.w, a.c1.x, a.c1.z, a.c1.w, a.c3.x, a.c3.z, a.c3.w));
    S::lemma_mul(det3(a.c0.x, a.c0.z, a.c0.w, a.c1.x, a.c1.z, a.c1.w, a.c3.x, a.c3.z,
        a.c3.w).negated(), a.c3.y);
    S::lemma_add(det3(a.c0.y, a.c0.z, a.c0.w, a.c1.y, a.c1.z, a.c1.w, a.c3.y, a.c3.z,
        a.c3.w).times(a.c3.x), det3(a.c0.x, a.c0.z, a.c0.w, a.c1.x, a.c1.z, a.c1.w, a.c3.x, a.c3.z,
        a.c3.w).negated().times(a.c3.y));
    lemma_det3_value(a.c0.x, a.c0.y, a.c0.w, a.c1.x, a.c1.y, a.c1.w, a.c3.x, a.c3.y, a.c3.w);
    S::lemma_mul(det3(a.c0.x, a.c0.y, a.c0.w, a.c1.x, a.c1.y, a.c1.w, a.c3.x, a.c3.y, a.c3.w),
        a.c3.z);
    S::lemma_add(det3(a.c0.y, a.c0.z, a.c0.w, a.c1.y, a.c1.z, a.c1.w, a.c3.y, a.c3.z,
        a.c3.w).times(a.c3.x).plus(det3(a.c0.x, a.c0.z, a.c0.w, a.c1.x, a.c1.z, a.c1.w, a.c3.x,
        a.c3.z, a.c3.w).negated().times(a.c3.y)), det3(a.c0.x, a.c0.y, a.c0.w, a.c1.x, a.c1.y,
        a.c1.w, a.c3.x, a.c3.y, a.c3.w).times(a.c3.z));
    lemma_det3_value(a.c0.x, a.c0.y, a.c0.z, a.c1.x, a.c1.y, a.c1.z, a.c3.x, a.c3.y, a.c3.z);
    S::lemma_neg(det3(a.c0.x, a.c0.y, a.c0.z, a.c1.x, a.c1.y, a.c1.z, a.c3.x, a.c3.y, a.c3.z));
    S::lemma_mul(det3(a.c0.x, a.c0.y, a.c0.z, a.c1.x, a.c1.y, a.c1.z, a.c3.x, a.c3.y,
        a.c3.z).negated(), a.c3.w);
    S::lemma_add(det3(a.c0.y, a.c0.z, a.c0.w, a.c1.y, a.c1.z, a.c1.w, a.c3.y, a.c3.z,
        a.c3.w).times(a.c3.x).plus(det3(a.c0.x, a.c0.z, a.c0.w, a.c1.x, a.c1.z, a.c1.w, a.c3.x,
        a.c3.z, a.c3.w).negated().times(a.c3.y)).plus(det3(a.c0.x, a.c0.y, a.c0.w, a.c1.x, a.c1.y,
        a.c1.w, a.c3.x, a.c3.y, a.c3.w).times(a.c3.z)), det3(a.c0.x, a.c0.y, a.c0.z, a.c1.x,
        a.c1.y, a.c1.z, a.c3.x, a.c3.y, a.c3.z).negated().times(a.c3.w));
    lemma_det4_value_left_3_2(
        a.c0.x.value(), a.c0.y.value(), a.c0.z.value(), a.c0.w.value(), a.c1.x.value(),
            a.c1.y.value(), a.c1.z.value(), a.c1.w.value(), a.c2.x.value(), a.c2.y.value(),
            a.c2.z.value(), a.c2.w.value(), a.c3.x.value(), a.c3.y.value(), a.c3.z.value(),
            a.c3.w.value(),
    );
    S::lemma_value_injective(det3(a.c0.y, a.c0.z, a.c0.w, a.c1.y, a.c1.z, a.c1.w, a.c3.y, a.c3.z,
        a.c3.w).times(a.c3.x).plus(det3(a.c0.x, a.c0.z, a.c0.w, a.c1.x, a.c1.z, a.c1.w, a.c3.x,
        a.c3.z, a.c3.w).negated().times(a.c3.y)).plus(det3(a.c0.x, a.c0.y, a.c0.w, a.c1.x, a.c1.y,
        a.c1.w, a.c3.x, a.c3.y, a.c3.w).times(a.c3.z)).plus(det3(a.c0.x, a.c0.y, a.c0.z, a.c1.x,
        a.c1.y, a.c1.z, a.c3.x, a.c3.y, a.c3.z).negated().times(a.c3.w)), S::zero_spec());
    lemma_det3_value(a.c0.y, a.c0.z, a.c0.w, a.c1.y, a.c1.z, a.c1.w, a.c2.y, a.c2.z, a.c2.w);
    S::lemma_neg(det3(a.c0.y, a.c0.z, a.c0.w, a.c1.y, a.c1.z, a.c1.w, a.c2.y, a.c2.z, a.c2.w));
    S::lemma_mul(det3(a.c0.y, a.c0.z, a.c0.w, a.c1.y, a.c1.z, a.c1.w, a.c2.y, a.c2.z,
        a.c2.w).negated(), a.c3.x);
    lemma_det3_value(a.c0.x, a.c0.z, a.c0.w, a.c1.x, a.c1.z, a.c1.w, a.c2.x, a.c2.z, a.c2.w);
    S::lemma_mul(det3(a.c0.x, a.c0.z, a.c0.w, a.c1.x, a.c1.z, a.c1.w, a.c2.x, a.c2.z, a.c2.w),
        a.c3.y);
    S::lemma_add(det3(a.c0.y, a.c0.z, a.c0.w, a.c1.y, a.c1.z, a.c1.w, a.c2.y, a.c2.z,
        a.c2.w).negated().times(a.c3.x), det3(a.c0.x, a.c0.z, a.c0.w, a.c1.x, a.c1.z, a.c1.w,
        a.c2.x, a.c2.z, a.c2.w).times(a.c3.y));
    lemma_det3_value(a.c0.x, a.c0.y, a.c0.w, a.c1.x, a.c1.y, a.c1.w, a.c2.x, a.c2.y, a.c2.w);
    S::lemma_neg(det3(a.c0.x, a.c0.y, a.c0.w, a.c1.x, a.c1.y, a.c1.w, a.c2.x, a.c2.y, a.c2.w));
    S::lemma_mul(det3(a.c0.x, a.c0.y, a.c0.w, a.c1.x, a.c1.y, a.c1.w, a.c2.x, a.c2.y,
        a.c2.w).negated(), a.c3.z);
    S::lemma_add(det3(a.c0.y, a.c0.z, a.c0.w, a.c1.y, a.c1.z, a.c1.w, a.c2.y, a.c2.z,
        a.c2.w).negated().times(a.c3.x).plus(det3(a.c0.x, a.c0.z, a.c0.w, a.c1.x, a.c1.z, a.c1.w,
        a.c2.x, a.c2.z, a.c2.w).times(a.c3.y)), det3(a.c0.x, a.c0.y, a.c0.w, a.c1.x, a.c1.y,
        a.c1.w, a.c2.x, a.c2.y, a.c2.w).negated().times(a.c3.z));
    lemma_det3_value(a.c0.x, a.c0.y, a.c0.z, a.c1.x, a.c1.y, a.c1.z, a.c2.x, a.c2.y, a.c2.z);
    S::lemma_mul(det3(a.c0.x, a.c0.y, a.c0.z, a.c1.x, a.c1.y, a.c1.z, a.c2.x, a.c2.y, a.c2.z),
        a.c3.w);
    S::lemma_add(det3(a.c0.y, a.c0.z, a.c0.w, a.c1.y, a.c1.z, a.c1.w, a.c2.y, a.c2.z,
        a.c2.w).negated().times(a.c3.x).plus(det3(a.c0.x, a.c0.z, a.c0.w, a.c1.x, a.c1.z, a.c1.w,
        a.c2.x, a.c2.z, a.c2.w).times(a.c3.y)).plus(det3(a.c0.x, a.c0.y, a.c0.w, a.c1.x, a.c1.y,
        a.c1.w, a.c2.x, a.c2.y, a.c2.w).negated().times(a.c3.z)), det3(a.c0.x, a.c0.y, a.c0.z,
        a.c1.x, a.c1.y, a.c1.z, a.c2.x, a.c2.y, a.c2.z).times(a.c3.w));
    lemma_det4_value_left_3_3(
        a.c0.x.value(), a.c0.y.value(), a.c0.z.value(), a.c0.w.value(), a.c1.x.value(),
            a.c1.y.value(), a.c1.z.value(), a.c1.w.value(), a.c2.x.value(), a.c2.y.value(),
            a.c2.z.value(), a.c2.w.value(), a.c3.x.value(), a.c3.y.value(), a.c3.z.value(),
            a.c3.w.value(),
    );
    S::lemma_value_injective(det3(a.c0.y, a.c0.z, a.c0.w, a.c1.y, a.c1.z, a.c1.w, a.c2.y, a.c2.z,
        a.c2.w).negated().times(a.c3.x).plus(det3(a.c0.x, a.c0.z, a.c0.w, a.c1.x, a.c1.z, a.c1.w,
        a.c2.x, a.c2.z, a.c2.w).times(a.c3.y)).plus(det3(a.c0.x, a.c0.y, a.c0.w, a.c1.x, a.c1.y,
        a.c1.w, a.c2.x, a.c2.y, a.c2.w).negated().times(a.c3.z)).plus(det3(a.c0.x, a.c0.y, a.c0.z,
        a.c1.x, a.c1.y, a.c1.z, a.c2.x, a.c2.y, a.c2.z).times(a.c3.w)), a.determinant_spec());
}

} // verus!
