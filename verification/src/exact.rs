//! Consequences of the contract of `ExactScalar`: the identities of
//! arithmetic with zero and one, and the dot products with zero and unit
//! vectors that the laws of the matrix product rest on.

use vstd::prelude::*;
use crate::scalar::ExactScalar;
use crate::vector::{Vector1, Vector2, Vector3, Vector4};

verus! {

/// Multiplying by one, on either side, is defined and changes nothing.
pub proof fn lemma_mul_one<S: ExactScalar>(a: S)
    ensures
        a.can_mul(S::one_spec()),
        S::one_spec().can_mul(a),
        a.times(S::one_spec()) == a,
        S::one_spec().times(a) == a,
{
    S::lemma_identities();
    S::lemma_identities_defined(a);
    S::lemma_mul(a, S::one_spec());
    S::lemma_mul(S::one_spec(), a);
    S::lemma_value_injective(a.times(S::one_spec()), a);
    S::lemma_value_injective(S::one_spec().times(a), a);
}

/// Multiplying by zero, on either side, is defined and gives zero.
pub proof fn lemma_mul_zero<S: ExactScalar>(a: S)
    ensures
        a.can_mul(S::zero_spec()),
        S::zero_spec().can_mul(a),
        a.times(S::zero_spec()) == S::zero_spec(),
        S::zero_spec().times(a) == S::zero_spec(),
{
    S::lemma_identities();
    S::lemma_identities_defined(a);
    S::lemma_mul(a, S::zero_spec());
    S::lemma_mul(S::zero_spec(), a);
    S::lemma_value_injective(a.times(S::zero_spec()), S::zero_spec());
    S::lemma_value_injective(S::zero_spec().times(a), S::zero_spec());
}

/// Adding zero, on either side, is defined and changes nothing.
pub proof fn lemma_add_zero<S: ExactScalar>(a: S)
    ensures
        a.can_add(S::zero_spec()),
        S::zero_spec().can_add(a),
        a.plus(S::zero_spec()) == a,
        S::zero_spec().plus(a) == a,
{
    S::lemma_identities();
    S::lemma_identities_defined(a);
    S::lemma_add(a, S::zero_spec());
    S::lemma_add(S::zero_spec(), a);
    S::lemma_value_injective(a.plus(S::zero_spec()), a);
    S::lemma_value_injective(S::zero_spec().plus(a), a);
}

/// Subtracting zero changes nothing, and a scalar minus itself is zero;
/// both differences are defined.
pub proof fn lemma_sub_zero<S: ExactScalar>(a: S)
    ensures
        a.can_sub(S::zero_spec()),
        a.can_sub(a),
        a.minus(S::zero_spec()) == a,
        a.minus(a) == S::zero_spec(),
{
    S::lemma_identities();
    S::lemma_identities_defined(a);
    S::lemma_sub(a, S::zero_spec());
    S::lemma_sub(a, a);
    S::lemma_value_injective(a.minus(S::zero_spec()), a);
    S::lemma_value_injective(a.minus(a), S::zero_spec());
}

/// The dot product of a vector with the zero vector, on either side, is
/// defined and is zero.
pub proof fn lemma_vector1_dot_zero<S: ExactScalar>(v: Vector1<S>)
    ensures
        v.can_dot_with(Vector1::<S>::zero_spec()),
        Vector1::<S>::zero_spec().can_dot_with(v),
        v.dot_with(Vector1::<S>::zero_spec()) == S::zero_spec(),
        Vector1::<S>::zero_spec().dot_with(v) == S::zero_spec(),
{
    lemma_mul_one(v.x);
    lemma_mul_zero(v.x);
    lemma_add_zero(v.x);
    lemma_add_zero(S::zero_spec());
}

/// The dot product of a vector with a unit vector, on either side, is
/// defined and is the component of the vector along that axis.
pub proof fn lemma_vector1_dot_unit<S: ExactScalar>(v: Vector1<S>)
    ensures
        v.can_dot_with(Vector1::<S>::unit_x_spec()),
        Vector1::<S>::unit_x_spec().can_dot_with(v),
        v.dot_with(Vector1::<S>::unit_x_spec()) == v.x,
        Vector1::<S>::unit_x_spec().dot_with(v) == v.x,
{
    lemma_mul_one(v.x);
    lemma_mul_zero(v.x);
    lemma_add_zero(v.x);
    lemma_add_zero(S::zero_spec());
}

/// The dot product of a vector with the zero vector, on either side, is
/// defined and is zero.
pub proof fn lemma_vector2_dot_zero<S: ExactScalar>(v: Vector2<S>)
    ensures
        v.can_dot_with(Vector2::<S>::zero_spec()),
        Vector2::<S>::zero_spec().can_dot_with(v),
        v.dot_with(Vector2::<S>::zero_spec()) == S::zero_spec(),
        Vector2::<S>::zero_spec().dot_with(v) == S::zero_spec(),
{
    lemma_mul_one(v.x);
    lemma_mul_zero(v.x);
    lemma_add_zero(v.x);
    lemma_mul_one(v.y);
    lemma_mul_zero(v.y);
    lemma_add_zero(v.y);
    lemma_add_zero(S::zero_spec());
}

/// The dot product of a vector with a unit vector, on either side, is
/// defined and is the component of the vector along that axis.
pub proof fn lemma_vector2_dot_unit<S: ExactScalar>(v: Vector2<S>)
    ensures
        v.can_dot_with(Vector2::<S>::unit_x_spec()),
        Vector2::<S>::unit_x_spec().can_dot_with(v),
        v.dot_with(Vector2::<S>::unit_x_spec()) == v.x,
        Vector2::<S>::unit_x_spec().dot_with(v) == v.x,
        v.can_dot_with(Vector2::<S>::unit_y_spec()),
        Vector2::<S>::unit_y_spec().can_dot_with(v),
        v.dot_with(Vector2::<S>::unit_y_spec()) == v.y,
        Vector2::<S>::unit_y_spec().dot_with(v) == v.y,
{
    lemma_mul_one(v.x);
    lemma_mul_zero(v.x);
    lemma_add_zero(v.x);
    lemma_mul_one(v.y);
    lemma_mul_zero(v.y);
    lemma_add_zero(v.y);
    lemma_add_zero(S::zero_spec());
}

/// The dot product of a vector with the zero vector, on either side, is
/// defined and is zero.
pub proof fn lemma_vector3_dot_zero<S: ExactScalar>(v: Vector3<S>)
    ensures
        v.can_dot_with(Vector3::<S>::zero_spec()),
        Vector3::<S>::zero_spec().can_dot_with(v),
        v.dot_with(Vector3::<S>::zero_spec()) == S::zero_spec(),
        Vector3::<S>::zero_spec().dot_with(v) == S::zero_spec(),
{
    lemma_mul_one(v.x);
    lemma_mul_zero(v.x);
    lemma_add_zero(v.x);
    lemma_mul_one(v.y);
    lemma_mul_zero(v.y);
    lemma_add_zero(v.y);
    lemma_mul_one(v.z);
    lemma_mul_zero(v.z);
    lemma_add_zero(v.z);
    lemma_add_zero(S::zero_spec());
}

/// The dot product of a vector with a unit vector, on either side, is
/// defined and is the component of the vector along that axis.
pub proof fn lemma_vector3_dot_unit<S: ExactScalar>(v: Vector3<S>)
    ensures
        v.can_dot_with(Vector3::<S>::unit_x_spec()),
        Vector3::<S>::unit_x_spec().can_dot_with(v),
        v.dot_with(Vector3::<S>::unit_x_spec()) == v.x,
        Vector3::<S>::unit_x_spec().dot_with(v) == v.x,
        v.can_dot_with(Vector3::<S>::unit_y_spec()),
        Vector3::<S>::unit_y_spec().can_dot_with(v),
        v.dot_with(Vector3::<S>::unit_y_spec()) == v.y,
        Vector3::<S>::unit_y_spec().dot_with(v) == v.y,
        v.can_dot_with(Vector3::<S>::unit_z_spec()),
        Vector3::<S>::unit_z_spec().can_dot_with(v),
        v.dot_with(Vector3::<S>::unit_z_spec()) == v.z,
        Vector3::<S>::unit_z_spec().dot_with(v) == v.z,
{
    lemma_mul_one(v.x);
    lemma_mul_zero(v.x);
    lemma_add_zero(v.x);
    lemma_mul_one(v.y);
    lemma_mul_zero(v.y);
    lemma_add_zero(v.y);
    lemma_mul_one(v.z);
    lemma_mul_zero(v.z);
    lemma_add_zero(v.z);
    lemma_add_zero(S::zero_spec());
}

/// The dot product of a vector with the zero vector, on either side, is
/// defined and is zero.
pub proof fn lemma_vector4_dot_zero<S: ExactScalar>(v: Vector4<S>)
    ensures
        v.can_dot_with(Vector4::<S>::zero_spec()),
        Vector4::<S>::zero_spec().can_dot_with(v),
        v.dot_with(Vector4::<S>::zero_spec()) == S::zero_spec(),
        Vector4::<S>::zero_spec().dot_with(v) == S::zero_spec(),
{
    lemma_mul_one(v.x);
    lemma_mul_zero(v.x);
    lemma_add_zero(v.x);
    lemma_mul_one(v.y);
    lemma_mul_zero(v.y);
    lemma_add_zero(v.y);
    lemma_mul_one(v.z);
    lemma_mul_zero(v.z);
    lemma_add_zero(v.z);
    lemma_mul_one(v.w);
    lemma_mul_zero(v.w);
    lemma_add_zero(v.w);
    lemma_add_zero(S::zero_spec());
}

/// The dot product of a vector with a unit vector, on either side, is
/// defined and is the component of the vector along that axis.
pub proof fn lemma_vector4_dot_unit<S: ExactScalar>(v: Vector4<S>)
    ensures
        v.can_dot_with(Vector4::<S>::unit_x_spec()),
        Vector4::<S>::unit_x_spec().can_dot_with(v),
        v.dot_with(Vector4::<S>::unit_x_spec()) == v.x,
        Vector4::<S>::unit_x_spec().dot_with(v) == v.x,
        v.can_dot_with(Vector4::<S>::unit_y_spec()),
        Vector4::<S>::unit_y_spec().can_dot_with(v),
        v.dot_with(Vector4::<S>::unit_y_spec()) == v.y,
        Vector4::<S>::unit_y_spec().dot_with(v) == v.y,
        v.can_dot_with(Vector4::<S>::unit_z_spec()),
        Vector4::<S>::unit_z_spec().can_dot_with(v),
        v.dot_with(Vector4::<S>::unit_z_spec()) == v.z,
        Vector4::<S>::unit_z_spec().dot_with(v) == v.z,
        v.can_dot_with(Vector4::<S>::unit_w_spec()),
        Vector4::<S>::unit_w_spec().can_dot_with(v),
        v.dot_with(Vector4::<S>::unit_w_spec()) == v.w,
        Vector4::<S>::unit_w_spec().dot_with(v) == v.w,
{
    lemma_mul_one(v.x);
    lemma_mul_zero(v.x);
    lemma_add_zero(v.x);
    lemma_mul_one(v.y);
    lemma_mul_zero(v.y);
    lemma_add_zero(v.y);
    lemma_mul_one(v.z);
    lemma_mul_zero(v.z);
    lemma_add_zero(v.z);
    lemma_mul_one(v.w);
    lemma_mul_zero(v.w);
    lemma_add_zero(v.w);
    lemma_add_zero(S::zero_spec());
}

} // verus!
