//! Laws of the matrix product, proved for every integer scalar: the identity
//! matrix is neutral and the zero matrix absorbs, on either side, and the
//! products in question are always defined.

use vstd::prelude::*;
use crate::exact::{
    lemma_vector2_dot_unit, lemma_vector2_dot_zero, lemma_vector3_dot_unit, lemma_vector3_dot_zero,
    lemma_vector4_dot_unit, lemma_vector4_dot_zero,
};
use crate::matrix1x2::Matrix1x2;
use crate::matrix1x3::Matrix1x3;
use crate::matrix1x4::Matrix1x4;
use crate::matrix2x2::Matrix2x2;
use crate::matrix2x3::Matrix2x3;
use crate::matrix2x4::Matrix2x4;
use crate::matrix3x2::Matrix3x2;
use crate::matrix3x3::Matrix3x3;
use crate::matrix3x4::Matrix3x4;
use crate::matrix4x2::Matrix4x2;
use crate::matrix4x3::Matrix4x3;
use crate::matrix4x4::Matrix4x4;
use crate::scalar::ExactScalar;
use crate::vector::{Vector1, Vector2, Vector3, Vector4};

verus! {

/// For every one-by-two matrix `a`: `a` times the identity is defined and is `a`.
pub proof fn lemma_matrix1x2_times_identity<S: ExactScalar>(a: Matrix1x2<S>)
    ensures
        a.can_mul_2x2(Matrix2x2::<S>::identity_spec()),
        a.times_2x2(Matrix2x2::<S>::identity_spec()) == a,
{
    lemma_vector2_dot_unit(a.row(0));
}

/// For every one-by-two matrix `a`: `a` times the zero matrix is defined and is zero.
pub proof fn lemma_matrix1x2_times_zero<S: ExactScalar>(a: Matrix1x2<S>)
    ensures
        a.can_mul_2x2(Matrix2x2::<S>::zero_spec()),
        a.times_2x2(Matrix2x2::<S>::zero_spec()) == Matrix1x2::<S>::zero_spec(),
{
    lemma_vector2_dot_zero(a.row(0));
}

/// For every one-by-two matrix `a`: `a` times the zero vector is defined and is zero,
/// and `a` times a unit vector is the column of `a` for that axis.
pub proof fn lemma_matrix1x2_times_basis<S: ExactScalar>(a: Matrix1x2<S>)
    ensures
        a.can_mul_vector(Vector2::<S>::zero_spec()),
        a.times_vector(Vector2::<S>::zero_spec()) == Vector1::<S>::zero_spec(),
        a.can_mul_vector(Vector2::<S>::unit_x_spec()),
        a.times_vector(Vector2::<S>::unit_x_spec()) == a.c0,
        a.can_mul_vector(Vector2::<S>::unit_y_spec()),
        a.times_vector(Vector2::<S>::unit_y_spec()) == a.c1,
{
    lemma_vector2_dot_unit(a.row(0));
    lemma_vector2_dot_zero(a.row(0));
}

/// For every one-by-three matrix `a`: `a` times the identity is defined and is `a`.
pub proof fn lemma_matrix1x3_times_identity<S: ExactScalar>(a: Matrix1x3<S>)
    ensures
        a.can_mul_3x3(Matrix3x3::<S>::identity_spec()),
        a.times_3x3(Matrix3x3::<S>::identity_spec()) == a,
{
    lemma_vector3_dot_unit(a.row(0));
}

/// For every one-by-three matrix `a`: `a` times the zero matrix is defined and is zero.
pub proof fn lemma_matrix1x3_times_zero<S: ExactScalar>(a: Matrix1x3<S>)
    ensures
        a.can_mul_3x3(Matrix3x3::<S>::zero_spec()),
        a.times_3x3(Matrix3x3::<S>::zero_spec()) == Matrix1x3::<S>::zero_spec(),
{
    lemma_vector3_dot_zero(a.row(0));
}

/// For every one-by-three matrix `a`: `a` times the zero vector is defined and is zero,
/// and `a` times a unit vector is the column of `a` for that axis.
pub proof fn lemma_matrix1x3_times_basis<S: ExactScalar>(a: Matrix1x3<S>)
    ensures
        a.can_mul_vector(Vector3::<S>::zero_spec()),
        a.times_vector(Vector3::<S>::zero_spec()) == Vector1::<S>::zero_spec(),
        a.can_mul_vector(Vector3::<S>::unit_x_spec()),
        a.times_vector(Vector3::<S>::unit_x_spec()) == a.c0,
        a.can_mul_vector(Vector3::<S>::unit_y_spec()),
        a.times_vector(Vector3::<S>::unit_y_spec()) == a.c1,
        a.can_mul_vector(Vector3::<S>::unit_z_spec()),
        a.times_vector(Vector3::<S>::unit_z_spec()) == a.c2,
{
    lemma_vector3_dot_unit(a.row(0));
    lemma_vector3_dot_zero(a.row(0));
}

/// For every one-by-four matrix `a`: `a` times the identity is defined and is `a`.
pub proof fn lemma_matrix1x4_times_identity<S: ExactScalar>(a: Matrix1x4<S>)
    ensures
        a.can_mul_4x4(Matrix4x4::<S>::identity_spec()),
        a.times_4x4(Matrix4x4::<S>::identity_spec()) == a,
{
    lemma_vector4_dot_unit(a.row(0));
}

/// For every one-by-four matrix `a`: `a` times the zero matrix is defined and is zero.
pub proof fn lemma_matrix1x4_times_zero<S: ExactScalar>(a: Matrix1x4<S>)
    ensures
        a.can_mul_4x4(Matrix4x4::<S>::zero_spec()),
        a.times_4x4(Matrix4x4::<S>::zero_spec()) == Matrix1x4::<S>::zero_spec(),
{
    lemma_vector4_dot_zero(a.row(0));
}

/// For every one-by-four matrix `a`: `a` times the zero vector is defined and is zero,
/// and `a` times a unit vector is the column of `a` for that axis.
pub proof fn lemma_matrix1x4_times_basis<S: ExactScalar>(a: Matrix1x4<S>)
    ensures
        a.can_mul_vector(Vector4::<S>::zero_spec()),
        a.times_vector(Vector4::<S>::zero_spec()) == Vector1::<S>::zero_spec(),
        a.can_mul_vector(Vector4::<S>::unit_x_spec()),
        a.times_vector(Vector4::<S>::unit_x_spec()) == a.c0,
        a.can_mul_vector(Vector4::<S>::unit_y_spec()),
        a.times_vector(Vector4::<S>::unit_y_spec()) == a.c1,
        a.can_mul_vector(Vector4::<S>::unit_z_spec()),
        a.times_vector(Vector4::<S>::unit_z_spec()) == a.c2,
        a.can_mul_vector(Vector4::<S>::unit_w_spec()),
        a.times_vector(Vector4::<S>::unit_w_spec()) == a.c3,
{
    lemma_vector4_dot_unit(a.row(0));
    lemma_vector4_dot_zero(a.row(0));
}

/// For every two-by-two matrix `a`: `a` times the identity is defined and is `a`.
pub proof fn lemma_matrix2x2_times_identity<S: ExactScalar>(a: Matrix2x2<S>)
    ensures
        a.can_mul_2x2(Matrix2x2::<S>::identity_spec()),
        a.times_2x2(Matrix2x2::<S>::identity_spec()) == a,
{
    lemma_vector2_dot_unit(a.row(0));
    lemma_vector2_dot_unit(a.row(1));
}

/// For every two-by-two matrix `a`: `a` times the zero matrix is defined and is zero.
pub proof fn lemma_matrix2x2_times_zero<S: ExactScalar>(a: Matrix2x2<S>)
    ensures
        a.can_mul_2x2(Matrix2x2::<S>::zero_spec()),
        a.times_2x2(Matrix2x2::<S>::zero_spec()) == Matrix2x2::<S>::zero_spec(),
{
    lemma_vector2_dot_zero(a.row(0));
    lemma_vector2_dot_zero(a.row(1));
}

/// For every two-by-two matrix `a`: the identity times `a` is defined and is `a`.
pub proof fn lemma_matrix2x2_identity_times<S: ExactScalar>(a: Matrix2x2<S>)
    ensures
        Matrix2x2::<S>::identity_spec().can_mul_2x2(a),
        Matrix2x2::<S>::identity_spec().times_2x2(a) == a,
{
    lemma_vector2_dot_unit(a.c0);
    lemma_vector2_dot_unit(a.c1);
}

/// For every two-by-two matrix `a`: the zero matrix times `a` is defined and is zero.
pub proof fn lemma_matrix2x2_zero_times<S: ExactScalar>(a: Matrix2x2<S>)
    ensures
        Matrix2x2::<S>::zero_spec().can_mul_2x2(a),
        Matrix2x2::<S>::zero_spec().times_2x2(a) == Matrix2x2::<S>::zero_spec(),
{
    lemma_vector2_dot_zero(a.c0);
    lemma_vector2_dot_zero(a.c1);
}

/// For every two-by-two matrix `a`: `a` times the zero vector is defined and is zero,
/// and `a` times a unit vector is the column of `a` for that axis.
pub proof fn lemma_matrix2x2_times_basis<S: ExactScalar>(a: Matrix2x2<S>)
    ensures
        a.can_mul_vector(Vector2::<S>::zero_spec()),
        a.times_vector(Vector2::<S>::zero_spec()) == Vector2::<S>::zero_spec(),
        a.can_mul_vector(Vector2::<S>::unit_x_spec()),
        a.times_vector(Vector2::<S>::unit_x_spec()) == a.c0,
        a.can_mul_vector(Vector2::<S>::unit_y_spec()),
        a.times_vector(Vector2::<S>::unit_y_spec()) == a.c1,
{
    lemma_vector2_dot_unit(a.row(0));
    lemma_vector2_dot_zero(a.row(0));
    lemma_vector2_dot_unit(a.row(1));
    lemma_vector2_dot_zero(a.row(1));
}

/// For every two-by-three matrix `a`: `a` times the identity is defined and is `a`.
pub proof fn lemma_matrix2x3_times_identity<S: ExactScalar>(a: Matrix2x3<S>)
    ensures
        a.can_mul_3x3(Matrix3x3::<S>::identity_spec()),
        a.times_3x3(Matrix3x3::<S>::identity_spec()) == a,
{
    lemma_vector3_dot_unit(a.row(0));
    lemma_vector3_dot_unit(a.row(1));
}

/// For every two-by-three matrix `a`: `a` times the zero matrix is defined and is zero.
pub proof fn lemma_matrix2x3_times_zero<S: ExactScalar>(a: Matrix2x3<S>)
    ensures
        a.can_mul_3x3(Matrix3x3::<S>::zero_spec()),
        a.times_3x3(Matrix3x3::<S>::zero_spec()) == Matrix2x3::<S>::zero_spec(),
{
    lemma_vector3_dot_zero(a.row(0));
    lemma_vector3_dot_zero(a.row(1));
}

/// For every two-by-three matrix `a`: the identity times `a` is defined and is `a`.
pub proof fn lemma_matrix2x3_identity_times<S: ExactScalar>(a: Matrix2x3<S>)
    ensures
        Matrix2x2::<S>::identity_spec().can_mul_2x3(a),
        Matrix2x2::<S>::identity_spec().times_2x3(a) == a,
{
    lemma_vector2_dot_unit(a.c0);
    lemma_vector2_dot_unit(a.c1);
    lemma_vector2_dot_unit(a.c2);
}

/// For every two-by-three matrix `a`: the zero matrix times `a` is defined and is zero.
pub proof fn lemma_matrix2x3_zero_times<S: ExactScalar>(a: Matrix2x3<S>)
    ensures
        Matrix2x2::<S>::zero_spec().can_mul_2x3(a),
        Matrix2x2::<S>::zero_spec().times_2x3(a) == Matrix2x3::<S>::zero_spec(),
{
    lemma_vector2_dot_zero(a.c0);
    lemma_vector2_dot_zero(a.c1);
    lemma_vector2_dot_zero(a.c2);
}

/// For every two-by-three matrix `a`: `a` times the zero vector is defined and is zero,
/// and `a` times a unit vector is the column of `a` for that axis.
pub proof fn lemma_matrix2x3_times_basis<S: ExactScalar>(a: Matrix2x3<S>)
    ensures
        a.can_mul_vector(Vector3::<S>::zero_spec()),
        a.times_vector(Vector3::<S>::zero_spec()) == Vector2::<S>::zero_spec(),
        a.can_mul_vector(Vector3::<S>::unit_x_spec()),
        a.times_vector(Vector3::<S>::unit_x_spec()) == a.c0,
        a.can_mul_vector(Vector3::<S>::unit_y_spec()),
        a.times_vector(Vector3::<S>::unit_y_spec()) == a.c1,
        a.can_mul_vector(Vector3::<S>::unit_z_spec()),
        a.times_vector(Vector3::<S>::unit_z_spec()) == a.c2,
{
    lemma_vector3_dot_unit(a.row(0));
    lemma_vector3_dot_zero(a.row(0));
    lemma_vector3_dot_unit(a.row(1));
    lemma_vector3_dot_zero(a.row(1));
}

/// For every two-by-four matrix `a`: `a` times the identity is defined and is `a`.
pub proof fn lemma_matrix2x4_times_identity<S: ExactScalar>(a: Matrix2x4<S>)
    ensures
        a.can_mul_4x4(Matrix4x4::<S>::identity_spec()),
        a.times_4x4(Matrix4x4::<S>::identity_spec()) == a,
{
    lemma_vector4_dot_unit(a.row(0));
    lemma_vector4_dot_unit(a.row(1));
}

/// For every two-by-four matrix `a`: `a` times the zero matrix is defined and is zero.
pub proof fn lemma_matrix2x4_times_zero<S: ExactScalar>(a: Matrix2x4<S>)
    ensures
        a.can_mul_4x4(Matrix4x4::<S>::zero_spec()),
        a.times_4x4(Matrix4x4::<S>::zero_spec()) == Matrix2x4::<S>::zero_spec(),
{
    lemma_vector4_dot_zero(a.row(0));
    lemma_vector4_dot_zero(a.row(1));
}

/// For every two-by-four matrix `a`: the identity times `a` is defined and is `a`.
pub proof fn lemma_matrix2x4_identity_times<S: ExactScalar>(a: Matrix2x4<S>)
    ensures
        Matrix2x2::<S>::identity_spec().can_mul_2x4(a),
        Matrix2x2::<S>::identity_spec().times_2x4(a) == a,
{
    lemma_vector2_dot_unit(a.c0);
    lemma_vector2_dot_unit(a.c1);
    lemma_vector2_dot_unit(a.c2);
    lemma_vector2_dot_unit(a.c3);
}

/// For every two-by-four matrix `a`: the zero matrix times `a` is defined and is zero.
pub proof fn lemma_matrix2x4_zero_times<S: ExactScalar>(a: Matrix2x4<S>)
    ensures
        Matrix2x2::<S>::zero_spec().can_mul_2x4(a),
        Matrix2x2::<S>::zero_spec().times_2x4(a) == Matrix2x4::<S>::zero_spec(),
{
    lemma_vector2_dot_zero(a.c0);
    lemma_vector2_dot_zero(a.c1);
    lemma_vector2_dot_zero(a.c2);
    lemma_vector2_dot_zero(a.c3);
}

/// For every two-by-four matrix `a`: `a` times the zero vector is defined and is zero,
/// and `a` times a unit vector is the column of `a` for that axis.
pub proof fn lemma_matrix2x4_times_basis<S: ExactScalar>(a: Matrix2x4<S>)
    ensures
        a.can_mul_vector(Vector4::<S>::zero_spec()),
        a.times_vector(Vector4::<S>::zero_spec()) == Vector2::<S>::zero_spec(),
        a.can_mul_vector(Vector4::<S>::unit_x_spec()),
        a.times_vector(Vector4::<S>::unit_x_spec()) == a.c0,
        a.can_mul_vector(Vector4::<S>::unit_y_spec()),
        a.times_vector(Vector4::<S>::unit_y_spec()) == a.c1,
        a.can_mul_vector(Vector4::<S>::unit_z_spec()),
        a.times_vector(Vector4::<S>::unit_z_spec()) == a.c2,
        a.can_mul_vector(Vector4::<S>::unit_w_spec()),
        a.times_vector(Vector4::<S>::unit_w_spec()) == a.c3,
{
    lemma_vector4_dot_unit(a.row(0));
    lemma_vector4_dot_zero(a.row(0));
    lemma_vector4_dot_unit(a.row(1));
    lemma_vector4_dot_zero(a.row(1));
}

/// For every three-by-two matrix `a`: `a` times the identity is defined and is `a`.
pub proof fn lemma_matrix3x2_times_identity<S: ExactScalar>(a: Matrix3x2<S>)
    ensures
        a.can_mul_2x2(Matrix2x2::<S>::identity_spec()),
        a.times_2x2(Matrix2x2::<S>::identity_spec()) == a,
{
    lemma_vector2_dot_unit(a.row(0));
    lemma_vector2_dot_unit(a.row(1));
    lemma_vector2_dot_unit(a.row(2));
}

/// For every three-by-two matrix `a`: `a` times the zero matrix is defined and is zero.
pub proof fn lemma_matrix3x2_times_zero<S: ExactScalar>(a: Matrix3x2<S>)
    ensures
        a.can_mul_2x2(Matrix2x2::<S>::zero_spec()),
        a.times_2x2(Matrix2x2::<S>::zero_spec()) == Matrix3x2::<S>::zero_spec(),
{
    lemma_vector2_dot_zero(a.row(0));
    lemma_vector2_dot_zero(a.row(1));
    lemma_vector2_dot_zero(a.row(2));
}

/// For every three-by-two matrix `a`: the identity times `a` is defined and is `a`.
pub proof fn lemma_matrix3x2_identity_times<S: ExactScalar>(a: Matrix3x2<S>)
    ensures
        Matrix3x3::<S>::identity_spec().can_mul_3x2(a),
        Matrix3x3::<S>::identity_spec().times_3x2(a) == a,
{
    lemma_vector3_dot_unit(a.c0);
    lemma_vector3_dot_unit(a.c1);
}

/// For every three-by-two matrix `a`: the zero matrix times `a` is defined and is zero.
pub proof fn lemma_matrix3x2_zero_times<S: ExactScalar>(a: Matrix3x2<S>)
    ensures
        Matrix3x3::<S>::zero_spec().can_mul_3x2(a),
        Matrix3x3::<S>::zero_spec().times_3x2(a) == Matrix3x2::<S>::zero_spec(),
{
    lemma_vector3_dot_zero(a.c0);
    lemma_vector3_dot_zero(a.c1);
}

/// For every three-by-two matrix `a`: `a` times the zero vector is defined and is zero,
/// and `a` times a unit vector is the column of `a` for that axis.
pub proof fn lemma_matrix3x2_times_basis<S: ExactScalar>(a: Matrix3x2<S>)
    ensures
        a.can_mul_vector(Vector2::<S>::zero_spec()),
        a.times_vector(Vector2::<S>::zero_spec()) == Vector3::<S>::zero_spec(),
        a.can_mul_vector(Vector2::<S>::unit_x_spec()),
        a.times_vector(Vector2::<S>::unit_x_spec()) == a.c0,
        a.can_mul_vector(Vector2::<S>::unit_y_spec()),
        a.times_vector(Vector2::<S>::unit_y_spec()) == a.c1,
{
    lemma_vector2_dot_unit(a.row(0));
    lemma_vector2_dot_zero(a.row(0));
    lemma_vector2_dot_unit(a.row(1));
    lemma_vector2_dot_zero(a.row(1));
    lemma_vector2_dot_unit(a.row(2));
    lemma_vector2_dot_zero(a.row(2));
}

/// For every three-by-three matrix `a`: `a` times the identity is defined and is `a`.
pub proof fn lemma_matrix3x3_times_identity<S: ExactScalar>(a: Matrix3x3<S>)
    ensures
        a.can_mul_3x3(Matrix3x3::<S>::identity_spec()),
        a.times_3x3(Matrix3x3::<S>::identity_spec()) == a,
{
    lemma_vector3_dot_unit(a.row(0));
    lemma_vector3_dot_unit(a.row(1));
    lemma_vector3_dot_unit(a.row(2));
}

/// For every three-by-three matrix `a`: `a` times the zero matrix is defined and is zero.
pub proof fn lemma_matrix3x3_times_zero<S: ExactScalar>(a: Matrix3x3<S>)
    ensures
        a.can_mul_3x3(Matrix3x3::<S>::zero_spec()),
        a.times_3x3(Matrix3x3::<S>::zero_spec()) == Matrix3x3::<S>::zero_spec(),
{
    lemma_vector3_dot_zero(a.row(0));
    lemma_vector3_dot_zero(a.row(1));
    lemma_vector3_dot_zero(a.row(2));
}

/// For every three-by-three matrix `a`: the identity times `a` is defined and is `a`.
pub proof fn lemma_matrix3x3_identity_times<S: ExactScalar>(a: Matrix3x3<S>)
    ensures
        Matrix3x3::<S>::identity_spec().can_mul_3x3(a),
        Matrix3x3::<S>::identity_spec().times_3x3(a) == a,
{
    lemma_vector3_dot_unit(a.c0);
    lemma_vector3_dot_unit(a.c1);
    lemma_vector3_dot_unit(a.c2);
}

/// For every three-by-three matrix `a`: the zero matrix times `a` is defined and is zero.
pub proof fn lemma_matrix3x3_zero_times<S: ExactScalar>(a: Matrix3x3<S>)
    ensures
        Matrix3x3::<S>::zero_spec().can_mul_3x3(a),
        Matrix3x3::<S>::zero_spec().times_3x3(a) == Matrix3x3::<S>::zero_spec(),
{
    lemma_vector3_dot_zero(a.c0);
    lemma_vector3_dot_zero(a.c1);
    lemma_vector3_dot_zero(a.c2);
}

/// For every three-by-three matrix `a`: `a` times the zero vector is defined and is zero,
/// and `a` times a unit vector is the column of `a` for that axis.
pub proof fn lemma_matrix3x3_times_basis<S: ExactScalar>(a: Matrix3x3<S>)
    ensures
        a.can_mul_vector(Vector3::<S>::zero_spec()),
        a.times_vector(Vector3::<S>::zero_spec()) == Vector3::<S>::zero_spec(),
        a.can_mul_vector(Vector3::<S>::unit_x_spec()),
        a.times_vector(Vector3::<S>::unit_x_spec()) == a.c0,
        a.can_mul_vector(Vector3::<S>::unit_y_spec()),
        a.times_vector(Vector3::<S>::unit_y_spec()) == a.c1,
        a.can_mul_vector(Vector3::<S>::unit_z_spec()),
        a.times_vector(Vector3::<S>::unit_z_spec()) == a.c2,
{
    lemma_vector3_dot_unit(a.row(0));
    lemma_vector3_dot_zero(a.row(0));
    lemma_vector3_dot_unit(a.row(1));
    lemma_vector3_dot_zero(a.row(1));
    lemma_vector3_dot_unit(a.row(2));
    lemma_vector3_dot_zero(a.row(2));
}

/// For every three-by-four matrix `a`: `a` times the identity is defined and is `a`.
pub proof fn lemma_matrix3x4_times_identity<S: ExactScalar>(a: Matrix3x4<S>)
    ensures
        a.can_mul_4x4(Matrix4x4::<S>::identity_spec()),
        a.times_4x4(Matrix4x4::<S>::identity_spec()) == a,
{
    lemma_vector4_dot_unit(a.row(0));
    lemma_vector4_dot_unit(a.row(1));
    lemma_vector4_dot_unit(a.row(2));
}

/// For every three-by-four matrix `a`: `a` times the zero matrix is defined and is zero.
pub proof fn lemma_matrix3x4_times_zero<S: ExactScalar>(a: Matrix3x4<S>)
    ensures
        a.can_mul_4x4(Matrix4x4::<S>::zero_spec()),
        a.times_4x4(Matrix4x4::<S>::zero_spec()) == Matrix3x4::<S>::zero_spec(),
{
    lemma_vector4_dot_zero(a.row(0));
    lemma_vector4_dot_zero(a.row(1));
    lemma_vector4_dot_zero(a.row(2));
}

/// For every three-by-four matrix `a`: the identity times `a` is defined and is `a`.
pub proof fn lemma_matrix3x4_identity_times<S: ExactScalar>(a: Matrix3x4<S>)
    ensures
        Matrix3x3::<S>::identity_spec().can_mul_3x4(a),
        Matrix3x3::<S>::identity_spec().times_3x4(a) == a,
{
    lemma_vector3_dot_unit(a.c0);
    lemma_vector3_dot_unit(a.c1);
    lemma_vector3_dot_unit(a.c2);
    lemma_vector3_dot_unit(a.c3);
}

/// For every three-by-four matrix `a`: the zero matrix times `a` is defined and is zero.
pub proof fn lemma_matrix3x4_zero_times<S: ExactScalar>(a: Matrix3x4<S>)
    ensures
        Matrix3x3::<S>::zero_spec().can_mul_3x4(a),
        Matrix3x3::<S>::zero_spec().times_3x4(a) == Matrix3x4::<S>::zero_spec(),
{
    lemma_vector3_dot_zero(a.c0);
    lemma_vector3_dot_zero(a.c1);
    lemma_vector3_dot_zero(a.c2);
    lemma_vector3_dot_zero(a.c3);
}

/// For every three-by-four matrix `a`: `a` times the zero vector is defined and is zero,
/// and `a` times a unit vector is the column of `a` for that axis.
pub proof fn lemma_matrix3x4_times_basis<S: ExactScalar>(a: Matrix3x4<S>)
    ensures
        a.can_mul_vector(Vector4::<S>::zero_spec()),
        a.times_vector(Vector4::<S>::zero_spec()) == Vector3::<S>::zero_spec(),
        a.can_mul_vector(Vector4::<S>::unit_x_spec()),
        a.times_vector(Vector4::<S>::unit_x_spec()) == a.c0,
        a.can_mul_vector(Vector4::<S>::unit_y_spec()),
        a.times_vector(Vector4::<S>::unit_y_spec()) == a.c1,
        a.can_mul_vector(Vector4::<S>::unit_z_spec()),
        a.times_vector(Vector4::<S>::unit_z_spec()) == a.c2,
        a.can_mul_vector(Vector4::<S>::unit_w_spec()),
        a.times_vector(Vector4::<S>::unit_w_spec()) == a.c3,
{
    lemma_vector4_dot_unit(a.row(0));
    lemma_vector4_dot_zero(a.row(0));
    lemma_vector4_dot_unit(a.row(1));
    lemma_vector4_dot_zero(a.row(1));
    lemma_vector4_dot_unit(a.row(2));
    lemma_vector4_dot_zero(a.row(2));
}

/// For every four-by-two matrix `a`: `a` times the identity is defined and is `a`.
pub proof fn lemma_matrix4x2_times_identity<S: ExactScalar>(a: Matrix4x2<S>)
    ensures
        a.can_mul_2x2(Matrix2x2::<S>::identity_spec()),
        a.times_2x2(Matrix2x2::<S>::identity_spec()) == a,
{
    lemma_vector2_dot_unit(a.row(0));
    lemma_vector2_dot_unit(a.row(1));
    lemma_vector2_dot_unit(a.row(2));
    lemma_vector2_dot_unit(a.row(3));
}

/// For every four-by-two matrix `a`: `a` times the zero matrix is defined and is zero.
pub proof fn lemma_matrix4x2_times_zero<S: ExactScalar>(a: Matrix4x2<S>)
    ensures
        a.can_mul_2x2(Matrix2x2::<S>::zero_spec()),
        a.times_2x2(Matrix2x2::<S>::zero_spec()) == Matrix4x2::<S>::zero_spec(),
{
    lemma_vector2_dot_zero(a.row(0));
    lemma_vector2_dot_zero(a.row(1));
    lemma_vector2_dot_zero(a.row(2));
    lemma_vector2_dot_zero(a.row(3));
}

/// For every four-by-two matrix `a`: the identity times `a` is defined and is `a`.
pub proof fn lemma_matrix4x2_identity_times<S: ExactScalar>(a: Matrix4x2<S>)
    ensures
        Matrix4x4::<S>::identity_spec().can_mul_4x2(a),
        Matrix4x4::<S>::identity_spec().times_4x2(a) == a,
{
    lemma_vector4_dot_unit(a.c0);
    lemma_vector4_dot_unit(a.c1);
}

/// For every four-by-two matrix `a`: the zero matrix times `a` is defined and is zero.
pub proof fn lemma_matrix4x2_zero_times<S: ExactScalar>(a: Matrix4x2<S>)
    ensures
        Matrix4x4::<S>::zero_spec().can_mul_4x2(a),
        Matrix4x4::<S>::zero_spec().times_4x2(a) == Matrix4x2::<S>::zero_spec(),
{
    lemma_vector4_dot_zero(a.c0);
    lemma_vector4_dot_zero(a.c1);
}

/// For every four-by-two matrix `a`: `a` times the zero vector is defined and is zero,
/// and `a` times a unit vector is the column of `a` for that axis.
pub proof fn lemma_matrix4x2_times_basis<S: ExactScalar>(a: Matrix4x2<S>)
    ensures
        a.can_mul_vector(Vector2::<S>::zero_spec()),
        a.times_vector(Vector2::<S>::zero_spec()) == Vector4::<S>::zero_spec(),
        a.can_mul_vector(Vector2::<S>::unit_x_spec()),
        a.times_vector(Vector2::<S>::unit_x_spec()) == a.c0,
        a.can_mul_vector(Vector2::<S>::unit_y_spec()),
        a.times_vector(Vector2::<S>::unit_y_spec()) == a.c1,
{
    lemma_vector2_dot_unit(a.row(0));
    lemma_vector2_dot_zero(a.row(0));
    lemma_vector2_dot_unit(a.row(1));
    lemma_vector2_dot_zero(a.row(1));
    lemma_vector2_dot_unit(a.row(2));
    lemma_vector2_dot_zero(a.row(2));
    lemma_vector2_dot_unit(a.row(3));
    lemma_vector2_dot_zero(a.row(3));
}

/// For every four-by-three matrix `a`: `a` times the identity is defined and is `a`.
pub proof fn lemma_matrix4x3_times_identity<S: ExactScalar>(a: Matrix4x3<S>)
    ensures
        a.can_mul_3x3(Matrix3x3::<S>::identity_spec()),
        a.times_3x3(Matrix3x3::<S>::identity_spec()) == a,
{
    lemma_vector3_dot_unit(a.row(0));
    lemma_vector3_dot_unit(a.row(1));
    lemma_vector3_dot_unit(a.row(2));
    lemma_vector3_dot_unit(a.row(3));
}

/// For every four-by-three matrix `a`: `a` times the zero matrix is defined and is zero.
pub proof fn lemma_matrix4x3_times_zero<S: ExactScalar>(a: Matrix4x3<S>)
    ensures
        a.can_mul_3x3(Matrix3x3::<S>::zero_spec()),
        a.times_3x3(Matrix3x3::<S>::zero_spec()) == Matrix4x3::<S>::zero_spec(),
{
    lemma_vector3_dot_zero(a.row(0));
    lemma_vector3_dot_zero(a.row(1));
    lemma_vector3_dot_zero(a.row(2));
    lemma_vector3_dot_zero(a.row(3));
}

/// For every four-by-three matrix `a`: the identity times `a` is defined and is `a`.
pub proof fn lemma_matrix4x3_identity_times<S: ExactScalar>(a: Matrix4x3<S>)
    ensures
        Matrix4x4::<S>::identity_spec().can_mul_4x3(a),
        Matrix4x4::<S>::identity_spec().times_4x3(a) == a,
{
    lemma_vector4_dot_unit(a.c0);
    lemma_vector4_dot_unit(a.c1);
    lemma_vector4_dot_unit(a.c2);
}

/// For every four-by-three matrix `a`: the zero matrix times `a` is defined and is zero.
pub proof fn lemma_matrix4x3_zero_times<S: ExactScalar>(a: Matrix4x3<S>)
    ensures
        Matrix4x4::<S>::zero_spec().can_mul_4x3(a),
        Matrix4x4::<S>::zero_spec().times_4x3(a) == Matrix4x3::<S>::zero_spec(),
{
    lemma_vector4_dot_zero(a.c0);
    lemma_vector4_dot_zero(a.c1);
    lemma_vector4_dot_zero(a.c2);
}

/// For every four-by-three matrix `a`: `a` times the zero vector is defined and is zero,
/// and `a` times a unit vector is the column of `a` for that axis.
pub proof fn lemma_matrix4x3_times_basis<S: ExactScalar>(a: Matrix4x3<S>)
    ensures
        a.can_mul_vector(Vector3::<S>::zero_spec()),
        a.times_vector(Vector3::<S>::zero_spec()) == Vector4::<S>::zero_spec(),
        a.can_mul_vector(Vector3::<S>::unit_x_spec()),
        a.times_vector(Vector3::<S>::unit_x_spec()) == a.c0,
        a.can_mul_vector(Vector3::<S>::unit_y_spec()),
        a.times_vector(Vector3::<S>::unit_y_spec()) == a.c1,
        a.can_mul_vector(Vector3::<S>::unit_z_spec()),
        a.times_vector(Vector3::<S>::unit_z_spec()) == a.c2,
{
    lemma_vector3_dot_unit(a.row(0));
    lemma_vector3_dot_zero(a.row(0));
    lemma_vector3_dot_unit(a.row(1));
    lemma_vector3_dot_zero(a.row(1));
    lemma_vector3_dot_unit(a.row(2));
    lemma_vector3_dot_zero(a.row(2));
    lemma_vector3_dot_unit(a.row(3));
    lemma_vector3_dot_zero(a.row(3));
}

/// For every four-by-four matrix `a`: `a` times the identity is defined and is `a`.
pub proof fn lemma_matrix4x4_times_identity<S: ExactScalar>(a: Matrix4x4<S>)
    ensures
        a.can_mul_4x4(Matrix4x4::<S>::identity_spec()),
        a.times_4x4(Matrix4x4::<S>::identity_spec()) == a,
{
    lemma_vector4_dot_unit(a.row(0));
    lemma_vector4_dot_unit(a.row(1));
    lemma_vector4_dot_unit(a.row(2));
    lemma_vector4_dot_unit(a.row(3));
}

/// For every four-by-four matrix `a`: `a` times the zero matrix is defined and is zero.
pub proof fn lemma_matrix4x4_times_zero<S: ExactScalar>(a: Matrix4x4<S>)
    ensures
        a.can_mul_4x4(Matrix4x4::<S>::zero_spec()),
        a.times_4x4(Matrix4x4::<S>::zero_spec()) == Matrix4x4::<S>::zero_spec(),
{
    lemma_vector4_dot_zero(a.row(0));
    lemma_vector4_dot_zero(a.row(1));
    lemma_vector4_dot_zero(a.row(2));
    lemma_vector4_dot_zero(a.row(3));
}

/// For every four-by-four matrix `a`: the identity times `a` is defined and is `a`.
pub proof fn lemma_matrix4x4_identity_times<S: ExactScalar>(a: Matrix4x4<S>)
    ensures
        Matrix4x4::<S>::identity_spec().can_mul_4x4(a),
        Matrix4x4::<S>::identity_spec().times_4x4(a) == a,
{
    lemma_vector4_dot_unit(a.c0);
    lemma_vector4_dot_unit(a.c1);
    lemma_vector4_dot_unit(a.c2);
    lemma_vector4_dot_unit(a.c3);
}

/// For every four-by-four matrix `a`: the zero matrix times `a` is defined and is zero.
pub proof fn lemma_matrix4x4_zero_times<S: ExactScalar>(a: Matrix4x4<S>)
    ensures
        Matrix4x4::<S>::zero_spec().can_mul_4x4(a),
        Matrix4x4::<S>::zero_spec().times_4x4(a) == Matrix4x4::<S>::zero_spec(),
{
    lemma_vector4_dot_zero(a.c0);
    lemma_vector4_dot_zero(a.c1);
    lemma_vector4_dot_zero(a.c2);
    lemma_vector4_dot_zero(a.c3);
}

/// For every four-by-four matrix `a`: `a` times the zero vector is defined and is zero,
/// and `a` times a unit vector is the column of `a` for that axis.
pub proof fn lemma_matrix4x4_times_basis<S: ExactScalar>(a: Matrix4x4<S>)
    ensures
        a.can_mul_vector(Vector4::<S>::zero_spec()),
        a.times_vector(Vector4::<S>::zero_spec()) == Vector4::<S>::zero_spec(),
        a.can_mul_vector(Vector4::<S>::unit_x_spec()),
        a.times_vector(Vector4::<S>::unit_x_spec()) == a.c0,
        a.can_mul_vector(Vector4::<S>::unit_y_spec()),
        a.times_vector(Vector4::<S>::unit_y_spec()) == a.c1,
        a.can_mul_vector(Vector4::<S>::unit_z_spec()),
        a.times_vector(Vector4::<S>::unit_z_spec()) == a.c2,
        a.can_mul_vector(Vector4::<S>::unit_w_spec()),
        a.times_vector(Vector4::<S>::unit_w_spec()) == a.c3,
{
    lemma_vector4_dot_unit(a.row(0));
    lemma_vector4_dot_zero(a.row(0));
    lemma_vector4_dot_unit(a.row(1));
    lemma_vector4_dot_zero(a.row(1));
    lemma_vector4_dot_unit(a.row(2));
    lemma_vector4_dot_zero(a.row(2));
    lemma_vector4_dot_unit(a.row(3));
    lemma_vector4_dot_zero(a.row(3));
}

} // verus!
