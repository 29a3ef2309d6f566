//! Laws of the transpose: transposing twice gives the matrix back, exactly
//! and for every scalar, so a matrix and its double transpose act alike on
//! every vector.

use vstd::prelude::*;
use crate::matrix2x2::Matrix2x2;
use crate::matrix2x3::Matrix2x3;
use crate::matrix2x4::Matrix2x4;
use crate::matrix3x2::Matrix3x2;
use crate::matrix3x3::Matrix3x3;
use crate::matrix3x4::Matrix3x4;
use crate::matrix4x2::Matrix4x2;
use crate::matrix4x3::Matrix4x3;
use crate::matrix4x4::Matrix4x4;
use crate::scalar::Scalar;
use crate::vector::{Vector2, Vector3, Vector4};

verus! {

/// For every two-by-two matrix `a`: the transpose of the transpose of `a` is `a`.
pub proof fn lemma_matrix2x2_transpose_transpose<S: Scalar>(a: Matrix2x2<S>)
    ensures
        a.transposed().transposed() == a,
{
}

/// For every two-by-two matrix `a` and every vector `v` of two components:
/// the double transpose of `a` can be multiplied with `v` exactly when `a`
/// can, and the two products are equal.
pub proof fn lemma_matrix2x2_transpose_transpose_times_vector<S: Scalar>(
    a: Matrix2x2<S>,
    v: Vector2<S>,
)
    ensures
        a.transposed().transposed().can_mul_vector(v) == a.can_mul_vector(v),
        a.transposed().transposed().times_vector(v) == a.times_vector(v),
{
    lemma_matrix2x2_transpose_transpose(a);
}

/// The transpose of the identity is the identity.
pub proof fn lemma_matrix2x2_identity_transpose<S: Scalar>()
    ensures
        Matrix2x2::<S>::identity_spec().transposed() == Matrix2x2::<S>::identity_spec(),
{
}

/// For every two-by-three matrix `a`: the transpose of the transpose of `a` is `a`.
pub proof fn lemma_matrix2x3_transpose_transpose<S: Scalar>(a: Matrix2x3<S>)
    ensures
        a.transposed().transposed() == a,
{
}

/// For every two-by-three matrix `a` and every vector `v` of three components:
/// the double transpose of `a` can be multiplied with `v` exactly when `a`
/// can, and the two products are equal.
pub proof fn lemma_matrix2x3_transpose_transpose_times_vector<S: Scalar>(
    a: Matrix2x3<S>,
    v: Vector3<S>,
)
    ensures
        a.transposed().transposed().can_mul_vector(v) == a.can_mul_vector(v),
        a.transposed().transposed().times_vector(v) == a.times_vector(v),
{
    lemma_matrix2x3_transpose_transpose(a);
}

/// For every two-by-four matrix `a`: the transpose of the transpose of `a` is `a`.
pub proof fn lemma_matrix2x4_transpose_transpose<S: Scalar>(a: Matrix2x4<S>)
    ensures
        a.transposed().transposed() == a,
{
}

/// For every two-by-four matrix `a` and every vector `v` of four components:
/// the double transpose of `a` can be multiplied with `v` exactly when `a`
/// can, and the two products are equal.
pub proof fn lemma_matrix2x4_transpose_transpose_times_vector<S: Scalar>(
    a: Matrix2x4<S>,
    v: Vector4<S>,
)
    ensures
        a.transposed().transposed().can_mul_vector(v) == a.can_mul_vector(v),
        a.transposed().transposed().times_vector(v) == a.times_vector(v),
{
    lemma_matrix2x4_transpose_transpose(a);
}

/// For every three-by-two matrix `a`: the transpose of the transpose of `a` is `a`.
pub proof fn lemma_matrix3x2_transpose_transpose<S: Scalar>(a: Matrix3x2<S>)
    ensures
        a.transposed().transposed() == a,
{
}

/// For every three-by-two matrix `a` and every vector `v` of two components:
/// the double transpose of `a` can be multiplied with `v` exactly when `a`
/// can, and the two products are equal.
pub proof fn lemma_matrix3x2_transpose_transpose_times_vector<S: Scalar>(
    a: Matrix3x2<S>,
    v: Vector2<S>,
)
    ensures
        a.transposed().transposed().can_mul_vector(v) == a.can_mul_vector(v),
        a.transposed().transposed().times_vector(v) == a.times_vector(v),
{
    lemma_matrix3x2_transpose_transpose(a);
}

/// For every three-by-three matrix `a`: the transpose of the transpose of `a` is `a`.
pub proof fn lemma_matrix3x3_transpose_transpose<S: Scalar>(a: Matrix3x3<S>)
    ensures
        a.transposed().transposed() == a,
{
}

/// For every three-by-three matrix `a` and every vector `v` of three components:
/// the double transpose of `a` can be multiplied with `v` exactly when `a`
/// can, and the two products are equal.
pub proof fn lemma_matrix3x3_transpose_transpose_times_vector<S: Scalar>(
    a: Matrix3x3<S>,
    v: Vector3<S>,
)
    ensures
        a.transposed().transposed().can_mul_vector(v) == a.can_mul_vector(v),
        a.transposed().transposed().times_vector(v) == a.times_vector(v),
{
    lemma_matrix3x3_transpose_transpose(a);
}

/// The transpose of the identity is the identity.
pub proof fn lemma_matrix3x3_identity_transpose<S: Scalar>()
    ensures
        Matrix3x3::<S>::identity_spec().transposed() == Matrix3x3::<S>::identity_spec(),
{
}

/// For every three-by-four matrix `a`: the transpose of the transpose of `a` is `a`.
pub proof fn lemma_matrix3x4_transpose_transpose<S: Scalar>(a: Matrix3x4<S>)
    ensures
        a.transposed().transposed() == a,
{
}

/// For every three-by-four matrix `a` and every vector `v` of four components:
/// the double transpose of `a` can be multiplied with `v` exactly when `a`
/// can, and the two products are equal.
pub proof fn lemma_matrix3x4_transpose_transpose_times_vector<S: Scalar>(
    a: Matrix3x4<S>,
    v: Vector4<S>,
)
    ensures
        a.transposed().transposed().can_mul_vector(v) == a.can_mul_vector(v),
        a.transposed().transposed().times_vector(v) == a.times_vector(v),
{
    lemma_matrix3x4_transpose_transpose(a);
}

/// For every four-by-two matrix `a`: the transpose of the transpose of `a` is `a`.
pub proof fn lemma_matrix4x2_transpose_transpose<S: Scalar>(a: Matrix4x2<S>)
    ensures
        a.transposed().transposed() == a,
{
}

/// For every four-by-two matrix `a` and every vector `v` of two components:
/// the double transpose of `a` can be multiplied with `v` exactly when `a`
/// can, and the two products are equal.
pub proof fn lemma_matrix4x2_transpose_transpose_times_vector<S: Scalar>(
    a: Matrix4x2<S>,
    v: Vector2<S>,
)
    ensures
        a.transposed().transposed().can_mul_vector(v) == a.can_mul_vector(v),
        a.transposed().transposed().times_vector(v) == a.times_vector(v),
{
    lemma_matrix4x2_transpose_transpose(a);
}

/// For every four-by-three matrix `a`: the transpose of the transpose of `a` is `a`.
pub proof fn lemma_matrix4x3_transpose_transpose<S: Scalar>(a: Matrix4x3<S>)
    ensures
        a.transposed().transposed() == a,
{
}

/// For every four-by-three matrix `a` and every vector `v` of three components:
/// the double transpose of `a` can be multiplied with `v` exactly when `a`
/// can, and the two products are equal.
pub proof fn lemma_matrix4x3_transpose_transpose_times_vector<S: Scalar>(
    a: Matrix4x3<S>,
    v: Vector3<S>,
)
    ensures
        a.transposed().transposed().can_mul_vector(v) == a.can_mul_vector(v),
        a.transposed().transposed().times_vector(v) == a.times_vector(v),
{
    lemma_matrix4x3_transpose_transpose(a);
}

/// For every four-by-four matrix `a`: the transpose of the transpose of `a` is `a`.
pub proof fn lemma_matrix4x4_transpose_transpose<S: Scalar>(a: Matrix4x4<S>)
    ensures
        a.transposed().transposed() == a,
{
}

/// For every four-by-four matrix `a` and every vector `v` of four components:
/// the double transpose of `a` can be multiplied with `v` exactly when `a`
/// can, and the two products are equal.
pub proof fn lemma_matrix4x4_transpose_transpose_times_vector<S: Scalar>(
    a: Matrix4x4<S>,
    v: Vector4<S>,
)
    ensures
        a.transposed().transposed().can_mul_vector(v) == a.can_mul_vector(v),
        a.transposed().transposed().times_vector(v) == a.times_vector(v),
{
    lemma_matrix4x4_transpose_transpose(a);
}

/// The transpose of the identity is the identity.
pub proof fn lemma_matrix4x4_identity_transpose<S: Scalar>()
    ensures
        Matrix4x4::<S>::identity_spec().transposed() == Matrix4x4::<S>::identity_spec(),
{
}

} // verus!
