//! Laws of the affine constructors, proved for every integer scalar: the
//! affine matrices keep the last coordinate of what they are multiplied
//! with; a translation displaces points and leaves vectors alone; a
//! reflection does not depend on the sign of its normal; and the general
//! shear along one axis, measured along another, is the shear of that axis.

use vstd::prelude::*;
use crate::exact::{
    lemma_add_zero, lemma_mul_one, lemma_mul_zero, lemma_vector3_dot_unit, lemma_vector4_dot_unit,
};
use crate::matrix2x2::Matrix2x2;
use crate::matrix3x3::Matrix3x3;
use crate::matrix4x4::Matrix4x4;
use crate::point::{Point2, Point3};
use crate::scalar::{ExactScalar, ExactSigned};
use crate::unit::Unit;
use crate::vector::{Vector2, Vector3, Vector4};

verus! {

/// For every three-by-three matrix `m` whose last row is zero but for a final one, and
/// every vector `v`: the last component of `m` times `v` is defined and is
/// the last component of `v`.
pub proof fn lemma_matrix3x3_affine_keeps_last_coordinate<S: ExactScalar>(
    m: Matrix3x3<S>,
    v: Vector3<S>,
)
    requires
        m.row(2) == Vector3::<S>::unit_z_spec(),
    ensures
        m.row(2).can_dot_with(v),
        m.times_vector(v).z == v.z,
{
    lemma_vector3_dot_unit(v);
}

/// The matrix of `affine_scale_spec` keeps the last coordinate: for every vector
/// `v`, the last component of the matrix times `v` is that of `v`.
pub proof fn lemma_matrix3x3_affine_scale_keeps_last_coordinate<S: ExactScalar>(
    scale: S,
    v: Vector3<S>,
)
    ensures
        Matrix3x3::<S>::affine_scale_spec(scale).times_vector(v).z == v.z,
{
    lemma_matrix3x3_affine_keeps_last_coordinate(Matrix3x3::<S>::affine_scale_spec(scale), v);
}

/// The matrix of `affine_nonuniform_scale_spec` keeps the last coordinate: for every vector
/// `v`, the last component of the matrix times `v` is that of `v`.
pub proof fn lemma_matrix3x3_affine_nonuniform_scale_keeps_last_coordinate<S: ExactScalar>(
    scale: Vector2<S>,
    v: Vector3<S>,
)
    ensures
        Matrix3x3::<S>::affine_nonuniform_scale_spec(scale).times_vector(v).z == v.z,
{
    lemma_matrix3x3_affine_keeps_last_coordinate(Matrix3x3::<S>::affine_nonuniform_scale_spec(
        scale), v);
}

/// The matrix of `affine_translation_spec` keeps the last coordinate: for every vector
/// `v`, the last component of the matrix times `v` is that of `v`.
pub proof fn lemma_matrix3x3_affine_translation_keeps_last_coordinate<S: ExactScalar>(
    distance: Vector2<S>,
    v: Vector3<S>,
)
    ensures
        Matrix3x3::<S>::affine_translation_spec(distance).times_vector(v).z == v.z,
{
    lemma_matrix3x3_affine_keeps_last_coordinate(Matrix3x3::<S>::affine_translation_spec(distance),
        v);
}

/// The matrix of `affine_shear_spec` keeps the last coordinate: for every vector
/// `v`, the last component of the matrix times `v` is that of `v`.
pub proof fn lemma_matrix3x3_affine_shear_keeps_last_coordinate<S: ExactSigned>(
    shear_factor: S,
    origin: Point2<S>,
    direction: Unit<Vector2<S>>,
    normal: Unit<Vector2<S>>,
    v: Vector3<S>,
)
    ensures
        Matrix3x3::<S>::affine_shear_spec(shear_factor, origin, direction,
            normal).times_vector(v).z == v.z,
{
    lemma_matrix3x3_affine_keeps_last_coordinate(Matrix3x3::<S>::affine_shear_spec(shear_factor,
        origin, direction, normal), v);
}

/// The matrix of `affine_reflection_spec` keeps the last coordinate: for every vector
/// `v`, the last component of the matrix times `v` is that of `v`.
pub proof fn lemma_matrix3x3_affine_reflection_keeps_last_coordinate<S: ExactSigned>(
    normal: Unit<Vector2<S>>,
    bias: Point2<S>,
    v: Vector3<S>,
)
    ensures
        Matrix3x3::<S>::affine_reflection_spec(normal, bias).times_vector(v).z == v.z,
{
    lemma_matrix3x3_affine_keeps_last_coordinate(Matrix3x3::<S>::affine_reflection_spec(normal,
        bias), v);
}

/// The matrix of `affine_shear_x_spec` keeps the last coordinate: for every vector
/// `v`, the last component of the matrix times `v` is that of `v`.
pub proof fn lemma_matrix3x3_affine_shear_x_keeps_last_coordinate<S: ExactScalar>(
    shear_factor: S,
    v: Vector3<S>,
)
    ensures
        Matrix3x3::<S>::affine_shear_x_spec(shear_factor).times_vector(v).z == v.z,
{
    lemma_matrix3x3_affine_keeps_last_coordinate(Matrix3x3::<S>::affine_shear_x_spec(shear_factor),
        v);
}

/// The matrix of `affine_shear_y_spec` keeps the last coordinate: for every vector
/// `v`, the last component of the matrix times `v` is that of `v`.
pub proof fn lemma_matrix3x3_affine_shear_y_keeps_last_coordinate<S: ExactScalar>(
    shear_factor: S,
    v: Vector3<S>,
)
    ensures
        Matrix3x3::<S>::affine_shear_y_spec(shear_factor).times_vector(v).z == v.z,
{
    lemma_matrix3x3_affine_keeps_last_coordinate(Matrix3x3::<S>::affine_shear_y_spec(shear_factor),
        v);
}

/// For every four-by-four matrix `m` whose last row is zero but for a final one, and
/// every vector `v`: the last component of `m` times `v` is defined and is
/// the last component of `v`.
pub proof fn lemma_matrix4x4_affine_keeps_last_coordinate<S: ExactScalar>(
    m: Matrix4x4<S>,
    v: Vector4<S>,
)
    requires
        m.row(3) == Vector4::<S>::unit_w_spec(),
    ensures
        m.row(3).can_dot_with(v),
        m.times_vector(v).w == v.w,
{
    lemma_vector4_dot_unit(v);
}

/// The matrix of `affine_scale_spec` keeps the last coordinate: for every vector
/// `v`, the last component of the matrix times `v` is that of `v`.
pub proof fn lemma_matrix4x4_affine_scale_keeps_last_coordinate<S: ExactScalar>(
    scale: S,
    v: Vector4<S>,
)
    ensures
        Matrix4x4::<S>::affine_scale_spec(scale).times_vector(v).w == v.w,
{
    lemma_matrix4x4_affine_keeps_last_coordinate(Matrix4x4::<S>::affine_scale_spec(scale), v);
}

/// The matrix of `affine_nonuniform_scale_spec` keeps the last coordinate: for every vector
/// `v`, the last component of the matrix times `v` is that of `v`.
pub proof fn lemma_matrix4x4_affine_nonuniform_scale_keeps_last_coordinate<S: ExactScalar>(
    scale: Vector3<S>,
    v: Vector4<S>,
)
    ensures
        Matrix4x4::<S>::affine_nonuniform_scale_spec(scale).times_vector(v).w == v.w,
{
    lemma_matrix4x4_affine_keeps_last_coordinate(Matrix4x4::<S>::affine_nonuniform_scale_spec(
        scale), v);
}

/// The matrix of `affine_translation_spec` keeps the last coordinate: for every vector
/// `v`, the last component of the matrix times `v` is that of `v`.
pub proof fn lemma_matrix4x4_affine_translation_keeps_last_coordinate<S: ExactScalar>(
    distance: Vector3<S>,
    v: Vector4<S>,
)
    ensures
        Matrix4x4::<S>::affine_translation_spec(distance).times_vector(v).w == v.w,
{
    lemma_matrix4x4_affine_keeps_last_coordinate(Matrix4x4::<S>::affine_translation_spec(distance),
        v);
}

/// The matrix of `affine_shear_spec` keeps the last coordinate: for every vector
/// `v`, the last component of the matrix times `v` is that of `v`.
pub proof fn lemma_matrix4x4_affine_shear_keeps_last_coordinate<S: ExactSigned>(
    shear_factor: S,
    origin: Point3<S>,
    direction: Unit<Vector3<S>>,
    normal: Unit<Vector3<S>>,
    v: Vector4<S>,
)
    ensures
        Matrix4x4::<S>::affine_shear_spec(shear_factor, origin, direction,
            normal).times_vector(v).w == v.w,
{
    lemma_matrix4x4_affine_keeps_last_coordinate(Matrix4x4::<S>::affine_shear_spec(shear_factor,
        origin, direction, normal), v);
}

/// The matrix of `affine_reflection_spec` keeps the last coordinate: for every vector
/// `v`, the last component of the matrix times `v` is that of `v`.
pub proof fn lemma_matrix4x4_affine_reflection_keeps_last_coordinate<S: ExactSigned>(
    normal: Unit<Vector3<S>>,
    bias: Point3<S>,
    v: Vector4<S>,
)
    ensures
        Matrix4x4::<S>::affine_reflection_spec(normal, bias).times_vector(v).w == v.w,
{
    lemma_matrix4x4_affine_keeps_last_coordinate(Matrix4x4::<S>::affine_reflection_spec(normal,
        bias), v);
}

/// The matrix of `affine_shear_x_spec` keeps the last coordinate: for every vector
/// `v`, the last component of the matrix times `v` is that of `v`.
pub proof fn lemma_matrix4x4_affine_shear_x_keeps_last_coordinate<S: ExactScalar>(
    shear_x_with_y: S,
    shear_x_with_z: S,
    v: Vector4<S>,
)
    ensures
        Matrix4x4::<S>::affine_shear_x_spec(shear_x_with_y, shear_x_with_z).times_vector(v).w
            == v.w,
{
    lemma_matrix4x4_affine_keeps_last_coordinate(Matrix4x4::<S>::affine_shear_x_spec(
        shear_x_with_y, shear_x_with_z), v);
}

/// The matrix of `affine_shear_y_spec` keeps the last coordinate: for every vector
/// `v`, the last component of the matrix times `v` is that of `v`.
pub proof fn lemma_matrix4x4_affine_shear_y_keeps_last_coordinate<S: ExactScalar>(
    shear_y_with_x: S,
    shear_y_with_z: S,
    v: Vector4<S>,
)
    ensures
        Matrix4x4::<S>::affine_shear_y_spec(shear_y_with_x, shear_y_with_z).times_vector(v).w
            == v.w,
{
    lemma_matrix4x4_affine_keeps_last_coordinate(Matrix4x4::<S>::affine_shear_y_spec(
        shear_y_with_x, shear_y_with_z), v);
}

/// The matrix of `affine_shear_z_spec` keeps the last coordinate: for every vector
/// `v`, the last component of the matrix times `v` is that of `v`.
pub proof fn lemma_matrix4x4_affine_shear_z_keeps_last_coordinate<S: ExactScalar>(
    shear_z_with_x: S,
    shear_z_with_y: S,
    v: Vector4<S>,
)
    ensures
        Matrix4x4::<S>::affine_shear_z_spec(shear_z_with_x, shear_z_with_y).times_vector(v).w
            == v.w,
{
    lemma_matrix4x4_affine_keeps_last_coordinate(Matrix4x4::<S>::affine_shear_z_spec(
        shear_z_with_x, shear_z_with_y), v);
}

/// The matrix of `affine_shear_factors_spec` keeps the last coordinate: for every vector
/// `v`, the last component of the matrix times `v` is that of `v`.
pub proof fn lemma_matrix4x4_affine_shear_factors_keeps_last_coordinate<S: ExactScalar>(
    shear_x_with_y: S,
    shear_x_with_z: S,
    shear_y_with_x: S,
    shear_y_with_z: S,
    shear_z_with_x: S,
    shear_z_with_y: S,
    v: Vector4<S>,
)
    ensures
        Matrix4x4::<S>::affine_shear_factors_spec(shear_x_with_y, shear_x_with_z, shear_y_with_x,
            shear_y_with_z, shear_z_with_x, shear_z_with_y).times_vector(v).w == v.w,
{
    lemma_matrix4x4_affine_keeps_last_coordinate(Matrix4x4::<S>::affine_shear_factors_spec(
        shear_x_with_y, shear_x_with_z, shear_y_with_x, shear_y_with_z, shear_z_with_x,
        shear_z_with_y), v);
}

/// For every displacement `distance` and every vector `v`: the matrix of the
/// translation by `distance` times `v` in homogeneous coordinates, whose
/// last component is zero, is defined and is `v` in homogeneous coordinates.
pub proof fn lemma_matrix3x3_translation_fixes_vectors<S: ExactScalar>(
    distance: Vector2<S>,
    v: Vector2<S>,
)
    ensures
        Matrix3x3::<S>::affine_translation_spec(distance)
            .can_mul_vector(v.extend_spec(S::zero_spec())),
        Matrix3x3::<S>::affine_translation_spec(distance).times_vector(v.extend_spec(S::zero_spec(
            )))
            == v.extend_spec(S::zero_spec()),
{
    lemma_mul_one(v.x);
    lemma_mul_zero(v.x);
    lemma_add_zero(v.x);
    lemma_mul_one(distance.x);
    lemma_mul_zero(distance.x);
    lemma_add_zero(distance.x);
    lemma_mul_one(v.y);
    lemma_mul_zero(v.y);
    lemma_add_zero(v.y);
    lemma_mul_one(distance.y);
    lemma_mul_zero(distance.y);
    lemma_add_zero(distance.y);
    lemma_mul_one(S::zero_spec());
    lemma_mul_zero(S::zero_spec());
    lemma_add_zero(S::zero_spec());
}

/// For every displacement `distance` and every point `p` to which it can be
/// added: the matrix of the translation by `distance` times `p` in
/// homogeneous coordinates is defined and is the displaced point in
/// homogeneous coordinates.
pub proof fn lemma_matrix3x3_translation_moves_points<S: ExactScalar>(
    distance: Vector2<S>,
    p: Point2<S>,
)
    requires
        p.can_add_vector(distance),
    ensures
        Matrix3x3::<S>::affine_translation_spec(distance).can_mul_vector(p.to_homogeneous_spec()),
        Matrix3x3::<S>::affine_translation_spec(distance).times_vector(p.to_homogeneous_spec())
            == p.plus_vector(distance).to_homogeneous_spec(),
{
    lemma_mul_one(p.x);
    lemma_mul_zero(p.x);
    lemma_add_zero(p.x);
    lemma_mul_one(distance.x);
    lemma_mul_zero(distance.x);
    lemma_mul_one(p.y);
    lemma_mul_zero(p.y);
    lemma_add_zero(p.y);
    lemma_mul_one(distance.y);
    lemma_mul_zero(distance.y);
    lemma_mul_one(S::zero_spec());
    lemma_mul_zero(S::zero_spec());
    lemma_mul_one(S::one_spec());
    lemma_mul_zero(S::one_spec());
    lemma_add_zero(S::zero_spec());
    lemma_add_zero(S::one_spec());
}

/// For every displacement `distance` and every vector `v`: the matrix of the
/// translation by `distance` times `v` in homogeneous coordinates, whose
/// last component is zero, is defined and is `v` in homogeneous coordinates.
pub proof fn lemma_matrix4x4_translation_fixes_vectors<S: ExactScalar>(
    distance: Vector3<S>,
    v: Vector3<S>,
)
    ensures
        Matrix4x4::<S>::affine_translation_spec(distance)
            .can_mul_vector(v.extend_spec(S::zero_spec())),
        Matrix4x4::<S>::affine_translation_spec(distance).times_vector(v.extend_spec(S::zero_spec(
            )))
            == v.extend_spec(S::zero_spec()),
{
    lemma_mul_one(v.x);
    lemma_mul_zero(v.x);
    lemma_add_zero(v.x);
    lemma_mul_one(distance.x);
    lemma_mul_zero(distance.x);
    lemma_add_zero(distance.x);
    lemma_mul_one(v.y);
    lemma_mul_zero(v.y);
    lemma_add_zero(v.y);
    lemma_mul_one(distance.y);
    lemma_mul_zero(distance.y);
    lemma_add_zero(distance.y);
    lemma_mul_one(v.z);
    lemma_mul_zero(v.z);
    lemma_add_zero(v.z);
    lemma_mul_one(distance.z);
    lemma_mul_zero(distance.z);
    lemma_add_zero(distance.z);
    lemma_mul_one(S::zero_spec());
    lemma_mul_zero(S::zero_spec());
    lemma_add_zero(S::zero_spec());
}

/// For every displacement `distance` and every point `p` to which it can be
/// added: the matrix of the translation by `distance` times `p` in
/// homogeneous coordinates is defined and is the displaced point in
/// homogeneous coordinates.
pub proof fn lemma_matrix4x4_translation_moves_points<S: ExactScalar>(
    distance: Vector3<S>,
    p: Point3<S>,
)
    requires
        p.can_add_vector(distance),
    ensures
        Matrix4x4::<S>::affine_translation_spec(distance).can_mul_vector(p.to_homogeneous_spec()),
        Matrix4x4::<S>::affine_translation_spec(distance).times_vector(p.to_homogeneous_spec())
            == p.plus_vector(distance).to_homogeneous_spec(),
{
    lemma_mul_one(p.x);
    lemma_mul_zero(p.x);
    lemma_add_zero(p.x);
    lemma_mul_one(distance.x);
    lemma_mul_zero(distance.x);
    lemma_mul_one(p.y);
    lemma_mul_zero(p.y);
    lemma_add_zero(p.y);
    lemma_mul_one(distance.y);
    lemma_mul_zero(distance.y);
    lemma_mul_one(p.z);
    lemma_mul_zero(p.z);
    lemma_add_zero(p.z);
    lemma_mul_one(distance.z);
    lemma_mul_zero(distance.z);
    lemma_mul_one(S::zero_spec());
    lemma_mul_zero(S::zero_spec());
    lemma_mul_one(S::one_spec());
    lemma_mul_zero(S::one_spec());
    lemma_add_zero(S::zero_spec());
    lemma_add_zero(S::one_spec());
}

/// For every normal that can be negated: where the reflections through the
/// normal and through its negation are both defined, they are the same
/// matrix.
pub proof fn lemma_matrix2x2_reflection_normal_sign<S: ExactSigned>(normal: Vector2<S>)
    requires
        normal.can_neg(),
        Matrix2x2::<S>::can_from_reflection(Unit { value: normal }),
        Matrix2x2::<S>::can_from_reflection(Unit { value: normal.negated() }),
    ensures
        Matrix2x2::<S>::reflection_spec(Unit { value: normal.negated() })
            == Matrix2x2::<S>::reflection_spec(
            Unit { value: normal },
        ),
{
    S::lemma_identities();
    let nx = normal.x.value();
    let ny = normal.y.value();
    S::lemma_add(S::one_spec(), S::one_spec());
    S::lemma_mul(S::one_spec().plus(S::one_spec()), normal.x);
    S::lemma_mul(S::one_spec().plus(S::one_spec()).times(normal.x), normal.x);
    S::lemma_sub(S::one_spec(), S::one_spec().plus(S::one_spec()).times(normal.x).times(normal.x));
    S::lemma_neg(normal.x);
    S::lemma_mul(S::one_spec().plus(S::one_spec()), normal.x.negated());
    S::lemma_mul(S::one_spec().plus(S::one_spec()).times(normal.x.negated()), normal.x.negated());
    S::lemma_sub(S::one_spec(), S::one_spec().plus(S::one_spec()).times(normal.x.negated())
        .times(normal.x.negated()));
    assert((1 - (((1 + 1) * (-nx)) * (-nx))) == (1 - (((1 + 1) * nx) * nx))) by (nonlinear_arith);
    S::lemma_value_injective(S::one_spec().minus(S::one_spec().plus(S::one_spec())
        .times(normal.x.negated()).times(normal.x.negated())), S::one_spec()
        .minus(S::one_spec().plus(S::one_spec()).times(normal.x).times(normal.x)));
    S::lemma_add(S::one_spec(), S::one_spec());
    S::lemma_neg(S::one_spec().plus(S::one_spec()));
    S::lemma_mul(S::one_spec().plus(S::one_spec()).negated(), normal.x);
    S::lemma_mul(S::one_spec().plus(S::one_spec()).negated().times(normal.x), normal.y);
    S::lemma_neg(normal.x);
    S::lemma_mul(S::one_spec().plus(S::one_spec()).negated(), normal.x.negated());
    S::lemma_neg(normal.y);
    S::lemma_mul(S::one_spec().plus(S::one_spec()).negated().times(normal.x.negated()),
        normal.y.negated());
    assert((((-(1 + 1)) * (-nx)) * (-ny)) == (((-(1 + 1)) * nx) * ny)) by (nonlinear_arith);
    S::lemma_value_injective(S::one_spec().plus(S::one_spec()).negated()
        .times(normal.x.negated()).times(normal.y.negated()), S::one_spec()
        .plus(S::one_spec()).negated().times(normal.x).times(normal.y));
    S::lemma_add(S::one_spec(), S::one_spec());
    S::lemma_neg(S::one_spec().plus(S::one_spec()));
    S::lemma_mul(S::one_spec().plus(S::one_spec()).negated(), normal.x);
    S::lemma_mul(S::one_spec().plus(S::one_spec()).negated().times(normal.x), normal.y);
    S::lemma_neg(normal.x);
    S::lemma_mul(S::one_spec().plus(S::one_spec()).negated(), normal.x.negated());
    S::lemma_neg(normal.y);
    S::lemma_mul(S::one_spec().plus(S::one_spec()).negated().times(normal.x.negated()),
        normal.y.negated());
    assert((((-(1 + 1)) * (-nx)) * (-ny)) == (((-(1 + 1)) * nx) * ny)) by (nonlinear_arith);
    S::lemma_value_injective(S::one_spec().plus(S::one_spec()).negated()
        .times(normal.x.negated()).times(normal.y.negated()), S::one_spec()
        .plus(S::one_spec()).negated().times(normal.x).times(normal.y));
    S::lemma_add(S::one_spec(), S::one_spec());
    S::lemma_mul(S::one_spec().plus(S::one_spec()), normal.y);
    S::lemma_mul(S::one_spec().plus(S::one_spec()).times(normal.y), normal.y);
    S::lemma_sub(S::one_spec(), S::one_spec().plus(S::one_spec()).times(normal.y).times(normal.y));
    S::lemma_neg(normal.y);
    S::lemma_mul(S::one_spec().plus(S::one_spec()), normal.y.negated());
    S::lemma_mul(S::one_spec().plus(S::one_spec()).times(normal.y.negated()), normal.y.negated());
    S::lemma_sub(S::one_spec(), S::one_spec().plus(S::one_spec()).times(normal.y.negated())
        .times(normal.y.negated()));
    assert((1 - (((1 + 1) * (-ny)) * (-ny))) == (1 - (((1 + 1) * ny) * ny))) by (nonlinear_arith);
    S::lemma_value_injective(S::one_spec().minus(S::one_spec().plus(S::one_spec())
        .times(normal.y.negated()).times(normal.y.negated())), S::one_spec()
        .minus(S::one_spec().plus(S::one_spec()).times(normal.y).times(normal.y)));
}

/// For every normal that can be negated: where the reflections through the
/// normal and through its negation are both defined, they are the same
/// matrix.
pub proof fn lemma_matrix3x3_reflection_normal_sign<S: ExactSigned>(normal: Vector3<S>)
    requires
        normal.can_neg(),
        Matrix3x3::<S>::can_from_reflection(Unit { value: normal }),
        Matrix3x3::<S>::can_from_reflection(Unit { value: normal.negated() }),
    ensures
        Matrix3x3::<S>::reflection_spec(Unit { value: normal.negated() })
            == Matrix3x3::<S>::reflection_spec(
            Unit { value: normal },
        ),
{
    S::lemma_identities();
    let nx = normal.x.value();
    let ny = normal.y.value();
    let nz = normal.z.value();
    S::lemma_add(S::one_spec(), S::one_spec());
    S::lemma_mul(S::one_spec().plus(S::one_spec()), normal.x);
    S::lemma_mul(S::one_spec().plus(S::one_spec()).times(normal.x), normal.x);
    S::lemma_sub(S::one_spec(), S::one_spec().plus(S::one_spec()).times(normal.x).times(normal.x));
    S::lemma_neg(normal.x);
    S::lemma_mul(S::one_spec().plus(S::one_spec()), normal.x.negated());
    S::lemma_mul(S::one_spec().plus(S::one_spec()).times(normal.x.negated()), normal.x.negated());
    S::lemma_sub(S::one_spec(), S::one_spec().plus(S::one_spec()).times(normal.x.negated())
        .times(normal.x.negated()));
    assert((1 - (((1 + 1) * (-nx)) * (-nx))) == (1 - (((1 + 1) * nx) * nx))) by (nonlinear_arith);
    S::lemma_value_injective(S::one_spec().minus(S::one_spec().plus(S::one_spec())
        .times(normal.x.negated()).times(normal.x.negated())), S::one_spec()
        .minus(S::one_spec().plus(S::one_spec()).times(normal.x).times(normal.x)));
    S::lemma_add(S::one_spec(), S::one_spec());
    S::lemma_neg(S::one_spec().plus(S::one_spec()));
    S::lemma_mul(S::one_spec().plus(S::one_spec()).negated(), normal.x);
    S::lemma_mul(S::one_spec().plus(S::one_spec()).negated().times(normal.x), normal.y);
    S::lemma_neg(normal.x);
    S::lemma_mul(S::one_spec().plus(S::one_spec()).negated(), normal.x.negated());
    S::lemma_neg(normal.y);
    S::lemma_mul(S::one_spec().plus(S::one_spec()).negated().times(normal.x.negated()),
        normal.y.negated());
    assert((((-(1 + 1)) * (-nx)) * (-ny)) == (((-(1 + 1)) * nx) * ny)) by (nonlinear_arith);
    S::lemma_value_injective(S::one_spec().plus(S::one_spec()).negated()
        .times(normal.x.negated()).times(normal.y.negated()), S::one_spec()
        .plus(S::one_spec()).negated().times(normal.x).times(normal.y));
    S::lemma_add(S::one_spec(), S::one_spec());
    S::lemma_neg(S::one_spec().plus(S::one_spec()));
    S::lemma_mul(S::one_spec().plus(S::one_spec()).negated(), normal.x);
    S::lemma_mul(S::one_spec().plus(S::one_spec()).negated().times(normal.x), normal.z);
    S::lemma_neg(normal.x);
    S::lemma_mul(S::one_spec().plus(S::one_spec()).negated(), normal.x.negated());
    S::lemma_neg(normal.z);
    S::lemma_mul(S::one_spec().plus(S::one_spec()).negated().times(normal.x.negated()),
        normal.z.negated());
    assert((((-(1 + 1)) * (-nx)) * (-nz)) == (((-(1 + 1)) * nx) * nz)) by (nonlinear_arith);
    S::lemma_value_injective(S::one_spec().plus(S::one_spec()).negated()
        .times(normal.x.negated()).times(normal.z.negated()), S::one_spec()
        .plus(S::one_spec()).negated().times(normal.x).times(normal.z));
    S::lemma_add(S::one_spec(), S::one_spec());
    S::lemma_neg(S::one_spec().plus(S::one_spec()));
    S::lemma_mul(S::one_spec().plus(S::one_spec()).negated(), normal.x);
    S::lemma_mul(S::one_spec().plus(S::one_spec()).negated().times(normal.x), normal.y);
    S::lemma_neg(normal.x);
    S::lemma_mul(S::one_spec().plus(S::one_spec()).negated(), normal.x.negated());
    S::lemma_neg(normal.y);
    S::lemma_mul(S::one_spec().plus(S::one_spec()).negated().times(normal.x.negated()),
        normal.y.negated());
    assert((((-(1 + 1)) * (-nx)) * (-ny)) == (((-(1 + 1)) * nx) * ny)) by (nonlinear_arith);
    S::lemma_value_injective(S::one_spec().plus(S::one_spec()).negated()
        .times(normal.x.negated()).times(normal.y.negated()), S::one_spec()
        .plus(S::one_spec()).negated().times(normal.x).times(normal.y));
    S::lemma_add(S::one_spec(), S::one_spec());
    S::lemma_mul(S::one_spec().plus(S::one_spec()), normal.y);
    S::lemma_mul(S::one_spec().plus(S::one_spec()).times(normal.y), normal.y);
    S::lemma_sub(S::one_spec(), S::one_spec().plus(S::one_spec()).times(normal.y).times(normal.y));
    S::lemma_neg(normal.y);
    S::lemma_mul(S::one_spec().plus(S::one_spec()), normal.y.negated());
    S::lemma_mul(S::one_spec().plus(S::one_spec()).times(normal.y.negated()), normal.y.negated());
    S::lemma_sub(S::one_spec(), S::one_spec().plus(S::one_spec()).times(normal.y.negated())
        .times(normal.y.negated()));
    assert((1 - (((1 + 1) * (-ny)) * (-ny))) == (1 - (((1 + 1) * ny) * ny))) by (nonlinear_arith);
    S::lemma_value_injective(S::one_spec().minus(S::one_spec().plus(S::one_spec())
        .times(normal.y.negated()).times(normal.y.negated())), S::one_spec()
        .minus(S::one_spec().plus(S::one_spec()).times(normal.y).times(normal.y)));
    S::lemma_add(S::one_spec(), S::one_spec());
    S::lemma_neg(S::one_spec().plus(S::one_spec()));
    S::lemma_mul(S::one_spec().plus(S::one_spec()).negated(), normal.y);
    S::lemma_mul(S::one_spec().plus(S::one_spec()).negated().times(normal.y), normal.z);
    S::lemma_neg(normal.y);
    S::lemma_mul(S::one_spec().plus(S::one_spec()).negated(), normal.y.negated());
    S::lemma_neg(normal.z);
    S::lemma_mul(S::one_spec().plus(S::one_spec()).negated().times(normal.y.negated()),
        normal.z.negated());
    assert((((-(1 + 1)) * (-ny)) * (-nz)) == (((-(1 + 1)) * ny) * nz)) by (nonlinear_arith);
    S::lemma_value_injective(S::one_spec().plus(S::one_spec()).negated()
        .times(normal.y.negated()).times(normal.z.negated()), S::one_spec()
        .plus(S::one_spec()).negated().times(normal.y).times(normal.z));
    S::lemma_add(S::one_spec(), S::one_spec());
    S::lemma_neg(S::one_spec().plus(S::one_spec()));
    S::lemma_mul(S::one_spec().plus(S::one_spec()).negated(), normal.x);
    S::lemma_mul(S::one_spec().plus(S::one_spec()).negated().times(normal.x), normal.z);
    S::lemma_neg(normal.x);
    S::lemma_mul(S::one_spec().plus(S::one_spec()).negated(), normal.x.negated());
    S::lemma_neg(normal.z);
    S::lemma_mul(S::one_spec().plus(S::one_spec()).negated().times(normal.x.negated()),
        normal.z.negated());
    assert((((-(1 + 1)) * (-nx)) * (-nz)) == (((-(1 + 1)) * nx) * nz)) by (nonlinear_arith);
    S::lemma_value_injective(S::one_spec().plus(S::one_spec()).negated()
        .times(normal.x.negated()).times(normal.z.negated()), S::one_spec()
        .plus(S::one_spec()).negated().times(normal.x).times(normal.z));
    S::lemma_add(S::one_spec(), S::one_spec());
    S::lemma_neg(S::one_spec().plus(S::one_spec()));
    S::lemma_mul(S::one_spec().plus(S::one_spec()).negated(), normal.y);
    S::lemma_mul(S::one_spec().plus(S::one_spec()).negated().times(normal.y), normal.z);
    S::lemma_neg(normal.y);
    S::lemma_mul(S::one_spec().plus(S::one_spec()).negated(), normal.y.negated());
    S::lemma_neg(normal.z);
    S::lemma_mul(S::one_spec().plus(S::one_spec()).negated().times(normal.y.negated()),
        normal.z.negated());
    assert((((-(1 + 1)) * (-ny)) * (-nz)) == (((-(1 + 1)) * ny) * nz)) by (nonlinear_arith);
    S::lemma_value_injective(S::one_spec().plus(S::one_spec()).negated()
        .times(normal.y.negated()).times(normal.z.negated()), S::one_spec()
        .plus(S::one_spec()).negated().times(normal.y).times(normal.z));
    S::lemma_add(S::one_spec(), S::one_spec());
    S::lemma_mul(S::one_spec().plus(S::one_spec()), normal.z);
    S::lemma_mul(S::one_spec().plus(S::one_spec()).times(normal.z), normal.z);
    S::lemma_sub(S::one_spec(), S::one_spec().plus(S::one_spec()).times(normal.z).times(normal.z));
    S::lemma_neg(normal.z);
    S::lemma_mul(S::one_spec().plus(S::one_spec()), normal.z.negated());
    S::lemma_mul(S::one_spec().plus(S::one_spec()).times(normal.z.negated()), normal.z.negated());
    S::lemma_sub(S::one_spec(), S::one_spec().plus(S::one_spec()).times(normal.z.negated())
        .times(normal.z.negated()));
    assert((1 - (((1 + 1) * (-nz)) * (-nz))) == (1 - (((1 + 1) * nz) * nz))) by (nonlinear_arith);
    S::lemma_value_injective(S::one_spec().minus(S::one_spec().plus(S::one_spec())
        .times(normal.z.negated()).times(normal.z.negated())), S::one_spec()
        .minus(S::one_spec().plus(S::one_spec()).times(normal.z).times(normal.z)));
}

/// The shear of the plane along the x-axis, measured along the y-axis, is defined and is the
/// shear of the x-axis.
pub proof fn lemma_matrix2x2_shear_x_y<S: ExactScalar>(shear_factor: S)
    ensures
        Matrix2x2::<S>::can_from_shear(
            shear_factor,
            Unit { value: Vector2::<S>::unit_x_spec() },
            Unit { value: Vector2::<S>::unit_y_spec() },
        ),
        Matrix2x2::<S>::shear_spec(
            shear_factor,
            Unit { value: Vector2::<S>::unit_x_spec() },
            Unit { value: Vector2::<S>::unit_y_spec() },
        ) == Matrix2x2::<S>::shear_x_spec(shear_factor),
{
    lemma_mul_one(shear_factor);
    lemma_mul_zero(shear_factor);
    lemma_add_zero(shear_factor);
    lemma_mul_one(S::zero_spec());
    lemma_mul_zero(S::zero_spec());
    lemma_add_zero(S::zero_spec());
    lemma_mul_one(S::one_spec());
    lemma_mul_zero(S::one_spec());
    lemma_add_zero(S::one_spec());
}

/// The shear of the plane along the y-axis, measured along the x-axis, is defined and is the
/// shear of the y-axis.
pub proof fn lemma_matrix2x2_shear_y_x<S: ExactScalar>(shear_factor: S)
    ensures
        Matrix2x2::<S>::can_from_shear(
            shear_factor,
            Unit { value: Vector2::<S>::unit_y_spec() },
            Unit { value: Vector2::<S>::unit_x_spec() },
        ),
        Matrix2x2::<S>::shear_spec(
            shear_factor,
            Unit { value: Vector2::<S>::unit_y_spec() },
            Unit { value: Vector2::<S>::unit_x_spec() },
        ) == Matrix2x2::<S>::shear_y_spec(shear_factor),
{
    lemma_mul_one(shear_factor);
    lemma_mul_zero(shear_factor);
    lemma_add_zero(shear_factor);
    lemma_mul_one(S::zero_spec());
    lemma_mul_zero(S::zero_spec());
    lemma_add_zero(S::zero_spec());
    lemma_mul_one(S::one_spec());
    lemma_mul_zero(S::one_spec());
    lemma_add_zero(S::one_spec());
}

/// The shear of space along the x-axis, measured along the y-axis, is defined and is the shear
/// of the x-axis with the y-component alone.
pub proof fn lemma_matrix3x3_shear_x_y<S: ExactScalar>(shear_factor: S)
    ensures
        Matrix3x3::<S>::can_from_shear(
            shear_factor,
            Unit { value: Vector3::<S>::unit_x_spec() },
            Unit { value: Vector3::<S>::unit_y_spec() },
        ),
        Matrix3x3::<S>::shear_spec(
            shear_factor,
            Unit { value: Vector3::<S>::unit_x_spec() },
            Unit { value: Vector3::<S>::unit_y_spec() },
        ) == Matrix3x3::<S>::shear_x_spec(shear_factor, S::zero_spec()),
{
    lemma_mul_one(shear_factor);
    lemma_mul_zero(shear_factor);
    lemma_add_zero(shear_factor);
    lemma_mul_one(S::zero_spec());
    lemma_mul_zero(S::zero_spec());
    lemma_add_zero(S::zero_spec());
    lemma_mul_one(S::one_spec());
    lemma_mul_zero(S::one_spec());
    lemma_add_zero(S::one_spec());
}

/// The shear of space along the x-axis, measured along the z-axis, is defined and is the shear
/// of the x-axis with the z-component alone.
pub proof fn lemma_matrix3x3_shear_x_z<S: ExactScalar>(shear_factor: S)
    ensures
        Matrix3x3::<S>::can_from_shear(
            shear_factor,
            Unit { value: Vector3::<S>::unit_x_spec() },
            Unit { value: Vector3::<S>::unit_z_spec() },
        ),
        Matrix3x3::<S>::shear_spec(
            shear_factor,
            Unit { value: Vector3::<S>::unit_x_spec() },
            Unit { value: Vector3::<S>::unit_z_spec() },
        ) == Matrix3x3::<S>::shear_x_spec(S::zero_spec(), shear_factor),
{
    lemma_mul_one(shear_factor);
    lemma_mul_zero(shear_factor);
    lemma_add_zero(shear_factor);
    lemma_mul_one(S::zero_spec());
    lemma_mul_zero(S::zero_spec());
    lemma_add_zero(S::zero_spec());
    lemma_mul_one(S::one_spec());
    lemma_mul_zero(S::one_spec());
    lemma_add_zero(S::one_spec());
}

/// The shear of space along the y-axis, measured along the x-axis, is defined and is the shear
/// of the y-axis with the x-component alone.
pub proof fn lemma_matrix3x3_shear_y_x<S: ExactScalar>(shear_factor: S)
    ensures
        Matrix3x3::<S>::can_from_shear(
            shear_factor,
            Unit { value: Vector3::<S>::unit_y_spec() },
            Unit { value: Vector3::<S>::unit_x_spec() },
        ),
        Matrix3x3::<S>::shear_spec(
            shear_factor,
            Unit { value: Vector3::<S>::unit_y_spec() },
            Unit { value: Vector3::<S>::unit_x_spec() },
        ) == Matrix3x3::<S>::shear_y_spec(shear_factor, S::zero_spec()),
{
    lemma_mul_one(shear_factor);
    lemma_mul_zero(shear_factor);
    lemma_add_zero(shear_factor);
    lemma_mul_one(S::zero_spec());
    lemma_mul_zero(S::zero_spec());
    lemma_add_zero(S::zero_spec());
    lemma_mul_one(S::one_spec());
    lemma_mul_zero(S::one_spec());
    lemma_add_zero(S::one_spec());
}

/// The shear of space along the y-axis, measured along the z-axis, is defined and is the shear
/// of the y-axis with the z-component alone.
pub proof fn lemma_matrix3x3_shear_y_z<S: ExactScalar>(shear_factor: S)
    ensures
        Matrix3x3::<S>::can_from_shear(
            shear_factor,
            Unit { value: Vector3::<S>::unit_y_spec() },
            Unit { value: Vector3::<S>::unit_z_spec() },
        ),
        Matrix3x3::<S>::shear_spec(
            shear_factor,
            Unit { value: Vector3::<S>::unit_y_spec() },
            Unit { value: Vector3::<S>::unit_z_spec() },
        ) == Matrix3x3::<S>::shear_y_spec(S::zero_spec(), shear_factor),
{
    lemma_mul_one(shear_factor);
    lemma_mul_zero(shear_factor);
    lemma_add_zero(shear_factor);
    lemma_mul_one(S::zero_spec());
    lemma_mul_zero(S::zero_spec());
    lemma_add_zero(S::zero_spec());
    lemma_mul_one(S::one_spec());
    lemma_mul_zero(S::one_spec());
    lemma_add_zero(S::one_spec());
}

/// The shear of space along the z-axis, measured along the x-axis, is defined and is the shear
/// of the z-axis with the x-component alone.
pub proof fn lemma_matrix3x3_shear_z_x<S: ExactScalar>(shear_factor: S)
    ensures
        Matrix3x3::<S>::can_from_shear(
            shear_factor,
            Unit { value: Vector3::<S>::unit_z_spec() },
            Unit { value: Vector3::<S>::unit_x_spec() },
        ),
        Matrix3x3::<S>::shear_spec(
            shear_factor,
            Unit { value: Vector3::<S>::unit_z_spec() },
            Unit { value: Vector3::<S>::unit_x_spec() },
        ) == Matrix3x3::<S>::shear_z_spec(shear_factor, S::zero_spec()),
{
    lemma_mul_one(shear_factor);
    lemma_mul_zero(shear_factor);
    lemma_add_zero(shear_factor);
    lemma_mul_one(S::zero_spec());
    lemma_mul_zero(S::zero_spec());
    lemma_add_zero(S::zero_spec());
    lemma_mul_one(S::one_spec());
    lemma_mul_zero(S::one_spec());
    lemma_add_zero(S::one_spec());
}

/// The shear of space along the z-axis, measured along the y-axis, is defined and is the shear
/// of the z-axis with the y-component alone.
pub proof fn lemma_matrix3x3_shear_z_y<S: ExactScalar>(shear_factor: S)
    ensures
        Matrix3x3::<S>::can_from_shear(
            shear_factor,
            Unit { value: Vector3::<S>::unit_z_spec() },
            Unit { value: Vector3::<S>::unit_y_spec() },
        ),
        Matrix3x3::<S>::shear_spec(
            shear_factor,
            Unit { value: Vector3::<S>::unit_z_spec() },
            Unit { value: Vector3::<S>::unit_y_spec() },
        ) == Matrix3x3::<S>::shear_z_spec(S::zero_spec(), shear_factor),
{
    lemma_mul_one(shear_factor);
    lemma_mul_zero(shear_factor);
    lemma_add_zero(shear_factor);
    lemma_mul_one(S::zero_spec());
    lemma_mul_zero(S::zero_spec());
    lemma_add_zero(S::zero_spec());
    lemma_mul_one(S::one_spec());
    lemma_mul_zero(S::one_spec());
    lemma_add_zero(S::one_spec());
}

} // verus!
