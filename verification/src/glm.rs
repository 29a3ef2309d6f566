//! Constructors and products under the short names of a shading language.

use vstd::prelude::*;
use crate::angle::Radians;
use crate::matrix2x2::Matrix2x2;
use crate::matrix3x3::Matrix3x3;
use crate::matrix4x4::Matrix4x4;
use crate::projection::{OrthographicSpec, PerspectiveFovSpec, PerspectiveSpec};
use crate::quaternion::Quaternion;
use crate::scalar::{Scalar, ScalarFloat, ScalarSigned};
use crate::vector::{DotProduct, Vector1, Vector2, Vector3, Vector4};

verus! {

/// The vector with the one component `x`.
pub fn vec1<S: Scalar>(x: S) -> (r: Vector1<S>)
    ensures
        r == (Vector1 { x }),
{
    Vector1::new(x)
}

/// The vector `(x, y)`.
pub fn vec2<S: Scalar>(x: S, y: S) -> (r: Vector2<S>)
    ensures
        r == (Vector2 { x, y }),
{
    Vector2::new(x, y)
}

/// The vector `(x, y, z)`.
pub fn vec3<S: Scalar>(x: S, y: S, z: S) -> (r: Vector3<S>)
    ensures
        r == (Vector3 { x, y, z }),
{
    Vector3::new(x, y, z)
}

/// The vector `(x, y, z, w)`.
pub fn vec4<S: Scalar>(x: S, y: S, z: S, w: S) -> (r: Vector4<S>)
    ensures
        r == (Vector4 { x, y, z, w }),
{
    Vector4::new(x, y, z, w)
}

/// The quaternion `s + x i + y j + z k`.
pub fn quat<S: Scalar>(s: S, x: S, y: S, z: S) -> (r: Quaternion<S>)
    ensures
        r == (Quaternion { s, v: Vector3 { x, y, z } }),
{
    Quaternion::new(s, x, y, z)
}

/// The two-by-two matrix with the given entries, column by column.
pub fn mat2<S: Scalar>(m00: S, m01: S, m10: S, m11: S) -> (r: Matrix2x2<S>)
    ensures
        r == (Matrix2x2 { c0: Vector2 { x: m00, y: m01 }, c1: Vector2 { x: m10, y: m11 } }),
{
    Matrix2x2::new(m00, m01, m10, m11)
}

/// The three-by-three matrix with the given entries, column by column.
pub fn mat3<S: Scalar>(
    m00: S,
    m01: S,
    m02: S,
    m10: S,
    m11: S,
    m12: S,
    m20: S,
    m21: S,
    m22: S,
) -> (r:
    Matrix3x3<S>)
    ensures
        r == (Matrix3x3 {
            c0: Vector3 { x: m00, y: m01, z: m02 },
            c1: Vector3 { x: m10, y: m11, z: m12 },
            c2: Vector3 { x: m20, y: m21, z: m22 },
        }),
{
    Matrix3x3::new(m00, m01, m02, m10, m11, m12, m20, m21, m22)
}

/// The four-by-four matrix with the given entries, column by column.
pub fn mat4<S: Scalar>(
    m00: S,
    m01: S,
    m02: S,
    m03: S,
    m10: S,
    m11: S,
    m12: S,
    m13: S,
    m20: S,
    m21: S,
    m22: S,
    m23: S,
    m30: S,
    m31: S,
    m32: S,
    m33: S,
) -> (r: Matrix4x4<S>)
    ensures
        r == (Matrix4x4 {
            c0: Vector4 { x: m00, y: m01, z: m02, w: m03 },
            c1: Vector4 { x: m10, y: m11, z: m12, w: m13 },
            c2: Vector4 { x: m20, y: m21, z: m22, w: m23 },
            c3: Vector4 { x: m30, y: m31, z: m32, w: m33 },
        }),
{
    Matrix4x4::new(m00, m01, m02, m03, m10, m11, m12, m13, m20, m21, m22, m23, m30, m31, m32, m33)
}

/// The orthographic projection of the box `spec`.
pub fn ortho<S: ScalarSigned>(spec: OrthographicSpec<S>) -> (r: Matrix4x4<S>)
    requires
        spec.can_to_matrix(),
    ensures
        r == spec.matrix_spec(),
{
    spec.to_matrix()
}

/// The perspective projection of the frustum `spec`.
pub fn frustum<S: ScalarSigned>(spec: PerspectiveSpec<S>) -> (r: Matrix4x4<S>)
    requires
        spec.can_to_matrix(),
    ensures
        r == spec.matrix_spec(),
{
    spec.to_matrix()
}

/// The perspective projection with the vertical field of view `fovy`, the
/// aspect ratio `aspect` and the planes at `near` and `far`.
pub fn perspective<S: ScalarFloat>(
    fovy: Radians<S>,
    aspect: S,
    near: S,
    far: S,
) -> (r: Matrix4x4<S>)
    requires
        Matrix4x4::<S>::can_from_perspective_fov(fovy, aspect, near, far),
    ensures
        r == Matrix4x4::<S>::perspective_fov_spec(fovy, aspect, near, far),
{
    let spec = PerspectiveFovSpec::new(fovy, aspect, near, far);
    spec.to_matrix()
}

/// The dot product of two vectors.
pub fn dot<W, V: DotProduct<W>>(v1: V, v2: W) -> (r: V::Output)
    requires
        v1.can_dot(v2),
    ensures
        r == v1.dot_spec(v2),
{
    v1.dot(v2)
}

/// The cross product of two vectors of space.
pub fn cross<S: Scalar>(v1: &Vector3<S>, v2: &Vector3<S>) -> (r: Vector3<S>)
    requires
        v1.can_cross(*v2),
    ensures
        r == v1.cross_spec(*v2),
{
    v1.cross(v2)
}

/// The cross product of two vectors of the plane, each taken as a vector
/// of space with the z-component zero.
pub fn cross2d<S: Scalar>(v1: &Vector2<S>, v2: &Vector2<S>) -> (r: Vector3<S>)
    requires
        v1.extend_spec(S::zero_spec()).can_cross(v2.extend_spec(S::zero_spec())),
    ensures
        r == v1.extend_spec(S::zero_spec()).cross_spec(v2.extend_spec(S::zero_spec())),
{
    let v1_3d = v1.extend(S::zero());
    let v2_3d = v2.extend(S::zero());
    v1_3d.cross(&v2_3d)
}

} // verus!
