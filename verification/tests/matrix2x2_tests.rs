#![allow(dead_code, unused_imports)]
use approx::{AbsDiffEq, RelativeEq};
use cglinalg::angle::Radians;
use cglinalg::matrix2x2::Matrix2x2;
use cglinalg::matrix3x3::Matrix3x3;
use cglinalg::matrix4x4::Matrix4x4;
use cglinalg::point::{Point2, Point3};
use cglinalg::scalar::{Scalar, ScalarFloat, ScalarSigned};
use cglinalg::unit::Unit;
use cglinalg::vector::{Vector1, Vector2, Vector3, Vector4};

/// A number of the type `f32` as a scalar of the library.
#[derive(Clone, Copy, Debug, PartialEq, PartialOrd, Default)]
struct F32(f32);

impl Scalar for F32 {
    fn zero_spec() -> Self {
        F32(0.0)
    }

    fn one_spec() -> Self {
        F32(1.0)
    }

    fn can_add(self, _rhs: Self) -> bool {
        true
    }

    fn plus(self, rhs: Self) -> Self {
        F32(self.0 + rhs.0)
    }

    fn can_sub(self, _rhs: Self) -> bool {
        true
    }

    fn minus(self, rhs: Self) -> Self {
        F32(self.0 - rhs.0)
    }

    fn can_mul(self, _rhs: Self) -> bool {
        true
    }

    fn times(self, rhs: Self) -> Self {
        F32(self.0 * rhs.0)
    }

    fn can_div(self, _rhs: Self) -> bool {
        true
    }

    fn over(self, rhs: Self) -> Self {
        F32(self.0 / rhs.0)
    }

    fn can_rem(self, _rhs: Self) -> bool {
        true
    }

    fn modulo(self, rhs: Self) -> Self {
        F32(self.0 % rhs.0)
    }

    fn same(self, rhs: Self) -> bool {
        self.0 == rhs.0
    }

    fn less(self, rhs: Self) -> bool {
        self.0 < rhs.0
    }

    fn zero() -> Self {
        F32(0.0)
    }

    fn one() -> Self {
        F32(1.0)
    }

    fn add(self, rhs: Self) -> Self {
        F32(self.0 + rhs.0)
    }

    fn sub(self, rhs: Self) -> Self {
        F32(self.0 - rhs.0)
    }

    fn mul(self, rhs: Self) -> Self {
        F32(self.0 * rhs.0)
    }

    fn div(self, rhs: Self) -> Self {
        F32(self.0 / rhs.0)
    }

    fn rem(self, rhs: Self) -> Self {
        F32(self.0 % rhs.0)
    }

    fn equals(self, rhs: Self) -> bool {
        self.0 == rhs.0
    }

    fn less_than(self, rhs: Self) -> bool {
        self.0 < rhs.0
    }
}

impl ScalarSigned for F32 {
    fn can_neg(self) -> bool {
        true
    }

    fn negated(self) -> Self {
        F32(-self.0)
    }

    fn neg(self) -> Self {
        F32(-self.0)
    }
}

impl ScalarFloat for F32 {
    fn root(self) -> Self {
        F32(self.0.sqrt())
    }

    fn sine(self) -> Self {
        F32(self.0.sin())
    }

    fn cosine(self) -> Self {
        F32(self.0.cos())
    }

    fn tangent(self) -> Self {
        F32(self.0.tan())
    }

    fn sqrt(self) -> Self {
        F32(self.0.sqrt())
    }

    fn sin(self) -> Self {
        F32(self.0.sin())
    }

    fn cos(self) -> Self {
        F32(self.0.cos())
    }

    fn tan(self) -> Self {
        F32(self.0.tan())
    }
}

impl std::ops::Add for F32 {
    type Output = F32;

    fn add(self, rhs: F32) -> F32 {
        F32(self.0 + rhs.0)
    }
}

impl std::ops::Sub for F32 {
    type Output = F32;

    fn sub(self, rhs: F32) -> F32 {
        F32(self.0 - rhs.0)
    }
}

impl std::ops::Mul for F32 {
    type Output = F32;

    fn mul(self, rhs: F32) -> F32 {
        F32(self.0 * rhs.0)
    }
}

impl std::ops::Div for F32 {
    type Output = F32;

    fn div(self, rhs: F32) -> F32 {
        F32(self.0 / rhs.0)
    }
}

impl std::ops::Neg for F32 {
    type Output = F32;

    fn neg(self) -> F32 {
        F32(-self.0)
    }
}

/// A number of the type `f64` as a scalar of the library.
#[derive(Clone, Copy, Debug, PartialEq, PartialOrd, Default)]
struct F64(f64);

impl Scalar for F64 {
    fn zero_spec() -> Self {
        F64(0.0)
    }

    fn one_spec() -> Self {
        F64(1.0)
    }

    fn can_add(self, _rhs: Self) -> bool {
        true
    }

    fn plus(self, rhs: Self) -> Self {
        F64(self.0 + rhs.0)
    }

    fn can_sub(self, _rhs: Self) -> bool {
        true
    }

    fn minus(self, rhs: Self) -> Self {
        F64(self.0 - rhs.0)
    }

    fn can_mul(self, _rhs: Self) -> bool {
        true
    }

    fn times(self, rhs: Self) -> Self {
        F64(self.0 * rhs.0)
    }

    fn can_div(self, _rhs: Self) -> bool {
        true
    }

    fn over(self, rhs: Self) -> Self {
        F64(self.0 / rhs.0)
    }

    fn can_rem(self, _rhs: Self) -> bool {
        true
    }

    fn modulo(self, rhs: Self) -> Self {
        F64(self.0 % rhs.0)
    }

    fn same(self, rhs: Self) -> bool {
        self.0 == rhs.0
    }

    fn less(self, rhs: Self) -> bool {
        self.0 < rhs.0
    }

    fn zero() -> Self {
        F64(0.0)
    }

    fn one() -> Self {
        F64(1.0)
    }

    fn add(self, rhs: Self) -> Self {
        F64(self.0 + rhs.0)
    }

    fn sub(self, rhs: Self) -> Self {
        F64(self.0 - rhs.0)
    }

    fn mul(self, rhs: Self) -> Self {
        F64(self.0 * rhs.0)
    }

    fn div(self, rhs: Self) -> Self {
        F64(self.0 / rhs.0)
    }

    fn rem(self, rhs: Self) -> Self {
        F64(self.0 % rhs.0)
    }

    fn equals(self, rhs: Self) -> bool {
        self.0 == rhs.0
    }

    fn less_than(self, rhs: Self) -> bool {
        self.0 < rhs.0
    }
}

impl ScalarSigned for F64 {
    fn can_neg(self) -> bool {
        true
    }

    fn negated(self) -> Self {
        F64(-self.0)
    }

    fn neg(self) -> Self {
        F64(-self.0)
    }
}

impl ScalarFloat for F64 {
    fn root(self) -> Self {
        F64(self.0.sqrt())
    }

    fn sine(self) -> Self {
        F64(self.0.sin())
    }

    fn cosine(self) -> Self {
        F64(self.0.cos())
    }

    fn tangent(self) -> Self {
        F64(self.0.tan())
    }

    fn sqrt(self) -> Self {
        F64(self.0.sqrt())
    }

    fn sin(self) -> Self {
        F64(self.0.sin())
    }

    fn cos(self) -> Self {
        F64(self.0.cos())
    }

    fn tan(self) -> Self {
        F64(self.0.tan())
    }
}

impl std::ops::Add for F64 {
    type Output = F64;

    fn add(self, rhs: F64) -> F64 {
        F64(self.0 + rhs.0)
    }
}

impl std::ops::Sub for F64 {
    type Output = F64;

    fn sub(self, rhs: F64) -> F64 {
        F64(self.0 - rhs.0)
    }
}

impl std::ops::Mul for F64 {
    type Output = F64;

    fn mul(self, rhs: F64) -> F64 {
        F64(self.0 * rhs.0)
    }
}

impl std::ops::Div for F64 {
    type Output = F64;

    fn div(self, rhs: F64) -> F64 {
        F64(self.0 / rhs.0)
    }
}

impl std::ops::Neg for F64 {
    type Output = F64;

    fn neg(self) -> F64 {
        F64(-self.0)
    }
}

impl std::ops::Mul<Vector2<F64>> for F64 {
    type Output = Vector2<F64>;

    fn mul(self, other: Vector2<F64>) -> Vector2<F64> {
        other.scale_left(self)
    }
}

impl std::ops::Mul<Vector3<F64>> for F64 {
    type Output = Vector3<F64>;

    fn mul(self, other: Vector3<F64>) -> Vector3<F64> {
        other.scale_left(self)
    }
}

impl std::ops::Mul<Vector4<F64>> for F64 {
    type Output = Vector4<F64>;

    fn mul(self, other: Vector4<F64>) -> Vector4<F64> {
        other.scale_left(self)
    }
}

impl std::ops::Mul<Matrix2x2<F64>> for F64 {
    type Output = Matrix2x2<F64>;

    fn mul(self, other: Matrix2x2<F64>) -> Matrix2x2<F64> {
        other.scale_left(self)
    }
}

impl std::ops::Mul<Matrix3x3<F64>> for F64 {
    type Output = Matrix3x3<F64>;

    fn mul(self, other: Matrix3x3<F64>) -> Matrix3x3<F64> {
        other.scale_left(self)
    }
}

impl std::ops::Mul<Matrix4x4<F64>> for F64 {
    type Output = Matrix4x4<F64>;

    fn mul(self, other: Matrix4x4<F64>) -> Matrix4x4<F64> {
        other.scale_left(self)
    }
}

/// Equality up to a tolerance, component by component: the absolute
/// difference is at most `epsilon`, or the relative difference is at most
/// the machine epsilon.
trait Approx {
    fn approx_eq(&self, other: &Self, epsilon: f64) -> bool;
}

impl Approx for F64 {
    fn approx_eq(&self, other: &Self, epsilon: f64) -> bool {
        f64::relative_eq(&self.0, &other.0, epsilon, f64::default_max_relative())
    }
}

impl Approx for F32 {
    fn approx_eq(&self, other: &Self, epsilon: f64) -> bool {
        f32::relative_eq(&self.0, &other.0, epsilon as f32, f32::default_max_relative())
    }
}

impl<S: Approx> Approx for Vector1<S> {
    fn approx_eq(&self, other: &Self, epsilon: f64) -> bool {
        self.x.approx_eq(&other.x, epsilon)
    }
}

impl<S: Approx> Approx for Vector2<S> {
    fn approx_eq(&self, other: &Self, epsilon: f64) -> bool {
        self.x.approx_eq(&other.x, epsilon) && self.y.approx_eq(&other.y, epsilon)
    }
}

impl<S: Approx> Approx for Vector3<S> {
    fn approx_eq(&self, other: &Self, epsilon: f64) -> bool {
        self.x.approx_eq(&other.x, epsilon) && self.y.approx_eq(&other.y, epsilon) && self.z.approx_eq(&other.z, epsilon)
    }
}

impl<S: Approx> Approx for Vector4<S> {
    fn approx_eq(&self, other: &Self, epsilon: f64) -> bool {
        self.x.approx_eq(&other.x, epsilon) && self.y.approx_eq(&other.y, epsilon) && self.z.approx_eq(&other.z, epsilon) && self.w.approx_eq(&other.w, epsilon)
    }
}

impl<S: Approx> Approx for Matrix2x2<S> {
    fn approx_eq(&self, other: &Self, epsilon: f64) -> bool {
        self.c0.approx_eq(&other.c0, epsilon) && self.c1.approx_eq(&other.c1, epsilon)
    }
}

impl<S: Approx> Approx for Matrix3x3<S> {
    fn approx_eq(&self, other: &Self, epsilon: f64) -> bool {
        self.c0.approx_eq(&other.c0, epsilon) && self.c1.approx_eq(&other.c1, epsilon) && self.c2.approx_eq(&other.c2, epsilon)
    }
}

impl<S: Approx> Approx for Matrix4x4<S> {
    fn approx_eq(&self, other: &Self, epsilon: f64) -> bool {
        self.c0.approx_eq(&other.c0, epsilon) && self.c1.approx_eq(&other.c1, epsilon) && self.c2.approx_eq(&other.c2, epsilon) && self.c3.approx_eq(&other.c3, epsilon)
    }
}

fn fsqrt(x: F64) -> F64 {
    F64(x.0.sqrt())
}

fn fatan2(y: F64, x: F64) -> F64 {
    F64(f64::atan2(y.0, x.0))
}

fn degrees(x: F32) -> Radians<F32> {
    Radians(F32(x.0.to_radians()))
}

#[test]
fn test_matrix_components1() {
    let matrix = Matrix2x2::new(
        1_i32, 2_i32,
        3_i32, 4_i32
    );

    assert_eq!(matrix[0][0], 1_i32);
    assert_eq!(matrix[0][1], 2_i32);
    assert_eq!(matrix[1][0], 3_i32);
    assert_eq!(matrix[1][1], 4_i32);
}

#[test]
fn test_matrix_components2() {
    let matrix = Matrix2x2::new(
        1_i32, 2_i32,
        3_i32, 4_i32
    );

    assert_eq!(matrix.c0.x, matrix[0][0]);
    assert_eq!(matrix.c0.y, matrix[0][1]);
    assert_eq!(matrix.c1.x, matrix[1][0]);
    assert_eq!(matrix.c1.y, matrix[1][1]);
}

#[test]
#[should_panic]
fn test_matrix_components_out_of_bounds1() {
    let matrix = Matrix2x2::new(
        1_i32, 2_i32,
        3_i32, 4_i32
    );

    assert_eq!(matrix[2][0], matrix[2][0]);
}

#[test]
#[should_panic]
fn test_matrix_components_out_of_bounds2() {
    let matrix = Matrix2x2::new(
        1_i32, 2_i32,
        3_i32, 4_i32
    );

    assert_eq!(matrix[0][2], matrix[0][2]);
}

#[test]
#[should_panic]
fn test_matrix_components_out_of_bounds3() {
    let matrix = Matrix2x2::new(
        1_i32, 2_i32,
        3_i32, 4_i32
    );

    assert_eq!(matrix[2][2], matrix[2][2]);
}

#[test]
#[should_panic]
fn test_matrix_components_out_of_bounds4() {
    let matrix = Matrix2x2::new(
        1_i32, 2_i32,
        3_i32, 4_i32
    );

    assert_eq!(matrix[0][usize::MAX], matrix[0][usize::MAX]);
}

#[test]
#[should_panic]
fn test_matrix_components_out_of_bounds5() {
    let matrix = Matrix2x2::new(
        1_i32, 2_i32,
        3_i32, 4_i32
    );

    assert_eq!(matrix[usize::MAX][0], matrix[usize::MAX][0]);
}

#[test]
#[should_panic]
fn test_matrix_components_out_of_bounds6() {
    let matrix = Matrix2x2::new(
        1_i32, 2_i32,
        3_i32, 4_i32
    );

    assert_eq!(matrix[usize::MAX][usize::MAX], matrix[usize::MAX][usize::MAX]);
}

#[test]
fn test_identity_matrix_times_identity_matrix_equals_identity_matrix() {
    let identity_matrix: Matrix2x2<F32> = Matrix2x2::identity();

    assert_eq!(identity_matrix * identity_matrix, identity_matrix);
}

#[test]
fn test_zero_matrix_times_zero_matrix_equals_zero_matrix() {
    let zero_matrix: Matrix2x2<F32> = Matrix2x2::zero();

    assert_eq!(zero_matrix * zero_matrix, zero_matrix);
}

#[test]
fn test_matrix_times_identity_equals_matrix1() {
    let a_matrix = Matrix2x2::new(
        F32(80_f32),      F32(23.43_f32),
        F32(426.1_f32),   F32(23.5724_f32)
    );
    let b_matrix = Matrix2x2::new(
        F32(36.84_f32),   F32(427.46894_f32),
        F32(7.04217_f32), F32(61.891390_f32)
    );
    // let expected = Matrix2x2::new(
    //     F32(185091.72_f32), F32(10939.63_f32),
    //     F32(26935.295_f32), F32(1623.9266_f32)
    // );
    let a_matrix_times_identity = a_matrix * Matrix2x2::identity();
    let b_matrix_times_identity = b_matrix * Matrix2x2::identity();

    assert_eq!(a_matrix_times_identity, a_matrix);
    assert_eq!(b_matrix_times_identity, b_matrix);
}

#[test]
fn test_matrix_times_zero_equals_zero1() {
    let a_matrix = Matrix2x2::new(
        F32(80_f32),      F32(23.43_f32),
        F32(426.1_f32),   F32(23.5724_f32)
    );
    let b_matrix = Matrix2x2::new(
        F32(36.84_f32),   F32(427.46894_f32),
        F32(7.04217_f32), F32(61.891390_f32)
    );
    // let expected = Matrix2x2::new(
    //     F32(185091.72_f32), F32(10939.63_f32),
    //     F32(26935.295_f32), F32(1623.9266_f32)
    // );
    let a_matrix_times_zero_matrix = a_matrix * Matrix2x2::zero();
    let b_matrix_times_zero_matrix = b_matrix * Matrix2x2::zero();

    assert_eq!(a_matrix_times_zero_matrix, Matrix2x2::zero());
    assert_eq!(b_matrix_times_zero_matrix, Matrix2x2::zero());
}

#[test]
fn test_zero_times_matrix_equals_zero1() {
    let a_matrix = Matrix2x2::new(
        F32(80_f32),      F32(23.43_f32),
        F32(426.1_f32),   F32(23.5724_f32)
    );
    let b_matrix = Matrix2x2::new(
        F32(36.84_f32),   F32(427.46894_f32),
        F32(7.04217_f32), F32(61.891390_f32)
    );
    // let expected = Matrix2x2::new(
    //     F32(185091.72_f32), F32(10939.63_f32),
    //     F32(26935.295_f32), F32(1623.9266_f32)
    // );
    let zero_times_a_matrix = Matrix2x2::zero() * a_matrix;
    let zero_times_b_matrix = Matrix2x2::zero() * b_matrix;

    assert_eq!(zero_times_a_matrix, Matrix2x2::zero());
    assert_eq!(zero_times_b_matrix, Matrix2x2::zero());
}

#[test]
fn test_matrix_times_identity_equals_identity_times_matrix1() {
    let a_matrix = Matrix2x2::new(
        F32(80_f32),      F32(23.43_f32),
        F32(426.1_f32),   F32(23.5724_f32)
    );
    let b_matrix = Matrix2x2::new(
        F32(36.84_f32),   F32(427.46894_f32),
        F32(7.04217_f32), F32(61.891390_f32)
    );
    // let expected = Matrix2x2::new(
    //     F32(185091.72_f32), F32(10939.63_f32),
    //     F32(26935.295_f32), F32(1623.9266_f32)
    // );
    let a_matrix_times_identity = a_matrix * Matrix2x2::identity();
    let identity_times_a_matrix = Matrix2x2::identity() * a_matrix;
    let b_matrix_times_identity = b_matrix * Matrix2x2::identity();
    let identity_times_b_matrix = Matrix2x2::identity() * b_matrix;

    assert_eq!(a_matrix_times_identity, identity_times_a_matrix);
    assert_eq!(b_matrix_times_identity, identity_times_b_matrix);
}

#[test]
fn test_matrix_transpose_transpose_equals_matrix1() {
    let a_matrix = Matrix2x2::new(
        F32(80_f32),      F32(23.43_f32),
        F32(426.1_f32),   F32(23.5724_f32)
    );
    let b_matrix = Matrix2x2::new(
        F32(36.84_f32),   F32(427.46894_f32),
        F32(7.04217_f32), F32(61.891390_f32)
    );
    // let expected = Matrix2x2::new(
    //     F32(185091.72_f32), F32(10939.63_f32),
    //     F32(26935.295_f32), F32(1623.9266_f32)
    // );
    let a_matrix_transpose_transpose = a_matrix.transpose().transpose();
    let b_matrix_transpose_transpose = b_matrix.transpose().transpose();

    assert_eq!(a_matrix_transpose_transpose, a_matrix);
    assert_eq!(b_matrix_transpose_transpose, b_matrix);
}

#[test]
fn test_matrix_multiplication1() {
    let a_matrix = Matrix2x2::new(
        F32(80_f32),      F32(23.43_f32),
        F32(426.1_f32),   F32(23.5724_f32)
    );
    let b_matrix = Matrix2x2::new(
        F32(36.84_f32),   F32(427.46894_f32),
        F32(7.04217_f32), F32(61.891390_f32)
    );
    let expected = Matrix2x2::new(
        F32(185091.72_f32), F32(10939.63_f32),
        F32(26935.295_f32), F32(1623.9266_f32)
    );
    let result = a_matrix * b_matrix;

    assert!((result).approx_eq(&(expected), 1e-10));
}

#[test]
fn test_matrix_times_identity_equals_matrix2() {
    let a_matrix = Matrix2x2::new(
        F32(68.32_f32), F32(0_f32),
        F32(0_f32),     F32(37.397_f32)
    );
    let b_matrix = Matrix2x2::new(
        F32(57.72_f32), F32(0_f32),
        F32(0_f32),     F32(9.5433127_f32)
    );
    // let expected = Matrix2x2::new(
    //     F32(3943.4304_f32), F32(0_f32),
    //     F32(0_f32),         F32(356.89127_f32)
    // );
    let a_matrix_times_identity = a_matrix * Matrix2x2::identity();
    let b_matrix_times_identity = b_matrix * Matrix2x2::identity();

    assert_eq!(a_matrix_times_identity, a_matrix);
    assert_eq!(b_matrix_times_identity, b_matrix);
}

#[test]
fn test_matrix_times_zero_equals_zero2() {
    let a_matrix = Matrix2x2::new(
        F32(68.32_f32), F32(0_f32),
        F32(0_f32),     F32(37.397_f32)
    );
    let b_matrix = Matrix2x2::new(
        F32(57.72_f32), F32(0_f32),
        F32(0_f32),     F32(9.5433127_f32)
    );
    // let expected = Matrix2x2::new(
    //     F32(3943.4304_f32), F32(0_f32),
    //     F32(0_f32),         F32(356.89127_f32)
    // );
    let a_matrix_times_zero_matrix = a_matrix * Matrix2x2::zero();
    let b_matrix_times_zero_matrix = b_matrix * Matrix2x2::zero();

    assert_eq!(a_matrix_times_zero_matrix, Matrix2x2::zero());
    assert_eq!(b_matrix_times_zero_matrix, Matrix2x2::zero());
}

#[test]
fn test_zero_times_matrix_equals_zero2() {
    let a_matrix = Matrix2x2::new(
        F32(68.32_f32), F32(0_f32),
        F32(0_f32),     F32(37.397_f32)
    );
    let b_matrix = Matrix2x2::new(
        F32(57.72_f32), F32(0_f32),
        F32(0_f32),     F32(9.5433127_f32)
    );
    // let expected = Matrix2x2::new(
    //     F32(3943.4304_f32), F32(0_f32),
    //     F32(0_f32),         F32(356.89127_f32)
    // );
    let zero_times_a_matrix = Matrix2x2::zero() * a_matrix;
    let zero_times_b_matrix = Matrix2x2::zero() * b_matrix;

    assert_eq!(zero_times_a_matrix, Matrix2x2::zero());
    assert_eq!(zero_times_b_matrix, Matrix2x2::zero());
}

#[test]
fn test_matrix_times_identity_equals_identity_times_matrix2() {
    let a_matrix = Matrix2x2::new(
        F32(68.32_f32), F32(0_f32),
        F32(0_f32),     F32(37.397_f32)
    );
    let b_matrix = Matrix2x2::new(
        F32(57.72_f32), F32(0_f32),
        F32(0_f32),     F32(9.5433127_f32)
    );
    // let expected = Matrix2x2::new(
    //     F32(3943.4304_f32), F32(0_f32),
    //     F32(0_f32),         F32(356.89127_f32)
    // );
    let a_matrix_times_identity = a_matrix * Matrix2x2::identity();
    let identity_times_a_matrix = Matrix2x2::identity() * a_matrix;
    let b_matrix_times_identity = b_matrix * Matrix2x2::identity();
    let identity_times_b_matrix = Matrix2x2::identity() * b_matrix;

    assert_eq!(a_matrix_times_identity, identity_times_a_matrix);
    assert_eq!(b_matrix_times_identity, identity_times_b_matrix);
}

#[test]
fn test_matrix_transpose_transpose_equals_matrix2() {
    let a_matrix = Matrix2x2::new(
        F32(68.32_f32), F32(0_f32),
        F32(0_f32),     F32(37.397_f32)
    );
    let b_matrix = Matrix2x2::new(
        F32(57.72_f32), F32(0_f32),
        F32(0_f32),     F32(9.5433127_f32)
    );
    // let expected = Matrix2x2::new(
    //     F32(3943.4304_f32), F32(0_f32),
    //     F32(0_f32),         F32(356.89127_f32)
    // );
    let a_matrix_transpose_transpose = a_matrix.transpose().transpose();
    let b_matrix_transpose_transpose = b_matrix.transpose().transpose();

    assert_eq!(a_matrix_transpose_transpose, a_matrix);
    assert_eq!(b_matrix_transpose_transpose, b_matrix);
}

#[test]
fn test_matrix_multiplication2() {
    let a_matrix = Matrix2x2::new(
        F32(68.32_f32), F32(0_f32),
        F32(0_f32),     F32(37.397_f32)
    );
    let b_matrix = Matrix2x2::new(
        F32(57.72_f32), F32(0_f32),
        F32(0_f32),     F32(9.5433127_f32)
    );
    let expected = Matrix2x2::new(
        F32(3943.4304_f32), F32(0_f32),
        F32(0_f32),         F32(356.89127_f32)
    );
    let result = a_matrix * b_matrix;

    assert!((result).approx_eq(&(expected), 1e-10));
}

#[test]
fn test_identity_transpose_equals_identity() {
    let identity = Matrix2x2::<F32>::identity();
    let identity_transpose = identity.transpose();

    assert_eq!(identity, identity_transpose);
}

#[test]
fn test_construction_from_cols() {
    let c0 = Vector2::new(1_i32, 2_i32);
    let c1 = Vector2::new(3_i32, 4_i32);
    let columns = [c0, c1];
    let expected = Matrix2x2::new(
        1_i32, 2_i32,
        3_i32, 4_i32
    );
    let result = Matrix2x2::from_columns(&columns);

    assert_eq!(result, expected);
}

#[test]
fn test_construction_from_rows() {
    let r0 = Vector2::new(1_i32, 2_i32);
    let r1 = Vector2::new(3_i32, 4_i32);
    let rows = [r0, r1];
    let expected = Matrix2x2::new(
        1_i32, 3_i32,
        2_i32, 4_i32
    );
    let result = Matrix2x2::from_rows(&rows);

    assert_eq!(result, expected);
}

#[test]
fn test_constant_times_identity_is_constant_along_diagonal() {
    let c = F64(802.3435169_f64);
    let identity = Matrix2x2::identity();
    let expected = Matrix2x2::new(
        c,     F64(0_f64),
        F64(0_f64), c
    );

    assert_eq!(identity * c, expected);
}

#[test]
fn test_identity_divide_constant_is_constant_inverse_along_diagonal() {
    let c = F64(802.3435169_f64);
    let identity = Matrix2x2::identity();
    let expected = Matrix2x2::new(
        F64(1_f64) / c, F64(0_f64),
        F64(0_f64),     F64(1_f64) / c
    );

    assert_eq!(identity / c, expected);
}

#[test]
fn test_matrix_plus_zero_equals_matrix() {
    let zero_matrix = Matrix2x2::zero();
    let matrix = Matrix2x2::new(
        F64(36.84_f64), F64(427.46_f64),
        F64(7.47_f64),  F64(61.89_f64)
    );

    assert_eq!(matrix + zero_matrix, matrix);
}

#[test]
fn test_zero_plus_matrix_equals_matrix() {
    let zero_matrix = Matrix2x2::zero();
    let matrix = Matrix2x2::new(
        F64(36.84_f64), F64(427.46_f64),
        F64(7.47_f64),  F64(61.89_f64)
    );

    assert_eq!(zero_matrix + matrix, matrix);
}

#[test]
fn test_matrix_with_zero_determinant() {
    let matrix = Matrix2x2::new(
        F64(1_f64), F64(2_f64),
        F64(4_f64), F64(8_f64)
    );

    assert_eq!(matrix.determinant(), F64(0_f64));
}

#[test]
fn test_lower_triangular_matrix_determinant() {
    let matrix = Matrix2x2::new(
        F64(2_f64),  F64(0_f64),
        F64(5_f64),  F64(3_f64)
    );

    assert_eq!(matrix.determinant(), F64(2_f64) * F64(3_f64));
}

#[test]
fn test_upper_triangular_matrix_determinant() {
    let matrix = Matrix2x2::new(
        F64(2_f64),  F64(5_f64),
        F64(0_f64),  F64(3_f64)
    );

    assert_eq!(matrix.determinant(), F64(2_f64) * F64(3_f64));
}

#[test]
fn test_matrix_inverse() {
    let matrix = Matrix2x2::new(
        F64(5_f64), F64(1_f64),
        F64(1_f64), F64(5_f64)
    );
    let expected = (F64(1_f64) / F64(24_f64)) * Matrix2x2::new(
         F64(5_f64), -F64(1_f64),
        -F64(1_f64),  F64(5_f64)
    );
    let result = matrix.inverse().unwrap();

    assert!((result).approx_eq(&(expected), 1e-8));
}

#[test]
fn test_identity_is_invertible() {
    let identity: Matrix2x2<F64> = Matrix2x2::identity();

    assert!(identity.is_invertible());
}

#[test]
fn test_identity_inverse_is_identity() {
    let result: Matrix2x2<F64> = Matrix2x2::identity().inverse().unwrap();
    let expected: Matrix2x2<F64> = Matrix2x2::identity();

    assert_eq!(result, expected);
}

#[test]
fn test_inverse_diagonal_matrix() {
    let matrix = F64(4_f64) * Matrix2x2::identity();
    let expected = (F64(1_f64) / F64(4_f64)) * Matrix2x2::identity();
    let result = matrix.inverse().unwrap();

    assert_eq!(result, expected);
}

#[test]
fn test_matrix_with_nonzero_determinant_is_invertible() {
    let matrix = Matrix2x2::new(
        F32(1_f32), F32(2_f32),
        F32(3_f32), F32(4_f32)
    );

    assert!(matrix.is_invertible());
}

#[test]
fn test_matrix_with_zero_determinant_is_not_invertible() {
    let matrix = Matrix2x2::new(
        F32(1_f32), F32(2_f32),
        F32(4_f32), F32(8_f32)
    );

    assert!(!matrix.is_invertible());
}

#[test]
fn test_noninvertible_matrix_returns_none() {
    let matrix = Matrix2x2::new(
        F32(1_f32), F32(2_f32),
        F32(4_f32), F32(8_f32)
    );

    assert!(matrix.inverse().is_none());
}

#[test]
fn test_matrix_times_inverse_is_identity() {
    let matrix = Matrix2x2::new(
        F64(36.84_f64), F64(427.46_f64),
        F64(7.47_f64),  F64(61.89_f64)
    );
    let matrix_inverse = matrix.inverse().unwrap();
    let identity = Matrix2x2::identity();

    assert!((matrix * matrix_inverse).approx_eq(&(identity), 1e-8));
}

#[test]
fn test_inverse_times_matrix_is_identity() {
    let matrix = Matrix2x2::new(
        F64(36.84_f64), F64(427.46_f64),
        F64(7.47_f64),  F64(61.89_f64)
    );
    let matrix_inverse = matrix.inverse().unwrap();
    let identity = Matrix2x2::identity();

    assert!((matrix_inverse * matrix).approx_eq(&(identity), 1e-8));        
}

#[test]
fn test_constant_times_matrix_inverse_equals_constant_inverse_times_matrix_inverse() {
    let matrix = Matrix2x2::new(
        F64(80_f64),    F64(426.1_f64),
        F64(23.43_f64), F64(23.5724_f64)
    );
    let constant: F64 = F64(4_f64);
    let constant_times_matrix_inverse = (constant * matrix).inverse().unwrap();
    let constant_inverse_times_matrix_inverse = (F64(1_f64) / constant) * matrix.inverse().unwrap();

    assert_eq!(constant_times_matrix_inverse, constant_inverse_times_matrix_inverse);
}

#[test]
fn test_matrix_transpose_inverse_equals_matrix_inverse_transpose() {
    let matrix = Matrix2x2::new(
        F64(80_f64),    F64(426.1_f64),
        F64(23.43_f64), F64(23.5724_f64)
    );
    let matrix_transpose_inverse = matrix.transpose().inverse().unwrap();
    let matrix_inverse_transpose = matrix.inverse().unwrap().transpose();

    assert_eq!(matrix_transpose_inverse, matrix_inverse_transpose);
}

#[test]
fn test_matrix_inverse_inverse_equals_matrix() {
    let matrix = Matrix2x2::new(
        F64(80_f64),    F64(426.1_f64),
        F64(23.43_f64), F64(23.5724_f64)
    );
    let result = matrix.inverse().unwrap().inverse().unwrap();
    let expected = matrix;

    assert!((result).approx_eq(&(expected), 1e-8));
}

#[test]
fn test_matrix_elements_should_be_column_major_order() {
    let matrix = Matrix2x2::new(
        1_i32, 2_i32,
        3_i32, 4_i32
    );

    assert_eq!(matrix.c0.x, matrix[0][0]);
    assert_eq!(matrix.c0.y, matrix[0][1]);
    assert_eq!(matrix.c1.x, matrix[1][0]);
    assert_eq!(matrix.c1.y, matrix[1][1]);
}

#[test]
fn test_matrix_swap_columns() {
    let mut result = Matrix2x2::new(
        1_i32, 2_i32,
        3_i32, 4_i32
    );
    result.swap_columns(0, 1);
    let expected = Matrix2x2::new(
        3_i32, 4_i32,
        1_i32, 2_i32
    );

    assert_eq!(result, expected);
}

#[test]
fn test_matrix_swap_rows() {
    let mut result = Matrix2x2::new(
        1_i32, 2_i32,
        3_i32, 4_i32
    );
    result.swap_rows(0, 1);
    let expected = Matrix2x2::new(
        2_i32, 1_i32,
        4_i32, 3_i32
    );

    assert_eq!(result, expected);
}

#[test]
fn test_matrix_swap_elements() {
    let mut result = Matrix2x2::new(
        1_i32, 2_i32,
        3_i32, 4_i32
    );
    result.swap((0, 0), (1, 1));
    let expected = Matrix2x2::new(
        4_i32, 2_i32,
        3_i32, 1_i32
    );

    assert_eq!(result, expected);
}

#[test]
fn test_from_scale() {
    let matrix = Matrix2x2::from_scale(3_i32);
    let unit_x = Vector2::unit_x();
    let unit_y = Vector2::unit_y();
    let expected = unit_x * 3_i32 + unit_y * 3_i32;
    let result = matrix * Vector2::new(1_i32, 1_i32);

    assert_eq!(result, expected);
}

#[test]
fn test_from_nonuniform_scale() {
    let matrix = Matrix2x2::from_nonuniform_scale(&Vector2::new(3_i32, 7_i32));
    let unit_x = Vector2::unit_x();
    let unit_y = Vector2::unit_y();
    let expected = unit_x * 3_i32 + unit_y * 7_i32;
    let result = matrix * Vector2::new(1_i32, 1_i32);

    assert_eq!(result, expected);
}

#[test]
fn test_from_shear_x() {
    let shear_factor = 5_i32;
    let matrix = Matrix2x2::from_shear_x(shear_factor);
    let vectors = [
        Vector2::new( 1_i32,  1_i32),
        Vector2::new(-1_i32,  1_i32),
        Vector2::new(-1_i32, -1_i32),
        Vector2::new( 1_i32, -1_i32),
    ];
    let expected = [
        Vector2::new( 1_i32 + shear_factor,  1_i32),
        Vector2::new(-1_i32 + shear_factor,  1_i32),
        Vector2::new(-1_i32 - shear_factor, -1_i32),
        Vector2::new( 1_i32 - shear_factor, -1_i32),
    ];
    let result = [
        matrix * vectors[0],
        matrix * vectors[1],
        matrix * vectors[2],
        matrix * vectors[3],
    ];

    assert_eq!(result, expected);
}

#[test]
fn test_from_shear_y() {
    let shear_factor = 5_i32;
    let matrix = Matrix2x2::from_shear_y(shear_factor);
    let vectors = [
        Vector2::new( 1_i32,  1_i32),
        Vector2::new(-1_i32,  1_i32),
        Vector2::new(-1_i32, -1_i32),
        Vector2::new( 1_i32, -1_i32),
    ];
    let expected = [
        Vector2::new( 1_i32,  1_i32 + shear_factor),
        Vector2::new(-1_i32,  1_i32 - shear_factor),
        Vector2::new(-1_i32, -1_i32 - shear_factor),
        Vector2::new( 1_i32, -1_i32 + shear_factor),
    ];
    let result = [
        matrix * vectors[0],
        matrix * vectors[1],
        matrix * vectors[2],
        matrix * vectors[3],
    ];

    assert_eq!(result, expected);
}

#[test]
fn test_from_shear1() {
    let shear_factor = F64(5_f64);
    let shear_direction = Unit::from_value(Vector2::new(F64(2_f64), F64(1_f64)));
    let normal = Unit::from_value(Vector2::new(-F64(1_f64), F64(2_f64)));
    let matrix = Matrix2x2::from_shear(shear_factor, &shear_direction, &normal);

    let vector_0 = Vector2::new( F64(1_f64) / fsqrt(F64(5_f64)),  F64(3_f64) / fsqrt(F64(5_f64)));
    let vector_1 = Vector2::new(-F64(3_f64) / fsqrt(F64(5_f64)),  F64(1_f64) / fsqrt(F64(5_f64)));
    let vector_2 = Vector2::new(-F64(1_f64) / fsqrt(F64(5_f64)), -F64(3_f64) / fsqrt(F64(5_f64)));
    let vector_3 = Vector2::new( F64(3_f64) / fsqrt(F64(5_f64)), -F64(1_f64) / fsqrt(F64(5_f64)));

    let rotation_angle = Radians(fatan2(F64(1_f64), F64(2_f64)));

    assert!((rotation_angle.cos()).approx_eq(&(F64(2_f64) / fsqrt(F64(5_f64))), 1e-10));
    assert!((rotation_angle.sin()).approx_eq(&(F64(1_f64) / fsqrt(F64(5_f64))), 1e-10));

    let rotation = Matrix2x2::from_angle(rotation_angle);
    let vector_parallel_to_x_axis_0 = Vector2::new( F64(1_f64),  F64(1_f64));
    let vector_parallel_to_x_axis_1 = Vector2::new(-F64(1_f64),  F64(1_f64));
    let vector_parallel_to_x_axis_2 = Vector2::new(-F64(1_f64), -F64(1_f64));
    let vector_parallel_to_x_axis_3 = Vector2::new( F64(1_f64), -F64(1_f64));
    let rotated_vector_0 = rotation * vector_parallel_to_x_axis_0;
    let rotated_vector_1 = rotation * vector_parallel_to_x_axis_1;
    let rotated_vector_2 = rotation * vector_parallel_to_x_axis_2;
    let rotated_vector_3 = rotation * vector_parallel_to_x_axis_3;

    assert!((rotated_vector_0).approx_eq(&(vector_0), 1e-10));
    assert!((rotated_vector_1).approx_eq(&(vector_1), 1e-10));
    assert!((rotated_vector_2).approx_eq(&(vector_2), 1e-10));
    assert!((rotated_vector_3).approx_eq(&(vector_3), 1e-10));

    let expected_0 = Vector2::new(
        (F64(2_f64) / fsqrt(F64(5_f64))) * (F64(1_f64) + shear_factor) - F64(1_f64) / fsqrt(F64(5_f64)),
        (F64(1_f64) / fsqrt(F64(5_f64))) * (F64(1_f64) + shear_factor) + F64(2_f64) / fsqrt(F64(5_f64)),
    );
    let expected_1 = Vector2::new(
        (F64(2_f64) / fsqrt(F64(5_f64))) * (-F64(1_f64) + shear_factor) - F64(1_f64) / fsqrt(F64(5_f64)),
        (F64(1_f64) / fsqrt(F64(5_f64))) * (-F64(1_f64) + shear_factor) + F64(2_f64) / fsqrt(F64(5_f64)),
    );
    let expected_2 = Vector2::new(
        (F64(2_f64) / fsqrt(F64(5_f64))) * (-F64(1_f64) - shear_factor) + F64(1_f64) / fsqrt(F64(5_f64)),
        (F64(1_f64) / fsqrt(F64(5_f64))) * (-F64(1_f64) - shear_factor) - F64(2_f64) / fsqrt(F64(5_f64)),
    );
    let expected_3 = Vector2::new(
        (F64(2_f64) / fsqrt(F64(5_f64))) * (F64(1_f64) - shear_factor) + F64(1_f64) / fsqrt(F64(5_f64)),
        (F64(1_f64) / fsqrt(F64(5_f64))) * (F64(1_f64) - shear_factor) - F64(2_f64) / fsqrt(F64(5_f64)),
    );
    let result_0 = matrix * vector_0;
    let result_1 = matrix * vector_1;
    let result_2 = matrix * vector_2;
    let result_3 = matrix * vector_3;

    assert!((result_0).approx_eq(&(expected_0), 1e-10));
    assert!((result_1).approx_eq(&(expected_1), 1e-10));
    assert!((result_2).approx_eq(&(expected_2), 1e-10));
    assert!((result_3).approx_eq(&(expected_3), 1e-10));
}

#[test]
fn test_from_shear2() {
    let shear_factor = F64(5_f64);
    let shear_direction = Unit::from_value(Vector2::new(F64(2_f64), F64(1_f64)));
    let normal = Unit::from_value(-Vector2::new(-F64(1_f64), F64(2_f64)));
    let matrix = Matrix2x2::from_shear(shear_factor, &shear_direction, &normal);

    let vector_0 = Vector2::new( F64(1_f64) / fsqrt(F64(5_f64)),  F64(3_f64) / fsqrt(F64(5_f64)));
    let vector_1 = Vector2::new(-F64(3_f64) / fsqrt(F64(5_f64)),  F64(1_f64) / fsqrt(F64(5_f64)));
    let vector_2 = Vector2::new(-F64(1_f64) / fsqrt(F64(5_f64)), -F64(3_f64) / fsqrt(F64(5_f64)));
    let vector_3 = Vector2::new( F64(3_f64) / fsqrt(F64(5_f64)), -F64(1_f64) / fsqrt(F64(5_f64)));

    let rotation_angle = Radians(fatan2(F64(1_f64), F64(2_f64)));

    assert!((rotation_angle.cos()).approx_eq(&(F64(2_f64) / fsqrt(F64(5_f64))), 1e-10));
    assert!((rotation_angle.sin()).approx_eq(&(F64(1_f64) / fsqrt(F64(5_f64))), 1e-10));

    let rotation = Matrix2x2::from_angle(rotation_angle);
    let vector_parallel_to_x_axis_0 = Vector2::new( F64(1_f64),  F64(1_f64));
    let vector_parallel_to_x_axis_1 = Vector2::new(-F64(1_f64),  F64(1_f64));
    let vector_parallel_to_x_axis_2 = Vector2::new(-F64(1_f64), -F64(1_f64));
    let vector_parallel_to_x_axis_3 = Vector2::new( F64(1_f64), -F64(1_f64));
    let rotated_vector_0 = rotation * vector_parallel_to_x_axis_0;
    let rotated_vector_1 = rotation * vector_parallel_to_x_axis_1;
    let rotated_vector_2 = rotation * vector_parallel_to_x_axis_2;
    let rotated_vector_3 = rotation * vector_parallel_to_x_axis_3;

    assert!((rotated_vector_0).approx_eq(&(vector_0), 1e-10));
    assert!((rotated_vector_1).approx_eq(&(vector_1), 1e-10));
    assert!((rotated_vector_2).approx_eq(&(vector_2), 1e-10));
    assert!((rotated_vector_3).approx_eq(&(vector_3), 1e-10));

    let expected_0 = Vector2::new(
        (F64(2_f64) / fsqrt(F64(5_f64))) * (F64(1_f64) - shear_factor) - F64(1_f64) / fsqrt(F64(5_f64)),
        (F64(1_f64) / fsqrt(F64(5_f64))) * (F64(1_f64) - shear_factor) + F64(2_f64) / fsqrt(F64(5_f64)),
    );
    let expected_1 = Vector2::new(
        (F64(2_f64) / fsqrt(F64(5_f64))) * (-F64(1_f64) - shear_factor) - F64(1_f64) / fsqrt(F64(5_f64)),
        (F64(1_f64) / fsqrt(F64(5_f64))) * (-F64(1_f64) - shear_factor) + F64(2_f64) / fsqrt(F64(5_f64)),
    );
    let expected_2 = Vector2::new(
        (F64(2_f64) / fsqrt(F64(5_f64))) * (-F64(1_f64) + shear_factor) + F64(1_f64) / fsqrt(F64(5_f64)),
        (F64(1_f64) / fsqrt(F64(5_f64))) * (-F64(1_f64) + shear_factor) - F64(2_f64) / fsqrt(F64(5_f64)),
    );
    let expected_3 = Vector2::new(
        (F64(2_f64) / fsqrt(F64(5_f64))) * (F64(1_f64) + shear_factor) + F64(1_f64) / fsqrt(F64(5_f64)),
        (F64(1_f64) / fsqrt(F64(5_f64))) * (F64(1_f64) + shear_factor) - F64(2_f64) / fsqrt(F64(5_f64)),
    );
    let result_0 = matrix * vector_0;
    let result_1 = matrix * vector_1;
    let result_2 = matrix * vector_2;
    let result_3 = matrix * vector_3;

    assert!((result_0).approx_eq(&(expected_0), 1e-10));
    assert!((result_1).approx_eq(&(expected_1), 1e-10));
    assert!((result_2).approx_eq(&(expected_2), 1e-10));
    assert!((result_3).approx_eq(&(expected_3), 1e-10));
}

#[test]
fn test_from_shear_from_shear_x() {
    let shear_factor = F64(7_f64);
    let direction = Unit::from_value(Vector2::unit_x());
    let normal = Unit::from_value(Vector2::unit_y());
    let expected = Matrix2x2::from_shear_x(shear_factor);
    let result = Matrix2x2::from_shear(shear_factor, &direction, &normal);

    assert_eq!(result, expected);
}

#[test]
fn test_from_shear_from_shear_y() {
    let shear_factor = F64(7_f64);
    let direction = Unit::from_value(Vector2::unit_y());
    let normal = Unit::from_value(Vector2::unit_x());
    let expected = Matrix2x2::from_shear_y(shear_factor);
    let result = Matrix2x2::from_shear(shear_factor, &direction, &normal);

    assert_eq!(result, expected);
}

#[test]
fn test_from_reflection_x_axis1() {
    // The y-axis is the normal vector to the plane of the x-axis.
    let normal = Unit::from_value(Vector2::unit_y());
    let expected = Matrix2x2::new(
        F64(1_f64),  F64(0_f64),
        F64(0_f64), -F64(1_f64)
    );
    let result = Matrix2x2::from_reflection(&normal);

    assert_eq!(result, expected);
}

#[test]
fn test_from_reflection_x_axis2() {
    // The y-axis is the normal vector to the plane of the x-axis.
    let normal = Unit::from_value(-Vector2::unit_y());
    let expected = Matrix2x2::new(
        F64(1_f64),  F64(0_f64),
        F64(0_f64), -F64(1_f64)
    );
    let result = Matrix2x2::from_reflection(&normal);

    assert_eq!(result, expected);
}

#[test]
fn test_from_reflection_y_axis1() {
    // The y-axis is the normal vector to the plane of the y-axis.
    let normal = Unit::from_value(Vector2::unit_x());
    let expected = Matrix2x2::new(
        -F64(1_f64), F64(0_f64),
         F64(0_f64), F64(1_f64)
    );
    let result = Matrix2x2::from_reflection(&normal);

    assert_eq!(result, expected);
}

#[test]
fn test_from_reflection_y_axis2() {
    // The y-axis is the normal vector to the plane of the y-axis.
    let normal = Unit::from_value(-Vector2::unit_x());
    let expected = Matrix2x2::new(
        -F64(1_f64), F64(0_f64),
         F64(0_f64), F64(1_f64)
    );
    let result = Matrix2x2::from_reflection(&normal);

    assert_eq!(result, expected);
}

#[test]
fn test_from_reflection_from_plane1() {
    let normal = Unit::from_value(
        Vector2::new(fsqrt(F64(2_f64))/ F64(2_f64), -fsqrt(F64(2_f64)) / F64(2_f64))
    );
    let expected = Matrix2x2::new(
        F64(0_f64), F64(1_f64),
        F64(1_f64), F64(0_f64)
    );
    let result = Matrix2x2::from_reflection(&normal);

    assert!((result).approx_eq(&(expected), 1e-8));
}

#[test]
fn test_from_reflection_from_plane2() {
    let normal = Unit::from_value(
        Vector2::new(-fsqrt(F64(2_f64))/ F64(2_f64), fsqrt(F64(2_f64)) / F64(2_f64))
    );
    let expected = Matrix2x2::new(
        F64(0_f64), F64(1_f64),
        F64(1_f64), F64(0_f64)
    );
    let result = Matrix2x2::from_reflection(&normal);

    assert!((result).approx_eq(&(expected), 1e-8));
}

#[test]
fn test_from_angle() {
    let matrix: Matrix2x2<F64> = Matrix2x2::from_angle(Radians(F64(core::f64::consts::FRAC_PI_2)));
    let unit_x = Vector2::unit_x();
    let unit_y = Vector2::unit_y();
    let expected = unit_y;
    let result = matrix * unit_x;

    assert!((result).approx_eq(&(expected), 1e-8));

    let expected = -unit_x;
    let result = matrix * unit_y;

    assert!((result).approx_eq(&(expected), 1e-8));
}

#[test]
fn test_rotation_between() {
    let unit_x: Vector2<F64> = Vector2::unit_x();
    let unit_y: Vector2<F64> = Vector2::unit_y();
    let expected = Matrix2x2::new(
         F64(0_f64), F64(1_f64),
        -F64(1_f64), F64(0_f64),
    );
    let result = Matrix2x2::rotation_between(&unit_x, &unit_y);

    assert!((result).approx_eq(&(expected), 1e-8));
}

#[test]
fn test_rotation_between_axis() {
    let unit_x: Unit<Vector2<F64>> = Unit::from_value(Vector2::unit_x());
    let unit_y: Unit<Vector2<F64>> = Unit::from_value(Vector2::unit_y());
    let expected = Matrix2x2::new(
         F64(0_f64), F64(1_f64),
        -F64(1_f64), F64(0_f64),
    );
    let result = Matrix2x2::rotation_between_axis(&unit_x, &unit_y);

    assert!((result).approx_eq(&(expected), 1e-8));
}
