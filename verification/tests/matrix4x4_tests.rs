#![allow(dead_code, unused_imports)]
use approx::{AbsDiffEq, RelativeEq};
use cglinalg::angle::Radians;
use cglinalg::matrix2x2::Matrix2x2;
use cglinalg::matrix3x3::Matrix3x3;
use cglinalg::matrix4x4::Matrix4x4;
use cglinalg::point::{Point2, Point3};
use cglinalg::scalar::{Scalar, ScalarFloat, ScalarSigned};
use cglinalg::unit::Unit;
use cglinalg::vector::{Vector1, Vector2, Vector3, Vector4};

/// A number of the type `f32` as a scalar of the library.
#[derive(Clone, Copy, Debug, PartialEq, PartialOrd, Default)]
struct F32(f32);

impl Scalar for F32 {
    fn zero_spec() -> Self {
        F32(0.0)
    }

    fn one_spec() -> Self {
        F32(1.0)
    }

    fn can_add(self, _rhs: Self) -> bool {
        true
    }

    fn plus(self, rhs: Self) -> Self {
        F32(self.0 + rhs.0)
    }

    fn can_sub(self, _rhs: Self) -> bool {
        true
    }

    fn minus(self, rhs: Self) -> Self {
        F32(self.0 - rhs.0)
    }

    fn can_mul(self, _rhs: Self) -> bool {
        true
    }

    fn times(self, rhs: Self) -> Self {
        F32(self.0 * rhs.0)
    }

    fn can_div(self, _rhs: Self) -> bool {
        true
    }

    fn over(self, rhs: Self) -> Self {
        F32(self.0 / rhs.0)
    }

    fn can_rem(self, _rhs: Self) -> bool {
        true
    }

    fn modulo(self, rhs: Self) -> Self {
        F32(self.0 % rhs.0)
    }

    fn same(self, rhs: Self) -> bool {
        self.0 == rhs.0
    }

    fn less(self, rhs: Self) -> bool {
        self.0 < rhs.0
    }

    fn zero() -> Self {
        F32(0.0)
    }

    fn one() -> Self {
        F32(1.0)
    }

    fn add(self, rhs: Self) -> Self {
        F32(self.0 + rhs.0)
    }

    fn sub(self, rhs: Self) -> Self {
        F32(self.0 - rhs.0)
    }

    fn mul(self, rhs: Self) -> Self {
        F32(self.0 * rhs.0)
    }

    fn div(self, rhs: Self) -> Self {
        F32(self.0 / rhs.0)
    }

    fn rem(self, rhs: Self) -> Self {
        F32(self.0 % rhs.0)
    }

    fn equals(self, rhs: Self) -> bool {
        self.0 == rhs.0
    }

    fn less_than(self, rhs: Self) -> bool {
        self.0 < rhs.0
    }
}

impl ScalarSigned for F32 {
    fn can_neg(self) -> bool {
        true
    }

    fn negated(self) -> Self {
        F32(-self.0)
    }

    fn neg(self) -> Self {
        F32(-self.0)
    }
}

impl ScalarFloat for F32 {
    fn root(self) -> Self {
        F32(self.0.sqrt())
    }

    fn sine(self) -> Self {
        F32(self.0.sin())
    }

    fn cosine(self) -> Self {
        F32(self.0.cos())
    }

    fn tangent(self) -> Self {
        F32(self.0.tan())
    }

    fn sqrt(self) -> Self {
        F32(self.0.sqrt())
    }

    fn sin(self) -> Self {
        F32(self.0.sin())
    }

    fn cos(self) -> Self {
        F32(self.0.cos())
    }

    fn tan(self) -> Self {
        F32(self.0.tan())
    }
}

impl std::ops::Add for F32 {
    type Output = F32;

    fn add(self, rhs: F32) -> F32 {
        F32(self.0 + rhs.0)
    }
}

impl std::ops::Sub for F32 {
    type Output = F32;

    fn sub(self, rhs: F32) -> F32 {
        F32(self.0 - rhs.0)
    }
}

impl std::ops::Mul for F32 {
    type Output = F32;

    fn mul(self, rhs: F32) -> F32 {
        F32(self.0 * rhs.0)
    }
}

impl std::ops::Div for F32 {
    type Output = F32;

    fn div(self, rhs: F32) -> F32 {
        F32(self.0 / rhs.0)
    }
}

impl std::ops::Neg for F32 {
    type Output = F32;

    fn neg(self) -> F32 {
        F32(-self.0)
    }
}

/// A number of the type `f64` as a scalar of the library.
#[derive(Clone, Copy, Debug, PartialEq, PartialOrd, Default)]
struct F64(f64);

impl Scalar for F64 {
    fn zero_spec() -> Self {
        F64(0.0)
    }

    fn one_spec() -> Self {
        F64(1.0)
    }

    fn can_add(self, _rhs: Self) -> bool {
        true
    }

    fn plus(self, rhs: Self) -> Self {
        F64(self.0 + rhs.0)
    }

    fn can_sub(self, _rhs: Self) -> bool {
        true
    }

    fn minus(self, rhs: Self) -> Self {
        F64(self.0 - rhs.0)
    }

    fn can_mul(self, _rhs: Self) -> bool {
        true
    }

    fn times(self, rhs: Self) -> Self {
        F64(self.0 * rhs.0)
    }

    fn can_div(self, _rhs: Self) -> bool {
        true
    }

    fn over(self, rhs: Self) -> Self {
        F64(self.0 / rhs.0)
    }

    fn can_rem(self, _rhs: Self) -> bool {
        true
    }

    fn modulo(self, rhs: Self) -> Self {
        F64(self.0 % rhs.0)
    }

    fn same(self, rhs: Self) -> bool {
        self.0 == rhs.0
    }

    fn less(self, rhs: Self) -> bool {
        self.0 < rhs.0
    }

    fn zero() -> Self {
        F64(0.0)
    }

    fn one() -> Self {
        F64(1.0)
    }

    fn add(self, rhs: Self) -> Self {
        F64(self.0 + rhs.0)
    }

    fn sub(self, rhs: Self) -> Self {
        F64(self.0 - rhs.0)
    }

    fn mul(self, rhs: Self) -> Self {
        F64(self.0 * rhs.0)
    }

    fn div(self, rhs: Self) -> Self {
        F64(self.0 / rhs.0)
    }

    fn rem(self, rhs: Self) -> Self {
        F64(self.0 % rhs.0)
    }

    fn equals(self, rhs: Self) -> bool {
        self.0 == rhs.0
    }

    fn less_than(self, rhs: Self) -> bool {
        self.0 < rhs.0
    }
}

impl ScalarSigned for F64 {
    fn can_neg(self) -> bool {
        true
    }

    fn negated(self) -> Self {
        F64(-self.0)
    }

    fn neg(self) -> Self {
        F64(-self.0)
    }
}

impl ScalarFloat for F64 {
    fn root(self) -> Self {
        F64(self.0.sqrt())
    }

    fn sine(self) -> Self {
        F64(self.0.sin())
    }

    fn cosine(self) -> Self {
        F64(self.0.cos())
    }

    fn tangent(self) -> Self {
        F64(self.0.tan())
    }

    fn sqrt(self) -> Self {
        F64(self.0.sqrt())
    }

    fn sin(self) -> Self {
        F64(self.0.sin())
    }

    fn cos(self) -> Self {
        F64(self.0.cos())
    }

    fn tan(self) -> Self {
        F64(self.0.tan())
    }
}

impl std::ops::Add for F64 {
    type Output = F64;

    fn add(self, rhs: F64) -> F64 {
        F64(self.0 + rhs.0)
    }
}

impl std::ops::Sub for F64 {
    type Output = F64;

    fn sub(self, rhs: F64) -> F64 {
        F64(self.0 - rhs.0)
    }
}

impl std::ops::Mul for F64 {
    type Output = F64;

    fn mul(self, rhs: F64) -> F64 {
        F64(self.0 * rhs.0)
    }
}

impl std::ops::Div for F64 {
    type Output = F64;

    fn div(self, rhs: F64) -> F64 {
        F64(self.0 / rhs.0)
    }
}

impl std::ops::Neg for F64 {
    type Output = F64;

    fn neg(self) -> F64 {
        F64(-self.0)
    }
}

impl std::ops::Mul<Vector2<F64>> for F64 {
    type Output = Vector2<F64>;

    fn mul(self, other: Vector2<F64>) -> Vector2<F64> {
        other.scale_left(self)
    }
}

impl std::ops::Mul<Vector3<F64>> for F64 {
    type Output = Vector3<F64>;

    fn mul(self, other: Vector3<F64>) -> Vector3<F64> {
        other.scale_left(self)
    }
}

impl std::ops::Mul<Vector4<F64>> for F64 {
    type Output = Vector4<F64>;

    fn mul(self, other: Vector4<F64>) -> Vector4<F64> {
        other.scale_left(self)
    }
}

impl std::ops::Mul<Matrix2x2<F64>> for F64 {
    type Output = Matrix2x2<F64>;

    fn mul(self, other: Matrix2x2<F64>) -> Matrix2x2<F64> {
        other.scale_left(self)
    }
}

impl std::ops::Mul<Matrix3x3<F64>> for F64 {
    type Output = Matrix3x3<F64>;

    fn mul(self, other: Matrix3x3<F64>) -> Matrix3x3<F64> {
        other.scale_left(self)
    }
}

impl std::ops::Mul<Matrix4x4<F64>> for F64 {
    type Output = Matrix4x4<F64>;

    fn mul(self, other: Matrix4x4<F64>) -> Matrix4x4<F64> {
        other.scale_left(self)
    }
}

/// Equality up to a tolerance, component by component: the absolute
/// difference is at most `epsilon`, or the relative difference is at most
/// the machine epsilon.
trait Approx {
    fn approx_eq(&self, other: &Self, epsilon: f64) -> bool;
}

impl Approx for F64 {
    fn approx_eq(&self, other: &Self, epsilon: f64) -> bool {
        f64::relative_eq(&self.0, &other.0, epsilon, f64::default_max_relative())
    }
}

impl Approx for F32 {
    fn approx_eq(&self, other: &Self, epsilon: f64) -> bool {
        f32::relative_eq(&self.0, &other.0, epsilon as f32, f32::default_max_relative())
    }
}

impl<S: Approx> Approx for Vector1<S> {
    fn approx_eq(&self, other: &Self, epsilon: f64) -> bool {
        self.x.approx_eq(&other.x, epsilon)
    }
}

impl<S: Approx> Approx for Vector2<S> {
    fn approx_eq(&self, other: &Self, epsilon: f64) -> bool {
        self.x.approx_eq(&other.x, epsilon) && self.y.approx_eq(&other.y, epsilon)
    }
}

impl<S: Approx> Approx for Vector3<S> {
    fn approx_eq(&self, other: &Self, epsilon: f64) -> bool {
        self.x.approx_eq(&other.x, epsilon) && self.y.approx_eq(&other.y, epsilon) && self.z.approx_eq(&other.z, epsilon)
    }
}

impl<S: Approx> Approx for Vector4<S> {
    fn approx_eq(&self, other: &Self, epsilon: f64) -> bool {
        self.x.approx_eq(&other.x, epsilon) && self.y.approx_eq(&other.y, epsilon) && self.z.approx_eq(&other.z, epsilon) && self.w.approx_eq(&other.w, epsilon)
    }
}

impl<S: Approx> Approx for Matrix2x2<S> {
    fn approx_eq(&self, other: &Self, epsilon: f64) -> bool {
        self.c0.approx_eq(&other.c0, epsilon) && self.c1.approx_eq(&other.c1, epsilon)
    }
}

impl<S: Approx> Approx for Matrix3x3<S> {
    fn approx_eq(&self, other: &Self, epsilon: f64) -> bool {
        self.c0.approx_eq(&other.c0, epsilon) && self.c1.approx_eq(&other.c1, epsilon) && self.c2.approx_eq(&other.c2, epsilon)
    }
}

impl<S: Approx> Approx for Matrix4x4<S> {
    fn approx_eq(&self, other: &Self, epsilon: f64) -> bool {
        self.c0.approx_eq(&other.c0, epsilon) && self.c1.approx_eq(&other.c1, epsilon) && self.c2.approx_eq(&other.c2, epsilon) && self.c3.approx_eq(&other.c3, epsilon)
    }
}

fn fsqrt(x: F64) -> F64 {
    F64(x.0.sqrt())
}

fn fatan2(y: F64, x: F64) -> F64 {
    F64(f64::atan2(y.0, x.0))
}

fn degrees(x: F32) -> Radians<F32> {
    Radians(F32(x.0.to_radians()))
}

#[test]
fn test_matrix_test_matrix_components1_4x4() {
    let matrix = Matrix4x4::new(
        1_i32,  2_i32,  3_i32,  4_i32,
        5_i32,  6_i32,  7_i32,  8_i32,
        9_i32,  10_i32, 11_i32, 12_i32,
        13_i32, 14_i32, 15_i32, 16_i32
    );

    assert_eq!(matrix[0][0], 1_i32);
    assert_eq!(matrix[0][1], 2_i32);
    assert_eq!(matrix[0][2], 3_i32);
    assert_eq!(matrix[0][3], 4_i32);
    assert_eq!(matrix[1][0], 5_i32);
    assert_eq!(matrix[1][1], 6_i32);
    assert_eq!(matrix[1][2], 7_i32);
    assert_eq!(matrix[1][3], 8_i32);
    assert_eq!(matrix[2][0], 9_i32);
    assert_eq!(matrix[2][1], 10_i32);
    assert_eq!(matrix[2][2], 11_i32);
    assert_eq!(matrix[2][3], 12_i32);
    assert_eq!(matrix[3][0], 13_i32);
    assert_eq!(matrix[3][1], 14_i32);
    assert_eq!(matrix[3][2], 15_i32);
    assert_eq!(matrix[3][3], 16_i32);
}

#[test]
fn test_matrix_test_matrix_components2_4x4() {
    let matrix = Matrix4x4::new(
        1_i32,  2_i32,  3_i32,  4_i32,
        5_i32,  6_i32,  7_i32,  8_i32,
        9_i32,  10_i32, 11_i32, 12_i32,
        13_i32, 14_i32, 15_i32, 16_i32
    );

    assert_eq!(matrix.c0.x, matrix[0][0]);
    assert_eq!(matrix.c0.y, matrix[0][1]);
    assert_eq!(matrix.c0.z, matrix[0][2]);
    assert_eq!(matrix.c0.w, matrix[0][3]);
    assert_eq!(matrix.c1.x, matrix[1][0]);
    assert_eq!(matrix.c1.y, matrix[1][1]);
    assert_eq!(matrix.c1.z, matrix[1][2]);
    assert_eq!(matrix.c1.w, matrix[1][3]);
    assert_eq!(matrix.c2.x, matrix[2][0]);
    assert_eq!(matrix.c2.y, matrix[2][1]);
    assert_eq!(matrix.c2.z, matrix[2][2]);
    assert_eq!(matrix.c2.w, matrix[2][3]);
    assert_eq!(matrix.c3.x, matrix[3][0]);
    assert_eq!(matrix.c3.y, matrix[3][1]);
    assert_eq!(matrix.c3.z, matrix[3][2]);
    assert_eq!(matrix.c3.w, matrix[3][3]);
}

#[test]
fn test_matrix_test_identity_matrix_times_identity_matrix_equals_identity_matrix_4x4() {
    let identity_matrix: Matrix4x4<F32> = Matrix4x4::identity();

    assert_eq!(identity_matrix * identity_matrix, identity_matrix);
}

#[test]
fn test_matrix_test_zero_matrix_times_zero_matrix_equals_zero_matrix_4x4() {
    let zero_matrix: Matrix4x4<F32> = Matrix4x4::zero();

    assert_eq!(zero_matrix * zero_matrix, zero_matrix);
}

#[test]
fn test_matrix_test_matrix_times_identity_equals_matrix1_4x4() {
    let a_matrix = Matrix4x4::new(
        F64(80_f64),    F64(23.43_f64),  F64(43.56_f64), F64(6.74_f64),
        F64(426.1_f64), F64(23.57_f64),  F64(27.61_f64), F64(13.90_f64),
        F64(4.22_f64),  F64(258.08_f64), F64(31.70_f64), F64(42.17_f64),
        F64(70_f64),    F64(49_f64),     F64(95_f64),    F64(89.91_f64)
    );
    let b_matrix = Matrix4x4::new(
        F64(36.84_f64), F64(427.46_f64), F64(882.19_f64), F64(89.50_f64),
        F64(7.04_f64),  F64(61.89_f64),  F64(56.31_f64),  F64(89_f64),
        F64(72_f64),    F64(936.5_f64),  F64(413.80_f64), F64(50.31_f64),
        F64(37.69_f64), F64(311.8_f64),  F64(60.81_f64),  F64(73.83_f64)
    );
    // let expected = Matrix4x4::new(
    //     F64(195075.7478_f64), F64(242999.4886_f64), F64(49874.8440_f64), F64(51438.8929_f64),
    //     F64(33402.1572_f64),  F64(20517.1793_f64),  F64(12255.4723_f64), F64(11284.3033_f64),
    //     F64(410070.5860_f64), F64(133018.9590_f64), F64(46889.9950_f64), F64(35475.9481_f64),
    //     F64(141297.8982_f64), F64(27543.7175_f64),  F64(19192.1014_f64), F64(13790.4636_f64)
    // );
    let a_matrix_times_identity = a_matrix * Matrix4x4::identity();
    let b_matrix_times_identity = b_matrix * Matrix4x4::identity();

    assert_eq!(a_matrix_times_identity, a_matrix);
    assert_eq!(b_matrix_times_identity, b_matrix);
}

#[test]
fn test_matrix_test_matrix_times_zero_equals_zero1_4x4() {
    let a_matrix = Matrix4x4::new(
        F64(80_f64),    F64(23.43_f64),  F64(43.56_f64), F64(6.74_f64),
        F64(426.1_f64), F64(23.57_f64),  F64(27.61_f64), F64(13.90_f64),
        F64(4.22_f64),  F64(258.08_f64), F64(31.70_f64), F64(42.17_f64),
        F64(70_f64),    F64(49_f64),     F64(95_f64),    F64(89.91_f64)
    );
    let b_matrix = Matrix4x4::new(
        F64(36.84_f64), F64(427.46_f64), F64(882.19_f64), F64(89.50_f64),
        F64(7.04_f64),  F64(61.89_f64),  F64(56.31_f64),  F64(89_f64),
        F64(72_f64),    F64(936.5_f64),  F64(413.80_f64), F64(50.31_f64),
        F64(37.69_f64), F64(311.8_f64),  F64(60.81_f64),  F64(73.83_f64)
    );
    // let expected = Matrix4x4::new(
    //     F64(195075.7478_f64), F64(242999.4886_f64), F64(49874.8440_f64), F64(51438.8929_f64),
    //     F64(33402.1572_f64),  F64(20517.1793_f64),  F64(12255.4723_f64), F64(11284.3033_f64),
    //     F64(410070.5860_f64), F64(133018.9590_f64), F64(46889.9950_f64), F64(35475.9481_f64),
    //     F64(141297.8982_f64), F64(27543.7175_f64),  F64(19192.1014_f64), F64(13790.4636_f64)
    // );
    let a_matrix_times_zero_matrix = a_matrix * Matrix4x4::zero();
    let b_matrix_times_zero_matrix = b_matrix * Matrix4x4::zero();

    assert_eq!(a_matrix_times_zero_matrix, Matrix4x4::zero());
    assert_eq!(b_matrix_times_zero_matrix, Matrix4x4::zero());
}

#[test]
fn test_matrix_test_zero_times_matrix_equals_zero1_4x4() {
    let a_matrix = Matrix4x4::new(
        F64(80_f64),    F64(23.43_f64),  F64(43.56_f64), F64(6.74_f64),
        F64(426.1_f64), F64(23.57_f64),  F64(27.61_f64), F64(13.90_f64),
        F64(4.22_f64),  F64(258.08_f64), F64(31.70_f64), F64(42.17_f64),
        F64(70_f64),    F64(49_f64),     F64(95_f64),    F64(89.91_f64)
    );
    let b_matrix = Matrix4x4::new(
        F64(36.84_f64), F64(427.46_f64), F64(882.19_f64), F64(89.50_f64),
        F64(7.04_f64),  F64(61.89_f64),  F64(56.31_f64),  F64(89_f64),
        F64(72_f64),    F64(936.5_f64),  F64(413.80_f64), F64(50.31_f64),
        F64(37.69_f64), F64(311.8_f64),  F64(60.81_f64),  F64(73.83_f64)
    );
    // let expected = Matrix4x4::new(
    //     F64(195075.7478_f64), F64(242999.4886_f64), F64(49874.8440_f64), F64(51438.8929_f64),
    //     F64(33402.1572_f64),  F64(20517.1793_f64),  F64(12255.4723_f64), F64(11284.3033_f64),
    //     F64(410070.5860_f64), F64(133018.9590_f64), F64(46889.9950_f64), F64(35475.9481_f64),
    //     F64(141297.8982_f64), F64(27543.7175_f64),  F64(19192.1014_f64), F64(13790.4636_f64)
    // );
    let zero_times_a_matrix = Matrix4x4::zero() * a_matrix;
    let zero_times_b_matrix = Matrix4x4::zero() * b_matrix;

    assert_eq!(zero_times_a_matrix, Matrix4x4::zero());
    assert_eq!(zero_times_b_matrix, Matrix4x4::zero());
}

#[test]
fn test_matrix_test_matrix_times_identity_equals_identity_times_matrix1_4x4() {
    let a_matrix = Matrix4x4::new(
        F64(80_f64),    F64(23.43_f64),  F64(43.56_f64), F64(6.74_f64),
        F64(426.1_f64), F64(23.57_f64),  F64(27.61_f64), F64(13.90_f64),
        F64(4.22_f64),  F64(258.08_f64), F64(31.70_f64), F64(42.17_f64),
        F64(70_f64),    F64(49_f64),     F64(95_f64),    F64(89.91_f64)
    );
    let b_matrix = Matrix4x4::new(
        F64(36.84_f64), F64(427.46_f64), F64(882.19_f64), F64(89.50_f64),
        F64(7.04_f64),  F64(61.89_f64),  F64(56.31_f64),  F64(89_f64),
        F64(72_f64),    F64(936.5_f64),  F64(413.80_f64), F64(50.31_f64),
        F64(37.69_f64), F64(311.8_f64),  F64(60.81_f64),  F64(73.83_f64)
    );
    // let expected = Matrix4x4::new(
    //     F64(195075.7478_f64), F64(242999.4886_f64), F64(49874.8440_f64), F64(51438.8929_f64),
    //     F64(33402.1572_f64),  F64(20517.1793_f64),  F64(12255.4723_f64), F64(11284.3033_f64),
    //     F64(410070.5860_f64), F64(133018.9590_f64), F64(46889.9950_f64), F64(35475.9481_f64),
    //     F64(141297.8982_f64), F64(27543.7175_f64),  F64(19192.1014_f64), F64(13790.4636_f64)
    // );
    let a_matrix_times_identity = a_matrix * Matrix4x4::identity();
    let identity_times_a_matrix = Matrix4x4::identity() * a_matrix;
    let b_matrix_times_identity = b_matrix * Matrix4x4::identity();
    let identity_times_b_matrix = Matrix4x4::identity() * b_matrix;

    assert_eq!(a_matrix_times_identity, identity_times_a_matrix);
    assert_eq!(b_matrix_times_identity, identity_times_b_matrix);
}

#[test]
fn test_matrix_test_matrix_transpose_transpose_equals_matrix1_4x4() {
    let a_matrix = Matrix4x4::new(
        F64(80_f64),    F64(23.43_f64),  F64(43.56_f64), F64(6.74_f64),
        F64(426.1_f64), F64(23.57_f64),  F64(27.61_f64), F64(13.90_f64),
        F64(4.22_f64),  F64(258.08_f64), F64(31.70_f64), F64(42.17_f64),
        F64(70_f64),    F64(49_f64),     F64(95_f64),    F64(89.91_f64)
    );
    let b_matrix = Matrix4x4::new(
        F64(36.84_f64), F64(427.46_f64), F64(882.19_f64), F64(89.50_f64),
        F64(7.04_f64),  F64(61.89_f64),  F64(56.31_f64),  F64(89_f64),
        F64(72_f64),    F64(936.5_f64),  F64(413.80_f64), F64(50.31_f64),
        F64(37.69_f64), F64(311.8_f64),  F64(60.81_f64),  F64(73.83_f64)
    );
    // let expected = Matrix4x4::new(
    //     F64(195075.7478_f64), F64(242999.4886_f64), F64(49874.8440_f64), F64(51438.8929_f64),
    //     F64(33402.1572_f64),  F64(20517.1793_f64),  F64(12255.4723_f64), F64(11284.3033_f64),
    //     F64(410070.5860_f64), F64(133018.9590_f64), F64(46889.9950_f64), F64(35475.9481_f64),
    //     F64(141297.8982_f64), F64(27543.7175_f64),  F64(19192.1014_f64), F64(13790.4636_f64)
    // );
    let a_matrix_transpose_transpose = a_matrix.transpose().transpose();
    let b_matrix_transpose_transpose = b_matrix.transpose().transpose();

    assert_eq!(a_matrix_transpose_transpose, a_matrix);
    assert_eq!(b_matrix_transpose_transpose, b_matrix);
}

#[test]
fn test_matrix_test_matrix_multiplication1_4x4() {
    let a_matrix = Matrix4x4::new(
        F64(80_f64),    F64(23.43_f64),  F64(43.56_f64), F64(6.74_f64),
        F64(426.1_f64), F64(23.57_f64),  F64(27.61_f64), F64(13.90_f64),
        F64(4.22_f64),  F64(258.08_f64), F64(31.70_f64), F64(42.17_f64),
        F64(70_f64),    F64(49_f64),     F64(95_f64),    F64(89.91_f64)
    );
    let b_matrix = Matrix4x4::new(
        F64(36.84_f64), F64(427.46_f64), F64(882.19_f64), F64(89.50_f64),
        F64(7.04_f64),  F64(61.89_f64),  F64(56.31_f64),  F64(89_f64),
        F64(72_f64),    F64(936.5_f64),  F64(413.80_f64), F64(50.31_f64),
        F64(37.69_f64), F64(311.8_f64),  F64(60.81_f64),  F64(73.83_f64)
    );
    let expected = Matrix4x4::new(
        F64(195075.7478_f64), F64(242999.4886_f64), F64(49874.8440_f64), F64(51438.8929_f64),
        F64(33402.1572_f64),  F64(20517.1793_f64),  F64(12255.4723_f64), F64(11284.3033_f64),
        F64(410070.5860_f64), F64(133018.9590_f64), F64(46889.9950_f64), F64(35475.9481_f64),
        F64(141297.8982_f64), F64(27543.7175_f64),  F64(19192.1014_f64), F64(13790.4636_f64)
    );
    let result = a_matrix * b_matrix;

    assert!((result).approx_eq(&(expected), 1e-10));
}

#[test]
fn test_matrix_test_matrix_times_identity_equals_matrix2_4x4() {
    let a_matrix = Matrix4x4::new(
        F64(68.32_f64), F64(0_f64),      F64(0_f64),     F64(0_f64),
        F64(0_f64),     F64(37.397_f64), F64(0_f64),     F64(0_f64),
        F64(0_f64),     F64(0_f64),      F64(9.483_f64), F64(0_f64),
        F64(0_f64),     F64(0_f64),      F64(0_f64),     F64(887.710_f64)
    );
    let b_matrix = Matrix4x4::new(
        F64(57.72_f64), F64(0_f64),      F64(0_f64),       F64(0_f64),
        F64(0_f64),     F64(9.5433_f64), F64(0_f64),       F64(0_f64),
        F64(0_f64),     F64(0_f64),      F64(86.7312_f64), F64(0_f64),
        F64(0_f64),     F64(0_f64),      F64(0_f64),       F64(269.1134_f64)
    );
    // let expected = Matrix4x4::new(
    //     F64(3943.4304_f64), F64(0_f64),           F64(0_f64),           F64(0_f64),
    //     F64(0_f64),         F64(356.8907901_f64), F64(0_f64),           F64(0_f64),
    //     F64(0_f64),         F64(0_f64),           F64(822.4719696_f64), F64(0_f64),
    //     F64(0_f64),         F64(0_f64),           F64(0_f64),           F64(238894.656314_f64)
    // );
    let a_matrix_times_identity = a_matrix * Matrix4x4::identity();
    let b_matrix_times_identity = b_matrix * Matrix4x4::identity();

    assert_eq!(a_matrix_times_identity, a_matrix);
    assert_eq!(b_matrix_times_identity, b_matrix);
}

#[test]
fn test_matrix_test_matrix_times_zero_equals_zero2_4x4() {
    let a_matrix = Matrix4x4::new(
        F64(68.32_f64), F64(0_f64),      F64(0_f64),     F64(0_f64),
        F64(0_f64),     F64(37.397_f64), F64(0_f64),     F64(0_f64),
        F64(0_f64),     F64(0_f64),      F64(9.483_f64), F64(0_f64),
        F64(0_f64),     F64(0_f64),      F64(0_f64),     F64(887.710_f64)
    );
    let b_matrix = Matrix4x4::new(
        F64(57.72_f64), F64(0_f64),      F64(0_f64),       F64(0_f64),
        F64(0_f64),     F64(9.5433_f64), F64(0_f64),       F64(0_f64),
        F64(0_f64),     F64(0_f64),      F64(86.7312_f64), F64(0_f64),
        F64(0_f64),     F64(0_f64),      F64(0_f64),       F64(269.1134_f64)
    );
    // let expected = Matrix4x4::new(
    //     F64(3943.4304_f64), F64(0_f64),           F64(0_f64),           F64(0_f64),
    //     F64(0_f64),         F64(356.8907901_f64), F64(0_f64),           F64(0_f64),
    //     F64(0_f64),         F64(0_f64),           F64(822.4719696_f64), F64(0_f64),
    //     F64(0_f64),         F64(0_f64),           F64(0_f64),           F64(238894.656314_f64)
    // );
    let a_matrix_times_zero_matrix = a_matrix * Matrix4x4::zero();
    let b_matrix_times_zero_matrix = b_matrix * Matrix4x4::zero();

    assert_eq!(a_matrix_times_zero_matrix, Matrix4x4::zero());
    assert_eq!(b_matrix_times_zero_matrix, Matrix4x4::zero());
}

#[test]
fn test_matrix_test_zero_times_matrix_equals_zero2_4x4() {
    let a_matrix = Matrix4x4::new(
        F64(68.32_f64), F64(0_f64),      F64(0_f64),     F64(0_f64),
        F64(0_f64),     F64(37.397_f64), F64(0_f64),     F64(0_f64),
        F64(0_f64),     F64(0_f64),      F64(9.483_f64), F64(0_f64),
        F64(0_f64),     F64(0_f64),      F64(0_f64),     F64(887.710_f64)
    );
    let b_matrix = Matrix4x4::new(
        F64(57.72_f64), F64(0_f64),      F64(0_f64),       F64(0_f64),
        F64(0_f64),     F64(9.5433_f64), F64(0_f64),       F64(0_f64),
        F64(0_f64),     F64(0_f64),      F64(86.7312_f64), F64(0_f64),
        F64(0_f64),     F64(0_f64),      F64(0_f64),       F64(269.1134_f64)
    );
    // let expected = Matrix4x4::new(
    //     F64(3943.4304_f64), F64(0_f64),           F64(0_f64),           F64(0_f64),
    //     F64(0_f64),         F64(356.8907901_f64), F64(0_f64),           F64(0_f64),
    //     F64(0_f64),         F64(0_f64),           F64(822.4719696_f64), F64(0_f64),
    //     F64(0_f64),         F64(0_f64),           F64(0_f64),           F64(238894.656314_f64)
    // );
    let zero_times_a_matrix = Matrix4x4::zero() * a_matrix;
    let zero_times_b_matrix = Matrix4x4::zero() * b_matrix;

    assert_eq!(zero_times_a_matrix, Matrix4x4::zero());
    assert_eq!(zero_times_b_matrix, Matrix4x4::zero());
}

#[test]
fn test_matrix_test_matrix_times_identity_equals_identity_times_matrix2_4x4() {
    let a_matrix = Matrix4x4::new(
        F64(68.32_f64), F64(0_f64),      F64(0_f64),     F64(0_f64),
        F64(0_f64),     F64(37.397_f64), F64(0_f64),     F64(0_f64),
        F64(0_f64),     F64(0_f64),      F64(9.483_f64), F64(0_f64),
        F64(0_f64),     F64(0_f64),      F64(0_f64),     F64(887.710_f64)
    );
    let b_matrix = Matrix4x4::new(
        F64(57.72_f64), F64(0_f64),      F64(0_f64),       F64(0_f64),
        F64(0_f64),     F64(9.5433_f64), F64(0_f64),       F64(0_f64),
        F64(0_f64),     F64(0_f64),      F64(86.7312_f64), F64(0_f64),
        F64(0_f64),     F64(0_f64),      F64(0_f64),       F64(269.1134_f64)
    );
    // let expected = Matrix4x4::new(
    //     F64(3943.4304_f64), F64(0_f64),           F64(0_f64),           F64(0_f64),
    //     F64(0_f64),         F64(356.8907901_f64), F64(0_f64),           F64(0_f64),
    //     F64(0_f64),         F64(0_f64),           F64(822.4719696_f64), F64(0_f64),
    //     F64(0_f64),         F64(0_f64),           F64(0_f64),           F64(238894.656314_f64)
    // );
    let a_matrix_times_identity = a_matrix * Matrix4x4::identity();
    let identity_times_a_matrix = Matrix4x4::identity() * a_matrix;
    let b_matrix_times_identity = b_matrix * Matrix4x4::identity();
    let identity_times_b_matrix = Matrix4x4::identity() * b_matrix;

    assert_eq!(a_matrix_times_identity, identity_times_a_matrix);
    assert_eq!(b_matrix_times_identity, identity_times_b_matrix);
}

#[test]
fn test_matrix_test_matrix_transpose_transpose_equals_matrix2_4x4() {
    let a_matrix = Matrix4x4::new(
        F64(68.32_f64), F64(0_f64),      F64(0_f64),     F64(0_f64),
        F64(0_f64),     F64(37.397_f64), F64(0_f64),     F64(0_f64),
        F64(0_f64),     F64(0_f64),      F64(9.483_f64), F64(0_f64),
        F64(0_f64),     F64(0_f64),      F64(0_f64),     F64(887.710_f64)
    );
    let b_matrix = Matrix4x4::new(
        F64(57.72_f64), F64(0_f64),      F64(0_f64),       F64(0_f64),
        F64(0_f64),     F64(9.5433_f64), F64(0_f64),       F64(0_f64),
        F64(0_f64),     F64(0_f64),      F64(86.7312_f64), F64(0_f64),
        F64(0_f64),     F64(0_f64),      F64(0_f64),       F64(269.1134_f64)
    );
    // let expected = Matrix4x4::new(
    //     F64(3943.4304_f64), F64(0_f64),           F64(0_f64),           F64(0_f64),
    //     F64(0_f64),         F64(356.8907901_f64), F64(0_f64),           F64(0_f64),
    //     F64(0_f64),         F64(0_f64),           F64(822.4719696_f64), F64(0_f64),
    //     F64(0_f64),         F64(0_f64),           F64(0_f64),           F64(238894.656314_f64)
    // );
    let a_matrix_transpose_transpose = a_matrix.transpose().transpose();
    let b_matrix_transpose_transpose = b_matrix.transpose().transpose();

    assert_eq!(a_matrix_transpose_transpose, a_matrix);
    assert_eq!(b_matrix_transpose_transpose, b_matrix);
}

#[test]
fn test_matrix_test_matrix_multiplication2_4x4() {
    let a_matrix = Matrix4x4::new(
        F64(68.32_f64), F64(0_f64),      F64(0_f64),     F64(0_f64),
        F64(0_f64),     F64(37.397_f64), F64(0_f64),     F64(0_f64),
        F64(0_f64),     F64(0_f64),      F64(9.483_f64), F64(0_f64),
        F64(0_f64),     F64(0_f64),      F64(0_f64),     F64(887.710_f64)
    );
    let b_matrix = Matrix4x4::new(
        F64(57.72_f64), F64(0_f64),      F64(0_f64),       F64(0_f64),
        F64(0_f64),     F64(9.5433_f64), F64(0_f64),       F64(0_f64),
        F64(0_f64),     F64(0_f64),      F64(86.7312_f64), F64(0_f64),
        F64(0_f64),     F64(0_f64),      F64(0_f64),       F64(269.1134_f64)
    );
    let expected = Matrix4x4::new(
        F64(3943.4304_f64), F64(0_f64),           F64(0_f64),           F64(0_f64),
        F64(0_f64),         F64(356.8907901_f64), F64(0_f64),           F64(0_f64),
        F64(0_f64),         F64(0_f64),           F64(822.4719696_f64), F64(0_f64),
        F64(0_f64),         F64(0_f64),           F64(0_f64),           F64(238894.656314_f64)
    );
    let result = a_matrix * b_matrix;

    assert!((result).approx_eq(&(expected), 1e-10));
}

#[test]
fn test_matrix_test_identity_transpose_equals_identity_4x4() {
    let identity = Matrix4x4::<F32>::identity();
    let identity_transpose = identity.transpose();

    assert_eq!(identity, identity_transpose);
}

#[test]
fn test_matrix_test_construction_from_cols_4x4() {
    let c0 = Vector4::new(1_i32,  2_i32,  3_i32,  4_i32);
    let c1 = Vector4::new(5_i32,  6_i32,  7_i32,  8_i32);
    let c2 = Vector4::new(9_i32,  10_i32, 11_i32, 12_i32);
    let c3 = Vector4::new(13_i32, 14_i32, 15_i32, 16_i32);
    let columns = [c0, c1, c2, c3];
    let expected = Matrix4x4::new(
        1_i32,  2_i32,  3_i32,  4_i32,
        5_i32,  6_i32,  7_i32,  8_i32,
        9_i32,  10_i32, 11_i32, 12_i32,
        13_i32, 14_i32, 15_i32, 16_i32
    );
    let result = Matrix4x4::from_columns(&columns);

    assert_eq!(result, expected);
}

#[test]
fn test_matrix_test_construction_from_rows_4x4() {
    let r0 = Vector4::new(1_i32,  2_i32,  3_i32,  4_i32);
    let r1 = Vector4::new(5_i32,  6_i32,  7_i32,  8_i32);
    let r2 = Vector4::new(9_i32,  10_i32, 11_i32, 12_i32);
    let r3 = Vector4::new(13_i32, 14_i32, 15_i32, 16_i32);
    let rows = [r0, r1, r2, r3];
    let expected = Matrix4x4::new(
        1_i32, 5_i32, 9_i32,  13_i32,
        2_i32, 6_i32, 10_i32, 14_i32,
        3_i32, 7_i32, 11_i32, 15_i32,
        4_i32, 8_i32, 12_i32, 16_i32
    );
    let result = Matrix4x4::from_rows(&rows);

    assert_eq!(result, expected);
}

#[test]
fn test_identity_matrix4x4_translates_vector_along_vector() {
    let vector = Vector3::from((F64(2_f64), F64(2_f64), F64(2_f64)));
    let trans_matrix = Matrix4x4::from_affine_translation(&vector);
    let zero_vector4 = Vector4::from((F64(0_f64), F64(0_f64), F64(0_f64), F64(1_f64)));
    let zero_vector3 = Vector3::from((F64(0_f64), F64(0_f64), F64(0_f64)));

    let result = trans_matrix * zero_vector4;
    assert_eq!(result, (zero_vector3 + vector).extend(F64(1_f64)));
}

#[test]
fn test_matrix_test_constant_times_identity_is_constant_along_diagonal_4x4() {
    let c = F64(802.3435169_f64);
    let identity = Matrix4x4::identity();
    let expected = Matrix4x4::new(
        c,     F64(0_f64), F64(0_f64), F64(0_f64),
        F64(0_f64), c,     F64(0_f64), F64(0_f64),
        F64(0_f64), F64(0_f64), c,     F64(0_f64),
        F64(0_f64), F64(0_f64), F64(0_f64), c
    );

    assert_eq!(identity * c, expected);
}

#[test]
fn test_matrix_test_identity_divide_constant_is_constant_inverse_along_diagonal_4x4() {
    let c = F64(802.3435169_f64);
    let identity = Matrix4x4::identity();
    let expected = Matrix4x4::new(
        F64(1_f64) / c, F64(0_f64),     F64(0_f64),     F64(0_f64),
        F64(0_f64),     F64(1_f64) / c, F64(0_f64),     F64(0_f64),
        F64(0_f64),     F64(0_f64),     F64(1_f64) / c, F64(0_f64),
        F64(0_f64),     F64(0_f64),     F64(0_f64),     F64(1_f64) / c
    );

    assert_eq!(identity / c, expected);
}

#[test]
fn test_matrix_test_matrix_plus_zero_equals_matrix_4x4() {
    let zero_matrix = Matrix4x4::zero();
    let matrix = Matrix4x4::new(
        F64(36.84_f64),   F64(427.46894_f64), F64(8827.1983_f64), F64(89.5049494_f64),
        F64(7.04217_f64), F64(61.891390_f64), F64(56.31_f64),     F64(89_f64),
        F64(72_f64),      F64(936.5_f64),     F64(413.80_f64),    F64(50.311160_f64),
        F64(37.6985_f64), F64(311.8_f64),     F64(60.81_f64),     F64(73.8393_f64)
    );

    assert_eq!(matrix + zero_matrix, matrix);
}

#[test]
fn test_matrix_test_zero_plus_matrix_equals_matrix_4x4() {
    let zero_matrix = Matrix4x4::zero();
    let matrix = Matrix4x4::new(
        F64(36.84_f64),   F64(427.46894_f64), F64(8827.1983_f64), F64(89.5049494_f64),
        F64(7.04217_f64), F64(61.891390_f64), F64(56.31_f64),     F64(89_f64),
        F64(72_f64),      F64(936.5_f64),     F64(413.80_f64),    F64(50.311160_f64),
        F64(37.6985_f64), F64(311.8_f64),     F64(60.81_f64),     F64(73.8393_f64)
    );

    assert_eq!(zero_matrix + matrix, matrix);
}

#[test]
fn test_matrix_test_matrix_with_zero_determinant_4x4() {
    // This matrix should have a zero determinant since it has two repeating columns.
    let matrix = Matrix4x4::new(
        F64(1_f64),  F64(2_f64),  F64(3_f64),  F64(4_f64),
        F64(5_f64),  F64(6_f64),  F64(7_f64),  F64(8_f64),
        F64(5_f64),  F64(6_f64),  F64(7_f64),  F64(8_f64),
        F64(9_f64),  F64(10_f64), F64(11_f64), F64(12_f64)
    );

    assert_eq!(matrix.determinant(), F64(0_f64));
}

#[test]
fn test_matrix_test_lower_triangular_matrix_determinant_4x4() {
    let matrix = Matrix4x4::new(
        F64(1_f64),  F64(0_f64),  F64(0_f64),  F64(0_f64),
        F64(5_f64),  F64(2_f64),  F64(0_f64),  F64(0_f64),
        F64(5_f64),  F64(5_f64),  F64(3_f64),  F64(0_f64),
        F64(5_f64),  F64(5_f64),  F64(5_f64),  F64(4_f64)
    );

    assert_eq!(matrix.determinant(), F64(1_f64) * F64(2_f64) * F64(3_f64) * F64(4_f64));
}

#[test]
fn test_matrix_test_upper_triangular_matrix_determinant_4x4() {
    let matrix = Matrix4x4::new(
        F64(1_f64),  F64(5_f64),  F64(5_f64),  F64(5_f64),
        F64(0_f64),  F64(2_f64),  F64(5_f64),  F64(5_f64),
        F64(0_f64),  F64(0_f64),  F64(3_f64),  F64(5_f64),
        F64(0_f64),  F64(0_f64),  F64(0_f64),  F64(4_f64)
    );

    assert_eq!(matrix.determinant(), F64(1_f64) * F64(2_f64) * F64(3_f64) * F64(4_f64));
}

#[test]
fn test_matrix_test_scalar_multiplication() {
    let result = (F64(1_f64) / F64(32_f64)) * Matrix4x4::new(
        F64(7_f64), -F64(1_f64), -F64(1_f64), -F64(1_f64),
       -F64(1_f64),  F64(7_f64), -F64(1_f64), -F64(1_f64),
       -F64(1_f64), -F64(1_f64),  F64(7_f64), -F64(1_f64),
       -F64(1_f64), -F64(1_f64), -F64(1_f64),  F64(7_f64)
   );
   let expected = Matrix4x4::new(
       (F64(1_f64) / F64(32_f64)) *  F64(7_f64), (F64(1_f64) / F64(32_f64)) * -F64(1_f64), (F64(1_f64) / F64(32_f64)) * -F64(1_f64), (F64(1_f64) / F64(32_f64)) * -F64(1_f64),
       (F64(1_f64) / F64(32_f64)) * -F64(1_f64), (F64(1_f64) / F64(32_f64)) *  F64(7_f64), (F64(1_f64) / F64(32_f64)) * -F64(1_f64), (F64(1_f64) / F64(32_f64)) * -F64(1_f64),
       (F64(1_f64) / F64(32_f64)) * -F64(1_f64), (F64(1_f64) / F64(32_f64)) * -F64(1_f64), (F64(1_f64) / F64(32_f64)) *  F64(7_f64), (F64(1_f64) / F64(32_f64)) * -F64(1_f64),
       (F64(1_f64) / F64(32_f64)) * -F64(1_f64), (F64(1_f64) / F64(32_f64)) * -F64(1_f64), (F64(1_f64) / F64(32_f64)) * -F64(1_f64), (F64(1_f64) / F64(32_f64)) *  F64(7_f64)
   );

   assert_eq!(result, expected);
}

#[test]
fn test_matrix_test_matrix_inverse_4x4() {
    let matrix = Matrix4x4::new(
        F64(5_f64), F64(1_f64), F64(1_f64), F64(1_f64),
        F64(1_f64), F64(5_f64), F64(1_f64), F64(1_f64),
        F64(1_f64), F64(1_f64), F64(5_f64), F64(1_f64),
        F64(1_f64), F64(1_f64), F64(1_f64), F64(5_f64),
    );
    let expected = (F64(1_f64) / F64(32_f64)) * Matrix4x4::new(
         F64(7_f64), -F64(1_f64), -F64(1_f64), -F64(1_f64),
        -F64(1_f64),  F64(7_f64), -F64(1_f64), -F64(1_f64),
        -F64(1_f64), -F64(1_f64),  F64(7_f64), -F64(1_f64),
        -F64(1_f64), -F64(1_f64), -F64(1_f64),  F64(7_f64)
    );
    let result = matrix.inverse().unwrap();

    assert!((result).approx_eq(&(expected), 1e-8));
}

#[test]
fn test_matrix_test_identity_is_invertible_4x4() {
    assert!(Matrix4x4::<F64>::identity().is_invertible());
}

#[test]
fn test_matrix_test_identity_inverse_is_identity_4x4() {
    let result: Matrix4x4<F64> = Matrix4x4::identity().inverse().unwrap();
    let expected: Matrix4x4<F64> = Matrix4x4::identity();

    assert_eq!(result, expected);
}

#[test]
fn test_matrix_test_inverse_diagonal_matrix_4x4() {
    let matrix = F64(4_f64) * Matrix4x4::identity();
    let expected = (F64(1_f64) / F64(4_f64)) * Matrix4x4::identity();
    let result = matrix.inverse().unwrap();

    assert_eq!(result, expected);
}

#[test]
fn test_matrix_test_matrix_with_nonzero_determinant_is_invertible_4x4() {
    let matrix = Matrix4x4::new(
        F64(1_f64),  F64(2_f64),  F64(3_f64),   F64(4_f64),
        F64(5_f64),  F64(60_f64), F64(7_f64),   F64(8_f64),
        F64(9_f64),  F64(10_f64), F64(11_f64),  F64(12_f64),
        F64(13_f64), F64(14_f64), F64(150_f64), F64(16_f64)
    );

    assert!(matrix.is_invertible());
}

#[test]
fn test_matrix_test_matrix_with_zero_determinant_is_not_invertible_4x4() {
    // This matrix should not be invertible since it has two identical columns.
    let matrix = Matrix4x4::new(
        F64(1_f64),  F64(2_f64),   F64(3_f64),  F64(4_f64),
        F64(5_f64),  F64(6_f64),   F64(7_f64),  F64(8_f64),
        F64(5_f64),  F64(6_f64),   F64(7_f64),  F64(8_f64),
        F64(9_f64),  F64(10_f64),  F64(11_f64), F64(12_f64)
    );

    assert!(!matrix.is_invertible());
}

#[test]
fn test_matrix_test_noninvertible_matrix_returns_none_4x4() {
    let matrix = Matrix4x4::new(
        F64(1_f64),  F64(2_f64),  F64(3_f64),  F64(4_f64),
        F64(5_f64),  F64(6_f64),  F64(7_f64),  F64(8_f64),
        F64(5_f64),  F64(6_f64),  F64(7_f64),  F64(8_f64),
        F64(9_f64),  F64(10_f64), F64(11_f64), F64(12_f64)
    );

    assert!(matrix.inverse().is_none());
}

#[test]
fn test_matrix_inversion2() {
    let matrix = Matrix4x4::new(
        F64(36.84_f64),  F64(427.468_f64), F64(882.198_f64), F64(89.504_f64),
        F64(7.042_f64),  F64(61.891_f64),  F64(56.31_f64),   F64(89_f64),
        F64(72_f64),     F64(936.5_f64),   F64(413.80_f64),  F64(50.311_f64),
        F64(37.698_f64), F64(311.8_f64),   F64(60.81_f64),   F64(73.839_f64)
    );
    let result = matrix.inverse().unwrap();
    let expected = Matrix4x4::new(
         F64(0.01146093272878252_f64),  -F64(0.06212100841992658_f64), -F64(0.02771783718075694_f64),    F64(0.07986947998777854_f64),
        -F64(0.00148039611514755_f64),   F64(0.004464130960444646_f64), F64(0.003417891441120325_f64),  -F64(0.005915083057511776_f64),
         F64(0.001453087396607042_f64), -F64(0.0009538600348427_f64),  -F64(0.0005129477357421059_f64), -F64(0.0002621470728476185_f64),
        -F64(0.0007967195911958656_f64), F64(0.01365031989418242_f64),  F64(0.0001408581712825875_f64), -F64(0.002040325515611523_f64)
    );

    assert!((result).approx_eq(&(expected), 1e-8));
}

#[test]
fn test_matrix_test_matrix_times_inverse_is_identity_4x4() {
    let matrix = Matrix4x4::new(
        F64(36.84_f64),  F64(427.468_f64), F64(882.198_f64), F64(89.504_f64),
        F64(7.042_f64),  F64(61.891_f64),  F64(56.31_f64),   F64(89_f64),
        F64(72_f64),     F64(936.5_f64),   F64(413.80_f64),  F64(50.311_f64),
        F64(37.698_f64), F64(311.8_f64),   F64(60.81_f64),   F64(73.839_f64)
    );
    let matrix_inverse = matrix.inverse().unwrap();
    let identity = Matrix4x4::identity();

    assert!((matrix * matrix_inverse).approx_eq(&(identity), 1e-8));
}

#[test]
fn test_matrix_test_constant_times_matrix_inverse_equals_constant_inverse_times_matrix_inverse_4x4() {
    let matrix = Matrix4x4::new(
        F64(36.84_f64),  F64(427.468_f64), F64(882.198_f64), F64(89.504_f64),
        F64(7.042_f64),  F64(61.891_f64),  F64(56.31_f64),   F64(89_f64),
        F64(72_f64),     F64(936.5_f64),   F64(413.80_f64),  F64(50.311_f64),
        F64(37.698_f64), F64(311.8_f64),   F64(60.81_f64),   F64(73.839_f64)
    );
    let constant: F64 = F64(4_f64);
    let constant_times_matrix_inverse = (constant * matrix).inverse().unwrap();
    let constant_inverse_times_matrix_inverse = (F64(1_f64) / constant) * matrix.inverse().unwrap();

    assert_eq!(constant_times_matrix_inverse, constant_inverse_times_matrix_inverse);
}

#[test]
fn test_matrix_test_matrix_transpose_inverse_equals_matrix_inverse_transpose_4x4() {
    let matrix = Matrix4x4::new(
        F64(36.84_f64),  F64(427.468_f64), F64(882.198_f64), F64(89.504_f64),
        F64(7.042_f64),  F64(61.891_f64),  F64(56.31_f64),   F64(89_f64),
        F64(72_f64),     F64(936.5_f64),   F64(413.80_f64),  F64(50.311_f64),
        F64(37.698_f64), F64(311.8_f64),   F64(60.81_f64),   F64(73.839_f64)
    );
    let matrix_transpose_inverse = matrix.transpose().inverse().unwrap();
    let matrix_inverse_transpose = matrix.inverse().unwrap().transpose();

    assert!((matrix_transpose_inverse).approx_eq(&(matrix_inverse_transpose), 1e-8));
}

#[test]
fn test_matrix_test_inverse_times_matrix_is_identity_4x4() {
    let matrix = Matrix4x4::new(
        F64(36.84_f64),  F64(427.468_f64), F64(882.198_f64), F64(89.504_f64),
        F64(7.042_f64),  F64(61.891_f64),  F64(56.31_f64),   F64(89_f64),
        F64(72_f64),     F64(936.5_f64),   F64(413.80_f64),  F64(50.311_f64),
        F64(37.698_f64), F64(311.8_f64),   F64(60.81_f64),   F64(73.839_f64)
    );
    let matrix_inverse = matrix.inverse().unwrap();
    let identity = Matrix4x4::identity();

    assert!((matrix_inverse * matrix).approx_eq(&(identity), 1e-8));
}

#[test]
fn test_matrix_test_matrix_inverse_inverse_equals_matrix_4x4() {
    let matrix = Matrix4x4::new(
        F64(36.84_f64),  F64(427.468_f64), F64(882.198_f64), F64(89.504_f64),
        F64(7.042_f64),  F64(61.891_f64),  F64(56.31_f64),   F64(89_f64),
        F64(72_f64),     F64(936.5_f64),   F64(413.80_f64),  F64(50.311_f64),
        F64(37.698_f64), F64(311.8_f64),   F64(60.81_f64),   F64(73.839_f64)
    );
    let result = matrix.inverse().unwrap().inverse().unwrap();
    let expected = matrix;

    assert!((result).approx_eq(&(expected), 1e-8));
}

#[test]
fn test_matrix_test_matrix_elements_should_be_column_major_order_4x4() {
    let matrix = Matrix4x4::new(
        1_i32,  2_i32,  3_i32,  4_i32,
        5_i32,  6_i32,  7_i32,  8_i32,
        9_i32,  10_i32, 11_i32, 12_i32,
        13_i32, 14_i32, 15_i32, 16_i32
    );

    assert_eq!(matrix.c0.x, matrix[0][0]);
    assert_eq!(matrix.c0.y, matrix[0][1]);
    assert_eq!(matrix.c0.z, matrix[0][2]);
    assert_eq!(matrix.c0.w, matrix[0][3]);
    assert_eq!(matrix.c1.x, matrix[1][0]);
    assert_eq!(matrix.c1.y, matrix[1][1]);
    assert_eq!(matrix.c1.z, matrix[1][2]);
    assert_eq!(matrix.c1.w, matrix[1][3]);
    assert_eq!(matrix.c2.x, matrix[2][0]);
    assert_eq!(matrix.c2.y, matrix[2][1]);
    assert_eq!(matrix.c2.z, matrix[2][2]);
    assert_eq!(matrix.c2.w, matrix[2][3]);
    assert_eq!(matrix.c3.x, matrix[3][0]);
    assert_eq!(matrix.c3.y, matrix[3][1]);
    assert_eq!(matrix.c3.z, matrix[3][2]);
    assert_eq!(matrix.c3.w, matrix[3][3]);
}

#[test]
fn test_matrix_test_matrix_swap_columns_4x4() {
    let mut result = Matrix4x4::new(
        1_i32,  2_i32,  3_i32,   4_i32,
        5_i32,  6_i32,  7_i32,   8_i32,
        9_i32,  10_i32, 11_i32,  12_i32,
        13_i32, 14_i32, 15_i32,  16_i32
    );
    result.swap_columns(3, 1);
    let expected = Matrix4x4::new(
        1_i32,  2_i32,  3_i32,  4_i32,
        13_i32, 14_i32, 15_i32, 16_i32,
        9_i32,  10_i32, 11_i32, 12_i32,
        5_i32,  6_i32,  7_i32,  8_i32
    );

    assert_eq!(result, expected);
}

#[test]
fn test_matrix_test_matrix_swap_rows_4x4() {
    let mut result = Matrix4x4::new(
        1_i32,  2_i32,  3_i32,  4_i32,
        5_i32,  6_i32,  7_i32,  8_i32,
        9_i32,  10_i32, 11_i32, 12_i32,
        13_i32, 14_i32, 15_i32, 16_i32
    );
    result.swap_rows(3, 1);
    let expected = Matrix4x4::new(
        1_i32,  4_i32,  3_i32,  2_i32,
        5_i32,  8_i32,  7_i32,  6_i32,
        9_i32,  12_i32, 11_i32, 10_i32,
        13_i32, 16_i32, 15_i32, 14_i32
    );

    assert_eq!(result, expected);
}

#[test]
fn test_matrix_test_matrix_swap_elements_4x4() {
    let mut result = Matrix4x4::new(
        1_i32,  2_i32,  3_i32,  4_i32,
        5_i32,  6_i32,  7_i32,  8_i32,
        9_i32,  10_i32, 11_i32, 12_i32,
        13_i32, 14_i32, 15_i32, 16_i32
    );
    result.swap((2, 0), (1, 3));
    let expected = Matrix4x4::new(
        1_i32,  2_i32,  3_i32,  4_i32,
        5_i32,  6_i32,  7_i32,  9_i32,
        8_i32,  10_i32, 11_i32, 12_i32,
        13_i32, 14_i32, 15_i32, 16_i32
    );

    assert_eq!(result, expected);
}

#[test]
fn test_from_affine_scale() {
    let matrix = Matrix4x4::from_affine_scale(5_i32);
    let unit_w = Vector4::unit_w();
    let expected = Vector4::new(5_i32, 5_i32, 5_i32, 1_i32);
    let result = matrix * Vector4::new(1_i32, 1_i32, 1_i32, 1_i32);

    assert_eq!(result, expected);
    assert_eq!(matrix * unit_w, unit_w);
}

#[test]
fn test_matrix_test_from_affine_nonuniform_scale() {
    let matrix = Matrix4x4::from_affine_nonuniform_scale(&Vector3::new(5_i32, 7_i32, 11_i32));
    let unit_w = Vector4::unit_w();
    let expected = Vector4::new(5_i32, 7_i32, 11_i32, 1_i32);
    let result = matrix * Vector4::new(1_i32, 1_i32, 1_i32, 1_i32);

    assert_eq!(result, expected);
    assert_eq!(matrix * unit_w, unit_w);
}

#[test]
fn test_from_affine_shear_x() {
    let shear_x_with_y = 5_i32;
    let shear_x_with_z = 11_i32;
    let matrix = Matrix4x4::from_affine_shear_x(shear_x_with_y, shear_x_with_z);
    let expected = Vector4::new(1_i32 + shear_x_with_y + shear_x_with_z, 1_i32, 1_i32, 1_i32);
    let result = matrix * Vector4::new(1_i32, 1_i32, 1_i32, 1_i32);

    assert_eq!(result, expected);
}

#[test]
fn test_matrix_test_from_affine_shear_x_does_not_change_last_coordinate() {
    let shear_x_with_y = 5_i32;
    let shear_x_with_z = 11_i32;
    let matrix = Matrix4x4::from_affine_shear_x(shear_x_with_y, shear_x_with_z);
    let unit_w = Vector4::unit_w();
    let expected = unit_w;
    let result = matrix * unit_w;

    assert_eq!(result, expected);
}

#[test]
fn test_from_affine_shear_y() {
    let shear_y_with_x = 3_i32;
    let shear_y_with_z = 11_i32;
    let matrix = Matrix4x4::from_affine_shear_y(shear_y_with_x, shear_y_with_z);
    let expected = Vector4::new(1_i32, 1_i32 + shear_y_with_x + shear_y_with_z, 1_i32, 1_i32);
    let result = matrix * Vector4::new(1_i32, 1_i32, 1_i32, 1_i32);

    assert_eq!(result, expected);
}

#[test]
fn test_matrix_test_from_affine_shear_y_does_not_change_last_coordinate() {
    let shear_y_with_x = 3_i32;
    let shear_y_with_z = 11_i32;
    let matrix = Matrix4x4::from_affine_shear_y(shear_y_with_x, shear_y_with_z);
    let unit_w = Vector4::unit_w();
    let expected = unit_w;
    let result = matrix * unit_w;

    assert_eq!(result, expected);
}

#[test]
fn test_from_affine_shear_z() {
    let shear_z_with_x = 3_i32;
    let shear_z_with_y = 11_i32;
    let matrix = Matrix4x4::from_affine_shear_z(shear_z_with_x, shear_z_with_y);
    let expected = Vector4::new(1_i32, 1_i32, 1_i32 + shear_z_with_x + shear_z_with_y, 1_i32);
    let result = matrix * Vector4::new(1_i32, 1_i32, 1_i32, 1_i32);

    assert_eq!(result, expected);
}

#[test]
fn test_from_affine_shear_z_does_not_change_last_coordinate() {
    let shear_z_with_x = 3_i32;
    let shear_z_with_y = 11_i32;
    let matrix = Matrix4x4::from_affine_shear_z(shear_z_with_x, shear_z_with_y);
    let unit_w = Vector4::unit_w();
    let expected = unit_w;
    let result = matrix * unit_w;

    assert_eq!(result, expected);
}

#[test]
fn test_from_affine_shear() {
    let shear_x_with_y = 2_i32;
    let shear_x_with_z = 4_i32;
    let shear_y_with_x = 8_i32;
    let shear_y_with_z = 7_i32;
    let shear_z_with_x = 3_i32;
    let shear_z_with_y = 11_i32;
    let matrix = Matrix4x4::from_affine_shear_factors(
        shear_x_with_y, shear_x_with_z, shear_y_with_x, shear_y_with_z, shear_z_with_x, shear_z_with_y
    );
    let expected = Vector4::new(
        1_i32 + shear_x_with_y + shear_x_with_z,
        1_i32 + shear_y_with_x + shear_y_with_z,
        1_i32 + shear_z_with_x + shear_z_with_y,
        1_i32
    );
    let result = matrix * Vector4::new(1_i32, 1_i32, 1_i32, 1_i32);

    assert_eq!(result, expected);
}

#[test]
fn test_from_affine_shear_does_not_change_last_coordinate() {
    let shear_x_with_y = 2_i32;
    let shear_x_with_z = 4_i32;
    let shear_y_with_x = 8_i32;
    let shear_y_with_z = 7_i32;
    let shear_z_with_x = 3_i32;
    let shear_z_with_y = 11_i32;
    let matrix = Matrix4x4::from_affine_shear_factors(
        shear_x_with_y, shear_x_with_z, shear_y_with_x, shear_y_with_z, shear_z_with_x, shear_z_with_y
    );
    let unit_w = Vector4::unit_w();
    let expected = unit_w;
    let result = matrix * unit_w;

    assert_eq!(result, expected);
}

#[test]
fn test_from_affine_reflection_xy_plane() {
    let bias = Point3::origin();
    let normal = Unit::from_value(Vector3::unit_z());
    let expected = Matrix4x4::new(
        F64(1_f64), F64(0_f64),  F64(0_f64), F64(0_f64),
        F64(0_f64), F64(1_f64),  F64(0_f64), F64(0_f64),
        F64(0_f64), F64(0_f64), -F64(1_f64), F64(0_f64),
        F64(0_f64), F64(0_f64),  F64(0_f64), F64(1_f64)
    );
    let result = Matrix4x4::from_affine_reflection(&normal, &bias);

    assert_eq!(result, expected);
}

#[test]
fn test_from_affine_reflection_zx_plane() {
    let bias = Point3::origin();
    let normal = Unit::from_value(-Vector3::unit_y());
    let expected = Matrix4x4::new(
        F64(1_f64),  F64(0_f64), F64(0_f64), F64(0_f64),
        F64(0_f64), -F64(1_f64), F64(0_f64), F64(0_f64),
        F64(0_f64),  F64(0_f64), F64(1_f64), F64(0_f64),
        F64(0_f64),  F64(0_f64), F64(0_f64), F64(1_f64)
    );
    let result = Matrix4x4::from_affine_reflection(&normal, &bias);

    assert_eq!(result, expected);
}

#[test]
fn test_from_affine_reflection_yz_plane() {
    let bias = Point3::origin();
    let normal = Unit::from_value(Vector3::unit_x());
    let expected = Matrix4x4::new(
        -F64(1_f64),  F64(0_f64), F64(0_f64),  F64(0_f64),
         F64(0_f64),  F64(1_f64), F64(0_f64),  F64(0_f64),
         F64(0_f64),  F64(0_f64), F64(1_f64),  F64(0_f64),
         F64(0_f64),  F64(0_f64), F64(0_f64),  F64(1_f64)
    );
    let result = Matrix4x4::from_affine_reflection(&normal, &bias);

    assert_eq!(result, expected);
}

#[test]
fn test_from_affine_reflection_plane1() {
    // The plane `z = 1`.
    let bias = Point3::new(F64(0_f64), F64(0_f64), F64(1_f64));
    let normal = Unit::from_value(Vector3::new(F64(0_f64), F64(0_f64), F64(1_f64)));
    let matrix = Matrix4x4::from_affine_reflection(&normal, &bias);
    let vector = Vector4::new(F64(1_f64), F64(1_f64), F64(0.5_f64), F64(1_f64));
    let expected = Vector4::new(F64(1_f64),F64(1_f64),F64(1.5_f64), F64(1_f64));
    let result = matrix * vector;

    assert_eq!(result, expected);
}

#[test]
fn test_from_affine_reflection_plane2() {
    // The plane `x = -1`.
    let bias = Point3::new(-F64(1_f64), F64(0_f64), F64(0_f64));
    let normal = Unit::from_value(Vector3::new(F64(1_f64), F64(0_f64), F64(0_f64)));
    let matrix = Matrix4x4::from_affine_reflection(&normal, &bias);
    let vector = Vector4::new(-F64(2_f64), F64(1_f64), F64(1_f64), F64(1_f64));
    let expected = Vector4::new(F64(0_f64),F64(1_f64),F64(1_f64), F64(1_f64));
    let result = matrix * vector;

    assert_eq!(result, expected);
}

#[test]
fn test_from_affine_reflection_plane3() {
    // The plane `y = 1`.
    let bias = Point3::new(F64(0_f64), F64(1_f64), F64(0_f64));
    let normal = Unit::from_value(Vector3::new(F64(0_f64), F64(1_f64), F64(0_f64)));
    let matrix = Matrix4x4::from_affine_reflection(&normal, &bias);
    let vector = Vector4::new(F64(0_f64), F64(0_f64), F64(0_f64), F64(1_f64));
    let expected = Vector4::new(F64(0_f64),F64(2_f64), F64(0_f64), F64(1_f64));
    let result = matrix * vector;

    assert_eq!(result, expected);
}

#[test]
fn test_matrix_test_from_angle_x() {
    let angle: Radians<F64> = Radians(F64(core::f64::consts::FRAC_PI_2));
    let unit_y = Vector3::unit_y();
    let unit_z = Vector3::unit_z();
    let matrix = Matrix4x4::from_affine_angle_x(angle);
    let expected = unit_z.extend(F64(0_f64));
    let result = matrix * unit_y.extend(F64(0_f64));

    assert!((result).approx_eq(&(expected), 1e-8));
}

#[test]
fn test_matrix_test_from_angle_y() {
    let angle: Radians<F64> = Radians(F64(core::f64::consts::FRAC_PI_2));
    let unit_z = Vector3::unit_z();
    let unit_x = Vector3::unit_x();
    let matrix = Matrix4x4::from_affine_angle_y(angle);
    let expected = unit_x.extend(F64(0_f64));
    let result = matrix * unit_z.extend(F64(0_f64));

    assert!((result).approx_eq(&(expected), 1e-8));
}

#[test]
fn test_matrix_test_from_angle_z() {
    let angle: Radians<F64> = Radians(F64(core::f64::consts::FRAC_PI_2));
    let unit_x = Vector3::unit_x();
    let unit_y = Vector3::unit_y();
    let matrix = Matrix4x4::from_affine_angle_z(angle);
    let expected = unit_y.extend(F64(0_f64));
    let result = matrix * unit_x.extend(F64(0_f64));

    assert!((result).approx_eq(&(expected), 1e-8));
}

#[test]
fn test_from_affine_angle_x() {
    let angle: Radians<F64> = Radians(F64(core::f64::consts::FRAC_PI_2));
    let unit_y = Vector3::unit_y();
    let unit_z = Vector3::unit_z();
    let matrix = Matrix4x4::from_affine_angle_x(angle);
    let expected = unit_z.extend(F64(0_f64));
    let result = matrix * unit_y.extend(F64(0_f64));

    assert!((result).approx_eq(&(expected), 1e-8));
}

#[test]
fn test_from_affine_angle_y() {
    let angle: Radians<F64> = Radians(F64(core::f64::consts::FRAC_PI_2));
    let unit_z = Vector3::unit_z();
    let unit_x = Vector3::unit_x();
    let matrix = Matrix4x4::from_affine_angle_y(angle);
    let expected = unit_x.extend(F64(0_f64));
    let result = matrix * unit_z.extend(F64(0_f64));

    assert!((result).approx_eq(&(expected), 1e-8));
}

#[test]
fn test_from_affine_angle_z() {
    let angle: Radians<F64> = Radians(F64(core::f64::consts::FRAC_PI_2));
    let unit_x = Vector3::unit_x();
    let unit_y = Vector3::unit_y();
    let matrix = Matrix4x4::from_affine_angle_z(angle);
    let expected = unit_y.extend(F64(0_f64));
    let result = matrix * unit_x.extend(F64(0_f64));

    assert!((result).approx_eq(&(expected), 1e-8));
}

#[test]
fn test_from_affine_axis_angle() {
    let angle: Radians<F64> = Radians(F64(core::f64::consts::PI));
    let axis = Unit::from_value(
        (F64(1_f64) / fsqrt(F64(2_f64))) * Vector3::new(F64(1_f64), F64(1_f64), F64(0_f64))
    );
    let vector = Vector4::new(F64(1_f64), F64(1_f64), -F64(1_f64), F64(0_f64));
    let matrix = Matrix4x4::from_affine_axis_angle(&axis, angle);
    let expected = Vector4::new(F64(1_f64), F64(1_f64), F64(1_f64), F64(0_f64));
    let result = matrix * vector;

    assert!((result).approx_eq(&(expected), 1e-8));
}

#[test]
fn test_matrix_test_from_affine_translation_point() {
    let distance = Vector3::new(3_i32, 7_i32, 11_i32);
    let matrix = Matrix4x4::from_affine_translation(&distance);
    let point = Vector4::new(0_i32, 0_i32, 0_i32, 1_i32);
    let expected = Vector4::new(3_i32, 7_i32, 11_i32, 1_i32);
    let result = matrix * point;

    assert_eq!(result, expected);
}

#[test]
fn test_matrix_test_from_affine_translation_vector() {
    let distance = Vector3::new(3_i32, 7_i32, 11_i32);
    let matrix = Matrix4x4::from_affine_translation(&distance);
    let vector = Vector4::new(0_i32, 0_i32, 0_i32, 0_i32);
    let expected = vector;
    let result = matrix * vector;

    assert_eq!(result, expected);
}

#[test]
fn test_from_orthographic() {
    let left = -F64(4_f64);
    let right = F64(4_f64);
    let bottom = -F64(2_f64);
    let top = F64(2_f64);
    let near = F64(1_f64);
    let far = F64(100_f64);
    let expected = Matrix4x4::new(
        F64(1_f64) / F64(4_f64),  F64(0_f64),          F64(0_f64),            F64(0_f64),
        F64(0_f64),          F64(1_f64) / F64(2_f64),  F64(0_f64),            F64(0_f64),
        F64(0_f64),          F64(0_f64),         -F64(2_f64) / F64(99_f64),   F64(0_f64),
        F64(0_f64),          F64(0_f64),         -F64(101_f64) / F64(99_f64), F64(1_f64)
    );
    let result = Matrix4x4::from_orthographic(left, right, bottom, top, near, far);

    assert_eq!(result, expected);
}

#[test]
fn test_from_perspective_fov() {
    let vfov = degrees(F32(72_f32));
    let aspect_ratio = F32(800_f32) / F32(600_f32);
    let near = F32(0.1_f32);
    let far = F32(100_f32);
    let expected = Matrix4x4::new(
        F32(1.0322863_f32), F32(0_f32),          F32(0_f32),         F32(0_f32),
        F32(0_f32),         F32(1.3763818_f32),  F32(0_f32),         F32(0_f32),
        F32(0_f32),         F32(0_f32),         -F32(1.002002_f32), -F32(1_f32),
        F32(0_f32),         F32(0_f32),         -F32(0.2002002_f32), F32(0_f32)
    );
    let result = Matrix4x4::from_perspective_fov(vfov, aspect_ratio, near, far);

    assert!((result).approx_eq(&(expected), 1e-10));
}

#[test]
fn test_from_perspective() {
    let left = -F64(4_f64);
    let right = F64(4_f64);
    let bottom = -F64(2_f64);
    let top = F64(3_f64);
    let near = F64(1_f64);
    let far = F64(100_f64);
    let expected = Matrix4x4::new(
        F64(1_f64) / F64(4_f64), F64(0_f64),          F64(0_f64),             F64(0_f64),
        F64(0_f64),         F64(2_f64) / F64(5_f64),  F64(0_f64),             F64(0_f64),
        F64(0_f64),         F64(1_f64) / F64(5_f64), -F64(101_f64) / F64(99_f64), -F64(1_f64),
        F64(0_f64),         F64(0_f64),         -F64(200_f64) / F64(99_f64),  F64(0_f64)
    );
    let result = Matrix4x4::from_perspective(left, right, bottom, top, near, far);

    assert_eq!(result, expected);
}

#[test]
fn test_look_at_rh_at_origin() {
    let eye = Point3::new(F64(0_f64), F64(0_f64), F64(0_f64));
    let target = Point3::new(F64(1_f64), F64(1_f64), F64(1_f64));
    let up = Vector3::unit_y();
    let minus_unit_z = -Vector3::unit_z();
    let look_at = Matrix4x4::look_at_rh(&eye, &target, &up);
    let direction = target - Point3::origin();
    let expected = minus_unit_z.extend(F64(0_f64));
    let result = look_at * direction.normalize().extend(F64(0_f64));

    assert!((result).approx_eq(&(expected), 1e-8));
}

#[test]
fn test_look_at_lh_at_origin() {
    let eye = Point3::new(F64(0_f64), F64(0_f64), F64(0_f64));
    let target = Point3::new(F64(1_f64), F64(1_f64), F64(1_f64));
    let up = Vector3::unit_y();
    let unit_z = Vector3::unit_z();
    let look_at = Matrix4x4::look_at_lh(&eye, &target, &up);
    let direction = target - Point3::origin();
    let expected = unit_z.extend(F64(0_f64));
    let result = look_at * direction.normalize().extend(F64(0_f64));

    assert!((result).approx_eq(&(expected), 1e-8));
}

#[test]
fn test_look_at_lh_no_displacement_or_rotation() {
    let eye = Point3::new(F64(0_f64), F64(0_f64), F64(0_f64));
    let target = Point3::new(F64(0_f64), F64(0_f64), F64(1_f64));
    let up = Vector3::unit_y();
    let look_at = Matrix4x4::look_at_lh(&eye, &target, &up);
    let direction = target - Point3::origin();
    let expected = Vector4::new(F64(0_f64), F64(0_f64), F64(1_f64), F64(0_f64));
    let result = look_at * direction.normalize().extend(F64(0_f64));

    assert_eq!(result, expected);
}

#[test]
fn test_look_at_rh_no_displacement_or_rotation() {
    let eye = Point3::new(F64(0_f64), F64(0_f64), F64(0_f64));
    let target = Point3::new(F64(0_f64), F64(0_f64), F64(1_f64));
    let up = Vector3::unit_y();
    let look_at = Matrix4x4::look_at_rh(&eye, &target, &up);
    let expected = Vector4::new(F64(0_f64), F64(0_f64), F64(0_f64), F64(1_f64));
    let result = look_at * eye.to_homogeneous();

    assert_eq!(result, expected);
}

#[test]
fn test_look_at_lh_eye_to_origin() {
    let eye = Point3::new(-F64(1_f64), -F64(1_f64), -F64(1_f64));
    let target = Point3::new(F64(1_f64), F64(1_f64), F64(1_f64));
    let up = Vector3::unit_y();
    let look_at = Matrix4x4::look_at_lh(&eye, &target, &up);
    let expected = Vector4::unit_w();
    let result = look_at * eye.to_homogeneous();

    assert_eq!(result, expected);
}

#[test]
fn test_look_at_rh_eye_to_origin() {
    let eye = Point3::new(-F64(1_f64), -F64(1_f64), -F64(1_f64));
    let target = Point3::new(F64(1_f64), F64(1_f64), F64(1_f64));
    let up = Vector3::unit_y();
    let look_at = Matrix4x4::look_at_rh(&eye, &target, &up);
    let expected = Vector4::unit_w();
    let result = look_at * eye.to_homogeneous();

    assert_eq!(result, expected);
}

#[test]
fn test_look_to_lh1() {
    let eye = Point3::new(F64(1_f64), F64(1_f64), F64(1_f64));
    let direction = (eye - Point3::origin()).normalize();
    let up = Vector3::unit_y();
    let unit_z = Vector3::unit_z().to_homogeneous();
    let look_to = Matrix4x4::look_to_lh(&eye, &direction, &up);
    let expected = unit_z;
    let result = look_to * direction.normalize().to_homogeneous();

    assert!((result).approx_eq(&(expected), 1e-8));
}

#[test]
fn test_look_to_lh2() {
    let eye = Point3::new(F64(1_f64), F64(1_f64), F64(1_f64));
    let direction = (eye - Point3::origin()).normalize();
    let up = Vector3::unit_y();
    let minus_unit_z = (-Vector3::unit_z()).to_homogeneous();
    let look_to = Matrix4x4::look_to_lh(&eye, &direction, &up);
    let expected = minus_unit_z;
    let result = look_to * (-direction).normalize().to_homogeneous();

    assert!((result).approx_eq(&(expected), 1e-8));
}
