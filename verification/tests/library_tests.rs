#![allow(dead_code, unused_imports)]
use approx::{AbsDiffEq, RelativeEq};
use cglinalg::angle::Radians;
use cglinalg::glm;
use cglinalg::isometry::Isometry2;
use cglinalg::matrix2x2::Matrix2x2;
use cglinalg::matrix2x3::Matrix2x3;
use cglinalg::matrix3x2::Matrix3x2;
use cglinalg::matrix3x3::Matrix3x3;
use cglinalg::matrix4x4::Matrix4x4;
use cglinalg::point::{Point2, Point3};
use cglinalg::projection::{OrthographicSpec, PerspectiveFovSpec, PerspectiveSpec};
use cglinalg::quaternion::Quaternion;
use cglinalg::reflection::{Reflection2, Reflection3};
use cglinalg::rotation::Rotation2;
use cglinalg::scalar::{Scalar, ScalarFloat, ScalarSigned};
use cglinalg::transform::{Transform2, Transform3};
use cglinalg::translation::{Translation2, Translation3};
use cglinalg::unit::Unit;
use cglinalg::vector::{DotProduct, Vector1, Vector2, Vector3, Vector4};

/// A number of the type `f32` as a scalar of the library.
#[derive(Clone, Copy, Debug, PartialEq, PartialOrd, Default)]
struct F32(f32);

impl Scalar for F32 {
    fn zero_spec() -> Self {
        F32(0.0)
    }

    fn one_spec() -> Self {
        F32(1.0)
    }

    fn can_add(self, _rhs: Self) -> bool {
        true
    }

    fn plus(self, rhs: Self) -> Self {
        F32(self.0 + rhs.0)
    }

    fn can_sub(self, _rhs: Self) -> bool {
        true
    }

    fn minus(self, rhs: Self) -> Self {
        F32(self.0 - rhs.0)
    }

    fn can_mul(self, _rhs: Self) -> bool {
        true
    }

    fn times(self, rhs: Self) -> Self {
        F32(self.0 * rhs.0)
    }

    fn can_div(self, _rhs: Self) -> bool {
        true
    }

    fn over(self, rhs: Self) -> Self {
        F32(self.0 / rhs.0)
    }

    fn can_rem(self, _rhs: Self) -> bool {
        true
    }

    fn modulo(self, rhs: Self) -> Self {
        F32(self.0 % rhs.0)
    }

    fn same(self, rhs: Self) -> bool {
        self.0 == rhs.0
    }

    fn less(self, rhs: Self) -> bool {
        self.0 < rhs.0
    }

    fn zero() -> Self {
        F32(0.0)
    }

    fn one() -> Self {
        F32(1.0)
    }

    fn add(self, rhs: Self) -> Self {
        F32(self.0 + rhs.0)
    }

    fn sub(self, rhs: Self) -> Self {
        F32(self.0 - rhs.0)
    }

    fn mul(self, rhs: Self) -> Self {
        F32(self.0 * rhs.0)
    }

    fn div(self, rhs: Self) -> Self {
        F32(self.0 / rhs.0)
    }

    fn rem(self, rhs: Self) -> Self {
        F32(self.0 % rhs.0)
    }

    fn equals(self, rhs: Self) -> bool {
        self.0 == rhs.0
    }

    fn less_than(self, rhs: Self) -> bool {
        self.0 < rhs.0
    }
}

impl ScalarSigned for F32 {
    fn can_neg(self) -> bool {
        true
    }

    fn negated(self) -> Self {
        F32(-self.0)
    }

    fn neg(self) -> Self {
        F32(-self.0)
    }
}

impl ScalarFloat for F32 {
    fn root(self) -> Self {
        F32(self.0.sqrt())
    }

    fn sine(self) -> Self {
        F32(self.0.sin())
    }

    fn cosine(self) -> Self {
        F32(self.0.cos())
    }

    fn tangent(self) -> Self {
        F32(self.0.tan())
    }

    fn sqrt(self) -> Self {
        F32(self.0.sqrt())
    }

    fn sin(self) -> Self {
        F32(self.0.sin())
    }

    fn cos(self) -> Self {
        F32(self.0.cos())
    }

    fn tan(self) -> Self {
        F32(self.0.tan())
    }
}

impl std::ops::Add for F32 {
    type Output = F32;

    fn add(self, rhs: F32) -> F32 {
        F32(self.0 + rhs.0)
    }
}

impl std::ops::Sub for F32 {
    type Output = F32;

    fn sub(self, rhs: F32) -> F32 {
        F32(self.0 - rhs.0)
    }
}

impl std::ops::Mul for F32 {
    type Output = F32;

    fn mul(self, rhs: F32) -> F32 {
        F32(self.0 * rhs.0)
    }
}

impl std::ops::Div for F32 {
    type Output = F32;

    fn div(self, rhs: F32) -> F32 {
        F32(self.0 / rhs.0)
    }
}

impl std::ops::Neg for F32 {
    type Output = F32;

    fn neg(self) -> F32 {
        F32(-self.0)
    }
}

/// A number of the type `f64` as a scalar of the library.
#[derive(Clone, Copy, Debug, PartialEq, PartialOrd, Default)]
struct F64(f64);

impl Scalar for F64 {
    fn zero_spec() -> Self {
        F64(0.0)
    }

    fn one_spec() -> Self {
        F64(1.0)
    }

    fn can_add(self, _rhs: Self) -> bool {
        true
    }

    fn plus(self, rhs: Self) -> Self {
        F64(self.0 + rhs.0)
    }

    fn can_sub(self, _rhs: Self) -> bool {
        true
    }

    fn minus(self, rhs: Self) -> Self {
        F64(self.0 - rhs.0)
    }

    fn can_mul(self, _rhs: Self) -> bool {
        true
    }

    fn times(self, rhs: Self) -> Self {
        F64(self.0 * rhs.0)
    }

    fn can_div(self, _rhs: Self) -> bool {
        true
    }

    fn over(self, rhs: Self) -> Self {
        F64(self.0 / rhs.0)
    }

    fn can_rem(self, _rhs: Self) -> bool {
        true
    }

    fn modulo(self, rhs: Self) -> Self {
        F64(self.0 % rhs.0)
    }

    fn same(self, rhs: Self) -> bool {
        self.0 == rhs.0
    }

    fn less(self, rhs: Self) -> bool {
        self.0 < rhs.0
    }

    fn zero() -> Self {
        F64(0.0)
    }

    fn one() -> Self {
        F64(1.0)
    }

    fn add(self, rhs: Self) -> Self {
        F64(self.0 + rhs.0)
    }

    fn sub(self, rhs: Self) -> Self {
        F64(self.0 - rhs.0)
    }

    fn mul(self, rhs: Self) -> Self {
        F64(self.0 * rhs.0)
    }

    fn div(self, rhs: Self) -> Self {
        F64(self.0 / rhs.0)
    }

    fn rem(self, rhs: Self) -> Self {
        F64(self.0 % rhs.0)
    }

    fn equals(self, rhs: Self) -> bool {
        self.0 == rhs.0
    }

    fn less_than(self, rhs: Self) -> bool {
        self.0 < rhs.0
    }
}

impl ScalarSigned for F64 {
    fn can_neg(self) -> bool {
        true
    }

    fn negated(self) -> Self {
        F64(-self.0)
    }

    fn neg(self) -> Self {
        F64(-self.0)
    }
}

impl ScalarFloat for F64 {
    fn root(self) -> Self {
        F64(self.0.sqrt())
    }

    fn sine(self) -> Self {
        F64(self.0.sin())
    }

    fn cosine(self) -> Self {
        F64(self.0.cos())
    }

    fn tangent(self) -> Self {
        F64(self.0.tan())
    }

    fn sqrt(self) -> Self {
        F64(self.0.sqrt())
    }

    fn sin(self) -> Self {
        F64(self.0.sin())
    }

    fn cos(self) -> Self {
        F64(self.0.cos())
    }

    fn tan(self) -> Self {
        F64(self.0.tan())
    }
}

impl std::ops::Add for F64 {
    type Output = F64;

    fn add(self, rhs: F64) -> F64 {
        F64(self.0 + rhs.0)
    }
}

impl std::ops::Sub for F64 {
    type Output = F64;

    fn sub(self, rhs: F64) -> F64 {
        F64(self.0 - rhs.0)
    }
}

impl std::ops::Mul for F64 {
    type Output = F64;

    fn mul(self, rhs: F64) -> F64 {
        F64(self.0 * rhs.0)
    }
}

impl std::ops::Div for F64 {
    type Output = F64;

    fn div(self, rhs: F64) -> F64 {
        F64(self.0 / rhs.0)
    }
}

impl std::ops::Neg for F64 {
    type Output = F64;

    fn neg(self) -> F64 {
        F64(-self.0)
    }
}

impl std::ops::Mul<Vector2<F64>> for F64 {
    type Output = Vector2<F64>;

    fn mul(self, other: Vector2<F64>) -> Vector2<F64> {
        other.scale_left(self)
    }
}

impl std::ops::Mul<Vector3<F64>> for F64 {
    type Output = Vector3<F64>;

    fn mul(self, other: Vector3<F64>) -> Vector3<F64> {
        other.scale_left(self)
    }
}

impl std::ops::Mul<Vector4<F64>> for F64 {
    type Output = Vector4<F64>;

    fn mul(self, other: Vector4<F64>) -> Vector4<F64> {
        other.scale_left(self)
    }
}

impl std::ops::Mul<Matrix2x2<F64>> for F64 {
    type Output = Matrix2x2<F64>;

    fn mul(self, other: Matrix2x2<F64>) -> Matrix2x2<F64> {
        other.scale_left(self)
    }
}

impl std::ops::Mul<Matrix3x3<F64>> for F64 {
    type Output = Matrix3x3<F64>;

    fn mul(self, other: Matrix3x3<F64>) -> Matrix3x3<F64> {
        other.scale_left(self)
    }
}

impl std::ops::Mul<Matrix4x4<F64>> for F64 {
    type Output = Matrix4x4<F64>;

    fn mul(self, other: Matrix4x4<F64>) -> Matrix4x4<F64> {
        other.scale_left(self)
    }
}

/// Equality up to a tolerance, component by component: the absolute
/// difference is at most `epsilon`, or the relative difference is at most
/// the machine epsilon.
trait Approx {
    fn approx_eq(&self, other: &Self, epsilon: f64) -> bool;
}

impl Approx for F64 {
    fn approx_eq(&self, other: &Self, epsilon: f64) -> bool {
        f64::relative_eq(&self.0, &other.0, epsilon, f64::default_max_relative())
    }
}

impl Approx for F32 {
    fn approx_eq(&self, other: &Self, epsilon: f64) -> bool {
        f32::relative_eq(&self.0, &other.0, epsilon as f32, f32::default_max_relative())
    }
}

impl<S: Approx> Approx for Vector1<S> {
    fn approx_eq(&self, other: &Self, epsilon: f64) -> bool {
        self.x.approx_eq(&other.x, epsilon)
    }
}

impl<S: Approx> Approx for Vector2<S> {
    fn approx_eq(&self, other: &Self, epsilon: f64) -> bool {
        self.x.approx_eq(&other.x, epsilon) && self.y.approx_eq(&other.y, epsilon)
    }
}

impl<S: Approx> Approx for Vector3<S> {
    fn approx_eq(&self, other: &Self, epsilon: f64) -> bool {
        self.x.approx_eq(&other.x, epsilon) && self.y.approx_eq(&other.y, epsilon) && self.z.approx_eq(&other.z, epsilon)
    }
}

impl<S: Approx> Approx for Vector4<S> {
    fn approx_eq(&self, other: &Self, epsilon: f64) -> bool {
        self.x.approx_eq(&other.x, epsilon) && self.y.approx_eq(&other.y, epsilon) && self.z.approx_eq(&other.z, epsilon) && self.w.approx_eq(&other.w, epsilon)
    }
}

impl<S: Approx> Approx for Matrix2x2<S> {
    fn approx_eq(&self, other: &Self, epsilon: f64) -> bool {
        self.c0.approx_eq(&other.c0, epsilon) && self.c1.approx_eq(&other.c1, epsilon)
    }
}

impl<S: Approx> Approx for Matrix3x3<S> {
    fn approx_eq(&self, other: &Self, epsilon: f64) -> bool {
        self.c0.approx_eq(&other.c0, epsilon) && self.c1.approx_eq(&other.c1, epsilon) && self.c2.approx_eq(&other.c2, epsilon)
    }
}

impl<S: Approx> Approx for Matrix4x4<S> {
    fn approx_eq(&self, other: &Self, epsilon: f64) -> bool {
        self.c0.approx_eq(&other.c0, epsilon) && self.c1.approx_eq(&other.c1, epsilon) && self.c2.approx_eq(&other.c2, epsilon) && self.c3.approx_eq(&other.c3, epsilon)
    }
}

// ---------------------------------------------------------------- scalars

#[test]
fn integer_division_truncates_towards_zero() {
    assert_eq!(Scalar::div(-7_i32, 2_i32), -3_i32);
    assert_eq!(Scalar::rem(-7_i32, 2_i32), -1_i32);
    assert_eq!(Scalar::div(7_i32, -2_i32), -3_i32);
    assert_eq!(Scalar::rem(7_i32, -2_i32), 1_i32);
    assert_eq!(Scalar::div(7_u8, 2_u8), 3_u8);
    assert_eq!(Scalar::rem(7_u8, 2_u8), 1_u8);
}

#[test]
fn integer_identities_and_order() {
    assert_eq!(<i64 as Scalar>::zero(), 0_i64);
    assert_eq!(<i64 as Scalar>::one(), 1_i64);
    assert_eq!(<u16 as Scalar>::one(), 1_u16);
    assert!(Scalar::less_than(-3_i8, 2_i8));
    assert!(!Scalar::less_than(2_i8, 2_i8));
    assert!(Scalar::equals(5_u64, 5_u64));
    assert_eq!(ScalarSigned::neg(5_i16), -5_i16);
    assert_eq!(Scalar::add(2_i128, 3_i128), 5_i128);
    assert_eq!(Scalar::sub(2_isize, 3_isize), -1_isize);
    assert_eq!(Scalar::mul(6_usize, 7_usize), 42_usize);
}

// ---------------------------------------------------------------- vectors

#[test]
fn dot_product_adds_the_products_of_the_components() {
    let v = Vector3::new(1_i32, 2_i32, 3_i32);
    let w = Vector3::new(4_i32, -5_i32, 6_i32);
    assert_eq!(v.dot(w), 12_i32);
    assert_eq!((&v).dot(&w), 12_i32);
    assert_eq!(glm::dot(v, w), 12_i32);
    assert_eq!(Vector4::new(1_i64, 2, 3, 4).dot(Vector4::new(5_i64, 6, 7, 8)), 70_i64);
    assert_eq!(Vector2::new(3_i32, 4).magnitude_squared(), 25_i32);
    assert_eq!(Vector1::new(-3_i32).dot(Vector1::new(5)), -15_i32);
}

#[test]
fn cross_product_of_the_axes() {
    let x: Vector3<i32> = Vector3::unit_x();
    let y: Vector3<i32> = Vector3::unit_y();
    let z: Vector3<i32> = Vector3::unit_z();
    assert_eq!(x.cross(&y), z);
    assert_eq!(y.cross(&z), x);
    assert_eq!(z.cross(&x), y);
    assert_eq!(y.cross(&x), Vector3::new(0, 0, -1));
    let v = Vector3::new(2_i32, 3, 4);
    let w = Vector3::new(5_i32, 6, 7);
    assert_eq!(v.cross(&w), Vector3::new(-3, 6, -3));
    assert_eq!(glm::cross(&v, &w), Vector3::new(-3, 6, -3));
    assert_eq!(glm::cross2d(&Vector2::new(2_i32, 3), &Vector2::new(5_i32, 7)), Vector3::new(0, 0, -1));
}

#[test]
fn lerp_and_distance() {
    let v = Vector2::new(1_i32, 10);
    let w = Vector2::new(5_i32, 2);
    assert_eq!(v.lerp(w, 0), v);
    assert_eq!(v.lerp(w, 1), w);
    assert_eq!(v.lerp(w, 2), Vector2::new(9, -6));
    assert_eq!(v.distance_squared(w), 80);
    let a = Vector2::new(F64(0.0), F64(0.0));
    let b = Vector2::new(F64(3.0), F64(4.0));
    assert_eq!(a.distance(b), F64(5.0));
    assert_eq!(b.magnitude(), F64(5.0));
    assert_eq!(b.normalize(), Vector2::new(F64(3.0 / 5.0), F64(4.0 / 5.0)));
    assert_eq!(b.normalize_to(F64(10.0)), Vector2::new(F64(3.0 * 2.0), F64(4.0 * 2.0)));
}

#[test]
fn extend_contract_and_conversions() {
    let v = Vector2::new(1_i32, 2);
    assert_eq!(v.extend(3), Vector3::new(1, 2, 3));
    assert_eq!(v.to_homogeneous(), Vector3::new(1, 2, 0));
    assert_eq!(Vector3::new(1_i32, 2, 3).contract(), v);
    assert_eq!(Vector3::from((v, 7)), Vector3::new(1, 2, 7));
    assert_eq!(Vector4::from((v, 7, 8)), Vector4::new(1, 2, 7, 8));
    assert_eq!(Vector4::from((Vector3::new(1_i32, 2, 3), 9)), Vector4::new(1, 2, 3, 9));
    assert_eq!(Vector3::from(Vector4::new(1_i32, 2, 3, 4)), Vector3::new(1, 2, 3));
    assert_eq!(Vector3::from([4_i32, 5, 6]), Vector3::new(4, 5, 6));
    assert_eq!(Vector3::from(&[4_i32, 5, 6]), Vector3::new(4, 5, 6));
    assert_eq!(Vector2::<i32>::from_fill(4), Vector2::new(4, 4));
    assert_eq!(Vector4::<i32>::len(), 4);
    assert_eq!(Vector4::<i32>::shape(), (4, 1));
    assert!(Vector3::<i32>::zero().is_zero());
    assert!(!Vector3::<i32>::unit_y().is_zero());
}

#[test]
fn assignment_forms_change_the_vector_in_place() {
    let mut v = Vector3::new(1_i32, 2, 3);
    v.add_assign(Vector3::new(10, 20, 30));
    assert_eq!(v, Vector3::new(11, 22, 33));
    v.sub_assign(Vector3::new(1, 2, 3));
    assert_eq!(v, Vector3::new(10, 20, 30));
    v.mul_assign(3);
    assert_eq!(v, Vector3::new(30, 60, 90));
    v.div_assign(4);
    assert_eq!(v, Vector3::new(7, 15, 22));
    v.rem_assign(4);
    assert_eq!(v, Vector3::new(3, 3, 2));
    v.neg_mut();
    assert_eq!(v, Vector3::new(-3, -3, -2));
    assert_eq!(Vector3::new(7_i32, -7, 9) % 4, Vector3::new(3, -3, 1));
    assert_eq!(3_i32 * Vector2::new(1_i32, 2), Vector2::new(3, 6));
    assert_eq!(Vector2::new(1_i32, 2).scale_left(3), Vector2::new(3, 6));
}

// ---------------------------------------------------------------- points

#[test]
fn points_and_vectors() {
    let p = Point2::new(1_i32, 2);
    let q = Point2::new(4_i32, 6);
    assert_eq!(q - p, Vector2::new(3, 4));
    assert_eq!(p + Vector2::new(3, 4), q);
    assert_eq!(q - Vector2::new(3, 4), p);
    assert_eq!(p.to_homogeneous(), Vector3::new(1, 2, 1));
    assert_eq!(Point2::from_homogeneous(&Vector3::new(6_i32, 8, 2)), Some(Point2::new(3, 4)));
    assert_eq!(Point2::from_homogeneous(&Vector3::new(6_i32, 8, 0)), None);
    assert_eq!(Point3::from_homogeneous(&Vector4::new(6_i32, 8, 10, 2)), Some(Point3::new(3, 4, 5)));
    assert_eq!(Point3::from_homogeneous(&Vector4::new(6_i32, 8, 10, 0)), None);
    assert_eq!(Point3::<i32>::origin(), Point3::new(0, 0, 0));
    assert_eq!(p[0], 1);
    assert_eq!(p[1], 2);
}

// ---------------------------------------------------------------- matrices

#[test]
fn identity_is_neutral_and_zero_absorbs() {
    let a = Matrix3x3::new(1_i64, 2, 3, 4, 5, 6, 7, 8, 10);
    let identity = Matrix3x3::identity();
    let zero = Matrix3x3::zero();
    assert_eq!(a * identity, a);
    assert_eq!(identity * a, a);
    assert_eq!(a * zero, zero);
    assert_eq!(zero * a, zero);
    let b = Matrix2x3::new(1_i32, 2, 3, 4, 5, 6);
    assert_eq!(b * Matrix3x3::identity(), b);
    assert_eq!(Matrix2x2::identity() * b, b);
}

#[test]
fn transpose_twice_is_the_matrix_and_acts_alike() {
    let a = Matrix2x3::new(1_i32, 2, 3, 4, 5, 6);
    let v = Vector3::new(7_i32, 8, 9);
    assert_eq!(a.transpose(), Matrix3x2::new(1, 3, 5, 2, 4, 6));
    assert_eq!(a.transpose().transpose(), a);
    assert_eq!(a.transpose().transpose() * v, a * v);
    assert_eq!(a * v, Vector2::new(1 * 7 + 3 * 8 + 5 * 9, 2 * 7 + 4 * 8 + 6 * 9));
}

#[test]
fn equal_columns_or_rows_give_determinant_zero_and_no_inverse() {
    let columns = Matrix3x3::new(1_i32, 2, 3, 1, 2, 3, 7, 8, 10);
    assert_eq!(columns.determinant(), 0);
    assert!(!columns.is_invertible());
    assert!(columns.inverse().is_none());
    let rows = Matrix4x4::new(1_i64, 1, 3, 4, 5, 5, 7, 8, 9, 9, 11, 13, 2, 2, 5, 7);
    assert_eq!(rows.determinant(), 0);
    assert!(rows.inverse().is_none());
    let floats = Matrix2x2::new(F64(1.5), F64(2.5), F64(1.5), F64(2.5));
    assert_eq!(floats.determinant(), F64(0.0));
    assert!(floats.inverse().is_none());
}

#[test]
fn determinant_of_a_triangular_matrix_is_the_product_of_the_diagonal() {
    let upper = Matrix3x3::new(1_i32, 0, 0, 5, 2, 0, 7, 9, 3);
    assert_eq!(upper.determinant(), 6);
    let lower = Matrix4x4::new(2_i32, 5, 6, 7, 0, 3, 8, 9, 0, 0, 5, 1, 0, 0, 0, 7);
    assert_eq!(lower.determinant(), 2 * 3 * 5 * 7);
    assert_eq!(Matrix2x2::<i32>::identity().determinant(), 1);
    assert_eq!(Matrix4x4::<i32>::identity().determinant(), 1);
}

#[test]
fn determinant_expands_along_the_first_row() {
    assert_eq!(Matrix2x2::new(3_i32, 4, 5, 6).determinant(), 3 * 6 - 4 * 5);
    let a = Matrix3x3::new(2_i32, 0, 1, 1, 3, 2, 1, 1, 1);
    assert_eq!(a.determinant(), 2 * (3 * 1 - 2 * 1) - 1 * (0 * 1 - 1 * 1) + 1 * (0 * 2 - 1 * 3));
    let b = Matrix4x4::new(1_i32, 2, 0, 1, 0, 1, 3, 2, 2, 0, 1, 1, 1, 1, 0, 2);
    assert_eq!(b.determinant(), 18);
    assert_eq!(Matrix3x3::new(1_i32, 2, 3, 4, 5, 6, 7, 8, 10).trace(), 16);
}

#[test]
fn matrix_times_adjugate_is_determinant_times_identity() {
    let a = Matrix3x3::new(2_i32, 0, 1, 1, 3, 2, 1, 1, 4);
    let det = a.determinant();
    assert_eq!(det, 18);
    assert_eq!(a * a.adjugate(), Matrix3x3::from_scale(det));
    assert_eq!(a.adjugate() * a, Matrix3x3::from_scale(det));
    let b = Matrix4x4::new(1_i32, 2, 0, 1, 0, 1, 3, 2, 2, 0, 1, 1, 1, 1, 0, 2);
    assert_eq!(b * b.adjugate(), Matrix4x4::from_scale(b.determinant()));
    assert_eq!(b.adjugate() * b, Matrix4x4::from_scale(b.determinant()));
    let c = Matrix2x2::new(5_i32, 1, 1, 5);
    assert_eq!(c.adjugate(), Matrix2x2::new(5, -1, -1, 5));
    assert_eq!(c * c.adjugate(), Matrix2x2::from_scale(24));
}

#[test]
fn inverse_is_the_adjugate_over_the_determinant() {
    let matrix = Matrix2x2::new(F64(5.0), F64(1.0), F64(1.0), F64(5.0));
    let expected = F64(1.0 / 24.0) * Matrix2x2::new(F64(5.0), F64(-1.0), F64(-1.0), F64(5.0));
    let result = matrix.inverse().unwrap();
    assert!(result.approx_eq(&expected, 1e-8));
    assert!((matrix * result).approx_eq(&Matrix2x2::identity(), 1e-8));
    assert!((result * matrix).approx_eq(&Matrix2x2::identity(), 1e-8));
    assert!(result.inverse().unwrap().approx_eq(&matrix, 1e-8));
    let unimodular = Matrix2x2::new(2_i32, 1, 1, 1);
    assert_eq!(unimodular.inverse(), Some(Matrix2x2::new(1, -1, -1, 2)));
}

#[test]
fn rows_columns_and_swaps() {
    let mut a = Matrix2x3::new(1_i32, 2, 3, 4, 5, 6);
    assert_eq!(a.get_column(1), Vector2::new(3, 4));
    assert_eq!(a.get_row(1), Vector3::new(2, 4, 6));
    assert_eq!(a[2], Vector2::new(5, 6));
    assert_eq!(a[2][1], 6);
    a.swap_columns(0, 2);
    assert_eq!(a, Matrix2x3::new(5, 6, 3, 4, 1, 2));
    a.swap_rows(0, 1);
    assert_eq!(a, Matrix2x3::new(6, 5, 4, 3, 2, 1));
    a.swap((0, 0), (2, 1));
    assert_eq!(a, Matrix2x3::new(1, 5, 4, 3, 2, 6));
    a.set_row(0, Vector3::new(7, 8, 9));
    assert_eq!(a, Matrix2x3::new(7, 5, 8, 3, 9, 6));
    assert_eq!(Matrix2x3::<i32>::shape(), (2, 3));
    assert_eq!(Matrix2x3::<i32>::len(), 6);
    assert!(Matrix2x3::<i32>::zero().is_zero());
    assert!(Matrix3x3::<i32>::identity().is_identity());
    assert_eq!(-Matrix2x2::new(1_i32, -2, 3, -4), Matrix2x2::new(-1, 2, -3, 4));
    assert_eq!(Matrix2x2::new(7_i32, 8, 9, 10) / 2, Matrix2x2::new(3, 4, 4, 5));
    assert_eq!(Matrix2x2::new(7_i32, 8, 9, 10) % 4, Matrix2x2::new(3, 0, 1, 2));
}

// ---------------------------------------------------------------- affine constructors

#[test]
fn reflection_through_the_axes_of_the_plane() {
    let normal = Unit::from_value_unchecked(Vector2::new(0_i32, 1));
    assert_eq!(Matrix2x2::from_reflection(&normal), Matrix2x2::new(1, 0, 0, -1));
    let opposite = Unit::from_value_unchecked(Vector2::new(0_i32, -1));
    assert_eq!(Matrix2x2::from_reflection(&opposite), Matrix2x2::new(1, 0, 0, -1));
    let normal = Unit::from_value_unchecked(Vector2::new(1_i32, 0));
    assert_eq!(Matrix2x2::from_reflection(&normal), Matrix2x2::new(-1, 0, 0, 1));
    let normal = Unit::from_value(Vector2::new(F64(3.0), F64(4.0)));
    let opposite = Unit::from_value(Vector2::new(F64(-3.0), F64(-4.0)));
    assert_eq!(Matrix2x2::from_reflection(&normal), Matrix2x2::from_reflection(&opposite));
    let normal = Unit::from_value(Vector3::new(F64(1.0), F64(2.0), F64(2.0)));
    let opposite = Unit::from_value(Vector3::new(F64(-1.0), F64(-2.0), F64(-2.0)));
    assert_eq!(Matrix3x3::from_reflection(&normal), Matrix3x3::from_reflection(&opposite));
}

#[test]
fn affine_reflection_through_a_line_off_the_origin() {
    // The line y = 2: its normal is the y-axis, and it passes through (0, 2).
    let normal = Unit::from_value_unchecked(Vector2::new(0_i32, 1));
    let bias = Point2::new(0_i32, 2);
    let matrix = Matrix3x3::from_affine_reflection(&normal, &bias);
    assert_eq!(matrix, Matrix3x3::new(1, 0, 0, 0, -1, 0, 0, 4, 1));
    assert_eq!(matrix * Vector3::new(5, 3, 1), Vector3::new(5, 1, 1));
    let reflection = Reflection2::from_normal_bias(&normal, &Vector2::new(0_i32, 2));
    assert_eq!(reflection.reflect_point(&Point2::new(5, 3)), Point2::new(5, 1));
    assert_eq!(reflection.reflect_vector(&Vector2::new(5, 3)), Vector2::new(5, -3));
    assert_eq!(reflection.normal(), Vector2::new(0, 1));
    assert_eq!(reflection.bias(), Vector2::new(0, 2));
    assert_eq!(*reflection.matrix(), matrix);
    assert_eq!(reflection.to_transform().to_matrix(), matrix);
    assert_eq!(Matrix3x3::from(reflection), matrix);
    assert_eq!(*Reflection2::<i32>::identity().matrix(), Matrix3x3::identity());
    // The plane z = 1 in space.
    let normal = Unit::from_value_unchecked(Vector3::new(0_i32, 0, 1));
    let reflection = Reflection3::from_normal_bias(&normal, &Vector3::new(0_i32, 0, 1));
    assert_eq!(reflection.reflect_point(&Point3::new(1, 2, 3)), Point3::new(1, 2, -1));
    assert_eq!(reflection.reflect_vector(&Vector3::new(1, 2, 3)), Vector3::new(1, 2, -3));
}

#[test]
fn translation_displaces_points_and_leaves_vectors() {
    let matrix = Matrix3x3::from_affine_translation(&Vector2::new(3_i32, 7));
    assert_eq!(matrix * Vector3::new(0, 0, 1), Vector3::new(3, 7, 1));
    assert_eq!(matrix * Vector3::new(0, 0, 0), Vector3::new(0, 0, 0));
    assert_eq!(matrix * Vector3::new(2, 5, 0), Vector3::new(2, 5, 0));
    let matrix = Matrix4x4::from_affine_translation(&Vector3::new(3_i32, 7, 11));
    assert_eq!(matrix * Vector4::new(1, 1, 1, 1), Vector4::new(4, 8, 12, 1));
    assert_eq!(matrix * Vector4::new(1, 1, 1, 0), Vector4::new(1, 1, 1, 0));
}

#[test]
fn orthographic_projection_of_a_box() {
    let result = Matrix4x4::from_orthographic(F64(-4.0), F64(4.0), F64(-2.0), F64(2.0), F64(1.0), F64(100.0));
    let expected = Matrix4x4::new(
        F64(1.0 / 4.0), F64(0.0), F64(0.0), F64(0.0),
        F64(0.0), F64(1.0 / 2.0), F64(0.0), F64(0.0),
        F64(0.0), F64(0.0), F64(-2.0 / 99.0), F64(0.0),
        F64(0.0), F64(0.0), F64(-101.0 / 99.0), F64(1.0),
    );
    assert_eq!(result, expected);
    let spec = OrthographicSpec::new(F64(-4.0), F64(4.0), F64(-2.0), F64(2.0), F64(1.0), F64(100.0));
    assert_eq!(glm::ortho(spec), expected);
    // The near plane goes to -1 and the far plane to 1.
    assert!((result * Vector4::new(F64(0.0), F64(0.0), F64(-1.0), F64(1.0))).z.approx_eq(&F64(-1.0), 1e-12));
    assert!((result * Vector4::new(F64(0.0), F64(0.0), F64(-100.0), F64(1.0))).z.approx_eq(&F64(1.0), 1e-12));
}

#[test]
fn perspective_projections() {
    let spec = PerspectiveSpec::new(F64(-4.0), F64(4.0), F64(-2.0), F64(3.0), F64(1.0), F64(100.0));
    let expected = Matrix4x4::new(
        F64(1.0 / 4.0), F64(0.0), F64(0.0), F64(0.0),
        F64(0.0), F64(2.0 / 5.0), F64(0.0), F64(0.0),
        F64(0.0), F64(1.0 / 5.0), F64(-101.0 / 99.0), F64(-1.0),
        F64(0.0), F64(0.0), F64(-200.0 / 99.0), F64(0.0),
    );
    assert_eq!(glm::frustum(spec), expected);
    let fovy = Radians(F64(core::f64::consts::FRAC_PI_2));
    let result = glm::perspective(fovy, F64(2.0), F64(1.0), F64(3.0));
    let range = (core::f64::consts::FRAC_PI_2 / 2.0).tan() * 1.0;
    assert_eq!(result.c0.x, F64(2.0 / (range * 2.0 + range * 2.0)));
    assert_eq!(result.c1.y, F64(1.0 / range));
    assert_eq!(result.c2.z, F64(4.0 / -2.0));
    assert_eq!(result.c2.w, F64(-1.0));
    assert_eq!(result.c3.z, F64(6.0 / -2.0));
    assert_eq!(PerspectiveFovSpec::new(fovy, F64(2.0), F64(1.0), F64(3.0)).to_matrix(), result);
}

#[test]
fn shear_along_an_axis_is_the_general_shear_of_that_axis() {
    let x = Unit::from_value_unchecked(Vector2::<i32>::unit_x());
    let y = Unit::from_value_unchecked(Vector2::<i32>::unit_y());
    assert_eq!(Matrix2x2::from_shear(7, &x, &y), Matrix2x2::from_shear_x(7));
    assert_eq!(Matrix2x2::from_shear(7, &y, &x), Matrix2x2::from_shear_y(7));
    assert_eq!(Matrix2x2::from_shear_x(7), Matrix2x2::new(1, 0, 7, 1));
    let x = Unit::from_value_unchecked(Vector3::<i32>::unit_x());
    let z = Unit::from_value_unchecked(Vector3::<i32>::unit_z());
    assert_eq!(Matrix3x3::from_shear(5, &x, &z), Matrix3x3::from_shear_x(0, 5));
    assert_eq!(Matrix3x3::from_shear_factors(1, 2, 3, 4, 5, 6), Matrix3x3::new(1, 3, 5, 1, 1, 6, 2, 4, 1));
    // A shear of space from the plane z = 2 along the x-axis.
    let origin = Point3::new(0_i32, 0, 2);
    let matrix = Matrix4x4::from_affine_shear(3, &origin, &x, &z);
    assert_eq!(matrix * Vector4::new(1, 1, 2, 1), Vector4::new(1, 1, 2, 1));
    assert_eq!(matrix * Vector4::new(1, 1, 4, 1), Vector4::new(7, 1, 4, 1));
}

#[test]
fn rotations_by_cosine_and_sine() {
    let quarter = Matrix2x2::from_cos_sin(0_i32, 1);
    assert_eq!(quarter, Matrix2x2::new(0, 1, -1, 0));
    assert_eq!(quarter * Vector2::new(1, 0), Vector2::new(0, 1));
    let x = Unit::from_value_unchecked(Vector2::<i32>::unit_x());
    let y = Unit::from_value_unchecked(Vector2::<i32>::unit_y());
    assert_eq!(Matrix2x2::rotation_between_axis(&x, &y), quarter);
    assert_eq!(Matrix2x2::rotation_between_axis(&y, &x), Matrix2x2::new(0, -1, 1, 0));
    assert_eq!(Matrix3x3::from_cos_sin_x(0_i32, 1) * Vector3::new(0, 1, 0), Vector3::new(0, 0, 1));
    assert_eq!(Matrix3x3::from_cos_sin_y(0_i32, 1) * Vector3::new(0, 0, 1), Vector3::new(1, 0, 0));
    assert_eq!(Matrix3x3::from_cos_sin_z(0_i32, 1) * Vector3::new(1, 0, 0), Vector3::new(0, 1, 0));
    let z = Unit::from_value_unchecked(Vector3::<i32>::unit_z());
    assert_eq!(Matrix3x3::from_axis_cos_sin(&z, 0, 1), Matrix3x3::from_cos_sin_z(0, 1));
    assert_eq!(Matrix4x4::from_affine_axis_cos_sin(&z, 0, 1), Matrix4x4::from_affine_cos_sin_z(0, 1));
    let zero_vector = Vector2::new(F64(0.0), F64(0.0));
    let unit_x = Vector2::new(F64(1.0), F64(0.0));
    assert_eq!(Matrix2x2::rotation_between(&zero_vector, &unit_x), Matrix2x2::identity());
}

#[test]
fn rotation_between_opposite_vectors_of_space_is_absent() {
    let x = Vector3::new(F64(1.0), F64(0.0), F64(0.0));
    let minus_x = Vector3::new(F64(-2.0), F64(0.0), F64(0.0));
    assert!(Matrix3x3::rotation_between(&x, &minus_x).is_none());
    let twice_x = Vector3::new(F64(2.0), F64(0.0), F64(0.0));
    assert_eq!(Matrix3x3::rotation_between(&x, &twice_x), Some(Matrix3x3::identity()));
    let zero_vector = Vector3::new(F64(0.0), F64(0.0), F64(0.0));
    assert_eq!(Matrix3x3::rotation_between(&x, &zero_vector), Some(Matrix3x3::identity()));
}

#[test]
fn look_to_of_the_two_hands_differ_in_the_forward_axis() {
    let eye = Point3::new(F64(1.0), F64(2.0), F64(3.0));
    let direction = Vector3::new(F64(0.0), F64(0.0), F64(2.0));
    let opposite = Vector3::new(F64(0.0), F64(0.0), F64(-2.0));
    let up = Vector3::new(F64(0.0), F64(1.0), F64(0.0));
    let lh = Matrix4x4::look_to_lh(&eye, &direction, &up);
    let rh = Matrix4x4::look_to_rh(&eye, &opposite, &up);
    assert!(lh.approx_eq(&rh, 1e-12));
    let expected = Matrix4x4::new(
        F64(1.0), F64(0.0), F64(0.0), F64(0.0),
        F64(0.0), F64(1.0), F64(0.0), F64(0.0),
        F64(0.0), F64(0.0), F64(1.0), F64(0.0),
        F64(-1.0), F64(-2.0), F64(-3.0), F64(1.0),
    );
    assert!(lh.approx_eq(&expected, 1e-12));
    let target = Point3::new(F64(1.0), F64(2.0), F64(5.0));
    assert_eq!(Matrix4x4::look_at_lh(&eye, &target, &up), lh);
}

// ---------------------------------------------------------------- translations

#[test]
fn translation_between_vectors_and_points() {
    let vector1 = Vector2::new(F64(1.0), F64(2.0));
    let vector2 = Vector2::new(F64(3.0), F64(4.0));
    let translation = Translation2::between_vectors(&vector1, &vector2);
    let point = Point2::new(F64(0.0), F64(0.0));
    assert_eq!(translation.translate_point(&point), Point2::new(F64(2.0), F64(2.0)));
    let point1 = Point3::new(1_i32, 2, 3);
    let point2 = Point3::new(3_i32, 4, 8);
    let translation = Translation3::between_points(&point1, &point2);
    assert_eq!(translation.translate_point(&Point3::origin()), Point3::new(2, 2, 5));
    assert_eq!(translation.to_vector(), Vector3::new(2, 2, 5));
}

#[test]
fn translation_inverse_and_identity() {
    let distance = Vector2::new(1_i32, 2);
    let translation = Translation2::from_vector(&distance);
    assert_eq!(translation.inverse(), Translation2::from_vector(&-distance));
    let mut result = Translation2::new(1_i32, 2);
    result.inverse_mut();
    assert_eq!(result, Translation2::new(-1, -2));
    let translation = Translation2::from_vector(&Vector2::new(13_i32, 30));
    let point = Point2::new(1_i32, 2);
    assert_eq!(translation.inverse_translate_point(&point), translation.inverse().translate_point(&point));
    assert_eq!(translation.inverse_translate_point(&point), Point2::new(-12, -28));
    assert_eq!(translation.translate_vector(&Vector2::new(1, 2)), Vector2::new(1, 2));
    assert_eq!(translation.inverse_translate_vector(&Vector2::new(1, 2)), Vector2::new(1, 2));
    assert_eq!(Translation2::<i32>::identity().translate_point(&point), point);
    assert_eq!(Translation3::<i32>::identity().to_vector(), Vector3::zero());
    assert_eq!(translation * point, Point2::new(14, 32));
    assert_eq!(translation * Translation2::new(1, 1), Translation2::new(14, 31));
}

#[test]
fn translation_as_matrix_and_transform() {
    let translation = Translation2::new(4_i32, 8);
    let matrix = Matrix3x3::from(translation);
    assert_eq!(matrix, Matrix3x3::new(1, 0, 0, 0, 1, 0, 4, 8, 1));
    let transform = translation.to_transform();
    assert_eq!(transform.to_matrix(), matrix);
    assert_eq!(transform.transform_point(&Point2::new(1, 1)), Point2::new(5, 9));
    assert_eq!(transform.transform_vector(&Vector2::new(1, 1)), Vector2::new(1, 1));
    let translation = Translation3::new(4_i32, 8, 12);
    assert_eq!(Matrix4x4::from(translation), Matrix4x4::from_affine_translation(&Vector3::new(4, 8, 12)));
    assert_eq!(translation.to_transform().transform_point(&Point3::new(1, 1, 1)), Point3::new(5, 9, 13));
    assert_eq!(Transform3::<i32>::identity().to_matrix(), Matrix4x4::identity());
}

// ---------------------------------------------------------------- isometries

#[test]
fn isometry_turns_then_displaces() {
    let rotation = Rotation2::from_cos_sin(0_i32, 1);
    let translation = Translation2::new(10_i32, 20);
    let isometry = Isometry2::from_parts(translation, rotation);
    assert_eq!(isometry.transform_point(&Point2::new(1, 0)), Point2::new(10, 21));
    assert_eq!(isometry.transform_vector(&Vector2::new(1, 0)), Vector2::new(0, 1));
    assert_eq!(isometry.to_affine_matrix(), Matrix3x3::new(0, 1, 0, -1, 0, 0, 10, 20, 1));
    assert_eq!(isometry.to_transform2d().to_matrix(), isometry.to_affine_matrix());
    assert_eq!(*isometry.rotation(), rotation);
    assert_eq!(*isometry.translation(), translation);
    let inverse = isometry.inverse();
    assert_eq!(*inverse.rotation(), rotation.inverse());
    assert_eq!(*inverse.translation(), Translation2::new(-10, -20));
    assert_eq!(isometry.inverse_transform_vector(&Vector2::new(0, 1)), Vector2::new(1, 0));
    assert_eq!(isometry.inverse_transform_point(&Point2::new(0, 1)), Point2::new(-9, -20));
    assert_eq!(Isometry2::from_translation(translation).transform_point(&Point2::new(1, 0)), Point2::new(11, 20));
    assert_eq!(Isometry2::from_rotation(rotation).transform_point(&Point2::new(1, 0)), Point2::new(0, 1));
    assert_eq!(Isometry2::<i32>::identity().to_affine_matrix(), Matrix3x3::identity());
    let quarter = Isometry2::from_angle(Radians(F64(core::f64::consts::FRAC_PI_2)));
    assert!(quarter.transform_vector(&Vector2::new(F64(1.0), F64(0.0))).approx_eq(&Vector2::new(F64(0.0), F64(1.0)), 1e-12));
}

// ---------------------------------------------------------------- short names

#[test]
fn short_names_build_the_same_values() {
    assert_eq!(glm::vec1(1_i32), Vector1::new(1));
    assert_eq!(glm::vec2(1_i32, 2), Vector2::new(1, 2));
    assert_eq!(glm::vec3(1_i32, 2, 3), Vector3::new(1, 2, 3));
    assert_eq!(glm::vec4(1_i32, 2, 3, 4), Vector4::new(1, 2, 3, 4));
    assert_eq!(glm::quat(1_i32, 2, 3, 4), Quaternion::from_parts(1, Vector3::new(2, 3, 4)));
    assert_eq!(glm::mat2(1_i32, 2, 3, 4), Matrix2x2::new(1, 2, 3, 4));
    assert_eq!(glm::mat3(1_i32, 2, 3, 4, 5, 6, 7, 8, 9), Matrix3x3::new(1, 2, 3, 4, 5, 6, 7, 8, 9));
    assert_eq!(
        glm::mat4(1_i32, 2, 3, 4, 5, 6, 7, 8, 9, 10, 11, 12, 13, 14, 15, 16),
        Matrix4x4::new(1, 2, 3, 4, 5, 6, 7, 8, 9, 10, 11, 12, 13, 14, 15, 16)
    );
}

// ---------------------------------------------------------------- inverse and transpose

#[test]
fn inverse_of_an_integer_matrix_of_determinant_one() {
    let a = Matrix3x3::new(1_i32, 0, 0, 1, 1, 0, 0, 1, 1);
    assert_eq!(a.determinant(), 1);
    let inverse = a.inverse().unwrap();
    assert_eq!(inverse, Matrix3x3::new(1, 0, 0, -1, 1, 0, 1, -1, 1));
    assert_eq!(a * inverse, Matrix3x3::identity());
    assert_eq!(inverse * a, Matrix3x3::identity());
    let b = Matrix2x2::new(0_i32, 1, 1, 0);
    assert_eq!(b.determinant(), -1);
    assert_eq!(b.inverse(), Some(b));
    assert_eq!(b * b.inverse().unwrap(), Matrix2x2::identity());
}

#[test]
fn inverse_of_the_transpose_is_the_transpose_of_the_inverse() {
    let a = Matrix3x3::new(1_i32, 0, 0, 1, 1, 0, 0, 1, 1);
    assert_eq!(a.transpose().determinant(), a.determinant());
    assert_eq!(a.transpose().adjugate(), a.adjugate().transpose());
    assert_eq!(a.transpose().inverse(), Some(a.inverse().unwrap().transpose()));
    let b = Matrix4x4::new(1_i32, 2, 0, 1, 0, 1, 3, 2, 2, 0, 1, 1, 1, 1, 0, 2);
    assert_eq!(b.transpose().determinant(), 18);
    assert_eq!(b.transpose().adjugate(), b.adjugate().transpose());
    let singular = Matrix2x2::new(1_i32, 2, 2, 4);
    assert_eq!(singular.transpose().inverse(), None);
    assert_eq!(singular.inverse(), None);
}
