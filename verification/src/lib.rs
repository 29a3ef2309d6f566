//! Vectors and matrices of fixed size, from one to four components a side,
//! and the affine transformations of the plane and of space built on them:
//! scales, shears, reflections, rotations, translations, views and
//! projections.
//!
//! Everything is generic over a scalar (`scalar`). Each operation states
//! when it is defined and names its result entry by entry, so that the
//! contract of a function is its formula. The fixed-width integers are
//! scalars (`integer`); a floating-point type becomes one by implementing
//! the scalar traits. The modules whose names begin with `laws` hold what is
//! proved of every integer scalar: the laws of the matrix product, of the
//! transpose, of the determinant, of the adjugate, of the inverse and of the
//! affine constructors.
//!
//! A matrix is stored column by column. `Matrix2x3` has two rows and three
//! columns; its field `c1` is its second column, and `matrix[c][r]` is the
//! entry in column `c` and row `r`.

pub mod adjugate_value;
pub mod angle;
pub mod determinant;
pub mod determinant_value;
pub mod exact;
pub mod glm;
pub mod integer;
pub mod isometry;
pub mod laws_adjugate;
pub mod laws_affine;
pub mod laws_determinant;
pub mod laws_inverse;
pub mod laws_product;
pub mod laws_transpose;
pub mod matrix1x2;
pub mod matrix1x3;
pub mod matrix1x4;
pub mod matrix2x2;
pub mod matrix2x3;
pub mod matrix2x4;
pub mod matrix3x2;
pub mod matrix3x3;
pub mod matrix3x4;
pub mod matrix4x2;
pub mod matrix4x3;
pub mod matrix4x4;
pub mod point;
pub mod projection;
pub mod quaternion;
pub mod reflection;
pub mod rotation;
pub mod scalar;
pub mod scalar_times_matrix;
pub mod scalar_times_vector;
pub mod transform;
pub mod translation;
pub mod transpose_value;
pub mod unit;
pub mod vector;

pub use crate::angle::Radians;
pub use crate::isometry::Isometry2;
pub use crate::matrix1x2::Matrix1x2;
pub use crate::matrix1x3::Matrix1x3;
pub use crate::matrix1x4::Matrix1x4;
pub use crate::matrix2x2::Matrix2x2;
pub use crate::matrix2x3::Matrix2x3;
pub use crate::matrix2x4::Matrix2x4;
pub use crate::matrix3x2::Matrix3x2;
pub use crate::matrix3x3::Matrix3x3;
pub use crate::matrix3x4::Matrix3x4;
pub use crate::matrix4x2::Matrix4x2;
pub use crate::matrix4x3::Matrix4x3;
pub use crate::matrix4x4::Matrix4x4;
pub use crate::point::{Point2, Point3};
pub use crate::projection::{OrthographicSpec, PerspectiveFovSpec, PerspectiveSpec};
pub use crate::quaternion::Quaternion;
pub use crate::reflection::{Reflection2, Reflection3};
pub use crate::rotation::Rotation2;
pub use crate::scalar::{ExactScalar, ExactSigned, Scalar, ScalarFloat, ScalarSigned};
pub use crate::transform::{Transform2, Transform3};
pub use crate::translation::{Translation2, Translation3};
pub use crate::unit::{Normed, Unit};
pub use crate::vector::{DotProduct, Vector1, Vector2, Vector3, Vector4};
