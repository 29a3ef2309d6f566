//! Determinants of two-by-two and three-by-three arrays of scalars, the
//! building blocks of the determinants, adjugates and inverses of matrices.
//!
//! The arguments are the entries column by column: `m01` is the entry in
//! column 0 and row 1.

use vstd::prelude::*;
use crate::scalar::Scalar;

verus! {

/// True when `a * d - b * c` is defined.
pub open spec fn can_det2<S: Scalar>(a: S, b: S, c: S, d: S) -> bool {
    &&& a.can_mul(d)
    &&& b.can_mul(c)
    &&& a.times(d).can_sub(b.times(c))
}

/// The determinant `a * d - b * c` of the matrix with the columns `(a, b)` and `(c, d)`.
pub open spec fn det2<S: Scalar>(a: S, b: S, c: S, d: S) -> S {
    a.times(d).minus(b.times(c))
}

/// Computes `det2`.
pub fn det2_of<S: Scalar>(a: S, b: S, c: S, d: S) -> (r: S)
    requires
        can_det2(a, b, c, d),
    ensures
        r == det2(a, b, c, d),
{
    a.mul(d).sub(b.mul(c))
}

/// True when the expansion of `det3` is defined.
pub open spec fn can_det3<S: Scalar>(
    m00: S,
    m01: S,
    m02: S,
    m10: S,
    m11: S,
    m12: S,
    m20: S,
    m21: S,
    m22: S,
) -> bool {
    &&& can_det2(m11, m12, m21, m22)
    &&& m00.can_mul(det2(m11, m12, m21, m22))
    &&& can_det2(m01, m02, m21, m22)
    &&& m10.can_mul(det2(m01, m02, m21, m22))
    &&& m00.times(det2(m11, m12, m21, m22)).can_sub(m10.times(det2(m01, m02, m21, m22)))
    &&& can_det2(m01, m02, m11, m12)
    &&& m20.can_mul(det2(m01, m02, m11, m12))
    &&& m00.times(det2(m11, m12, m21, m22)).minus(m10.times(det2(m01, m02, m21, m22)))
        .can_add(m20.times(det2(m01, m02, m11, m12)))
}

/// The determinant of a three-by-three matrix, expanded along its first row:
/// each entry of the row times the determinant of the matrix without its
/// column and the first row, with alternating sign.
pub open spec fn det3<S: Scalar>(
    m00: S,
    m01: S,
    m02: S,
    m10: S,
    m11: S,
    m12: S,
    m20: S,
    m21: S,
    m22: S,
) -> S {
    m00.times(det2(m11, m12, m21, m22)).minus(m10.times(det2(m01, m02, m21, m22))).plus(m20
        .times(det2(m01, m02, m11, m12)))
}

/// Computes `det3`.
pub fn det3_of<S: Scalar>(
    m00: S,
    m01: S,
    m02: S,
    m10: S,
    m11: S,
    m12: S,
    m20: S,
    m21: S,
    m22: S,
) -> (r: S)
    requires
        can_det3(m00, m01, m02, m10, m11, m12, m20, m21, m22),
    ensures
        r == det3(m00, m01, m02, m10, m11, m12, m20, m21, m22),
{
    m00.mul(det2_of(m11, m12, m21, m22)).sub(m10.mul(det2_of(m01, m02, m21, m22))).add(m20
        .mul(det2_of(m01, m02, m11, m12)))
}

} // verus!
