//! Matrices of four rows and four columns, stored column by column.

use vstd::prelude::*;
use crate::angle::Radians;
use crate::determinant::{can_det3, det3, det3_of};
use crate::matrix3x3::Matrix3x3;
use crate::matrix4x2::Matrix4x2;
use crate::matrix4x3::Matrix4x3;
use crate::point::Point3;
use crate::scalar::{Scalar, ScalarFloat, ScalarSigned};
use crate::unit::Unit;
use crate::vector::{Vector3, Vector4};

verus! {

/// A matrix of four rows and four columns. The field `c0` is the first column; the
/// entry in column `c` and row `r` is the component `r` of column `c`.
#[derive(Clone, Copy, Debug, PartialEq, Eq, Hash)]
pub struct Matrix4x4<S> {
    pub c0: Vector4<S>,
    pub c1: Vector4<S>,
    pub c2: Vector4<S>,
    pub c3: Vector4<S>,
}

impl<S: Scalar> Matrix4x4<S> {
    /// The column at index `c`, counted from zero.
    pub open spec fn column(self, c: int) -> Vector4<S> {
        if c == 0 {
            self.c0
        } else if c == 1 {
            self.c1
        } else if c == 2 {
            self.c2
        } else {
            self.c3
        }
    }

    /// The row at index `r`, counted from zero.
    pub open spec fn row(self, r: int) -> Vector4<S> {
        if r == 0 {
            Vector4 { x: self.c0.x, y: self.c1.x, z: self.c2.x, w: self.c3.x }
        } else if r == 1 {
            Vector4 { x: self.c0.y, y: self.c1.y, z: self.c2.y, w: self.c3.y }
        } else if r == 2 {
            Vector4 { x: self.c0.z, y: self.c1.z, z: self.c2.z, w: self.c3.z }
        } else {
            Vector4 { x: self.c0.w, y: self.c1.w, z: self.c2.w, w: self.c3.w }
        }
    }

    /// The entry in column `c` and row `r`.
    pub open spec fn at(self, c: int, r: int) -> S {
        self.column(c).at(r)
    }

    /// The matrix with `v` as column `c` and the other columns of `self`.
    pub open spec fn with_column(self, c: int, v: Vector4<S>) -> Matrix4x4<S> {
        Matrix4x4 {
            c0: if c == 0 { v } else { self.c0 },
            c1: if c == 1 { v } else { self.c1 },
            c2: if c == 2 { v } else { self.c2 },
            c3: if c == 3 { v } else { self.c3 },
        }
    }

    /// The matrix with `v` as row `r` and the other rows of `self`.
    pub open spec fn with_row(self, r: int, v: Vector4<S>) -> Matrix4x4<S> {
        Matrix4x4 {
            c0: self.c0.with(r, v.x),
            c1: self.c1.with(r, v.y),
            c2: self.c2.with(r, v.z),
            c3: self.c3.with(r, v.w),
        }
    }

    /// The matrix with `value` in column `c` and row `r` and the other entries of `self`.
    pub open spec fn with_at(self, c: int, r: int, value: S) -> Matrix4x4<S> {
        self.with_column(c, self.column(c).with(r, value))
    }

    /// The matrix whose entries are all zero.
    pub open spec fn zero_spec() -> Matrix4x4<S> {
        Matrix4x4 {
            c0: Vector4 {
                x: S::zero_spec(),
                y: S::zero_spec(),
                z: S::zero_spec(),
                w: S::zero_spec(),
            },
            c1: Vector4 {
                x: S::zero_spec(),
                y: S::zero_spec(),
                z: S::zero_spec(),
                w: S::zero_spec(),
            },
            c2: Vector4 {
                x: S::zero_spec(),
                y: S::zero_spec(),
                z: S::zero_spec(),
                w: S::zero_spec(),
            },
            c3: Vector4 {
                x: S::zero_spec(),
                y: S::zero_spec(),
                z: S::zero_spec(),
                w: S::zero_spec(),
            },
        }
    }

    /// The identity matrix: one on the diagonal, zero elsewhere.
    pub open spec fn identity_spec() -> Matrix4x4<S> {
        Matrix4x4 {
            c0: Vector4 {
                x: S::one_spec(),
                y: S::zero_spec(),
                z: S::zero_spec(),
                w: S::zero_spec(),
            },
            c1: Vector4 {
                x: S::zero_spec(),
                y: S::one_spec(),
                z: S::zero_spec(),
                w: S::zero_spec(),
            },
            c2: Vector4 {
                x: S::zero_spec(),
                y: S::zero_spec(),
                z: S::one_spec(),
                w: S::zero_spec(),
            },
            c3: Vector4 {
                x: S::zero_spec(),
                y: S::zero_spec(),
                z: S::zero_spec(),
                w: S::one_spec(),
            },
        }
    }

    /// The transpose: the entry in column `c` and row `r` of the result is the
    /// entry in column `r` and row `c` of `self`.
    pub open spec fn transposed(self) -> Matrix4x4<S> {
        Matrix4x4 {
            c0: Vector4 { x: self.c0.x, y: self.c1.x, z: self.c2.x, w: self.c3.x },
            c1: Vector4 { x: self.c0.y, y: self.c1.y, z: self.c2.y, w: self.c3.y },
            c2: Vector4 { x: self.c0.z, y: self.c1.z, z: self.c2.z, w: self.c3.z },
            c3: Vector4 { x: self.c0.w, y: self.c1.w, z: self.c2.w, w: self.c3.w },
        }
    }

    /// True when every entry of `self` can be added to that of `other`.
    pub open spec fn can_add(self, other: Matrix4x4<S>) -> bool {
        &&& self.c0.can_add(other.c0)
        &&& self.c1.can_add(other.c1)
        &&& self.c2.can_add(other.c2)
        &&& self.c3.can_add(other.c3)
    }

    /// The entry-wise sum.
    pub open spec fn plus(self, other: Matrix4x4<S>) -> Matrix4x4<S> {
        Matrix4x4 {
            c0: self.c0.plus(other.c0),
            c1: self.c1.plus(other.c1),
            c2: self.c2.plus(other.c2),
            c3: self.c3.plus(other.c3),
        }
    }

    /// True when every entry of `other` can be subtracted from that of `self`.
    pub open spec fn can_sub(self, other: Matrix4x4<S>) -> bool {
        &&& self.c0.can_sub(other.c0)
        &&& self.c1.can_sub(other.c1)
        &&& self.c2.can_sub(other.c2)
        &&& self.c3.can_sub(other.c3)
    }

    /// The entry-wise difference.
    pub open spec fn minus(self, other: Matrix4x4<S>) -> Matrix4x4<S> {
        Matrix4x4 {
            c0: self.c0.minus(other.c0),
            c1: self.c1.minus(other.c1),
            c2: self.c2.minus(other.c2),
            c3: self.c3.minus(other.c3),
        }
    }

    /// True when every entry can be multiplied by `c` on the right.
    pub open spec fn can_scale(self, c: S) -> bool {
        &&& self.c0.can_scale(c)
        &&& self.c1.can_scale(c)
        &&& self.c2.can_scale(c)
        &&& self.c3.can_scale(c)
    }

    /// Every entry multiplied by `c` on the right.
    pub open spec fn scaled(self, c: S) -> Matrix4x4<S> {
        Matrix4x4 {
            c0: self.c0.scaled(c),
            c1: self.c1.scaled(c),
            c2: self.c2.scaled(c),
            c3: self.c3.scaled(c),
        }
    }

    /// True when every entry can be multiplied by `c` on the left.
    pub open spec fn can_scale_left(self, c: S) -> bool {
        &&& self.c0.can_scale_left(c)
        &&& self.c1.can_scale_left(c)
        &&& self.c2.can_scale_left(c)
        &&& self.c3.can_scale_left(c)
    }

    /// Every entry multiplied by `c` on the left.
    pub open spec fn scaled_left(self, c: S) -> Matrix4x4<S> {
        Matrix4x4 {
            c0: self.c0.scaled_left(c),
            c1: self.c1.scaled_left(c),
            c2: self.c2.scaled_left(c),
            c3: self.c3.scaled_left(c),
        }
    }

    /// True when every entry can be divided by `c`.
    pub open spec fn can_div(self, c: S) -> bool {
        &&& self.c0.can_div(c)
        &&& self.c1.can_div(c)
        &&& self.c2.can_div(c)
        &&& self.c3.can_div(c)
    }

    /// Every entry divided by `c`.
    pub open spec fn over(self, c: S) -> Matrix4x4<S> {
        Matrix4x4 {
            c0: self.c0.over(c),
            c1: self.c1.over(c),
            c2: self.c2.over(c),
            c3: self.c3.over(c),
        }
    }

    /// True when the remainder of every entry by `c` is defined.
    pub open spec fn can_rem(self, c: S) -> bool {
        &&& self.c0.can_rem(c)
        &&& self.c1.can_rem(c)
        &&& self.c2.can_rem(c)
        &&& self.c3.can_rem(c)
    }

    /// The remainder of every entry by `c`.
    pub open spec fn modulo(self, c: S) -> Matrix4x4<S> {
        Matrix4x4 {
            c0: self.c0.modulo(c),
            c1: self.c1.modulo(c),
            c2: self.c2.modulo(c),
            c3: self.c3.modulo(c),
        }
    }

    /// True when every entry of the product with the vector `v` is defined.
    pub open spec fn can_mul_vector(self, v: Vector4<S>) -> bool {
        &&& self.row(0).can_dot_with(v)
        &&& self.row(1).can_dot_with(v)
        &&& self.row(2).can_dot_with(v)
        &&& self.row(3).can_dot_with(v)
    }

    /// The product of the matrix with the column vector `v`: component `r` is
    /// the dot product of row `r` with `v`.
    pub open spec fn times_vector(self, v: Vector4<S>) -> Vector4<S> {
        Vector4 { x: self.row(0).dot_with(v), y: self.row(1).dot_with(v),
            z: self.row(2).dot_with(v), w: self.row(3).dot_with(v) }
    }

    /// True when every entry of the product with `other` is defined.
    pub open spec fn can_mul_4x2(self, other: Matrix4x2<S>) -> bool {
        &&& self.row(0).can_dot_with(other.c0)
        &&& self.row(1).can_dot_with(other.c0)
        &&& self.row(2).can_dot_with(other.c0)
        &&& self.row(3).can_dot_with(other.c0)
        &&& self.row(0).can_dot_with(other.c1)
        &&& self.row(1).can_dot_with(other.c1)
        &&& self.row(2).can_dot_with(other.c1)
        &&& self.row(3).can_dot_with(other.c1)
    }

    /// The matrix product `self * other`: the entry in column `c` and row `r`
    /// is the dot product of row `r` of `self` with column `c` of `other`.
    pub open spec fn times_4x2(self, other: Matrix4x2<S>) -> Matrix4x2<S> {
        Matrix4x2 {
            c0: Vector4 {
                x: self.row(0).dot_with(other.c0),
                y: self.row(1).dot_with(other.c0),
                z: self.row(2).dot_with(other.c0),
                w: self.row(3).dot_with(other.c0),
            },
            c1: Vector4 {
                x: self.row(0).dot_with(other.c1),
                y: self.row(1).dot_with(other.c1),
                z: self.row(2).dot_with(other.c1),
                w: self.row(3).dot_with(other.c1),
            },
        }
    }

    /// True when every entry of the product with `other` is defined.
    pub open spec fn can_mul_4x3(self, other: Matrix4x3<S>) -> bool {
        &&& self.row(0).can_dot_with(other.c0)
        &&& self.row(1).can_dot_with(other.c0)
        &&& self.row(2).can_dot_with(other.c0)
        &&& self.row(3).can_dot_with(other.c0)
        &&& self.row(0).can_dot_with(other.c1)
        &&& self.row(1).can_dot_with(other.c1)
        &&& self.row(2).can_dot_with(other.c1)
        &&& self.row(3).can_dot_with(other.c1)
        &&& self.row(0).can_dot_with(other.c2)
        &&& self.row(1).can_dot_with(other.c2)
        &&& self.row(2).can_dot_with(other.c2)
        &&& self.row(3).can_dot_with(other.c2)
    }

    /// The matrix product `self * other`: the entry in column `c` and row `r`
    /// is the dot product of row `r` of `self` with column `c` of `other`.
    pub open spec fn times_4x3(self, other: Matrix4x3<S>) -> Matrix4x3<S> {
        Matrix4x3 {
            c0: Vector4 {
                x: self.row(0).dot_with(other.c0),
                y: self.row(1).dot_with(other.c0),
                z: self.row(2).dot_with(other.c0),
                w: self.row(3).dot_with(other.c0),
            },
            c1: Vector4 {
                x: self.row(0).dot_with(other.c1),
                y: self.row(1).dot_with(other.c1),
                z: self.row(2).dot_with(other.c1),
                w: self.row(3).dot_with(other.c1),
            },
            c2: Vector4 {
                x: self.row(0).dot_with(other.c2),
                y: self.row(1).dot_with(other.c2),
                z: self.row(2).dot_with(other.c2),
                w: self.row(3).dot_with(other.c2),
            },
        }
    }

    /// True when every entry of the product with `other` is defined.
    pub open spec fn can_mul_4x4(self, other: Matrix4x4<S>) -> bool {
        &&& self.row(0).can_dot_with(other.c0)
        &&& self.row(1).can_dot_with(other.c0)
        &&& self.row(2).can_dot_with(other.c0)
        &&& self.row(3).can_dot_with(other.c0)
        &&& self.row(0).can_dot_with(other.c1)
        &&& self.row(1).can_dot_with(other.c1)
        &&& self.row(2).can_dot_with(other.c1)
        &&& self.row(3).can_dot_with(other.c1)
        &&& self.row(0).can_dot_with(other.c2)
        &&& self.row(1).can_dot_with(other.c2)
        &&& self.row(2).can_dot_with(other.c2)
        &&& self.row(3).can_dot_with(other.c2)
        &&& self.row(0).can_dot_with(other.c3)
        &&& self.row(1).can_dot_with(other.c3)
        &&& self.row(2).can_dot_with(other.c3)
        &&& self.row(3).can_dot_with(other.c3)
    }

    /// The matrix product `self * other`: the entry in column `c` and row `r`
    /// is the dot product of row `r` of `self` with column `c` of `other`.
    pub open spec fn times_4x4(self, other: Matrix4x4<S>) -> Matrix4x4<S> {
        Matrix4x4 {
            c0: Vector4 {
                x: self.row(0).dot_with(other.c0),
                y: self.row(1).dot_with(other.c0),
                z: self.row(2).dot_with(other.c0),
                w: self.row(3).dot_with(other.c0),
            },
            c1: Vector4 {
                x: self.row(0).dot_with(other.c1),
                y: self.row(1).dot_with(other.c1),
                z: self.row(2).dot_with(other.c1),
                w: self.row(3).dot_with(other.c1),
            },
            c2: Vector4 {
                x: self.row(0).dot_with(other.c2),
                y: self.row(1).dot_with(other.c2),
                z: self.row(2).dot_with(other.c2),
                w: self.row(3).dot_with(other.c2),
            },
            c3: Vector4 {
                x: self.row(0).dot_with(other.c3),
                y: self.row(1).dot_with(other.c3),
                z: self.row(2).dot_with(other.c3),
                w: self.row(3).dot_with(other.c3),
            },
        }
    }

    /// True when every entry of `self` is the same as zero.
    pub open spec fn is_zero_spec(self) -> bool {
        &&& self.c0.is_zero_spec()
        &&& self.c1.is_zero_spec()
        &&& self.c2.is_zero_spec()
        &&& self.c3.is_zero_spec()
    }

    /// True when `self` is entry by entry the same as the identity.
    pub open spec fn is_identity_spec(self) -> bool {
        &&& self.c0.x.same(S::one_spec())
        &&& self.c0.y.same(S::zero_spec())
        &&& self.c0.z.same(S::zero_spec())
        &&& self.c0.w.same(S::zero_spec())
        &&& self.c1.x.same(S::zero_spec())
        &&& self.c1.y.same(S::one_spec())
        &&& self.c1.z.same(S::zero_spec())
        &&& self.c1.w.same(S::zero_spec())
        &&& self.c2.x.same(S::zero_spec())
        &&& self.c2.y.same(S::zero_spec())
        &&& self.c2.z.same(S::one_spec())
        &&& self.c2.w.same(S::zero_spec())
        &&& self.c3.x.same(S::zero_spec())
        &&& self.c3.y.same(S::zero_spec())
        &&& self.c3.z.same(S::zero_spec())
        &&& self.c3.w.same(S::one_spec())
    }

    /// The sum of the diagonal entries, added from the first on.
    pub open spec fn trace_spec(self) -> S {
        self.c0.x.plus(self.c1.y).plus(self.c2.z).plus(self.c3.w)
    }

    /// True when the trace is defined.
    pub open spec fn can_trace(self) -> bool {
        &&& self.c0.x.can_add(self.c1.y)
        &&& self.c0.x.plus(self.c1.y).can_add(self.c2.z)
        &&& self.c0.x.plus(self.c1.y).plus(self.c2.z).can_add(self.c3.w)
    }

    /// Makes a matrix from its entries, column by column.
    pub fn new(
        c0r0: S,
        c0r1: S,
        c0r2: S,
        c0r3: S,
        c1r0: S,
        c1r1: S,
        c1r2: S,
        c1r3: S,
        c2r0: S,
        c2r1: S,
        c2r2: S,
        c2r3: S,
        c3r0: S,
        c3r1: S,
        c3r2: S,
        c3r3: S,
    ) -> (r: Matrix4x4<S>)
        ensures
            r == (Matrix4x4 {
                c0: Vector4 { x: c0r0, y: c0r1, z: c0r2, w: c0r3 },
                c1: Vector4 { x: c1r0, y: c1r1, z: c1r2, w: c1r3 },
                c2: Vector4 { x: c2r0, y: c2r1, z: c2r2, w: c2r3 },
                c3: Vector4 { x: c3r0, y: c3r1, z: c3r2, w: c3r3 },
            }),
    {
        Matrix4x4 {
            c0: Vector4 { x: c0r0, y: c0r1, z: c0r2, w: c0r3 },
            c1: Vector4 { x: c1r0, y: c1r1, z: c1r2, w: c1r3 },
            c2: Vector4 { x: c2r0, y: c2r1, z: c2r2, w: c2r3 },
            c3: Vector4 { x: c3r0, y: c3r1, z: c3r2, w: c3r3 },
        }
    }

    /// Makes a matrix from its columns.
    pub fn from_columns(columns: &[Vector4<S>; 4]) -> (r: Matrix4x4<S>)
        ensures
            r.column(0) == columns@[0],
            r.column(1) == columns@[1],
            r.column(2) == columns@[2],
            r.column(3) == columns@[3],
    {
        Matrix4x4 { c0: columns[0], c1: columns[1], c2: columns[2], c3: columns[3] }
    }

    /// Makes a matrix from its rows: the entry in column `c` and row `r` is
    /// the component `c` of `rows[r]`.
    pub fn from_rows(rows: &[Vector4<S>; 4]) -> (r: Matrix4x4<S>)
        ensures
            r.row(0) == rows@[0],
            r.row(1) == rows@[1],
            r.row(2) == rows@[2],
            r.row(3) == rows@[3],
    {
        Matrix4x4 {
            c0: Vector4 { x: rows[0].x, y: rows[1].x, z: rows[2].x, w: rows[3].x },
            c1: Vector4 { x: rows[0].y, y: rows[1].y, z: rows[2].y, w: rows[3].y },
            c2: Vector4 { x: rows[0].z, y: rows[1].z, z: rows[2].z, w: rows[3].z },
            c3: Vector4 { x: rows[0].w, y: rows[1].w, z: rows[2].w, w: rows[3].w },
        }
    }

    /// The zero matrix.
    pub fn zero() -> (r: Matrix4x4<S>)
        ensures
            r == Self::zero_spec(),
    {
        Matrix4x4 {
            c0: Vector4 { x: S::zero(), y: S::zero(), z: S::zero(), w: S::zero() },
            c1: Vector4 { x: S::zero(), y: S::zero(), z: S::zero(), w: S::zero() },
            c2: Vector4 { x: S::zero(), y: S::zero(), z: S::zero(), w: S::zero() },
            c3: Vector4 { x: S::zero(), y: S::zero(), z: S::zero(), w: S::zero() },
        }
    }

    /// The identity matrix.
    pub fn identity() -> (r: Matrix4x4<S>)
        ensures
            r == Self::identity_spec(),
    {
        Matrix4x4 {
            c0: Vector4 { x: S::one(), y: S::zero(), z: S::zero(), w: S::zero() },
            c1: Vector4 { x: S::zero(), y: S::one(), z: S::zero(), w: S::zero() },
            c2: Vector4 { x: S::zero(), y: S::zero(), z: S::one(), w: S::zero() },
            c3: Vector4 { x: S::zero(), y: S::zero(), z: S::zero(), w: S::one() },
        }
    }

    /// Tells whether the matrix is the identity.
    pub fn is_identity(&self) -> (r: bool)
        ensures
            r == self.is_identity_spec(),
    {
        self.c0.x.equals(S::one())
            && self.c0.y.equals(S::zero())
            && self.c0.z.equals(S::zero())
            && self.c0.w.equals(S::zero())
            && self.c1.x.equals(S::zero())
            && self.c1.y.equals(S::one())
            && self.c1.z.equals(S::zero())
            && self.c1.w.equals(S::zero())
            && self.c2.x.equals(S::zero())
            && self.c2.y.equals(S::zero())
            && self.c2.z.equals(S::one())
            && self.c2.w.equals(S::zero())
            && self.c3.x.equals(S::zero())
            && self.c3.y.equals(S::zero())
            && self.c3.z.equals(S::zero())
            && self.c3.w.equals(S::one())
    }

    /// The sum of the diagonal entries.
    pub fn trace(&self) -> (r: S)
        requires
            self.can_trace(),
        ensures
            r == self.trace_spec(),
    {
        self.c0.x.add(self.c1.y).add(self.c2.z).add(self.c3.w)
    }

    /// The shape as a pair of the number of rows and the number of columns.
    pub fn shape() -> (r: (usize, usize))
        ensures
            r == (4usize, 4usize),
    {
        (4, 4)
    }

    /// The number of entries.
    pub fn len() -> (r: usize)
        ensures
            r == 16,
    {
        16
    }

    /// Tells whether every entry is zero.
    pub fn is_zero(&self) -> (r: bool)
        ensures
            r == self.is_zero_spec(),
    {
        self.c0.is_zero() && self.c1.is_zero() && self.c2.is_zero() && self.c3.is_zero()
    }

    /// The transpose of the matrix.
    pub fn transpose(&self) -> (r: Matrix4x4<S>)
        ensures
            r == self.transposed(),
    {
        Matrix4x4 {
            c0: Vector4 { x: self.c0.x, y: self.c1.x, z: self.c2.x, w: self.c3.x },
            c1: Vector4 { x: self.c0.y, y: self.c1.y, z: self.c2.y, w: self.c3.y },
            c2: Vector4 { x: self.c0.z, y: self.c1.z, z: self.c2.z, w: self.c3.z },
            c3: Vector4 { x: self.c0.w, y: self.c1.w, z: self.c2.w, w: self.c3.w },
        }
    }

    /// The column at index `c`.
    pub fn get_column(&self, c: usize) -> (r: Vector4<S>)
        requires
            c < 4,
        ensures
            r == self.column(c as int),
    {
        if c == 0 {
            self.c0
        } else if c == 1 {
            self.c1
        } else if c == 2 {
            self.c2
        } else {
            self.c3
        }
    }

    /// The row at index `r`.
    pub fn get_row(&self, r: usize) -> (v: Vector4<S>)
        requires
            r < 4,
        ensures
            v == self.row(r as int),
    {
        if r == 0 {
            Vector4 { x: self.c0.x, y: self.c1.x, z: self.c2.x, w: self.c3.x }
        } else if r == 1 {
            Vector4 { x: self.c0.y, y: self.c1.y, z: self.c2.y, w: self.c3.y }
        } else if r == 2 {
            Vector4 { x: self.c0.z, y: self.c1.z, z: self.c2.z, w: self.c3.z }
        } else {
            Vector4 { x: self.c0.w, y: self.c1.w, z: self.c2.w, w: self.c3.w }
        }
    }

    /// Replaces the column at index `c` by `v`.
    pub fn set_column(&mut self, c: usize, v: Vector4<S>)
        requires
            c < 4,
        ensures
            *final(self) == old(self).with_column(c as int, v),
    {
        if c == 0 {
            self.c0 = v;
        } else if c == 1 {
            self.c1 = v;
        } else if c == 2 {
            self.c2 = v;
        } else {
            self.c3 = v;
        }
    }

    /// Replaces the row at index `r` by `v`.
    pub fn set_row(&mut self, r: usize, v: Vector4<S>)
        requires
            r < 4,
        ensures
            *final(self) == old(self).with_row(r as int, v),
    {
        self.c0.set(r, v.x);
        self.c1.set(r, v.y);
        self.c2.set(r, v.z);
        self.c3.set(r, v.w);
    }

    /// Exchanges the columns at the indices `a` and `b`.
    pub fn swap_columns(&mut self, a: usize, b: usize)
        requires
            a < 4,
            b < 4,
        ensures
            *final(self) == old(self).with_column(a as int, old(self).column(b as int)).with_column(
                b as int,
                old(self).column(a as int),
            ),
    {
        let first = self.get_column(a);
        let second = self.get_column(b);
        self.set_column(a, second);
        self.set_column(b, first);
    }

    /// Exchanges the rows at the indices `a` and `b`.
    pub fn swap_rows(&mut self, a: usize, b: usize)
        requires
            a < 4,
            b < 4,
        ensures
            *final(self) == old(self).with_row(a as int, old(self).row(b as int)).with_row(
                b as int,
                old(self).row(a as int),
            ),
    {
        let first = self.get_row(a);
        let second = self.get_row(b);
        self.set_row(a, second);
        self.set_row(b, first);
    }

    /// Exchanges two entries, each given as a pair of its column and its row.
    pub fn swap(&mut self, a: (usize, usize), b: (usize, usize))
        requires
            a.0 < 4,
            a.1 < 4,
            b.0 < 4,
            b.1 < 4,
        ensures
            *final(self) == old(self).with_at(
                a.0 as int,
                a.1 as int,
                old(self).at(b.0 as int, b.1 as int),
            ).with_at(b.0 as int, b.1 as int, old(self).at(a.0 as int, a.1 as int)),
    {
        let mut first_column = self.get_column(a.0);
        let first = first_column[a.1];
        let second = self.get_column(b.0)[b.1];
        first_column.set(a.1, second);
        self.set_column(a.0, first_column);
        let mut second_column = self.get_column(b.0);
        second_column.set(b.1, first);
        self.set_column(b.0, second_column);
    }

    /// Multiplies every entry by `c`, with `c` on the left of each product.
    pub fn scale_left(self, c: S) -> (r: Matrix4x4<S>)
        requires
            self.can_scale_left(c),
        ensures
            r == self.scaled_left(c),
    {
        Matrix4x4 { c0: self.c0.scale_left(c), c1: self.c1.scale_left(c),
            c2: self.c2.scale_left(c), c3: self.c3.scale_left(c) }
    }
}

impl<S: ScalarSigned> Matrix4x4<S> {
    /// True when every entry can be negated.
    pub open spec fn can_neg(self) -> bool {
        &&& self.c0.can_neg()
        &&& self.c1.can_neg()
        &&& self.c2.can_neg()
        &&& self.c3.can_neg()
    }

    /// The matrix of the negated entries.
    pub open spec fn negated(self) -> Matrix4x4<S> {
        Matrix4x4 { c0: self.c0.negated(), c1: self.c1.negated(), c2: self.c2.negated(),
            c3: self.c3.negated() }
    }
}

impl<S: Scalar> core::ops::Add<Matrix4x4<S>> for Matrix4x4<S> {
    type Output = Matrix4x4<S>;

    fn add(self, other: Matrix4x4<S>) -> (r: Matrix4x4<S>) {
        Matrix4x4 {
            c0: Vector4 {
                x: self.c0.x.add(other.c0.x),
                y: self.c0.y.add(other.c0.y),
                z: self.c0.z.add(other.c0.z),
                w: self.c0.w.add(other.c0.w),
            },
            c1: Vector4 {
                x: self.c1.x.add(other.c1.x),
                y: self.c1.y.add(other.c1.y),
                z: self.c1.z.add(other.c1.z),
                w: self.c1.w.add(other.c1.w),
            },
            c2: Vector4 {
                x: self.c2.x.add(other.c2.x),
                y: self.c2.y.add(other.c2.y),
                z: self.c2.z.add(other.c2.z),
                w: self.c2.w.add(other.c2.w),
            },
            c3: Vector4 {
                x: self.c3.x.add(other.c3.x),
                y: self.c3.y.add(other.c3.y),
                z: self.c3.z.add(other.c3.z),
                w: self.c3.w.add(other.c3.w),
            },
        }
    }
}

impl<S: Scalar> vstd::std_specs::ops::AddSpecImpl<Matrix4x4<S>> for Matrix4x4<S> {
    open spec fn obeys_add_spec() -> bool {
        true
    }

    open spec fn add_req(self, other: Matrix4x4<S>) -> bool {
        self.can_add(other)
    }

    open spec fn add_spec(self, other: Matrix4x4<S>) -> Matrix4x4<S> {
        self.plus(other)
    }
}

impl<'a, 'b, S: Scalar> core::ops::Add<&'b Matrix4x4<S>> for &'a Matrix4x4<S> {
    type Output = Matrix4x4<S>;

    fn add(self, other: &'b Matrix4x4<S>) -> (r: Matrix4x4<S>) {
        Matrix4x4 {
            c0: Vector4 {
                x: self.c0.x.add(other.c0.x),
                y: self.c0.y.add(other.c0.y),
                z: self.c0.z.add(other.c0.z),
                w: self.c0.w.add(other.c0.w),
            },
            c1: Vector4 {
                x: self.c1.x.add(other.c1.x),
                y: self.c1.y.add(other.c1.y),
                z: self.c1.z.add(other.c1.z),
                w: self.c1.w.add(other.c1.w),
            },
            c2: Vector4 {
                x: self.c2.x.add(other.c2.x),
                y: self.c2.y.add(other.c2.y),
                z: self.c2.z.add(other.c2.z),
                w: self.c2.w.add(other.c2.w),
            },
            c3: Vector4 {
                x: self.c3.x.add(other.c3.x),
                y: self.c3.y.add(other.c3.y),
                z: self.c3.z.add(other.c3.z),
                w: self.c3.w.add(other.c3.w),
            },
        }
    }
}

impl<'a, 'b, S: Scalar> vstd::std_specs::ops::AddSpecImpl<&'b Matrix4x4<S>> for &'a Matrix4x4<S> {
    open spec fn obeys_add_spec() -> bool {
        true
    }

    open spec fn add_req(self, other: &'b Matrix4x4<S>) -> bool {
        (*self).can_add(*other)
    }

    open spec fn add_spec(self, other: &'b Matrix4x4<S>) -> Matrix4x4<S> {
        (*self).plus(*other)
    }
}

impl<S: Scalar> core::ops::Sub<Matrix4x4<S>> for Matrix4x4<S> {
    type Output = Matrix4x4<S>;

    fn sub(self, other: Matrix4x4<S>) -> (r: Matrix4x4<S>) {
        Matrix4x4 {
            c0: Vector4 {
                x: self.c0.x.sub(other.c0.x),
                y: self.c0.y.sub(other.c0.y),
                z: self.c0.z.sub(other.c0.z),
                w: self.c0.w.sub(other.c0.w),
            },
            c1: Vector4 {
                x: self.c1.x.sub(other.c1.x),
                y: self.c1.y.sub(other.c1.y),
                z: self.c1.z.sub(other.c1.z),
                w: self.c1.w.sub(other.c1.w),
            },
            c2: Vector4 {
                x: self.c2.x.sub(other.c2.x),
                y: self.c2.y.sub(other.c2.y),
                z: self.c2.z.sub(other.c2.z),
                w: self.c2.w.sub(other.c2.w),
            },
            c3: Vector4 {
                x: self.c3.x.sub(other.c3.x),
                y: self.c3.y.sub(other.c3.y),
                z: self.c3.z.sub(other.c3.z),
                w: self.c3.w.sub(other.c3.w),
            },
        }
    }
}

impl<S: Scalar> vstd::std_specs::ops::SubSpecImpl<Matrix4x4<S>> for Matrix4x4<S> {
    open spec fn obeys_sub_spec() -> bool {
        true
    }

    open spec fn sub_req(self, other: Matrix4x4<S>) -> bool {
        self.can_sub(other)
    }

    open spec fn sub_spec(self, other: Matrix4x4<S>) -> Matrix4x4<S> {
        self.minus(other)
    }
}

impl<'a, 'b, S: Scalar> core::ops::Sub<&'b Matrix4x4<S>> for &'a Matrix4x4<S> {
    type Output = Matrix4x4<S>;

    fn sub(self, other: &'b Matrix4x4<S>) -> (r: Matrix4x4<S>) {
        Matrix4x4 {
            c0: Vector4 {
                x: self.c0.x.sub(other.c0.x),
                y: self.c0.y.sub(other.c0.y),
                z: self.c0.z.sub(other.c0.z),
                w: self.c0.w.sub(other.c0.w),
            },
            c1: Vector4 {
                x: self.c1.x.sub(other.c1.x),
                y: self.c1.y.sub(other.c1.y),
                z: self.c1.z.sub(other.c1.z),
                w: self.c1.w.sub(other.c1.w),
            },
            c2: Vector4 {
                x: self.c2.x.sub(other.c2.x),
                y: self.c2.y.sub(other.c2.y),
                z: self.c2.z.sub(other.c2.z),
                w: self.c2.w.sub(other.c2.w),
            },
            c3: Vector4 {
                x: self.c3.x.sub(other.c3.x),
                y: self.c3.y.sub(other.c3.y),
                z: self.c3.z.sub(other.c3.z),
                w: self.c3.w.sub(other.c3.w),
            },
        }
    }
}

impl<'a, 'b, S: Scalar> vstd::std_specs::ops::SubSpecImpl<&'b Matrix4x4<S>> for &'a Matrix4x4<S> {
    open spec fn obeys_sub_spec() -> bool {
        true
    }

    open spec fn sub_req(self, other: &'b Matrix4x4<S>) -> bool {
        (*self).can_sub(*other)
    }

    open spec fn sub_spec(self, other: &'b Matrix4x4<S>) -> Matrix4x4<S> {
        (*self).minus(*other)
    }
}

impl<S: Scalar> core::ops::Mul<S> for Matrix4x4<S> {
    type Output = Matrix4x4<S>;

    fn mul(self, other: S) -> (r: Matrix4x4<S>) {
        Matrix4x4 {
            c0: Vector4 {
                x: self.c0.x.mul(other),
                y: self.c0.y.mul(other),
                z: self.c0.z.mul(other),
                w: self.c0.w.mul(other),
            },
            c1: Vector4 {
                x: self.c1.x.mul(other),
                y: self.c1.y.mul(other),
                z: self.c1.z.mul(other),
                w: self.c1.w.mul(other),
            },
            c2: Vector4 {
                x: self.c2.x.mul(other),
                y: self.c2.y.mul(other),
                z: self.c2.z.mul(other),
                w: self.c2.w.mul(other),
            },
            c3: Vector4 {
                x: self.c3.x.mul(other),
                y: self.c3.y.mul(other),
                z: self.c3.z.mul(other),
                w: self.c3.w.mul(other),
            },
        }
    }
}

impl<S: Scalar> vstd::std_specs::ops::MulSpecImpl<S> for Matrix4x4<S> {
    open spec fn obeys_mul_spec() -> bool {
        true
    }

    open spec fn mul_req(self, other: S) -> bool {
        self.can_scale(other)
    }

    open spec fn mul_spec(self, other: S) -> Matrix4x4<S> {
        self.scaled(other)
    }
}

impl<'a, S: Scalar> core::ops::Mul<S> for &'a Matrix4x4<S> {
    type Output = Matrix4x4<S>;

    fn mul(self, other: S) -> (r: Matrix4x4<S>) {
        Matrix4x4 {
            c0: Vector4 {
                x: self.c0.x.mul(other),
                y: self.c0.y.mul(other),
                z: self.c0.z.mul(other),
                w: self.c0.w.mul(other),
            },
            c1: Vector4 {
                x: self.c1.x.mul(other),
                y: self.c1.y.mul(other),
                z: self.c1.z.mul(other),
                w: self.c1.w.mul(other),
            },
            c2: Vector4 {
                x: self.c2.x.mul(other),
                y: self.c2.y.mul(other),
                z: self.c2.z.mul(other),
                w: self.c2.w.mul(other),
            },
            c3: Vector4 {
                x: self.c3.x.mul(other),
                y: self.c3.y.mul(other),
                z: self.c3.z.mul(other),
                w: self.c3.w.mul(other),
            },
        }
    }
}

impl<'a, S: Scalar> vstd::std_specs::ops::MulSpecImpl<S> for &'a Matrix4x4<S> {
    open spec fn obeys_mul_spec() -> bool {
        true
    }

    open spec fn mul_req(self, other: S) -> bool {
        (*self).can_scale(other)
    }

    open spec fn mul_spec(self, other: S) -> Matrix4x4<S> {
        (*self).scaled(other)
    }
}

impl<S: Scalar> core::ops::Div<S> for Matrix4x4<S> {
    type Output = Matrix4x4<S>;

    fn div(self, other: S) -> (r: Matrix4x4<S>) {
        Matrix4x4 {
            c0: Vector4 {
                x: self.c0.x.div(other),
                y: self.c0.y.div(other),
                z: self.c0.z.div(other),
                w: self.c0.w.div(other),
            },
            c1: Vector4 {
                x: self.c1.x.div(other),
                y: self.c1.y.div(other),
                z: self.c1.z.div(other),
                w: self.c1.w.div(other),
            },
            c2: Vector4 {
                x: self.c2.x.div(other),
                y: self.c2.y.div(other),
                z: self.c2.z.div(other),
                w: self.c2.w.div(other),
            },
            c3: Vector4 {
                x: self.c3.x.div(other),
                y: self.c3.y.div(other),
                z: self.c3.z.div(other),
                w: self.c3.w.div(other),
            },
        }
    }
}

impl<S: Scalar> vstd::std_specs::ops::DivSpecImpl<S> for Matrix4x4<S> {
    open spec fn obeys_div_spec() -> bool {
        true
    }

    open spec fn div_req(self, other: S) -> bool {
        self.can_div(other)
    }

    open spec fn div_spec(self, other: S) -> Matrix4x4<S> {
        self.over(other)
    }
}

impl<'a, S: Scalar> core::ops::Div<S> for &'a Matrix4x4<S> {
    type Output = Matrix4x4<S>;

    fn div(self, other: S) -> (r: Matrix4x4<S>) {
        Matrix4x4 {
            c0: Vector4 {
                x: self.c0.x.div(other),
                y: self.c0.y.div(other),
                z: self.c0.z.div(other),
                w: self.c0.w.div(other),
            },
            c1: Vector4 {
                x: self.c1.x.div(other),
                y: self.c1.y.div(other),
                z: self.c1.z.div(other),
                w: self.c1.w.div(other),
            },
            c2: Vector4 {
                x: self.c2.x.div(other),
                y: self.c2.y.div(other),
                z: self.c2.z.div(other),
                w: self.c2.w.div(other),
            },
            c3: Vector4 {
                x: self.c3.x.div(other),
                y: self.c3.y.div(other),
                z: self.c3.z.div(other),
                w: self.c3.w.div(other),
            },
        }
    }
}

impl<'a, S: Scalar> vstd::std_specs::ops::DivSpecImpl<S> for &'a Matrix4x4<S> {
    open spec fn obeys_div_spec() -> bool {
        true
    }

    open spec fn div_req(self, other: S) -> bool {
        (*self).can_div(other)
    }

    open spec fn div_spec(self, other: S) -> Matrix4x4<S> {
        (*self).over(other)
    }
}

impl<S: Scalar> core::ops::Rem<S> for Matrix4x4<S> {
    type Output = Matrix4x4<S>;

    fn rem(self, other: S) -> (r: Matrix4x4<S>) {
        Matrix4x4 {
            c0: Vector4 {
                x: self.c0.x.rem(other),
                y: self.c0.y.rem(other),
                z: self.c0.z.rem(other),
                w: self.c0.w.rem(other),
            },
            c1: Vector4 {
                x: self.c1.x.rem(other),
                y: self.c1.y.rem(other),
                z: self.c1.z.rem(other),
                w: self.c1.w.rem(other),
            },
            c2: Vector4 {
                x: self.c2.x.rem(other),
                y: self.c2.y.rem(other),
                z: self.c2.z.rem(other),
                w: self.c2.w.rem(other),
            },
            c3: Vector4 {
                x: self.c3.x.rem(other),
                y: self.c3.y.rem(other),
                z: self.c3.z.rem(other),
                w: self.c3.w.rem(other),
            },
        }
    }
}

impl<S: Scalar> vstd::std_specs::ops::RemSpecImpl<S> for Matrix4x4<S> {
    open spec fn obeys_rem_spec() -> bool {
        true
    }

    open spec fn rem_req(self, other: S) -> bool {
        self.can_rem(other)
    }

    open spec fn rem_spec(self, other: S) -> Matrix4x4<S> {
        self.modulo(other)
    }
}

impl<'a, S: Scalar> core::ops::Rem<S> for &'a Matrix4x4<S> {
    type Output = Matrix4x4<S>;

    fn rem(self, other: S) -> (r: Matrix4x4<S>) {
        Matrix4x4 {
            c0: Vector4 {
                x: self.c0.x.rem(other),
                y: self.c0.y.rem(other),
                z: self.c0.z.rem(other),
                w: self.c0.w.rem(other),
            },
            c1: Vector4 {
                x: self.c1.x.rem(other),
                y: self.c1.y.rem(other),
                z: self.c1.z.rem(other),
                w: self.c1.w.rem(other),
            },
            c2: Vector4 {
                x: self.c2.x.rem(other),
                y: self.c2.y.rem(other),
                z: self.c2.z.rem(other),
                w: self.c2.w.rem(other),
            },
            c3: Vector4 {
                x: self.c3.x.rem(other),
                y: self.c3.y.rem(other),
                z: self.c3.z.rem(other),
                w: self.c3.w.rem(other),
            },
        }
    }
}

impl<'a, S: Scalar> vstd::std_specs::ops::RemSpecImpl<S> for &'a Matrix4x4<S> {
    open spec fn obeys_rem_spec() -> bool {
        true
    }

    open spec fn rem_req(self, other: S) -> bool {
        (*self).can_rem(other)
    }

    open spec fn rem_spec(self, other: S) -> Matrix4x4<S> {
        (*self).modulo(other)
    }
}

impl<S: Scalar> core::ops::Mul<Vector4<S>> for Matrix4x4<S> {
    type Output = Vector4<S>;

    fn mul(self, other: Vector4<S>) -> (r: Vector4<S>) {
        Vector4 {
            x: self.c0.x.mul(other.x).add(self.c1.x.mul(other.y)).add(self.c2.x.mul(other.z))
                .add(self.c3.x.mul(other.w)),
            y: self.c0.y.mul(other.x).add(self.c1.y.mul(other.y)).add(self.c2.y.mul(other.z))
                .add(self.c3.y.mul(other.w)),
            z: self.c0.z.mul(other.x).add(self.c1.z.mul(other.y)).add(self.c2.z.mul(other.z))
                .add(self.c3.z.mul(other.w)),
            w: self.c0.w.mul(other.x).add(self.c1.w.mul(other.y)).add(self.c2.w.mul(other.z))
                .add(self.c3.w.mul(other.w)),
        }
    }
}

impl<S: Scalar> vstd::std_specs::ops::MulSpecImpl<Vector4<S>> for Matrix4x4<S> {
    open spec fn obeys_mul_spec() -> bool {
        true
    }

    open spec fn mul_req(self, other: Vector4<S>) -> bool {
        self.can_mul_vector(other)
    }

    open spec fn mul_spec(self, other: Vector4<S>) -> Vector4<S> {
        self.times_vector(other)
    }
}

impl<'a, 'b, S: Scalar> core::ops::Mul<&'b Vector4<S>> for &'a Matrix4x4<S> {
    type Output = Vector4<S>;

    fn mul(self, other: &'b Vector4<S>) -> (r: Vector4<S>) {
        Vector4 {
            x: self.c0.x.mul(other.x).add(self.c1.x.mul(other.y)).add(self.c2.x.mul(other.z))
                .add(self.c3.x.mul(other.w)),
            y: self.c0.y.mul(other.x).add(self.c1.y.mul(other.y)).add(self.c2.y.mul(other.z))
                .add(self.c3.y.mul(other.w)),
            z: self.c0.z.mul(other.x).add(self.c1.z.mul(other.y)).add(self.c2.z.mul(other.z))
                .add(self.c3.z.mul(other.w)),
            w: self.c0.w.mul(other.x).add(self.c1.w.mul(other.y)).add(self.c2.w.mul(other.z))
                .add(self.c3.w.mul(other.w)),
        }
    }
}

impl<'a, 'b, S: Scalar> vstd::std_specs::ops::MulSpecImpl<&'b Vector4<S>> for &'a Matrix4x4<S> {
    open spec fn obeys_mul_spec() -> bool {
        true
    }

    open spec fn mul_req(self, other: &'b Vector4<S>) -> bool {
        (*self).can_mul_vector(*other)
    }

    open spec fn mul_spec(self, other: &'b Vector4<S>) -> Vector4<S> {
        (*self).times_vector(*other)
    }
}

impl<S: Scalar> core::ops::Mul<Matrix4x2<S>> for Matrix4x4<S> {
    type Output = Matrix4x2<S>;

    fn mul(self, other: Matrix4x2<S>) -> (r: Matrix4x2<S>) {
        Matrix4x2 {
            c0: Vector4 {
                x: self.c0.x.mul(other.c0.x).add(self.c1.x.mul(other.c0.y)).add(self.c2.x
                    .mul(other.c0.z)).add(self.c3.x.mul(other.c0.w)),
                y: self.c0.y.mul(other.c0.x).add(self.c1.y.mul(other.c0.y)).add(self.c2.y
                    .mul(other.c0.z)).add(self.c3.y.mul(other.c0.w)),
                z: self.c0.z.mul(other.c0.x).add(self.c1.z.mul(other.c0.y)).add(self.c2.z
                    .mul(other.c0.z)).add(self.c3.z.mul(other.c0.w)),
                w: self.c0.w.mul(other.c0.x).add(self.c1.w.mul(other.c0.y)).add(self.c2.w
                    .mul(other.c0.z)).add(self.c3.w.mul(other.c0.w)),
            },
            c1: Vector4 {
                x: self.c0.x.mul(other.c1.x).add(self.c1.x.mul(other.c1.y)).add(self.c2.x
                    .mul(other.c1.z)).add(self.c3.x.mul(other.c1.w)),
                y: self.c0.y.mul(other.c1.x).add(self.c1.y.mul(other.c1.y)).add(self.c2.y
                    .mul(other.c1.z)).add(self.c3.y.mul(other.c1.w)),
                z: self.c0.z.mul(other.c1.x).add(self.c1.z.mul(other.c1.y)).add(self.c2.z
                    .mul(other.c1.z)).add(self.c3.z.mul(other.c1.w)),
                w: self.c0.w.mul(other.c1.x).add(self.c1.w.mul(other.c1.y)).add(self.c2.w
                    .mul(other.c1.z)).add(self.c3.w.mul(other.c1.w)),
            },
        }
    }
}

impl<S: Scalar> vstd::std_specs::ops::MulSpecImpl<Matrix4x2<S>> for Matrix4x4<S> {
    open spec fn obeys_mul_spec() -> bool {
        true
    }

    open spec fn mul_req(self, other: Matrix4x2<S>) -> bool {
        self.can_mul_4x2(other)
    }

    open spec fn mul_spec(self, other: Matrix4x2<S>) -> Matrix4x2<S> {
        self.times_4x2(other)
    }
}

impl<'a, 'b, S: Scalar> core::ops::Mul<&'b Matrix4x2<S>> for &'a Matrix4x4<S> {
    type Output = Matrix4x2<S>;

    fn mul(self, other: &'b Matrix4x2<S>) -> (r: Matrix4x2<S>) {
        Matrix4x2 {
            c0: Vector4 {
                x: self.c0.x.mul(other.c0.x).add(self.c1.x.mul(other.c0.y)).add(self.c2.x
                    .mul(other.c0.z)).add(self.c3.x.mul(other.c0.w)),
                y: self.c0.y.mul(other.c0.x).add(self.c1.y.mul(other.c0.y)).add(self.c2.y
                    .mul(other.c0.z)).add(self.c3.y.mul(other.c0.w)),
                z: self.c0.z.mul(other.c0.x).add(self.c1.z.mul(other.c0.y)).add(self.c2.z
                    .mul(other.c0.z)).add(self.c3.z.mul(other.c0.w)),
                w: self.c0.w.mul(other.c0.x).add(self.c1.w.mul(other.c0.y)).add(self.c2.w
                    .mul(other.c0.z)).add(self.c3.w.mul(other.c0.w)),
            },
            c1: Vector4 {
                x: self.c0.x.mul(other.c1.x).add(self.c1.x.mul(other.c1.y)).add(self.c2.x
                    .mul(other.c1.z)).add(self.c3.x.mul(other.c1.w)),
                y: self.c0.y.mul(other.c1.x).add(self.c1.y.mul(other.c1.y)).add(self.c2.y
                    .mul(other.c1.z)).add(self.c3.y.mul(other.c1.w)),
                z: self.c0.z.mul(other.c1.x).add(self.c1.z.mul(other.c1.y)).add(self.c2.z
                    .mul(other.c1.z)).add(self.c3.z.mul(other.c1.w)),
                w: self.c0.w.mul(other.c1.x).add(self.c1.w.mul(other.c1.y)).add(self.c2.w
                    .mul(other.c1.z)).add(self.c3.w.mul(other.c1.w)),
            },
        }
    }
}

impl<'a, 'b, S: Scalar> vstd::std_specs::ops::MulSpecImpl<&'b Matrix4x2<S>> for &'a Matrix4x4<S> {
    open spec fn obeys_mul_spec() -> bool {
        true
    }

    open spec fn mul_req(self, other: &'b Matrix4x2<S>) -> bool {
        (*self).can_mul_4x2(*other)
    }

    open spec fn mul_spec(self, other: &'b Matrix4x2<S>) -> Matrix4x2<S> {
        (*self).times_4x2(*other)
    }
}

impl<S: Scalar> core::ops::Mul<Matrix4x3<S>> for Matrix4x4<S> {
    type Output = Matrix4x3<S>;

    fn mul(self, other: Matrix4x3<S>) -> (r: Matrix4x3<S>) {
        Matrix4x3 {
            c0: Vector4 {
                x: self.c0.x.mul(other.c0.x).add(self.c1.x.mul(other.c0.y)).add(self.c2.x
                    .mul(other.c0.z)).add(self.c3.x.mul(other.c0.w)),
                y: self.c0.y.mul(other.c0.x).add(self.c1.y.mul(other.c0.y)).add(self.c2.y
                    .mul(other.c0.z)).add(self.c3.y.mul(other.c0.w)),
                z: self.c0.z.mul(other.c0.x).add(self.c1.z.mul(other.c0.y)).add(self.c2.z
                    .mul(other.c0.z)).add(self.c3.z.mul(other.c0.w)),
                w: self.c0.w.mul(other.c0.x).add(self.c1.w.mul(other.c0.y)).add(self.c2.w
                    .mul(other.c0.z)).add(self.c3.w.mul(other.c0.w)),
            },
            c1: Vector4 {
                x: self.c0.x.mul(other.c1.x).add(self.c1.x.mul(other.c1.y)).add(self.c2.x
                    .mul(other.c1.z)).add(self.c3.x.mul(other.c1.w)),
                y: self.c0.y.mul(other.c1.x).add(self.c1.y.mul(other.c1.y)).add(self.c2.y
                    .mul(other.c1.z)).add(self.c3.y.mul(other.c1.w)),
                z: self.c0.z.mul(other.c1.x).add(self.c1.z.mul(other.c1.y)).add(self.c2.z
                    .mul(other.c1.z)).add(self.c3.z.mul(other.c1.w)),
                w: self.c0.w.mul(other.c1.x).add(self.c1.w.mul(other.c1.y)).add(self.c2.w
                    .mul(other.c1.z)).add(self.c3.w.mul(other.c1.w)),
            },
            c2: Vector4 {
                x: self.c0.x.mul(other.c2.x).add(self.c1.x.mul(other.c2.y)).add(self.c2.x
                    .mul(other.c2.z)).add(self.c3.x.mul(other.c2.w)),
                y: self.c0.y.mul(other.c2.x).add(self.c1.y.mul(other.c2.y)).add(self.c2.y
                    .mul(other.c2.z)).add(self.c3.y.mul(other.c2.w)),
                z: self.c0.z.mul(other.c2.x).add(self.c1.z.mul(other.c2.y)).add(self.c2.z
                    .mul(other.c2.z)).add(self.c3.z.mul(other.c2.w)),
                w: self.c0.w.mul(other.c2.x).add(self.c1.w.mul(other.c2.y)).add(self.c2.w
                    .mul(other.c2.z)).add(self.c3.w.mul(other.c2.w)),
            },
        }
    }
}

impl<S: Scalar> vstd::std_specs::ops::MulSpecImpl<Matrix4x3<S>> for Matrix4x4<S> {
    open spec fn obeys_mul_spec() -> bool {
        true
    }

    open spec fn mul_req(self, other: Matrix4x3<S>) -> bool {
        self.can_mul_4x3(other)
    }

    open spec fn mul_spec(self, other: Matrix4x3<S>) -> Matrix4x3<S> {
        self.times_4x3(other)
    }
}

impl<'a, 'b, S: Scalar> core::ops::Mul<&'b Matrix4x3<S>> for &'a Matrix4x4<S> {
    type Output = Matrix4x3<S>;

    fn mul(self, other: &'b Matrix4x3<S>) -> (r: Matrix4x3<S>) {
        Matrix4x3 {
            c0: Vector4 {
                x: self.c0.x.mul(other.c0.x).add(self.c1.x.mul(other.c0.y)).add(self.c2.x
                    .mul(other.c0.z)).add(self.c3.x.mul(other.c0.w)),
                y: self.c0.y.mul(other.c0.x).add(self.c1.y.mul(other.c0.y)).add(self.c2.y
                    .mul(other.c0.z)).add(self.c3.y.mul(other.c0.w)),
                z: self.c0.z.mul(other.c0.x).add(self.c1.z.mul(other.c0.y)).add(self.c2.z
                    .mul(other.c0.z)).add(self.c3.z.mul(other.c0.w)),
                w: self.c0.w.mul(other.c0.x).add(self.c1.w.mul(other.c0.y)).add(self.c2.w
                    .mul(other.c0.z)).add(self.c3.w.mul(other.c0.w)),
            },
            c1: Vector4 {
                x: self.c0.x.mul(other.c1.x).add(self.c1.x.mul(other.c1.y)).add(self.c2.x
                    .mul(other.c1.z)).add(self.c3.x.mul(other.c1.w)),
                y: self.c0.y.mul(other.c1.x).add(self.c1.y.mul(other.c1.y)).add(self.c2.y
                    .mul(other.c1.z)).add(self.c3.y.mul(other.c1.w)),
                z: self.c0.z.mul(other.c1.x).add(self.c1.z.mul(other.c1.y)).add(self.c2.z
                    .mul(other.c1.z)).add(self.c3.z.mul(other.c1.w)),
                w: self.c0.w.mul(other.c1.x).add(self.c1.w.mul(other.c1.y)).add(self.c2.w
                    .mul(other.c1.z)).add(self.c3.w.mul(other.c1.w)),
            },
            c2: Vector4 {
                x: self.c0.x.mul(other.c2.x).add(self.c1.x.mul(other.c2.y)).add(self.c2.x
                    .mul(other.c2.z)).add(self.c3.x.mul(other.c2.w)),
                y: self.c0.y.mul(other.c2.x).add(self.c1.y.mul(other.c2.y)).add(self.c2.y
                    .mul(other.c2.z)).add(self.c3.y.mul(other.c2.w)),
                z: self.c0.z.mul(other.c2.x).add(self.c1.z.mul(other.c2.y)).add(self.c2.z
                    .mul(other.c2.z)).add(self.c3.z.mul(other.c2.w)),
                w: self.c0.w.mul(other.c2.x).add(self.c1.w.mul(other.c2.y)).add(self.c2.w
                    .mul(other.c2.z)).add(self.c3.w.mul(other.c2.w)),
            },
        }
    }
}

impl<'a, 'b, S: Scalar> vstd::std_specs::ops::MulSpecImpl<&'b Matrix4x3<S>> for &'a Matrix4x4<S> {
    open spec fn obeys_mul_spec() -> bool {
        true
    }

    open spec fn mul_req(self, other: &'b Matrix4x3<S>) -> bool {
        (*self).can_mul_4x3(*other)
    }

    open spec fn mul_spec(self, other: &'b Matrix4x3<S>) -> Matrix4x3<S> {
        (*self).times_4x3(*other)
    }
}

impl<S: Scalar> core::ops::Mul<Matrix4x4<S>> for Matrix4x4<S> {
    type Output = Matrix4x4<S>;

    fn mul(self, other: Matrix4x4<S>) -> (r: Matrix4x4<S>) {
        Matrix4x4 {
            c0: Vector4 {
                x: self.c0.x.mul(other.c0.x).add(self.c1.x.mul(other.c0.y)).add(self.c2.x
                    .mul(other.c0.z)).add(self.c3.x.mul(other.c0.w)),
                y: self.c0.y.mul(other.c0.x).add(self.c1.y.mul(other.c0.y)).add(self.c2.y
                    .mul(other.c0.z)).add(self.c3.y.mul(other.c0.w)),
                z: self.c0.z.mul(other.c0.x).add(self.c1.z.mul(other.c0.y)).add(self.c2.z
                    .mul(other.c0.z)).add(self.c3.z.mul(other.c0.w)),
                w: self.c0.w.mul(other.c0.x).add(self.c1.w.mul(other.c0.y)).add(self.c2.w
                    .mul(other.c0.z)).add(self.c3.w.mul(other.c0.w)),
            },
            c1: Vector4 {
                x: self.c0.x.mul(other.c1.x).add(self.c1.x.mul(other.c1.y)).add(self.c2.x
                    .mul(other.c1.z)).add(self.c3.x.mul(other.c1.w)),
                y: self.c0.y.mul(other.c1.x).add(self.c1.y.mul(other.c1.y)).add(self.c2.y
                    .mul(other.c1.z)).add(self.c3.y.mul(other.c1.w)),
                z: self.c0.z.mul(other.c1.x).add(self.c1.z.mul(other.c1.y)).add(self.c2.z
                    .mul(other.c1.z)).add(self.c3.z.mul(other.c1.w)),
                w: self.c0.w.mul(other.c1.x).add(self.c1.w.mul(other.c1.y)).add(self.c2.w
                    .mul(other.c1.z)).add(self.c3.w.mul(other.c1.w)),
            },
            c2: Vector4 {
                x: self.c0.x.mul(other.c2.x).add(self.c1.x.mul(other.c2.y)).add(self.c2.x
                    .mul(other.c2.z)).add(self.c3.x.mul(other.c2.w)),
                y: self.c0.y.mul(other.c2.x).add(self.c1.y.mul(other.c2.y)).add(self.c2.y
                    .mul(other.c2.z)).add(self.c3.y.mul(other.c2.w)),
                z: self.c0.z.mul(other.c2.x).add(self.c1.z.mul(other.c2.y)).add(self.c2.z
                    .mul(other.c2.z)).add(self.c3.z.mul(other.c2.w)),
                w: self.c0.w.mul(other.c2.x).add(self.c1.w.mul(other.c2.y)).add(self.c2.w
                    .mul(other.c2.z)).add(self.c3.w.mul(other.c2.w)),
            },
            c3: Vector4 {
                x: self.c0.x.mul(other.c3.x).add(self.c1.x.mul(other.c3.y)).add(self.c2.x
                    .mul(other.c3.z)).add(self.c3.x.mul(other.c3.w)),
                y: self.c0.y.mul(other.c3.x).add(self.c1.y.mul(other.c3.y)).add(self.c2.y
                    .mul(other.c3.z)).add(self.c3.y.mul(other.c3.w)),
                z: self.c0.z.mul(other.c3.x).add(self.c1.z.mul(other.c3.y)).add(self.c2.z
                    .mul(other.c3.z)).add(self.c3.z.mul(other.c3.w)),
                w: self.c0.w.mul(other.c3.x).add(self.c1.w.mul(other.c3.y)).add(self.c2.w
                    .mul(other.c3.z)).add(self.c3.w.mul(other.c3.w)),
            },
        }
    }
}

impl<S: Scalar> vstd::std_specs::ops::MulSpecImpl<Matrix4x4<S>> for Matrix4x4<S> {
    open spec fn obeys_mul_spec() -> bool {
        true
    }

    open spec fn mul_req(self, other: Matrix4x4<S>) -> bool {
        self.can_mul_4x4(other)
    }

    open spec fn mul_spec(self, other: Matrix4x4<S>) -> Matrix4x4<S> {
        self.times_4x4(other)
    }
}

impl<'a, 'b, S: Scalar> core::ops::Mul<&'b Matrix4x4<S>> for &'a Matrix4x4<S> {
    type Output = Matrix4x4<S>;

    fn mul(self, other: &'b Matrix4x4<S>) -> (r: Matrix4x4<S>) {
        Matrix4x4 {
            c0: Vector4 {
                x: self.c0.x.mul(other.c0.x).add(self.c1.x.mul(other.c0.y)).add(self.c2.x
                    .mul(other.c0.z)).add(self.c3.x.mul(other.c0.w)),
                y: self.c0.y.mul(other.c0.x).add(self.c1.y.mul(other.c0.y)).add(self.c2.y
                    .mul(other.c0.z)).add(self.c3.y.mul(other.c0.w)),
                z: self.c0.z.mul(other.c0.x).add(self.c1.z.mul(other.c0.y)).add(self.c2.z
                    .mul(other.c0.z)).add(self.c3.z.mul(other.c0.w)),
                w: self.c0.w.mul(other.c0.x).add(self.c1.w.mul(other.c0.y)).add(self.c2.w
                    .mul(other.c0.z)).add(self.c3.w.mul(other.c0.w)),
            },
            c1: Vector4 {
                x: self.c0.x.mul(other.c1.x).add(self.c1.x.mul(other.c1.y)).add(self.c2.x
                    .mul(other.c1.z)).add(self.c3.x.mul(other.c1.w)),
                y: self.c0.y.mul(other.c1.x).add(self.c1.y.mul(other.c1.y)).add(self.c2.y
                    .mul(other.c1.z)).add(self.c3.y.mul(other.c1.w)),
                z: self.c0.z.mul(other.c1.x).add(self.c1.z.mul(other.c1.y)).add(self.c2.z
                    .mul(other.c1.z)).add(self.c3.z.mul(other.c1.w)),
                w: self.c0.w.mul(other.c1.x).add(self.c1.w.mul(other.c1.y)).add(self.c2.w
                    .mul(other.c1.z)).add(self.c3.w.mul(other.c1.w)),
            },
            c2: Vector4 {
                x: self.c0.x.mul(other.c2.x).add(self.c1.x.mul(other.c2.y)).add(self.c2.x
                    .mul(other.c2.z)).add(self.c3.x.mul(other.c2.w)),
                y: self.c0.y.mul(other.c2.x).add(self.c1.y.mul(other.c2.y)).add(self.c2.y
                    .mul(other.c2.z)).add(self.c3.y.mul(other.c2.w)),
                z: self.c0.z.mul(other.c2.x).add(self.c1.z.mul(other.c2.y)).add(self.c2.z
                    .mul(other.c2.z)).add(self.c3.z.mul(other.c2.w)),
                w: self.c0.w.mul(other.c2.x).add(self.c1.w.mul(other.c2.y)).add(self.c2.w
                    .mul(other.c2.z)).add(self.c3.w.mul(other.c2.w)),
            },
            c3: Vector4 {
                x: self.c0.x.mul(other.c3.x).add(self.c1.x.mul(other.c3.y)).add(self.c2.x
                    .mul(other.c3.z)).add(self.c3.x.mul(other.c3.w)),
                y: self.c0.y.mul(other.c3.x).add(self.c1.y.mul(other.c3.y)).add(self.c2.y
                    .mul(other.c3.z)).add(self.c3.y.mul(other.c3.w)),
                z: self.c0.z.mul(other.c3.x).add(self.c1.z.mul(other.c3.y)).add(self.c2.z
                    .mul(other.c3.z)).add(self.c3.z.mul(other.c3.w)),
                w: self.c0.w.mul(other.c3.x).add(self.c1.w.mul(other.c3.y)).add(self.c2.w
                    .mul(other.c3.z)).add(self.c3.w.mul(other.c3.w)),
            },
        }
    }
}

impl<'a, 'b, S: Scalar> vstd::std_specs::ops::MulSpecImpl<&'b Matrix4x4<S>> for &'a Matrix4x4<S> {
    open spec fn obeys_mul_spec() -> bool {
        true
    }

    open spec fn mul_req(self, other: &'b Matrix4x4<S>) -> bool {
        (*self).can_mul_4x4(*other)
    }

    open spec fn mul_spec(self, other: &'b Matrix4x4<S>) -> Matrix4x4<S> {
        (*self).times_4x4(*other)
    }
}

impl<S: ScalarSigned> core::ops::Neg for Matrix4x4<S> {
    type Output = Matrix4x4<S>;

    fn neg(self) -> (r: Matrix4x4<S>) {
        Matrix4x4 {
            c0: Vector4 {
                x: self.c0.x.neg(),
                y: self.c0.y.neg(),
                z: self.c0.z.neg(),
                w: self.c0.w.neg(),
            },
            c1: Vector4 {
                x: self.c1.x.neg(),
                y: self.c1.y.neg(),
                z: self.c1.z.neg(),
                w: self.c1.w.neg(),
            },
            c2: Vector4 {
                x: self.c2.x.neg(),
                y: self.c2.y.neg(),
                z: self.c2.z.neg(),
                w: self.c2.w.neg(),
            },
            c3: Vector4 {
                x: self.c3.x.neg(),
                y: self.c3.y.neg(),
                z: self.c3.z.neg(),
                w: self.c3.w.neg(),
            },
        }
    }
}

impl<S: ScalarSigned> vstd::std_specs::ops::NegSpecImpl for Matrix4x4<S> {
    open spec fn obeys_neg_spec() -> bool {
        true
    }

    open spec fn neg_req(self) -> bool {
        self.can_neg()
    }

    open spec fn neg_spec(self) -> Matrix4x4<S> {
        self.negated()
    }
}

impl<'a, S: ScalarSigned> core::ops::Neg for &'a Matrix4x4<S> {
    type Output = Matrix4x4<S>;

    fn neg(self) -> (r: Matrix4x4<S>) {
        Matrix4x4 {
            c0: Vector4 {
                x: self.c0.x.neg(),
                y: self.c0.y.neg(),
                z: self.c0.z.neg(),
                w: self.c0.w.neg(),
            },
            c1: Vector4 {
                x: self.c1.x.neg(),
                y: self.c1.y.neg(),
                z: self.c1.z.neg(),
                w: self.c1.w.neg(),
            },
            c2: Vector4 {
                x: self.c2.x.neg(),
                y: self.c2.y.neg(),
                z: self.c2.z.neg(),
                w: self.c2.w.neg(),
            },
            c3: Vector4 {
                x: self.c3.x.neg(),
                y: self.c3.y.neg(),
                z: self.c3.z.neg(),
                w: self.c3.w.neg(),
            },
        }
    }
}

impl<'a, S: ScalarSigned> vstd::std_specs::ops::NegSpecImpl for &'a Matrix4x4<S> {
    open spec fn obeys_neg_spec() -> bool {
        true
    }

    open spec fn neg_req(self) -> bool {
        (*self).can_neg()
    }

    open spec fn neg_spec(self) -> Matrix4x4<S> {
        (*self).negated()
    }
}

impl<S: Scalar> core::ops::Index<usize> for Matrix4x4<S> {
    type Output = Vector4<S>;

    fn index(&self, index: usize) -> (r: &Vector4<S>)
        ensures
            *r == self.column(index as int),
    {
        if index == 0 {
            &self.c0
        } else if index == 1 {
            &self.c1
        } else if index == 2 {
            &self.c2
        } else if index == 3 {
            &self.c3
        } else {
            vstd::pervasive::unreached()
        }
    }
}

impl<S: Scalar> vstd::std_specs::core::IndexSpecImpl<usize> for Matrix4x4<S> {
    open spec fn index_req(&self, index: &usize) -> bool {
        *index < 4
    }
}

impl<S: Scalar> Matrix4x4<S> {
    /// True when every product, sum and difference of the determinant is defined.
    pub open spec fn can_determinant(self) -> bool {
        &&& can_det3(self.c1.y, self.c1.z, self.c1.w, self.c2.y, self.c2.z, self.c2.w, self.c3.y,
            self.c3.z, self.c3.w)
        &&& self.c0.x.can_mul(det3(self.c1.y, self.c1.z, self.c1.w, self.c2.y, self.c2.z,
            self.c2.w, self.c3.y, self.c3.z, self.c3.w))
        &&& can_det3(self.c0.y, self.c0.z, self.c0.w, self.c2.y, self.c2.z, self.c2.w, self.c3.y,
            self.c3.z, self.c3.w)
        &&& self.c1.x.can_mul(det3(self.c0.y, self.c0.z, self.c0.w, self.c2.y, self.c2.z,
            self.c2.w, self.c3.y, self.c3.z, self.c3.w))
        &&& self.c0.x.times(det3(self.c1.y, self.c1.z, self.c1.w, self.c2.y, self.c2.z, self.c2.w,
            self.c3.y, self.c3.z, self.c3.w)).can_sub(self.c1.x.times(det3(self.c0.y, self.c0.z,
            self.c0.w, self.c2.y, self.c2.z, self.c2.w, self.c3.y, self.c3.z, self.c3.w)))
        &&& can_det3(self.c0.y, self.c0.z, self.c0.w, self.c1.y, self.c1.z, self.c1.w, self.c3.y,
            self.c3.z, self.c3.w)
        &&& self.c2.x.can_mul(det3(self.c0.y, self.c0.z, self.c0.w, self.c1.y, self.c1.z,
            self.c1.w, self.c3.y, self.c3.z, self.c3.w))
        &&& self.c0.x.times(det3(self.c1.y, self.c1.z, self.c1.w, self.c2.y, self.c2.z, self.c2.w,
            self.c3.y, self.c3.z, self.c3.w)).minus(self.c1.x.times(det3(self.c0.y, self.c0.z,
            self.c0.w, self.c2.y, self.c2.z, self.c2.w, self.c3.y, self.c3.z, self.c3.w)))
            .can_add(self.c2.x.times(det3(self.c0.y, self.c0.z, self.c0.w, self.c1.y, self.c1.z,
            self.c1.w, self.c3.y, self.c3.z, self.c3.w)))
        &&& can_det3(self.c0.y, self.c0.z, self.c0.w, self.c1.y, self.c1.z, self.c1.w, self.c2.y,
            self.c2.z, self.c2.w)
        &&& self.c3.x.can_mul(det3(self.c0.y, self.c0.z, self.c0.w, self.c1.y, self.c1.z,
            self.c1.w, self.c2.y, self.c2.z, self.c2.w))
        &&& self.c0.x.times(det3(self.c1.y, self.c1.z, self.c1.w, self.c2.y, self.c2.z, self.c2.w,
            self.c3.y, self.c3.z, self.c3.w)).minus(self.c1.x.times(det3(self.c0.y, self.c0.z,
            self.c0.w, self.c2.y, self.c2.z, self.c2.w, self.c3.y, self.c3.z, self.c3.w)))
            .plus(self.c2.x.times(det3(self.c0.y, self.c0.z, self.c0.w, self.c1.y, self.c1.z,
            self.c1.w, self.c3.y, self.c3.z, self.c3.w))).can_sub(self.c3.x.times(det3(self.c0.y,
            self.c0.z, self.c0.w, self.c1.y, self.c1.z, self.c1.w, self.c2.y, self.c2.z,
            self.c2.w)))
    }

    /// The determinant, expanded along the first row.
    pub open spec fn determinant_spec(self) -> S {
        self.c0.x.times(det3(self.c1.y, self.c1.z, self.c1.w, self.c2.y, self.c2.z, self.c2.w,
            self.c3.y, self.c3.z, self.c3.w)).minus(self.c1.x.times(det3(self.c0.y, self.c0.z,
            self.c0.w, self.c2.y, self.c2.z, self.c2.w, self.c3.y, self.c3.z, self.c3.w)))
            .plus(self.c2.x.times(det3(self.c0.y, self.c0.z, self.c0.w, self.c1.y, self.c1.z,
            self.c1.w, self.c3.y, self.c3.z, self.c3.w))).minus(self.c3.x.times(det3(self.c0.y,
            self.c0.z, self.c0.w, self.c1.y, self.c1.z, self.c1.w, self.c2.y, self.c2.z,
            self.c2.w)))
    }

    /// True when the determinant is not the same as zero.
    pub open spec fn is_invertible_spec(self) -> bool {
        !self.determinant_spec().same(S::zero_spec())
    }

    /// The determinant of the matrix.
    pub fn determinant(&self) -> (r: S)
        requires
            self.can_determinant(),
        ensures
            r == self.determinant_spec(),
    {
        self.c0.x.mul(det3_of(self.c1.y, self.c1.z, self.c1.w, self.c2.y, self.c2.z, self.c2.w,
            self.c3.y, self.c3.z, self.c3.w)).sub(self.c1.x.mul(det3_of(self.c0.y, self.c0.z,
            self.c0.w, self.c2.y, self.c2.z, self.c2.w, self.c3.y, self.c3.z, self.c3.w)))
            .add(self.c2.x.mul(det3_of(self.c0.y, self.c0.z, self.c0.w, self.c1.y, self.c1.z,
            self.c1.w, self.c3.y, self.c3.z, self.c3.w))).sub(self.c3.x.mul(det3_of(self.c0.y,
            self.c0.z, self.c0.w, self.c1.y, self.c1.z, self.c1.w, self.c2.y, self.c2.z,
            self.c2.w)))
    }

    /// Tells whether the matrix has an inverse: whether its determinant is not zero.
    pub fn is_invertible(&self) -> (r: bool)
        requires
            self.can_determinant(),
        ensures
            r == self.is_invertible_spec(),
    {
        !self.determinant().equals(S::zero())
    }
}

impl<S: ScalarSigned> Matrix4x4<S> {
    /// True when every entry of the adjugate is defined.
    pub open spec fn can_adjugate(self) -> bool {
        &&& can_det3(self.c1.y, self.c1.z, self.c1.w, self.c2.y, self.c2.z, self.c2.w, self.c3.y,
            self.c3.z, self.c3.w)
        &&& can_det3(self.c0.y, self.c0.z, self.c0.w, self.c2.y, self.c2.z, self.c2.w, self.c3.y,
            self.c3.z, self.c3.w)
        &&& det3(self.c0.y, self.c0.z, self.c0.w, self.c2.y, self.c2.z, self.c2.w, self.c3.y,
            self.c3.z, self.c3.w).can_neg()
        &&& can_det3(self.c0.y, self.c0.z, self.c0.w, self.c1.y, self.c1.z, self.c1.w, self.c3.y,
            self.c3.z, self.c3.w)
        &&& can_det3(self.c0.y, self.c0.z, self.c0.w, self.c1.y, self.c1.z, self.c1.w, self.c2.y,
            self.c2.z, self.c2.w)
        &&& det3(self.c0.y, self.c0.z, self.c0.w, self.c1.y, self.c1.z, self.c1.w, self.c2.y,
            self.c2.z, self.c2.w).can_neg()
        &&& can_det3(self.c1.x, self.c1.z, self.c1.w, self.c2.x, self.c2.z, self.c2.w, self.c3.x,
            self.c3.z, self.c3.w)
        &&& det3(self.c1.x, self.c1.z, self.c1.w, self.c2.x, self.c2.z, self.c2.w, self.c3.x,
            self.c3.z, self.c3.w).can_neg()
        &&& can_det3(self.c0.x, self.c0.z, self.c0.w, self.c2.x, self.c2.z, self.c2.w, self.c3.x,
            self.c3.z, self.c3.w)
        &&& can_det3(self.c0.x, self.c0.z, self.c0.w, self.c1.x, self.c1.z, self.c1.w, self.c3.x,
            self.c3.z, self.c3.w)
        &&& det3(self.c0.x, self.c0.z, self.c0.w, self.c1.x, self.c1.z, self.c1.w, self.c3.x,
            self.c3.z, self.c3.w).can_neg()
        &&& can_det3(self.c0.x, self.c0.z, self.c0.w, self.c1.x, self.c1.z, self.c1.w, self.c2.x,
            self.c2.z, self.c2.w)
        &&& can_det3(self.c1.x, self.c1.y, self.c1.w, self.c2.x, self.c2.y, self.c2.w, self.c3.x,
            self.c3.y, self.c3.w)
        &&& can_det3(self.c0.x, self.c0.y, self.c0.w, self.c2.x, self.c2.y, self.c2.w, self.c3.x,
            self.c3.y, self.c3.w)
        &&& det3(self.c0.x, self.c0.y, self.c0.w, self.c2.x, self.c2.y, self.c2.w, self.c3.x,
            self.c3.y, self.c3.w).can_neg()
        &&& can_det3(self.c0.x, self.c0.y, self.c0.w, self.c1.x, self.c1.y, self.c1.w, self.c3.x,
            self.c3.y, self.c3.w)
        &&& can_det3(self.c0.x, self.c0.y, self.c0.w, self.c1.x, self.c1.y, self.c1.w, self.c2.x,
            self.c2.y, self.c2.w)
        &&& det3(self.c0.x, self.c0.y, self.c0.w, self.c1.x, self.c1.y, self.c1.w, self.c2.x,
            self.c2.y, self.c2.w).can_neg()
        &&& can_det3(self.c1.x, self.c1.y, self.c1.z, self.c2.x, self.c2.y, self.c2.z, self.c3.x,
            self.c3.y, self.c3.z)
        &&& det3(self.c1.x, self.c1.y, self.c1.z, self.c2.x, self.c2.y, self.c2.z, self.c3.x,
            self.c3.y, self.c3.z).can_neg()
        &&& can_det3(self.c0.x, self.c0.y, self.c0.z, self.c2.x, self.c2.y, self.c2.z, self.c3.x,
            self.c3.y, self.c3.z)
        &&& can_det3(self.c0.x, self.c0.y, self.c0.z, self.c1.x, self.c1.y, self.c1.z, self.c3.x,
            self.c3.y, self.c3.z)
        &&& det3(self.c0.x, self.c0.y, self.c0.z, self.c1.x, self.c1.y, self.c1.z, self.c3.x,
            self.c3.y, self.c3.z).can_neg()
        &&& can_det3(self.c0.x, self.c0.y, self.c0.z, self.c1.x, self.c1.y, self.c1.z, self.c2.x,
            self.c2.y, self.c2.z)
    }

    /// The adjugate: the entry in column `c` and row `r` is the determinant
    /// of the matrix without column `r` and row `c`, negated where `c + r` is odd.
    pub open spec fn adjugate_spec(self) -> Matrix4x4<S> {
        Matrix4x4 {
            c0: Vector4 {
                x: det3(self.c1.y, self.c1.z, self.c1.w, self.c2.y, self.c2.z, self.c2.w,
                    self.c3.y, self.c3.z, self.c3.w),
                y: det3(self.c0.y, self.c0.z, self.c0.w, self.c2.y, self.c2.z, self.c2.w,
                    self.c3.y, self.c3.z, self.c3.w).negated(),
                z: det3(self.c0.y, self.c0.z, self.c0.w, self.c1.y, self.c1.z, self.c1.w,
                    self.c3.y, self.c3.z, self.c3.w),
                w: det3(self.c0.y, self.c0.z, self.c0.w, self.c1.y, self.c1.z, self.c1.w,
                    self.c2.y, self.c2.z, self.c2.w).negated(),
            },
            c1: Vector4 {
                x: det3(self.c1.x, self.c1.z, self.c1.w, self.c2.x, self.c2.z, self.c2.w,
                    self.c3.x, self.c3.z, self.c3.w).negated(),
                y: det3(self.c0.x, self.c0.z, self.c0.w, self.c2.x, self.c2.z, self.c2.w,
                    self.c3.x, self.c3.z, self.c3.w),
                z: det3(self.c0.x, self.c0.z, self.c0.w, self.c1.x, self.c1.z, self.c1.w,
                    self.c3.x, self.c3.z, self.c3.w).negated(),
                w: det3(self.c0.x, self.c0.z, self.c0.w, self.c1.x, self.c1.z, self.c1.w,
                    self.c2.x, self.c2.z, self.c2.w),
            },
            c2: Vector4 {
                x: det3(self.c1.x, self.c1.y, self.c1.w, self.c2.x, self.c2.y, self.c2.w,
                    self.c3.x, self.c3.y, self.c3.w),
                y: det3(self.c0.x, self.c0.y, self.c0.w, self.c2.x, self.c2.y, self.c2.w,
                    self.c3.x, self.c3.y, self.c3.w).negated(),
                z: det3(self.c0.x, self.c0.y, self.c0.w, self.c1.x, self.c1.y, self.c1.w,
                    self.c3.x, self.c3.y, self.c3.w),
                w: det3(self.c0.x, self.c0.y, self.c0.w, self.c1.x, self.c1.y, self.c1.w,
                    self.c2.x, self.c2.y, self.c2.w).negated(),
            },
            c3: Vector4 {
                x: det3(self.c1.x, self.c1.y, self.c1.z, self.c2.x, self.c2.y, self.c2.z,
                    self.c3.x, self.c3.y, self.c3.z).negated(),
                y: det3(self.c0.x, self.c0.y, self.c0.z, self.c2.x, self.c2.y, self.c2.z,
                    self.c3.x, self.c3.y, self.c3.z),
                z: det3(self.c0.x, self.c0.y, self.c0.z, self.c1.x, self.c1.y, self.c1.z,
                    self.c3.x, self.c3.y, self.c3.z).negated(),
                w: det3(self.c0.x, self.c0.y, self.c0.z, self.c1.x, self.c1.y, self.c1.z,
                    self.c2.x, self.c2.y, self.c2.z),
            },
        }
    }

    /// True when the inverse can be computed: the determinant is defined and,
    /// unless it is zero, so are its reciprocal, the adjugate and their product.
    pub open spec fn can_inverse(self) -> bool {
        &&& self.can_determinant()
        &&& self.is_invertible_spec() ==> {
            &&& S::one_spec().can_div(self.determinant_spec())
            &&& self.can_adjugate()
            &&& self.adjugate_spec().can_scale_left(S::one_spec().over(self.determinant_spec()))
        }
    }

    /// The inverse: absent when the determinant is zero, else the adjugate
    /// multiplied from the left by the reciprocal of the determinant.
    pub open spec fn inverse_spec(self) -> Option<Matrix4x4<S>> {
        if self.is_invertible_spec() {
            Some(self.adjugate_spec().scaled_left(S::one_spec().over(self.determinant_spec())))
        } else {
            None
        }
    }

    /// The adjugate of the matrix.
    pub fn adjugate(&self) -> (r: Matrix4x4<S>)
        requires
            self.can_adjugate(),
        ensures
            r == self.adjugate_spec(),
    {
        Matrix4x4 {
            c0: Vector4 {
                x: det3_of(self.c1.y, self.c1.z, self.c1.w, self.c2.y, self.c2.z, self.c2.w,
                    self.c3.y, self.c3.z, self.c3.w),
                y: det3_of(self.c0.y, self.c0.z, self.c0.w, self.c2.y, self.c2.z, self.c2.w,
                    self.c3.y, self.c3.z, self.c3.w).neg(),
                z: det3_of(self.c0.y, self.c0.z, self.c0.w, self.c1.y, self.c1.z, self.c1.w,
                    self.c3.y, self.c3.z, self.c3.w),
                w: det3_of(self.c0.y, self.c0.z, self.c0.w, self.c1.y, self.c1.z, self.c1.w,
                    self.c2.y, self.c2.z, self.c2.w).neg(),
            },
            c1: Vector4 {
                x: det3_of(self.c1.x, self.c1.z, self.c1.w, self.c2.x, self.c2.z, self.c2.w,
                    self.c3.x, self.c3.z, self.c3.w).neg(),
                y: det3_of(self.c0.x, self.c0.z, self.c0.w, self.c2.x, self.c2.z, self.c2.w,
                    self.c3.x, self.c3.z, self.c3.w),
                z: det3_of(self.c0.x, self.c0.z, self.c0.w, self.c1.x, self.c1.z, self.c1.w,
                    self.c3.x, self.c3.z, self.c3.w).neg(),
                w: det3_of(self.c0.x, self.c0.z, self.c0.w, self.c1.x, self.c1.z, self.c1.w,
                    self.c2.x, self.c2.z, self.c2.w),
            },
            c2: Vector4 {
                x: det3_of(self.c1.x, self.c1.y, self.c1.w, self.c2.x, self.c2.y, self.c2.w,
                    self.c3.x, self.c3.y, self.c3.w),
                y: det3_of(self.c0.x, self.c0.y, self.c0.w, self.c2.x, self.c2.y, self.c2.w,
                    self.c3.x, self.c3.y, self.c3.w).neg(),
                z: det3_of(self.c0.x, self.c0.y, self.c0.w, self.c1.x, self.c1.y, self.c1.w,
                    self.c3.x, self.c3.y, self.c3.w),
                w: det3_of(self.c0.x, self.c0.y, self.c0.w, self.c1.x, self.c1.y, self.c1.w,
                    self.c2.x, self.c2.y, self.c2.w).neg(),
            },
            c3: Vector4 {
                x: det3_of(self.c1.x, self.c1.y, self.c1.z, self.c2.x, self.c2.y, self.c2.z,
                    self.c3.x, self.c3.y, self.c3.z).neg(),
                y: det3_of(self.c0.x, self.c0.y, self.c0.z, self.c2.x, self.c2.y, self.c2.z,
                    self.c3.x, self.c3.y, self.c3.z),
                z: det3_of(self.c0.x, self.c0.y, self.c0.z, self.c1.x, self.c1.y, self.c1.z,
                    self.c3.x, self.c3.y, self.c3.z).neg(),
                w: det3_of(self.c0.x, self.c0.y, self.c0.z, self.c1.x, self.c1.y, self.c1.z,
                    self.c2.x, self.c2.y, self.c2.z),
            },
        }
    }

    /// The inverse of the matrix, or `None` when its determinant is zero.
    pub fn inverse(&self) -> (r: Option<Matrix4x4<S>>)
        requires
            self.can_inverse(),
        ensures
            r == self.inverse_spec(),
            r is None <==> self.determinant_spec().same(S::zero_spec()),
    {
        let det = self.determinant();
        if det.equals(S::zero()) {
            None
        } else {
            let inv_det = S::one().div(det);
            Some(self.adjugate().scale_left(inv_det))
        }
    }
}

impl<S: Scalar> Matrix4x4<S> {
    /// The matrix that scales every axis by `scale`.
    pub open spec fn scale_spec(scale: S) -> Matrix4x4<S> {
        Matrix4x4 {
            c0: Vector4 { x: scale, y: S::zero_spec(), z: S::zero_spec(), w: S::zero_spec() },
            c1: Vector4 { x: S::zero_spec(), y: scale, z: S::zero_spec(), w: S::zero_spec() },
            c2: Vector4 { x: S::zero_spec(), y: S::zero_spec(), z: scale, w: S::zero_spec() },
            c3: Vector4 { x: S::zero_spec(), y: S::zero_spec(), z: S::zero_spec(), w: scale },
        }
    }

    /// The matrix that scales every axis by `scale`.
    pub fn from_scale(scale: S) -> (r: Matrix4x4<S>)
        ensures
            r == Self::scale_spec(scale),
    {
        Matrix4x4 {
            c0: Vector4 { x: scale, y: S::zero(), z: S::zero(), w: S::zero() },
            c1: Vector4 { x: S::zero(), y: scale, z: S::zero(), w: S::zero() },
            c2: Vector4 { x: S::zero(), y: S::zero(), z: scale, w: S::zero() },
            c3: Vector4 { x: S::zero(), y: S::zero(), z: S::zero(), w: scale },
        }
    }

    /// The matrix that scales each axis by the component of `scale` for it.
    pub open spec fn nonuniform_scale_spec(scale: Vector4<S>) -> Matrix4x4<S> {
        Matrix4x4 {
            c0: Vector4 {
                x: scale.x,
                y: S::zero_spec(),
                z: S::zero_spec(),
                w: S::zero_spec(),
            },
            c1: Vector4 {
                x: S::zero_spec(),
                y: scale.y,
                z: S::zero_spec(),
                w: S::zero_spec(),
            },
            c2: Vector4 {
                x: S::zero_spec(),
                y: S::zero_spec(),
                z: scale.z,
                w: S::zero_spec(),
            },
            c3: Vector4 {
                x: S::zero_spec(),
                y: S::zero_spec(),
                z: S::zero_spec(),
                w: scale.w,
            },
        }
    }

    /// The matrix that scales each axis by the component of `scale` for it.
    pub fn from_nonuniform_scale(scale: &Vector4<S>) -> (r: Matrix4x4<S>)
        ensures
            r == Self::nonuniform_scale_spec(*scale),
    {
        Matrix4x4 {
            c0: Vector4 { x: scale.x, y: S::zero(), z: S::zero(), w: S::zero() },
            c1: Vector4 { x: S::zero(), y: scale.y, z: S::zero(), w: S::zero() },
            c2: Vector4 { x: S::zero(), y: S::zero(), z: scale.z, w: S::zero() },
            c3: Vector4 { x: S::zero(), y: S::zero(), z: S::zero(), w: scale.w },
        }
    }

    /// The affine matrix that scales every axis of the 3-dimensional space by `scale`.
    pub open spec fn affine_scale_spec(scale: S) -> Matrix4x4<S> {
        Matrix4x4 {
            c0: Vector4 { x: scale, y: S::zero_spec(), z: S::zero_spec(), w: S::zero_spec() },
            c1: Vector4 { x: S::zero_spec(), y: scale, z: S::zero_spec(), w: S::zero_spec() },
            c2: Vector4 { x: S::zero_spec(), y: S::zero_spec(), z: scale, w: S::zero_spec() },
            c3: Vector4 {
                x: S::zero_spec(),
                y: S::zero_spec(),
                z: S::zero_spec(),
                w: S::one_spec(),
            },
        }
    }

    /// The affine matrix that scales every axis of the 3-dimensional space by `scale`.
    pub fn from_affine_scale(scale: S) -> (r: Matrix4x4<S>)
        ensures
            r == Self::affine_scale_spec(scale),
    {
        Matrix4x4 {
            c0: Vector4 { x: scale, y: S::zero(), z: S::zero(), w: S::zero() },
            c1: Vector4 { x: S::zero(), y: scale, z: S::zero(), w: S::zero() },
            c2: Vector4 { x: S::zero(), y: S::zero(), z: scale, w: S::zero() },
            c3: Vector4 { x: S::zero(), y: S::zero(), z: S::zero(), w: S::one() },
        }
    }

    /// The affine matrix that scales each axis by the component of `scale` for it.
    pub open spec fn affine_nonuniform_scale_spec(scale: Vector3<S>) -> Matrix4x4<S> {
        Matrix4x4 {
            c0: Vector4 {
                x: scale.x,
                y: S::zero_spec(),
                z: S::zero_spec(),
                w: S::zero_spec(),
            },
            c1: Vector4 {
                x: S::zero_spec(),
                y: scale.y,
                z: S::zero_spec(),
                w: S::zero_spec(),
            },
            c2: Vector4 {
                x: S::zero_spec(),
                y: S::zero_spec(),
                z: scale.z,
                w: S::zero_spec(),
            },
            c3: Vector4 {
                x: S::zero_spec(),
                y: S::zero_spec(),
                z: S::zero_spec(),
                w: S::one_spec(),
            },
        }
    }

    /// The affine matrix that scales each axis by the component of `scale` for it.
    pub fn from_affine_nonuniform_scale(scale: &Vector3<S>) -> (r: Matrix4x4<S>)
        ensures
            r == Self::affine_nonuniform_scale_spec(*scale),
    {
        Matrix4x4 {
            c0: Vector4 { x: scale.x, y: S::zero(), z: S::zero(), w: S::zero() },
            c1: Vector4 { x: S::zero(), y: scale.y, z: S::zero(), w: S::zero() },
            c2: Vector4 { x: S::zero(), y: S::zero(), z: scale.z, w: S::zero() },
            c3: Vector4 { x: S::zero(), y: S::zero(), z: S::zero(), w: S::one() },
        }
    }

    /// The affine matrix that displaces points by `distance`: the identity with `distance`
    /// in the last column.
    pub open spec fn affine_translation_spec(distance: Vector3<S>) -> Matrix4x4<S> {
        Matrix4x4 {
            c0: Vector4 {
                x: S::one_spec(),
                y: S::zero_spec(),
                z: S::zero_spec(),
                w: S::zero_spec(),
            },
            c1: Vector4 {
                x: S::zero_spec(),
                y: S::one_spec(),
                z: S::zero_spec(),
                w: S::zero_spec(),
            },
            c2: Vector4 {
                x: S::zero_spec(),
                y: S::zero_spec(),
                z: S::one_spec(),
                w: S::zero_spec(),
            },
            c3: Vector4 { x: distance.x, y: distance.y, z: distance.z, w: S::one_spec() },
        }
    }

    /// The affine matrix that displaces points by `distance`: the identity with `distance`
    /// in the last column.
    pub fn from_affine_translation(distance: &Vector3<S>) -> (r: Matrix4x4<S>)
        ensures
            r == Self::affine_translation_spec(*distance),
    {
        Matrix4x4 {
            c0: Vector4 { x: S::one(), y: S::zero(), z: S::zero(), w: S::zero() },
            c1: Vector4 { x: S::zero(), y: S::one(), z: S::zero(), w: S::zero() },
            c2: Vector4 { x: S::zero(), y: S::zero(), z: S::one(), w: S::zero() },
            c3: Vector4 { x: distance.x, y: distance.y, z: distance.z, w: S::one() },
        }
    }

    /// The affine shear of space along the x-axis: the other two components, each times its
    /// factor, are added to the x-component.
    pub open spec fn affine_shear_x_spec(shear_x_with_y: S, shear_x_with_z: S) -> Matrix4x4<S> {
        Matrix4x4 {
            c0: Vector4 {
                x: S::one_spec(),
                y: S::zero_spec(),
                z: S::zero_spec(),
                w: S::zero_spec(),
            },
            c1: Vector4 {
                x: shear_x_with_y,
                y: S::one_spec(),
                z: S::zero_spec(),
                w: S::zero_spec(),
            },
            c2: Vector4 {
                x: shear_x_with_z,
                y: S::zero_spec(),
                z: S::one_spec(),
                w: S::zero_spec(),
            },
            c3: Vector4 {
                x: S::zero_spec(),
                y: S::zero_spec(),
                z: S::zero_spec(),
                w: S::one_spec(),
            },
        }
    }

    /// The affine shear of space along the x-axis: the other two components, each times its
    /// factor, are added to the x-component.
    pub fn from_affine_shear_x(shear_x_with_y: S, shear_x_with_z: S) -> (r: Matrix4x4<S>)
        ensures
            r == Self::affine_shear_x_spec(shear_x_with_y, shear_x_with_z),
    {
        Matrix4x4 {
            c0: Vector4 { x: S::one(), y: S::zero(), z: S::zero(), w: S::zero() },
            c1: Vector4 { x: shear_x_with_y, y: S::one(), z: S::zero(), w: S::zero() },
            c2: Vector4 { x: shear_x_with_z, y: S::zero(), z: S::one(), w: S::zero() },
            c3: Vector4 { x: S::zero(), y: S::zero(), z: S::zero(), w: S::one() },
        }
    }

    /// The affine shear of space along the y-axis: the other two components, each times its
    /// factor, are added to the y-component.
    pub open spec fn affine_shear_y_spec(shear_y_with_x: S, shear_y_with_z: S) -> Matrix4x4<S> {
        Matrix4x4 {
            c0: Vector4 {
                x: S::one_spec(),
                y: shear_y_with_x,
                z: S::zero_spec(),
                w: S::zero_spec(),
            },
            c1: Vector4 {
                x: S::zero_spec(),
                y: S::one_spec(),
                z: S::zero_spec(),
                w: S::zero_spec(),
            },
            c2: Vector4 {
                x: S::zero_spec(),
                y: shear_y_with_z,
                z: S::one_spec(),
                w: S::zero_spec(),
            },
            c3: Vector4 {
                x: S::zero_spec(),
                y: S::zero_spec(),
                z: S::zero_spec(),
                w: S::one_spec(),
            },
        }
    }

    /// The affine shear of space along the y-axis: the other two components, each times its
    /// factor, are added to the y-component.
    pub fn from_affine_shear_y(shear_y_with_x: S, shear_y_with_z: S) -> (r: Matrix4x4<S>)
        ensures
            r == Self::affine_shear_y_spec(shear_y_with_x, shear_y_with_z),
    {
        Matrix4x4 {
            c0: Vector4 { x: S::one(), y: shear_y_with_x, z: S::zero(), w: S::zero() },
            c1: Vector4 { x: S::zero(), y: S::one(), z: S::zero(), w: S::zero() },
            c2: Vector4 { x: S::zero(), y: shear_y_with_z, z: S::one(), w: S::zero() },
            c3: Vector4 { x: S::zero(), y: S::zero(), z: S::zero(), w: S::one() },
        }
    }

    /// The affine shear of space along the z-axis: the other two components, each times its
    /// factor, are added to the z-component.
    pub open spec fn affine_shear_z_spec(shear_z_with_x: S, shear_z_with_y: S) -> Matrix4x4<S> {
        Matrix4x4 {
            c0: Vector4 {
                x: S::one_spec(),
                y: S::zero_spec(),
                z: shear_z_with_x,
                w: S::zero_spec(),
            },
            c1: Vector4 {
                x: S::zero_spec(),
                y: S::one_spec(),
                z: shear_z_with_y,
                w: S::zero_spec(),
            },
            c2: Vector4 {
                x: S::zero_spec(),
                y: S::zero_spec(),
                z: S::one_spec(),
                w: S::zero_spec(),
            },
            c3: Vector4 {
                x: S::zero_spec(),
                y: S::zero_spec(),
                z: S::zero_spec(),
                w: S::one_spec(),
            },
        }
    }

    /// The affine shear of space along the z-axis: the other two components, each times its
    /// factor, are added to the z-component.
    pub fn from_affine_shear_z(shear_z_with_x: S, shear_z_with_y: S) -> (r: Matrix4x4<S>)
        ensures
            r == Self::affine_shear_z_spec(shear_z_with_x, shear_z_with_y),
    {
        Matrix4x4 {
            c0: Vector4 { x: S::one(), y: S::zero(), z: shear_z_with_x, w: S::zero() },
            c1: Vector4 { x: S::zero(), y: S::one(), z: shear_z_with_y, w: S::zero() },
            c2: Vector4 { x: S::zero(), y: S::zero(), z: S::one(), w: S::zero() },
            c3: Vector4 { x: S::zero(), y: S::zero(), z: S::zero(), w: S::one() },
        }
    }

    /// The affine shear of space along all three axes at once: to each component the other
    /// two are added, each times its factor.
    pub open spec fn affine_shear_factors_spec(
        shear_x_with_y: S,
        shear_x_with_z: S,
        shear_y_with_x: S,
        shear_y_with_z: S,
        shear_z_with_x: S,
        shear_z_with_y: S,
    ) -> Matrix4x4<S> {
        Matrix4x4 {
            c0: Vector4 {
                x: S::one_spec(),
                y: shear_y_with_x,
                z: shear_z_with_x,
                w: S::zero_spec(),
            },
            c1: Vector4 {
                x: shear_x_with_y,
                y: S::one_spec(),
                z: shear_z_with_y,
                w: S::zero_spec(),
            },
            c2: Vector4 {
                x: shear_x_with_z,
                y: shear_y_with_z,
                z: S::one_spec(),
                w: S::zero_spec(),
            },
            c3: Vector4 {
                x: S::zero_spec(),
                y: S::zero_spec(),
                z: S::zero_spec(),
                w: S::one_spec(),
            },
        }
    }

    /// The affine shear of space along all three axes at once: to each component the other
    /// two are added, each times its factor.
    pub fn from_affine_shear_factors(
        shear_x_with_y: S,
        shear_x_with_z: S,
        shear_y_with_x: S,
        shear_y_with_z: S,
        shear_z_with_x: S,
        shear_z_with_y: S,
    ) -> (r: Matrix4x4<S>)
        ensures
            r == Self::affine_shear_factors_spec(shear_x_with_y, shear_x_with_z, shear_y_with_x,
                shear_y_with_z, shear_z_with_x, shear_z_with_y),
    {
        Matrix4x4 {
            c0: Vector4 { x: S::one(), y: shear_y_with_x, z: shear_z_with_x, w: S::zero() },
            c1: Vector4 { x: shear_x_with_y, y: S::one(), z: shear_z_with_y, w: S::zero() },
            c2: Vector4 { x: shear_x_with_z, y: shear_y_with_z, z: S::one(), w: S::zero() },
            c3: Vector4 { x: S::zero(), y: S::zero(), z: S::zero(), w: S::one() },
        }
    }

    /// True when every entry of `shear_spec` is defined.
    pub open spec fn can_from_shear(
        shear_factor: S,
        direction: Unit<Vector4<S>>,
        normal: Unit<Vector4<S>>,
    ) -> bool {
        &&& shear_factor.can_mul(direction@.x)
        &&& shear_factor.times(direction@.x).can_mul(normal@.x)
        &&& S::one_spec().can_add(shear_factor.times(direction@.x).times(normal@.x))
        &&& shear_factor.can_mul(direction@.y)
        &&& shear_factor.times(direction@.y).can_mul(normal@.x)
        &&& shear_factor.can_mul(direction@.z)
        &&& shear_factor.times(direction@.z).can_mul(normal@.x)
        &&& shear_factor.can_mul(direction@.w)
        &&& shear_factor.times(direction@.w).can_mul(normal@.x)
        &&& shear_factor.times(direction@.x).can_mul(normal@.y)
        &&& shear_factor.times(direction@.y).can_mul(normal@.y)
        &&& S::one_spec().can_add(shear_factor.times(direction@.y).times(normal@.y))
        &&& shear_factor.times(direction@.z).can_mul(normal@.y)
        &&& shear_factor.times(direction@.w).can_mul(normal@.y)
        &&& shear_factor.times(direction@.x).can_mul(normal@.z)
        &&& shear_factor.times(direction@.y).can_mul(normal@.z)
        &&& shear_factor.times(direction@.z).can_mul(normal@.z)
        &&& S::one_spec().can_add(shear_factor.times(direction@.z).times(normal@.z))
        &&& shear_factor.times(direction@.w).can_mul(normal@.z)
        &&& shear_factor.times(direction@.x).can_mul(normal@.w)
        &&& shear_factor.times(direction@.y).can_mul(normal@.w)
        &&& shear_factor.times(direction@.z).can_mul(normal@.w)
        &&& shear_factor.times(direction@.w).can_mul(normal@.w)
        &&& S::one_spec().can_add(shear_factor.times(direction@.w).times(normal@.w))
    }

    /// The shear by `shear_factor` along `direction`, measured along `normal`: the identity
    /// plus the factor times the outer product of the two.
    pub open spec fn shear_spec(
        shear_factor: S,
        direction: Unit<Vector4<S>>,
        normal: Unit<Vector4<S>>,
    ) -> Matrix4x4<S> {
        Matrix4x4 {
            c0: Vector4 {
                x: S::one_spec().plus(shear_factor.times(direction@.x).times(normal@.x)),
                y: shear_factor.times(direction@.y).times(normal@.x),
                z: shear_factor.times(direction@.z).times(normal@.x),
                w: shear_factor.times(direction@.w).times(normal@.x),
            },
            c1: Vector4 {
                x: shear_factor.times(direction@.x).times(normal@.y),
                y: S::one_spec().plus(shear_factor.times(direction@.y).times(normal@.y)),
                z: shear_factor.times(direction@.z).times(normal@.y),
                w: shear_factor.times(direction@.w).times(normal@.y),
            },
            c2: Vector4 {
                x: shear_factor.times(direction@.x).times(normal@.z),
                y: shear_factor.times(direction@.y).times(normal@.z),
                z: S::one_spec().plus(shear_factor.times(direction@.z).times(normal@.z)),
                w: shear_factor.times(direction@.w).times(normal@.z),
            },
            c3: Vector4 {
                x: shear_factor.times(direction@.x).times(normal@.w),
                y: shear_factor.times(direction@.y).times(normal@.w),
                z: shear_factor.times(direction@.z).times(normal@.w),
                w: S::one_spec().plus(shear_factor.times(direction@.w).times(normal@.w)),
            },
        }
    }

    /// The shear by `shear_factor` along `direction`, measured along `normal`: the identity
    /// plus the factor times the outer product of the two.
    pub fn from_shear(
        shear_factor: S,
        direction: &Unit<Vector4<S>>,
        normal: &Unit<Vector4<S>>,
    ) -> (r: Matrix4x4<S>)
        requires
            Self::can_from_shear(shear_factor, *direction, *normal),
        ensures
            r == Self::shear_spec(shear_factor, *direction, *normal),
    {
        Matrix4x4 {
            c0: Vector4 {
                x: S::one().add(shear_factor.mul(direction.value.x).mul(normal.value.x)),
                y: shear_factor.mul(direction.value.y).mul(normal.value.x),
                z: shear_factor.mul(direction.value.z).mul(normal.value.x),
                w: shear_factor.mul(direction.value.w).mul(normal.value.x),
            },
            c1: Vector4 {
                x: shear_factor.mul(direction.value.x).mul(normal.value.y),
                y: S::one().add(shear_factor.mul(direction.value.y).mul(normal.value.y)),
                z: shear_factor.mul(direction.value.z).mul(normal.value.y),
                w: shear_factor.mul(direction.value.w).mul(normal.value.y),
            },
            c2: Vector4 {
                x: shear_factor.mul(direction.value.x).mul(normal.value.z),
                y: shear_factor.mul(direction.value.y).mul(normal.value.z),
                z: S::one().add(shear_factor.mul(direction.value.z).mul(normal.value.z)),
                w: shear_factor.mul(direction.value.w).mul(normal.value.z),
            },
            c3: Vector4 {
                x: shear_factor.mul(direction.value.x).mul(normal.value.w),
                y: shear_factor.mul(direction.value.y).mul(normal.value.w),
                z: shear_factor.mul(direction.value.z).mul(normal.value.w),
                w: S::one().add(shear_factor.mul(direction.value.w).mul(normal.value.w)),
            },
        }
    }
}

impl<S: ScalarSigned> Matrix4x4<S> {
    /// True when every entry of `reflection_spec` is defined.
    pub open spec fn can_from_reflection(normal: Unit<Vector4<S>>) -> bool {
        &&& S::one_spec().can_add(S::one_spec())
        &&& S::one_spec().plus(S::one_spec()).can_mul(normal@.x)
        &&& S::one_spec().plus(S::one_spec()).times(normal@.x).can_mul(normal@.x)
        &&& S::one_spec().can_sub(S::one_spec().plus(S::one_spec()).times(normal@.x)
            .times(normal@.x))
        &&& S::one_spec().plus(S::one_spec()).can_neg()
        &&& S::one_spec().plus(S::one_spec()).negated().can_mul(normal@.x)
        &&& S::one_spec().plus(S::one_spec()).negated().times(normal@.x).can_mul(normal@.y)
        &&& S::one_spec().plus(S::one_spec()).negated().times(normal@.x).can_mul(normal@.z)
        &&& S::one_spec().plus(S::one_spec()).negated().times(normal@.x).can_mul(normal@.w)
        &&& S::one_spec().plus(S::one_spec()).can_mul(normal@.y)
        &&& S::one_spec().plus(S::one_spec()).times(normal@.y).can_mul(normal@.y)
        &&& S::one_spec().can_sub(S::one_spec().plus(S::one_spec()).times(normal@.y)
            .times(normal@.y))
        &&& S::one_spec().plus(S::one_spec()).negated().can_mul(normal@.y)
        &&& S::one_spec().plus(S::one_spec()).negated().times(normal@.y).can_mul(normal@.z)
        &&& S::one_spec().plus(S::one_spec()).negated().times(normal@.y).can_mul(normal@.w)
        &&& S::one_spec().plus(S::one_spec()).can_mul(normal@.z)
        &&& S::one_spec().plus(S::one_spec()).times(normal@.z).can_mul(normal@.z)
        &&& S::one_spec().can_sub(S::one_spec().plus(S::one_spec()).times(normal@.z)
            .times(normal@.z))
        &&& S::one_spec().plus(S::one_spec()).negated().can_mul(normal@.z)
        &&& S::one_spec().plus(S::one_spec()).negated().times(normal@.z).can_mul(normal@.w)
        &&& S::one_spec().plus(S::one_spec()).can_mul(normal@.w)
        &&& S::one_spec().plus(S::one_spec()).times(normal@.w).can_mul(normal@.w)
        &&& S::one_spec().can_sub(S::one_spec().plus(S::one_spec()).times(normal@.w)
            .times(normal@.w))
    }

    /// The reflection through the line or plane through the origin with the unit normal
    /// `normal`: the identity minus twice the outer product of the normal with itself.
    pub open spec fn reflection_spec(normal: Unit<Vector4<S>>) -> Matrix4x4<S> {
        Matrix4x4 {
            c0: Vector4 {
                x: S::one_spec().minus(S::one_spec().plus(S::one_spec()).times(normal@.x)
                    .times(normal@.x)),
                y: S::one_spec().plus(S::one_spec()).negated().times(normal@.x).times(normal@.y),
                z: S::one_spec().plus(S::one_spec()).negated().times(normal@.x).times(normal@.z),
                w: S::one_spec().plus(S::one_spec()).negated().times(normal@.x).times(normal@.w),
            },
            c1: Vector4 {
                x: S::one_spec().plus(S::one_spec()).negated().times(normal@.x).times(normal@.y),
                y: S::one_spec().minus(S::one_spec().plus(S::one_spec()).times(normal@.y)
                    .times(normal@.y)),
                z: S::one_spec().plus(S::one_spec()).negated().times(normal@.y).times(normal@.z),
                w: S::one_spec().plus(S::one_spec()).negated().times(normal@.y).times(normal@.w),
            },
            c2: Vector4 {
                x: S::one_spec().plus(S::one_spec()).negated().times(normal@.x).times(normal@.z),
                y: S::one_spec().plus(S::one_spec()).negated().times(normal@.y).times(normal@.z),
                z: S::one_spec().minus(S::one_spec().plus(S::one_spec()).times(normal@.z)
                    .times(normal@.z)),
                w: S::one_spec().plus(S::one_spec()).negated().times(normal@.z).times(normal@.w),
            },
            c3: Vector4 {
                x: S::one_spec().plus(S::one_spec()).negated().times(normal@.x).times(normal@.w),
                y: S::one_spec().plus(S::one_spec()).negated().times(normal@.y).times(normal@.w),
                z: S::one_spec().plus(S::one_spec()).negated().times(normal@.z).times(normal@.w),
                w: S::one_spec().minus(S::one_spec().plus(S::one_spec()).times(normal@.w)
                    .times(normal@.w)),
            },
        }
    }

    /// The reflection through the line or plane through the origin with the unit normal
    /// `normal`: the identity minus twice the outer product of the normal with itself.
    pub fn from_reflection(normal: &Unit<Vector4<S>>) -> (r: Matrix4x4<S>)
        requires
            Self::can_from_reflection(*normal),
        ensures
            r == Self::reflection_spec(*normal),
    {
        Matrix4x4 {
            c0: Vector4 {
                x: S::one().sub(S::one().add(S::one()).mul(normal.value.x).mul(normal.value.x)),
                y: S::one().add(S::one()).neg().mul(normal.value.x).mul(normal.value.y),
                z: S::one().add(S::one()).neg().mul(normal.value.x).mul(normal.value.z),
                w: S::one().add(S::one()).neg().mul(normal.value.x).mul(normal.value.w),
            },
            c1: Vector4 {
                x: S::one().add(S::one()).neg().mul(normal.value.x).mul(normal.value.y),
                y: S::one().sub(S::one().add(S::one()).mul(normal.value.y).mul(normal.value.y)),
                z: S::one().add(S::one()).neg().mul(normal.value.y).mul(normal.value.z),
                w: S::one().add(S::one()).neg().mul(normal.value.y).mul(normal.value.w),
            },
            c2: Vector4 {
                x: S::one().add(S::one()).neg().mul(normal.value.x).mul(normal.value.z),
                y: S::one().add(S::one()).neg().mul(normal.value.y).mul(normal.value.z),
                z: S::one().sub(S::one().add(S::one()).mul(normal.value.z).mul(normal.value.z)),
                w: S::one().add(S::one()).neg().mul(normal.value.z).mul(normal.value.w),
            },
            c3: Vector4 {
                x: S::one().add(S::one()).neg().mul(normal.value.x).mul(normal.value.w),
                y: S::one().add(S::one()).neg().mul(normal.value.y).mul(normal.value.w),
                z: S::one().add(S::one()).neg().mul(normal.value.z).mul(normal.value.w),
                w: S::one().sub(S::one().add(S::one()).mul(normal.value.w).mul(normal.value.w)),
            },
        }
    }

    /// True when every entry of `affine_reflection_spec` is defined.
    pub open spec fn can_from_affine_reflection(normal: Unit<Vector3<S>>, bias: Point3<S>) -> bool {
        &&& S::one_spec().can_add(S::one_spec())
        &&& S::one_spec().plus(S::one_spec()).can_mul(normal@.x)
        &&& S::one_spec().plus(S::one_spec()).times(normal@.x).can_mul(normal@.x)
        &&& S::one_spec().can_sub(S::one_spec().plus(S::one_spec()).times(normal@.x)
            .times(normal@.x))
        &&& S::one_spec().plus(S::one_spec()).can_neg()
        &&& S::one_spec().plus(S::one_spec()).negated().can_mul(normal@.x)
        &&& S::one_spec().plus(S::one_spec()).negated().times(normal@.x).can_mul(normal@.y)
        &&& S::one_spec().plus(S::one_spec()).negated().times(normal@.x).can_mul(normal@.z)
        &&& S::one_spec().plus(S::one_spec()).can_mul(normal@.y)
        &&& S::one_spec().plus(S::one_spec()).times(normal@.y).can_mul(normal@.y)
        &&& S::one_spec().can_sub(S::one_spec().plus(S::one_spec()).times(normal@.y)
            .times(normal@.y))
        &&& S::one_spec().plus(S::one_spec()).negated().can_mul(normal@.y)
        &&& S::one_spec().plus(S::one_spec()).negated().times(normal@.y).can_mul(normal@.z)
        &&& S::one_spec().plus(S::one_spec()).can_mul(normal@.z)
        &&& S::one_spec().plus(S::one_spec()).times(normal@.z).can_mul(normal@.z)
        &&& S::one_spec().can_sub(S::one_spec().plus(S::one_spec()).times(normal@.z)
            .times(normal@.z))
        &&& normal@.x.can_mul(bias.x)
        &&& normal@.y.can_mul(bias.y)
        &&& normal@.x.times(bias.x).can_add(normal@.y.times(bias.y))
        &&& normal@.z.can_mul(bias.z)
        &&& normal@.x.times(bias.x).plus(normal@.y.times(bias.y)).can_add(normal@.z.times(bias.z))
        &&& S::one_spec().plus(S::one_spec()).times(normal@.x).can_mul(normal@.x
            .times(bias.x).plus(normal@.y.times(bias.y)).plus(normal@.z.times(bias.z)))
        &&& S::one_spec().plus(S::one_spec()).times(normal@.y).can_mul(normal@.x
            .times(bias.x).plus(normal@.y.times(bias.y)).plus(normal@.z.times(bias.z)))
        &&& S::one_spec().plus(S::one_spec()).times(normal@.z).can_mul(normal@.x
            .times(bias.x).plus(normal@.y.times(bias.y)).plus(normal@.z.times(bias.z)))
    }

    /// The affine reflection through the line or plane with the unit normal `normal` that
    /// passes through `bias`.
    pub open spec fn affine_reflection_spec(
        normal: Unit<Vector3<S>>,
        bias: Point3<S>,
    ) -> Matrix4x4<S> {
        Matrix4x4 {
            c0: Vector4 {
                x: S::one_spec().minus(S::one_spec().plus(S::one_spec()).times(normal@.x)
                    .times(normal@.x)),
                y: S::one_spec().plus(S::one_spec()).negated().times(normal@.x).times(normal@.y),
                z: S::one_spec().plus(S::one_spec()).negated().times(normal@.x).times(normal@.z),
                w: S::zero_spec(),
            },
            c1: Vector4 {
                x: S::one_spec().plus(S::one_spec()).negated().times(normal@.x).times(normal@.y),
                y: S::one_spec().minus(S::one_spec().plus(S::one_spec()).times(normal@.y)
                    .times(normal@.y)),
                z: S::one_spec().plus(S::one_spec()).negated().times(normal@.y).times(normal@.z),
                w: S::zero_spec(),
            },
            c2: Vector4 {
                x: S::one_spec().plus(S::one_spec()).negated().times(normal@.x).times(normal@.z),
                y: S::one_spec().plus(S::one_spec()).negated().times(normal@.y).times(normal@.z),
                z: S::one_spec().minus(S::one_spec().plus(S::one_spec()).times(normal@.z)
                    .times(normal@.z)),
                w: S::zero_spec(),
            },
            c3: Vector4 {
                x: S::one_spec().plus(S::one_spec()).times(normal@.x).times(normal@.x
                    .times(bias.x).plus(normal@.y.times(bias.y)).plus(normal@.z.times(bias.z))),
                y: S::one_spec().plus(S::one_spec()).times(normal@.y).times(normal@.x
                    .times(bias.x).plus(normal@.y.times(bias.y)).plus(normal@.z.times(bias.z))),
                z: S::one_spec().plus(S::one_spec()).times(normal@.z).times(normal@.x
                    .times(bias.x).plus(normal@.y.times(bias.y)).plus(normal@.z.times(bias.z))),
                w: S::one_spec(),
            },
        }
    }

    /// The affine reflection through the line or plane with the unit normal `normal` that
    /// passes through `bias`.
    pub fn from_affine_reflection(normal: &Unit<Vector3<S>>, bias: &Point3<S>) -> (r: Matrix4x4<S>)
        requires
            Self::can_from_affine_reflection(*normal, *bias),
        ensures
            r == Self::affine_reflection_spec(*normal, *bias),
    {
        Matrix4x4 {
            c0: Vector4 {
                x: S::one().sub(S::one().add(S::one()).mul(normal.value.x).mul(normal.value.x)),
                y: S::one().add(S::one()).neg().mul(normal.value.x).mul(normal.value.y),
                z: S::one().add(S::one()).neg().mul(normal.value.x).mul(normal.value.z),
                w: S::zero(),
            },
            c1: Vector4 {
                x: S::one().add(S::one()).neg().mul(normal.value.x).mul(normal.value.y),
                y: S::one().sub(S::one().add(S::one()).mul(normal.value.y).mul(normal.value.y)),
                z: S::one().add(S::one()).neg().mul(normal.value.y).mul(normal.value.z),
                w: S::zero(),
            },
            c2: Vector4 {
                x: S::one().add(S::one()).neg().mul(normal.value.x).mul(normal.value.z),
                y: S::one().add(S::one()).neg().mul(normal.value.y).mul(normal.value.z),
                z: S::one().sub(S::one().add(S::one()).mul(normal.value.z).mul(normal.value.z)),
                w: S::zero(),
            },
            c3: Vector4 {
                x: S::one().add(S::one()).mul(normal.value.x).mul(normal.value.x.mul(bias.x)
                    .add(normal.value.y.mul(bias.y)).add(normal.value.z.mul(bias.z))),
                y: S::one().add(S::one()).mul(normal.value.y).mul(normal.value.x.mul(bias.x)
                    .add(normal.value.y.mul(bias.y)).add(normal.value.z.mul(bias.z))),
                z: S::one().add(S::one()).mul(normal.value.z).mul(normal.value.x.mul(bias.x)
                    .add(normal.value.y.mul(bias.y)).add(normal.value.z.mul(bias.z))),
                w: S::one(),
            },
        }
    }

    /// True when every entry of `affine_shear_spec` is defined.
    pub open spec fn can_from_affine_shear(
        shear_factor: S,
        origin: Point3<S>,
        direction: Unit<Vector3<S>>,
        normal: Unit<Vector3<S>>,
    ) -> bool {
        &&& shear_factor.can_mul(direction@.x)
        &&& shear_factor.times(direction@.x).can_mul(normal@.x)
        &&& S::one_spec().can_add(shear_factor.times(direction@.x).times(normal@.x))
        &&& shear_factor.can_mul(direction@.y)
        &&& shear_factor.times(direction@.y).can_mul(normal@.x)
        &&& shear_factor.can_mul(direction@.z)
        &&& shear_factor.times(direction@.z).can_mul(normal@.x)
        &&& shear_factor.times(direction@.x).can_mul(normal@.y)
        &&& shear_factor.times(direction@.y).can_mul(normal@.y)
        &&& S::one_spec().can_add(shear_factor.times(direction@.y).times(normal@.y))
        &&& shear_factor.times(direction@.z).can_mul(normal@.y)
        &&& shear_factor.times(direction@.x).can_mul(normal@.z)
        &&& shear_factor.times(direction@.y).can_mul(normal@.z)
        &&& shear_factor.times(direction@.z).can_mul(normal@.z)
        &&& S::one_spec().can_add(shear_factor.times(direction@.z).times(normal@.z))
        &&& shear_factor.can_neg()
        &&& origin.x.can_mul(normal@.x)
        &&& origin.y.can_mul(normal@.y)
        &&& origin.x.times(normal@.x).can_add(origin.y.times(normal@.y))
        &&& origin.z.can_mul(normal@.z)
        &&& origin.x.times(normal@.x).plus(origin.y.times(normal@.y)).can_add(origin.z
            .times(normal@.z))
        &&& shear_factor.negated().can_mul(origin.x.times(normal@.x).plus(origin.y
            .times(normal@.y)).plus(origin.z.times(normal@.z)))
        &&& shear_factor.negated().times(origin.x.times(normal@.x).plus(origin.y
            .times(normal@.y)).plus(origin.z.times(normal@.z))).can_mul(direction@.x)
        &&& shear_factor.negated().times(origin.x.times(normal@.x).plus(origin.y
            .times(normal@.y)).plus(origin.z.times(normal@.z))).can_mul(direction@.y)
        &&& shear_factor.negated().times(origin.x.times(normal@.x).plus(origin.y
            .times(normal@.y)).plus(origin.z.times(normal@.z))).can_mul(direction@.z)
    }

    /// The affine shear by `shear_factor` along `direction`, measured along `normal` from
    /// the plane through `origin`.
    pub open spec fn affine_shear_spec(
        shear_factor: S,
        origin: Point3<S>,
        direction: Unit<Vector3<S>>,
        normal: Unit<Vector3<S>>,
    ) -> Matrix4x4<S> {
        Matrix4x4 {
            c0: Vector4 {
                x: S::one_spec().plus(shear_factor.times(direction@.x).times(normal@.x)),
                y: shear_factor.times(direction@.y).times(normal@.x),
                z: shear_factor.times(direction@.z).times(normal@.x),
                w: S::zero_spec(),
            },
            c1: Vector4 {
                x: shear_factor.times(direction@.x).times(normal@.y),
                y: S::one_spec().plus(shear_factor.times(direction@.y).times(normal@.y)),
                z: shear_factor.times(direction@.z).times(normal@.y),
                w: S::zero_spec(),
            },
            c2: Vector4 {
                x: shear_factor.times(direction@.x).times(normal@.z),
                y: shear_factor.times(direction@.y).times(normal@.z),
                z: S::one_spec().plus(shear_factor.times(direction@.z).times(normal@.z)),
                w: S::zero_spec(),
            },
            c3: Vector4 {
                x: shear_factor.negated().times(origin.x.times(normal@.x).plus(origin.y
                    .times(normal@.y)).plus(origin.z.times(normal@.z))).times(direction@.x),
                y: shear_factor.negated().times(origin.x.times(normal@.x).plus(origin.y
                    .times(normal@.y)).plus(origin.z.times(normal@.z))).times(direction@.y),
                z: shear_factor.negated().times(origin.x.times(normal@.x).plus(origin.y
                    .times(normal@.y)).plus(origin.z.times(normal@.z))).times(direction@.z),
                w: S::one_spec(),
            },
        }
    }

    /// The affine shear by `shear_factor` along `direction`, measured along `normal` from
    /// the plane through `origin`.
    pub fn from_affine_shear(
        shear_factor: S,
        origin: &Point3<S>,
        direction: &Unit<Vector3<S>>,
        normal: &Unit<Vector3<S>>,
    ) -> (r: Matrix4x4<S>)
        requires
            Self::can_from_affine_shear(shear_factor, *origin, *direction, *normal),
        ensures
            r == Self::affine_shear_spec(shear_factor, *origin, *direction, *normal),
    {
        Matrix4x4 {
            c0: Vector4 {
                x: S::one().add(shear_factor.mul(direction.value.x).mul(normal.value.x)),
                y: shear_factor.mul(direction.value.y).mul(normal.value.x),
                z: shear_factor.mul(direction.value.z).mul(normal.value.x),
                w: S::zero(),
            },
            c1: Vector4 {
                x: shear_factor.mul(direction.value.x).mul(normal.value.y),
                y: S::one().add(shear_factor.mul(direction.value.y).mul(normal.value.y)),
                z: shear_factor.mul(direction.value.z).mul(normal.value.y),
                w: S::zero(),
            },
            c2: Vector4 {
                x: shear_factor.mul(direction.value.x).mul(normal.value.z),
                y: shear_factor.mul(direction.value.y).mul(normal.value.z),
                z: S::one().add(shear_factor.mul(direction.value.z).mul(normal.value.z)),
                w: S::zero(),
            },
            c3: Vector4 {
                x: shear_factor.neg().mul(origin.x.mul(normal.value.x).add(origin.y
                    .mul(normal.value.y)).add(origin.z.mul(normal.value.z))).mul(direction.value.x),
                y: shear_factor.neg().mul(origin.x.mul(normal.value.x).add(origin.y
                    .mul(normal.value.y)).add(origin.z.mul(normal.value.z))).mul(direction.value.y),
                z: shear_factor.neg().mul(origin.x.mul(normal.value.x).add(origin.y
                    .mul(normal.value.y)).add(origin.z.mul(normal.value.z))).mul(direction.value.z),
                w: S::one(),
            },
        }
    }

    /// True when every entry of `orthographic_spec` is defined.
    pub open spec fn can_from_orthographic(
        left: S,
        right: S,
        bottom: S,
        top: S,
        near: S,
        far: S,
    ) -> bool {
        &&& S::one_spec().can_add(S::one_spec())
        &&& right.can_sub(left)
        &&& S::one_spec().plus(S::one_spec()).can_div(right.minus(left))
        &&& top.can_sub(bottom)
        &&& S::one_spec().plus(S::one_spec()).can_div(top.minus(bottom))
        &&& S::one_spec().plus(S::one_spec()).can_neg()
        &&& far.can_sub(near)
        &&& S::one_spec().plus(S::one_spec()).negated().can_div(far.minus(near))
        &&& right.can_add(left)
        &&& right.plus(left).can_neg()
        &&& right.plus(left).negated().can_div(right.minus(left))
        &&& top.can_add(bottom)
        &&& top.plus(bottom).can_neg()
        &&& top.plus(bottom).negated().can_div(top.minus(bottom))
        &&& far.can_add(near)
        &&& far.plus(near).can_neg()
        &&& far.plus(near).negated().can_div(far.minus(near))
    }

    /// The orthographic projection of the box between `left` and `right`, `bottom` and
    /// `top`, `near` and `far` onto the cube from -1 to 1.
    pub open spec fn orthographic_spec(
        left: S,
        right: S,
        bottom: S,
        top: S,
        near: S,
        far: S,
    ) -> Matrix4x4<S> {
        Matrix4x4 {
            c0: Vector4 {
                x: S::one_spec().plus(S::one_spec()).over(right.minus(left)),
                y: S::zero_spec(),
                z: S::zero_spec(),
                w: S::zero_spec(),
            },
            c1: Vector4 {
                x: S::zero_spec(),
                y: S::one_spec().plus(S::one_spec()).over(top.minus(bottom)),
                z: S::zero_spec(),
                w: S::zero_spec(),
            },
            c2: Vector4 {
                x: S::zero_spec(),
                y: S::zero_spec(),
                z: S::one_spec().plus(S::one_spec()).negated().over(far.minus(near)),
                w: S::zero_spec(),
            },
            c3: Vector4 {
                x: right.plus(left).negated().over(right.minus(left)),
                y: top.plus(bottom).negated().over(top.minus(bottom)),
                z: far.plus(near).negated().over(far.minus(near)),
                w: S::one_spec(),
            },
        }
    }

    /// The orthographic projection of the box between `left` and `right`, `bottom` and
    /// `top`, `near` and `far` onto the cube from -1 to 1.
    pub fn from_orthographic(
        left: S,
        right: S,
        bottom: S,
        top: S,
        near: S,
        far: S,
    ) -> (r: Matrix4x4<S>)
        requires
            Self::can_from_orthographic(left, right, bottom, top, near, far),
        ensures
            r == Self::orthographic_spec(left, right, bottom, top, near, far),
    {
        Matrix4x4 {
            c0: Vector4 {
                x: S::one().add(S::one()).div(right.sub(left)),
                y: S::zero(),
                z: S::zero(),
                w: S::zero(),
            },
            c1: Vector4 {
                x: S::zero(),
                y: S::one().add(S::one()).div(top.sub(bottom)),
                z: S::zero(),
                w: S::zero(),
            },
            c2: Vector4 {
                x: S::zero(),
                y: S::zero(),
                z: S::one().add(S::one()).neg().div(far.sub(near)),
                w: S::zero(),
            },
            c3: Vector4 {
                x: right.add(left).neg().div(right.sub(left)),
                y: top.add(bottom).neg().div(top.sub(bottom)),
                z: far.add(near).neg().div(far.sub(near)),
                w: S::one(),
            },
        }
    }

    /// True when every entry of `perspective_spec` is defined.
    pub open spec fn can_from_perspective(
        left: S,
        right: S,
        bottom: S,
        top: S,
        near: S,
        far: S,
    ) -> bool {
        &&& S::one_spec().can_add(S::one_spec())
        &&& S::one_spec().plus(S::one_spec()).can_mul(near)
        &&& right.can_sub(left)
        &&& S::one_spec().plus(S::one_spec()).times(near).can_div(right.minus(left))
        &&& top.can_sub(bottom)
        &&& S::one_spec().plus(S::one_spec()).times(near).can_div(top.minus(bottom))
        &&& right.can_add(left)
        &&& right.plus(left).can_div(right.minus(left))
        &&& top.can_add(bottom)
        &&& top.plus(bottom).can_div(top.minus(bottom))
        &&& far.can_add(near)
        &&& far.plus(near).can_neg()
        &&& far.can_sub(near)
        &&& far.plus(near).negated().can_div(far.minus(near))
        &&& S::one_spec().can_neg()
        &&& S::one_spec().plus(S::one_spec()).can_mul(far)
        &&& S::one_spec().plus(S::one_spec()).times(far).can_mul(near)
        &&& S::one_spec().plus(S::one_spec()).times(far).times(near).can_neg()
        &&& S::one_spec().plus(S::one_spec()).times(far).times(near).negated().can_div(far
            .minus(near))
    }

    /// The perspective projection of the frustum whose near face lies between `left` and
    /// `right`, `bottom` and `top`, at the distance `near`, and which ends at `far`.
    pub open spec fn perspective_spec(
        left: S,
        right: S,
        bottom: S,
        top: S,
        near: S,
        far: S,
    ) -> Matrix4x4<S> {
        Matrix4x4 {
            c0: Vector4 {
                x: S::one_spec().plus(S::one_spec()).times(near).over(right.minus(left)),
                y: S::zero_spec(),
                z: S::zero_spec(),
                w: S::zero_spec(),
            },
            c1: Vector4 {
                x: S::zero_spec(),
                y: S::one_spec().plus(S::one_spec()).times(near).over(top.minus(bottom)),
                z: S::zero_spec(),
                w: S::zero_spec(),
            },
            c2: Vector4 {
                x: right.plus(left).over(right.minus(left)),
                y: top.plus(bottom).over(top.minus(bottom)),
                z: far.plus(near).negated().over(far.minus(near)),
                w: S::one_spec().negated(),
            },
            c3: Vector4 {
                x: S::zero_spec(),
                y: S::zero_spec(),
                z: S::one_spec().plus(S::one_spec()).times(far).times(near).negated()
                    .over(far.minus(near)),
                w: S::zero_spec(),
            },
        }
    }

    /// The perspective projection of the frustum whose near face lies between `left` and
    /// `right`, `bottom` and `top`, at the distance `near`, and which ends at `far`.
    pub fn from_perspective(
        left: S,
        right: S,
        bottom: S,
        top: S,
        near: S,
        far: S,
    ) -> (r: Matrix4x4<S>)
        requires
            Self::can_from_perspective(left, right, bottom, top, near, far),
        ensures
            r == Self::perspective_spec(left, right, bottom, top, near, far),
    {
        Matrix4x4 {
            c0: Vector4 {
                x: S::one().add(S::one()).mul(near).div(right.sub(left)),
                y: S::zero(),
                z: S::zero(),
                w: S::zero(),
            },
            c1: Vector4 {
                x: S::zero(),
                y: S::one().add(S::one()).mul(near).div(top.sub(bottom)),
                z: S::zero(),
                w: S::zero(),
            },
            c2: Vector4 {
                x: right.add(left).div(right.sub(left)),
                y: top.add(bottom).div(top.sub(bottom)),
                z: far.add(near).neg().div(far.sub(near)),
                w: S::one().neg(),
            },
            c3: Vector4 {
                x: S::zero(),
                y: S::zero(),
                z: S::one().add(S::one()).mul(far).mul(near).neg().div(far.sub(near)),
                w: S::zero(),
            },
        }
    }
}

impl<S: ScalarSigned> Matrix4x4<S> {
    /// True when every entry of `affine_cos_sin_x_spec` is defined.
    pub open spec fn can_from_affine_cos_sin_x(cosine: S, sine: S) -> bool {
        &&& sine.can_neg()
    }

    /// The affine rotation of space about the x-axis by the angle with the given cosine and
    /// sine.
    pub open spec fn affine_cos_sin_x_spec(cosine: S, sine: S) -> Matrix4x4<S> {
        Matrix4x4 {
            c0: Vector4 {
                x: S::one_spec(),
                y: S::zero_spec(),
                z: S::zero_spec(),
                w: S::zero_spec(),
            },
            c1: Vector4 { x: S::zero_spec(), y: cosine, z: sine, w: S::zero_spec() },
            c2: Vector4 { x: S::zero_spec(), y: sine.negated(), z: cosine, w: S::zero_spec() },
            c3: Vector4 {
                x: S::zero_spec(),
                y: S::zero_spec(),
                z: S::zero_spec(),
                w: S::one_spec(),
            },
        }
    }

    /// The affine rotation of space about the x-axis by the angle with the given cosine and
    /// sine.
    pub fn from_affine_cos_sin_x(cosine: S, sine: S) -> (r: Matrix4x4<S>)
        requires
            Self::can_from_affine_cos_sin_x(cosine, sine),
        ensures
            r == Self::affine_cos_sin_x_spec(cosine, sine),
    {
        Matrix4x4 {
            c0: Vector4 { x: S::one(), y: S::zero(), z: S::zero(), w: S::zero() },
            c1: Vector4 { x: S::zero(), y: cosine, z: sine, w: S::zero() },
            c2: Vector4 { x: S::zero(), y: sine.neg(), z: cosine, w: S::zero() },
            c3: Vector4 { x: S::zero(), y: S::zero(), z: S::zero(), w: S::one() },
        }
    }

    /// True when every entry of `affine_cos_sin_y_spec` is defined.
    pub open spec fn can_from_affine_cos_sin_y(cosine: S, sine: S) -> bool {
        &&& sine.can_neg()
    }

    /// The affine rotation of space about the y-axis by the angle with the given cosine and
    /// sine.
    pub open spec fn affine_cos_sin_y_spec(cosine: S, sine: S) -> Matrix4x4<S> {
        Matrix4x4 {
            c0: Vector4 { x: cosine, y: S::zero_spec(), z: sine.negated(), w: S::zero_spec() },
            c1: Vector4 {
                x: S::zero_spec(),
                y: S::one_spec(),
                z: S::zero_spec(),
                w: S::zero_spec(),
            },
            c2: Vector4 { x: sine, y: S::zero_spec(), z: cosine, w: S::zero_spec() },
            c3: Vector4 {
                x: S::zero_spec(),
                y: S::zero_spec(),
                z: S::zero_spec(),
                w: S::one_spec(),
            },
        }
    }

    /// The affine rotation of space about the y-axis by the angle with the given cosine and
    /// sine.
    pub fn from_affine_cos_sin_y(cosine: S, sine: S) -> (r: Matrix4x4<S>)
        requires
            Self::can_from_affine_cos_sin_y(cosine, sine),
        ensures
            r == Self::affine_cos_sin_y_spec(cosine, sine),
    {
        Matrix4x4 {
            c0: Vector4 { x: cosine, y: S::zero(), z: sine.neg(), w: S::zero() },
            c1: Vector4 { x: S::zero(), y: S::one(), z: S::zero(), w: S::zero() },
            c2: Vector4 { x: sine, y: S::zero(), z: cosine, w: S::zero() },
            c3: Vector4 { x: S::zero(), y: S::zero(), z: S::zero(), w: S::one() },
        }
    }

    /// True when every entry of `affine_cos_sin_z_spec` is defined.
    pub open spec fn can_from_affine_cos_sin_z(cosine: S, sine: S) -> bool {
        &&& sine.can_neg()
    }

    /// The affine rotation of space about the z-axis by the angle with the given cosine and
    /// sine.
    pub open spec fn affine_cos_sin_z_spec(cosine: S, sine: S) -> Matrix4x4<S> {
        Matrix4x4 {
            c0: Vector4 { x: cosine, y: sine, z: S::zero_spec(), w: S::zero_spec() },
            c1: Vector4 { x: sine.negated(), y: cosine, z: S::zero_spec(), w: S::zero_spec() },
            c2: Vector4 {
                x: S::zero_spec(),
                y: S::zero_spec(),
                z: S::one_spec(),
                w: S::zero_spec(),
            },
            c3: Vector4 {
                x: S::zero_spec(),
                y: S::zero_spec(),
                z: S::zero_spec(),
                w: S::one_spec(),
            },
        }
    }

    /// The affine rotation of space about the z-axis by the angle with the given cosine and
    /// sine.
    pub fn from_affine_cos_sin_z(cosine: S, sine: S) -> (r: Matrix4x4<S>)
        requires
            Self::can_from_affine_cos_sin_z(cosine, sine),
        ensures
            r == Self::affine_cos_sin_z_spec(cosine, sine),
    {
        Matrix4x4 {
            c0: Vector4 { x: cosine, y: sine, z: S::zero(), w: S::zero() },
            c1: Vector4 { x: sine.neg(), y: cosine, z: S::zero(), w: S::zero() },
            c2: Vector4 { x: S::zero(), y: S::zero(), z: S::one(), w: S::zero() },
            c3: Vector4 { x: S::zero(), y: S::zero(), z: S::zero(), w: S::one() },
        }
    }

    /// True when every entry of `affine_axis_cos_sin_spec` is defined.
    pub open spec fn can_from_affine_axis_cos_sin(
        axis: Unit<Vector3<S>>,
        cosine: S,
        sine: S,
    ) -> bool {
        &&& S::one_spec().can_sub(cosine)
        &&& S::one_spec().minus(cosine).can_mul(axis@.x)
        &&& S::one_spec().minus(cosine).times(axis@.x).can_mul(axis@.x)
        &&& S::one_spec().minus(cosine).times(axis@.x).times(axis@.x).can_add(cosine)
        &&& S::one_spec().minus(cosine).times(axis@.x).can_mul(axis@.y)
        &&& sine.can_mul(axis@.z)
        &&& S::one_spec().minus(cosine).times(axis@.x).times(axis@.y).can_add(sine.times(axis@.z))
        &&& S::one_spec().minus(cosine).times(axis@.x).can_mul(axis@.z)
        &&& sine.can_mul(axis@.y)
        &&& S::one_spec().minus(cosine).times(axis@.x).times(axis@.z).can_sub(sine.times(axis@.y))
        &&& S::one_spec().minus(cosine).times(axis@.x).times(axis@.y).can_sub(sine.times(axis@.z))
        &&& S::one_spec().minus(cosine).can_mul(axis@.y)
        &&& S::one_spec().minus(cosine).times(axis@.y).can_mul(axis@.y)
        &&& S::one_spec().minus(cosine).times(axis@.y).times(axis@.y).can_add(cosine)
        &&& S::one_spec().minus(cosine).times(axis@.y).can_mul(axis@.z)
        &&& sine.can_mul(axis@.x)
        &&& S::one_spec().minus(cosine).times(axis@.y).times(axis@.z).can_add(sine.times(axis@.x))
        &&& S::one_spec().minus(cosine).times(axis@.x).times(axis@.z).can_add(sine.times(axis@.y))
        &&& S::one_spec().minus(cosine).times(axis@.y).times(axis@.z).can_sub(sine.times(axis@.x))
        &&& S::one_spec().minus(cosine).can_mul(axis@.z)
        &&& S::one_spec().minus(cosine).times(axis@.z).can_mul(axis@.z)
        &&& S::one_spec().minus(cosine).times(axis@.z).times(axis@.z).can_add(cosine)
    }

    /// The affine rotation of space about the unit vector `axis` by the angle with the
    /// given cosine and sine, by the formula of Rodrigues.
    pub open spec fn affine_axis_cos_sin_spec(
        axis: Unit<Vector3<S>>,
        cosine: S,
        sine: S,
    ) -> Matrix4x4<S> {
        Matrix4x4 {
            c0: Vector4 {
                x: S::one_spec().minus(cosine).times(axis@.x).times(axis@.x).plus(cosine),
                y: S::one_spec().minus(cosine).times(axis@.x).times(axis@.y).plus(sine
                    .times(axis@.z)),
                z: S::one_spec().minus(cosine).times(axis@.x).times(axis@.z).minus(sine
                    .times(axis@.y)),
                w: S::zero_spec(),
            },
            c1: Vector4 {
                x: S::one_spec().minus(cosine).times(axis@.x).times(axis@.y).minus(sine
                    .times(axis@.z)),
                y: S::one_spec().minus(cosine).times(axis@.y).times(axis@.y).plus(cosine),
                z: S::one_spec().minus(cosine).times(axis@.y).times(axis@.z).plus(sine
                    .times(axis@.x)),
                w: S::zero_spec(),
            },
            c2: Vector4 {
                x: S::one_spec().minus(cosine).times(axis@.x).times(axis@.z).plus(sine
                    .times(axis@.y)),
                y: S::one_spec().minus(cosine).times(axis@.y).times(axis@.z).minus(sine
                    .times(axis@.x)),
                z: S::one_spec().minus(cosine).times(axis@.z).times(axis@.z).plus(cosine),
                w: S::zero_spec(),
            },
            c3: Vector4 {
                x: S::zero_spec(),
                y: S::zero_spec(),
                z: S::zero_spec(),
                w: S::one_spec(),
            },
        }
    }

    /// The affine rotation of space about the unit vector `axis` by the angle with the
    /// given cosine and sine, by the formula of Rodrigues.
    pub fn from_affine_axis_cos_sin(
        axis: &Unit<Vector3<S>>,
        cosine: S,
        sine: S,
    ) -> (r: Matrix4x4<S>)
        requires
            Self::can_from_affine_axis_cos_sin(*axis, cosine, sine),
        ensures
            r == Self::affine_axis_cos_sin_spec(*axis, cosine, sine),
    {
        let rest = S::one().sub(cosine);
        Matrix4x4 {
            c0: Vector4 {
                x: rest.mul(axis.value.x).mul(axis.value.x).add(cosine),
                y: rest.mul(axis.value.x).mul(axis.value.y).add(sine.mul(axis.value.z)),
                z: rest.mul(axis.value.x).mul(axis.value.z).sub(sine.mul(axis.value.y)),
                w: S::zero(),
            },
            c1: Vector4 {
                x: rest.mul(axis.value.x).mul(axis.value.y).sub(sine.mul(axis.value.z)),
                y: rest.mul(axis.value.y).mul(axis.value.y).add(cosine),
                z: rest.mul(axis.value.y).mul(axis.value.z).add(sine.mul(axis.value.x)),
                w: S::zero(),
            },
            c2: Vector4 {
                x: rest.mul(axis.value.x).mul(axis.value.z).add(sine.mul(axis.value.y)),
                y: rest.mul(axis.value.y).mul(axis.value.z).sub(sine.mul(axis.value.x)),
                z: rest.mul(axis.value.z).mul(axis.value.z).add(cosine),
                w: S::zero(),
            },
            c3: Vector4 { x: S::zero(), y: S::zero(), z: S::zero(), w: S::one() },
        }
    }
}

impl<S: ScalarFloat> Matrix4x4<S> {
    /// True when `affine_angle_x_spec` is defined.
    pub open spec fn can_from_affine_angle_x(angle: Radians<S>) -> bool {
        Self::can_from_affine_cos_sin_x(angle.0.cosine(), angle.0.sine())
    }

    /// The affine rotation of space about the x-axis by `angle`.
    pub open spec fn affine_angle_x_spec(angle: Radians<S>) -> Matrix4x4<S> {
        Self::affine_cos_sin_x_spec(angle.0.cosine(), angle.0.sine())
    }

    /// The affine rotation of space about the x-axis by `angle`.
    pub fn from_affine_angle_x(angle: Radians<S>) -> (r: Matrix4x4<S>)
        requires
            Self::can_from_affine_angle_x(angle),
        ensures
            r == Self::affine_angle_x_spec(angle),
    {
        Self::from_affine_cos_sin_x(angle.cos(), angle.sin())
    }

    /// True when `affine_angle_y_spec` is defined.
    pub open spec fn can_from_affine_angle_y(angle: Radians<S>) -> bool {
        Self::can_from_affine_cos_sin_y(angle.0.cosine(), angle.0.sine())
    }

    /// The affine rotation of space about the y-axis by `angle`.
    pub open spec fn affine_angle_y_spec(angle: Radians<S>) -> Matrix4x4<S> {
        Self::affine_cos_sin_y_spec(angle.0.cosine(), angle.0.sine())
    }

    /// The affine rotation of space about the y-axis by `angle`.
    pub fn from_affine_angle_y(angle: Radians<S>) -> (r: Matrix4x4<S>)
        requires
            Self::can_from_affine_angle_y(angle),
        ensures
            r == Self::affine_angle_y_spec(angle),
    {
        Self::from_affine_cos_sin_y(angle.cos(), angle.sin())
    }

    /// True when `affine_angle_z_spec` is defined.
    pub open spec fn can_from_affine_angle_z(angle: Radians<S>) -> bool {
        Self::can_from_affine_cos_sin_z(angle.0.cosine(), angle.0.sine())
    }

    /// The affine rotation of space about the z-axis by `angle`.
    pub open spec fn affine_angle_z_spec(angle: Radians<S>) -> Matrix4x4<S> {
        Self::affine_cos_sin_z_spec(angle.0.cosine(), angle.0.sine())
    }

    /// The affine rotation of space about the z-axis by `angle`.
    pub fn from_affine_angle_z(angle: Radians<S>) -> (r: Matrix4x4<S>)
        requires
            Self::can_from_affine_angle_z(angle),
        ensures
            r == Self::affine_angle_z_spec(angle),
    {
        Self::from_affine_cos_sin_z(angle.cos(), angle.sin())
    }

    /// True when `affine_axis_angle_spec` is defined.
    pub open spec fn can_from_affine_axis_angle(axis: Unit<Vector3<S>>, angle: Radians<S>) -> bool {
        Self::can_from_affine_axis_cos_sin(axis, angle.0.cosine(), angle.0.sine())
    }

    /// The affine rotation of space about the unit vector `axis` by `angle`.
    pub open spec fn affine_axis_angle_spec(
        axis: Unit<Vector3<S>>,
        angle: Radians<S>,
    ) -> Matrix4x4<S> {
        Self::affine_axis_cos_sin_spec(axis, angle.0.cosine(), angle.0.sine())
    }

    /// The affine rotation of space about the unit vector `axis` by `angle`.
    pub fn from_affine_axis_angle(axis: &Unit<Vector3<S>>, angle: Radians<S>) -> (r: Matrix4x4<S>)
        requires
            Self::can_from_affine_axis_angle(*axis, angle),
        ensures
            r == Self::affine_axis_angle_spec(*axis, angle),
    {
        Self::from_affine_axis_cos_sin(axis, angle.cos(), angle.sin())
    }

    /// True when the view matrix with the rotation `rotation` and the eye at
    /// `eye` is defined.
    pub open spec fn can_view(rotation: Matrix3x3<S>, eye: Point3<S>) -> bool {
        &&& eye.to_vector_spec().can_dot_with(rotation.row(0))
        &&& eye.to_vector_spec().can_dot_with(rotation.row(1))
        &&& eye.to_vector_spec().can_dot_with(rotation.row(2))
        &&& eye.to_vector_spec().dot_with(rotation.row(0)).can_neg()
        &&& eye.to_vector_spec().dot_with(rotation.row(1)).can_neg()
        &&& eye.to_vector_spec().dot_with(rotation.row(2)).can_neg()
    }

    /// The view matrix with the rotation `rotation` that carries `eye` to the
    /// origin: the rotation in the upper left, and in the last column the
    /// negated dot products of `eye` with the rows of the rotation.
    pub open spec fn view_spec(rotation: Matrix3x3<S>, eye: Point3<S>) -> Matrix4x4<S> {
        Matrix4x4 {
            c0: rotation.c0.extend_spec(S::zero_spec()),
            c1: rotation.c1.extend_spec(S::zero_spec()),
            c2: rotation.c2.extend_spec(S::zero_spec()),
            c3: Vector4 {
                x: eye.to_vector_spec().dot_with(rotation.row(0)).negated(),
                y: eye.to_vector_spec().dot_with(rotation.row(1)).negated(),
                z: eye.to_vector_spec().dot_with(rotation.row(2)).negated(),
                w: S::one_spec(),
            },
        }
    }

    /// The view matrix with the rotation `rotation` that carries `eye` to the origin.
    pub fn from_view(rotation: &Matrix3x3<S>, eye: &Point3<S>) -> (r: Matrix4x4<S>)
        requires
            Self::can_view(*rotation, *eye),
        ensures
            r == Self::view_spec(*rotation, *eye),
    {
        let e = eye.to_vector();
        let tx = e.x.mul(rotation.c0.x).add(e.y.mul(rotation.c1.x)).add(e.z.mul(rotation.c2.x));
        let ty = e.x.mul(rotation.c0.y).add(e.y.mul(rotation.c1.y)).add(e.z.mul(rotation.c2.y));
        let tz = e.x.mul(rotation.c0.z).add(e.y.mul(rotation.c1.z)).add(e.z.mul(rotation.c2.z));
        Matrix4x4 {
            c0: rotation.c0.extend(S::zero()),
            c1: rotation.c1.extend(S::zero()),
            c2: rotation.c2.extend(S::zero()),
            c3: Vector4 { x: tx.neg(), y: ty.neg(), z: tz.neg(), w: S::one() },
        }
    }

    /// True when `look_to_lh_spec` is defined.
    pub open spec fn can_look_to_lh(eye: Point3<S>, direction: Vector3<S>, up: Vector3<S>) -> bool {
        &&& Matrix3x3::<S>::can_look_to_lh(direction, up)
        &&& Self::can_view(Matrix3x3::<S>::look_to_lh_spec(direction, up), eye)
    }

    /// The left-handed view matrix of an eye at `eye` that looks along
    /// `direction`: it carries `eye` to the origin and `direction` onto
    /// the positive z-axis.
    pub open spec fn look_to_lh_spec(
        eye: Point3<S>,
        direction: Vector3<S>,
        up: Vector3<S>,
    ) -> Matrix4x4<S> {
        Self::view_spec(Matrix3x3::<S>::look_to_lh_spec(direction, up), eye)
    }

    /// The left-handed view matrix of an eye at `eye` that looks along `direction`.
    pub fn look_to_lh(eye: &Point3<S>, direction: &Vector3<S>, up: &Vector3<S>) -> (r: Matrix4x4<S>)
        requires
            Self::can_look_to_lh(*eye, *direction, *up),
        ensures
            r == Self::look_to_lh_spec(*eye, *direction, *up),
    {
        let rotation = Matrix3x3::look_to_lh(direction, up);
        Self::from_view(&rotation, eye)
    }

    /// True when `look_at_lh_spec` is defined.
    pub open spec fn can_look_at_lh(eye: Point3<S>, target: Point3<S>, up: Vector3<S>) -> bool {
        target.can_sub(eye) && Self::can_look_to_lh(eye, target.minus(eye), up)
    }

    /// The left-handed view matrix of an eye at `eye` that looks at `target`.
    pub open spec fn look_at_lh_spec(
        eye: Point3<S>,
        target: Point3<S>,
        up: Vector3<S>,
    ) -> Matrix4x4<S> {
        Self::look_to_lh_spec(eye, target.minus(eye), up)
    }

    /// The left-handed view matrix of an eye at `eye` that looks at `target`.
    pub fn look_at_lh(eye: &Point3<S>, target: &Point3<S>, up: &Vector3<S>) -> (r: Matrix4x4<S>)
        requires
            Self::can_look_at_lh(*eye, *target, *up),
        ensures
            r == Self::look_at_lh_spec(*eye, *target, *up),
    {
        let direction = *target - *eye;
        Self::look_to_lh(eye, &direction, up)
    }

    /// True when `look_to_rh_spec` is defined.
    pub open spec fn can_look_to_rh(eye: Point3<S>, direction: Vector3<S>, up: Vector3<S>) -> bool {
        &&& Matrix3x3::<S>::can_look_to_rh(direction, up)
        &&& Self::can_view(Matrix3x3::<S>::look_to_rh_spec(direction, up), eye)
    }

    /// The right-handed view matrix of an eye at `eye` that looks along
    /// `direction`: it carries `eye` to the origin and `direction` onto
    /// the negative z-axis.
    pub open spec fn look_to_rh_spec(
        eye: Point3<S>,
        direction: Vector3<S>,
        up: Vector3<S>,
    ) -> Matrix4x4<S> {
        Self::view_spec(Matrix3x3::<S>::look_to_rh_spec(direction, up), eye)
    }

    /// The right-handed view matrix of an eye at `eye` that looks along `direction`.
    pub fn look_to_rh(eye: &Point3<S>, direction: &Vector3<S>, up: &Vector3<S>) -> (r: Matrix4x4<S>)
        requires
            Self::can_look_to_rh(*eye, *direction, *up),
        ensures
            r == Self::look_to_rh_spec(*eye, *direction, *up),
    {
        let rotation = Matrix3x3::look_to_rh(direction, up);
        Self::from_view(&rotation, eye)
    }

    /// True when `look_at_rh_spec` is defined.
    pub open spec fn can_look_at_rh(eye: Point3<S>, target: Point3<S>, up: Vector3<S>) -> bool {
        target.can_sub(eye) && Self::can_look_to_rh(eye, target.minus(eye), up)
    }

    /// The right-handed view matrix of an eye at `eye` that looks at `target`.
    pub open spec fn look_at_rh_spec(
        eye: Point3<S>,
        target: Point3<S>,
        up: Vector3<S>,
    ) -> Matrix4x4<S> {
        Self::look_to_rh_spec(eye, target.minus(eye), up)
    }

    /// The right-handed view matrix of an eye at `eye` that looks at `target`.
    pub fn look_at_rh(eye: &Point3<S>, target: &Point3<S>, up: &Vector3<S>) -> (r: Matrix4x4<S>)
        requires
            Self::can_look_at_rh(*eye, *target, *up),
        ensures
            r == Self::look_at_rh_spec(*eye, *target, *up),
    {
        let direction = *target - *eye;
        Self::look_to_rh(eye, &direction, up)
    }

    /// True when every entry of `perspective_fov_spec` is defined.
    pub open spec fn can_from_perspective_fov(
        fovy: Radians<S>,
        aspect: S,
        near: S,
        far: S,
    ) -> bool {
        &&& S::one_spec().can_add(S::one_spec())
        &&& S::one_spec().plus(S::one_spec()).can_mul(near)
        &&& fovy.0.can_div(S::one_spec().plus(S::one_spec()))
        &&& fovy.0.over(S::one_spec().plus(S::one_spec())).tangent().can_mul(near)
        &&& fovy.0.over(S::one_spec().plus(S::one_spec())).tangent().times(near).can_mul(aspect)
        &&& fovy.0.over(S::one_spec().plus(S::one_spec())).tangent().times(near).times(aspect)
            .can_add(fovy.0.over(S::one_spec().plus(S::one_spec())).tangent().times(near)
            .times(aspect))
        &&& S::one_spec().plus(S::one_spec()).times(near).can_div(fovy.0.over(S::one_spec()
            .plus(S::one_spec())).tangent().times(near).times(aspect).plus(fovy.0
            .over(S::one_spec().plus(S::one_spec())).tangent().times(near).times(aspect)))
        &&& near.can_div(fovy.0.over(S::one_spec().plus(S::one_spec())).tangent().times(near))
        &&& far.can_add(near)
        &&& near.can_sub(far)
        &&& far.plus(near).can_div(near.minus(far))
        &&& S::one_spec().can_neg()
        &&& S::one_spec().plus(S::one_spec()).can_mul(far)
        &&& S::one_spec().plus(S::one_spec()).times(far).can_mul(near)
        &&& S::one_spec().plus(S::one_spec()).times(far).times(near).can_div(near.minus(far))
    }

    /// The perspective projection with the vertical field of view `fovy`, the ratio
    /// `aspect` of width to height, and the planes at `near` and `far`. With `range` for
    /// the tangent of half of `fovy` times `near`, the diagonal holds `2 near / (2 range
    /// aspect)`, `near / range` and `(far + near) / (near - far)`.
    pub open spec fn perspective_fov_spec(
        fovy: Radians<S>,
        aspect: S,
        near: S,
        far: S,
    ) -> Matrix4x4<S> {
        Matrix4x4 {
            c0: Vector4 {
                x: S::one_spec().plus(S::one_spec()).times(near).over(fovy.0
                    .over(S::one_spec().plus(S::one_spec())).tangent().times(near)
                    .times(aspect).plus(fovy.0.over(S::one_spec()
                    .plus(S::one_spec())).tangent().times(near).times(aspect))),
                y: S::zero_spec(),
                z: S::zero_spec(),
                w: S::zero_spec(),
            },
            c1: Vector4 {
                x: S::zero_spec(),
                y: near.over(fovy.0.over(S::one_spec().plus(S::one_spec())).tangent().times(near)),
                z: S::zero_spec(),
                w: S::zero_spec(),
            },
            c2: Vector4 {
                x: S::zero_spec(),
                y: S::zero_spec(),
                z: far.plus(near).over(near.minus(far)),
                w: S::one_spec().negated(),
            },
            c3: Vector4 {
                x: S::zero_spec(),
                y: S::zero_spec(),
                z: S::one_spec().plus(S::one_spec()).times(far).times(near).over(near.minus(far)),
                w: S::zero_spec(),
            },
        }
    }

    /// The perspective projection with the vertical field of view `fovy`, the ratio
    /// `aspect` of width to height, and the planes at `near` and `far`. With `range` for
    /// the tangent of half of `fovy` times `near`, the diagonal holds `2 near / (2 range
    /// aspect)`, `near / range` and `(far + near) / (near - far)`.
    pub fn from_perspective_fov(fovy: Radians<S>, aspect: S, near: S, far: S) -> (r: Matrix4x4<S>)
        requires
            Self::can_from_perspective_fov(fovy, aspect, near, far),
        ensures
            r == Self::perspective_fov_spec(fovy, aspect, near, far),
    {
        let range = fovy.0.div(S::one().add(S::one())).tan().mul(near);
        Matrix4x4 {
            c0: Vector4 {
                x: S::one().add(S::one()).mul(near).div(range.mul(aspect).add(range.mul(aspect))),
                y: S::zero(),
                z: S::zero(),
                w: S::zero(),
            },
            c1: Vector4 { x: S::zero(), y: near.div(range), z: S::zero(), w: S::zero() },
            c2: Vector4 {
                x: S::zero(),
                y: S::zero(),
                z: far.add(near).div(near.sub(far)),
                w: S::one().neg(),
            },
            c3: Vector4 {
                x: S::zero(),
                y: S::zero(),
                z: S::one().add(S::one()).mul(far).mul(near).div(near.sub(far)),
                w: S::zero(),
            },
        }
    }
}

} // verus!
