//! Matrices of three rows and three columns, stored column by column.

use vstd::prelude::*;
use crate::angle::Radians;
use crate::determinant::{can_det2, can_det3, det2, det2_of, det3, det3_of};
use crate::matrix3x2::Matrix3x2;
use crate::matrix3x4::Matrix3x4;
use crate::point::{Point2, Point3};
use crate::scalar::{Scalar, ScalarFloat, ScalarSigned};
use crate::unit::Unit;
use crate::vector::{Vector2, Vector3};

verus! {

/// A matrix of three rows and three columns. The field `c0` is the first column; the
/// entry in column `c` and row `r` is the component `r` of column `c`.
#[derive(Clone, Copy, Debug, PartialEq, Eq, Hash)]
pub struct Matrix3x3<S> {
    pub c0: Vector3<S>,
    pub c1: Vector3<S>,
    pub c2: Vector3<S>,
}

impl<S: Scalar> Matrix3x3<S> {
    /// The column at index `c`, counted from zero.
    pub open spec fn column(self, c: int) -> Vector3<S> {
        if c == 0 {
            self.c0
        } else if c == 1 {
            self.c1
        } else {
            self.c2
        }
    }

    /// The row at index `r`, counted from zero.
    pub open spec fn row(self, r: int) -> Vector3<S> {
        if r == 0 {
            Vector3 { x: self.c0.x, y: self.c1.x, z: self.c2.x }
        } else if r == 1 {
            Vector3 { x: self.c0.y, y: self.c1.y, z: self.c2.y }
        } else {
            Vector3 { x: self.c0.z, y: self.c1.z, z: self.c2.z }
        }
    }

    /// The entry in column `c` and row `r`.
    pub open spec fn at(self, c: int, r: int) -> S {
        self.column(c).at(r)
    }

    /// The matrix with `v` as column `c` and the other columns of `self`.
    pub open spec fn with_column(self, c: int, v: Vector3<S>) -> Matrix3x3<S> {
        Matrix3x3 {
            c0: if c == 0 { v } else { self.c0 },
            c1: if c == 1 { v } else { self.c1 },
            c2: if c == 2 { v } else { self.c2 },
        }
    }

    /// The matrix with `v` as row `r` and the other rows of `self`.
    pub open spec fn with_row(self, r: int, v: Vector3<S>) -> Matrix3x3<S> {
        Matrix3x3 {
            c0: self.c0.with(r, v.x),
            c1: self.c1.with(r, v.y),
            c2: self.c2.with(r, v.z),
        }
    }

    /// The matrix with `value` in column `c` and row `r` and the other entries of `self`.
    pub open spec fn with_at(self, c: int, r: int, value: S) -> Matrix3x3<S> {
        self.with_column(c, self.column(c).with(r, value))
    }

    /// The matrix whose entries are all zero.
    pub open spec fn zero_spec() -> Matrix3x3<S> {
        Matrix3x3 {
            c0: Vector3 { x: S::zero_spec(), y: S::zero_spec(), z: S::zero_spec() },
            c1: Vector3 { x: S::zero_spec(), y: S::zero_spec(), z: S::zero_spec() },
            c2: Vector3 { x: S::zero_spec(), y: S::zero_spec(), z: S::zero_spec() },
        }
    }

    /// The identity matrix: one on the diagonal, zero elsewhere.
    pub open spec fn identity_spec() -> Matrix3x3<S> {
        Matrix3x3 {
            c0: Vector3 { x: S::one_spec(), y: S::zero_spec(), z: S::zero_spec() },
            c1: Vector3 { x: S::zero_spec(), y: S::one_spec(), z: S::zero_spec() },
            c2: Vector3 { x: S::zero_spec(), y: S::zero_spec(), z: S::one_spec() },
        }
    }

    /// The transpose: the entry in column `c` and row `r` of the result is the
    /// entry in column `r` and row `c` of `self`.
    pub open spec fn transposed(self) -> Matrix3x3<S> {
        Matrix3x3 {
            c0: Vector3 { x: self.c0.x, y: self.c1.x, z: self.c2.x },
            c1: Vector3 { x: self.c0.y, y: self.c1.y, z: self.c2.y },
            c2: Vector3 { x: self.c0.z, y: self.c1.z, z: self.c2.z },
        }
    }

    /// True when every entry of `self` can be added to that of `other`.
    pub open spec fn can_add(self, other: Matrix3x3<S>) -> bool {
        &&& self.c0.can_add(other.c0)
        &&& self.c1.can_add(other.c1)
        &&& self.c2.can_add(other.c2)
    }

    /// The entry-wise sum.
    pub open spec fn plus(self, other: Matrix3x3<S>) -> Matrix3x3<S> {
        Matrix3x3 {
            c0: self.c0.plus(other.c0),
            c1: self.c1.plus(other.c1),
            c2: self.c2.plus(other.c2),
        }
    }

    /// True when every entry of `other` can be subtracted from that of `self`.
    pub open spec fn can_sub(self, other: Matrix3x3<S>) -> bool {
        &&& self.c0.can_sub(other.c0)
        &&& self.c1.can_sub(other.c1)
        &&& self.c2.can_sub(other.c2)
    }

    /// The entry-wise difference.
    pub open spec fn minus(self, other: Matrix3x3<S>) -> Matrix3x3<S> {
        Matrix3x3 {
            c0: self.c0.minus(other.c0),
            c1: self.c1.minus(other.c1),
            c2: self.c2.minus(other.c2),
        }
    }

    /// True when every entry can be multiplied by `c` on the right.
    pub open spec fn can_scale(self, c: S) -> bool {
        &&& self.c0.can_scale(c)
        &&& self.c1.can_scale(c)
        &&& self.c2.can_scale(c)
    }

    /// Every entry multiplied by `c` on the right.
    pub open spec fn scaled(self, c: S) -> Matrix3x3<S> {
        Matrix3x3 {
            c0: self.c0.scaled(c),
            c1: self.c1.scaled(c),
            c2: self.c2.scaled(c),
        }
    }

    /// True when every entry can be multiplied by `c` on the left.
    pub open spec fn can_scale_left(self, c: S) -> bool {
        &&& self.c0.can_scale_left(c)
        &&& self.c1.can_scale_left(c)
        &&& self.c2.can_scale_left(c)
    }

    /// Every entry multiplied by `c` on the left.
    pub open spec fn scaled_left(self, c: S) -> Matrix3x3<S> {
        Matrix3x3 {
            c0: self.c0.scaled_left(c),
            c1: self.c1.scaled_left(c),
            c2: self.c2.scaled_left(c),
        }
    }

    /// True when every entry can be divided by `c`.
    pub open spec fn can_div(self, c: S) -> bool {
        &&& self.c0.can_div(c)
        &&& self.c1.can_div(c)
        &&& self.c2.can_div(c)
    }

    /// Every entry divided by `c`.
    pub open spec fn over(self, c: S) -> Matrix3x3<S> {
        Matrix3x3 {
            c0: self.c0.over(c),
            c1: self.c1.over(c),
            c2: self.c2.over(c),
        }
    }

    /// True when the remainder of every entry by `c` is defined.
    pub open spec fn can_rem(self, c: S) -> bool {
        &&& self.c0.can_rem(c)
        &&& self.c1.can_rem(c)
        &&& self.c2.can_rem(c)
    }

    /// The remainder of every entry by `c`.
    pub open spec fn modulo(self, c: S) -> Matrix3x3<S> {
        Matrix3x3 {
            c0: self.c0.modulo(c),
            c1: self.c1.modulo(c),
            c2: self.c2.modulo(c),
        }
    }

    /// True when every entry of the product with the vector `v` is defined.
    pub open spec fn can_mul_vector(self, v: Vector3<S>) -> bool {
        &&& self.row(0).can_dot_with(v)
        &&& self.row(1).can_dot_with(v)
        &&& self.row(2).can_dot_with(v)
    }

    /// The product of the matrix with the column vector `v`: component `r` is
    /// the dot product of row `r` with `v`.
    pub open spec fn times_vector(self, v: Vector3<S>) -> Vector3<S> {
        Vector3 { x: self.row(0).dot_with(v), y: self.row(1).dot_with(v),
            z: self.row(2).dot_with(v) }
    }

    /// True when every entry of the product with `other` is defined.
    pub open spec fn can_mul_3x2(self, other: Matrix3x2<S>) -> bool {
        &&& self.row(0).can_dot_with(other.c0)
        &&& self.row(1).can_dot_with(other.c0)
        &&& self.row(2).can_dot_with(other.c0)
        &&& self.row(0).can_dot_with(other.c1)
        &&& self.row(1).can_dot_with(other.c1)
        &&& self.row(2).can_dot_with(other.c1)
    }

    /// The matrix product `self * other`: the entry in column `c` and row `r`
    /// is the dot product of row `r` of `self` with column `c` of `other`.
    pub open spec fn times_3x2(self, other: Matrix3x2<S>) -> Matrix3x2<S> {
        Matrix3x2 {
            c0: Vector3 {
                x: self.row(0).dot_with(other.c0),
                y: self.row(1).dot_with(other.c0),
                z: self.row(2).dot_with(other.c0),
            },
            c1: Vector3 {
                x: self.row(0).dot_with(other.c1),
                y: self.row(1).dot_with(other.c1),
                z: self.row(2).dot_with(other.c1),
            },
        }
    }

    /// True when every entry of the product with `other` is defined.
    pub open spec fn can_mul_3x3(self, other: Matrix3x3<S>) -> bool {
        &&& self.row(0).can_dot_with(other.c0)
        &&& self.row(1).can_dot_with(other.c0)
        &&& self.row(2).can_dot_with(other.c0)
        &&& self.row(0).can_dot_with(other.c1)
        &&& self.row(1).can_dot_with(other.c1)
        &&& self.row(2).can_dot_with(other.c1)
        &&& self.row(0).can_dot_with(other.c2)
        &&& self.row(1).can_dot_with(other.c2)
        &&& self.row(2).can_dot_with(other.c2)
    }

    /// The matrix product `self * other`: the entry in column `c` and row `r`
    /// is the dot product of row `r` of `self` with column `c` of `other`.
    pub open spec fn times_3x3(self, other: Matrix3x3<S>) -> Matrix3x3<S> {
        Matrix3x3 {
            c0: Vector3 {
                x: self.row(0).dot_with(other.c0),
                y: self.row(1).dot_with(other.c0),
                z: self.row(2).dot_with(other.c0),
            },
            c1: Vector3 {
                x: self.row(0).dot_with(other.c1),
                y: self.row(1).dot_with(other.c1),
                z: self.row(2).dot_with(other.c1),
            },
            c2: Vector3 {
                x: self.row(0).dot_with(other.c2),
                y: self.row(1).dot_with(other.c2),
                z: self.row(2).dot_with(other.c2),
            },
        }
    }

    /// True when every entry of the product with `other` is defined.
    pub open spec fn can_mul_3x4(self, other: Matrix3x4<S>) -> bool {
        &&& self.row(0).can_dot_with(other.c0)
        &&& self.row(1).can_dot_with(other.c0)
        &&& self.row(2).can_dot_with(other.c0)
        &&& self.row(0).can_dot_with(other.c1)
        &&& self.row(1).can_dot_with(other.c1)
        &&& self.row(2).can_dot_with(other.c1)
        &&& self.row(0).can_dot_with(other.c2)
        &&& self.row(1).can_dot_with(other.c2)
        &&& self.row(2).can_dot_with(other.c2)
        &&& self.row(0).can_dot_with(other.c3)
        &&& self.row(1).can_dot_with(other.c3)
        &&& self.row(2).can_dot_with(other.c3)
    }

    /// The matrix product `self * other`: the entry in column `c` and row `r`
    /// is the dot product of row `r` of `self` with column `c` of `other`.
    pub open spec fn times_3x4(self, other: Matrix3x4<S>) -> Matrix3x4<S> {
        Matrix3x4 {
            c0: Vector3 {
                x: self.row(0).dot_with(other.c0),
                y: self.row(1).dot_with(other.c0),
                z: self.row(2).dot_with(other.c0),
            },
            c1: Vector3 {
                x: self.row(0).dot_with(other.c1),
                y: self.row(1).dot_with(other.c1),
                z: self.row(2).dot_with(other.c1),
            },
            c2: Vector3 {
                x: self.row(0).dot_with(other.c2),
                y: self.row(1).dot_with(other.c2),
                z: self.row(2).dot_with(other.c2),
            },
            c3: Vector3 {
                x: self.row(0).dot_with(other.c3),
                y: self.row(1).dot_with(other.c3),
                z: self.row(2).dot_with(other.c3),
            },
        }
    }

    /// True when every entry of `self` is the same as zero.
    pub open spec fn is_zero_spec(self) -> bool {
        &&& self.c0.is_zero_spec()
        &&& self.c1.is_zero_spec()
        &&& self.c2.is_zero_spec()
    }

    /// True when `self` is entry by entry the same as the identity.
    pub open spec fn is_identity_spec(self) -> bool {
        &&& self.c0.x.same(S::one_spec())
        &&& self.c0.y.same(S::zero_spec())
        &&& self.c0.z.same(S::zero_spec())
        &&& self.c1.x.same(S::zero_spec())
        &&& self.c1.y.same(S::one_spec())
        &&& self.c1.z.same(S::zero_spec())
        &&& self.c2.x.same(S::zero_spec())
        &&& self.c2.y.same(S::zero_spec())
        &&& self.c2.z.same(S::one_spec())
    }

    /// The sum of the diagonal entries, added from the first on.
    pub open spec fn trace_spec(self) -> S {
        self.c0.x.plus(self.c1.y).plus(self.c2.z)
    }

    /// True when the trace is defined.
    pub open spec fn can_trace(self) -> bool {
        &&& self.c0.x.can_add(self.c1.y)
        &&& self.c0.x.plus(self.c1.y).can_add(self.c2.z)
    }

    /// Makes a matrix from its entries, column by column.
    pub fn new(
        c0r0: S,
        c0r1: S,
        c0r2: S,
        c1r0: S,
        c1r1: S,
        c1r2: S,
        c2r0: S,
        c2r1: S,
        c2r2: S,
    ) -> (r: Matrix3x3<S>)
        ensures
            r == (Matrix3x3 {
                c0: Vector3 { x: c0r0, y: c0r1, z: c0r2 },
                c1: Vector3 { x: c1r0, y: c1r1, z: c1r2 },
                c2: Vector3 { x: c2r0, y: c2r1, z: c2r2 },
            }),
    {
        Matrix3x3 {
            c0: Vector3 { x: c0r0, y: c0r1, z: c0r2 },
            c1: Vector3 { x: c1r0, y: c1r1, z: c1r2 },
            c2: Vector3 { x: c2r0, y: c2r1, z: c2r2 },
        }
    }

    /// Makes a matrix from its columns.
    pub fn from_columns(columns: &[Vector3<S>; 3]) -> (r: Matrix3x3<S>)
        ensures
            r.column(0) == columns@[0],
            r.column(1) == columns@[1],
            r.column(2) == columns@[2],
    {
        Matrix3x3 { c0: columns[0], c1: columns[1], c2: columns[2] }
    }

    /// Makes a matrix from its rows: the entry in column `c` and row `r` is
    /// the component `c` of `rows[r]`.
    pub fn from_rows(rows: &[Vector3<S>; 3]) -> (r: Matrix3x3<S>)
        ensures
            r.row(0) == rows@[0],
            r.row(1) == rows@[1],
            r.row(2) == rows@[2],
    {
        Matrix3x3 {
            c0: Vector3 { x: rows[0].x, y: rows[1].x, z: rows[2].x },
            c1: Vector3 { x: rows[0].y, y: rows[1].y, z: rows[2].y },
            c2: Vector3 { x: rows[0].z, y: rows[1].z, z: rows[2].z },
        }
    }

    /// The zero matrix.
    pub fn zero() -> (r: Matrix3x3<S>)
        ensures
            r == Self::zero_spec(),
    {
        Matrix3x3 {
            c0: Vector3 { x: S::zero(), y: S::zero(), z: S::zero() },
            c1: Vector3 { x: S::zero(), y: S::zero(), z: S::zero() },
            c2: Vector3 { x: S::zero(), y: S::zero(), z: S::zero() },
        }
    }

    /// The identity matrix.
    pub fn identity() -> (r: Matrix3x3<S>)
        ensures
            r == Self::identity_spec(),
    {
        Matrix3x3 {
            c0: Vector3 { x: S::one(), y: S::zero(), z: S::zero() },
            c1: Vector3 { x: S::zero(), y: S::one(), z: S::zero() },
            c2: Vector3 { x: S::zero(), y: S::zero(), z: S::one() },
        }
    }

    /// Tells whether the matrix is the identity.
    pub fn is_identity(&self) -> (r: bool)
        ensures
            r == self.is_identity_spec(),
    {
        self.c0.x.equals(S::one())
            && self.c0.y.equals(S::zero())
            && self.c0.z.equals(S::zero())
            && self.c1.x.equals(S::zero())
            && self.c1.y.equals(S::one())
            && self.c1.z.equals(S::zero())
            && self.c2.x.equals(S::zero())
            && self.c2.y.equals(S::zero())
            && self.c2.z.equals(S::one())
    }

    /// The sum of the diagonal entries.
    pub fn trace(&self) -> (r: S)
        requires
            self.can_trace(),
        ensures
            r == self.trace_spec(),
    {
        self.c0.x.add(self.c1.y).add(self.c2.z)
    }

    /// The shape as a pair of the number of rows and the number of columns.
    pub fn shape() -> (r: (usize, usize))
        ensures
            r == (3usize, 3usize),
    {
        (3, 3)
    }

    /// The number of entries.
    pub fn len() -> (r: usize)
        ensures
            r == 9,
    {
        9
    }

    /// Tells whether every entry is zero.
    pub fn is_zero(&self) -> (r: bool)
        ensures
            r == self.is_zero_spec(),
    {
        self.c0.is_zero() && self.c1.is_zero() && self.c2.is_zero()
    }

    /// The transpose of the matrix.
    pub fn transpose(&self) -> (r: Matrix3x3<S>)
        ensures
            r == self.transposed(),
    {
        Matrix3x3 {
            c0: Vector3 { x: self.c0.x, y: self.c1.x, z: self.c2.x },
            c1: Vector3 { x: self.c0.y, y: self.c1.y, z: self.c2.y },
            c2: Vector3 { x: self.c0.z, y: self.c1.z, z: self.c2.z },
        }
    }

    /// The column at index `c`.
    pub fn get_column(&self, c: usize) -> (r: Vector3<S>)
        requires
            c < 3,
        ensures
            r == self.column(c as int),
    {
        if c == 0 {
            self.c0
        } else if c == 1 {
            self.c1
        } else {
            self.c2
        }
    }

    /// The row at index `r`.
    pub fn get_row(&self, r: usize) -> (v: Vector3<S>)
        requires
            r < 3,
        ensures
            v == self.row(r as int),
    {
        if r == 0 {
            Vector3 { x: self.c0.x, y: self.c1.x, z: self.c2.x }
        } else if r == 1 {
            Vector3 { x: self.c0.y, y: self.c1.y, z: self.c2.y }
        } else {
            Vector3 { x: self.c0.z, y: self.c1.z, z: self.c2.z }
        }
    }

    /// Replaces the column at index `c` by `v`.
    pub fn set_column(&mut self, c: usize, v: Vector3<S>)
        requires
            c < 3,
        ensures
            *final(self) == old(self).with_column(c as int, v),
    {
        if c == 0 {
            self.c0 = v;
        } else if c == 1 {
            self.c1 = v;
        } else {
            self.c2 = v;
        }
    }

    /// Replaces the row at index `r` by `v`.
    pub fn set_row(&mut self, r: usize, v: Vector3<S>)
        requires
            r < 3,
        ensures
            *final(self) == old(self).with_row(r as int, v),
    {
        self.c0.set(r, v.x);
        self.c1.set(r, v.y);
        self.c2.set(r, v.z);
    }

    /// Exchanges the columns at the indices `a` and `b`.
    pub fn swap_columns(&mut self, a: usize, b: usize)
        requires
            a < 3,
            b < 3,
        ensures
            *final(self) == old(self).with_column(a as int, old(self).column(b as int)).with_column(
                b as int,
                old(self).column(a as int),
            ),
    {
        let first = self.get_column(a);
        let second = self.get_column(b);
        self.set_column(a, second);
        self.set_column(b, first);
    }

    /// Exchanges the rows at the indices `a` and `b`.
    pub fn swap_rows(&mut self, a: usize, b: usize)
        requires
            a < 3,
            b < 3,
        ensures
            *final(self) == old(self).with_row(a as int, old(self).row(b as int)).with_row(
                b as int,
                old(self).row(a as int),
            ),
    {
        let first = self.get_row(a);
        let second = self.get_row(b);
        self.set_row(a, second);
        self.set_row(b, first);
    }

    /// Exchanges two entries, each given as a pair of its column and its row.
    pub fn swap(&mut self, a: (usize, usize), b: (usize, usize))
        requires
            a.0 < 3,
            a.1 < 3,
            b.0 < 3,
            b.1 < 3,
        ensures
            *final(self) == old(self).with_at(
                a.0 as int,
                a.1 as int,
                old(self).at(b.0 as int, b.1 as int),
            ).with_at(b.0 as int, b.1 as int, old(self).at(a.0 as int, a.1 as int)),
    {
        let mut first_column = self.get_column(a.0);
        let first = first_column[a.1];
        let second = self.get_column(b.0)[b.1];
        first_column.set(a.1, second);
        self.set_column(a.0, first_column);
        let mut second_column = self.get_column(b.0);
        second_column.set(b.1, first);
        self.set_column(b.0, second_column);
    }

    /// Multiplies every entry by `c`, with `c` on the left of each product.
    pub fn scale_left(self, c: S) -> (r: Matrix3x3<S>)
        requires
            self.can_scale_left(c),
        ensures
            r == self.scaled_left(c),
    {
        Matrix3x3 { c0: self.c0.scale_left(c), c1: self.c1.scale_left(c),
            c2: self.c2.scale_left(c) }
    }
}

impl<S: ScalarSigned> Matrix3x3<S> {
    /// True when every entry can be negated.
    pub open spec fn can_neg(self) -> bool {
        &&& self.c0.can_neg()
        &&& self.c1.can_neg()
        &&& self.c2.can_neg()
    }

    /// The matrix of the negated entries.
    pub open spec fn negated(self) -> Matrix3x3<S> {
        Matrix3x3 { c0: self.c0.negated(), c1: self.c1.negated(), c2: self.c2.negated() }
    }
}

impl<S: Scalar> core::ops::Add<Matrix3x3<S>> for Matrix3x3<S> {
    type Output = Matrix3x3<S>;

    fn add(self, other: Matrix3x3<S>) -> (r: Matrix3x3<S>) {
        Matrix3x3 {
            c0: Vector3 {
                x: self.c0.x.add(other.c0.x),
                y: self.c0.y.add(other.c0.y),
                z: self.c0.z.add(other.c0.z),
            },
            c1: Vector3 {
                x: self.c1.x.add(other.c1.x),
                y: self.c1.y.add(other.c1.y),
                z: self.c1.z.add(other.c1.z),
            },
            c2: Vector3 {
                x: self.c2.x.add(other.c2.x),
                y: self.c2.y.add(other.c2.y),
                z: self.c2.z.add(other.c2.z),
            },
        }
    }
}

impl<S: Scalar> vstd::std_specs::ops::AddSpecImpl<Matrix3x3<S>> for Matrix3x3<S> {
    open spec fn obeys_add_spec() -> bool {
        true
    }

    open spec fn add_req(self, other: Matrix3x3<S>) -> bool {
        self.can_add(other)
    }

    open spec fn add_spec(self, other: Matrix3x3<S>) -> Matrix3x3<S> {
        self.plus(other)
    }
}

impl<'a, 'b, S: Scalar> core::ops::Add<&'b Matrix3x3<S>> for &'a Matrix3x3<S> {
    type Output = Matrix3x3<S>;

    fn add(self, other: &'b Matrix3x3<S>) -> (r: Matrix3x3<S>) {
        Matrix3x3 {
            c0: Vector3 {
                x: self.c0.x.add(other.c0.x),
                y: self.c0.y.add(other.c0.y),
                z: self.c0.z.add(other.c0.z),
            },
            c1: Vector3 {
                x: self.c1.x.add(other.c1.x),
                y: self.c1.y.add(other.c1.y),
                z: self.c1.z.add(other.c1.z),
            },
            c2: Vector3 {
                x: self.c2.x.add(other.c2.x),
                y: self.c2.y.add(other.c2.y),
                z: self.c2.z.add(other.c2.z),
            },
        }
    }
}

impl<'a, 'b, S: Scalar> vstd::std_specs::ops::AddSpecImpl<&'b Matrix3x3<S>> for &'a Matrix3x3<S> {
    open spec fn obeys_add_spec() -> bool {
        true
    }

    open spec fn add_req(self, other: &'b Matrix3x3<S>) -> bool {
        (*self).can_add(*other)
    }

    open spec fn add_spec(self, other: &'b Matrix3x3<S>) -> Matrix3x3<S> {
        (*self).plus(*other)
    }
}

impl<S: Scalar> core::ops::Sub<Matrix3x3<S>> for Matrix3x3<S> {
    type Output = Matrix3x3<S>;

    fn sub(self, other: Matrix3x3<S>) -> (r: Matrix3x3<S>) {
        Matrix3x3 {
            c0: Vector3 {
                x: self.c0.x.sub(other.c0.x),
                y: self.c0.y.sub(other.c0.y),
                z: self.c0.z.sub(other.c0.z),
            },
            c1: Vector3 {
                x: self.c1.x.sub(other.c1.x),
                y: self.c1.y.sub(other.c1.y),
                z: self.c1.z.sub(other.c1.z),
            },
            c2: Vector3 {
                x: self.c2.x.sub(other.c2.x),
                y: self.c2.y.sub(other.c2.y),
                z: self.c2.z.sub(other.c2.z),
            },
        }
    }
}

impl<S: Scalar> vstd::std_specs::ops::SubSpecImpl<Matrix3x3<S>> for Matrix3x3<S> {
    open spec fn obeys_sub_spec() -> bool {
        true
    }

    open spec fn sub_req(self, other: Matrix3x3<S>) -> bool {
        self.can_sub(other)
    }

    open spec fn sub_spec(self, other: Matrix3x3<S>) -> Matrix3x3<S> {
        self.minus(other)
    }
}

impl<'a, 'b, S: Scalar> core::ops::Sub<&'b Matrix3x3<S>> for &'a Matrix3x3<S> {
    type Output = Matrix3x3<S>;

    fn sub(self, other: &'b Matrix3x3<S>) -> (r: Matrix3x3<S>) {
        Matrix3x3 {
            c0: Vector3 {
                x: self.c0.x.sub(other.c0.x),
                y: self.c0.y.sub(other.c0.y),
                z: self.c0.z.sub(other.c0.z),
            },
            c1: Vector3 {
                x: self.c1.x.sub(other.c1.x),
                y: self.c1.y.sub(other.c1.y),
                z: self.c1.z.sub(other.c1.z),
            },
            c2: Vector3 {
                x: self.c2.x.sub(other.c2.x),
                y: self.c2.y.sub(other.c2.y),
                z: self.c2.z.sub(other.c2.z),
            },
        }
    }
}

impl<'a, 'b, S: Scalar> vstd::std_specs::ops::SubSpecImpl<&'b Matrix3x3<S>> for &'a Matrix3x3<S> {
    open spec fn obeys_sub_spec() -> bool {
        true
    }

    open spec fn sub_req(self, other: &'b Matrix3x3<S>) -> bool {
        (*self).can_sub(*other)
    }

    open spec fn sub_spec(self, other: &'b Matrix3x3<S>) -> Matrix3x3<S> {
        (*self).minus(*other)
    }
}

impl<S: Scalar> core::ops::Mul<S> for Matrix3x3<S> {
    type Output = Matrix3x3<S>;

    fn mul(self, other: S) -> (r: Matrix3x3<S>) {
        Matrix3x3 {
            c0: Vector3 {
                x: self.c0.x.mul(other),
                y: self.c0.y.mul(other),
                z: self.c0.z.mul(other),
            },
            c1: Vector3 {
                x: self.c1.x.mul(other),
                y: self.c1.y.mul(other),
                z: self.c1.z.mul(other),
            },
            c2: Vector3 {
                x: self.c2.x.mul(other),
                y: self.c2.y.mul(other),
                z: self.c2.z.mul(other),
            },
        }
    }
}

impl<S: Scalar> vstd::std_specs::ops::MulSpecImpl<S> for Matrix3x3<S> {
    open spec fn obeys_mul_spec() -> bool {
        true
    }

    open spec fn mul_req(self, other: S) -> bool {
        self.can_scale(other)
    }

    open spec fn mul_spec(self, other: S) -> Matrix3x3<S> {
        self.scaled(other)
    }
}

impl<'a, S: Scalar> core::ops::Mul<S> for &'a Matrix3x3<S> {
    type Output = Matrix3x3<S>;

    fn mul(self, other: S) -> (r: Matrix3x3<S>) {
        Matrix3x3 {
            c0: Vector3 {
                x: self.c0.x.mul(other),
                y: self.c0.y.mul(other),
                z: self.c0.z.mul(other),
            },
            c1: Vector3 {
                x: self.c1.x.mul(other),
                y: self.c1.y.mul(other),
                z: self.c1.z.mul(other),
            },
            c2: Vector3 {
                x: self.c2.x.mul(other),
                y: self.c2.y.mul(other),
                z: self.c2.z.mul(other),
            },
        }
    }
}

impl<'a, S: Scalar> vstd::std_specs::ops::MulSpecImpl<S> for &'a Matrix3x3<S> {
    open spec fn obeys_mul_spec() -> bool {
        true
    }

    open spec fn mul_req(self, other: S) -> bool {
        (*self).can_scale(other)
    }

    open spec fn mul_spec(self, other: S) -> Matrix3x3<S> {
        (*self).scaled(other)
    }
}

impl<S: Scalar> core::ops::Div<S> for Matrix3x3<S> {
    type Output = Matrix3x3<S>;

    fn div(self, other: S) -> (r: Matrix3x3<S>) {
        Matrix3x3 {
            c0: Vector3 {
                x: self.c0.x.div(other),
                y: self.c0.y.div(other),
                z: self.c0.z.div(other),
            },
            c1: Vector3 {
                x: self.c1.x.div(other),
                y: self.c1.y.div(other),
                z: self.c1.z.div(other),
            },
            c2: Vector3 {
                x: self.c2.x.div(other),
                y: self.c2.y.div(other),
                z: self.c2.z.div(other),
            },
        }
    }
}

impl<S: Scalar> vstd::std_specs::ops::DivSpecImpl<S> for Matrix3x3<S> {
    open spec fn obeys_div_spec() -> bool {
        true
    }

    open spec fn div_req(self, other: S) -> bool {
        self.can_div(other)
    }

    open spec fn div_spec(self, other: S) -> Matrix3x3<S> {
        self.over(other)
    }
}

impl<'a, S: Scalar> core::ops::Div<S> for &'a Matrix3x3<S> {
    type Output = Matrix3x3<S>;

    fn div(self, other: S) -> (r: Matrix3x3<S>) {
        Matrix3x3 {
            c0: Vector3 {
                x: self.c0.x.div(other),
                y: self.c0.y.div(other),
                z: self.c0.z.div(other),
            },
            c1: Vector3 {
                x: self.c1.x.div(other),
                y: self.c1.y.div(other),
                z: self.c1.z.div(other),
            },
            c2: Vector3 {
                x: self.c2.x.div(other),
                y: self.c2.y.div(other),
                z: self.c2.z.div(other),
            },
        }
    }
}

impl<'a, S: Scalar> vstd::std_specs::ops::DivSpecImpl<S> for &'a Matrix3x3<S> {
    open spec fn obeys_div_spec() -> bool {
        true
    }

    open spec fn div_req(self, other: S) -> bool {
        (*self).can_div(other)
    }

    open spec fn div_spec(self, other: S) -> Matrix3x3<S> {
        (*self).over(other)
    }
}

impl<S: Scalar> core::ops::Rem<S> for Matrix3x3<S> {
    type Output = Matrix3x3<S>;

    fn rem(self, other: S) -> (r: Matrix3x3<S>) {
        Matrix3x3 {
            c0: Vector3 {
                x: self.c0.x.rem(other),
                y: self.c0.y.rem(other),
                z: self.c0.z.rem(other),
            },
            c1: Vector3 {
                x: self.c1.x.rem(other),
                y: self.c1.y.rem(other),
                z: self.c1.z.rem(other),
            },
            c2: Vector3 {
                x: self.c2.x.rem(other),
                y: self.c2.y.rem(other),
                z: self.c2.z.rem(other),
            },
        }
    }
}

impl<S: Scalar> vstd::std_specs::ops::RemSpecImpl<S> for Matrix3x3<S> {
    open spec fn obeys_rem_spec() -> bool {
        true
    }

    open spec fn rem_req(self, other: S) -> bool {
        self.can_rem(other)
    }

    open spec fn rem_spec(self, other: S) -> Matrix3x3<S> {
        self.modulo(other)
    }
}

impl<'a, S: Scalar> core::ops::Rem<S> for &'a Matrix3x3<S> {
    type Output = Matrix3x3<S>;

    fn rem(self, other: S) -> (r: Matrix3x3<S>) {
        Matrix3x3 {
            c0: Vector3 {
                x: self.c0.x.rem(other),
                y: self.c0.y.rem(other),
                z: self.c0.z.rem(other),
            },
            c1: Vector3 {
                x: self.c1.x.rem(other),
                y: self.c1.y.rem(other),
                z: self.c1.z.rem(other),
            },
            c2: Vector3 {
                x: self.c2.x.rem(other),
                y: self.c2.y.rem(other),
                z: self.c2.z.rem(other),
            },
        }
    }
}

impl<'a, S: Scalar> vstd::std_specs::ops::RemSpecImpl<S> for &'a Matrix3x3<S> {
    open spec fn obeys_rem_spec() -> bool {
        true
    }

    open spec fn rem_req(self, other: S) -> bool {
        (*self).can_rem(other)
    }

    open spec fn rem_spec(self, other: S) -> Matrix3x3<S> {
        (*self).modulo(other)
    }
}

impl<S: Scalar> core::ops::Mul<Vector3<S>> for Matrix3x3<S> {
    type Output = Vector3<S>;

    fn mul(self, other: Vector3<S>) -> (r: Vector3<S>) {
        Vector3 {
            x: self.c0.x.mul(other.x).add(self.c1.x.mul(other.y)).add(self.c2.x.mul(other.z)),
            y: self.c0.y.mul(other.x).add(self.c1.y.mul(other.y)).add(self.c2.y.mul(other.z)),
            z: self.c0.z.mul(other.x).add(self.c1.z.mul(other.y)).add(self.c2.z.mul(other.z)),
        }
    }
}

impl<S: Scalar> vstd::std_specs::ops::MulSpecImpl<Vector3<S>> for Matrix3x3<S> {
    open spec fn obeys_mul_spec() -> bool {
        true
    }

    open spec fn mul_req(self, other: Vector3<S>) -> bool {
        self.can_mul_vector(other)
    }

    open spec fn mul_spec(self, other: Vector3<S>) -> Vector3<S> {
        self.times_vector(other)
    }
}

impl<'a, 'b, S: Scalar> core::ops::Mul<&'b Vector3<S>> for &'a Matrix3x3<S> {
    type Output = Vector3<S>;

    fn mul(self, other: &'b Vector3<S>) -> (r: Vector3<S>) {
        Vector3 {
            x: self.c0.x.mul(other.x).add(self.c1.x.mul(other.y)).add(self.c2.x.mul(other.z)),
            y: self.c0.y.mul(other.x).add(self.c1.y.mul(other.y)).add(self.c2.y.mul(other.z)),
            z: self.c0.z.mul(other.x).add(self.c1.z.mul(other.y)).add(self.c2.z.mul(other.z)),
        }
    }
}

impl<'a, 'b, S: Scalar> vstd::std_specs::ops::MulSpecImpl<&'b Vector3<S>> for &'a Matrix3x3<S> {
    open spec fn obeys_mul_spec() -> bool {
        true
    }

    open spec fn mul_req(self, other: &'b Vector3<S>) -> bool {
        (*self).can_mul_vector(*other)
    }

    open spec fn mul_spec(self, other: &'b Vector3<S>) -> Vector3<S> {
        (*self).times_vector(*other)
    }
}

impl<S: Scalar> core::ops::Mul<Matrix3x2<S>> for Matrix3x3<S> {
    type Output = Matrix3x2<S>;

    fn mul(self, other: Matrix3x2<S>) -> (r: Matrix3x2<S>) {
        Matrix3x2 {
            c0: Vector3 {
                x: self.c0.x.mul(other.c0.x).add(self.c1.x.mul(other.c0.y)).add(self.c2.x
                    .mul(other.c0.z)),
                y: self.c0.y.mul(other.c0.x).add(self.c1.y.mul(other.c0.y)).add(self.c2.y
                    .mul(other.c0.z)),
                z: self.c0.z.mul(other.c0.x).add(self.c1.z.mul(other.c0.y)).add(self.c2.z
                    .mul(other.c0.z)),
            },
            c1: Vector3 {
                x: self.c0.x.mul(other.c1.x).add(self.c1.x.mul(other.c1.y)).add(self.c2.x
                    .mul(other.c1.z)),
                y: self.c0.y.mul(other.c1.x).add(self.c1.y.mul(other.c1.y)).add(self.c2.y
                    .mul(other.c1.z)),
                z: self.c0.z.mul(other.c1.x).add(self.c1.z.mul(other.c1.y)).add(self.c2.z
                    .mul(other.c1.z)),
            },
        }
    }
}

impl<S: Scalar> vstd::std_specs::ops::MulSpecImpl<Matrix3x2<S>> for Matrix3x3<S> {
    open spec fn obeys_mul_spec() -> bool {
        true
    }

    open spec fn mul_req(self, other: Matrix3x2<S>) -> bool {
        self.can_mul_3x2(other)
    }

    open spec fn mul_spec(self, other: Matrix3x2<S>) -> Matrix3x2<S> {
        self.times_3x2(other)
    }
}

impl<'a, 'b, S: Scalar> core::ops::Mul<&'b Matrix3x2<S>> for &'a Matrix3x3<S> {
    type Output = Matrix3x2<S>;

    fn mul(self, other: &'b Matrix3x2<S>) -> (r: Matrix3x2<S>) {
        Matrix3x2 {
            c0: Vector3 {
                x: self.c0.x.mul(other.c0.x).add(self.c1.x.mul(other.c0.y)).add(self.c2.x
                    .mul(other.c0.z)),
                y: self.c0.y.mul(other.c0.x).add(self.c1.y.mul(other.c0.y)).add(self.c2.y
                    .mul(other.c0.z)),
                z: self.c0.z.mul(other.c0.x).add(self.c1.z.mul(other.c0.y)).add(self.c2.z
                    .mul(other.c0.z)),
            },
            c1: Vector3 {
                x: self.c0.x.mul(other.c1.x).add(self.c1.x.mul(other.c1.y)).add(self.c2.x
                    .mul(other.c1.z)),
                y: self.c0.y.mul(other.c1.x).add(self.c1.y.mul(other.c1.y)).add(self.c2.y
                    .mul(other.c1.z)),
                z: self.c0.z.mul(other.c1.x).add(self.c1.z.mul(other.c1.y)).add(self.c2.z
                    .mul(other.c1.z)),
            },
        }
    }
}

impl<'a, 'b, S: Scalar> vstd::std_specs::ops::MulSpecImpl<&'b Matrix3x2<S>> for &'a Matrix3x3<S> {
    open spec fn obeys_mul_spec() -> bool {
        true
    }

    open spec fn mul_req(self, other: &'b Matrix3x2<S>) -> bool {
        (*self).can_mul_3x2(*other)
    }

    open spec fn mul_spec(self, other: &'b Matrix3x2<S>) -> Matrix3x2<S> {
        (*self).times_3x2(*other)
    }
}

impl<S: Scalar> core::ops::Mul<Matrix3x3<S>> for Matrix3x3<S> {
    type Output = Matrix3x3<S>;

    fn mul(self, other: Matrix3x3<S>) -> (r: Matrix3x3<S>) {
        Matrix3x3 {
            c0: Vector3 {
                x: self.c0.x.mul(other.c0.x).add(self.c1.x.mul(other.c0.y)).add(self.c2.x
                    .mul(other.c0.z)),
                y: self.c0.y.mul(other.c0.x).add(self.c1.y.mul(other.c0.y)).add(self.c2.y
                    .mul(other.c0.z)),
                z: self.c0.z.mul(other.c0.x).add(self.c1.z.mul(other.c0.y)).add(self.c2.z
                    .mul(other.c0.z)),
            },
            c1: Vector3 {
                x: self.c0.x.mul(other.c1.x).add(self.c1.x.mul(other.c1.y)).add(self.c2.x
                    .mul(other.c1.z)),
                y: self.c0.y.mul(other.c1.x).add(self.c1.y.mul(other.c1.y)).add(self.c2.y
                    .mul(other.c1.z)),
                z: self.c0.z.mul(other.c1.x).add(self.c1.z.mul(other.c1.y)).add(self.c2.z
                    .mul(other.c1.z)),
            },
            c2: Vector3 {
                x: self.c0.x.mul(other.c2.x).add(self.c1.x.mul(other.c2.y)).add(self.c2.x
                    .mul(other.c2.z)),
                y: self.c0.y.mul(other.c2.x).add(self.c1.y.mul(other.c2.y)).add(self.c2.y
                    .mul(other.c2.z)),
                z: self.c0.z.mul(other.c2.x).add(self.c1.z.mul(other.c2.y)).add(self.c2.z
                    .mul(other.c2.z)),
            },
        }
    }
}

impl<S: Scalar> vstd::std_specs::ops::MulSpecImpl<Matrix3x3<S>> for Matrix3x3<S> {
    open spec fn obeys_mul_spec() -> bool {
        true
    }

    open spec fn mul_req(self, other: Matrix3x3<S>) -> bool {
        self.can_mul_3x3(other)
    }

    open spec fn mul_spec(self, other: Matrix3x3<S>) -> Matrix3x3<S> {
        self.times_3x3(other)
    }
}

impl<'a, 'b, S: Scalar> core::ops::Mul<&'b Matrix3x3<S>> for &'a Matrix3x3<S> {
    type Output = Matrix3x3<S>;

    fn mul(self, other: &'b Matrix3x3<S>) -> (r: Matrix3x3<S>) {
        Matrix3x3 {
            c0: Vector3 {
                x: self.c0.x.mul(other.c0.x).add(self.c1.x.mul(other.c0.y)).add(self.c2.x
                    .mul(other.c0.z)),
                y: self.c0.y.mul(other.c0.x).add(self.c1.y.mul(other.c0.y)).add(self.c2.y
                    .mul(other.c0.z)),
                z: self.c0.z.mul(other.c0.x).add(self.c1.z.mul(other.c0.y)).add(self.c2.z
                    .mul(other.c0.z)),
            },
            c1: Vector3 {
                x: self.c0.x.mul(other.c1.x).add(self.c1.x.mul(other.c1.y)).add(self.c2.x
                    .mul(other.c1.z)),
                y: self.c0.y.mul(other.c1.x).add(self.c1.y.mul(other.c1.y)).add(self.c2.y
                    .mul(other.c1.z)),
                z: self.c0.z.mul(other.c1.x).add(self.c1.z.mul(other.c1.y)).add(self.c2.z
                    .mul(other.c1.z)),
            },
            c2: Vector3 {
                x: self.c0.x.mul(other.c2.x).add(self.c1.x.mul(other.c2.y)).add(self.c2.x
                    .mul(other.c2.z)),
                y: self.c0.y.mul(other.c2.x).add(self.c1.y.mul(other.c2.y)).add(self.c2.y
                    .mul(other.c2.z)),
                z: self.c0.z.mul(other.c2.x).add(self.c1.z.mul(other.c2.y)).add(self.c2.z
                    .mul(other.c2.z)),
            },
        }
    }
}

impl<'a, 'b, S: Scalar> vstd::std_specs::ops::MulSpecImpl<&'b Matrix3x3<S>> for &'a Matrix3x3<S> {
    open spec fn obeys_mul_spec() -> bool {
        true
    }

    open spec fn mul_req(self, other: &'b Matrix3x3<S>) -> bool {
        (*self).can_mul_3x3(*other)
    }

    open spec fn mul_spec(self, other: &'b Matrix3x3<S>) -> Matrix3x3<S> {
        (*self).times_3x3(*other)
    }
}

impl<S: Scalar> core::ops::Mul<Matrix3x4<S>> for Matrix3x3<S> {
    type Output = Matrix3x4<S>;

    fn mul(self, other: Matrix3x4<S>) -> (r: Matrix3x4<S>) {
        Matrix3x4 {
            c0: Vector3 {
                x: self.c0.x.mul(other.c0.x).add(self.c1.x.mul(other.c0.y)).add(self.c2.x
                    .mul(other.c0.z)),
                y: self.c0.y.mul(other.c0.x).add(self.c1.y.mul(other.c0.y)).add(self.c2.y
                    .mul(other.c0.z)),
                z: self.c0.z.mul(other.c0.x).add(self.c1.z.mul(other.c0.y)).add(self.c2.z
                    .mul(other.c0.z)),
            },
            c1: Vector3 {
                x: self.c0.x.mul(other.c1.x).add(self.c1.x.mul(other.c1.y)).add(self.c2.x
                    .mul(other.c1.z)),
                y: self.c0.y.mul(other.c1.x).add(self.c1.y.mul(other.c1.y)).add(self.c2.y
                    .mul(other.c1.z)),
                z: self.c0.z.mul(other.c1.x).add(self.c1.z.mul(other.c1.y)).add(self.c2.z
                    .mul(other.c1.z)),
            },
            c2: Vector3 {
                x: self.c0.x.mul(other.c2.x).add(self.c1.x.mul(other.c2.y)).add(self.c2.x
                    .mul(other.c2.z)),
                y: self.c0.y.mul(other.c2.x).add(self.c1.y.mul(other.c2.y)).add(self.c2.y
                    .mul(other.c2.z)),
                z: self.c0.z.mul(other.c2.x).add(self.c1.z.mul(other.c2.y)).add(self.c2.z
                    .mul(other.c2.z)),
            },
            c3: Vector3 {
                x: self.c0.x.mul(other.c3.x).add(self.c1.x.mul(other.c3.y)).add(self.c2.x
                    .mul(other.c3.z)),
                y: self.c0.y.mul(other.c3.x).add(self.c1.y.mul(other.c3.y)).add(self.c2.y
                    .mul(other.c3.z)),
                z: self.c0.z.mul(other.c3.x).add(self.c1.z.mul(other.c3.y)).add(self.c2.z
                    .mul(other.c3.z)),
            },
        }
    }
}

impl<S: Scalar> vstd::std_specs::ops::MulSpecImpl<Matrix3x4<S>> for Matrix3x3<S> {
    open spec fn obeys_mul_spec() -> bool {
        true
    }

    open spec fn mul_req(self, other: Matrix3x4<S>) -> bool {
        self.can_mul_3x4(other)
    }

    open spec fn mul_spec(self, other: Matrix3x4<S>) -> Matrix3x4<S> {
        self.times_3x4(other)
    }
}

impl<'a, 'b, S: Scalar> core::ops::Mul<&'b Matrix3x4<S>> for &'a Matrix3x3<S> {
    type Output = Matrix3x4<S>;

    fn mul(self, other: &'b Matrix3x4<S>) -> (r: Matrix3x4<S>) {
        Matrix3x4 {
            c0: Vector3 {
                x: self.c0.x.mul(other.c0.x).add(self.c1.x.mul(other.c0.y)).add(self.c2.x
                    .mul(other.c0.z)),
                y: self.c0.y.mul(other.c0.x).add(self.c1.y.mul(other.c0.y)).add(self.c2.y
                    .mul(other.c0.z)),
                z: self.c0.z.mul(other.c0.x).add(self.c1.z.mul(other.c0.y)).add(self.c2.z
                    .mul(other.c0.z)),
            },
            c1: Vector3 {
                x: self.c0.x.mul(other.c1.x).add(self.c1.x.mul(other.c1.y)).add(self.c2.x
                    .mul(other.c1.z)),
                y: self.c0.y.mul(other.c1.x).add(self.c1.y.mul(other.c1.y)).add(self.c2.y
                    .mul(other.c1.z)),
                z: self.c0.z.mul(other.c1.x).add(self.c1.z.mul(other.c1.y)).add(self.c2.z
                    .mul(other.c1.z)),
            },
            c2: Vector3 {
                x: self.c0.x.mul(other.c2.x).add(self.c1.x.mul(other.c2.y)).add(self.c2.x
                    .mul(other.c2.z)),
                y: self.c0.y.mul(other.c2.x).add(self.c1.y.mul(other.c2.y)).add(self.c2.y
                    .mul(other.c2.z)),
                z: self.c0.z.mul(other.c2.x).add(self.c1.z.mul(other.c2.y)).add(self.c2.z
                    .mul(other.c2.z)),
            },
            c3: Vector3 {
                x: self.c0.x.mul(other.c3.x).add(self.c1.x.mul(other.c3.y)).add(self.c2.x
                    .mul(other.c3.z)),
                y: self.c0.y.mul(other.c3.x).add(self.c1.y.mul(other.c3.y)).add(self.c2.y
                    .mul(other.c3.z)),
                z: self.c0.z.mul(other.c3.x).add(self.c1.z.mul(other.c3.y)).add(self.c2.z
                    .mul(other.c3.z)),
            },
        }
    }
}

impl<'a, 'b, S: Scalar> vstd::std_specs::ops::MulSpecImpl<&'b Matrix3x4<S>> for &'a Matrix3x3<S> {
    open spec fn obeys_mul_spec() -> bool {
        true
    }

    open spec fn mul_req(self, other: &'b Matrix3x4<S>) -> bool {
        (*self).can_mul_3x4(*other)
    }

    open spec fn mul_spec(self, other: &'b Matrix3x4<S>) -> Matrix3x4<S> {
        (*self).times_3x4(*other)
    }
}

impl<S: ScalarSigned> core::ops::Neg for Matrix3x3<S> {
    type Output = Matrix3x3<S>;

    fn neg(self) -> (r: Matrix3x3<S>) {
        Matrix3x3 {
            c0: Vector3 { x: self.c0.x.neg(), y: self.c0.y.neg(), z: self.c0.z.neg() },
            c1: Vector3 { x: self.c1.x.neg(), y: self.c1.y.neg(), z: self.c1.z.neg() },
            c2: Vector3 { x: self.c2.x.neg(), y: self.c2.y.neg(), z: self.c2.z.neg() },
        }
    }
}

impl<S: ScalarSigned> vstd::std_specs::ops::NegSpecImpl for Matrix3x3<S> {
    open spec fn obeys_neg_spec() -> bool {
        true
    }

    open spec fn neg_req(self) -> bool {
        self.can_neg()
    }

    open spec fn neg_spec(self) -> Matrix3x3<S> {
        self.negated()
    }
}

impl<'a, S: ScalarSigned> core::ops::Neg for &'a Matrix3x3<S> {
    type Output = Matrix3x3<S>;

    fn neg(self) -> (r: Matrix3x3<S>) {
        Matrix3x3 {
            c0: Vector3 { x: self.c0.x.neg(), y: self.c0.y.neg(), z: self.c0.z.neg() },
            c1: Vector3 { x: self.c1.x.neg(), y: self.c1.y.neg(), z: self.c1.z.neg() },
            c2: Vector3 { x: self.c2.x.neg(), y: self.c2.y.neg(), z: self.c2.z.neg() },
        }
    }
}

impl<'a, S: ScalarSigned> vstd::std_specs::ops::NegSpecImpl for &'a Matrix3x3<S> {
    open spec fn obeys_neg_spec() -> bool {
        true
    }

    open spec fn neg_req(self) -> bool {
        (*self).can_neg()
    }

    open spec fn neg_spec(self) -> Matrix3x3<S> {
        (*self).negated()
    }
}

impl<S: Scalar> core::ops::Index<usize> for Matrix3x3<S> {
    type Output = Vector3<S>;

    fn index(&self, index: usize) -> (r: &Vector3<S>)
        ensures
            *r == self.column(index as int),
    {
        if index == 0 {
            &self.c0
        } else if index == 1 {
            &self.c1
        } else if index == 2 {
            &self.c2
        } else {
            vstd::pervasive::unreached()
        }
    }
}

impl<S: Scalar> vstd::std_specs::core::IndexSpecImpl<usize> for Matrix3x3<S> {
    open spec fn index_req(&self, index: &usize) -> bool {
        *index < 3
    }
}

impl<S: Scalar> Matrix3x3<S> {
    /// True when every product, sum and difference of the determinant is defined.
    pub open spec fn can_determinant(self) -> bool {
        &&& can_det3(self.c0.x, self.c0.y, self.c0.z, self.c1.x, self.c1.y, self.c1.z, self.c2.x,
            self.c2.y, self.c2.z)
    }

    /// The determinant, expanded along the first row.
    pub open spec fn determinant_spec(self) -> S {
        det3(self.c0.x, self.c0.y, self.c0.z, self.c1.x, self.c1.y, self.c1.z, self.c2.x,
            self.c2.y, self.c2.z)
    }

    /// True when the determinant is not the same as zero.
    pub open spec fn is_invertible_spec(self) -> bool {
        !self.determinant_spec().same(S::zero_spec())
    }

    /// The determinant of the matrix.
    pub fn determinant(&self) -> (r: S)
        requires
            self.can_determinant(),
        ensures
            r == self.determinant_spec(),
    {
        det3_of(self.c0.x, self.c0.y, self.c0.z, self.c1.x, self.c1.y, self.c1.z, self.c2.x,
            self.c2.y, self.c2.z)
    }

    /// Tells whether the matrix has an inverse: whether its determinant is not zero.
    pub fn is_invertible(&self) -> (r: bool)
        requires
            self.can_determinant(),
        ensures
            r == self.is_invertible_spec(),
    {
        !self.determinant().equals(S::zero())
    }
}

impl<S: ScalarSigned> Matrix3x3<S> {
    /// True when every entry of the adjugate is defined.
    pub open spec fn can_adjugate(self) -> bool {
        &&& can_det2(self.c1.y, self.c1.z, self.c2.y, self.c2.z)
        &&& can_det2(self.c0.y, self.c0.z, self.c2.y, self.c2.z)
        &&& det2(self.c0.y, self.c0.z, self.c2.y, self.c2.z).can_neg()
        &&& can_det2(self.c0.y, self.c0.z, self.c1.y, self.c1.z)
        &&& can_det2(self.c1.x, self.c1.z, self.c2.x, self.c2.z)
        &&& det2(self.c1.x, self.c1.z, self.c2.x, self.c2.z).can_neg()
        &&& can_det2(self.c0.x, self.c0.z, self.c2.x, self.c2.z)
        &&& can_det2(self.c0.x, self.c0.z, self.c1.x, self.c1.z)
        &&& det2(self.c0.x, self.c0.z, self.c1.x, self.c1.z).can_neg()
        &&& can_det2(self.c1.x, self.c1.y, self.c2.x, self.c2.y)
        &&& can_det2(self.c0.x, self.c0.y, self.c2.x, self.c2.y)
        &&& det2(self.c0.x, self.c0.y, self.c2.x, self.c2.y).can_neg()
        &&& can_det2(self.c0.x, self.c0.y, self.c1.x, self.c1.y)
    }

    /// The adjugate: the entry in column `c` and row `r` is the determinant
    /// of the matrix without column `r` and row `c`, negated where `c + r` is odd.
    pub open spec fn adjugate_spec(self) -> Matrix3x3<S> {
        Matrix3x3 {
            c0: Vector3 {
                x: det2(self.c1.y, self.c1.z, self.c2.y, self.c2.z),
                y: det2(self.c0.y, self.c0.z, self.c2.y, self.c2.z).negated(),
                z: det2(self.c0.y, self.c0.z, self.c1.y, self.c1.z),
            },
            c1: Vector3 {
                x: det2(self.c1.x, self.c1.z, self.c2.x, self.c2.z).negated(),
                y: det2(self.c0.x, self.c0.z, self.c2.x, self.c2.z),
                z: det2(self.c0.x, self.c0.z, self.c1.x, self.c1.z).negated(),
            },
            c2: Vector3 {
                x: det2(self.c1.x, self.c1.y, self.c2.x, self.c2.y),
                y: det2(self.c0.x, self.c0.y, self.c2.x, self.c2.y).negated(),
                z: det2(self.c0.x, self.c0.y, self.c1.x, self.c1.y),
            },
        }
    }

    /// True when the inverse can be computed: the determinant is defined and,
    /// unless it is zero, so are its reciprocal, the adjugate and their product.
    pub open spec fn can_inverse(self) -> bool {
        &&& self.can_determinant()
        &&& self.is_invertible_spec() ==> {
            &&& S::one_spec().can_div(self.determinant_spec())
            &&& self.can_adjugate()
            &&& self.adjugate_spec().can_scale_left(S::one_spec().over(self.determinant_spec()))
        }
    }

    /// The inverse: absent when the determinant is zero, else the adjugate
    /// multiplied from the left by the reciprocal of the determinant.
    pub open spec fn inverse_spec(self) -> Option<Matrix3x3<S>> {
        if self.is_invertible_spec() {
            Some(self.adjugate_spec().scaled_left(S::one_spec().over(self.determinant_spec())))
        } else {
            None
        }
    }

    /// The adjugate of the matrix.
    pub fn adjugate(&self) -> (r: Matrix3x3<S>)
        requires
            self.can_adjugate(),
        ensures
            r == self.adjugate_spec(),
    {
        Matrix3x3 {
            c0: Vector3 {
                x: det2_of(self.c1.y, self.c1.z, self.c2.y, self.c2.z),
                y: det2_of(self.c0.y, self.c0.z, self.c2.y, self.c2.z).neg(),
                z: det2_of(self.c0.y, self.c0.z, self.c1.y, self.c1.z),
            },
            c1: Vector3 {
                x: det2_of(self.c1.x, self.c1.z, self.c2.x, self.c2.z).neg(),
                y: det2_of(self.c0.x, self.c0.z, self.c2.x, self.c2.z),
                z: det2_of(self.c0.x, self.c0.z, self.c1.x, self.c1.z).neg(),
            },
            c2: Vector3 {
                x: det2_of(self.c1.x, self.c1.y, self.c2.x, self.c2.y),
                y: det2_of(self.c0.x, self.c0.y, self.c2.x, self.c2.y).neg(),
                z: det2_of(self.c0.x, self.c0.y, self.c1.x, self.c1.y),
            },
        }
    }

    /// The inverse of the matrix, or `None` when its determinant is zero.
    pub fn inverse(&self) -> (r: Option<Matrix3x3<S>>)
        requires
            self.can_inverse(),
        ensures
            r == self.inverse_spec(),
            r is None <==> self.determinant_spec().same(S::zero_spec()),
    {
        let det = self.determinant();
        if det.equals(S::zero()) {
            None
        } else {
            let inv_det = S::one().div(det);
            Some(self.adjugate().scale_left(inv_det))
        }
    }
}

impl<S: Scalar> Matrix3x3<S> {
    /// The matrix that scales every axis by `scale`.
    pub open spec fn scale_spec(scale: S) -> Matrix3x3<S> {
        Matrix3x3 {
            c0: Vector3 { x: scale, y: S::zero_spec(), z: S::zero_spec() },
            c1: Vector3 { x: S::zero_spec(), y: scale, z: S::zero_spec() },
            c2: Vector3 { x: S::zero_spec(), y: S::zero_spec(), z: scale },
        }
    }

    /// The matrix that scales every axis by `scale`.
    pub fn from_scale(scale: S) -> (r: Matrix3x3<S>)
        ensures
            r == Self::scale_spec(scale),
    {
        Matrix3x3 {
            c0: Vector3 { x: scale, y: S::zero(), z: S::zero() },
            c1: Vector3 { x: S::zero(), y: scale, z: S::zero() },
            c2: Vector3 { x: S::zero(), y: S::zero(), z: scale },
        }
    }

    /// The matrix that scales each axis by the component of `scale` for it.
    pub open spec fn nonuniform_scale_spec(scale: Vector3<S>) -> Matrix3x3<S> {
        Matrix3x3 {
            c0: Vector3 { x: scale.x, y: S::zero_spec(), z: S::zero_spec() },
            c1: Vector3 { x: S::zero_spec(), y: scale.y, z: S::zero_spec() },
            c2: Vector3 { x: S::zero_spec(), y: S::zero_spec(), z: scale.z },
        }
    }

    /// The matrix that scales each axis by the component of `scale` for it.
    pub fn from_nonuniform_scale(scale: &Vector3<S>) -> (r: Matrix3x3<S>)
        ensures
            r == Self::nonuniform_scale_spec(*scale),
    {
        Matrix3x3 {
            c0: Vector3 { x: scale.x, y: S::zero(), z: S::zero() },
            c1: Vector3 { x: S::zero(), y: scale.y, z: S::zero() },
            c2: Vector3 { x: S::zero(), y: S::zero(), z: scale.z },
        }
    }

    /// The affine matrix that scales every axis of the 2-dimensional space by `scale`.
    pub open spec fn affine_scale_spec(scale: S) -> Matrix3x3<S> {
        Matrix3x3 {
            c0: Vector3 { x: scale, y: S::zero_spec(), z: S::zero_spec() },
            c1: Vector3 { x: S::zero_spec(), y: scale, z: S::zero_spec() },
            c2: Vector3 { x: S::zero_spec(), y: S::zero_spec(), z: S::one_spec() },
        }
    }

    /// The affine matrix that scales every axis of the 2-dimensional space by `scale`.
    pub fn from_affine_scale(scale: S) -> (r: Matrix3x3<S>)
        ensures
            r == Self::affine_scale_spec(scale),
    {
        Matrix3x3 {
            c0: Vector3 { x: scale, y: S::zero(), z: S::zero() },
            c1: Vector3 { x: S::zero(), y: scale, z: S::zero() },
            c2: Vector3 { x: S::zero(), y: S::zero(), z: S::one() },
        }
    }

    /// The affine matrix that scales each axis by the component of `scale` for it.
    pub open spec fn affine_nonuniform_scale_spec(scale: Vector2<S>) -> Matrix3x3<S> {
        Matrix3x3 {
            c0: Vector3 { x: scale.x, y: S::zero_spec(), z: S::zero_spec() },
            c1: Vector3 { x: S::zero_spec(), y: scale.y, z: S::zero_spec() },
            c2: Vector3 { x: S::zero_spec(), y: S::zero_spec(), z: S::one_spec() },
        }
    }

    /// The affine matrix that scales each axis by the component of `scale` for it.
    pub fn from_affine_nonuniform_scale(scale: &Vector2<S>) -> (r: Matrix3x3<S>)
        ensures
            r == Self::affine_nonuniform_scale_spec(*scale),
    {
        Matrix3x3 {
            c0: Vector3 { x: scale.x, y: S::zero(), z: S::zero() },
            c1: Vector3 { x: S::zero(), y: scale.y, z: S::zero() },
            c2: Vector3 { x: S::zero(), y: S::zero(), z: S::one() },
        }
    }

    /// The affine matrix that displaces points by `distance`: the identity with `distance`
    /// in the last column.
    pub open spec fn affine_translation_spec(distance: Vector2<S>) -> Matrix3x3<S> {
        Matrix3x3 {
            c0: Vector3 { x: S::one_spec(), y: S::zero_spec(), z: S::zero_spec() },
            c1: Vector3 { x: S::zero_spec(), y: S::one_spec(), z: S::zero_spec() },
            c2: Vector3 { x: distance.x, y: distance.y, z: S::one_spec() },
        }
    }

    /// The affine matrix that displaces points by `distance`: the identity with `distance`
    /// in the last column.
    pub fn from_affine_translation(distance: &Vector2<S>) -> (r: Matrix3x3<S>)
        ensures
            r == Self::affine_translation_spec(*distance),
    {
        Matrix3x3 {
            c0: Vector3 { x: S::one(), y: S::zero(), z: S::zero() },
            c1: Vector3 { x: S::zero(), y: S::one(), z: S::zero() },
            c2: Vector3 { x: distance.x, y: distance.y, z: S::one() },
        }
    }

    /// The shear along the x-axis: the other two components, each times its factor, are
    /// added to the x-component.
    pub open spec fn shear_x_spec(shear_x_with_y: S, shear_x_with_z: S) -> Matrix3x3<S> {
        Matrix3x3 {
            c0: Vector3 { x: S::one_spec(), y: S::zero_spec(), z: S::zero_spec() },
            c1: Vector3 { x: shear_x_with_y, y: S::one_spec(), z: S::zero_spec() },
            c2: Vector3 { x: shear_x_with_z, y: S::zero_spec(), z: S::one_spec() },
        }
    }

    /// The shear along the x-axis: the other two components, each times its factor, are
    /// added to the x-component.
    pub fn from_shear_x(shear_x_with_y: S, shear_x_with_z: S) -> (r: Matrix3x3<S>)
        ensures
            r == Self::shear_x_spec(shear_x_with_y, shear_x_with_z),
    {
        Matrix3x3 {
            c0: Vector3 { x: S::one(), y: S::zero(), z: S::zero() },
            c1: Vector3 { x: shear_x_with_y, y: S::one(), z: S::zero() },
            c2: Vector3 { x: shear_x_with_z, y: S::zero(), z: S::one() },
        }
    }

    /// The shear along the y-axis: the other two components, each times its factor, are
    /// added to the y-component.
    pub open spec fn shear_y_spec(shear_y_with_x: S, shear_y_with_z: S) -> Matrix3x3<S> {
        Matrix3x3 {
            c0: Vector3 { x: S::one_spec(), y: shear_y_with_x, z: S::zero_spec() },
            c1: Vector3 { x: S::zero_spec(), y: S::one_spec(), z: S::zero_spec() },
            c2: Vector3 { x: S::zero_spec(), y: shear_y_with_z, z: S::one_spec() },
        }
    }

    /// The shear along the y-axis: the other two components, each times its factor, are
    /// added to the y-component.
    pub fn from_shear_y(shear_y_with_x: S, shear_y_with_z: S) -> (r: Matrix3x3<S>)
        ensures
            r == Self::shear_y_spec(shear_y_with_x, shear_y_with_z),
    {
        Matrix3x3 {
            c0: Vector3 { x: S::one(), y: shear_y_with_x, z: S::zero() },
            c1: Vector3 { x: S::zero(), y: S::one(), z: S::zero() },
            c2: Vector3 { x: S::zero(), y: shear_y_with_z, z: S::one() },
        }
    }

    /// The shear along the z-axis: the other two components, each times its factor, are
    /// added to the z-component.
    pub open spec fn shear_z_spec(shear_z_with_x: S, shear_z_with_y: S) -> Matrix3x3<S> {
        Matrix3x3 {
            c0: Vector3 { x: S::one_spec(), y: S::zero_spec(), z: shear_z_with_x },
            c1: Vector3 { x: S::zero_spec(), y: S::one_spec(), z: shear_z_with_y },
            c2: Vector3 { x: S::zero_spec(), y: S::zero_spec(), z: S::one_spec() },
        }
    }

    /// The shear along the z-axis: the other two components, each times its factor, are
    /// added to the z-component.
    pub fn from_shear_z(shear_z_with_x: S, shear_z_with_y: S) -> (r: Matrix3x3<S>)
        ensures
            r == Self::shear_z_spec(shear_z_with_x, shear_z_with_y),
    {
        Matrix3x3 {
            c0: Vector3 { x: S::one(), y: S::zero(), z: shear_z_with_x },
            c1: Vector3 { x: S::zero(), y: S::one(), z: shear_z_with_y },
            c2: Vector3 { x: S::zero(), y: S::zero(), z: S::one() },
        }
    }

    /// The affine shear of the plane along the x-axis.
    pub open spec fn affine_shear_x_spec(shear_factor: S) -> Matrix3x3<S> {
        Matrix3x3 {
            c0: Vector3 { x: S::one_spec(), y: S::zero_spec(), z: S::zero_spec() },
            c1: Vector3 { x: shear_factor, y: S::one_spec(), z: S::zero_spec() },
            c2: Vector3 { x: S::zero_spec(), y: S::zero_spec(), z: S::one_spec() },
        }
    }

    /// The affine shear of the plane along the x-axis.
    pub fn from_affine_shear_x(shear_factor: S) -> (r: Matrix3x3<S>)
        ensures
            r == Self::affine_shear_x_spec(shear_factor),
    {
        Matrix3x3 {
            c0: Vector3 { x: S::one(), y: S::zero(), z: S::zero() },
            c1: Vector3 { x: shear_factor, y: S::one(), z: S::zero() },
            c2: Vector3 { x: S::zero(), y: S::zero(), z: S::one() },
        }
    }

    /// The affine shear of the plane along the y-axis.
    pub open spec fn affine_shear_y_spec(shear_factor: S) -> Matrix3x3<S> {
        Matrix3x3 {
            c0: Vector3 { x: S::one_spec(), y: shear_factor, z: S::zero_spec() },
            c1: Vector3 { x: S::zero_spec(), y: S::one_spec(), z: S::zero_spec() },
            c2: Vector3 { x: S::zero_spec(), y: S::zero_spec(), z: S::one_spec() },
        }
    }

    /// The affine shear of the plane along the y-axis.
    pub fn from_affine_shear_y(shear_factor: S) -> (r: Matrix3x3<S>)
        ensures
            r == Self::affine_shear_y_spec(shear_factor),
    {
        Matrix3x3 {
            c0: Vector3 { x: S::one(), y: shear_factor, z: S::zero() },
            c1: Vector3 { x: S::zero(), y: S::one(), z: S::zero() },
            c2: Vector3 { x: S::zero(), y: S::zero(), z: S::one() },
        }
    }

    /// The shear of space along all three axes at once: to each component the other two are
    /// added, each times its factor.
    pub open spec fn shear_factors_spec(
        shear_x_with_y: S,
        shear_x_with_z: S,
        shear_y_with_x: S,
        shear_y_with_z: S,
        shear_z_with_x: S,
        shear_z_with_y: S,
    ) -> Matrix3x3<S> {
        Matrix3x3 {
            c0: Vector3 { x: S::one_spec(), y: shear_y_with_x, z: shear_z_with_x },
            c1: Vector3 { x: shear_x_with_y, y: S::one_spec(), z: shear_z_with_y },
            c2: Vector3 { x: shear_x_with_z, y: shear_y_with_z, z: S::one_spec() },
        }
    }

    /// The shear of space along all three axes at once: to each component the other two are
    /// added, each times its factor.
    pub fn from_shear_factors(
        shear_x_with_y: S,
        shear_x_with_z: S,
        shear_y_with_x: S,
        shear_y_with_z: S,
        shear_z_with_x: S,
        shear_z_with_y: S,
    ) -> (r: Matrix3x3<S>)
        ensures
            r == Self::shear_factors_spec(shear_x_with_y, shear_x_with_z, shear_y_with_x,
                shear_y_with_z, shear_z_with_x, shear_z_with_y),
    {
        Matrix3x3 {
            c0: Vector3 { x: S::one(), y: shear_y_with_x, z: shear_z_with_x },
            c1: Vector3 { x: shear_x_with_y, y: S::one(), z: shear_z_with_y },
            c2: Vector3 { x: shear_x_with_z, y: shear_y_with_z, z: S::one() },
        }
    }

    /// True when every entry of `shear_spec` is defined.
    pub open spec fn can_from_shear(
        shear_factor: S,
        direction: Unit<Vector3<S>>,
        normal: Unit<Vector3<S>>,
    ) -> bool {
        &&& shear_factor.can_mul(direction@.x)
        &&& shear_factor.times(direction@.x).can_mul(normal@.x)
        &&& S::one_spec().can_add(shear_factor.times(direction@.x).times(normal@.x))
        &&& shear_factor.can_mul(direction@.y)
        &&& shear_factor.times(direction@.y).can_mul(normal@.x)
        &&& shear_factor.can_mul(direction@.z)
        &&& shear_factor.times(direction@.z).can_mul(normal@.x)
        &&& shear_factor.times(direction@.x).can_mul(normal@.y)
        &&& shear_factor.times(direction@.y).can_mul(normal@.y)
        &&& S::one_spec().can_add(shear_factor.times(direction@.y).times(normal@.y))
        &&& shear_factor.times(direction@.z).can_mul(normal@.y)
        &&& shear_factor.times(direction@.x).can_mul(normal@.z)
        &&& shear_factor.times(direction@.y).can_mul(normal@.z)
        &&& shear_factor.times(direction@.z).can_mul(normal@.z)
        &&& S::one_spec().can_add(shear_factor.times(direction@.z).times(normal@.z))
    }

    /// The shear by `shear_factor` along `direction`, measured along `normal`: the identity
    /// plus the factor times the outer product of the two.
    pub open spec fn shear_spec(
        shear_factor: S,
        direction: Unit<Vector3<S>>,
        normal: Unit<Vector3<S>>,
    ) -> Matrix3x3<S> {
        Matrix3x3 {
            c0: Vector3 {
                x: S::one_spec().plus(shear_factor.times(direction@.x).times(normal@.x)),
                y: shear_factor.times(direction@.y).times(normal@.x),
                z: shear_factor.times(direction@.z).times(normal@.x),
            },
            c1: Vector3 {
                x: shear_factor.times(direction@.x).times(normal@.y),
                y: S::one_spec().plus(shear_factor.times(direction@.y).times(normal@.y)),
                z: shear_factor.times(direction@.z).times(normal@.y),
            },
            c2: Vector3 {
                x: shear_factor.times(direction@.x).times(normal@.z),
                y: shear_factor.times(direction@.y).times(normal@.z),
                z: S::one_spec().plus(shear_factor.times(direction@.z).times(normal@.z)),
            },
        }
    }

    /// The shear by `shear_factor` along `direction`, measured along `normal`: the identity
    /// plus the factor times the outer product of the two.
    pub fn from_shear(
        shear_factor: S,
        direction: &Unit<Vector3<S>>,
        normal: &Unit<Vector3<S>>,
    ) -> (r: Matrix3x3<S>)
        requires
            Self::can_from_shear(shear_factor, *direction, *normal),
        ensures
            r == Self::shear_spec(shear_factor, *direction, *normal),
    {
        Matrix3x3 {
            c0: Vector3 {
                x: S::one().add(shear_factor.mul(direction.value.x).mul(normal.value.x)),
                y: shear_factor.mul(direction.value.y).mul(normal.value.x),
                z: shear_factor.mul(direction.value.z).mul(normal.value.x),
            },
            c1: Vector3 {
                x: shear_factor.mul(direction.value.x).mul(normal.value.y),
                y: S::one().add(shear_factor.mul(direction.value.y).mul(normal.value.y)),
                z: shear_factor.mul(direction.value.z).mul(normal.value.y),
            },
            c2: Vector3 {
                x: shear_factor.mul(direction.value.x).mul(normal.value.z),
                y: shear_factor.mul(direction.value.y).mul(normal.value.z),
                z: S::one().add(shear_factor.mul(direction.value.z).mul(normal.value.z)),
            },
        }
    }
}

impl<S: ScalarSigned> Matrix3x3<S> {
    /// True when every entry of `reflection_spec` is defined.
    pub open spec fn can_from_reflection(normal: Unit<Vector3<S>>) -> bool {
        &&& S::one_spec().can_add(S::one_spec())
        &&& S::one_spec().plus(S::one_spec()).can_mul(normal@.x)
        &&& S::one_spec().plus(S::one_spec()).times(normal@.x).can_mul(normal@.x)
        &&& S::one_spec().can_sub(S::one_spec().plus(S::one_spec()).times(normal@.x)
            .times(normal@.x))
        &&& S::one_spec().plus(S::one_spec()).can_neg()
        &&& S::one_spec().plus(S::one_spec()).negated().can_mul(normal@.x)
        &&& S::one_spec().plus(S::one_spec()).negated().times(normal@.x).can_mul(normal@.y)
        &&& S::one_spec().plus(S::one_spec()).negated().times(normal@.x).can_mul(normal@.z)
        &&& S::one_spec().plus(S::one_spec()).can_mul(normal@.y)
        &&& S::one_spec().plus(S::one_spec()).times(normal@.y).can_mul(normal@.y)
        &&& S::one_spec().can_sub(S::one_spec().plus(S::one_spec()).times(normal@.y)
            .times(normal@.y))
        &&& S::one_spec().plus(S::one_spec()).negated().can_mul(normal@.y)
        &&& S::one_spec().plus(S::one_spec()).negated().times(normal@.y).can_mul(normal@.z)
        &&& S::one_spec().plus(S::one_spec()).can_mul(normal@.z)
        &&& S::one_spec().plus(S::one_spec()).times(normal@.z).can_mul(normal@.z)
        &&& S::one_spec().can_sub(S::one_spec().plus(S::one_spec()).times(normal@.z)
            .times(normal@.z))
    }

    /// The reflection through the line or plane through the origin with the unit normal
    /// `normal`: the identity minus twice the outer product of the normal with itself.
    pub open spec fn reflection_spec(normal: Unit<Vector3<S>>) -> Matrix3x3<S> {
        Matrix3x3 {
            c0: Vector3 {
                x: S::one_spec().minus(S::one_spec().plus(S::one_spec()).times(normal@.x)
                    .times(normal@.x)),
                y: S::one_spec().plus(S::one_spec()).negated().times(normal@.x).times(normal@.y),
                z: S::one_spec().plus(S::one_spec()).negated().times(normal@.x).times(normal@.z),
            },
            c1: Vector3 {
                x: S::one_spec().plus(S::one_spec()).negated().times(normal@.x).times(normal@.y),
                y: S::one_spec().minus(S::one_spec().plus(S::one_spec()).times(normal@.y)
                    .times(normal@.y)),
                z: S::one_spec().plus(S::one_spec()).negated().times(normal@.y).times(normal@.z),
            },
            c2: Vector3 {
                x: S::one_spec().plus(S::one_spec()).negated().times(normal@.x).times(normal@.z),
                y: S::one_spec().plus(S::one_spec()).negated().times(normal@.y).times(normal@.z),
                z: S::one_spec().minus(S::one_spec().plus(S::one_spec()).times(normal@.z)
                    .times(normal@.z)),
            },
        }
    }

    /// The reflection through the line or plane through the origin with the unit normal
    /// `normal`: the identity minus twice the outer product of the normal with itself.
    pub fn from_reflection(normal: &Unit<Vector3<S>>) -> (r: Matrix3x3<S>)
        requires
            Self::can_from_reflection(*normal),
        ensures
            r == Self::reflection_spec(*normal),
    {
        Matrix3x3 {
            c0: Vector3 {
                x: S::one().sub(S::one().add(S::one()).mul(normal.value.x).mul(normal.value.x)),
                y: S::one().add(S::one()).neg().mul(normal.value.x).mul(normal.value.y),
                z: S::one().add(S::one()).neg().mul(normal.value.x).mul(normal.value.z),
            },
            c1: Vector3 {
                x: S::one().add(S::one()).neg().mul(normal.value.x).mul(normal.value.y),
                y: S::one().sub(S::one().add(S::one()).mul(normal.value.y).mul(normal.value.y)),
                z: S::one().add(S::one()).neg().mul(normal.value.y).mul(normal.value.z),
            },
            c2: Vector3 {
                x: S::one().add(S::one()).neg().mul(normal.value.x).mul(normal.value.z),
                y: S::one().add(S::one()).neg().mul(normal.value.y).mul(normal.value.z),
                z: S::one().sub(S::one().add(S::one()).mul(normal.value.z).mul(normal.value.z)),
            },
        }
    }

    /// True when every entry of `affine_reflection_spec` is defined.
    pub open spec fn can_from_affine_reflection(normal: Unit<Vector2<S>>, bias: Point2<S>) -> bool {
        &&& S::one_spec().can_add(S::one_spec())
        &&& S::one_spec().plus(S::one_spec()).can_mul(normal@.x)
        &&& S::one_spec().plus(S::one_spec()).times(normal@.x).can_mul(normal@.x)
        &&& S::one_spec().can_sub(S::one_spec().plus(S::one_spec()).times(normal@.x)
            .times(normal@.x))
        &&& S::one_spec().plus(S::one_spec()).can_neg()
        &&& S::one_spec().plus(S::one_spec()).negated().can_mul(normal@.x)
        &&& S::one_spec().plus(S::one_spec()).negated().times(normal@.x).can_mul(normal@.y)
        &&& S::one_spec().plus(S::one_spec()).can_mul(normal@.y)
        &&& S::one_spec().plus(S::one_spec()).times(normal@.y).can_mul(normal@.y)
        &&& S::one_spec().can_sub(S::one_spec().plus(S::one_spec()).times(normal@.y)
            .times(normal@.y))
        &&& normal@.x.can_mul(bias.x)
        &&& normal@.y.can_mul(bias.y)
        &&& normal@.x.times(bias.x).can_add(normal@.y.times(bias.y))
        &&& S::one_spec().plus(S::one_spec()).times(normal@.x).can_mul(normal@.x
            .times(bias.x).plus(normal@.y.times(bias.y)))
        &&& S::one_spec().plus(S::one_spec()).times(normal@.y).can_mul(normal@.x
            .times(bias.x).plus(normal@.y.times(bias.y)))
    }

    /// The affine reflection through the line or plane with the unit normal `normal` that
    /// passes through `bias`.
    pub open spec fn affine_reflection_spec(
        normal: Unit<Vector2<S>>,
        bias: Point2<S>,
    ) -> Matrix3x3<S> {
        Matrix3x3 {
            c0: Vector3 {
                x: S::one_spec().minus(S::one_spec().plus(S::one_spec()).times(normal@.x)
                    .times(normal@.x)),
                y: S::one_spec().plus(S::one_spec()).negated().times(normal@.x).times(normal@.y),
                z: S::zero_spec(),
            },
            c1: Vector3 {
                x: S::one_spec().plus(S::one_spec()).negated().times(normal@.x).times(normal@.y),
                y: S::one_spec().minus(S::one_spec().plus(S::one_spec()).times(normal@.y)
                    .times(normal@.y)),
                z: S::zero_spec(),
            },
            c2: Vector3 {
                x: S::one_spec().plus(S::one_spec()).times(normal@.x).times(normal@.x
                    .times(bias.x).plus(normal@.y.times(bias.y))),
                y: S::one_spec().plus(S::one_spec()).times(normal@.y).times(normal@.x
                    .times(bias.x).plus(normal@.y.times(bias.y))),
                z: S::one_spec(),
            },
        }
    }

    /// The affine reflection through the line or plane with the unit normal `normal` that
    /// passes through `bias`.
    pub fn from_affine_reflection(normal: &Unit<Vector2<S>>, bias: &Point2<S>) -> (r: Matrix3x3<S>)
        requires
            Self::can_from_affine_reflection(*normal, *bias),
        ensures
            r == Self::affine_reflection_spec(*normal, *bias),
    {
        Matrix3x3 {
            c0: Vector3 {
                x: S::one().sub(S::one().add(S::one()).mul(normal.value.x).mul(normal.value.x)),
                y: S::one().add(S::one()).neg().mul(normal.value.x).mul(normal.value.y),
                z: S::zero(),
            },
            c1: Vector3 {
                x: S::one().add(S::one()).neg().mul(normal.value.x).mul(normal.value.y),
                y: S::one().sub(S::one().add(S::one()).mul(normal.value.y).mul(normal.value.y)),
                z: S::zero(),
            },
            c2: Vector3 {
                x: S::one().add(S::one()).mul(normal.value.x).mul(normal.value.x.mul(bias.x)
                    .add(normal.value.y.mul(bias.y))),
                y: S::one().add(S::one()).mul(normal.value.y).mul(normal.value.x.mul(bias.x)
                    .add(normal.value.y.mul(bias.y))),
                z: S::one(),
            },
        }
    }

    /// True when every entry of `affine_shear_spec` is defined.
    pub open spec fn can_from_affine_shear(
        shear_factor: S,
        origin: Point2<S>,
        direction: Unit<Vector2<S>>,
        normal: Unit<Vector2<S>>,
    ) -> bool {
        &&& shear_factor.can_mul(direction@.x)
        &&& shear_factor.times(direction@.x).can_mul(normal@.x)
        &&& S::one_spec().can_add(shear_factor.times(direction@.x).times(normal@.x))
        &&& shear_factor.can_mul(direction@.y)
        &&& shear_factor.times(direction@.y).can_mul(normal@.x)
        &&& shear_factor.times(direction@.x).can_mul(normal@.y)
        &&& shear_factor.times(direction@.y).can_mul(normal@.y)
        &&& S::one_spec().can_add(shear_factor.times(direction@.y).times(normal@.y))
        &&& shear_factor.can_neg()
        &&& origin.x.can_mul(normal@.x)
        &&& origin.y.can_mul(normal@.y)
        &&& origin.x.times(normal@.x).can_add(origin.y.times(normal@.y))
        &&& shear_factor.negated().can_mul(origin.x.times(normal@.x).plus(origin.y
            .times(normal@.y)))
        &&& shear_factor.negated().times(origin.x.times(normal@.x).plus(origin.y
            .times(normal@.y))).can_mul(direction@.x)
        &&& shear_factor.negated().times(origin.x.times(normal@.x).plus(origin.y
            .times(normal@.y))).can_mul(direction@.y)
    }

    /// The affine shear by `shear_factor` along `direction`, measured along `normal` from
    /// the plane through `origin`.
    pub open spec fn affine_shear_spec(
        shear_factor: S,
        origin: Point2<S>,
        direction: Unit<Vector2<S>>,
        normal: Unit<Vector2<S>>,
    ) -> Matrix3x3<S> {
        Matrix3x3 {
            c0: Vector3 {
                x: S::one_spec().plus(shear_factor.times(direction@.x).times(normal@.x)),
                y: shear_factor.times(direction@.y).times(normal@.x),
                z: S::zero_spec(),
            },
            c1: Vector3 {
                x: shear_factor.times(direction@.x).times(normal@.y),
                y: S::one_spec().plus(shear_factor.times(direction@.y).times(normal@.y)),
                z: S::zero_spec(),
            },
            c2: Vector3 {
                x: shear_factor.negated().times(origin.x.times(normal@.x).plus(origin.y
                    .times(normal@.y))).times(direction@.x),
                y: shear_factor.negated().times(origin.x.times(normal@.x).plus(origin.y
                    .times(normal@.y))).times(direction@.y),
                z: S::one_spec(),
            },
        }
    }

    /// The affine shear by `shear_factor` along `direction`, measured along `normal` from
    /// the plane through `origin`.
    pub fn from_affine_shear(
        shear_factor: S,
        origin: &Point2<S>,
        direction: &Unit<Vector2<S>>,
        normal: &Unit<Vector2<S>>,
    ) -> (r: Matrix3x3<S>)
        requires
            Self::can_from_affine_shear(shear_factor, *origin, *direction, *normal),
        ensures
            r == Self::affine_shear_spec(shear_factor, *origin, *direction, *normal),
    {
        Matrix3x3 {
            c0: Vector3 {
                x: S::one().add(shear_factor.mul(direction.value.x).mul(normal.value.x)),
                y: shear_factor.mul(direction.value.y).mul(normal.value.x),
                z: S::zero(),
            },
            c1: Vector3 {
                x: shear_factor.mul(direction.value.x).mul(normal.value.y),
                y: S::one().add(shear_factor.mul(direction.value.y).mul(normal.value.y)),
                z: S::zero(),
            },
            c2: Vector3 {
                x: shear_factor.neg().mul(origin.x.mul(normal.value.x).add(origin.y
                    .mul(normal.value.y))).mul(direction.value.x),
                y: shear_factor.neg().mul(origin.x.mul(normal.value.x).add(origin.y
                    .mul(normal.value.y))).mul(direction.value.y),
                z: S::one(),
            },
        }
    }
}

impl<S: ScalarSigned> Matrix3x3<S> {
    /// True when every entry of `affine_cos_sin_spec` is defined.
    pub open spec fn can_from_affine_cos_sin(cosine: S, sine: S) -> bool {
        &&& sine.can_neg()
    }

    /// The affine rotation of the plane about the origin by the angle with the given cosine
    /// and sine.
    pub open spec fn affine_cos_sin_spec(cosine: S, sine: S) -> Matrix3x3<S> {
        Matrix3x3 {
            c0: Vector3 { x: cosine, y: sine, z: S::zero_spec() },
            c1: Vector3 { x: sine.negated(), y: cosine, z: S::zero_spec() },
            c2: Vector3 { x: S::zero_spec(), y: S::zero_spec(), z: S::one_spec() },
        }
    }

    /// The affine rotation of the plane about the origin by the angle with the given cosine
    /// and sine.
    pub fn from_affine_cos_sin(cosine: S, sine: S) -> (r: Matrix3x3<S>)
        requires
            Self::can_from_affine_cos_sin(cosine, sine),
        ensures
            r == Self::affine_cos_sin_spec(cosine, sine),
    {
        Matrix3x3 {
            c0: Vector3 { x: cosine, y: sine, z: S::zero() },
            c1: Vector3 { x: sine.neg(), y: cosine, z: S::zero() },
            c2: Vector3 { x: S::zero(), y: S::zero(), z: S::one() },
        }
    }

    /// True when every entry of `cos_sin_x_spec` is defined.
    pub open spec fn can_from_cos_sin_x(cosine: S, sine: S) -> bool {
        &&& sine.can_neg()
    }

    /// The rotation of space about the x-axis by the angle with the given cosine and sine.
    pub open spec fn cos_sin_x_spec(cosine: S, sine: S) -> Matrix3x3<S> {
        Matrix3x3 {
            c0: Vector3 { x: S::one_spec(), y: S::zero_spec(), z: S::zero_spec() },
            c1: Vector3 { x: S::zero_spec(), y: cosine, z: sine },
            c2: Vector3 { x: S::zero_spec(), y: sine.negated(), z: cosine },
        }
    }

    /// The rotation of space about the x-axis by the angle with the given cosine and sine.
    pub fn from_cos_sin_x(cosine: S, sine: S) -> (r: Matrix3x3<S>)
        requires
            Self::can_from_cos_sin_x(cosine, sine),
        ensures
            r == Self::cos_sin_x_spec(cosine, sine),
    {
        Matrix3x3 {
            c0: Vector3 { x: S::one(), y: S::zero(), z: S::zero() },
            c1: Vector3 { x: S::zero(), y: cosine, z: sine },
            c2: Vector3 { x: S::zero(), y: sine.neg(), z: cosine },
        }
    }

    /// True when every entry of `cos_sin_y_spec` is defined.
    pub open spec fn can_from_cos_sin_y(cosine: S, sine: S) -> bool {
        &&& sine.can_neg()
    }

    /// The rotation of space about the y-axis by the angle with the given cosine and sine.
    pub open spec fn cos_sin_y_spec(cosine: S, sine: S) -> Matrix3x3<S> {
        Matrix3x3 {
            c0: Vector3 { x: cosine, y: S::zero_spec(), z: sine.negated() },
            c1: Vector3 { x: S::zero_spec(), y: S::one_spec(), z: S::zero_spec() },
            c2: Vector3 { x: sine, y: S::zero_spec(), z: cosine },
        }
    }

    /// The rotation of space about the y-axis by the angle with the given cosine and sine.
    pub fn from_cos_sin_y(cosine: S, sine: S) -> (r: Matrix3x3<S>)
        requires
            Self::can_from_cos_sin_y(cosine, sine),
        ensures
            r == Self::cos_sin_y_spec(cosine, sine),
    {
        Matrix3x3 {
            c0: Vector3 { x: cosine, y: S::zero(), z: sine.neg() },
            c1: Vector3 { x: S::zero(), y: S::one(), z: S::zero() },
            c2: Vector3 { x: sine, y: S::zero(), z: cosine },
        }
    }

    /// True when every entry of `cos_sin_z_spec` is defined.
    pub open spec fn can_from_cos_sin_z(cosine: S, sine: S) -> bool {
        &&& sine.can_neg()
    }

    /// The rotation of space about the z-axis by the angle with the given cosine and sine.
    pub open spec fn cos_sin_z_spec(cosine: S, sine: S) -> Matrix3x3<S> {
        Matrix3x3 {
            c0: Vector3 { x: cosine, y: sine, z: S::zero_spec() },
            c1: Vector3 { x: sine.negated(), y: cosine, z: S::zero_spec() },
            c2: Vector3 { x: S::zero_spec(), y: S::zero_spec(), z: S::one_spec() },
        }
    }

    /// The rotation of space about the z-axis by the angle with the given cosine and sine.
    pub fn from_cos_sin_z(cosine: S, sine: S) -> (r: Matrix3x3<S>)
        requires
            Self::can_from_cos_sin_z(cosine, sine),
        ensures
            r == Self::cos_sin_z_spec(cosine, sine),
    {
        Matrix3x3 {
            c0: Vector3 { x: cosine, y: sine, z: S::zero() },
            c1: Vector3 { x: sine.neg(), y: cosine, z: S::zero() },
            c2: Vector3 { x: S::zero(), y: S::zero(), z: S::one() },
        }
    }

    /// True when every entry of `axis_cos_sin_spec` is defined.
    pub open spec fn can_from_axis_cos_sin(axis: Unit<Vector3<S>>, cosine: S, sine: S) -> bool {
        &&& S::one_spec().can_sub(cosine)
        &&& S::one_spec().minus(cosine).can_mul(axis@.x)
        &&& S::one_spec().minus(cosine).times(axis@.x).can_mul(axis@.x)
        &&& S::one_spec().minus(cosine).times(axis@.x).times(axis@.x).can_add(cosine)
        &&& S::one_spec().minus(cosine).times(axis@.x).can_mul(axis@.y)
        &&& sine.can_mul(axis@.z)
        &&& S::one_spec().minus(cosine).times(axis@.x).times(axis@.y).can_add(sine.times(axis@.z))
        &&& S::one_spec().minus(cosine).times(axis@.x).can_mul(axis@.z)
        &&& sine.can_mul(axis@.y)
        &&& S::one_spec().minus(cosine).times(axis@.x).times(axis@.z).can_sub(sine.times(axis@.y))
        &&& S::one_spec().minus(cosine).times(axis@.x).times(axis@.y).can_sub(sine.times(axis@.z))
        &&& S::one_spec().minus(cosine).can_mul(axis@.y)
        &&& S::one_spec().minus(cosine).times(axis@.y).can_mul(axis@.y)
        &&& S::one_spec().minus(cosine).times(axis@.y).times(axis@.y).can_add(cosine)
        &&& S::one_spec().minus(cosine).times(axis@.y).can_mul(axis@.z)
        &&& sine.can_mul(axis@.x)
        &&& S::one_spec().minus(cosine).times(axis@.y).times(axis@.z).can_add(sine.times(axis@.x))
        &&& S::one_spec().minus(cosine).times(axis@.x).times(axis@.z).can_add(sine.times(axis@.y))
        &&& S::one_spec().minus(cosine).times(axis@.y).times(axis@.z).can_sub(sine.times(axis@.x))
        &&& S::one_spec().minus(cosine).can_mul(axis@.z)
        &&& S::one_spec().minus(cosine).times(axis@.z).can_mul(axis@.z)
        &&& S::one_spec().minus(cosine).times(axis@.z).times(axis@.z).can_add(cosine)
    }

    /// The rotation of space about the unit vector `axis` by the angle with the given
    /// cosine and sine, by the formula of Rodrigues.
    pub open spec fn axis_cos_sin_spec(axis: Unit<Vector3<S>>, cosine: S, sine: S) -> Matrix3x3<S> {
        Matrix3x3 {
            c0: Vector3 {
                x: S::one_spec().minus(cosine).times(axis@.x).times(axis@.x).plus(cosine),
                y: S::one_spec().minus(cosine).times(axis@.x).times(axis@.y).plus(sine
                    .times(axis@.z)),
                z: S::one_spec().minus(cosine).times(axis@.x).times(axis@.z).minus(sine
                    .times(axis@.y)),
            },
            c1: Vector3 {
                x: S::one_spec().minus(cosine).times(axis@.x).times(axis@.y).minus(sine
                    .times(axis@.z)),
                y: S::one_spec().minus(cosine).times(axis@.y).times(axis@.y).plus(cosine),
                z: S::one_spec().minus(cosine).times(axis@.y).times(axis@.z).plus(sine
                    .times(axis@.x)),
            },
            c2: Vector3 {
                x: S::one_spec().minus(cosine).times(axis@.x).times(axis@.z).plus(sine
                    .times(axis@.y)),
                y: S::one_spec().minus(cosine).times(axis@.y).times(axis@.z).minus(sine
                    .times(axis@.x)),
                z: S::one_spec().minus(cosine).times(axis@.z).times(axis@.z).plus(cosine),
            },
        }
    }

    /// The rotation of space about the unit vector `axis` by the angle with the given
    /// cosine and sine, by the formula of Rodrigues.
    pub fn from_axis_cos_sin(axis: &Unit<Vector3<S>>, cosine: S, sine: S) -> (r: Matrix3x3<S>)
        requires
            Self::can_from_axis_cos_sin(*axis, cosine, sine),
        ensures
            r == Self::axis_cos_sin_spec(*axis, cosine, sine),
    {
        let rest = S::one().sub(cosine);
        Matrix3x3 {
            c0: Vector3 {
                x: rest.mul(axis.value.x).mul(axis.value.x).add(cosine),
                y: rest.mul(axis.value.x).mul(axis.value.y).add(sine.mul(axis.value.z)),
                z: rest.mul(axis.value.x).mul(axis.value.z).sub(sine.mul(axis.value.y)),
            },
            c1: Vector3 {
                x: rest.mul(axis.value.x).mul(axis.value.y).sub(sine.mul(axis.value.z)),
                y: rest.mul(axis.value.y).mul(axis.value.y).add(cosine),
                z: rest.mul(axis.value.y).mul(axis.value.z).add(sine.mul(axis.value.x)),
            },
            c2: Vector3 {
                x: rest.mul(axis.value.x).mul(axis.value.z).add(sine.mul(axis.value.y)),
                y: rest.mul(axis.value.y).mul(axis.value.z).sub(sine.mul(axis.value.x)),
                z: rest.mul(axis.value.z).mul(axis.value.z).add(cosine),
            },
        }
    }
}

impl<S: ScalarFloat> Matrix3x3<S> {
    /// True when `affine_angle_spec` is defined.
    pub open spec fn can_from_affine_angle(angle: Radians<S>) -> bool {
        Self::can_from_affine_cos_sin(angle.0.cosine(), angle.0.sine())
    }

    /// The affine rotation of the plane about the origin by `angle`.
    pub open spec fn affine_angle_spec(angle: Radians<S>) -> Matrix3x3<S> {
        Self::affine_cos_sin_spec(angle.0.cosine(), angle.0.sine())
    }

    /// The affine rotation of the plane about the origin by `angle`.
    pub fn from_affine_angle(angle: Radians<S>) -> (r: Matrix3x3<S>)
        requires
            Self::can_from_affine_angle(angle),
        ensures
            r == Self::affine_angle_spec(angle),
    {
        Self::from_affine_cos_sin(angle.cos(), angle.sin())
    }

    /// True when `angle_x_spec` is defined.
    pub open spec fn can_from_angle_x(angle: Radians<S>) -> bool {
        Self::can_from_cos_sin_x(angle.0.cosine(), angle.0.sine())
    }

    /// The rotation of space about the x-axis by `angle`.
    pub open spec fn angle_x_spec(angle: Radians<S>) -> Matrix3x3<S> {
        Self::cos_sin_x_spec(angle.0.cosine(), angle.0.sine())
    }

    /// The rotation of space about the x-axis by `angle`.
    pub fn from_angle_x(angle: Radians<S>) -> (r: Matrix3x3<S>)
        requires
            Self::can_from_angle_x(angle),
        ensures
            r == Self::angle_x_spec(angle),
    {
        Self::from_cos_sin_x(angle.cos(), angle.sin())
    }

    /// True when `angle_y_spec` is defined.
    pub open spec fn can_from_angle_y(angle: Radians<S>) -> bool {
        Self::can_from_cos_sin_y(angle.0.cosine(), angle.0.sine())
    }

    /// The rotation of space about the y-axis by `angle`.
    pub open spec fn angle_y_spec(angle: Radians<S>) -> Matrix3x3<S> {
        Self::cos_sin_y_spec(angle.0.cosine(), angle.0.sine())
    }

    /// The rotation of space about the y-axis by `angle`.
    pub fn from_angle_y(angle: Radians<S>) -> (r: Matrix3x3<S>)
        requires
            Self::can_from_angle_y(angle),
        ensures
            r == Self::angle_y_spec(angle),
    {
        Self::from_cos_sin_y(angle.cos(), angle.sin())
    }

    /// True when `angle_z_spec` is defined.
    pub open spec fn can_from_angle_z(angle: Radians<S>) -> bool {
        Self::can_from_cos_sin_z(angle.0.cosine(), angle.0.sine())
    }

    /// The rotation of space about the z-axis by `angle`.
    pub open spec fn angle_z_spec(angle: Radians<S>) -> Matrix3x3<S> {
        Self::cos_sin_z_spec(angle.0.cosine(), angle.0.sine())
    }

    /// The rotation of space about the z-axis by `angle`.
    pub fn from_angle_z(angle: Radians<S>) -> (r: Matrix3x3<S>)
        requires
            Self::can_from_angle_z(angle),
        ensures
            r == Self::angle_z_spec(angle),
    {
        Self::from_cos_sin_z(angle.cos(), angle.sin())
    }

    /// True when `axis_angle_spec` is defined.
    pub open spec fn can_from_axis_angle(axis: Unit<Vector3<S>>, angle: Radians<S>) -> bool {
        Self::can_from_axis_cos_sin(axis, angle.0.cosine(), angle.0.sine())
    }

    /// The rotation of space about the unit vector `axis` by `angle`.
    pub open spec fn axis_angle_spec(axis: Unit<Vector3<S>>, angle: Radians<S>) -> Matrix3x3<S> {
        Self::axis_cos_sin_spec(axis, angle.0.cosine(), angle.0.sine())
    }

    /// The rotation of space about the unit vector `axis` by `angle`.
    pub fn from_axis_angle(axis: &Unit<Vector3<S>>, angle: Radians<S>) -> (r: Matrix3x3<S>)
        requires
            Self::can_from_axis_angle(*axis, angle),
        ensures
            r == Self::axis_angle_spec(*axis, angle),
    {
        Self::from_axis_cos_sin(axis, angle.cos(), angle.sin())
    }

    /// True when the axes of `look_to_lh_spec` are defined.
    pub open spec fn can_look_to_lh(direction: Vector3<S>, up: Vector3<S>) -> bool {
        let zaxis = direction.normalize_spec();
        let xaxis = up.cross_spec(zaxis).normalize_spec();
        &&& direction.can_normalize()
        &&& up.can_cross(zaxis)
        &&& up.cross_spec(zaxis).can_normalize()
        &&& zaxis.can_cross(xaxis)
    }

    /// The left-handed rotation that turns `direction` onto the positive z-axis:
    /// its rows are the x-axis, the normalized cross product of `up` and the
    /// z-axis; the y-axis, the cross product of the z-axis and the x-axis;
    /// and the z-axis, the normalized `direction`.
    pub open spec fn look_to_lh_spec(direction: Vector3<S>, up: Vector3<S>) -> Matrix3x3<S> {
        let zaxis = direction.normalize_spec();
        let xaxis = up.cross_spec(zaxis).normalize_spec();
        let yaxis = zaxis.cross_spec(xaxis);
        Matrix3x3 {
            c0: Vector3 { x: xaxis.x, y: yaxis.x, z: zaxis.x },
            c1: Vector3 { x: xaxis.y, y: yaxis.y, z: zaxis.y },
            c2: Vector3 { x: xaxis.z, y: yaxis.z, z: zaxis.z },
        }
    }

    /// The left-handed rotation that turns `direction` onto the positive z-axis,
    /// with `up` giving the upward side.
    pub fn look_to_lh(direction: &Vector3<S>, up: &Vector3<S>) -> (r: Matrix3x3<S>)
        requires
            Self::can_look_to_lh(*direction, *up),
        ensures
            r == Self::look_to_lh_spec(*direction, *up),
    {
        let zaxis = direction.normalize();
        let xaxis = up.cross(&zaxis).normalize();
        let yaxis = zaxis.cross(&xaxis);
        Matrix3x3 {
            c0: Vector3 { x: xaxis.x, y: yaxis.x, z: zaxis.x },
            c1: Vector3 { x: xaxis.y, y: yaxis.y, z: zaxis.y },
            c2: Vector3 { x: xaxis.z, y: yaxis.z, z: zaxis.z },
        }
    }

    /// True when `look_at_lh_spec` is defined.
    pub open spec fn can_look_at_lh(eye: Point3<S>, target: Point3<S>, up: Vector3<S>) -> bool {
        target.can_sub(eye) && Self::can_look_to_lh(target.minus(eye), up)
    }

    /// The left-handed rotation that turns the direction from `eye` to
    /// `target` onto the positive z-axis.
    pub open spec fn look_at_lh_spec(
        eye: Point3<S>,
        target: Point3<S>,
        up: Vector3<S>,
    ) -> Matrix3x3<S> {
        Self::look_to_lh_spec(target.minus(eye), up)
    }

    /// The left-handed rotation that turns the direction from `eye` to
    /// `target` onto the positive z-axis.
    pub fn look_at_lh(eye: &Point3<S>, target: &Point3<S>, up: &Vector3<S>) -> (r: Matrix3x3<S>)
        requires
            Self::can_look_at_lh(*eye, *target, *up),
        ensures
            r == Self::look_at_lh_spec(*eye, *target, *up),
    {
        let direction = *target - *eye;
        Self::look_to_lh(&direction, up)
    }

    /// True when the axes of `look_to_rh_spec` are defined.
    pub open spec fn can_look_to_rh(direction: Vector3<S>, up: Vector3<S>) -> bool {
        let zaxis = direction.normalize_spec().negated();
        let xaxis = up.cross_spec(zaxis).normalize_spec();
        &&& direction.can_normalize()
        &&& direction.normalize_spec().can_neg()
        &&& up.can_cross(zaxis)
        &&& up.cross_spec(zaxis).can_normalize()
        &&& zaxis.can_cross(xaxis)
    }

    /// The right-handed rotation that turns `direction` onto the negative z-axis:
    /// its rows are the x-axis, the normalized cross product of `up` and the
    /// z-axis; the y-axis, the cross product of the z-axis and the x-axis;
    /// and the z-axis, the normalized `direction`, negated.
    pub open spec fn look_to_rh_spec(direction: Vector3<S>, up: Vector3<S>) -> Matrix3x3<S> {
        let zaxis = direction.normalize_spec().negated();
        let xaxis = up.cross_spec(zaxis).normalize_spec();
        let yaxis = zaxis.cross_spec(xaxis);
        Matrix3x3 {
            c0: Vector3 { x: xaxis.x, y: yaxis.x, z: zaxis.x },
            c1: Vector3 { x: xaxis.y, y: yaxis.y, z: zaxis.y },
            c2: Vector3 { x: xaxis.z, y: yaxis.z, z: zaxis.z },
        }
    }

    /// The right-handed rotation that turns `direction` onto the negative z-axis,
    /// with `up` giving the upward side.
    pub fn look_to_rh(direction: &Vector3<S>, up: &Vector3<S>) -> (r: Matrix3x3<S>)
        requires
            Self::can_look_to_rh(*direction, *up),
        ensures
            r == Self::look_to_rh_spec(*direction, *up),
    {
        let zaxis = core::ops::Neg::neg(direction.normalize());
        let xaxis = up.cross(&zaxis).normalize();
        let yaxis = zaxis.cross(&xaxis);
        Matrix3x3 {
            c0: Vector3 { x: xaxis.x, y: yaxis.x, z: zaxis.x },
            c1: Vector3 { x: xaxis.y, y: yaxis.y, z: zaxis.y },
            c2: Vector3 { x: xaxis.z, y: yaxis.z, z: zaxis.z },
        }
    }

    /// True when `look_at_rh_spec` is defined.
    pub open spec fn can_look_at_rh(eye: Point3<S>, target: Point3<S>, up: Vector3<S>) -> bool {
        target.can_sub(eye) && Self::can_look_to_rh(target.minus(eye), up)
    }

    /// The right-handed rotation that turns the direction from `eye` to
    /// `target` onto the negative z-axis.
    pub open spec fn look_at_rh_spec(
        eye: Point3<S>,
        target: Point3<S>,
        up: Vector3<S>,
    ) -> Matrix3x3<S> {
        Self::look_to_rh_spec(target.minus(eye), up)
    }

    /// The right-handed rotation that turns the direction from `eye` to
    /// `target` onto the negative z-axis.
    pub fn look_at_rh(eye: &Point3<S>, target: &Point3<S>, up: &Vector3<S>) -> (r: Matrix3x3<S>)
        requires
            Self::can_look_at_rh(*eye, *target, *up),
        ensures
            r == Self::look_at_rh_spec(*eye, *target, *up),
    {
        let direction = *target - *eye;
        Self::look_to_rh(&direction, up)
    }

    /// True when `rotation_between_axis_spec` is defined.
    pub open spec fn can_rotation_between_axis(v1: Unit<Vector3<S>>, v2: Unit<Vector3<S>>) -> bool {
        let cross = v1@.cross_spec(v2@);
        &&& v1@.can_cross(v2@)
        &&& v1@.can_dot_with(v2@)
        &&& cross.can_dot_with(cross)
        &&& !cross.magnitude_spec().same(S::zero_spec()) ==> {
            &&& cross.can_div(cross.magnitude_spec())
            &&& Self::can_from_axis_cos_sin(
                Unit { value: cross.over(cross.magnitude_spec()) },
                v1@.dot_with(v2@),
                cross.magnitude_spec(),
            )
        }
    }

    /// The rotation that carries the unit vector `v1` onto the unit vector
    /// `v2` about their normalized cross product: its cosine is their dot
    /// product and its sine the length of their cross product. Where the
    /// cross product has the length zero the two are parallel: the result
    /// is then the identity, unless their dot product is less than zero,
    /// where they are opposite, no axis is distinguished and the result is
    /// absent.
    pub open spec fn rotation_between_axis_spec(
        v1: Unit<Vector3<S>>,
        v2: Unit<Vector3<S>>,
    ) -> Option<
        Matrix3x3<S>,
    > {
        let cross = v1@.cross_spec(v2@);
        if cross.magnitude_spec().same(S::zero_spec()) {
            if v1@.dot_with(v2@).less(S::zero_spec()) {
                None
            } else {
                Some(Self::identity_spec())
            }
        } else {
            Some(
                Self::axis_cos_sin_spec(
                    Unit { value: cross.over(cross.magnitude_spec()) },
                    v1@.dot_with(v2@),
                    cross.magnitude_spec(),
                ),
            )
        }
    }

    /// The rotation that carries the unit vector `v1` onto the unit vector
    /// `v2`, or `None` when the two are opposite.
    pub fn rotation_between_axis(
        v1: &Unit<Vector3<S>>,
        v2: &Unit<Vector3<S>>,
    ) -> (r: Option<Matrix3x3<S>>)
        requires
            Self::can_rotation_between_axis(*v1, *v2),
        ensures
            r == Self::rotation_between_axis_spec(*v1, *v2),
    {
        let cross = v1.value.cross(&v2.value);
        let cosine = v1.value.x.mul(v2.value.x).add(v1.value.y.mul(v2.value.y)).add(
            v1.value.z.mul(v2.value.z),
        );
        let sine = cross.magnitude();
        if sine.equals(S::zero()) {
            if cosine.less_than(S::zero()) {
                None
            } else {
                Some(Self::identity())
            }
        } else {
            let axis = Unit { value: cross / sine };
            Some(Self::from_axis_cos_sin(&axis, cosine, sine))
        }
    }

    /// True when `rotation_between_spec` is defined.
    pub open spec fn can_rotation_between(v1: Vector3<S>, v2: Vector3<S>) -> bool {
        &&& v1.can_dot_with(v1)
        &&& v2.can_dot_with(v2)
        &&& !v1.magnitude_spec().same(S::zero_spec())
            && !v2.magnitude_spec().same(S::zero_spec()) ==> {
            &&& v1.can_div(v1.magnitude_spec())
            &&& v2.can_div(v2.magnitude_spec())
            &&& Self::can_rotation_between_axis(
                Unit { value: v1.normalize_spec() },
                Unit { value: v2.normalize_spec() },
            )
        }
    }

    /// The rotation that carries the direction of `v1` onto that of `v2`:
    /// the identity when one of the two has the length zero, else the
    /// rotation between the two normalized vectors, which is absent when
    /// they are opposite.
    pub open spec fn rotation_between_spec(v1: Vector3<S>, v2: Vector3<S>) -> Option<Matrix3x3<S>> {
        if v1.magnitude_spec().same(S::zero_spec()) || v2.magnitude_spec().same(S::zero_spec()) {
            Some(Self::identity_spec())
        } else {
            Self::rotation_between_axis_spec(
                Unit { value: v1.normalize_spec() },
                Unit { value: v2.normalize_spec() },
            )
        }
    }

    /// The rotation that carries the direction of `v1` onto that of `v2`,
    /// or `None` when the two directions are opposite.
    pub fn rotation_between(v1: &Vector3<S>, v2: &Vector3<S>) -> (r: Option<Matrix3x3<S>>)
        requires
            Self::can_rotation_between(*v1, *v2),
        ensures
            r == Self::rotation_between_spec(*v1, *v2),
    {
        let m1 = v1.magnitude();
        let m2 = v2.magnitude();
        if m1.equals(S::zero()) || m2.equals(S::zero()) {
            Some(Self::identity())
        } else {
            let u1 = Unit { value: *v1 / m1 };
            let u2 = Unit { value: *v2 / m2 };
            Self::rotation_between_axis(&u1, &u2)
        }
    }
}

} // verus!
