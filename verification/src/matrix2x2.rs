//! Matrices of two rows and two columns, stored column by column.

use vstd::prelude::*;
use crate::angle::Radians;
use crate::determinant::{can_det2, det2, det2_of};
use crate::matrix2x3::Matrix2x3;
use crate::matrix2x4::Matrix2x4;
use crate::scalar::{Scalar, ScalarFloat, ScalarSigned};
use crate::unit::Unit;
use crate::vector::Vector2;

verus! {

/// A matrix of two rows and two columns. The field `c0` is the first column; the
/// entry in column `c` and row `r` is the component `r` of column `c`.
#[derive(Clone, Copy, Debug, PartialEq, Eq, Hash)]
pub struct Matrix2x2<S> {
    pub c0: Vector2<S>,
    pub c1: Vector2<S>,
}

impl<S: Scalar> Matrix2x2<S> {
    /// The column at index `c`, counted from zero.
    pub open spec fn column(self, c: int) -> Vector2<S> {
        if c == 0 {
            self.c0
        } else {
            self.c1
        }
    }

    /// The row at index `r`, counted from zero.
    pub open spec fn row(self, r: int) -> Vector2<S> {
        if r == 0 {
            Vector2 { x: self.c0.x, y: self.c1.x }
        } else {
            Vector2 { x: self.c0.y, y: self.c1.y }
        }
    }

    /// The entry in column `c` and row `r`.
    pub open spec fn at(self, c: int, r: int) -> S {
        self.column(c).at(r)
    }

    /// The matrix with `v` as column `c` and the other columns of `self`.
    pub open spec fn with_column(self, c: int, v: Vector2<S>) -> Matrix2x2<S> {
        Matrix2x2 {
            c0: if c == 0 { v } else { self.c0 },
            c1: if c == 1 { v } else { self.c1 },
        }
    }

    /// The matrix with `v` as row `r` and the other rows of `self`.
    pub open spec fn with_row(self, r: int, v: Vector2<S>) -> Matrix2x2<S> {
        Matrix2x2 {
            c0: self.c0.with(r, v.x),
            c1: self.c1.with(r, v.y),
        }
    }

    /// The matrix with `value` in column `c` and row `r` and the other entries of `self`.
    pub open spec fn with_at(self, c: int, r: int, value: S) -> Matrix2x2<S> {
        self.with_column(c, self.column(c).with(r, value))
    }

    /// The matrix whose entries are all zero.
    pub open spec fn zero_spec() -> Matrix2x2<S> {
        Matrix2x2 {
            c0: Vector2 { x: S::zero_spec(), y: S::zero_spec() },
            c1: Vector2 { x: S::zero_spec(), y: S::zero_spec() },
        }
    }

    /// The identity matrix: one on the diagonal, zero elsewhere.
    pub open spec fn identity_spec() -> Matrix2x2<S> {
        Matrix2x2 {
            c0: Vector2 { x: S::one_spec(), y: S::zero_spec() },
            c1: Vector2 { x: S::zero_spec(), y: S::one_spec() },
        }
    }

    /// The transpose: the entry in column `c` and row `r` of the result is the
    /// entry in column `r` and row `c` of `self`.
    pub open spec fn transposed(self) -> Matrix2x2<S> {
        Matrix2x2 {
            c0: Vector2 { x: self.c0.x, y: self.c1.x },
            c1: Vector2 { x: self.c0.y, y: self.c1.y },
        }
    }

    /// True when every entry of `self` can be added to that of `other`.
    pub open spec fn can_add(self, other: Matrix2x2<S>) -> bool {
        &&& self.c0.can_add(other.c0)
        &&& self.c1.can_add(other.c1)
    }

    /// The entry-wise sum.
    pub open spec fn plus(self, other: Matrix2x2<S>) -> Matrix2x2<S> {
        Matrix2x2 {
            c0: self.c0.plus(other.c0),
            c1: self.c1.plus(other.c1),
        }
    }

    /// True when every entry of `other` can be subtracted from that of `self`.
    pub open spec fn can_sub(self, other: Matrix2x2<S>) -> bool {
        &&& self.c0.can_sub(other.c0)
        &&& self.c1.can_sub(other.c1)
    }

    /// The entry-wise difference.
    pub open spec fn minus(self, other: Matrix2x2<S>) -> Matrix2x2<S> {
        Matrix2x2 {
            c0: self.c0.minus(other.c0),
            c1: self.c1.minus(other.c1),
        }
    }

    /// True when every entry can be multiplied by `c` on the right.
    pub open spec fn can_scale(self, c: S) -> bool {
        &&& self.c0.can_scale(c)
        &&& self.c1.can_scale(c)
    }

    /// Every entry multiplied by `c` on the right.
    pub open spec fn scaled(self, c: S) -> Matrix2x2<S> {
        Matrix2x2 {
            c0: self.c0.scaled(c),
            c1: self.c1.scaled(c),
        }
    }

    /// True when every entry can be multiplied by `c` on the left.
    pub open spec fn can_scale_left(self, c: S) -> bool {
        &&& self.c0.can_scale_left(c)
        &&& self.c1.can_scale_left(c)
    }

    /// Every entry multiplied by `c` on the left.
    pub open spec fn scaled_left(self, c: S) -> Matrix2x2<S> {
        Matrix2x2 {
            c0: self.c0.scaled_left(c),
            c1: self.c1.scaled_left(c),
        }
    }

    /// True when every entry can be divided by `c`.
    pub open spec fn can_div(self, c: S) -> bool {
        &&& self.c0.can_div(c)
        &&& self.c1.can_div(c)
    }

    /// Every entry divided by `c`.
    pub open spec fn over(self, c: S) -> Matrix2x2<S> {
        Matrix2x2 {
            c0: self.c0.over(c),
            c1: self.c1.over(c),
        }
    }

    /// True when the remainder of every entry by `c` is defined.
    pub open spec fn can_rem(self, c: S) -> bool {
        &&& self.c0.can_rem(c)
        &&& self.c1.can_rem(c)
    }

    /// The remainder of every entry by `c`.
    pub open spec fn modulo(self, c: S) -> Matrix2x2<S> {
        Matrix2x2 {
            c0: self.c0.modulo(c),
            c1: self.c1.modulo(c),
        }
    }

    /// True when every entry of the product with the vector `v` is defined.
    pub open spec fn can_mul_vector(self, v: Vector2<S>) -> bool {
        &&& self.row(0).can_dot_with(v)
        &&& self.row(1).can_dot_with(v)
    }

    /// The product of the matrix with the column vector `v`: component `r` is
    /// the dot product of row `r` with `v`.
    pub open spec fn times_vector(self, v: Vector2<S>) -> Vector2<S> {
        Vector2 { x: self.row(0).dot_with(v), y: self.row(1).dot_with(v) }
    }

    /// True when every entry of the product with `other` is defined.
    pub open spec fn can_mul_2x2(self, other: Matrix2x2<S>) -> bool {
        &&& self.row(0).can_dot_with(other.c0)
        &&& self.row(1).can_dot_with(other.c0)
        &&& self.row(0).can_dot_with(other.c1)
        &&& self.row(1).can_dot_with(other.c1)
    }

    /// The matrix product `self * other`: the entry in column `c` and row `r`
    /// is the dot product of row `r` of `self` with column `c` of `other`.
    pub open spec fn times_2x2(self, other: Matrix2x2<S>) -> Matrix2x2<S> {
        Matrix2x2 {
            c0: Vector2 {
                x: self.row(0).dot_with(other.c0),
                y: self.row(1).dot_with(other.c0),
            },
            c1: Vector2 {
                x: self.row(0).dot_with(other.c1),
                y: self.row(1).dot_with(other.c1),
            },
        }
    }

    /// True when every entry of the product with `other` is defined.
    pub open spec fn can_mul_2x3(self, other: Matrix2x3<S>) -> bool {
        &&& self.row(0).can_dot_with(other.c0)
        &&& self.row(1).can_dot_with(other.c0)
        &&& self.row(0).can_dot_with(other.c1)
        &&& self.row(1).can_dot_with(other.c1)
        &&& self.row(0).can_dot_with(other.c2)
        &&& self.row(1).can_dot_with(other.c2)
    }

    /// The matrix product `self * other`: the entry in column `c` and row `r`
    /// is the dot product of row `r` of `self` with column `c` of `other`.
    pub open spec fn times_2x3(self, other: Matrix2x3<S>) -> Matrix2x3<S> {
        Matrix2x3 {
            c0: Vector2 {
                x: self.row(0).dot_with(other.c0),
                y: self.row(1).dot_with(other.c0),
            },
            c1: Vector2 {
                x: self.row(0).dot_with(other.c1),
                y: self.row(1).dot_with(other.c1),
            },
            c2: Vector2 {
                x: self.row(0).dot_with(other.c2),
                y: self.row(1).dot_with(other.c2),
            },
        }
    }

    /// True when every entry of the product with `other` is defined.
    pub open spec fn can_mul_2x4(self, other: Matrix2x4<S>) -> bool {
        &&& self.row(0).can_dot_with(other.c0)
        &&& self.row(1).can_dot_with(other.c0)
        &&& self.row(0).can_dot_with(other.c1)
        &&& self.row(1).can_dot_with(other.c1)
        &&& self.row(0).can_dot_with(other.c2)
        &&& self.row(1).can_dot_with(other.c2)
        &&& self.row(0).can_dot_with(other.c3)
        &&& self.row(1).can_dot_with(other.c3)
    }

    /// The matrix product `self * other`: the entry in column `c` and row `r`
    /// is the dot product of row `r` of `self` with column `c` of `other`.
    pub open spec fn times_2x4(self, other: Matrix2x4<S>) -> Matrix2x4<S> {
        Matrix2x4 {
            c0: Vector2 {
                x: self.row(0).dot_with(other.c0),
                y: self.row(1).dot_with(other.c0),
            },
            c1: Vector2 {
                x: self.row(0).dot_with(other.c1),
                y: self.row(1).dot_with(other.c1),
            },
            c2: Vector2 {
                x: self.row(0).dot_with(other.c2),
                y: self.row(1).dot_with(other.c2),
            },
            c3: Vector2 {
                x: self.row(0).dot_with(other.c3),
                y: self.row(1).dot_with(other.c3),
            },
        }
    }

    /// True when every entry of `self` is the same as zero.
    pub open spec fn is_zero_spec(self) -> bool {
        &&& self.c0.is_zero_spec()
        &&& self.c1.is_zero_spec()
    }

    /// True when `self` is entry by entry the same as the identity.
    pub open spec fn is_identity_spec(self) -> bool {
        &&& self.c0.x.same(S::one_spec())
        &&& self.c0.y.same(S::zero_spec())
        &&& self.c1.x.same(S::zero_spec())
        &&& self.c1.y.same(S::one_spec())
    }

    /// The sum of the diagonal entries, added from the first on.
    pub open spec fn trace_spec(self) -> S {
        self.c0.x.plus(self.c1.y)
    }

    /// True when the trace is defined.
    pub open spec fn can_trace(self) -> bool {
        &&& self.c0.x.can_add(self.c1.y)
    }

    /// Makes a matrix from its entries, column by column.
    pub fn new(c0r0: S, c0r1: S, c1r0: S, c1r1: S) -> (r: Matrix2x2<S>)
        ensures
            r == (Matrix2x2 {
                c0: Vector2 { x: c0r0, y: c0r1 },
                c1: Vector2 { x: c1r0, y: c1r1 },
            }),
    {
        Matrix2x2 {
            c0: Vector2 { x: c0r0, y: c0r1 },
            c1: Vector2 { x: c1r0, y: c1r1 },
        }
    }

    /// Makes a matrix from its columns.
    pub fn from_columns(columns: &[Vector2<S>; 2]) -> (r: Matrix2x2<S>)
        ensures
            r.column(0) == columns@[0],
            r.column(1) == columns@[1],
    {
        Matrix2x2 { c0: columns[0], c1: columns[1] }
    }

    /// Makes a matrix from its rows: the entry in column `c` and row `r` is
    /// the component `c` of `rows[r]`.
    pub fn from_rows(rows: &[Vector2<S>; 2]) -> (r: Matrix2x2<S>)
        ensures
            r.row(0) == rows@[0],
            r.row(1) == rows@[1],
    {
        Matrix2x2 {
            c0: Vector2 { x: rows[0].x, y: rows[1].x },
            c1: Vector2 { x: rows[0].y, y: rows[1].y },
        }
    }

    /// The zero matrix.
    pub fn zero() -> (r: Matrix2x2<S>)
        ensures
            r == Self::zero_spec(),
    {
        Matrix2x2 {
            c0: Vector2 { x: S::zero(), y: S::zero() },
            c1: Vector2 { x: S::zero(), y: S::zero() },
        }
    }

    /// The identity matrix.
    pub fn identity() -> (r: Matrix2x2<S>)
        ensures
            r == Self::identity_spec(),
    {
        Matrix2x2 {
            c0: Vector2 { x: S::one(), y: S::zero() },
            c1: Vector2 { x: S::zero(), y: S::one() },
        }
    }

    /// Tells whether the matrix is the identity.
    pub fn is_identity(&self) -> (r: bool)
        ensures
            r == self.is_identity_spec(),
    {
        self.c0.x.equals(S::one())
            && self.c0.y.equals(S::zero())
            && self.c1.x.equals(S::zero())
            && self.c1.y.equals(S::one())
    }

    /// The sum of the diagonal entries.
    pub fn trace(&self) -> (r: S)
        requires
            self.can_trace(),
        ensures
            r == self.trace_spec(),
    {
        self.c0.x.add(self.c1.y)
    }

    /// The shape as a pair of the number of rows and the number of columns.
    pub fn shape() -> (r: (usize, usize))
        ensures
            r == (2usize, 2usize),
    {
        (2, 2)
    }

    /// The number of entries.
    pub fn len() -> (r: usize)
        ensures
            r == 4,
    {
        4
    }

    /// Tells whether every entry is zero.
    pub fn is_zero(&self) -> (r: bool)
        ensures
            r == self.is_zero_spec(),
    {
        self.c0.is_zero() && self.c1.is_zero()
    }

    /// The transpose of the matrix.
    pub fn transpose(&self) -> (r: Matrix2x2<S>)
        ensures
            r == self.transposed(),
    {
        Matrix2x2 {
            c0: Vector2 { x: self.c0.x, y: self.c1.x },
            c1: Vector2 { x: self.c0.y, y: self.c1.y },
        }
    }

    /// The column at index `c`.
    pub fn get_column(&self, c: usize) -> (r: Vector2<S>)
        requires
            c < 2,
        ensures
            r == self.column(c as int),
    {
        if c == 0 {
            self.c0
        } else {
            self.c1
        }
    }

    /// The row at index `r`.
    pub fn get_row(&self, r: usize) -> (v: Vector2<S>)
        requires
            r < 2,
        ensures
            v == self.row(r as int),
    {
        if r == 0 {
            Vector2 { x: self.c0.x, y: self.c1.x }
        } else {
            Vector2 { x: self.c0.y, y: self.c1.y }
        }
    }

    /// Replaces the column at index `c` by `v`.
    pub fn set_column(&mut self, c: usize, v: Vector2<S>)
        requires
            c < 2,
        ensures
            *final(self) == old(self).with_column(c as int, v),
    {
        if c == 0 {
            self.c0 = v;
        } else {
            self.c1 = v;
        }
    }

    /// Replaces the row at index `r` by `v`.
    pub fn set_row(&mut self, r: usize, v: Vector2<S>)
        requires
            r < 2,
        ensures
            *final(self) == old(self).with_row(r as int, v),
    {
        self.c0.set(r, v.x);
        self.c1.set(r, v.y);
    }

    /// Exchanges the columns at the indices `a` and `b`.
    pub fn swap_columns(&mut self, a: usize, b: usize)
        requires
            a < 2,
            b < 2,
        ensures
            *final(self) == old(self).with_column(a as int, old(self).column(b as int)).with_column(
                b as int,
                old(self).column(a as int),
            ),
    {
        let first = self.get_column(a);
        let second = self.get_column(b);
        self.set_column(a, second);
        self.set_column(b, first);
    }

    /// Exchanges the rows at the indices `a` and `b`.
    pub fn swap_rows(&mut self, a: usize, b: usize)
        requires
            a < 2,
            b < 2,
        ensures
            *final(self) == old(self).with_row(a as int, old(self).row(b as int)).with_row(
                b as int,
                old(self).row(a as int),
            ),
    {
        let first = self.get_row(a);
        let second = self.get_row(b);
        self.set_row(a, second);
        self.set_row(b, first);
    }

    /// Exchanges two entries, each given as a pair of its column and its row.
    pub fn swap(&mut self, a: (usize, usize), b: (usize, usize))
        requires
            a.0 < 2,
            a.1 < 2,
            b.0 < 2,
            b.1 < 2,
        ensures
            *final(self) == old(self).with_at(
                a.0 as int,
                a.1 as int,
                old(self).at(b.0 as int, b.1 as int),
            ).with_at(b.0 as int, b.1 as int, old(self).at(a.0 as int, a.1 as int)),
    {
        let mut first_column = self.get_column(a.0);
        let first = first_column[a.1];
        let second = self.get_column(b.0)[b.1];
        first_column.set(a.1, second);
        self.set_column(a.0, first_column);
        let mut second_column = self.get_column(b.0);
        second_column.set(b.1, first);
        self.set_column(b.0, second_column);
    }

    /// Multiplies every entry by `c`, with `c` on the left of each product.
    pub fn scale_left(self, c: S) -> (r: Matrix2x2<S>)
        requires
            self.can_scale_left(c),
        ensures
            r == self.scaled_left(c),
    {
        Matrix2x2 { c0: self.c0.scale_left(c), c1: self.c1.scale_left(c) }
    }
}

impl<S: ScalarSigned> Matrix2x2<S> {
    /// True when every entry can be negated.
    pub open spec fn can_neg(self) -> bool {
        &&& self.c0.can_neg()
        &&& self.c1.can_neg()
    }

    /// The matrix of the negated entries.
    pub open spec fn negated(self) -> Matrix2x2<S> {
        Matrix2x2 { c0: self.c0.negated(), c1: self.c1.negated() }
    }
}

impl<S: Scalar> core::ops::Add<Matrix2x2<S>> for Matrix2x2<S> {
    type Output = Matrix2x2<S>;

    fn add(self, other: Matrix2x2<S>) -> (r: Matrix2x2<S>) {
        Matrix2x2 {
            c0: Vector2 { x: self.c0.x.add(other.c0.x), y: self.c0.y.add(other.c0.y) },
            c1: Vector2 { x: self.c1.x.add(other.c1.x), y: self.c1.y.add(other.c1.y) },
        }
    }
}

impl<S: Scalar> vstd::std_specs::ops::AddSpecImpl<Matrix2x2<S>> for Matrix2x2<S> {
    open spec fn obeys_add_spec() -> bool {
        true
    }

    open spec fn add_req(self, other: Matrix2x2<S>) -> bool {
        self.can_add(other)
    }

    open spec fn add_spec(self, other: Matrix2x2<S>) -> Matrix2x2<S> {
        self.plus(other)
    }
}

impl<'a, 'b, S: Scalar> core::ops::Add<&'b Matrix2x2<S>> for &'a Matrix2x2<S> {
    type Output = Matrix2x2<S>;

    fn add(self, other: &'b Matrix2x2<S>) -> (r: Matrix2x2<S>) {
        Matrix2x2 {
            c0: Vector2 { x: self.c0.x.add(other.c0.x), y: self.c0.y.add(other.c0.y) },
            c1: Vector2 { x: self.c1.x.add(other.c1.x), y: self.c1.y.add(other.c1.y) },
        }
    }
}

impl<'a, 'b, S: Scalar> vstd::std_specs::ops::AddSpecImpl<&'b Matrix2x2<S>> for &'a Matrix2x2<S> {
    open spec fn obeys_add_spec() -> bool {
        true
    }

    open spec fn add_req(self, other: &'b Matrix2x2<S>) -> bool {
        (*self).can_add(*other)
    }

    open spec fn add_spec(self, other: &'b Matrix2x2<S>) -> Matrix2x2<S> {
        (*self).plus(*other)
    }
}

impl<S: Scalar> core::ops::Sub<Matrix2x2<S>> for Matrix2x2<S> {
    type Output = Matrix2x2<S>;

    fn sub(self, other: Matrix2x2<S>) -> (r: Matrix2x2<S>) {
        Matrix2x2 {
            c0: Vector2 { x: self.c0.x.sub(other.c0.x), y: self.c0.y.sub(other.c0.y) },
            c1: Vector2 { x: self.c1.x.sub(other.c1.x), y: self.c1.y.sub(other.c1.y) },
        }
    }
}

impl<S: Scalar> vstd::std_specs::ops::SubSpecImpl<Matrix2x2<S>> for Matrix2x2<S> {
    open spec fn obeys_sub_spec() -> bool {
        true
    }

    open spec fn sub_req(self, other: Matrix2x2<S>) -> bool {
        self.can_sub(other)
    }

    open spec fn sub_spec(self, other: Matrix2x2<S>) -> Matrix2x2<S> {
        self.minus(other)
    }
}

impl<'a, 'b, S: Scalar> core::ops::Sub<&'b Matrix2x2<S>> for &'a Matrix2x2<S> {
    type Output = Matrix2x2<S>;

    fn sub(self, other: &'b Matrix2x2<S>) -> (r: Matrix2x2<S>) {
        Matrix2x2 {
            c0: Vector2 { x: self.c0.x.sub(other.c0.x), y: self.c0.y.sub(other.c0.y) },
            c1: Vector2 { x: self.c1.x.sub(other.c1.x), y: self.c1.y.sub(other.c1.y) },
        }
    }
}

impl<'a, 'b, S: Scalar> vstd::std_specs::ops::SubSpecImpl<&'b Matrix2x2<S>> for &'a Matrix2x2<S> {
    open spec fn obeys_sub_spec() -> bool {
        true
    }

    open spec fn sub_req(self, other: &'b Matrix2x2<S>) -> bool {
        (*self).can_sub(*other)
    }

    open spec fn sub_spec(self, other: &'b Matrix2x2<S>) -> Matrix2x2<S> {
        (*self).minus(*other)
    }
}

impl<S: Scalar> core::ops::Mul<S> for Matrix2x2<S> {
    type Output = Matrix2x2<S>;

    fn mul(self, other: S) -> (r: Matrix2x2<S>) {
        Matrix2x2 {
            c0: Vector2 { x: self.c0.x.mul(other), y: self.c0.y.mul(other) },
            c1: Vector2 { x: self.c1.x.mul(other), y: self.c1.y.mul(other) },
        }
    }
}

impl<S: Scalar> vstd::std_specs::ops::MulSpecImpl<S> for Matrix2x2<S> {
    open spec fn obeys_mul_spec() -> bool {
        true
    }

    open spec fn mul_req(self, other: S) -> bool {
        self.can_scale(other)
    }

    open spec fn mul_spec(self, other: S) -> Matrix2x2<S> {
        self.scaled(other)
    }
}

impl<'a, S: Scalar> core::ops::Mul<S> for &'a Matrix2x2<S> {
    type Output = Matrix2x2<S>;

    fn mul(self, other: S) -> (r: Matrix2x2<S>) {
        Matrix2x2 {
            c0: Vector2 { x: self.c0.x.mul(other), y: self.c0.y.mul(other) },
            c1: Vector2 { x: self.c1.x.mul(other), y: self.c1.y.mul(other) },
        }
    }
}

impl<'a, S: Scalar> vstd::std_specs::ops::MulSpecImpl<S> for &'a Matrix2x2<S> {
    open spec fn obeys_mul_spec() -> bool {
        true
    }

    open spec fn mul_req(self, other: S) -> bool {
        (*self).can_scale(other)
    }

    open spec fn mul_spec(self, other: S) -> Matrix2x2<S> {
        (*self).scaled(other)
    }
}

impl<S: Scalar> core::ops::Div<S> for Matrix2x2<S> {
    type Output = Matrix2x2<S>;

    fn div(self, other: S) -> (r: Matrix2x2<S>) {
        Matrix2x2 {
            c0: Vector2 { x: self.c0.x.div(other), y: self.c0.y.div(other) },
            c1: Vector2 { x: self.c1.x.div(other), y: self.c1.y.div(other) },
        }
    }
}

impl<S: Scalar> vstd::std_specs::ops::DivSpecImpl<S> for Matrix2x2<S> {
    open spec fn obeys_div_spec() -> bool {
        true
    }

    open spec fn div_req(self, other: S) -> bool {
        self.can_div(other)
    }

    open spec fn div_spec(self, other: S) -> Matrix2x2<S> {
        self.over(other)
    }
}

impl<'a, S: Scalar> core::ops::Div<S> for &'a Matrix2x2<S> {
    type Output = Matrix2x2<S>;

    fn div(self, other: S) -> (r: Matrix2x2<S>) {
        Matrix2x2 {
            c0: Vector2 { x: self.c0.x.div(other), y: self.c0.y.div(other) },
            c1: Vector2 { x: self.c1.x.div(other), y: self.c1.y.div(other) },
        }
    }
}

impl<'a, S: Scalar> vstd::std_specs::ops::DivSpecImpl<S> for &'a Matrix2x2<S> {
    open spec fn obeys_div_spec() -> bool {
        true
    }

    open spec fn div_req(self, other: S) -> bool {
        (*self).can_div(other)
    }

    open spec fn div_spec(self, other: S) -> Matrix2x2<S> {
        (*self).over(other)
    }
}

impl<S: Scalar> core::ops::Rem<S> for Matrix2x2<S> {
    type Output = Matrix2x2<S>;

    fn rem(self, other: S) -> (r: Matrix2x2<S>) {
        Matrix2x2 {
            c0: Vector2 { x: self.c0.x.rem(other), y: self.c0.y.rem(other) },
            c1: Vector2 { x: self.c1.x.rem(other), y: self.c1.y.rem(other) },
        }
    }
}

impl<S: Scalar> vstd::std_specs::ops::RemSpecImpl<S> for Matrix2x2<S> {
    open spec fn obeys_rem_spec() -> bool {
        true
    }

    open spec fn rem_req(self, other: S) -> bool {
        self.can_rem(other)
    }

    open spec fn rem_spec(self, other: S) -> Matrix2x2<S> {
        self.modulo(other)
    }
}

impl<'a, S: Scalar> core::ops::Rem<S> for &'a Matrix2x2<S> {
    type Output = Matrix2x2<S>;

    fn rem(self, other: S) -> (r: Matrix2x2<S>) {
        Matrix2x2 {
            c0: Vector2 { x: self.c0.x.rem(other), y: self.c0.y.rem(other) },
            c1: Vector2 { x: self.c1.x.rem(other), y: self.c1.y.rem(other) },
        }
    }
}

impl<'a, S: Scalar> vstd::std_specs::ops::RemSpecImpl<S> for &'a Matrix2x2<S> {
    open spec fn obeys_rem_spec() -> bool {
        true
    }

    open spec fn rem_req(self, other: S) -> bool {
        (*self).can_rem(other)
    }

    open spec fn rem_spec(self, other: S) -> Matrix2x2<S> {
        (*self).modulo(other)
    }
}

impl<S: Scalar> core::ops::Mul<Vector2<S>> for Matrix2x2<S> {
    type Output = Vector2<S>;

    fn mul(self, other: Vector2<S>) -> (r: Vector2<S>) {
        Vector2 { x: self.c0.x.mul(other.x).add(self.c1.x.mul(other.y)), y: self.c0.y
            .mul(other.x).add(self.c1.y.mul(other.y)) }
    }
}

impl<S: Scalar> vstd::std_specs::ops::MulSpecImpl<Vector2<S>> for Matrix2x2<S> {
    open spec fn obeys_mul_spec() -> bool {
        true
    }

    open spec fn mul_req(self, other: Vector2<S>) -> bool {
        self.can_mul_vector(other)
    }

    open spec fn mul_spec(self, other: Vector2<S>) -> Vector2<S> {
        self.times_vector(other)
    }
}

impl<'a, 'b, S: Scalar> core::ops::Mul<&'b Vector2<S>> for &'a Matrix2x2<S> {
    type Output = Vector2<S>;

    fn mul(self, other: &'b Vector2<S>) -> (r: Vector2<S>) {
        Vector2 { x: self.c0.x.mul(other.x).add(self.c1.x.mul(other.y)), y: self.c0.y
            .mul(other.x).add(self.c1.y.mul(other.y)) }
    }
}

impl<'a, 'b, S: Scalar> vstd::std_specs::ops::MulSpecImpl<&'b Vector2<S>> for &'a Matrix2x2<S> {
    open spec fn obeys_mul_spec() -> bool {
        true
    }

    open spec fn mul_req(self, other: &'b Vector2<S>) -> bool {
        (*self).can_mul_vector(*other)
    }

    open spec fn mul_spec(self, other: &'b Vector2<S>) -> Vector2<S> {
        (*self).times_vector(*other)
    }
}

impl<S: Scalar> core::ops::Mul<Matrix2x2<S>> for Matrix2x2<S> {
    type Output = Matrix2x2<S>;

    fn mul(self, other: Matrix2x2<S>) -> (r: Matrix2x2<S>) {
        Matrix2x2 {
            c0: Vector2 {
                x: self.c0.x.mul(other.c0.x).add(self.c1.x.mul(other.c0.y)),
                y: self.c0.y.mul(other.c0.x).add(self.c1.y.mul(other.c0.y)),
            },
            c1: Vector2 {
                x: self.c0.x.mul(other.c1.x).add(self.c1.x.mul(other.c1.y)),
                y: self.c0.y.mul(other.c1.x).add(self.c1.y.mul(other.c1.y)),
            },
        }
    }
}

impl<S: Scalar> vstd::std_specs::ops::MulSpecImpl<Matrix2x2<S>> for Matrix2x2<S> {
    open spec fn obeys_mul_spec() -> bool {
        true
    }

    open spec fn mul_req(self, other: Matrix2x2<S>) -> bool {
        self.can_mul_2x2(other)
    }

    open spec fn mul_spec(self, other: Matrix2x2<S>) -> Matrix2x2<S> {
        self.times_2x2(other)
    }
}

impl<'a, 'b, S: Scalar> core::ops::Mul<&'b Matrix2x2<S>> for &'a Matrix2x2<S> {
    type Output = Matrix2x2<S>;

    fn mul(self, other: &'b Matrix2x2<S>) -> (r: Matrix2x2<S>) {
        Matrix2x2 {
            c0: Vector2 {
                x: self.c0.x.mul(other.c0.x).add(self.c1.x.mul(other.c0.y)),
                y: self.c0.y.mul(other.c0.x).add(self.c1.y.mul(other.c0.y)),
            },
            c1: Vector2 {
                x: self.c0.x.mul(other.c1.x).add(self.c1.x.mul(other.c1.y)),
                y: self.c0.y.mul(other.c1.x).add(self.c1.y.mul(other.c1.y)),
            },
        }
    }
}

impl<'a, 'b, S: Scalar> vstd::std_specs::ops::MulSpecImpl<&'b Matrix2x2<S>> for &'a Matrix2x2<S> {
    open spec fn obeys_mul_spec() -> bool {
        true
    }

    open spec fn mul_req(self, other: &'b Matrix2x2<S>) -> bool {
        (*self).can_mul_2x2(*other)
    }

    open spec fn mul_spec(self, other: &'b Matrix2x2<S>) -> Matrix2x2<S> {
        (*self).times_2x2(*other)
    }
}

impl<S: Scalar> core::ops::Mul<Matrix2x3<S>> for Matrix2x2<S> {
    type Output = Matrix2x3<S>;

    fn mul(self, other: Matrix2x3<S>) -> (r: Matrix2x3<S>) {
        Matrix2x3 {
            c0: Vector2 {
                x: self.c0.x.mul(other.c0.x).add(self.c1.x.mul(other.c0.y)),
                y: self.c0.y.mul(other.c0.x).add(self.c1.y.mul(other.c0.y)),
            },
            c1: Vector2 {
                x: self.c0.x.mul(other.c1.x).add(self.c1.x.mul(other.c1.y)),
                y: self.c0.y.mul(other.c1.x).add(self.c1.y.mul(other.c1.y)),
            },
            c2: Vector2 {
                x: self.c0.x.mul(other.c2.x).add(self.c1.x.mul(other.c2.y)),
                y: self.c0.y.mul(other.c2.x).add(self.c1.y.mul(other.c2.y)),
            },
        }
    }
}

impl<S: Scalar> vstd::std_specs::ops::MulSpecImpl<Matrix2x3<S>> for Matrix2x2<S> {
    open spec fn obeys_mul_spec() -> bool {
        true
    }

    open spec fn mul_req(self, other: Matrix2x3<S>) -> bool {
        self.can_mul_2x3(other)
    }

    open spec fn mul_spec(self, other: Matrix2x3<S>) -> Matrix2x3<S> {
        self.times_2x3(other)
    }
}

impl<'a, 'b, S: Scalar> core::ops::Mul<&'b Matrix2x3<S>> for &'a Matrix2x2<S> {
    type Output = Matrix2x3<S>;

    fn mul(self, other: &'b Matrix2x3<S>) -> (r: Matrix2x3<S>) {
        Matrix2x3 {
            c0: Vector2 {
                x: self.c0.x.mul(other.c0.x).add(self.c1.x.mul(other.c0.y)),
                y: self.c0.y.mul(other.c0.x).add(self.c1.y.mul(other.c0.y)),
            },
            c1: Vector2 {
                x: self.c0.x.mul(other.c1.x).add(self.c1.x.mul(other.c1.y)),
                y: self.c0.y.mul(other.c1.x).add(self.c1.y.mul(other.c1.y)),
            },
            c2: Vector2 {
                x: self.c0.x.mul(other.c2.x).add(self.c1.x.mul(other.c2.y)),
                y: self.c0.y.mul(other.c2.x).add(self.c1.y.mul(other.c2.y)),
            },
        }
    }
}

impl<'a, 'b, S: Scalar> vstd::std_specs::ops::MulSpecImpl<&'b Matrix2x3<S>> for &'a Matrix2x2<S> {
    open spec fn obeys_mul_spec() -> bool {
        true
    }

    open spec fn mul_req(self, other: &'b Matrix2x3<S>) -> bool {
        (*self).can_mul_2x3(*other)
    }

    open spec fn mul_spec(self, other: &'b Matrix2x3<S>) -> Matrix2x3<S> {
        (*self).times_2x3(*other)
    }
}

impl<S: Scalar> core::ops::Mul<Matrix2x4<S>> for Matrix2x2<S> {
    type Output = Matrix2x4<S>;

    fn mul(self, other: Matrix2x4<S>) -> (r: Matrix2x4<S>) {
        Matrix2x4 {
            c0: Vector2 {
                x: self.c0.x.mul(other.c0.x).add(self.c1.x.mul(other.c0.y)),
                y: self.c0.y.mul(other.c0.x).add(self.c1.y.mul(other.c0.y)),
            },
            c1: Vector2 {
                x: self.c0.x.mul(other.c1.x).add(self.c1.x.mul(other.c1.y)),
                y: self.c0.y.mul(other.c1.x).add(self.c1.y.mul(other.c1.y)),
            },
            c2: Vector2 {
                x: self.c0.x.mul(other.c2.x).add(self.c1.x.mul(other.c2.y)),
                y: self.c0.y.mul(other.c2.x).add(self.c1.y.mul(other.c2.y)),
            },
            c3: Vector2 {
                x: self.c0.x.mul(other.c3.x).add(self.c1.x.mul(other.c3.y)),
                y: self.c0.y.mul(other.c3.x).add(self.c1.y.mul(other.c3.y)),
            },
        }
    }
}

impl<S: Scalar> vstd::std_specs::ops::MulSpecImpl<Matrix2x4<S>> for Matrix2x2<S> {
    open spec fn obeys_mul_spec() -> bool {
        true
    }

    open spec fn mul_req(self, other: Matrix2x4<S>) -> bool {
        self.can_mul_2x4(other)
    }

    open spec fn mul_spec(self, other: Matrix2x4<S>) -> Matrix2x4<S> {
        self.times_2x4(other)
    }
}

impl<'a, 'b, S: Scalar> core::ops::Mul<&'b Matrix2x4<S>> for &'a Matrix2x2<S> {
    type Output = Matrix2x4<S>;

    fn mul(self, other: &'b Matrix2x4<S>) -> (r: Matrix2x4<S>) {
        Matrix2x4 {
            c0: Vector2 {
                x: self.c0.x.mul(other.c0.x).add(self.c1.x.mul(other.c0.y)),
                y: self.c0.y.mul(other.c0.x).add(self.c1.y.mul(other.c0.y)),
            },
            c1: Vector2 {
                x: self.c0.x.mul(other.c1.x).add(self.c1.x.mul(other.c1.y)),
                y: self.c0.y.mul(other.c1.x).add(self.c1.y.mul(other.c1.y)),
            },
            c2: Vector2 {
                x: self.c0.x.mul(other.c2.x).add(self.c1.x.mul(other.c2.y)),
                y: self.c0.y.mul(other.c2.x).add(self.c1.y.mul(other.c2.y)),
            },
            c3: Vector2 {
                x: self.c0.x.mul(other.c3.x).add(self.c1.x.mul(other.c3.y)),
                y: self.c0.y.mul(other.c3.x).add(self.c1.y.mul(other.c3.y)),
            },
        }
    }
}

impl<'a, 'b, S: Scalar> vstd::std_specs::ops::MulSpecImpl<&'b Matrix2x4<S>> for &'a Matrix2x2<S> {
    open spec fn obeys_mul_spec() -> bool {
        true
    }

    open spec fn mul_req(self, other: &'b Matrix2x4<S>) -> bool {
        (*self).can_mul_2x4(*other)
    }

    open spec fn mul_spec(self, other: &'b Matrix2x4<S>) -> Matrix2x4<S> {
        (*self).times_2x4(*other)
    }
}

impl<S: ScalarSigned> core::ops::Neg for Matrix2x2<S> {
    type Output = Matrix2x2<S>;

    fn neg(self) -> (r: Matrix2x2<S>) {
        Matrix2x2 {
            c0: Vector2 { x: self.c0.x.neg(), y: self.c0.y.neg() },
            c1: Vector2 { x: self.c1.x.neg(), y: self.c1.y.neg() },
        }
    }
}

impl<S: ScalarSigned> vstd::std_specs::ops::NegSpecImpl for Matrix2x2<S> {
    open spec fn obeys_neg_spec() -> bool {
        true
    }

    open spec fn neg_req(self) -> bool {
        self.can_neg()
    }

    open spec fn neg_spec(self) -> Matrix2x2<S> {
        self.negated()
    }
}

impl<'a, S: ScalarSigned> core::ops::Neg for &'a Matrix2x2<S> {
    type Output = Matrix2x2<S>;

    fn neg(self) -> (r: Matrix2x2<S>) {
        Matrix2x2 {
            c0: Vector2 { x: self.c0.x.neg(), y: self.c0.y.neg() },
            c1: Vector2 { x: self.c1.x.neg(), y: self.c1.y.neg() },
        }
    }
}

impl<'a, S: ScalarSigned> vstd::std_specs::ops::NegSpecImpl for &'a Matrix2x2<S> {
    open spec fn obeys_neg_spec() -> bool {
        true
    }

    open spec fn neg_req(self) -> bool {
        (*self).can_neg()
    }

    open spec fn neg_spec(self) -> Matrix2x2<S> {
        (*self).negated()
    }
}

impl<S: Scalar> core::ops::Index<usize> for Matrix2x2<S> {
    type Output = Vector2<S>;

    fn index(&self, index: usize) -> (r: &Vector2<S>)
        ensures
            *r == self.column(index as int),
    {
        if index == 0 {
            &self.c0
        } else if index == 1 {
            &self.c1
        } else {
            vstd::pervasive::unreached()
        }
    }
}

impl<S: Scalar> vstd::std_specs::core::IndexSpecImpl<usize> for Matrix2x2<S> {
    open spec fn index_req(&self, index: &usize) -> bool {
        *index < 2
    }
}

impl<S: Scalar> Matrix2x2<S> {
    /// True when every product, sum and difference of the determinant is defined.
    pub open spec fn can_determinant(self) -> bool {
        &&& can_det2(self.c0.x, self.c0.y, self.c1.x, self.c1.y)
    }

    /// The determinant.
    pub open spec fn determinant_spec(self) -> S {
        det2(self.c0.x, self.c0.y, self.c1.x, self.c1.y)
    }

    /// True when the determinant is not the same as zero.
    pub open spec fn is_invertible_spec(self) -> bool {
        !self.determinant_spec().same(S::zero_spec())
    }

    /// The determinant of the matrix.
    pub fn determinant(&self) -> (r: S)
        requires
            self.can_determinant(),
        ensures
            r == self.determinant_spec(),
    {
        det2_of(self.c0.x, self.c0.y, self.c1.x, self.c1.y)
    }

    /// Tells whether the matrix has an inverse: whether its determinant is not zero.
    pub fn is_invertible(&self) -> (r: bool)
        requires
            self.can_determinant(),
        ensures
            r == self.is_invertible_spec(),
    {
        !self.determinant().equals(S::zero())
    }
}

impl<S: ScalarSigned> Matrix2x2<S> {
    /// True when every entry of the adjugate is defined.
    pub open spec fn can_adjugate(self) -> bool {
        &&& self.c0.y.can_neg()
        &&& self.c1.x.can_neg()
    }

    /// The adjugate: the entry in column `c` and row `r` is the determinant
    /// of the matrix without column `r` and row `c`, negated where `c + r` is odd.
    pub open spec fn adjugate_spec(self) -> Matrix2x2<S> {
        Matrix2x2 {
            c0: Vector2 { x: self.c1.y, y: self.c0.y.negated() },
            c1: Vector2 { x: self.c1.x.negated(), y: self.c0.x },
        }
    }

    /// True when the inverse can be computed: the determinant is defined and,
    /// unless it is zero, so are its reciprocal, the adjugate and their product.
    pub open spec fn can_inverse(self) -> bool {
        &&& self.can_determinant()
        &&& self.is_invertible_spec() ==> {
            &&& S::one_spec().can_div(self.determinant_spec())
            &&& self.can_adjugate()
            &&& self.adjugate_spec().can_scale_left(S::one_spec().over(self.determinant_spec()))
        }
    }

    /// The inverse: absent when the determinant is zero, else the adjugate
    /// multiplied from the left by the reciprocal of the determinant.
    pub open spec fn inverse_spec(self) -> Option<Matrix2x2<S>> {
        if self.is_invertible_spec() {
            Some(self.adjugate_spec().scaled_left(S::one_spec().over(self.determinant_spec())))
        } else {
            None
        }
    }

    /// The adjugate of the matrix.
    pub fn adjugate(&self) -> (r: Matrix2x2<S>)
        requires
            self.can_adjugate(),
        ensures
            r == self.adjugate_spec(),
    {
        Matrix2x2 {
            c0: Vector2 { x: self.c1.y, y: self.c0.y.neg() },
            c1: Vector2 { x: self.c1.x.neg(), y: self.c0.x },
        }
    }

    /// The inverse of the matrix, or `None` when its determinant is zero.
    pub fn inverse(&self) -> (r: Option<Matrix2x2<S>>)
        requires
            self.can_inverse(),
        ensures
            r == self.inverse_spec(),
            r is None <==> self.determinant_spec().same(S::zero_spec()),
    {
        let det = self.determinant();
        if det.equals(S::zero()) {
            None
        } else {
            let inv_det = S::one().div(det);
            Some(self.adjugate().scale_left(inv_det))
        }
    }
}

impl<S: Scalar> Matrix2x2<S> {
    /// The matrix that scales every axis by `scale`.
    pub open spec fn scale_spec(scale: S) -> Matrix2x2<S> {
        Matrix2x2 {
            c0: Vector2 { x: scale, y: S::zero_spec() },
            c1: Vector2 { x: S::zero_spec(), y: scale },
        }
    }

    /// The matrix that scales every axis by `scale`.
    pub fn from_scale(scale: S) -> (r: Matrix2x2<S>)
        ensures
            r == Self::scale_spec(scale),
    {
        Matrix2x2 {
            c0: Vector2 { x: scale, y: S::zero() },
            c1: Vector2 { x: S::zero(), y: scale },
        }
    }

    /// The matrix that scales each axis by the component of `scale` for it.
    pub open spec fn nonuniform_scale_spec(scale: Vector2<S>) -> Matrix2x2<S> {
        Matrix2x2 {
            c0: Vector2 { x: scale.x, y: S::zero_spec() },
            c1: Vector2 { x: S::zero_spec(), y: scale.y },
        }
    }

    /// The matrix that scales each axis by the component of `scale` for it.
    pub fn from_nonuniform_scale(scale: &Vector2<S>) -> (r: Matrix2x2<S>)
        ensures
            r == Self::nonuniform_scale_spec(*scale),
    {
        Matrix2x2 {
            c0: Vector2 { x: scale.x, y: S::zero() },
            c1: Vector2 { x: S::zero(), y: scale.y },
        }
    }

    /// The shear along the x-axis: `shear_factor` times the y-component is added to the
    /// x-component.
    pub open spec fn shear_x_spec(shear_factor: S) -> Matrix2x2<S> {
        Matrix2x2 {
            c0: Vector2 { x: S::one_spec(), y: S::zero_spec() },
            c1: Vector2 { x: shear_factor, y: S::one_spec() },
        }
    }

    /// The shear along the x-axis: `shear_factor` times the y-component is added to the
    /// x-component.
    pub fn from_shear_x(shear_factor: S) -> (r: Matrix2x2<S>)
        ensures
            r == Self::shear_x_spec(shear_factor),
    {
        Matrix2x2 {
            c0: Vector2 { x: S::one(), y: S::zero() },
            c1: Vector2 { x: shear_factor, y: S::one() },
        }
    }

    /// The shear along the y-axis: `shear_factor` times the x-component is added to the
    /// y-component.
    pub open spec fn shear_y_spec(shear_factor: S) -> Matrix2x2<S> {
        Matrix2x2 {
            c0: Vector2 { x: S::one_spec(), y: shear_factor },
            c1: Vector2 { x: S::zero_spec(), y: S::one_spec() },
        }
    }

    /// The shear along the y-axis: `shear_factor` times the x-component is added to the
    /// y-component.
    pub fn from_shear_y(shear_factor: S) -> (r: Matrix2x2<S>)
        ensures
            r == Self::shear_y_spec(shear_factor),
    {
        Matrix2x2 {
            c0: Vector2 { x: S::one(), y: shear_factor },
            c1: Vector2 { x: S::zero(), y: S::one() },
        }
    }

    /// True when every entry of `shear_spec` is defined.
    pub open spec fn can_from_shear(
        shear_factor: S,
        direction: Unit<Vector2<S>>,
        normal: Unit<Vector2<S>>,
    ) -> bool {
        &&& shear_factor.can_mul(direction@.x)
        &&& shear_factor.times(direction@.x).can_mul(normal@.x)
        &&& S::one_spec().can_add(shear_factor.times(direction@.x).times(normal@.x))
        &&& shear_factor.can_mul(direction@.y)
        &&& shear_factor.times(direction@.y).can_mul(normal@.x)
        &&& shear_factor.times(direction@.x).can_mul(normal@.y)
        &&& shear_factor.times(direction@.y).can_mul(normal@.y)
        &&& S::one_spec().can_add(shear_factor.times(direction@.y).times(normal@.y))
    }

    /// The shear by `shear_factor` along `direction`, measured along `normal`: the identity
    /// plus the factor times the outer product of the two.
    pub open spec fn shear_spec(
        shear_factor: S,
        direction: Unit<Vector2<S>>,
        normal: Unit<Vector2<S>>,
    ) -> Matrix2x2<S> {
        Matrix2x2 {
            c0: Vector2 {
                x: S::one_spec().plus(shear_factor.times(direction@.x).times(normal@.x)),
                y: shear_factor.times(direction@.y).times(normal@.x),
            },
            c1: Vector2 {
                x: shear_factor.times(direction@.x).times(normal@.y),
                y: S::one_spec().plus(shear_factor.times(direction@.y).times(normal@.y)),
            },
        }
    }

    /// The shear by `shear_factor` along `direction`, measured along `normal`: the identity
    /// plus the factor times the outer product of the two.
    pub fn from_shear(
        shear_factor: S,
        direction: &Unit<Vector2<S>>,
        normal: &Unit<Vector2<S>>,
    ) -> (r: Matrix2x2<S>)
        requires
            Self::can_from_shear(shear_factor, *direction, *normal),
        ensures
            r == Self::shear_spec(shear_factor, *direction, *normal),
    {
        Matrix2x2 {
            c0: Vector2 {
                x: S::one().add(shear_factor.mul(direction.value.x).mul(normal.value.x)),
                y: shear_factor.mul(direction.value.y).mul(normal.value.x),
            },
            c1: Vector2 {
                x: shear_factor.mul(direction.value.x).mul(normal.value.y),
                y: S::one().add(shear_factor.mul(direction.value.y).mul(normal.value.y)),
            },
        }
    }
}

impl<S: ScalarSigned> Matrix2x2<S> {
    /// True when every entry of `reflection_spec` is defined.
    pub open spec fn can_from_reflection(normal: Unit<Vector2<S>>) -> bool {
        &&& S::one_spec().can_add(S::one_spec())
        &&& S::one_spec().plus(S::one_spec()).can_mul(normal@.x)
        &&& S::one_spec().plus(S::one_spec()).times(normal@.x).can_mul(normal@.x)
        &&& S::one_spec().can_sub(S::one_spec().plus(S::one_spec()).times(normal@.x)
            .times(normal@.x))
        &&& S::one_spec().plus(S::one_spec()).can_neg()
        &&& S::one_spec().plus(S::one_spec()).negated().can_mul(normal@.x)
        &&& S::one_spec().plus(S::one_spec()).negated().times(normal@.x).can_mul(normal@.y)
        &&& S::one_spec().plus(S::one_spec()).can_mul(normal@.y)
        &&& S::one_spec().plus(S::one_spec()).times(normal@.y).can_mul(normal@.y)
        &&& S::one_spec().can_sub(S::one_spec().plus(S::one_spec()).times(normal@.y)
            .times(normal@.y))
    }

    /// The reflection through the line or plane through the origin with the unit normal
    /// `normal`: the identity minus twice the outer product of the normal with itself.
    pub open spec fn reflection_spec(normal: Unit<Vector2<S>>) -> Matrix2x2<S> {
        Matrix2x2 {
            c0: Vector2 {
                x: S::one_spec().minus(S::one_spec().plus(S::one_spec()).times(normal@.x)
                    .times(normal@.x)),
                y: S::one_spec().plus(S::one_spec()).negated().times(normal@.x).times(normal@.y),
            },
            c1: Vector2 {
                x: S::one_spec().plus(S::one_spec()).negated().times(normal@.x).times(normal@.y),
                y: S::one_spec().minus(S::one_spec().plus(S::one_spec()).times(normal@.y)
                    .times(normal@.y)),
            },
        }
    }

    /// The reflection through the line or plane through the origin with the unit normal
    /// `normal`: the identity minus twice the outer product of the normal with itself.
    pub fn from_reflection(normal: &Unit<Vector2<S>>) -> (r: Matrix2x2<S>)
        requires
            Self::can_from_reflection(*normal),
        ensures
            r == Self::reflection_spec(*normal),
    {
        Matrix2x2 {
            c0: Vector2 {
                x: S::one().sub(S::one().add(S::one()).mul(normal.value.x).mul(normal.value.x)),
                y: S::one().add(S::one()).neg().mul(normal.value.x).mul(normal.value.y),
            },
            c1: Vector2 {
                x: S::one().add(S::one()).neg().mul(normal.value.x).mul(normal.value.y),
                y: S::one().sub(S::one().add(S::one()).mul(normal.value.y).mul(normal.value.y)),
            },
        }
    }
}

impl<S: ScalarSigned> Matrix2x2<S> {
    /// True when every entry of `cos_sin_spec` is defined.
    pub open spec fn can_from_cos_sin(cosine: S, sine: S) -> bool {
        &&& sine.can_neg()
    }

    /// The rotation of the plane by the angle with the given cosine and sine,
    /// counterclockwise.
    pub open spec fn cos_sin_spec(cosine: S, sine: S) -> Matrix2x2<S> {
        Matrix2x2 {
            c0: Vector2 { x: cosine, y: sine },
            c1: Vector2 { x: sine.negated(), y: cosine },
        }
    }

    /// The rotation of the plane by the angle with the given cosine and sine,
    /// counterclockwise.
    pub fn from_cos_sin(cosine: S, sine: S) -> (r: Matrix2x2<S>)
        requires
            Self::can_from_cos_sin(cosine, sine),
        ensures
            r == Self::cos_sin_spec(cosine, sine),
    {
        Matrix2x2 {
            c0: Vector2 { x: cosine, y: sine },
            c1: Vector2 { x: sine.neg(), y: cosine },
        }
    }

    /// True when every entry of `rotation_between_axis_spec` is defined.
    pub open spec fn can_rotation_between_axis(v1: Unit<Vector2<S>>, v2: Unit<Vector2<S>>) -> bool {
        &&& v1@.x.can_mul(v2@.x)
        &&& v1@.y.can_mul(v2@.y)
        &&& v1@.x.times(v2@.x).can_add(v1@.y.times(v2@.y))
        &&& v1@.x.can_mul(v2@.y)
        &&& v1@.y.can_mul(v2@.x)
        &&& v1@.x.times(v2@.y).can_sub(v1@.y.times(v2@.x))
        &&& v1@.x.times(v2@.y).minus(v1@.y.times(v2@.x)).can_neg()
    }

    /// The rotation that carries the unit vector `v1` onto the unit vector `v2`: its cosine
    /// is their dot product and its sine their cross product.
    pub open spec fn rotation_between_axis_spec(
        v1: Unit<Vector2<S>>,
        v2: Unit<Vector2<S>>,
    ) -> Matrix2x2<S> {
        Matrix2x2 {
            c0: Vector2 {
                x: v1@.x.times(v2@.x).plus(v1@.y.times(v2@.y)),
                y: v1@.x.times(v2@.y).minus(v1@.y.times(v2@.x)),
            },
            c1: Vector2 {
                x: v1@.x.times(v2@.y).minus(v1@.y.times(v2@.x)).negated(),
                y: v1@.x.times(v2@.x).plus(v1@.y.times(v2@.y)),
            },
        }
    }

    /// The rotation that carries the unit vector `v1` onto the unit vector `v2`: its cosine
    /// is their dot product and its sine their cross product.
    pub fn rotation_between_axis(v1: &Unit<Vector2<S>>, v2: &Unit<Vector2<S>>) -> (r: Matrix2x2<S>)
        requires
            Self::can_rotation_between_axis(*v1, *v2),
        ensures
            r == Self::rotation_between_axis_spec(*v1, *v2),
    {
        let cosine = v1.value.x.mul(v2.value.x).add(v1.value.y.mul(v2.value.y));
        let sine = v1.value.x.mul(v2.value.y).sub(v1.value.y.mul(v2.value.x));
        Matrix2x2 {
            c0: Vector2 { x: cosine, y: sine },
            c1: Vector2 { x: sine.neg(), y: cosine },
        }
    }
}

impl<S: ScalarFloat> Matrix2x2<S> {
    /// True when `angle_spec` is defined.
    pub open spec fn can_from_angle(angle: Radians<S>) -> bool {
        Self::can_from_cos_sin(angle.0.cosine(), angle.0.sine())
    }

    /// The rotation of the plane by `angle`, counterclockwise: built on the cosine and the
    /// sine of the angle.
    pub open spec fn angle_spec(angle: Radians<S>) -> Matrix2x2<S> {
        Self::cos_sin_spec(angle.0.cosine(), angle.0.sine())
    }

    /// The rotation of the plane by `angle`, counterclockwise: built on the cosine and the
    /// sine of the angle.
    pub fn from_angle(angle: Radians<S>) -> (r: Matrix2x2<S>)
        requires
            Self::can_from_angle(angle),
        ensures
            r == Self::angle_spec(angle),
    {
        Self::from_cos_sin(angle.cos(), angle.sin())
    }

    /// True when `rotation_between_spec` is defined.
    pub open spec fn can_rotation_between(v1: Vector2<S>, v2: Vector2<S>) -> bool {
        &&& v1.can_dot_with(v1)
        &&& v2.can_dot_with(v2)
        &&& !v1.magnitude_spec().same(S::zero_spec())
            && !v2.magnitude_spec().same(S::zero_spec()) ==> {
            &&& v1.can_div(v1.magnitude_spec())
            &&& v2.can_div(v2.magnitude_spec())
            &&& Self::can_rotation_between_axis(
                Unit { value: v1.normalize_spec() },
                Unit { value: v2.normalize_spec() },
            )
        }
    }

    /// The rotation that carries the direction of `v1` onto that of `v2`;
    /// the identity when one of the two has the length zero.
    pub open spec fn rotation_between_spec(v1: Vector2<S>, v2: Vector2<S>) -> Matrix2x2<S> {
        if v1.magnitude_spec().same(S::zero_spec()) || v2.magnitude_spec().same(S::zero_spec()) {
            Self::identity_spec()
        } else {
            Self::rotation_between_axis_spec(
                Unit { value: v1.normalize_spec() },
                Unit { value: v2.normalize_spec() },
            )
        }
    }

    /// The rotation that carries the direction of `v1` onto that of `v2`.
    pub fn rotation_between(v1: &Vector2<S>, v2: &Vector2<S>) -> (r: Matrix2x2<S>)
        requires
            Self::can_rotation_between(*v1, *v2),
        ensures
            r == Self::rotation_between_spec(*v1, *v2),
    {
        let m1 = v1.magnitude();
        let m2 = v2.magnitude();
        if m1.equals(S::zero()) || m2.equals(S::zero()) {
            Self::identity()
        } else {
            let u1 = Unit { value: *v1 / m1 };
            let u2 = Unit { value: *v2 / m2 };
            Self::rotation_between_axis(&u1, &u2)
        }
    }
}

} // verus!
