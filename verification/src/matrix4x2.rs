//! Matrices of four rows and two columns, stored column by column.

use vstd::prelude::*;
use crate::matrix2x2::Matrix2x2;
use crate::matrix2x3::Matrix2x3;
use crate::matrix2x4::Matrix2x4;
use crate::matrix4x3::Matrix4x3;
use crate::matrix4x4::Matrix4x4;
use crate::scalar::{Scalar, ScalarSigned};
use crate::vector::{Vector2, Vector4};

verus! {

/// A matrix of four rows and two columns. The field `c0` is the first column; the
/// entry in column `c` and row `r` is the component `r` of column `c`.
#[derive(Clone, Copy, Debug, PartialEq, Eq, Hash)]
pub struct Matrix4x2<S> {
    pub c0: Vector4<S>,
    pub c1: Vector4<S>,
}

impl<S: Scalar> Matrix4x2<S> {
    /// The column at index `c`, counted from zero.
    pub open spec fn column(self, c: int) -> Vector4<S> {
        if c == 0 {
            self.c0
        } else {
            self.c1
        }
    }

    /// The row at index `r`, counted from zero.
    pub open spec fn row(self, r: int) -> Vector2<S> {
        if r == 0 {
            Vector2 { x: self.c0.x, y: self.c1.x }
        } else if r == 1 {
            Vector2 { x: self.c0.y, y: self.c1.y }
        } else if r == 2 {
            Vector2 { x: self.c0.z, y: self.c1.z }
        } else {
            Vector2 { x: self.c0.w, y: self.c1.w }
        }
    }

    /// The entry in column `c` and row `r`.
    pub open spec fn at(self, c: int, r: int) -> S {
        self.column(c).at(r)
    }

    /// The matrix with `v` as column `c` and the other columns of `self`.
    pub open spec fn with_column(self, c: int, v: Vector4<S>) -> Matrix4x2<S> {
        Matrix4x2 {
            c0: if c == 0 { v } else { self.c0 },
            c1: if c == 1 { v } else { self.c1 },
        }
    }

    /// The matrix with `v` as row `r` and the other rows of `self`.
    pub open spec fn with_row(self, r: int, v: Vector2<S>) -> Matrix4x2<S> {
        Matrix4x2 {
            c0: self.c0.with(r, v.x),
            c1: self.c1.with(r, v.y),
        }
    }

    /// The matrix with `value` in column `c` and row `r` and the other entries of `self`.
    pub open spec fn with_at(self, c: int, r: int, value: S) -> Matrix4x2<S> {
        self.with_column(c, self.column(c).with(r, value))
    }

    /// The matrix whose entries are all zero.
    pub open spec fn zero_spec() -> Matrix4x2<S> {
        Matrix4x2 {
            c0: Vector4 {
                x: S::zero_spec(),
                y: S::zero_spec(),
                z: S::zero_spec(),
                w: S::zero_spec(),
            },
            c1: Vector4 {
                x: S::zero_spec(),
                y: S::zero_spec(),
                z: S::zero_spec(),
                w: S::zero_spec(),
            },
        }
    }

    /// The transpose: the entry in column `c` and row `r` of the result is the
    /// entry in column `r` and row `c` of `self`.
    pub open spec fn transposed(self) -> Matrix2x4<S> {
        Matrix2x4 {
            c0: Vector2 { x: self.c0.x, y: self.c1.x },
            c1: Vector2 { x: self.c0.y, y: self.c1.y },
            c2: Vector2 { x: self.c0.z, y: self.c1.z },
            c3: Vector2 { x: self.c0.w, y: self.c1.w },
        }
    }

    /// True when every entry of `self` can be added to that of `other`.
    pub open spec fn can_add(self, other: Matrix4x2<S>) -> bool {
        &&& self.c0.can_add(other.c0)
        &&& self.c1.can_add(other.c1)
    }

    /// The entry-wise sum.
    pub open spec fn plus(self, other: Matrix4x2<S>) -> Matrix4x2<S> {
        Matrix4x2 {
            c0: self.c0.plus(other.c0),
            c1: self.c1.plus(other.c1),
        }
    }

    /// True when every entry of `other` can be subtracted from that of `self`.
    pub open spec fn can_sub(self, other: Matrix4x2<S>) -> bool {
        &&& self.c0.can_sub(other.c0)
        &&& self.c1.can_sub(other.c1)
    }

    /// The entry-wise difference.
    pub open spec fn minus(self, other: Matrix4x2<S>) -> Matrix4x2<S> {
        Matrix4x2 {
            c0: self.c0.minus(other.c0),
            c1: self.c1.minus(other.c1),
        }
    }

    /// True when every entry can be multiplied by `c` on the right.
    pub open spec fn can_scale(self, c: S) -> bool {
        &&& self.c0.can_scale(c)
        &&& self.c1.can_scale(c)
    }

    /// Every entry multiplied by `c` on the right.
    pub open spec fn scaled(self, c: S) -> Matrix4x2<S> {
        Matrix4x2 {
            c0: self.c0.scaled(c),
            c1: self.c1.scaled(c),
        }
    }

    /// True when every entry can be multiplied by `c` on the left.
    pub open spec fn can_scale_left(self, c: S) -> bool {
        &&& self.c0.can_scale_left(c)
        &&& self.c1.can_scale_left(c)
    }

    /// Every entry multiplied by `c` on the left.
    pub open spec fn scaled_left(self, c: S) -> Matrix4x2<S> {
        Matrix4x2 {
            c0: self.c0.scaled_left(c),
            c1: self.c1.scaled_left(c),
        }
    }

    /// True when every entry can be divided by `c`.
    pub open spec fn can_div(self, c: S) -> bool {
        &&& self.c0.can_div(c)
        &&& self.c1.can_div(c)
    }

    /// Every entry divided by `c`.
    pub open spec fn over(self, c: S) -> Matrix4x2<S> {
        Matrix4x2 {
            c0: self.c0.over(c),
            c1: self.c1.over(c),
        }
    }

    /// True when the remainder of every entry by `c` is defined.
    pub open spec fn can_rem(self, c: S) -> bool {
        &&& self.c0.can_rem(c)
        &&& self.c1.can_rem(c)
    }

    /// The remainder of every entry by `c`.
    pub open spec fn modulo(self, c: S) -> Matrix4x2<S> {
        Matrix4x2 {
            c0: self.c0.modulo(c),
            c1: self.c1.modulo(c),
        }
    }

    /// True when every entry of the product with the vector `v` is defined.
    pub open spec fn can_mul_vector(self, v: Vector2<S>) -> bool {
        &&& self.row(0).can_dot_with(v)
        &&& self.row(1).can_dot_with(v)
        &&& self.row(2).can_dot_with(v)
        &&& self.row(3).can_dot_with(v)
    }

    /// The product of the matrix with the column vector `v`: component `r` is
    /// the dot product of row `r` with `v`.
    pub open spec fn times_vector(self, v: Vector2<S>) -> Vector4<S> {
        Vector4 { x: self.row(0).dot_with(v), y: self.row(1).dot_with(v),
            z: self.row(2).dot_with(v), w: self.row(3).dot_with(v) }
    }

    /// True when every entry of the product with `other` is defined.
    pub open spec fn can_mul_2x2(self, other: Matrix2x2<S>) -> bool {
        &&& self.row(0).can_dot_with(other.c0)
        &&& self.row(1).can_dot_with(other.c0)
        &&& self.row(2).can_dot_with(other.c0)
        &&& self.row(3).can_dot_with(other.c0)
        &&& self.row(0).can_dot_with(other.c1)
        &&& self.row(1).can_dot_with(other.c1)
        &&& self.row(2).can_dot_with(other.c1)
        &&& self.row(3).can_dot_with(other.c1)
    }

    /// The matrix product `self * other`: the entry in column `c` and row `r`
    /// is the dot product of row `r` of `self` with column `c` of `other`.
    pub open spec fn times_2x2(self, other: Matrix2x2<S>) -> Matrix4x2<S> {
        Matrix4x2 {
            c0: Vector4 {
                x: self.row(0).dot_with(other.c0),
                y: self.row(1).dot_with(other.c0),
                z: self.row(2).dot_with(other.c0),
                w: self.row(3).dot_with(other.c0),
            },
            c1: Vector4 {
                x: self.row(0).dot_with(other.c1),
                y: self.row(1).dot_with(other.c1),
                z: self.row(2).dot_with(other.c1),
                w: self.row(3).dot_with(other.c1),
            },
        }
    }

    /// True when every entry of the product with `other` is defined.
    pub open spec fn can_mul_2x3(self, other: Matrix2x3<S>) -> bool {
        &&& self.row(0).can_dot_with(other.c0)
        &&& self.row(1).can_dot_with(other.c0)
        &&& self.row(2).can_dot_with(other.c0)
        &&& self.row(3).can_dot_with(other.c0)
        &&& self.row(0).can_dot_with(other.c1)
        &&& self.row(1).can_dot_with(other.c1)
        &&& self.row(2).can_dot_with(other.c1)
        &&& self.row(3).can_dot_with(other.c1)
        &&& self.row(0).can_dot_with(other.c2)
        &&& self.row(1).can_dot_with(other.c2)
        &&& self.row(2).can_dot_with(other.c2)
        &&& self.row(3).can_dot_with(other.c2)
    }

    /// The matrix product `self * other`: the entry in column `c` and row `r`
    /// is the dot product of row `r` of `self` with column `c` of `other`.
    pub open spec fn times_2x3(self, other: Matrix2x3<S>) -> Matrix4x3<S> {
        Matrix4x3 {
            c0: Vector4 {
                x: self.row(0).dot_with(other.c0),
                y: self.row(1).dot_with(other.c0),
                z: self.row(2).dot_with(other.c0),
                w: self.row(3).dot_with(other.c0),
            },
            c1: Vector4 {
                x: self.row(0).dot_with(other.c1),
                y: self.row(1).dot_with(other.c1),
                z: self.row(2).dot_with(other.c1),
                w: self.row(3).dot_with(other.c1),
            },
            c2: Vector4 {
                x: self.row(0).dot_with(other.c2),
                y: self.row(1).dot_with(other.c2),
                z: self.row(2).dot_with(other.c2),
                w: self.row(3).dot_with(other.c2),
            },
        }
    }

    /// True when every entry of the product with `other` is defined.
    pub open spec fn can_mul_2x4(self, other: Matrix2x4<S>) -> bool {
        &&& self.row(0).can_dot_with(other.c0)
        &&& self.row(1).can_dot_with(other.c0)
        &&& self.row(2).can_dot_with(other.c0)
        &&& self.row(3).can_dot_with(other.c0)
        &&& self.row(0).can_dot_with(other.c1)
        &&& self.row(1).can_dot_with(other.c1)
        &&& self.row(2).can_dot_with(other.c1)
        &&& self.row(3).can_dot_with(other.c1)
        &&& self.row(0).can_dot_with(other.c2)
        &&& self.row(1).can_dot_with(other.c2)
        &&& self.row(2).can_dot_with(other.c2)
        &&& self.row(3).can_dot_with(other.c2)
        &&& self.row(0).can_dot_with(other.c3)
        &&& self.row(1).can_dot_with(other.c3)
        &&& self.row(2).can_dot_with(other.c3)
        &&& self.row(3).can_dot_with(other.c3)
    }

    /// The matrix product `self * other`: the entry in column `c` and row `r`
    /// is the dot product of row `r` of `self` with column `c` of `other`.
    pub open spec fn times_2x4(self, other: Matrix2x4<S>) -> Matrix4x4<S> {
        Matrix4x4 {
            c0: Vector4 {
                x: self.row(0).dot_with(other.c0),
                y: self.row(1).dot_with(other.c0),
                z: self.row(2).dot_with(other.c0),
                w: self.row(3).dot_with(other.c0),
            },
            c1: Vector4 {
                x: self.row(0).dot_with(other.c1),
                y: self.row(1).dot_with(other.c1),
                z: self.row(2).dot_with(other.c1),
                w: self.row(3).dot_with(other.c1),
            },
            c2: Vector4 {
                x: self.row(0).dot_with(other.c2),
                y: self.row(1).dot_with(other.c2),
                z: self.row(2).dot_with(other.c2),
                w: self.row(3).dot_with(other.c2),
            },
            c3: Vector4 {
                x: self.row(0).dot_with(other.c3),
                y: self.row(1).dot_with(other.c3),
                z: self.row(2).dot_with(other.c3),
                w: self.row(3).dot_with(other.c3),
            },
        }
    }

    /// True when every entry of `self` is the same as zero.
    pub open spec fn is_zero_spec(self) -> bool {
        &&& self.c0.is_zero_spec()
        &&& self.c1.is_zero_spec()
    }

    /// Makes a matrix from its entries, column by column.
    pub fn new(
        c0r0: S,
        c0r1: S,
        c0r2: S,
        c0r3: S,
        c1r0: S,
        c1r1: S,
        c1r2: S,
        c1r3: S,
    ) -> (r: Matrix4x2<S>)
        ensures
            r == (Matrix4x2 {
                c0: Vector4 { x: c0r0, y: c0r1, z: c0r2, w: c0r3 },
                c1: Vector4 { x: c1r0, y: c1r1, z: c1r2, w: c1r3 },
            }),
    {
        Matrix4x2 {
            c0: Vector4 { x: c0r0, y: c0r1, z: c0r2, w: c0r3 },
            c1: Vector4 { x: c1r0, y: c1r1, z: c1r2, w: c1r3 },
        }
    }

    /// Makes a matrix from its columns.
    pub fn from_columns(columns: &[Vector4<S>; 2]) -> (r: Matrix4x2<S>)
        ensures
            r.column(0) == columns@[0],
            r.column(1) == columns@[1],
    {
        Matrix4x2 { c0: columns[0], c1: columns[1] }
    }

    /// Makes a matrix from its rows: the entry in column `c` and row `r` is
    /// the component `c` of `rows[r]`.
    pub fn from_rows(rows: &[Vector2<S>; 4]) -> (r: Matrix4x2<S>)
        ensures
            r.row(0) == rows@[0],
            r.row(1) == rows@[1],
            r.row(2) == rows@[2],
            r.row(3) == rows@[3],
    {
        Matrix4x2 {
            c0: Vector4 { x: rows[0].x, y: rows[1].x, z: rows[2].x, w: rows[3].x },
            c1: Vector4 { x: rows[0].y, y: rows[1].y, z: rows[2].y, w: rows[3].y },
        }
    }

    /// The zero matrix.
    pub fn zero() -> (r: Matrix4x2<S>)
        ensures
            r == Self::zero_spec(),
    {
        Matrix4x2 {
            c0: Vector4 { x: S::zero(), y: S::zero(), z: S::zero(), w: S::zero() },
            c1: Vector4 { x: S::zero(), y: S::zero(), z: S::zero(), w: S::zero() },
        }
    }

    /// The shape as a pair of the number of rows and the number of columns.
    pub fn shape() -> (r: (usize, usize))
        ensures
            r == (4usize, 2usize),
    {
        (4, 2)
    }

    /// The number of entries.
    pub fn len() -> (r: usize)
        ensures
            r == 8,
    {
        8
    }

    /// Tells whether every entry is zero.
    pub fn is_zero(&self) -> (r: bool)
        ensures
            r == self.is_zero_spec(),
    {
        self.c0.is_zero() && self.c1.is_zero()
    }

    /// The transpose of the matrix.
    pub fn transpose(&self) -> (r: Matrix2x4<S>)
        ensures
            r == self.transposed(),
    {
        Matrix2x4 {
            c0: Vector2 { x: self.c0.x, y: self.c1.x },
            c1: Vector2 { x: self.c0.y, y: self.c1.y },
            c2: Vector2 { x: self.c0.z, y: self.c1.z },
            c3: Vector2 { x: self.c0.w, y: self.c1.w },
        }
    }

    /// The column at index `c`.
    pub fn get_column(&self, c: usize) -> (r: Vector4<S>)
        requires
            c < 2,
        ensures
            r == self.column(c as int),
    {
        if c == 0 {
            self.c0
        } else {
            self.c1
        }
    }

    /// The row at index `r`.
    pub fn get_row(&self, r: usize) -> (v: Vector2<S>)
        requires
            r < 4,
        ensures
            v == self.row(r as int),
    {
        if r == 0 {
            Vector2 { x: self.c0.x, y: self.c1.x }
        } else if r == 1 {
            Vector2 { x: self.c0.y, y: self.c1.y }
        } else if r == 2 {
            Vector2 { x: self.c0.z, y: self.c1.z }
        } else {
            Vector2 { x: self.c0.w, y: self.c1.w }
        }
    }

    /// Replaces the column at index `c` by `v`.
    pub fn set_column(&mut self, c: usize, v: Vector4<S>)
        requires
            c < 2,
        ensures
            *final(self) == old(self).with_column(c as int, v),
    {
        if c == 0 {
            self.c0 = v;
        } else {
            self.c1 = v;
        }
    }

    /// Replaces the row at index `r` by `v`.
    pub fn set_row(&mut self, r: usize, v: Vector2<S>)
        requires
            r < 4,
        ensures
            *final(self) == old(self).with_row(r as int, v),
    {
        self.c0.set(r, v.x);
        self.c1.set(r, v.y);
    }

    /// Exchanges the columns at the indices `a` and `b`.
    pub fn swap_columns(&mut self, a: usize, b: usize)
        requires
            a < 2,
            b < 2,
        ensures
            *final(self) == old(self).with_column(a as int, old(self).column(b as int)).with_column(
                b as int,
                old(self).column(a as int),
            ),
    {
        let first = self.get_column(a);
        let second = self.get_column(b);
        self.set_column(a, second);
        self.set_column(b, first);
    }

    /// Exchanges the rows at the indices `a` and `b`.
    pub fn swap_rows(&mut self, a: usize, b: usize)
        requires
            a < 4,
            b < 4,
        ensures
            *final(self) == old(self).with_row(a as int, old(self).row(b as int)).with_row(
                b as int,
                old(self).row(a as int),
            ),
    {
        let first = self.get_row(a);
        let second = self.get_row(b);
        self.set_row(a, second);
        self.set_row(b, first);
    }

    /// Exchanges two entries, each given as a pair of its column and its row.
    pub fn swap(&mut self, a: (usize, usize), b: (usize, usize))
        requires
            a.0 < 2,
            a.1 < 4,
            b.0 < 2,
            b.1 < 4,
        ensures
            *final(self) == old(self).with_at(
                a.0 as int,
                a.1 as int,
                old(self).at(b.0 as int, b.1 as int),
            ).with_at(b.0 as int, b.1 as int, old(self).at(a.0 as int, a.1 as int)),
    {
        let mut first_column = self.get_column(a.0);
        let first = first_column[a.1];
        let second = self.get_column(b.0)[b.1];
        first_column.set(a.1, second);
        self.set_column(a.0, first_column);
        let mut second_column = self.get_column(b.0);
        second_column.set(b.1, first);
        self.set_column(b.0, second_column);
    }

    /// Multiplies every entry by `c`, with `c` on the left of each product.
    pub fn scale_left(self, c: S) -> (r: Matrix4x2<S>)
        requires
            self.can_scale_left(c),
        ensures
            r == self.scaled_left(c),
    {
        Matrix4x2 { c0: self.c0.scale_left(c), c1: self.c1.scale_left(c) }
    }
}

impl<S: ScalarSigned> Matrix4x2<S> {
    /// True when every entry can be negated.
    pub open spec fn can_neg(self) -> bool {
        &&& self.c0.can_neg()
        &&& self.c1.can_neg()
    }

    /// The matrix of the negated entries.
    pub open spec fn negated(self) -> Matrix4x2<S> {
        Matrix4x2 { c0: self.c0.negated(), c1: self.c1.negated() }
    }
}

impl<S: Scalar> core::ops::Add<Matrix4x2<S>> for Matrix4x2<S> {
    type Output = Matrix4x2<S>;

    fn add(self, other: Matrix4x2<S>) -> (r: Matrix4x2<S>) {
        Matrix4x2 {
            c0: Vector4 {
                x: self.c0.x.add(other.c0.x),
                y: self.c0.y.add(other.c0.y),
                z: self.c0.z.add(other.c0.z),
                w: self.c0.w.add(other.c0.w),
            },
            c1: Vector4 {
                x: self.c1.x.add(other.c1.x),
                y: self.c1.y.add(other.c1.y),
                z: self.c1.z.add(other.c1.z),
                w: self.c1.w.add(other.c1.w),
            },
        }
    }
}

impl<S: Scalar> vstd::std_specs::ops::AddSpecImpl<Matrix4x2<S>> for Matrix4x2<S> {
    open spec fn obeys_add_spec() -> bool {
        true
    }

    open spec fn add_req(self, other: Matrix4x2<S>) -> bool {
        self.can_add(other)
    }

    open spec fn add_spec(self, other: Matrix4x2<S>) -> Matrix4x2<S> {
        self.plus(other)
    }
}

impl<'a, 'b, S: Scalar> core::ops::Add<&'b Matrix4x2<S>> for &'a Matrix4x2<S> {
    type Output = Matrix4x2<S>;

    fn add(self, other: &'b Matrix4x2<S>) -> (r: Matrix4x2<S>) {
        Matrix4x2 {
            c0: Vector4 {
                x: self.c0.x.add(other.c0.x),
                y: self.c0.y.add(other.c0.y),
                z: self.c0.z.add(other.c0.z),
                w: self.c0.w.add(other.c0.w),
            },
            c1: Vector4 {
                x: self.c1.x.add(other.c1.x),
                y: self.c1.y.add(other.c1.y),
                z: self.c1.z.add(other.c1.z),
                w: self.c1.w.add(other.c1.w),
            },
        }
    }
}

impl<'a, 'b, S: Scalar> vstd::std_specs::ops::AddSpecImpl<&'b Matrix4x2<S>> for &'a Matrix4x2<S> {
    open spec fn obeys_add_spec() -> bool {
        true
    }

    open spec fn add_req(self, other: &'b Matrix4x2<S>) -> bool {
        (*self).can_add(*other)
    }

    open spec fn add_spec(self, other: &'b Matrix4x2<S>) -> Matrix4x2<S> {
        (*self).plus(*other)
    }
}

impl<S: Scalar> core::ops::Sub<Matrix4x2<S>> for Matrix4x2<S> {
    type Output = Matrix4x2<S>;

    fn sub(self, other: Matrix4x2<S>) -> (r: Matrix4x2<S>) {
        Matrix4x2 {
            c0: Vector4 {
                x: self.c0.x.sub(other.c0.x),
                y: self.c0.y.sub(other.c0.y),
                z: self.c0.z.sub(other.c0.z),
                w: self.c0.w.sub(other.c0.w),
            },
            c1: Vector4 {
                x: self.c1.x.sub(other.c1.x),
                y: self.c1.y.sub(other.c1.y),
                z: self.c1.z.sub(other.c1.z),
                w: self.c1.w.sub(other.c1.w),
            },
        }
    }
}

impl<S: Scalar> vstd::std_specs::ops::SubSpecImpl<Matrix4x2<S>> for Matrix4x2<S> {
    open spec fn obeys_sub_spec() -> bool {
        true
    }

    open spec fn sub_req(self, other: Matrix4x2<S>) -> bool {
        self.can_sub(other)
    }

    open spec fn sub_spec(self, other: Matrix4x2<S>) -> Matrix4x2<S> {
        self.minus(other)
    }
}

impl<'a, 'b, S: Scalar> core::ops::Sub<&'b Matrix4x2<S>> for &'a Matrix4x2<S> {
    type Output = Matrix4x2<S>;

    fn sub(self, other: &'b Matrix4x2<S>) -> (r: Matrix4x2<S>) {
        Matrix4x2 {
            c0: Vector4 {
                x: self.c0.x.sub(other.c0.x),
                y: self.c0.y.sub(other.c0.y),
                z: self.c0.z.sub(other.c0.z),
                w: self.c0.w.sub(other.c0.w),
            },
            c1: Vector4 {
                x: self.c1.x.sub(other.c1.x),
                y: self.c1.y.sub(other.c1.y),
                z: self.c1.z.sub(other.c1.z),
                w: self.c1.w.sub(other.c1.w),
            },
        }
    }
}

impl<'a, 'b, S: Scalar> vstd::std_specs::ops::SubSpecImpl<&'b Matrix4x2<S>> for &'a Matrix4x2<S> {
    open spec fn obeys_sub_spec() -> bool {
        true
    }

    open spec fn sub_req(self, other: &'b Matrix4x2<S>) -> bool {
        (*self).can_sub(*other)
    }

    open spec fn sub_spec(self, other: &'b Matrix4x2<S>) -> Matrix4x2<S> {
        (*self).minus(*other)
    }
}

impl<S: Scalar> core::ops::Mul<S> for Matrix4x2<S> {
    type Output = Matrix4x2<S>;

    fn mul(self, other: S) -> (r: Matrix4x2<S>) {
        Matrix4x2 {
            c0: Vector4 {
                x: self.c0.x.mul(other),
                y: self.c0.y.mul(other),
                z: self.c0.z.mul(other),
                w: self.c0.w.mul(other),
            },
            c1: Vector4 {
                x: self.c1.x.mul(other),
                y: self.c1.y.mul(other),
                z: self.c1.z.mul(other),
                w: self.c1.w.mul(other),
            },
        }
    }
}

impl<S: Scalar> vstd::std_specs::ops::MulSpecImpl<S> for Matrix4x2<S> {
    open spec fn obeys_mul_spec() -> bool {
        true
    }

    open spec fn mul_req(self, other: S) -> bool {
        self.can_scale(other)
    }

    open spec fn mul_spec(self, other: S) -> Matrix4x2<S> {
        self.scaled(other)
    }
}

impl<'a, S: Scalar> core::ops::Mul<S> for &'a Matrix4x2<S> {
    type Output = Matrix4x2<S>;

    fn mul(self, other: S) -> (r: Matrix4x2<S>) {
        Matrix4x2 {
            c0: Vector4 {
                x: self.c0.x.mul(other),
                y: self.c0.y.mul(other),
                z: self.c0.z.mul(other),
                w: self.c0.w.mul(other),
            },
            c1: Vector4 {
                x: self.c1.x.mul(other),
                y: self.c1.y.mul(other),
                z: self.c1.z.mul(other),
                w: self.c1.w.mul(other),
            },
        }
    }
}

impl<'a, S: Scalar> vstd::std_specs::ops::MulSpecImpl<S> for &'a Matrix4x2<S> {
    open spec fn obeys_mul_spec() -> bool {
        true
    }

    open spec fn mul_req(self, other: S) -> bool {
        (*self).can_scale(other)
    }

    open spec fn mul_spec(self, other: S) -> Matrix4x2<S> {
        (*self).scaled(other)
    }
}

impl<S: Scalar> core::ops::Div<S> for Matrix4x2<S> {
    type Output = Matrix4x2<S>;

    fn div(self, other: S) -> (r: Matrix4x2<S>) {
        Matrix4x2 {
            c0: Vector4 {
                x: self.c0.x.div(other),
                y: self.c0.y.div(other),
                z: self.c0.z.div(other),
                w: self.c0.w.div(other),
            },
            c1: Vector4 {
                x: self.c1.x.div(other),
                y: self.c1.y.div(other),
                z: self.c1.z.div(other),
                w: self.c1.w.div(other),
            },
        }
    }
}

impl<S: Scalar> vstd::std_specs::ops::DivSpecImpl<S> for Matrix4x2<S> {
    open spec fn obeys_div_spec() -> bool {
        true
    }

    open spec fn div_req(self, other: S) -> bool {
        self.can_div(other)
    }

    open spec fn div_spec(self, other: S) -> Matrix4x2<S> {
        self.over(other)
    }
}

impl<'a, S: Scalar> core::ops::Div<S> for &'a Matrix4x2<S> {
    type Output = Matrix4x2<S>;

    fn div(self, other: S) -> (r: Matrix4x2<S>) {
        Matrix4x2 {
            c0: Vector4 {
                x: self.c0.x.div(other),
                y: self.c0.y.div(other),
                z: self.c0.z.div(other),
                w: self.c0.w.div(other),
            },
            c1: Vector4 {
                x: self.c1.x.div(other),
                y: self.c1.y.div(other),
                z: self.c1.z.div(other),
                w: self.c1.w.div(other),
            },
        }
    }
}

impl<'a, S: Scalar> vstd::std_specs::ops::DivSpecImpl<S> for &'a Matrix4x2<S> {
    open spec fn obeys_div_spec() -> bool {
        true
    }

    open spec fn div_req(self, other: S) -> bool {
        (*self).can_div(other)
    }

    open spec fn div_spec(self, other: S) -> Matrix4x2<S> {
        (*self).over(other)
    }
}

impl<S: Scalar> core::ops::Rem<S> for Matrix4x2<S> {
    type Output = Matrix4x2<S>;

    fn rem(self, other: S) -> (r: Matrix4x2<S>) {
        Matrix4x2 {
            c0: Vector4 {
                x: self.c0.x.rem(other),
                y: self.c0.y.rem(other),
                z: self.c0.z.rem(other),
                w: self.c0.w.rem(other),
            },
            c1: Vector4 {
                x: self.c1.x.rem(other),
                y: self.c1.y.rem(other),
                z: self.c1.z.rem(other),
                w: self.c1.w.rem(other),
            },
        }
    }
}

impl<S: Scalar> vstd::std_specs::ops::RemSpecImpl<S> for Matrix4x2<S> {
    open spec fn obeys_rem_spec() -> bool {
        true
    }

    open spec fn rem_req(self, other: S) -> bool {
        self.can_rem(other)
    }

    open spec fn rem_spec(self, other: S) -> Matrix4x2<S> {
        self.modulo(other)
    }
}

impl<'a, S: Scalar> core::ops::Rem<S> for &'a Matrix4x2<S> {
    type Output = Matrix4x2<S>;

    fn rem(self, other: S) -> (r: Matrix4x2<S>) {
        Matrix4x2 {
            c0: Vector4 {
                x: self.c0.x.rem(other),
                y: self.c0.y.rem(other),
                z: self.c0.z.rem(other),
                w: self.c0.w.rem(other),
            },
            c1: Vector4 {
                x: self.c1.x.rem(other),
                y: self.c1.y.rem(other),
                z: self.c1.z.rem(other),
                w: self.c1.w.rem(other),
            },
        }
    }
}

impl<'a, S: Scalar> vstd::std_specs::ops::RemSpecImpl<S> for &'a Matrix4x2<S> {
    open spec fn obeys_rem_spec() -> bool {
        true
    }

    open spec fn rem_req(self, other: S) -> bool {
        (*self).can_rem(other)
    }

    open spec fn rem_spec(self, other: S) -> Matrix4x2<S> {
        (*self).modulo(other)
    }
}

impl<S: Scalar> core::ops::Mul<Vector2<S>> for Matrix4x2<S> {
    type Output = Vector4<S>;

    fn mul(self, other: Vector2<S>) -> (r: Vector4<S>) {
        Vector4 {
            x: self.c0.x.mul(other.x).add(self.c1.x.mul(other.y)),
            y: self.c0.y.mul(other.x).add(self.c1.y.mul(other.y)),
            z: self.c0.z.mul(other.x).add(self.c1.z.mul(other.y)),
            w: self.c0.w.mul(other.x).add(self.c1.w.mul(other.y)),
        }
    }
}

impl<S: Scalar> vstd::std_specs::ops::MulSpecImpl<Vector2<S>> for Matrix4x2<S> {
    open spec fn obeys_mul_spec() -> bool {
        true
    }

    open spec fn mul_req(self, other: Vector2<S>) -> bool {
        self.can_mul_vector(other)
    }

    open spec fn mul_spec(self, other: Vector2<S>) -> Vector4<S> {
        self.times_vector(other)
    }
}

impl<'a, 'b, S: Scalar> core::ops::Mul<&'b Vector2<S>> for &'a Matrix4x2<S> {
    type Output = Vector4<S>;

    fn mul(self, other: &'b Vector2<S>) -> (r: Vector4<S>) {
        Vector4 {
            x: self.c0.x.mul(other.x).add(self.c1.x.mul(other.y)),
            y: self.c0.y.mul(other.x).add(self.c1.y.mul(other.y)),
            z: self.c0.z.mul(other.x).add(self.c1.z.mul(other.y)),
            w: self.c0.w.mul(other.x).add(self.c1.w.mul(other.y)),
        }
    }
}

impl<'a, 'b, S: Scalar> vstd::std_specs::ops::MulSpecImpl<&'b Vector2<S>> for &'a Matrix4x2<S> {
    open spec fn obeys_mul_spec() -> bool {
        true
    }

    open spec fn mul_req(self, other: &'b Vector2<S>) -> bool {
        (*self).can_mul_vector(*other)
    }

    open spec fn mul_spec(self, other: &'b Vector2<S>) -> Vector4<S> {
        (*self).times_vector(*other)
    }
}

impl<S: Scalar> core::ops::Mul<Matrix2x2<S>> for Matrix4x2<S> {
    type Output = Matrix4x2<S>;

    fn mul(self, other: Matrix2x2<S>) -> (r: Matrix4x2<S>) {
        Matrix4x2 {
            c0: Vector4 {
                x: self.c0.x.mul(other.c0.x).add(self.c1.x.mul(other.c0.y)),
                y: self.c0.y.mul(other.c0.x).add(self.c1.y.mul(other.c0.y)),
                z: self.c0.z.mul(other.c0.x).add(self.c1.z.mul(other.c0.y)),
                w: self.c0.w.mul(other.c0.x).add(self.c1.w.mul(other.c0.y)),
            },
            c1: Vector4 {
                x: self.c0.x.mul(other.c1.x).add(self.c1.x.mul(other.c1.y)),
                y: self.c0.y.mul(other.c1.x).add(self.c1.y.mul(other.c1.y)),
                z: self.c0.z.mul(other.c1.x).add(self.c1.z.mul(other.c1.y)),
                w: self.c0.w.mul(other.c1.x).add(self.c1.w.mul(other.c1.y)),
            },
        }
    }
}

impl<S: Scalar> vstd::std_specs::ops::MulSpecImpl<Matrix2x2<S>> for Matrix4x2<S> {
    open spec fn obeys_mul_spec() -> bool {
        true
    }

    open spec fn mul_req(self, other: Matrix2x2<S>) -> bool {
        self.can_mul_2x2(other)
    }

    open spec fn mul_spec(self, other: Matrix2x2<S>) -> Matrix4x2<S> {
        self.times_2x2(other)
    }
}

impl<'a, 'b, S: Scalar> core::ops::Mul<&'b Matrix2x2<S>> for &'a Matrix4x2<S> {
    type Output = Matrix4x2<S>;

    fn mul(self, other: &'b Matrix2x2<S>) -> (r: Matrix4x2<S>) {
        Matrix4x2 {
            c0: Vector4 {
                x: self.c0.x.mul(other.c0.x).add(self.c1.x.mul(other.c0.y)),
                y: self.c0.y.mul(other.c0.x).add(self.c1.y.mul(other.c0.y)),
                z: self.c0.z.mul(other.c0.x).add(self.c1.z.mul(other.c0.y)),
                w: self.c0.w.mul(other.c0.x).add(self.c1.w.mul(other.c0.y)),
            },
            c1: Vector4 {
                x: self.c0.x.mul(other.c1.x).add(self.c1.x.mul(other.c1.y)),
                y: self.c0.y.mul(other.c1.x).add(self.c1.y.mul(other.c1.y)),
                z: self.c0.z.mul(other.c1.x).add(self.c1.z.mul(other.c1.y)),
                w: self.c0.w.mul(other.c1.x).add(self.c1.w.mul(other.c1.y)),
            },
        }
    }
}

impl<'a, 'b, S: Scalar> vstd::std_specs::ops::MulSpecImpl<&'b Matrix2x2<S>> for &'a Matrix4x2<S> {
    open spec fn obeys_mul_spec() -> bool {
        true
    }

    open spec fn mul_req(self, other: &'b Matrix2x2<S>) -> bool {
        (*self).can_mul_2x2(*other)
    }

    open spec fn mul_spec(self, other: &'b Matrix2x2<S>) -> Matrix4x2<S> {
        (*self).times_2x2(*other)
    }
}

impl<S: Scalar> core::ops::Mul<Matrix2x3<S>> for Matrix4x2<S> {
    type Output = Matrix4x3<S>;

    fn mul(self, other: Matrix2x3<S>) -> (r: Matrix4x3<S>) {
        Matrix4x3 {
            c0: Vector4 {
                x: self.c0.x.mul(other.c0.x).add(self.c1.x.mul(other.c0.y)),
                y: self.c0.y.mul(other.c0.x).add(self.c1.y.mul(other.c0.y)),
                z: self.c0.z.mul(other.c0.x).add(self.c1.z.mul(other.c0.y)),
                w: self.c0.w.mul(other.c0.x).add(self.c1.w.mul(other.c0.y)),
            },
            c1: Vector4 {
                x: self.c0.x.mul(other.c1.x).add(self.c1.x.mul(other.c1.y)),
                y: self.c0.y.mul(other.c1.x).add(self.c1.y.mul(other.c1.y)),
                z: self.c0.z.mul(other.c1.x).add(self.c1.z.mul(other.c1.y)),
                w: self.c0.w.mul(other.c1.x).add(self.c1.w.mul(other.c1.y)),
            },
            c2: Vector4 {
                x: self.c0.x.mul(other.c2.x).add(self.c1.x.mul(other.c2.y)),
                y: self.c0.y.mul(other.c2.x).add(self.c1.y.mul(other.c2.y)),
                z: self.c0.z.mul(other.c2.x).add(self.c1.z.mul(other.c2.y)),
                w: self.c0.w.mul(other.c2.x).add(self.c1.w.mul(other.c2.y)),
            },
        }
    }
}

impl<S: Scalar> vstd::std_specs::ops::MulSpecImpl<Matrix2x3<S>> for Matrix4x2<S> {
    open spec fn obeys_mul_spec() -> bool {
        true
    }

    open spec fn mul_req(self, other: Matrix2x3<S>) -> bool {
        self.can_mul_2x3(other)
    }

    open spec fn mul_spec(self, other: Matrix2x3<S>) -> Matrix4x3<S> {
        self.times_2x3(other)
    }
}

impl<'a, 'b, S: Scalar> core::ops::Mul<&'b Matrix2x3<S>> for &'a Matrix4x2<S> {
    type Output = Matrix4x3<S>;

    fn mul(self, other: &'b Matrix2x3<S>) -> (r: Matrix4x3<S>) {
        Matrix4x3 {
            c0: Vector4 {
                x: self.c0.x.mul(other.c0.x).add(self.c1.x.mul(other.c0.y)),
                y: self.c0.y.mul(other.c0.x).add(self.c1.y.mul(other.c0.y)),
                z: self.c0.z.mul(other.c0.x).add(self.c1.z.mul(other.c0.y)),
                w: self.c0.w.mul(other.c0.x).add(self.c1.w.mul(other.c0.y)),
            },
            c1: Vector4 {
                x: self.c0.x.mul(other.c1.x).add(self.c1.x.mul(other.c1.y)),
                y: self.c0.y.mul(other.c1.x).add(self.c1.y.mul(other.c1.y)),
                z: self.c0.z.mul(other.c1.x).add(self.c1.z.mul(other.c1.y)),
                w: self.c0.w.mul(other.c1.x).add(self.c1.w.mul(other.c1.y)),
            },
            c2: Vector4 {
                x: self.c0.x.mul(other.c2.x).add(self.c1.x.mul(other.c2.y)),
                y: self.c0.y.mul(other.c2.x).add(self.c1.y.mul(other.c2.y)),
                z: self.c0.z.mul(other.c2.x).add(self.c1.z.mul(other.c2.y)),
                w: self.c0.w.mul(other.c2.x).add(self.c1.w.mul(other.c2.y)),
            },
        }
    }
}

impl<'a, 'b, S: Scalar> vstd::std_specs::ops::MulSpecImpl<&'b Matrix2x3<S>> for &'a Matrix4x2<S> {
    open spec fn obeys_mul_spec() -> bool {
        true
    }

    open spec fn mul_req(self, other: &'b Matrix2x3<S>) -> bool {
        (*self).can_mul_2x3(*other)
    }

    open spec fn mul_spec(self, other: &'b Matrix2x3<S>) -> Matrix4x3<S> {
        (*self).times_2x3(*other)
    }
}

impl<S: Scalar> core::ops::Mul<Matrix2x4<S>> for Matrix4x2<S> {
    type Output = Matrix4x4<S>;

    fn mul(self, other: Matrix2x4<S>) -> (r: Matrix4x4<S>) {
        Matrix4x4 {
            c0: Vector4 {
                x: self.c0.x.mul(other.c0.x).add(self.c1.x.mul(other.c0.y)),
                y: self.c0.y.mul(other.c0.x).add(self.c1.y.mul(other.c0.y)),
                z: self.c0.z.mul(other.c0.x).add(self.c1.z.mul(other.c0.y)),
                w: self.c0.w.mul(other.c0.x).add(self.c1.w.mul(other.c0.y)),
            },
            c1: Vector4 {
                x: self.c0.x.mul(other.c1.x).add(self.c1.x.mul(other.c1.y)),
                y: self.c0.y.mul(other.c1.x).add(self.c1.y.mul(other.c1.y)),
                z: self.c0.z.mul(other.c1.x).add(self.c1.z.mul(other.c1.y)),
                w: self.c0.w.mul(other.c1.x).add(self.c1.w.mul(other.c1.y)),
            },
            c2: Vector4 {
                x: self.c0.x.mul(other.c2.x).add(self.c1.x.mul(other.c2.y)),
                y: self.c0.y.mul(other.c2.x).add(self.c1.y.mul(other.c2.y)),
                z: self.c0.z.mul(other.c2.x).add(self.c1.z.mul(other.c2.y)),
                w: self.c0.w.mul(other.c2.x).add(self.c1.w.mul(other.c2.y)),
            },
            c3: Vector4 {
                x: self.c0.x.mul(other.c3.x).add(self.c1.x.mul(other.c3.y)),
                y: self.c0.y.mul(other.c3.x).add(self.c1.y.mul(other.c3.y)),
                z: self.c0.z.mul(other.c3.x).add(self.c1.z.mul(other.c3.y)),
                w: self.c0.w.mul(other.c3.x).add(self.c1.w.mul(other.c3.y)),
            },
        }
    }
}

impl<S: Scalar> vstd::std_specs::ops::MulSpecImpl<Matrix2x4<S>> for Matrix4x2<S> {
    open spec fn obeys_mul_spec() -> bool {
        true
    }

    open spec fn mul_req(self, other: Matrix2x4<S>) -> bool {
        self.can_mul_2x4(other)
    }

    open spec fn mul_spec(self, other: Matrix2x4<S>) -> Matrix4x4<S> {
        self.times_2x4(other)
    }
}

impl<'a, 'b, S: Scalar> core::ops::Mul<&'b Matrix2x4<S>> for &'a Matrix4x2<S> {
    type Output = Matrix4x4<S>;

    fn mul(self, other: &'b Matrix2x4<S>) -> (r: Matrix4x4<S>) {
        Matrix4x4 {
            c0: Vector4 {
                x: self.c0.x.mul(other.c0.x).add(self.c1.x.mul(other.c0.y)),
                y: self.c0.y.mul(other.c0.x).add(self.c1.y.mul(other.c0.y)),
                z: self.c0.z.mul(other.c0.x).add(self.c1.z.mul(other.c0.y)),
                w: self.c0.w.mul(other.c0.x).add(self.c1.w.mul(other.c0.y)),
            },
            c1: Vector4 {
                x: self.c0.x.mul(other.c1.x).add(self.c1.x.mul(other.c1.y)),
                y: self.c0.y.mul(other.c1.x).add(self.c1.y.mul(other.c1.y)),
                z: self.c0.z.mul(other.c1.x).add(self.c1.z.mul(other.c1.y)),
                w: self.c0.w.mul(other.c1.x).add(self.c1.w.mul(other.c1.y)),
            },
            c2: Vector4 {
                x: self.c0.x.mul(other.c2.x).add(self.c1.x.mul(other.c2.y)),
                y: self.c0.y.mul(other.c2.x).add(self.c1.y.mul(other.c2.y)),
                z: self.c0.z.mul(other.c2.x).add(self.c1.z.mul(other.c2.y)),
                w: self.c0.w.mul(other.c2.x).add(self.c1.w.mul(other.c2.y)),
            },
            c3: Vector4 {
                x: self.c0.x.mul(other.c3.x).add(self.c1.x.mul(other.c3.y)),
                y: self.c0.y.mul(other.c3.x).add(self.c1.y.mul(other.c3.y)),
                z: self.c0.z.mul(other.c3.x).add(self.c1.z.mul(other.c3.y)),
                w: self.c0.w.mul(other.c3.x).add(self.c1.w.mul(other.c3.y)),
            },
        }
    }
}

impl<'a, 'b, S: Scalar> vstd::std_specs::ops::MulSpecImpl<&'b Matrix2x4<S>> for &'a Matrix4x2<S> {
    open spec fn obeys_mul_spec() -> bool {
        true
    }

    open spec fn mul_req(self, other: &'b Matrix2x4<S>) -> bool {
        (*self).can_mul_2x4(*other)
    }

    open spec fn mul_spec(self, other: &'b Matrix2x4<S>) -> Matrix4x4<S> {
        (*self).times_2x4(*other)
    }
}

impl<S: ScalarSigned> core::ops::Neg for Matrix4x2<S> {
    type Output = Matrix4x2<S>;

    fn neg(self) -> (r: Matrix4x2<S>) {
        Matrix4x2 {
            c0: Vector4 {
                x: self.c0.x.neg(),
                y: self.c0.y.neg(),
                z: self.c0.z.neg(),
                w: self.c0.w.neg(),
            },
            c1: Vector4 {
                x: self.c1.x.neg(),
                y: self.c1.y.neg(),
                z: self.c1.z.neg(),
                w: self.c1.w.neg(),
            },
        }
    }
}

impl<S: ScalarSigned> vstd::std_specs::ops::NegSpecImpl for Matrix4x2<S> {
    open spec fn obeys_neg_spec() -> bool {
        true
    }

    open spec fn neg_req(self) -> bool {
        self.can_neg()
    }

    open spec fn neg_spec(self) -> Matrix4x2<S> {
        self.negated()
    }
}

impl<'a, S: ScalarSigned> core::ops::Neg for &'a Matrix4x2<S> {
    type Output = Matrix4x2<S>;

    fn neg(self) -> (r: Matrix4x2<S>) {
        Matrix4x2 {
            c0: Vector4 {
                x: self.c0.x.neg(),
                y: self.c0.y.neg(),
                z: self.c0.z.neg(),
                w: self.c0.w.neg(),
            },
            c1: Vector4 {
                x: self.c1.x.neg(),
                y: self.c1.y.neg(),
                z: self.c1.z.neg(),
                w: self.c1.w.neg(),
            },
        }
    }
}

impl<'a, S: ScalarSigned> vstd::std_specs::ops::NegSpecImpl for &'a Matrix4x2<S> {
    open spec fn obeys_neg_spec() -> bool {
        true
    }

    open spec fn neg_req(self) -> bool {
        (*self).can_neg()
    }

    open spec fn neg_spec(self) -> Matrix4x2<S> {
        (*self).negated()
    }
}

impl<S: Scalar> core::ops::Index<usize> for Matrix4x2<S> {
    type Output = Vector4<S>;

    fn index(&self, index: usize) -> (r: &Vector4<S>)
        ensures
            *r == self.column(index as int),
    {
        if index == 0 {
            &self.c0
        } else if index == 1 {
            &self.c1
        } else {
            vstd::pervasive::unreached()
        }
    }
}

impl<S: Scalar> vstd::std_specs::core::IndexSpecImpl<usize> for Matrix4x2<S> {
    open spec fn index_req(&self, index: &usize) -> bool {
        *index < 2
    }
}

} // verus!
