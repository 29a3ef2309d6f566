//! The product of an integer with a matrix, with the integer on the left:
//! each entry is the integer times the entry.

use vstd::prelude::*;
use crate::matrix1x2::Matrix1x2;
use crate::matrix1x3::Matrix1x3;
use crate::matrix1x4::Matrix1x4;
use crate::matrix2x2::Matrix2x2;
use crate::matrix2x3::Matrix2x3;
use crate::matrix2x4::Matrix2x4;
use crate::matrix3x2::Matrix3x2;
use crate::matrix3x3::Matrix3x3;
use crate::matrix3x4::Matrix3x4;
use crate::matrix4x2::Matrix4x2;
use crate::matrix4x3::Matrix4x3;
use crate::matrix4x4::Matrix4x4;

verus! {

impl core::ops::Mul<Matrix1x2<i8>> for i8 {
    type Output = Matrix1x2<i8>;

    fn mul(self, other: Matrix1x2<i8>) -> (r: Matrix1x2<i8>) {
        other.scale_left(self)
    }
}

impl vstd::std_specs::ops::MulSpecImpl<Matrix1x2<i8>> for i8 {
    open spec fn obeys_mul_spec() -> bool {
        true
    }

    open spec fn mul_req(self, other: Matrix1x2<i8>) -> bool {
        other.can_scale_left(self)
    }

    open spec fn mul_spec(self, other: Matrix1x2<i8>) -> Matrix1x2<i8> {
        other.scaled_left(self)
    }
}

impl core::ops::Mul<Matrix1x2<i16>> for i16 {
    type Output = Matrix1x2<i16>;

    fn mul(self, other: Matrix1x2<i16>) -> (r: Matrix1x2<i16>) {
        other.scale_left(self)
    }
}

impl vstd::std_specs::ops::MulSpecImpl<Matrix1x2<i16>> for i16 {
    open spec fn obeys_mul_spec() -> bool {
        true
    }

    open spec fn mul_req(self, other: Matrix1x2<i16>) -> bool {
        other.can_scale_left(self)
    }

    open spec fn mul_spec(self, other: Matrix1x2<i16>) -> Matrix1x2<i16> {
        other.scaled_left(self)
    }
}

impl core::ops::Mul<Matrix1x2<i32>> for i32 {
    type Output = Matrix1x2<i32>;

    fn mul(self, other: Matrix1x2<i32>) -> (r: Matrix1x2<i32>) {
        other.scale_left(self)
    }
}

impl vstd::std_specs::ops::MulSpecImpl<Matrix1x2<i32>> for i32 {
    open spec fn obeys_mul_spec() -> bool {
        true
    }

    open spec fn mul_req(self, other: Matrix1x2<i32>) -> bool {
        other.can_scale_left(self)
    }

    open spec fn mul_spec(self, other: Matrix1x2<i32>) -> Matrix1x2<i32> {
        other.scaled_left(self)
    }
}

impl core::ops::Mul<Matrix1x2<i64>> for i64 {
    type Output = Matrix1x2<i64>;

    fn mul(self, other: Matrix1x2<i64>) -> (r: Matrix1x2<i64>) {
        other.scale_left(self)
    }
}

impl vstd::std_specs::ops::MulSpecImpl<Matrix1x2<i64>> for i64 {
    open spec fn obeys_mul_spec() -> bool {
        true
    }

    open spec fn mul_req(self, other: Matrix1x2<i64>) -> bool {
        other.can_scale_left(self)
    }

    open spec fn mul_spec(self, other: Matrix1x2<i64>) -> Matrix1x2<i64> {
        other.scaled_left(self)
    }
}

impl core::ops::Mul<Matrix1x2<i128>> for i128 {
    type Output = Matrix1x2<i128>;

    fn mul(self, other: Matrix1x2<i128>) -> (r: Matrix1x2<i128>) {
        other.scale_left(self)
    }
}

impl vstd::std_specs::ops::MulSpecImpl<Matrix1x2<i128>> for i128 {
    open spec fn obeys_mul_spec() -> bool {
        true
    }

    open spec fn mul_req(self, other: Matrix1x2<i128>) -> bool {
        other.can_scale_left(self)
    }

    open spec fn mul_spec(self, other: Matrix1x2<i128>) -> Matrix1x2<i128> {
        other.scaled_left(self)
    }
}

impl core::ops::Mul<Matrix1x2<isize>> for isize {
    type Output = Matrix1x2<isize>;

    fn mul(self, other: Matrix1x2<isize>) -> (r: Matrix1x2<isize>) {
        other.scale_left(self)
    }
}

impl vstd::std_specs::ops::MulSpecImpl<Matrix1x2<isize>> for isize {
    open spec fn obeys_mul_spec() -> bool {
        true
    }

    open spec fn mul_req(self, other: Matrix1x2<isize>) -> bool {
        other.can_scale_left(self)
    }

    open spec fn mul_spec(self, other: Matrix1x2<isize>) -> Matrix1x2<isize> {
        other.scaled_left(self)
    }
}

impl core::ops::Mul<Matrix1x2<u8>> for u8 {
    type Output = Matrix1x2<u8>;

    fn mul(self, other: Matrix1x2<u8>) -> (r: Matrix1x2<u8>) {
        other.scale_left(self)
    }
}

impl vstd::std_specs::ops::MulSpecImpl<Matrix1x2<u8>> for u8 {
    open spec fn obeys_mul_spec() -> bool {
        true
    }

    open spec fn mul_req(self, other: Matrix1x2<u8>) -> bool {
        other.can_scale_left(self)
    }

    open spec fn mul_spec(self, other: Matrix1x2<u8>) -> Matrix1x2<u8> {
        other.scaled_left(self)
    }
}

impl core::ops::Mul<Matrix1x2<u16>> for u16 {
    type Output = Matrix1x2<u16>;

    fn mul(self, other: Matrix1x2<u16>) -> (r: Matrix1x2<u16>) {
        other.scale_left(self)
    }
}

impl vstd::std_specs::ops::MulSpecImpl<Matrix1x2<u16>> for u16 {
    open spec fn obeys_mul_spec() -> bool {
        true
    }

    open spec fn mul_req(self, other: Matrix1x2<u16>) -> bool {
        other.can_scale_left(self)
    }

    open spec fn mul_spec(self, other: Matrix1x2<u16>) -> Matrix1x2<u16> {
        other.scaled_left(self)
    }
}

impl core::ops::Mul<Matrix1x2<u32>> for u32 {
    type Output = Matrix1x2<u32>;

    fn mul(self, other: Matrix1x2<u32>) -> (r: Matrix1x2<u32>) {
        other.scale_left(self)
    }
}

impl vstd::std_specs::ops::MulSpecImpl<Matrix1x2<u32>> for u32 {
    open spec fn obeys_mul_spec() -> bool {
        true
    }

    open spec fn mul_req(self, other: Matrix1x2<u32>) -> bool {
        other.can_scale_left(self)
    }

    open spec fn mul_spec(self, other: Matrix1x2<u32>) -> Matrix1x2<u32> {
        other.scaled_left(self)
    }
}

impl core::ops::Mul<Matrix1x2<u64>> for u64 {
    type Output = Matrix1x2<u64>;

    fn mul(self, other: Matrix1x2<u64>) -> (r: Matrix1x2<u64>) {
        other.scale_left(self)
    }
}

impl vstd::std_specs::ops::MulSpecImpl<Matrix1x2<u64>> for u64 {
    open spec fn obeys_mul_spec() -> bool {
        true
    }

    open spec fn mul_req(self, other: Matrix1x2<u64>) -> bool {
        other.can_scale_left(self)
    }

    open spec fn mul_spec(self, other: Matrix1x2<u64>) -> Matrix1x2<u64> {
        other.scaled_left(self)
    }
}

impl core::ops::Mul<Matrix1x2<u128>> for u128 {
    type Output = Matrix1x2<u128>;

    fn mul(self, other: Matrix1x2<u128>) -> (r: Matrix1x2<u128>) {
        other.scale_left(self)
    }
}

impl vstd::std_specs::ops::MulSpecImpl<Matrix1x2<u128>> for u128 {
    open spec fn obeys_mul_spec() -> bool {
        true
    }

    open spec fn mul_req(self, other: Matrix1x2<u128>) -> bool {
        other.can_scale_left(self)
    }

    open spec fn mul_spec(self, other: Matrix1x2<u128>) -> Matrix1x2<u128> {
        other.scaled_left(self)
    }
}

impl core::ops::Mul<Matrix1x2<usize>> for usize {
    type Output = Matrix1x2<usize>;

    fn mul(self, other: Matrix1x2<usize>) -> (r: Matrix1x2<usize>) {
        other.scale_left(self)
    }
}

impl vstd::std_specs::ops::MulSpecImpl<Matrix1x2<usize>> for usize {
    open spec fn obeys_mul_spec() -> bool {
        true
    }

    open spec fn mul_req(self, other: Matrix1x2<usize>) -> bool {
        other.can_scale_left(self)
    }

    open spec fn mul_spec(self, other: Matrix1x2<usize>) -> Matrix1x2<usize> {
        other.scaled_left(self)
    }
}

impl core::ops::Mul<Matrix1x3<i8>> for i8 {
    type Output = Matrix1x3<i8>;

    fn mul(self, other: Matrix1x3<i8>) -> (r: Matrix1x3<i8>) {
        other.scale_left(self)
    }
}

impl vstd::std_specs::ops::MulSpecImpl<Matrix1x3<i8>> for i8 {
    open spec fn obeys_mul_spec() -> bool {
        true
    }

    open spec fn mul_req(self, other: Matrix1x3<i8>) -> bool {
        other.can_scale_left(self)
    }

    open spec fn mul_spec(self, other: Matrix1x3<i8>) -> Matrix1x3<i8> {
        other.scaled_left(self)
    }
}

impl core::ops::Mul<Matrix1x3<i16>> for i16 {
    type Output = Matrix1x3<i16>;

    fn mul(self, other: Matrix1x3<i16>) -> (r: Matrix1x3<i16>) {
        other.scale_left(self)
    }
}

impl vstd::std_specs::ops::MulSpecImpl<Matrix1x3<i16>> for i16 {
    open spec fn obeys_mul_spec() -> bool {
        true
    }

    open spec fn mul_req(self, other: Matrix1x3<i16>) -> bool {
        other.can_scale_left(self)
    }

    open spec fn mul_spec(self, other: Matrix1x3<i16>) -> Matrix1x3<i16> {
        other.scaled_left(self)
    }
}

impl core::ops::Mul<Matrix1x3<i32>> for i32 {
    type Output = Matrix1x3<i32>;

    fn mul(self, other: Matrix1x3<i32>) -> (r: Matrix1x3<i32>) {
        other.scale_left(self)
    }
}

impl vstd::std_specs::ops::MulSpecImpl<Matrix1x3<i32>> for i32 {
    open spec fn obeys_mul_spec() -> bool {
        true
    }

    open spec fn mul_req(self, other: Matrix1x3<i32>) -> bool {
        other.can_scale_left(self)
    }

    open spec fn mul_spec(self, other: Matrix1x3<i32>) -> Matrix1x3<i32> {
        other.scaled_left(self)
    }
}

impl core::ops::Mul<Matrix1x3<i64>> for i64 {
    type Output = Matrix1x3<i64>;

    fn mul(self, other: Matrix1x3<i64>) -> (r: Matrix1x3<i64>) {
        other.scale_left(self)
    }
}

impl vstd::std_specs::ops::MulSpecImpl<Matrix1x3<i64>> for i64 {
    open spec fn obeys_mul_spec() -> bool {
        true
    }

    open spec fn mul_req(self, other: Matrix1x3<i64>) -> bool {
        other.can_scale_left(self)
    }

    open spec fn mul_spec(self, other: Matrix1x3<i64>) -> Matrix1x3<i64> {
        other.scaled_left(self)
    }
}

impl core::ops::Mul<Matrix1x3<i128>> for i128 {
    type Output = Matrix1x3<i128>;

    fn mul(self, other: Matrix1x3<i128>) -> (r: Matrix1x3<i128>) {
        other.scale_left(self)
    }
}

impl vstd::std_specs::ops::MulSpecImpl<Matrix1x3<i128>> for i128 {
    open spec fn obeys_mul_spec() -> bool {
        true
    }

    open spec fn mul_req(self, other: Matrix1x3<i128>) -> bool {
        other.can_scale_left(self)
    }

    open spec fn mul_spec(self, other: Matrix1x3<i128>) -> Matrix1x3<i128> {
        other.scaled_left(self)
    }
}

impl core::ops::Mul<Matrix1x3<isize>> for isize {
    type Output = Matrix1x3<isize>;

    fn mul(self, other: Matrix1x3<isize>) -> (r: Matrix1x3<isize>) {
        other.scale_left(self)
    }
}

impl vstd::std_specs::ops::MulSpecImpl<Matrix1x3<isize>> for isize {
    open spec fn obeys_mul_spec() -> bool {
        true
    }

    open spec fn mul_req(self, other: Matrix1x3<isize>) -> bool {
        other.can_scale_left(self)
    }

    open spec fn mul_spec(self, other: Matrix1x3<isize>) -> Matrix1x3<isize> {
        other.scaled_left(self)
    }
}

impl core::ops::Mul<Matrix1x3<u8>> for u8 {
    type Output = Matrix1x3<u8>;

    fn mul(self, other: Matrix1x3<u8>) -> (r: Matrix1x3<u8>) {
        other.scale_left(self)
    }
}

impl vstd::std_specs::ops::MulSpecImpl<Matrix1x3<u8>> for u8 {
    open spec fn obeys_mul_spec() -> bool {
        true
    }

    open spec fn mul_req(self, other: Matrix1x3<u8>) -> bool {
        other.can_scale_left(self)
    }

    open spec fn mul_spec(self, other: Matrix1x3<u8>) -> Matrix1x3<u8> {
        other.scaled_left(self)
    }
}

impl core::ops::Mul<Matrix1x3<u16>> for u16 {
    type Output = Matrix1x3<u16>;

    fn mul(self, other: Matrix1x3<u16>) -> (r: Matrix1x3<u16>) {
        other.scale_left(self)
    }
}

impl vstd::std_specs::ops::MulSpecImpl<Matrix1x3<u16>> for u16 {
    open spec fn obeys_mul_spec() -> bool {
        true
    }

    open spec fn mul_req(self, other: Matrix1x3<u16>) -> bool {
        other.can_scale_left(self)
    }

    open spec fn mul_spec(self, other: Matrix1x3<u16>) -> Matrix1x3<u16> {
        other.scaled_left(self)
    }
}

impl core::ops::Mul<Matrix1x3<u32>> for u32 {
    type Output = Matrix1x3<u32>;

    fn mul(self, other: Matrix1x3<u32>) -> (r: Matrix1x3<u32>) {
        other.scale_left(self)
    }
}

impl vstd::std_specs::ops::MulSpecImpl<Matrix1x3<u32>> for u32 {
    open spec fn obeys_mul_spec() -> bool {
        true
    }

    open spec fn mul_req(self, other: Matrix1x3<u32>) -> bool {
        other.can_scale_left(self)
    }

    open spec fn mul_spec(self, other: Matrix1x3<u32>) -> Matrix1x3<u32> {
        other.scaled_left(self)
    }
}

impl core::ops::Mul<Matrix1x3<u64>> for u64 {
    type Output = Matrix1x3<u64>;

    fn mul(self, other: Matrix1x3<u64>) -> (r: Matrix1x3<u64>) {
        other.scale_left(self)
    }
}

impl vstd::std_specs::ops::MulSpecImpl<Matrix1x3<u64>> for u64 {
    open spec fn obeys_mul_spec() -> bool {
        true
    }

    open spec fn mul_req(self, other: Matrix1x3<u64>) -> bool {
        other.can_scale_left(self)
    }

    open spec fn mul_spec(self, other: Matrix1x3<u64>) -> Matrix1x3<u64> {
        other.scaled_left(self)
    }
}

impl core::ops::Mul<Matrix1x3<u128>> for u128 {
    type Output = Matrix1x3<u128>;

    fn mul(self, other: Matrix1x3<u128>) -> (r: Matrix1x3<u128>) {
        other.scale_left(self)
    }
}

impl vstd::std_specs::ops::MulSpecImpl<Matrix1x3<u128>> for u128 {
    open spec fn obeys_mul_spec() -> bool {
        true
    }

    open spec fn mul_req(self, other: Matrix1x3<u128>) -> bool {
        other.can_scale_left(self)
    }

    open spec fn mul_spec(self, other: Matrix1x3<u128>) -> Matrix1x3<u128> {
        other.scaled_left(self)
    }
}

impl core::ops::Mul<Matrix1x3<usize>> for usize {
    type Output = Matrix1x3<usize>;

    fn mul(self, other: Matrix1x3<usize>) -> (r: Matrix1x3<usize>) {
        other.scale_left(self)
    }
}

impl vstd::std_specs::ops::MulSpecImpl<Matrix1x3<usize>> for usize {
    open spec fn obeys_mul_spec() -> bool {
        true
    }

    open spec fn mul_req(self, other: Matrix1x3<usize>) -> bool {
        other.can_scale_left(self)
    }

    open spec fn mul_spec(self, other: Matrix1x3<usize>) -> Matrix1x3<usize> {
        other.scaled_left(self)
    }
}

impl core::ops::Mul<Matrix1x4<i8>> for i8 {
    type Output = Matrix1x4<i8>;

    fn mul(self, other: Matrix1x4<i8>) -> (r: Matrix1x4<i8>) {
        other.scale_left(self)
    }
}

impl vstd::std_specs::ops::MulSpecImpl<Matrix1x4<i8>> for i8 {
    open spec fn obeys_mul_spec() -> bool {
        true
    }

    open spec fn mul_req(self, other: Matrix1x4<i8>) -> bool {
        other.can_scale_left(self)
    }

    open spec fn mul_spec(self, other: Matrix1x4<i8>) -> Matrix1x4<i8> {
        other.scaled_left(self)
    }
}

impl core::ops::Mul<Matrix1x4<i16>> for i16 {
    type Output = Matrix1x4<i16>;

    fn mul(self, other: Matrix1x4<i16>) -> (r: Matrix1x4<i16>) {
        other.scale_left(self)
    }
}

impl vstd::std_specs::ops::MulSpecImpl<Matrix1x4<i16>> for i16 {
    open spec fn obeys_mul_spec() -> bool {
        true
    }

    open spec fn mul_req(self, other: Matrix1x4<i16>) -> bool {
        other.can_scale_left(self)
    }

    open spec fn mul_spec(self, other: Matrix1x4<i16>) -> Matrix1x4<i16> {
        other.scaled_left(self)
    }
}

impl core::ops::Mul<Matrix1x4<i32>> for i32 {
    type Output = Matrix1x4<i32>;

    fn mul(self, other: Matrix1x4<i32>) -> (r: Matrix1x4<i32>) {
        other.scale_left(self)
    }
}

impl vstd::std_specs::ops::MulSpecImpl<Matrix1x4<i32>> for i32 {
    open spec fn obeys_mul_spec() -> bool {
        true
    }

    open spec fn mul_req(self, other: Matrix1x4<i32>) -> bool {
        other.can_scale_left(self)
    }

    open spec fn mul_spec(self, other: Matrix1x4<i32>) -> Matrix1x4<i32> {
        other.scaled_left(self)
    }
}

impl core::ops::Mul<Matrix1x4<i64>> for i64 {
    type Output = Matrix1x4<i64>;

    fn mul(self, other: Matrix1x4<i64>) -> (r: Matrix1x4<i64>) {
        other.scale_left(self)
    }
}

impl vstd::std_specs::ops::MulSpecImpl<Matrix1x4<i64>> for i64 {
    open spec fn obeys_mul_spec() -> bool {
        true
    }

    open spec fn mul_req(self, other: Matrix1x4<i64>) -> bool {
        other.can_scale_left(self)
    }

    open spec fn mul_spec(self, other: Matrix1x4<i64>) -> Matrix1x4<i64> {
        other.scaled_left(self)
    }
}

impl core::ops::Mul<Matrix1x4<i128>> for i128 {
    type Output = Matrix1x4<i128>;

    fn mul(self, other: Matrix1x4<i128>) -> (r: Matrix1x4<i128>) {
        other.scale_left(self)
    }
}

impl vstd::std_specs::ops::MulSpecImpl<Matrix1x4<i128>> for i128 {
    open spec fn obeys_mul_spec() -> bool {
        true
    }

    open spec fn mul_req(self, other: Matrix1x4<i128>) -> bool {
        other.can_scale_left(self)
    }

    open spec fn mul_spec(self, other: Matrix1x4<i128>) -> Matrix1x4<i128> {
        other.scaled_left(self)
    }
}

impl core::ops::Mul<Matrix1x4<isize>> for isize {
    type Output = Matrix1x4<isize>;

    fn mul(self, other: Matrix1x4<isize>) -> (r: Matrix1x4<isize>) {
        other.scale_left(self)
    }
}

impl vstd::std_specs::ops::MulSpecImpl<Matrix1x4<isize>> for isize {
    open spec fn obeys_mul_spec() -> bool {
        true
    }

    open spec fn mul_req(self, other: Matrix1x4<isize>) -> bool {
        other.can_scale_left(self)
    }

    open spec fn mul_spec(self, other: Matrix1x4<isize>) -> Matrix1x4<isize> {
        other.scaled_left(self)
    }
}

impl core::ops::Mul<Matrix1x4<u8>> for u8 {
    type Output = Matrix1x4<u8>;

    fn mul(self, other: Matrix1x4<u8>) -> (r: Matrix1x4<u8>) {
        other.scale_left(self)
    }
}

impl vstd::std_specs::ops::MulSpecImpl<Matrix1x4<u8>> for u8 {
    open spec fn obeys_mul_spec() -> bool {
        true
    }

    open spec fn mul_req(self, other: Matrix1x4<u8>) -> bool {
        other.can_scale_left(self)
    }

    open spec fn mul_spec(self, other: Matrix1x4<u8>) -> Matrix1x4<u8> {
        other.scaled_left(self)
    }
}

impl core::ops::Mul<Matrix1x4<u16>> for u16 {
    type Output = Matrix1x4<u16>;

    fn mul(self, other: Matrix1x4<u16>) -> (r: Matrix1x4<u16>) {
        other.scale_left(self)
    }
}

impl vstd::std_specs::ops::MulSpecImpl<Matrix1x4<u16>> for u16 {
    open spec fn obeys_mul_spec() -> bool {
        true
    }

    open spec fn mul_req(self, other: Matrix1x4<u16>) -> bool {
        other.can_scale_left(self)
    }

    open spec fn mul_spec(self, other: Matrix1x4<u16>) -> Matrix1x4<u16> {
        other.scaled_left(self)
    }
}

impl core::ops::Mul<Matrix1x4<u32>> for u32 {
    type Output = Matrix1x4<u32>;

    fn mul(self, other: Matrix1x4<u32>) -> (r: Matrix1x4<u32>) {
        other.scale_left(self)
    }
}

impl vstd::std_specs::ops::MulSpecImpl<Matrix1x4<u32>> for u32 {
    open spec fn obeys_mul_spec() -> bool {
        true
    }

    open spec fn mul_req(self, other: Matrix1x4<u32>) -> bool {
        other.can_scale_left(self)
    }

    open spec fn mul_spec(self, other: Matrix1x4<u32>) -> Matrix1x4<u32> {
        other.scaled_left(self)
    }
}

impl core::ops::Mul<Matrix1x4<u64>> for u64 {
    type Output = Matrix1x4<u64>;

    fn mul(self, other: Matrix1x4<u64>) -> (r: Matrix1x4<u64>) {
        other.scale_left(self)
    }
}

impl vstd::std_specs::ops::MulSpecImpl<Matrix1x4<u64>> for u64 {
    open spec fn obeys_mul_spec() -> bool {
        true
    }

    open spec fn mul_req(self, other: Matrix1x4<u64>) -> bool {
        other.can_scale_left(self)
    }

    open spec fn mul_spec(self, other: Matrix1x4<u64>) -> Matrix1x4<u64> {
        other.scaled_left(self)
    }
}

impl core::ops::Mul<Matrix1x4<u128>> for u128 {
    type Output = Matrix1x4<u128>;

    fn mul(self, other: Matrix1x4<u128>) -> (r: Matrix1x4<u128>) {
        other.scale_left(self)
    }
}

impl vstd::std_specs::ops::MulSpecImpl<Matrix1x4<u128>> for u128 {
    open spec fn obeys_mul_spec() -> bool {
        true
    }

    open spec fn mul_req(self, other: Matrix1x4<u128>) -> bool {
        other.can_scale_left(self)
    }

    open spec fn mul_spec(self, other: Matrix1x4<u128>) -> Matrix1x4<u128> {
        other.scaled_left(self)
    }
}

impl core::ops::Mul<Matrix1x4<usize>> for usize {
    type Output = Matrix1x4<usize>;

    fn mul(self, other: Matrix1x4<usize>) -> (r: Matrix1x4<usize>) {
        other.scale_left(self)
    }
}

impl vstd::std_specs::ops::MulSpecImpl<Matrix1x4<usize>> for usize {
    open spec fn obeys_mul_spec() -> bool {
        true
    }

    open spec fn mul_req(self, other: Matrix1x4<usize>) -> bool {
        other.can_scale_left(self)
    }

    open spec fn mul_spec(self, other: Matrix1x4<usize>) -> Matrix1x4<usize> {
        other.scaled_left(self)
    }
}

impl core::ops::Mul<Matrix2x2<i8>> for i8 {
    type Output = Matrix2x2<i8>;

    fn mul(self, other: Matrix2x2<i8>) -> (r: Matrix2x2<i8>) {
        other.scale_left(self)
    }
}

impl vstd::std_specs::ops::MulSpecImpl<Matrix2x2<i8>> for i8 {
    open spec fn obeys_mul_spec() -> bool {
        true
    }

    open spec fn mul_req(self, other: Matrix2x2<i8>) -> bool {
        other.can_scale_left(self)
    }

    open spec fn mul_spec(self, other: Matrix2x2<i8>) -> Matrix2x2<i8> {
        other.scaled_left(self)
    }
}

impl core::ops::Mul<Matrix2x2<i16>> for i16 {
    type Output = Matrix2x2<i16>;

    fn mul(self, other: Matrix2x2<i16>) -> (r: Matrix2x2<i16>) {
        other.scale_left(self)
    }
}

impl vstd::std_specs::ops::MulSpecImpl<Matrix2x2<i16>> for i16 {
    open spec fn obeys_mul_spec() -> bool {
        true
    }

    open spec fn mul_req(self, other: Matrix2x2<i16>) -> bool {
        other.can_scale_left(self)
    }

    open spec fn mul_spec(self, other: Matrix2x2<i16>) -> Matrix2x2<i16> {
        other.scaled_left(self)
    }
}

impl core::ops::Mul<Matrix2x2<i32>> for i32 {
    type Output = Matrix2x2<i32>;

    fn mul(self, other: Matrix2x2<i32>) -> (r: Matrix2x2<i32>) {
        other.scale_left(self)
    }
}

impl vstd::std_specs::ops::MulSpecImpl<Matrix2x2<i32>> for i32 {
    open spec fn obeys_mul_spec() -> bool {
        true
    }

    open spec fn mul_req(self, other: Matrix2x2<i32>) -> bool {
        other.can_scale_left(self)
    }

    open spec fn mul_spec(self, other: Matrix2x2<i32>) -> Matrix2x2<i32> {
        other.scaled_left(self)
    }
}

impl core::ops::Mul<Matrix2x2<i64>> for i64 {
    type Output = Matrix2x2<i64>;

    fn mul(self, other: Matrix2x2<i64>) -> (r: Matrix2x2<i64>) {
        other.scale_left(self)
    }
}

impl vstd::std_specs::ops::MulSpecImpl<Matrix2x2<i64>> for i64 {
    open spec fn obeys_mul_spec() -> bool {
        true
    }

    open spec fn mul_req(self, other: Matrix2x2<i64>) -> bool {
        other.can_scale_left(self)
    }

    open spec fn mul_spec(self, other: Matrix2x2<i64>) -> Matrix2x2<i64> {
        other.scaled_left(self)
    }
}

impl core::ops::Mul<Matrix2x2<i128>> for i128 {
    type Output = Matrix2x2<i128>;

    fn mul(self, other: Matrix2x2<i128>) -> (r: Matrix2x2<i128>) {
        other.scale_left(self)
    }
}

impl vstd::std_specs::ops::MulSpecImpl<Matrix2x2<i128>> for i128 {
    open spec fn obeys_mul_spec() -> bool {
        true
    }

    open spec fn mul_req(self, other: Matrix2x2<i128>) -> bool {
        other.can_scale_left(self)
    }

    open spec fn mul_spec(self, other: Matrix2x2<i128>) -> Matrix2x2<i128> {
        other.scaled_left(self)
    }
}

impl core::ops::Mul<Matrix2x2<isize>> for isize {
    type Output = Matrix2x2<isize>;

    fn mul(self, other: Matrix2x2<isize>) -> (r: Matrix2x2<isize>) {
        other.scale_left(self)
    }
}

impl vstd::std_specs::ops::MulSpecImpl<Matrix2x2<isize>> for isize {
    open spec fn obeys_mul_spec() -> bool {
        true
    }

    open spec fn mul_req(self, other: Matrix2x2<isize>) -> bool {
        other.can_scale_left(self)
    }

    open spec fn mul_spec(self, other: Matrix2x2<isize>) -> Matrix2x2<isize> {
        other.scaled_left(self)
    }
}

impl core::ops::Mul<Matrix2x2<u8>> for u8 {
    type Output = Matrix2x2<u8>;

    fn mul(self, other: Matrix2x2<u8>) -> (r: Matrix2x2<u8>) {
        other.scale_left(self)
    }
}

impl vstd::std_specs::ops::MulSpecImpl<Matrix2x2<u8>> for u8 {
    open spec fn obeys_mul_spec() -> bool {
        true
    }

    open spec fn mul_req(self, other: Matrix2x2<u8>) -> bool {
        other.can_scale_left(self)
    }

    open spec fn mul_spec(self, other: Matrix2x2<u8>) -> Matrix2x2<u8> {
        other.scaled_left(self)
    }
}

impl core::ops::Mul<Matrix2x2<u16>> for u16 {
    type Output = Matrix2x2<u16>;

    fn mul(self, other: Matrix2x2<u16>) -> (r: Matrix2x2<u16>) {
        other.scale_left(self)
    }
}

impl vstd::std_specs::ops::MulSpecImpl<Matrix2x2<u16>> for u16 {
    open spec fn obeys_mul_spec() -> bool {
        true
    }

    open spec fn mul_req(self, other: Matrix2x2<u16>) -> bool {
        other.can_scale_left(self)
    }

    open spec fn mul_spec(self, other: Matrix2x2<u16>) -> Matrix2x2<u16> {
        other.scaled_left(self)
    }
}

impl core::ops::Mul<Matrix2x2<u32>> for u32 {
    type Output = Matrix2x2<u32>;

    fn mul(self, other: Matrix2x2<u32>) -> (r: Matrix2x2<u32>) {
        other.scale_left(self)
    }
}

impl vstd::std_specs::ops::MulSpecImpl<Matrix2x2<u32>> for u32 {
    open spec fn obeys_mul_spec() -> bool {
        true
    }

    open spec fn mul_req(self, other: Matrix2x2<u32>) -> bool {
        other.can_scale_left(self)
    }

    open spec fn mul_spec(self, other: Matrix2x2<u32>) -> Matrix2x2<u32> {
        other.scaled_left(self)
    }
}

impl core::ops::Mul<Matrix2x2<u64>> for u64 {
    type Output = Matrix2x2<u64>;

    fn mul(self, other: Matrix2x2<u64>) -> (r: Matrix2x2<u64>) {
        other.scale_left(self)
    }
}

impl vstd::std_specs::ops::MulSpecImpl<Matrix2x2<u64>> for u64 {
    open spec fn obeys_mul_spec() -> bool {
        true
    }

    open spec fn mul_req(self, other: Matrix2x2<u64>) -> bool {
        other.can_scale_left(self)
    }

    open spec fn mul_spec(self, other: Matrix2x2<u64>) -> Matrix2x2<u64> {
        other.scaled_left(self)
    }
}

impl core::ops::Mul<Matrix2x2<u128>> for u128 {
    type Output = Matrix2x2<u128>;

    fn mul(self, other: Matrix2x2<u128>) -> (r: Matrix2x2<u128>) {
        other.scale_left(self)
    }
}

impl vstd::std_specs::ops::MulSpecImpl<Matrix2x2<u128>> for u128 {
    open spec fn obeys_mul_spec() -> bool {
        true
    }

    open spec fn mul_req(self, other: Matrix2x2<u128>) -> bool {
        other.can_scale_left(self)
    }

    open spec fn mul_spec(self, other: Matrix2x2<u128>) -> Matrix2x2<u128> {
        other.scaled_left(self)
    }
}

impl core::ops::Mul<Matrix2x2<usize>> for usize {
    type Output = Matrix2x2<usize>;

    fn mul(self, other: Matrix2x2<usize>) -> (r: Matrix2x2<usize>) {
        other.scale_left(self)
    }
}

impl vstd::std_specs::ops::MulSpecImpl<Matrix2x2<usize>> for usize {
    open spec fn obeys_mul_spec() -> bool {
        true
    }

    open spec fn mul_req(self, other: Matrix2x2<usize>) -> bool {
        other.can_scale_left(self)
    }

    open spec fn mul_spec(self, other: Matrix2x2<usize>) -> Matrix2x2<usize> {
        other.scaled_left(self)
    }
}

impl core::ops::Mul<Matrix2x3<i8>> for i8 {
    type Output = Matrix2x3<i8>;

    fn mul(self, other: Matrix2x3<i8>) -> (r: Matrix2x3<i8>) {
        other.scale_left(self)
    }
}

impl vstd::std_specs::ops::MulSpecImpl<Matrix2x3<i8>> for i8 {
    open spec fn obeys_mul_spec() -> bool {
        true
    }

    open spec fn mul_req(self, other: Matrix2x3<i8>) -> bool {
        other.can_scale_left(self)
    }

    open spec fn mul_spec(self, other: Matrix2x3<i8>) -> Matrix2x3<i8> {
        other.scaled_left(self)
    }
}

impl core::ops::Mul<Matrix2x3<i16>> for i16 {
    type Output = Matrix2x3<i16>;

    fn mul(self, other: Matrix2x3<i16>) -> (r: Matrix2x3<i16>) {
        other.scale_left(self)
    }
}

impl vstd::std_specs::ops::MulSpecImpl<Matrix2x3<i16>> for i16 {
    open spec fn obeys_mul_spec() -> bool {
        true
    }

    open spec fn mul_req(self, other: Matrix2x3<i16>) -> bool {
        other.can_scale_left(self)
    }

    open spec fn mul_spec(self, other: Matrix2x3<i16>) -> Matrix2x3<i16> {
        other.scaled_left(self)
    }
}

impl core::ops::Mul<Matrix2x3<i32>> for i32 {
    type Output = Matrix2x3<i32>;

    fn mul(self, other: Matrix2x3<i32>) -> (r: Matrix2x3<i32>) {
        other.scale_left(self)
    }
}

impl vstd::std_specs::ops::MulSpecImpl<Matrix2x3<i32>> for i32 {
    open spec fn obeys_mul_spec() -> bool {
        true
    }

    open spec fn mul_req(self, other: Matrix2x3<i32>) -> bool {
        other.can_scale_left(self)
    }

    open spec fn mul_spec(self, other: Matrix2x3<i32>) -> Matrix2x3<i32> {
        other.scaled_left(self)
    }
}

impl core::ops::Mul<Matrix2x3<i64>> for i64 {
    type Output = Matrix2x3<i64>;

    fn mul(self, other: Matrix2x3<i64>) -> (r: Matrix2x3<i64>) {
        other.scale_left(self)
    }
}

impl vstd::std_specs::ops::MulSpecImpl<Matrix2x3<i64>> for i64 {
    open spec fn obeys_mul_spec() -> bool {
        true
    }

    open spec fn mul_req(self, other: Matrix2x3<i64>) -> bool {
        other.can_scale_left(self)
    }

    open spec fn mul_spec(self, other: Matrix2x3<i64>) -> Matrix2x3<i64> {
        other.scaled_left(self)
    }
}

impl core::ops::Mul<Matrix2x3<i128>> for i128 {
    type Output = Matrix2x3<i128>;

    fn mul(self, other: Matrix2x3<i128>) -> (r: Matrix2x3<i128>) {
        other.scale_left(self)
    }
}

impl vstd::std_specs::ops::MulSpecImpl<Matrix2x3<i128>> for i128 {
    open spec fn obeys_mul_spec() -> bool {
        true
    }

    open spec fn mul_req(self, other: Matrix2x3<i128>) -> bool {
        other.can_scale_left(self)
    }

    open spec fn mul_spec(self, other: Matrix2x3<i128>) -> Matrix2x3<i128> {
        other.scaled_left(self)
    }
}

impl core::ops::Mul<Matrix2x3<isize>> for isize {
    type Output = Matrix2x3<isize>;

    fn mul(self, other: Matrix2x3<isize>) -> (r: Matrix2x3<isize>) {
        other.scale_left(self)
    }
}

impl vstd::std_specs::ops::MulSpecImpl<Matrix2x3<isize>> for isize {
    open spec fn obeys_mul_spec() -> bool {
        true
    }

    open spec fn mul_req(self, other: Matrix2x3<isize>) -> bool {
        other.can_scale_left(self)
    }

    open spec fn mul_spec(self, other: Matrix2x3<isize>) -> Matrix2x3<isize> {
        other.scaled_left(self)
    }
}

impl core::ops::Mul<Matrix2x3<u8>> for u8 {
    type Output = Matrix2x3<u8>;

    fn mul(self, other: Matrix2x3<u8>) -> (r: Matrix2x3<u8>) {
        other.scale_left(self)
    }
}

impl vstd::std_specs::ops::MulSpecImpl<Matrix2x3<u8>> for u8 {
    open spec fn obeys_mul_spec() -> bool {
        true
    }

    open spec fn mul_req(self, other: Matrix2x3<u8>) -> bool {
        other.can_scale_left(self)
    }

    open spec fn mul_spec(self, other: Matrix2x3<u8>) -> Matrix2x3<u8> {
        other.scaled_left(self)
    }
}

impl core::ops::Mul<Matrix2x3<u16>> for u16 {
    type Output = Matrix2x3<u16>;

    fn mul(self, other: Matrix2x3<u16>) -> (r: Matrix2x3<u16>) {
        other.scale_left(self)
    }
}

impl vstd::std_specs::ops::MulSpecImpl<Matrix2x3<u16>> for u16 {
    open spec fn obeys_mul_spec() -> bool {
        true
    }

    open spec fn mul_req(self, other: Matrix2x3<u16>) -> bool {
        other.can_scale_left(self)
    }

    open spec fn mul_spec(self, other: Matrix2x3<u16>) -> Matrix2x3<u16> {
        other.scaled_left(self)
    }
}

impl core::ops::Mul<Matrix2x3<u32>> for u32 {
    type Output = Matrix2x3<u32>;

    fn mul(self, other: Matrix2x3<u32>) -> (r: Matrix2x3<u32>) {
        other.scale_left(self)
    }
}

impl vstd::std_specs::ops::MulSpecImpl<Matrix2x3<u32>> for u32 {
    open spec fn obeys_mul_spec() -> bool {
        true
    }

    open spec fn mul_req(self, other: Matrix2x3<u32>) -> bool {
        other.can_scale_left(self)
    }

    open spec fn mul_spec(self, other: Matrix2x3<u32>) -> Matrix2x3<u32> {
        other.scaled_left(self)
    }
}

impl core::ops::Mul<Matrix2x3<u64>> for u64 {
    type Output = Matrix2x3<u64>;

    fn mul(self, other: Matrix2x3<u64>) -> (r: Matrix2x3<u64>) {
        other.scale_left(self)
    }
}

impl vstd::std_specs::ops::MulSpecImpl<Matrix2x3<u64>> for u64 {
    open spec fn obeys_mul_spec() -> bool {
        true
    }

    open spec fn mul_req(self, other: Matrix2x3<u64>) -> bool {
        other.can_scale_left(self)
    }

    open spec fn mul_spec(self, other: Matrix2x3<u64>) -> Matrix2x3<u64> {
        other.scaled_left(self)
    }
}

impl core::ops::Mul<Matrix2x3<u128>> for u128 {
    type Output = Matrix2x3<u128>;

    fn mul(self, other: Matrix2x3<u128>) -> (r: Matrix2x3<u128>) {
        other.scale_left(self)
    }
}

impl vstd::std_specs::ops::MulSpecImpl<Matrix2x3<u128>> for u128 {
    open spec fn obeys_mul_spec() -> bool {
        true
    }

    open spec fn mul_req(self, other: Matrix2x3<u128>) -> bool {
        other.can_scale_left(self)
    }

    open spec fn mul_spec(self, other: Matrix2x3<u128>) -> Matrix2x3<u128> {
        other.scaled_left(self)
    }
}

impl core::ops::Mul<Matrix2x3<usize>> for usize {
    type Output = Matrix2x3<usize>;

    fn mul(self, other: Matrix2x3<usize>) -> (r: Matrix2x3<usize>) {
        other.scale_left(self)
    }
}

impl vstd::std_specs::ops::MulSpecImpl<Matrix2x3<usize>> for usize {
    open spec fn obeys_mul_spec() -> bool {
        true
    }

    open spec fn mul_req(self, other: Matrix2x3<usize>) -> bool {
        other.can_scale_left(self)
    }

    open spec fn mul_spec(self, other: Matrix2x3<usize>) -> Matrix2x3<usize> {
        other.scaled_left(self)
    }
}

impl core::ops::Mul<Matrix2x4<i8>> for i8 {
    type Output = Matrix2x4<i8>;

    fn mul(self, other: Matrix2x4<i8>) -> (r: Matrix2x4<i8>) {
        other.scale_left(self)
    }
}

impl vstd::std_specs::ops::MulSpecImpl<Matrix2x4<i8>> for i8 {
    open spec fn obeys_mul_spec() -> bool {
        true
    }

    open spec fn mul_req(self, other: Matrix2x4<i8>) -> bool {
        other.can_scale_left(self)
    }

    open spec fn mul_spec(self, other: Matrix2x4<i8>) -> Matrix2x4<i8> {
        other.scaled_left(self)
    }
}

impl core::ops::Mul<Matrix2x4<i16>> for i16 {
    type Output = Matrix2x4<i16>;

    fn mul(self, other: Matrix2x4<i16>) -> (r: Matrix2x4<i16>) {
        other.scale_left(self)
    }
}

impl vstd::std_specs::ops::MulSpecImpl<Matrix2x4<i16>> for i16 {
    open spec fn obeys_mul_spec() -> bool {
        true
    }

    open spec fn mul_req(self, other: Matrix2x4<i16>) -> bool {
        other.can_scale_left(self)
    }

    open spec fn mul_spec(self, other: Matrix2x4<i16>) -> Matrix2x4<i16> {
        other.scaled_left(self)
    }
}

impl core::ops::Mul<Matrix2x4<i32>> for i32 {
    type Output = Matrix2x4<i32>;

    fn mul(self, other: Matrix2x4<i32>) -> (r: Matrix2x4<i32>) {
        other.scale_left(self)
    }
}

impl vstd::std_specs::ops::MulSpecImpl<Matrix2x4<i32>> for i32 {
    open spec fn obeys_mul_spec() -> bool {
        true
    }

    open spec fn mul_req(self, other: Matrix2x4<i32>) -> bool {
        other.can_scale_left(self)
    }

    open spec fn mul_spec(self, other: Matrix2x4<i32>) -> Matrix2x4<i32> {
        other.scaled_left(self)
    }
}

impl core::ops::Mul<Matrix2x4<i64>> for i64 {
    type Output = Matrix2x4<i64>;

    fn mul(self, other: Matrix2x4<i64>) -> (r: Matrix2x4<i64>) {
        other.scale_left(self)
    }
}

impl vstd::std_specs::ops::MulSpecImpl<Matrix2x4<i64>> for i64 {
    open spec fn obeys_mul_spec() -> bool {
        true
    }

    open spec fn mul_req(self, other: Matrix2x4<i64>) -> bool {
        other.can_scale_left(self)
    }

    open spec fn mul_spec(self, other: Matrix2x4<i64>) -> Matrix2x4<i64> {
        other.scaled_left(self)
    }
}

impl core::ops::Mul<Matrix2x4<i128>> for i128 {
    type Output = Matrix2x4<i128>;

    fn mul(self, other: Matrix2x4<i128>) -> (r: Matrix2x4<i128>) {
        other.scale_left(self)
    }
}

impl vstd::std_specs::ops::MulSpecImpl<Matrix2x4<i128>> for i128 {
    open spec fn obeys_mul_spec() -> bool {
        true
    }

    open spec fn mul_req(self, other: Matrix2x4<i128>) -> bool {
        other.can_scale_left(self)
    }

    open spec fn mul_spec(self, other: Matrix2x4<i128>) -> Matrix2x4<i128> {
        other.scaled_left(self)
    }
}

impl core::ops::Mul<Matrix2x4<isize>> for isize {
    type Output = Matrix2x4<isize>;

    fn mul(self, other: Matrix2x4<isize>) -> (r: Matrix2x4<isize>) {
        other.scale_left(self)
    }
}

impl vstd::std_specs::ops::MulSpecImpl<Matrix2x4<isize>> for isize {
    open spec fn obeys_mul_spec() -> bool {
        true
    }

    open spec fn mul_req(self, other: Matrix2x4<isize>) -> bool {
        other.can_scale_left(self)
    }

    open spec fn mul_spec(self, other: Matrix2x4<isize>) -> Matrix2x4<isize> {
        other.scaled_left(self)
    }
}

impl core::ops::Mul<Matrix2x4<u8>> for u8 {
    type Output = Matrix2x4<u8>;

    fn mul(self, other: Matrix2x4<u8>) -> (r: Matrix2x4<u8>) {
        other.scale_left(self)
    }
}

impl vstd::std_specs::ops::MulSpecImpl<Matrix2x4<u8>> for u8 {
    open spec fn obeys_mul_spec() -> bool {
        true
    }

    open spec fn mul_req(self, other: Matrix2x4<u8>) -> bool {
        other.can_scale_left(self)
    }

    open spec fn mul_spec(self, other: Matrix2x4<u8>) -> Matrix2x4<u8> {
        other.scaled_left(self)
    }
}

impl core::ops::Mul<Matrix2x4<u16>> for u16 {
    type Output = Matrix2x4<u16>;

    fn mul(self, other: Matrix2x4<u16>) -> (r: Matrix2x4<u16>) {
        other.scale_left(self)
    }
}

impl vstd::std_specs::ops::MulSpecImpl<Matrix2x4<u16>> for u16 {
    open spec fn obeys_mul_spec() -> bool {
        true
    }

    open spec fn mul_req(self, other: Matrix2x4<u16>) -> bool {
        other.can_scale_left(self)
    }

    open spec fn mul_spec(self, other: Matrix2x4<u16>) -> Matrix2x4<u16> {
        other.scaled_left(self)
    }
}

impl core::ops::Mul<Matrix2x4<u32>> for u32 {
    type Output = Matrix2x4<u32>;

    fn mul(self, other: Matrix2x4<u32>) -> (r: Matrix2x4<u32>) {
        other.scale_left(self)
    }
}

impl vstd::std_specs::ops::MulSpecImpl<Matrix2x4<u32>> for u32 {
    open spec fn obeys_mul_spec() -> bool {
        true
    }

    open spec fn mul_req(self, other: Matrix2x4<u32>) -> bool {
        other.can_scale_left(self)
    }

    open spec fn mul_spec(self, other: Matrix2x4<u32>) -> Matrix2x4<u32> {
        other.scaled_left(self)
    }
}

impl core::ops::Mul<Matrix2x4<u64>> for u64 {
    type Output = Matrix2x4<u64>;

    fn mul(self, other: Matrix2x4<u64>) -> (r: Matrix2x4<u64>) {
        other.scale_left(self)
    }
}

impl vstd::std_specs::ops::MulSpecImpl<Matrix2x4<u64>> for u64 {
    open spec fn obeys_mul_spec() -> bool {
        true
    }

    open spec fn mul_req(self, other: Matrix2x4<u64>) -> bool {
        other.can_scale_left(self)
    }

    open spec fn mul_spec(self, other: Matrix2x4<u64>) -> Matrix2x4<u64> {
        other.scaled_left(self)
    }
}

impl core::ops::Mul<Matrix2x4<u128>> for u128 {
    type Output = Matrix2x4<u128>;

    fn mul(self, other: Matrix2x4<u128>) -> (r: Matrix2x4<u128>) {
        other.scale_left(self)
    }
}

impl vstd::std_specs::ops::MulSpecImpl<Matrix2x4<u128>> for u128 {
    open spec fn obeys_mul_spec() -> bool {
        true
    }

    open spec fn mul_req(self, other: Matrix2x4<u128>) -> bool {
        other.can_scale_left(self)
    }

    open spec fn mul_spec(self, other: Matrix2x4<u128>) -> Matrix2x4<u128> {
        other.scaled_left(self)
    }
}

impl core::ops::Mul<Matrix2x4<usize>> for usize {
    type Output = Matrix2x4<usize>;

    fn mul(self, other: Matrix2x4<usize>) -> (r: Matrix2x4<usize>) {
        other.scale_left(self)
    }
}

impl vstd::std_specs::ops::MulSpecImpl<Matrix2x4<usize>> for usize {
    open spec fn obeys_mul_spec() -> bool {
        true
    }

    open spec fn mul_req(self, other: Matrix2x4<usize>) -> bool {
        other.can_scale_left(self)
    }

    open spec fn mul_spec(self, other: Matrix2x4<usize>) -> Matrix2x4<usize> {
        other.scaled_left(self)
    }
}

impl core::ops::Mul<Matrix3x2<i8>> for i8 {
    type Output = Matrix3x2<i8>;

    fn mul(self, other: Matrix3x2<i8>) -> (r: Matrix3x2<i8>) {
        other.scale_left(self)
    }
}

impl vstd::std_specs::ops::MulSpecImpl<Matrix3x2<i8>> for i8 {
    open spec fn obeys_mul_spec() -> bool {
        true
    }

    open spec fn mul_req(self, other: Matrix3x2<i8>) -> bool {
        other.can_scale_left(self)
    }

    open spec fn mul_spec(self, other: Matrix3x2<i8>) -> Matrix3x2<i8> {
        other.scaled_left(self)
    }
}

impl core::ops::Mul<Matrix3x2<i16>> for i16 {
    type Output = Matrix3x2<i16>;

    fn mul(self, other: Matrix3x2<i16>) -> (r: Matrix3x2<i16>) {
        other.scale_left(self)
    }
}

impl vstd::std_specs::ops::MulSpecImpl<Matrix3x2<i16>> for i16 {
    open spec fn obeys_mul_spec() -> bool {
        true
    }

    open spec fn mul_req(self, other: Matrix3x2<i16>) -> bool {
        other.can_scale_left(self)
    }

    open spec fn mul_spec(self, other: Matrix3x2<i16>) -> Matrix3x2<i16> {
        other.scaled_left(self)
    }
}

impl core::ops::Mul<Matrix3x2<i32>> for i32 {
    type Output = Matrix3x2<i32>;

    fn mul(self, other: Matrix3x2<i32>) -> (r: Matrix3x2<i32>) {
        other.scale_left(self)
    }
}

impl vstd::std_specs::ops::MulSpecImpl<Matrix3x2<i32>> for i32 {
    open spec fn obeys_mul_spec() -> bool {
        true
    }

    open spec fn mul_req(self, other: Matrix3x2<i32>) -> bool {
        other.can_scale_left(self)
    }

    open spec fn mul_spec(self, other: Matrix3x2<i32>) -> Matrix3x2<i32> {
        other.scaled_left(self)
    }
}

impl core::ops::Mul<Matrix3x2<i64>> for i64 {
    type Output = Matrix3x2<i64>;

    fn mul(self, other: Matrix3x2<i64>) -> (r: Matrix3x2<i64>) {
        other.scale_left(self)
    }
}

impl vstd::std_specs::ops::MulSpecImpl<Matrix3x2<i64>> for i64 {
    open spec fn obeys_mul_spec() -> bool {
        true
    }

    open spec fn mul_req(self, other: Matrix3x2<i64>) -> bool {
        other.can_scale_left(self)
    }

    open spec fn mul_spec(self, other: Matrix3x2<i64>) -> Matrix3x2<i64> {
        other.scaled_left(self)
    }
}

impl core::ops::Mul<Matrix3x2<i128>> for i128 {
    type Output = Matrix3x2<i128>;

    fn mul(self, other: Matrix3x2<i128>) -> (r: Matrix3x2<i128>) {
        other.scale_left(self)
    }
}

impl vstd::std_specs::ops::MulSpecImpl<Matrix3x2<i128>> for i128 {
    open spec fn obeys_mul_spec() -> bool {
        true
    }

    open spec fn mul_req(self, other: Matrix3x2<i128>) -> bool {
        other.can_scale_left(self)
    }

    open spec fn mul_spec(self, other: Matrix3x2<i128>) -> Matrix3x2<i128> {
        other.scaled_left(self)
    }
}

impl core::ops::Mul<Matrix3x2<isize>> for isize {
    type Output = Matrix3x2<isize>;

    fn mul(self, other: Matrix3x2<isize>) -> (r: Matrix3x2<isize>) {
        other.scale_left(self)
    }
}

impl vstd::std_specs::ops::MulSpecImpl<Matrix3x2<isize>> for isize {
    open spec fn obeys_mul_spec() -> bool {
        true
    }

    open spec fn mul_req(self, other: Matrix3x2<isize>) -> bool {
        other.can_scale_left(self)
    }

    open spec fn mul_spec(self, other: Matrix3x2<isize>) -> Matrix3x2<isize> {
        other.scaled_left(self)
    }
}

impl core::ops::Mul<Matrix3x2<u8>> for u8 {
    type Output = Matrix3x2<u8>;

    fn mul(self, other: Matrix3x2<u8>) -> (r: Matrix3x2<u8>) {
        other.scale_left(self)
    }
}

impl vstd::std_specs::ops::MulSpecImpl<Matrix3x2<u8>> for u8 {
    open spec fn obeys_mul_spec() -> bool {
        true
    }

    open spec fn mul_req(self, other: Matrix3x2<u8>) -> bool {
        other.can_scale_left(self)
    }

    open spec fn mul_spec(self, other: Matrix3x2<u8>) -> Matrix3x2<u8> {
        other.scaled_left(self)
    }
}

impl core::ops::Mul<Matrix3x2<u16>> for u16 {
    type Output = Matrix3x2<u16>;

    fn mul(self, other: Matrix3x2<u16>) -> (r: Matrix3x2<u16>) {
        other.scale_left(self)
    }
}

impl vstd::std_specs::ops::MulSpecImpl<Matrix3x2<u16>> for u16 {
    open spec fn obeys_mul_spec() -> bool {
        true
    }

    open spec fn mul_req(self, other: Matrix3x2<u16>) -> bool {
        other.can_scale_left(self)
    }

    open spec fn mul_spec(self, other: Matrix3x2<u16>) -> Matrix3x2<u16> {
        other.scaled_left(self)
    }
}

impl core::ops::Mul<Matrix3x2<u32>> for u32 {
    type Output = Matrix3x2<u32>;

    fn mul(self, other: Matrix3x2<u32>) -> (r: Matrix3x2<u32>) {
        other.scale_left(self)
    }
}

impl vstd::std_specs::ops::MulSpecImpl<Matrix3x2<u32>> for u32 {
    open spec fn obeys_mul_spec() -> bool {
        true
    }

    open spec fn mul_req(self, other: Matrix3x2<u32>) -> bool {
        other.can_scale_left(self)
    }

    open spec fn mul_spec(self, other: Matrix3x2<u32>) -> Matrix3x2<u32> {
        other.scaled_left(self)
    }
}

impl core::ops::Mul<Matrix3x2<u64>> for u64 {
    type Output = Matrix3x2<u64>;

    fn mul(self, other: Matrix3x2<u64>) -> (r: Matrix3x2<u64>) {
        other.scale_left(self)
    }
}

impl vstd::std_specs::ops::MulSpecImpl<Matrix3x2<u64>> for u64 {
    open spec fn obeys_mul_spec() -> bool {
        true
    }

    open spec fn mul_req(self, other: Matrix3x2<u64>) -> bool {
        other.can_scale_left(self)
    }

    open spec fn mul_spec(self, other: Matrix3x2<u64>) -> Matrix3x2<u64> {
        other.scaled_left(self)
    }
}

impl core::ops::Mul<Matrix3x2<u128>> for u128 {
    type Output = Matrix3x2<u128>;

    fn mul(self, other: Matrix3x2<u128>) -> (r: Matrix3x2<u128>) {
        other.scale_left(self)
    }
}

impl vstd::std_specs::ops::MulSpecImpl<Matrix3x2<u128>> for u128 {
    open spec fn obeys_mul_spec() -> bool {
        true
    }

    open spec fn mul_req(self, other: Matrix3x2<u128>) -> bool {
        other.can_scale_left(self)
    }

    open spec fn mul_spec(self, other: Matrix3x2<u128>) -> Matrix3x2<u128> {
        other.scaled_left(self)
    }
}

impl core::ops::Mul<Matrix3x2<usize>> for usize {
    type Output = Matrix3x2<usize>;

    fn mul(self, other: Matrix3x2<usize>) -> (r: Matrix3x2<usize>) {
        other.scale_left(self)
    }
}

impl vstd::std_specs::ops::MulSpecImpl<Matrix3x2<usize>> for usize {
    open spec fn obeys_mul_spec() -> bool {
        true
    }

    open spec fn mul_req(self, other: Matrix3x2<usize>) -> bool {
        other.can_scale_left(self)
    }

    open spec fn mul_spec(self, other: Matrix3x2<usize>) -> Matrix3x2<usize> {
        other.scaled_left(self)
    }
}

impl core::ops::Mul<Matrix3x3<i8>> for i8 {
    type Output = Matrix3x3<i8>;

    fn mul(self, other: Matrix3x3<i8>) -> (r: Matrix3x3<i8>) {
        other.scale_left(self)
    }
}

impl vstd::std_specs::ops::MulSpecImpl<Matrix3x3<i8>> for i8 {
    open spec fn obeys_mul_spec() -> bool {
        true
    }

    open spec fn mul_req(self, other: Matrix3x3<i8>) -> bool {
        other.can_scale_left(self)
    }

    open spec fn mul_spec(self, other: Matrix3x3<i8>) -> Matrix3x3<i8> {
        other.scaled_left(self)
    }
}

impl core::ops::Mul<Matrix3x3<i16>> for i16 {
    type Output = Matrix3x3<i16>;

    fn mul(self, other: Matrix3x3<i16>) -> (r: Matrix3x3<i16>) {
        other.scale_left(self)
    }
}

impl vstd::std_specs::ops::MulSpecImpl<Matrix3x3<i16>> for i16 {
    open spec fn obeys_mul_spec() -> bool {
        true
    }

    open spec fn mul_req(self, other: Matrix3x3<i16>) -> bool {
        other.can_scale_left(self)
    }

    open spec fn mul_spec(self, other: Matrix3x3<i16>) -> Matrix3x3<i16> {
        other.scaled_left(self)
    }
}

impl core::ops::Mul<Matrix3x3<i32>> for i32 {
    type Output = Matrix3x3<i32>;

    fn mul(self, other: Matrix3x3<i32>) -> (r: Matrix3x3<i32>) {
        other.scale_left(self)
    }
}

impl vstd::std_specs::ops::MulSpecImpl<Matrix3x3<i32>> for i32 {
    open spec fn obeys_mul_spec() -> bool {
        true
    }

    open spec fn mul_req(self, other: Matrix3x3<i32>) -> bool {
        other.can_scale_left(self)
    }

    open spec fn mul_spec(self, other: Matrix3x3<i32>) -> Matrix3x3<i32> {
        other.scaled_left(self)
    }
}

impl core::ops::Mul<Matrix3x3<i64>> for i64 {
    type Output = Matrix3x3<i64>;

    fn mul(self, other: Matrix3x3<i64>) -> (r: Matrix3x3<i64>) {
        other.scale_left(self)
    }
}

impl vstd::std_specs::ops::MulSpecImpl<Matrix3x3<i64>> for i64 {
    open spec fn obeys_mul_spec() -> bool {
        true
    }

    open spec fn mul_req(self, other: Matrix3x3<i64>) -> bool {
        other.can_scale_left(self)
    }

    open spec fn mul_spec(self, other: Matrix3x3<i64>) -> Matrix3x3<i64> {
        other.scaled_left(self)
    }
}

impl core::ops::Mul<Matrix3x3<i128>> for i128 {
    type Output = Matrix3x3<i128>;

    fn mul(self, other: Matrix3x3<i128>) -> (r: Matrix3x3<i128>) {
        other.scale_left(self)
    }
}

impl vstd::std_specs::ops::MulSpecImpl<Matrix3x3<i128>> for i128 {
    open spec fn obeys_mul_spec() -> bool {
        true
    }

    open spec fn mul_req(self, other: Matrix3x3<i128>) -> bool {
        other.can_scale_left(self)
    }

    open spec fn mul_spec(self, other: Matrix3x3<i128>) -> Matrix3x3<i128> {
        other.scaled_left(self)
    }
}

impl core::ops::Mul<Matrix3x3<isize>> for isize {
    type Output = Matrix3x3<isize>;

    fn mul(self, other: Matrix3x3<isize>) -> (r: Matrix3x3<isize>) {
        other.scale_left(self)
    }
}

impl vstd::std_specs::ops::MulSpecImpl<Matrix3x3<isize>> for isize {
    open spec fn obeys_mul_spec() -> bool {
        true
    }

    open spec fn mul_req(self, other: Matrix3x3<isize>) -> bool {
        other.can_scale_left(self)
    }

    open spec fn mul_spec(self, other: Matrix3x3<isize>) -> Matrix3x3<isize> {
        other.scaled_left(self)
    }
}

impl core::ops::Mul<Matrix3x3<u8>> for u8 {
    type Output = Matrix3x3<u8>;

    fn mul(self, other: Matrix3x3<u8>) -> (r: Matrix3x3<u8>) {
        other.scale_left(self)
    }
}

impl vstd::std_specs::ops::MulSpecImpl<Matrix3x3<u8>> for u8 {
    open spec fn obeys_mul_spec() -> bool {
        true
    }

    open spec fn mul_req(self, other: Matrix3x3<u8>) -> bool {
        other.can_scale_left(self)
    }

    open spec fn mul_spec(self, other: Matrix3x3<u8>) -> Matrix3x3<u8> {
        other.scaled_left(self)
    }
}

impl core::ops::Mul<Matrix3x3<u16>> for u16 {
    type Output = Matrix3x3<u16>;

    fn mul(self, other: Matrix3x3<u16>) -> (r: Matrix3x3<u16>) {
        other.scale_left(self)
    }
}

impl vstd::std_specs::ops::MulSpecImpl<Matrix3x3<u16>> for u16 {
    open spec fn obeys_mul_spec() -> bool {
        true
    }

    open spec fn mul_req(self, other: Matrix3x3<u16>) -> bool {
        other.can_scale_left(self)
    }

    open spec fn mul_spec(self, other: Matrix3x3<u16>) -> Matrix3x3<u16> {
        other.scaled_left(self)
    }
}

impl core::ops::Mul<Matrix3x3<u32>> for u32 {
    type Output = Matrix3x3<u32>;

    fn mul(self, other: Matrix3x3<u32>) -> (r: Matrix3x3<u32>) {
        other.scale_left(self)
    }
}

impl vstd::std_specs::ops::MulSpecImpl<Matrix3x3<u32>> for u32 {
    open spec fn obeys_mul_spec() -> bool {
        true
    }

    open spec fn mul_req(self, other: Matrix3x3<u32>) -> bool {
        other.can_scale_left(self)
    }

    open spec fn mul_spec(self, other: Matrix3x3<u32>) -> Matrix3x3<u32> {
        other.scaled_left(self)
    }
}

impl core::ops::Mul<Matrix3x3<u64>> for u64 {
    type Output = Matrix3x3<u64>;

    fn mul(self, other: Matrix3x3<u64>) -> (r: Matrix3x3<u64>) {
        other.scale_left(self)
    }
}

impl vstd::std_specs::ops::MulSpecImpl<Matrix3x3<u64>> for u64 {
    open spec fn obeys_mul_spec() -> bool {
        true
    }

    open spec fn mul_req(self, other: Matrix3x3<u64>) -> bool {
        other.can_scale_left(self)
    }

    open spec fn mul_spec(self, other: Matrix3x3<u64>) -> Matrix3x3<u64> {
        other.scaled_left(self)
    }
}

impl core::ops::Mul<Matrix3x3<u128>> for u128 {
    type Output = Matrix3x3<u128>;

    fn mul(self, other: Matrix3x3<u128>) -> (r: Matrix3x3<u128>) {
        other.scale_left(self)
    }
}

impl vstd::std_specs::ops::MulSpecImpl<Matrix3x3<u128>> for u128 {
    open spec fn obeys_mul_spec() -> bool {
        true
    }

    open spec fn mul_req(self, other: Matrix3x3<u128>) -> bool {
        other.can_scale_left(self)
    }

    open spec fn mul_spec(self, other: Matrix3x3<u128>) -> Matrix3x3<u128> {
        other.scaled_left(self)
    }
}

impl core::ops::Mul<Matrix3x3<usize>> for usize {
    type Output = Matrix3x3<usize>;

    fn mul(self, other: Matrix3x3<usize>) -> (r: Matrix3x3<usize>) {
        other.scale_left(self)
    }
}

impl vstd::std_specs::ops::MulSpecImpl<Matrix3x3<usize>> for usize {
    open spec fn obeys_mul_spec() -> bool {
        true
    }

    open spec fn mul_req(self, other: Matrix3x3<usize>) -> bool {
        other.can_scale_left(self)
    }

    open spec fn mul_spec(self, other: Matrix3x3<usize>) -> Matrix3x3<usize> {
        other.scaled_left(self)
    }
}

impl core::ops::Mul<Matrix3x4<i8>> for i8 {
    type Output = Matrix3x4<i8>;

    fn mul(self, other: Matrix3x4<i8>) -> (r: Matrix3x4<i8>) {
        other.scale_left(self)
    }
}

impl vstd::std_specs::ops::MulSpecImpl<Matrix3x4<i8>> for i8 {
    open spec fn obeys_mul_spec() -> bool {
        true
    }

    open spec fn mul_req(self, other: Matrix3x4<i8>) -> bool {
        other.can_scale_left(self)
    }

    open spec fn mul_spec(self, other: Matrix3x4<i8>) -> Matrix3x4<i8> {
        other.scaled_left(self)
    }
}

impl core::ops::Mul<Matrix3x4<i16>> for i16 {
    type Output = Matrix3x4<i16>;

    fn mul(self, other: Matrix3x4<i16>) -> (r: Matrix3x4<i16>) {
        other.scale_left(self)
    }
}

impl vstd::std_specs::ops::MulSpecImpl<Matrix3x4<i16>> for i16 {
    open spec fn obeys_mul_spec() -> bool {
        true
    }

    open spec fn mul_req(self, other: Matrix3x4<i16>) -> bool {
        other.can_scale_left(self)
    }

    open spec fn mul_spec(self, other: Matrix3x4<i16>) -> Matrix3x4<i16> {
        other.scaled_left(self)
    }
}

impl core::ops::Mul<Matrix3x4<i32>> for i32 {
    type Output = Matrix3x4<i32>;

    fn mul(self, other: Matrix3x4<i32>) -> (r: Matrix3x4<i32>) {
        other.scale_left(self)
    }
}

impl vstd::std_specs::ops::MulSpecImpl<Matrix3x4<i32>> for i32 {
    open spec fn obeys_mul_spec() -> bool {
        true
    }

    open spec fn mul_req(self, other: Matrix3x4<i32>) -> bool {
        other.can_scale_left(self)
    }

    open spec fn mul_spec(self, other: Matrix3x4<i32>) -> Matrix3x4<i32> {
        other.scaled_left(self)
    }
}

impl core::ops::Mul<Matrix3x4<i64>> for i64 {
    type Output = Matrix3x4<i64>;

    fn mul(self, other: Matrix3x4<i64>) -> (r: Matrix3x4<i64>) {
        other.scale_left(self)
    }
}

impl vstd::std_specs::ops::MulSpecImpl<Matrix3x4<i64>> for i64 {
    open spec fn obeys_mul_spec() -> bool {
        true
    }

    open spec fn mul_req(self, other: Matrix3x4<i64>) -> bool {
        other.can_scale_left(self)
    }

    open spec fn mul_spec(self, other: Matrix3x4<i64>) -> Matrix3x4<i64> {
        other.scaled_left(self)
    }
}

impl core::ops::Mul<Matrix3x4<i128>> for i128 {
    type Output = Matrix3x4<i128>;

    fn mul(self, other: Matrix3x4<i128>) -> (r: Matrix3x4<i128>) {
        other.scale_left(self)
    }
}

impl vstd::std_specs::ops::MulSpecImpl<Matrix3x4<i128>> for i128 {
    open spec fn obeys_mul_spec() -> bool {
        true
    }

    open spec fn mul_req(self, other: Matrix3x4<i128>) -> bool {
        other.can_scale_left(self)
    }

    open spec fn mul_spec(self, other: Matrix3x4<i128>) -> Matrix3x4<i128> {
        other.scaled_left(self)
    }
}

impl core::ops::Mul<Matrix3x4<isize>> for isize {
    type Output = Matrix3x4<isize>;

    fn mul(self, other: Matrix3x4<isize>) -> (r: Matrix3x4<isize>) {
        other.scale_left(self)
    }
}

impl vstd::std_specs::ops::MulSpecImpl<Matrix3x4<isize>> for isize {
    open spec fn obeys_mul_spec() -> bool {
        true
    }

    open spec fn mul_req(self, other: Matrix3x4<isize>) -> bool {
        other.can_scale_left(self)
    }

    open spec fn mul_spec(self, other: Matrix3x4<isize>) -> Matrix3x4<isize> {
        other.scaled_left(self)
    }
}

impl core::ops::Mul<Matrix3x4<u8>> for u8 {
    type Output = Matrix3x4<u8>;

    fn mul(self, other: Matrix3x4<u8>) -> (r: Matrix3x4<u8>) {
        other.scale_left(self)
    }
}

impl vstd::std_specs::ops::MulSpecImpl<Matrix3x4<u8>> for u8 {
    open spec fn obeys_mul_spec() -> bool {
        true
    }

    open spec fn mul_req(self, other: Matrix3x4<u8>) -> bool {
        other.can_scale_left(self)
    }

    open spec fn mul_spec(self, other: Matrix3x4<u8>) -> Matrix3x4<u8> {
        other.scaled_left(self)
    }
}

impl core::ops::Mul<Matrix3x4<u16>> for u16 {
    type Output = Matrix3x4<u16>;

    fn mul(self, other: Matrix3x4<u16>) -> (r: Matrix3x4<u16>) {
        other.scale_left(self)
    }
}

impl vstd::std_specs::ops::MulSpecImpl<Matrix3x4<u16>> for u16 {
    open spec fn obeys_mul_spec() -> bool {
        true
    }

    open spec fn mul_req(self, other: Matrix3x4<u16>) -> bool {
        other.can_scale_left(self)
    }

    open spec fn mul_spec(self, other: Matrix3x4<u16>) -> Matrix3x4<u16> {
        other.scaled_left(self)
    }
}

impl core::ops::Mul<Matrix3x4<u32>> for u32 {
    type Output = Matrix3x4<u32>;

    fn mul(self, other: Matrix3x4<u32>) -> (r: Matrix3x4<u32>) {
        other.scale_left(self)
    }
}

impl vstd::std_specs::ops::MulSpecImpl<Matrix3x4<u32>> for u32 {
    open spec fn obeys_mul_spec() -> bool {
        true
    }

    open spec fn mul_req(self, other: Matrix3x4<u32>) -> bool {
        other.can_scale_left(self)
    }

    open spec fn mul_spec(self, other: Matrix3x4<u32>) -> Matrix3x4<u32> {
        other.scaled_left(self)
    }
}

impl core::ops::Mul<Matrix3x4<u64>> for u64 {
    type Output = Matrix3x4<u64>;

    fn mul(self, other: Matrix3x4<u64>) -> (r: Matrix3x4<u64>) {
        other.scale_left(self)
    }
}

impl vstd::std_specs::ops::MulSpecImpl<Matrix3x4<u64>> for u64 {
    open spec fn obeys_mul_spec() -> bool {
        true
    }

    open spec fn mul_req(self, other: Matrix3x4<u64>) -> bool {
        other.can_scale_left(self)
    }

    open spec fn mul_spec(self, other: Matrix3x4<u64>) -> Matrix3x4<u64> {
        other.scaled_left(self)
    }
}

impl core::ops::Mul<Matrix3x4<u128>> for u128 {
    type Output = Matrix3x4<u128>;

    fn mul(self, other: Matrix3x4<u128>) -> (r: Matrix3x4<u128>) {
        other.scale_left(self)
    }
}

impl vstd::std_specs::ops::MulSpecImpl<Matrix3x4<u128>> for u128 {
    open spec fn obeys_mul_spec() -> bool {
        true
    }

    open spec fn mul_req(self, other: Matrix3x4<u128>) -> bool {
        other.can_scale_left(self)
    }

    open spec fn mul_spec(self, other: Matrix3x4<u128>) -> Matrix3x4<u128> {
        other.scaled_left(self)
    }
}

impl core::ops::Mul<Matrix3x4<usize>> for usize {
    type Output = Matrix3x4<usize>;

    fn mul(self, other: Matrix3x4<usize>) -> (r: Matrix3x4<usize>) {
        other.scale_left(self)
    }
}

impl vstd::std_specs::ops::MulSpecImpl<Matrix3x4<usize>> for usize {
    open spec fn obeys_mul_spec() -> bool {
        true
    }

    open spec fn mul_req(self, other: Matrix3x4<usize>) -> bool {
        other.can_scale_left(self)
    }

    open spec fn mul_spec(self, other: Matrix3x4<usize>) -> Matrix3x4<usize> {
        other.scaled_left(self)
    }
}

impl core::ops::Mul<Matrix4x2<i8>> for i8 {
    type Output = Matrix4x2<i8>;

    fn mul(self, other: Matrix4x2<i8>) -> (r: Matrix4x2<i8>) {
        other.scale_left(self)
    }
}

impl vstd::std_specs::ops::MulSpecImpl<Matrix4x2<i8>> for i8 {
    open spec fn obeys_mul_spec() -> bool {
        true
    }

    open spec fn mul_req(self, other: Matrix4x2<i8>) -> bool {
        other.can_scale_left(self)
    }

    open spec fn mul_spec(self, other: Matrix4x2<i8>) -> Matrix4x2<i8> {
        other.scaled_left(self)
    }
}

impl core::ops::Mul<Matrix4x2<i16>> for i16 {
    type Output = Matrix4x2<i16>;

    fn mul(self, other: Matrix4x2<i16>) -> (r: Matrix4x2<i16>) {
        other.scale_left(self)
    }
}

impl vstd::std_specs::ops::MulSpecImpl<Matrix4x2<i16>> for i16 {
    open spec fn obeys_mul_spec() -> bool {
        true
    }

    open spec fn mul_req(self, other: Matrix4x2<i16>) -> bool {
        other.can_scale_left(self)
    }

    open spec fn mul_spec(self, other: Matrix4x2<i16>) -> Matrix4x2<i16> {
        other.scaled_left(self)
    }
}

impl core::ops::Mul<Matrix4x2<i32>> for i32 {
    type Output = Matrix4x2<i32>;

    fn mul(self, other: Matrix4x2<i32>) -> (r: Matrix4x2<i32>) {
        other.scale_left(self)
    }
}

impl vstd::std_specs::ops::MulSpecImpl<Matrix4x2<i32>> for i32 {
    open spec fn obeys_mul_spec() -> bool {
        true
    }

    open spec fn mul_req(self, other: Matrix4x2<i32>) -> bool {
        other.can_scale_left(self)
    }

    open spec fn mul_spec(self, other: Matrix4x2<i32>) -> Matrix4x2<i32> {
        other.scaled_left(self)
    }
}

impl core::ops::Mul<Matrix4x2<i64>> for i64 {
    type Output = Matrix4x2<i64>;

    fn mul(self, other: Matrix4x2<i64>) -> (r: Matrix4x2<i64>) {
        other.scale_left(self)
    }
}

impl vstd::std_specs::ops::MulSpecImpl<Matrix4x2<i64>> for i64 {
    open spec fn obeys_mul_spec() -> bool {
        true
    }

    open spec fn mul_req(self, other: Matrix4x2<i64>) -> bool {
        other.can_scale_left(self)
    }

    open spec fn mul_spec(self, other: Matrix4x2<i64>) -> Matrix4x2<i64> {
        other.scaled_left(self)
    }
}

impl core::ops::Mul<Matrix4x2<i128>> for i128 {
    type Output = Matrix4x2<i128>;

    fn mul(self, other: Matrix4x2<i128>) -> (r: Matrix4x2<i128>) {
        other.scale_left(self)
    }
}

impl vstd::std_specs::ops::MulSpecImpl<Matrix4x2<i128>> for i128 {
    open spec fn obeys_mul_spec() -> bool {
        true
    }

    open spec fn mul_req(self, other: Matrix4x2<i128>) -> bool {
        other.can_scale_left(self)
    }

    open spec fn mul_spec(self, other: Matrix4x2<i128>) -> Matrix4x2<i128> {
        other.scaled_left(self)
    }
}

impl core::ops::Mul<Matrix4x2<isize>> for isize {
    type Output = Matrix4x2<isize>;

    fn mul(self, other: Matrix4x2<isize>) -> (r: Matrix4x2<isize>) {
        other.scale_left(self)
    }
}

impl vstd::std_specs::ops::MulSpecImpl<Matrix4x2<isize>> for isize {
    open spec fn obeys_mul_spec() -> bool {
        true
    }

    open spec fn mul_req(self, other: Matrix4x2<isize>) -> bool {
        other.can_scale_left(self)
    }

    open spec fn mul_spec(self, other: Matrix4x2<isize>) -> Matrix4x2<isize> {
        other.scaled_left(self)
    }
}

impl core::ops::Mul<Matrix4x2<u8>> for u8 {
    type Output = Matrix4x2<u8>;

    fn mul(self, other: Matrix4x2<u8>) -> (r: Matrix4x2<u8>) {
        other.scale_left(self)
    }
}

impl vstd::std_specs::ops::MulSpecImpl<Matrix4x2<u8>> for u8 {
    open spec fn obeys_mul_spec() -> bool {
        true
    }

    open spec fn mul_req(self, other: Matrix4x2<u8>) -> bool {
        other.can_scale_left(self)
    }

    open spec fn mul_spec(self, other: Matrix4x2<u8>) -> Matrix4x2<u8> {
        other.scaled_left(self)
    }
}

impl core::ops::Mul<Matrix4x2<u16>> for u16 {
    type Output = Matrix4x2<u16>;

    fn mul(self, other: Matrix4x2<u16>) -> (r: Matrix4x2<u16>) {
        other.scale_left(self)
    }
}

impl vstd::std_specs::ops::MulSpecImpl<Matrix4x2<u16>> for u16 {
    open spec fn obeys_mul_spec() -> bool {
        true
    }

    open spec fn mul_req(self, other: Matrix4x2<u16>) -> bool {
        other.can_scale_left(self)
    }

    open spec fn mul_spec(self, other: Matrix4x2<u16>) -> Matrix4x2<u16> {
        other.scaled_left(self)
    }
}

impl core::ops::Mul<Matrix4x2<u32>> for u32 {
    type Output = Matrix4x2<u32>;

    fn mul(self, other: Matrix4x2<u32>) -> (r: Matrix4x2<u32>) {
        other.scale_left(self)
    }
}

impl vstd::std_specs::ops::MulSpecImpl<Matrix4x2<u32>> for u32 {
    open spec fn obeys_mul_spec() -> bool {
        true
    }

    open spec fn mul_req(self, other: Matrix4x2<u32>) -> bool {
        other.can_scale_left(self)
    }

    open spec fn mul_spec(self, other: Matrix4x2<u32>) -> Matrix4x2<u32> {
        other.scaled_left(self)
    }
}

impl core::ops::Mul<Matrix4x2<u64>> for u64 {
    type Output = Matrix4x2<u64>;

    fn mul(self, other: Matrix4x2<u64>) -> (r: Matrix4x2<u64>) {
        other.scale_left(self)
    }
}

impl vstd::std_specs::ops::MulSpecImpl<Matrix4x2<u64>> for u64 {
    open spec fn obeys_mul_spec() -> bool {
        true
    }

    open spec fn mul_req(self, other: Matrix4x2<u64>) -> bool {
        other.can_scale_left(self)
    }

    open spec fn mul_spec(self, other: Matrix4x2<u64>) -> Matrix4x2<u64> {
        other.scaled_left(self)
    }
}

impl core::ops::Mul<Matrix4x2<u128>> for u128 {
    type Output = Matrix4x2<u128>;

    fn mul(self, other: Matrix4x2<u128>) -> (r: Matrix4x2<u128>) {
        other.scale_left(self)
    }
}

impl vstd::std_specs::ops::MulSpecImpl<Matrix4x2<u128>> for u128 {
    open spec fn obeys_mul_spec() -> bool {
        true
    }

    open spec fn mul_req(self, other: Matrix4x2<u128>) -> bool {
        other.can_scale_left(self)
    }

    open spec fn mul_spec(self, other: Matrix4x2<u128>) -> Matrix4x2<u128> {
        other.scaled_left(self)
    }
}

impl core::ops::Mul<Matrix4x2<usize>> for usize {
    type Output = Matrix4x2<usize>;

    fn mul(self, other: Matrix4x2<usize>) -> (r: Matrix4x2<usize>) {
        other.scale_left(self)
    }
}

impl vstd::std_specs::ops::MulSpecImpl<Matrix4x2<usize>> for usize {
    open spec fn obeys_mul_spec() -> bool {
        true
    }

    open spec fn mul_req(self, other: Matrix4x2<usize>) -> bool {
        other.can_scale_left(self)
    }

    open spec fn mul_spec(self, other: Matrix4x2<usize>) -> Matrix4x2<usize> {
        other.scaled_left(self)
    }
}

impl core::ops::Mul<Matrix4x3<i8>> for i8 {
    type Output = Matrix4x3<i8>;

    fn mul(self, other: Matrix4x3<i8>) -> (r: Matrix4x3<i8>) {
        other.scale_left(self)
    }
}

impl vstd::std_specs::ops::MulSpecImpl<Matrix4x3<i8>> for i8 {
    open spec fn obeys_mul_spec() -> bool {
        true
    }

    open spec fn mul_req(self, other: Matrix4x3<i8>) -> bool {
        other.can_scale_left(self)
    }

    open spec fn mul_spec(self, other: Matrix4x3<i8>) -> Matrix4x3<i8> {
        other.scaled_left(self)
    }
}

impl core::ops::Mul<Matrix4x3<i16>> for i16 {
    type Output = Matrix4x3<i16>;

    fn mul(self, other: Matrix4x3<i16>) -> (r: Matrix4x3<i16>) {
        other.scale_left(self)
    }
}

impl vstd::std_specs::ops::MulSpecImpl<Matrix4x3<i16>> for i16 {
    open spec fn obeys_mul_spec() -> bool {
        true
    }

    open spec fn mul_req(self, other: Matrix4x3<i16>) -> bool {
        other.can_scale_left(self)
    }

    open spec fn mul_spec(self, other: Matrix4x3<i16>) -> Matrix4x3<i16> {
        other.scaled_left(self)
    }
}

impl core::ops::Mul<Matrix4x3<i32>> for i32 {
    type Output = Matrix4x3<i32>;

    fn mul(self, other: Matrix4x3<i32>) -> (r: Matrix4x3<i32>) {
        other.scale_left(self)
    }
}

impl vstd::std_specs::ops::MulSpecImpl<Matrix4x3<i32>> for i32 {
    open spec fn obeys_mul_spec() -> bool {
        true
    }

    open spec fn mul_req(self, other: Matrix4x3<i32>) -> bool {
        other.can_scale_left(self)
    }

    open spec fn mul_spec(self, other: Matrix4x3<i32>) -> Matrix4x3<i32> {
        other.scaled_left(self)
    }
}

impl core::ops::Mul<Matrix4x3<i64>> for i64 {
    type Output = Matrix4x3<i64>;

    fn mul(self, other: Matrix4x3<i64>) -> (r: Matrix4x3<i64>) {
        other.scale_left(self)
    }
}

impl vstd::std_specs::ops::MulSpecImpl<Matrix4x3<i64>> for i64 {
    open spec fn obeys_mul_spec() -> bool {
        true
    }

    open spec fn mul_req(self, other: Matrix4x3<i64>) -> bool {
        other.can_scale_left(self)
    }

    open spec fn mul_spec(self, other: Matrix4x3<i64>) -> Matrix4x3<i64> {
        other.scaled_left(self)
    }
}

impl core::ops::Mul<Matrix4x3<i128>> for i128 {
    type Output = Matrix4x3<i128>;

    fn mul(self, other: Matrix4x3<i128>) -> (r: Matrix4x3<i128>) {
        other.scale_left(self)
    }
}

impl vstd::std_specs::ops::MulSpecImpl<Matrix4x3<i128>> for i128 {
    open spec fn obeys_mul_spec() -> bool {
        true
    }

    open spec fn mul_req(self, other: Matrix4x3<i128>) -> bool {
        other.can_scale_left(self)
    }

    open spec fn mul_spec(self, other: Matrix4x3<i128>) -> Matrix4x3<i128> {
        other.scaled_left(self)
    }
}

impl core::ops::Mul<Matrix4x3<isize>> for isize {
    type Output = Matrix4x3<isize>;

    fn mul(self, other: Matrix4x3<isize>) -> (r: Matrix4x3<isize>) {
        other.scale_left(self)
    }
}

impl vstd::std_specs::ops::MulSpecImpl<Matrix4x3<isize>> for isize {
    open spec fn obeys_mul_spec() -> bool {
        true
    }

    open spec fn mul_req(self, other: Matrix4x3<isize>) -> bool {
        other.can_scale_left(self)
    }

    open spec fn mul_spec(self, other: Matrix4x3<isize>) -> Matrix4x3<isize> {
        other.scaled_left(self)
    }
}

impl core::ops::Mul<Matrix4x3<u8>> for u8 {
    type Output = Matrix4x3<u8>;

    fn mul(self, other: Matrix4x3<u8>) -> (r: Matrix4x3<u8>) {
        other.scale_left(self)
    }
}

impl vstd::std_specs::ops::MulSpecImpl<Matrix4x3<u8>> for u8 {
    open spec fn obeys_mul_spec() -> bool {
        true
    }

    open spec fn mul_req(self, other: Matrix4x3<u8>) -> bool {
        other.can_scale_left(self)
    }

    open spec fn mul_spec(self, other: Matrix4x3<u8>) -> Matrix4x3<u8> {
        other.scaled_left(self)
    }
}

impl core::ops::Mul<Matrix4x3<u16>> for u16 {
    type Output = Matrix4x3<u16>;

    fn mul(self, other: Matrix4x3<u16>) -> (r: Matrix4x3<u16>) {
        other.scale_left(self)
    }
}

impl vstd::std_specs::ops::MulSpecImpl<Matrix4x3<u16>> for u16 {
    open spec fn obeys_mul_spec() -> bool {
        true
    }

    open spec fn mul_req(self, other: Matrix4x3<u16>) -> bool {
        other.can_scale_left(self)
    }

    open spec fn mul_spec(self, other: Matrix4x3<u16>) -> Matrix4x3<u16> {
        other.scaled_left(self)
    }
}

impl core::ops::Mul<Matrix4x3<u32>> for u32 {
    type Output = Matrix4x3<u32>;

    fn mul(self, other: Matrix4x3<u32>) -> (r: Matrix4x3<u32>) {
        other.scale_left(self)
    }
}

impl vstd::std_specs::ops::MulSpecImpl<Matrix4x3<u32>> for u32 {
    open spec fn obeys_mul_spec() -> bool {
        true
    }

    open spec fn mul_req(self, other: Matrix4x3<u32>) -> bool {
        other.can_scale_left(self)
    }

    open spec fn mul_spec(self, other: Matrix4x3<u32>) -> Matrix4x3<u32> {
        other.scaled_left(self)
    }
}

impl core::ops::Mul<Matrix4x3<u64>> for u64 {
    type Output = Matrix4x3<u64>;

    fn mul(self, other: Matrix4x3<u64>) -> (r: Matrix4x3<u64>) {
        other.scale_left(self)
    }
}

impl vstd::std_specs::ops::MulSpecImpl<Matrix4x3<u64>> for u64 {
    open spec fn obeys_mul_spec() -> bool {
        true
    }

    open spec fn mul_req(self, other: Matrix4x3<u64>) -> bool {
        other.can_scale_left(self)
    }

    open spec fn mul_spec(self, other: Matrix4x3<u64>) -> Matrix4x3<u64> {
        other.scaled_left(self)
    }
}

impl core::ops::Mul<Matrix4x3<u128>> for u128 {
    type Output = Matrix4x3<u128>;

    fn mul(self, other: Matrix4x3<u128>) -> (r: Matrix4x3<u128>) {
        other.scale_left(self)
    }
}

impl vstd::std_specs::ops::MulSpecImpl<Matrix4x3<u128>> for u128 {
    open spec fn obeys_mul_spec() -> bool {
        true
    }

    open spec fn mul_req(self, other: Matrix4x3<u128>) -> bool {
        other.can_scale_left(self)
    }

    open spec fn mul_spec(self, other: Matrix4x3<u128>) -> Matrix4x3<u128> {
        other.scaled_left(self)
    }
}

impl core::ops::Mul<Matrix4x3<usize>> for usize {
    type Output = Matrix4x3<usize>;

    fn mul(self, other: Matrix4x3<usize>) -> (r: Matrix4x3<usize>) {
        other.scale_left(self)
    }
}

impl vstd::std_specs::ops::MulSpecImpl<Matrix4x3<usize>> for usize {
    open spec fn obeys_mul_spec() -> bool {
        true
    }

    open spec fn mul_req(self, other: Matrix4x3<usize>) -> bool {
        other.can_scale_left(self)
    }

    open spec fn mul_spec(self, other: Matrix4x3<usize>) -> Matrix4x3<usize> {
        other.scaled_left(self)
    }
}

impl core::ops::Mul<Matrix4x4<i8>> for i8 {
    type Output = Matrix4x4<i8>;

    fn mul(self, other: Matrix4x4<i8>) -> (r: Matrix4x4<i8>) {
        other.scale_left(self)
    }
}

impl vstd::std_specs::ops::MulSpecImpl<Matrix4x4<i8>> for i8 {
    open spec fn obeys_mul_spec() -> bool {
        true
    }

    open spec fn mul_req(self, other: Matrix4x4<i8>) -> bool {
        other.can_scale_left(self)
    }

    open spec fn mul_spec(self, other: Matrix4x4<i8>) -> Matrix4x4<i8> {
        other.scaled_left(self)
    }
}

impl core::ops::Mul<Matrix4x4<i16>> for i16 {
    type Output = Matrix4x4<i16>;

    fn mul(self, other: Matrix4x4<i16>) -> (r: Matrix4x4<i16>) {
        other.scale_left(self)
    }
}

impl vstd::std_specs::ops::MulSpecImpl<Matrix4x4<i16>> for i16 {
    open spec fn obeys_mul_spec() -> bool {
        true
    }

    open spec fn mul_req(self, other: Matrix4x4<i16>) -> bool {
        other.can_scale_left(self)
    }

    open spec fn mul_spec(self, other: Matrix4x4<i16>) -> Matrix4x4<i16> {
        other.scaled_left(self)
    }
}

impl core::ops::Mul<Matrix4x4<i32>> for i32 {
    type Output = Matrix4x4<i32>;

    fn mul(self, other: Matrix4x4<i32>) -> (r: Matrix4x4<i32>) {
        other.scale_left(self)
    }
}

impl vstd::std_specs::ops::MulSpecImpl<Matrix4x4<i32>> for i32 {
    open spec fn obeys_mul_spec() -> bool {
        true
    }

    open spec fn mul_req(self, other: Matrix4x4<i32>) -> bool {
        other.can_scale_left(self)
    }

    open spec fn mul_spec(self, other: Matrix4x4<i32>) -> Matrix4x4<i32> {
        other.scaled_left(self)
    }
}

impl core::ops::Mul<Matrix4x4<i64>> for i64 {
    type Output = Matrix4x4<i64>;

    fn mul(self, other: Matrix4x4<i64>) -> (r: Matrix4x4<i64>) {
        other.scale_left(self)
    }
}

impl vstd::std_specs::ops::MulSpecImpl<Matrix4x4<i64>> for i64 {
    open spec fn obeys_mul_spec() -> bool {
        true
    }

    open spec fn mul_req(self, other: Matrix4x4<i64>) -> bool {
        other.can_scale_left(self)
    }

    open spec fn mul_spec(self, other: Matrix4x4<i64>) -> Matrix4x4<i64> {
        other.scaled_left(self)
    }
}

impl core::ops::Mul<Matrix4x4<i128>> for i128 {
    type Output = Matrix4x4<i128>;

    fn mul(self, other: Matrix4x4<i128>) -> (r: Matrix4x4<i128>) {
        other.scale_left(self)
    }
}

impl vstd::std_specs::ops::MulSpecImpl<Matrix4x4<i128>> for i128 {
    open spec fn obeys_mul_spec() -> bool {
        true
    }

    open spec fn mul_req(self, other: Matrix4x4<i128>) -> bool {
        other.can_scale_left(self)
    }

    open spec fn mul_spec(self, other: Matrix4x4<i128>) -> Matrix4x4<i128> {
        other.scaled_left(self)
    }
}

impl core::ops::Mul<Matrix4x4<isize>> for isize {
    type Output = Matrix4x4<isize>;

    fn mul(self, other: Matrix4x4<isize>) -> (r: Matrix4x4<isize>) {
        other.scale_left(self)
    }
}

impl vstd::std_specs::ops::MulSpecImpl<Matrix4x4<isize>> for isize {
    open spec fn obeys_mul_spec() -> bool {
        true
    }

    open spec fn mul_req(self, other: Matrix4x4<isize>) -> bool {
        other.can_scale_left(self)
    }

    open spec fn mul_spec(self, other: Matrix4x4<isize>) -> Matrix4x4<isize> {
        other.scaled_left(self)
    }
}

impl core::ops::Mul<Matrix4x4<u8>> for u8 {
    type Output = Matrix4x4<u8>;

    fn mul(self, other: Matrix4x4<u8>) -> (r: Matrix4x4<u8>) {
        other.scale_left(self)
    }
}

impl vstd::std_specs::ops::MulSpecImpl<Matrix4x4<u8>> for u8 {
    open spec fn obeys_mul_spec() -> bool {
        true
    }

    open spec fn mul_req(self, other: Matrix4x4<u8>) -> bool {
        other.can_scale_left(self)
    }

    open spec fn mul_spec(self, other: Matrix4x4<u8>) -> Matrix4x4<u8> {
        other.scaled_left(self)
    }
}

impl core::ops::Mul<Matrix4x4<u16>> for u16 {
    type Output = Matrix4x4<u16>;

    fn mul(self, other: Matrix4x4<u16>) -> (r: Matrix4x4<u16>) {
        other.scale_left(self)
    }
}

impl vstd::std_specs::ops::MulSpecImpl<Matrix4x4<u16>> for u16 {
    open spec fn obeys_mul_spec() -> bool {
        true
    }

    open spec fn mul_req(self, other: Matrix4x4<u16>) -> bool {
        other.can_scale_left(self)
    }

    open spec fn mul_spec(self, other: Matrix4x4<u16>) -> Matrix4x4<u16> {
        other.scaled_left(self)
    }
}

impl core::ops::Mul<Matrix4x4<u32>> for u32 {
    type Output = Matrix4x4<u32>;

    fn mul(self, other: Matrix4x4<u32>) -> (r: Matrix4x4<u32>) {
        other.scale_left(self)
    }
}

impl vstd::std_specs::ops::MulSpecImpl<Matrix4x4<u32>> for u32 {
    open spec fn obeys_mul_spec() -> bool {
        true
    }

    open spec fn mul_req(self, other: Matrix4x4<u32>) -> bool {
        other.can_scale_left(self)
    }

    open spec fn mul_spec(self, other: Matrix4x4<u32>) -> Matrix4x4<u32> {
        other.scaled_left(self)
    }
}

impl core::ops::Mul<Matrix4x4<u64>> for u64 {
    type Output = Matrix4x4<u64>;

    fn mul(self, other: Matrix4x4<u64>) -> (r: Matrix4x4<u64>) {
        other.scale_left(self)
    }
}

impl vstd::std_specs::ops::MulSpecImpl<Matrix4x4<u64>> for u64 {
    open spec fn obeys_mul_spec() -> bool {
        true
    }

    open spec fn mul_req(self, other: Matrix4x4<u64>) -> bool {
        other.can_scale_left(self)
    }

    open spec fn mul_spec(self, other: Matrix4x4<u64>) -> Matrix4x4<u64> {
        other.scaled_left(self)
    }
}

impl core::ops::Mul<Matrix4x4<u128>> for u128 {
    type Output = Matrix4x4<u128>;

    fn mul(self, other: Matrix4x4<u128>) -> (r: Matrix4x4<u128>) {
        other.scale_left(self)
    }
}

impl vstd::std_specs::ops::MulSpecImpl<Matrix4x4<u128>> for u128 {
    open spec fn obeys_mul_spec() -> bool {
        true
    }

    open spec fn mul_req(self, other: Matrix4x4<u128>) -> bool {
        other.can_scale_left(self)
    }

    open spec fn mul_spec(self, other: Matrix4x4<u128>) -> Matrix4x4<u128> {
        other.scaled_left(self)
    }
}

impl core::ops::Mul<Matrix4x4<usize>> for usize {
    type Output = Matrix4x4<usize>;

    fn mul(self, other: Matrix4x4<usize>) -> (r: Matrix4x4<usize>) {
        other.scale_left(self)
    }
}

impl vstd::std_specs::ops::MulSpecImpl<Matrix4x4<usize>> for usize {
    open spec fn obeys_mul_spec() -> bool {
        true
    }

    open spec fn mul_req(self, other: Matrix4x4<usize>) -> bool {
        other.can_scale_left(self)
    }

    open spec fn mul_spec(self, other: Matrix4x4<usize>) -> Matrix4x4<usize> {
        other.scaled_left(self)
    }
}

} // verus!
