//! The product of an integer with a vector, with the integer on the left:
//! each component is the integer times the component.

use vstd::prelude::*;
use crate::vector::{Vector1, Vector2, Vector3, Vector4};

verus! {

impl core::ops::Mul<Vector1<i8>> for i8 {
    type Output = Vector1<i8>;

    fn mul(self, other: Vector1<i8>) -> (r: Vector1<i8>) {
        other.scale_left(self)
    }
}

impl vstd::std_specs::ops::MulSpecImpl<Vector1<i8>> for i8 {
    open spec fn obeys_mul_spec() -> bool {
        true
    }

    open spec fn mul_req(self, other: Vector1<i8>) -> bool {
        other.can_scale_left(self)
    }

    open spec fn mul_spec(self, other: Vector1<i8>) -> Vector1<i8> {
        other.scaled_left(self)
    }
}

impl core::ops::Mul<Vector1<i16>> for i16 {
    type Output = Vector1<i16>;

    fn mul(self, other: Vector1<i16>) -> (r: Vector1<i16>) {
        other.scale_left(self)
    }
}

impl vstd::std_specs::ops::MulSpecImpl<Vector1<i16>> for i16 {
    open spec fn obeys_mul_spec() -> bool {
        true
    }

    open spec fn mul_req(self, other: Vector1<i16>) -> bool {
        other.can_scale_left(self)
    }

    open spec fn mul_spec(self, other: Vector1<i16>) -> Vector1<i16> {
        other.scaled_left(self)
    }
}

impl core::ops::Mul<Vector1<i32>> for i32 {
    type Output = Vector1<i32>;

    fn mul(self, other: Vector1<i32>) -> (r: Vector1<i32>) {
        other.scale_left(self)
    }
}

impl vstd::std_specs::ops::MulSpecImpl<Vector1<i32>> for i32 {
    open spec fn obeys_mul_spec() -> bool {
        true
    }

    open spec fn mul_req(self, other: Vector1<i32>) -> bool {
        other.can_scale_left(self)
    }

    open spec fn mul_spec(self, other: Vector1<i32>) -> Vector1<i32> {
        other.scaled_left(self)
    }
}

impl core::ops::Mul<Vector1<i64>> for i64 {
    type Output = Vector1<i64>;

    fn mul(self, other: Vector1<i64>) -> (r: Vector1<i64>) {
        other.scale_left(self)
    }
}

impl vstd::std_specs::ops::MulSpecImpl<Vector1<i64>> for i64 {
    open spec fn obeys_mul_spec() -> bool {
        true
    }

    open spec fn mul_req(self, other: Vector1<i64>) -> bool {
        other.can_scale_left(self)
    }

    open spec fn mul_spec(self, other: Vector1<i64>) -> Vector1<i64> {
        other.scaled_left(self)
    }
}

impl core::ops::Mul<Vector1<i128>> for i128 {
    type Output = Vector1<i128>;

    fn mul(self, other: Vector1<i128>) -> (r: Vector1<i128>) {
        other.scale_left(self)
    }
}

impl vstd::std_specs::ops::MulSpecImpl<Vector1<i128>> for i128 {
    open spec fn obeys_mul_spec() -> bool {
        true
    }

    open spec fn mul_req(self, other: Vector1<i128>) -> bool {
        other.can_scale_left(self)
    }

    open spec fn mul_spec(self, other: Vector1<i128>) -> Vector1<i128> {
        other.scaled_left(self)
    }
}

impl core::ops::Mul<Vector1<isize>> for isize {
    type Output = Vector1<isize>;

    fn mul(self, other: Vector1<isize>) -> (r: Vector1<isize>) {
        other.scale_left(self)
    }
}

impl vstd::std_specs::ops::MulSpecImpl<Vector1<isize>> for isize {
    open spec fn obeys_mul_spec() -> bool {
        true
    }

    open spec fn mul_req(self, other: Vector1<isize>) -> bool {
        other.can_scale_left(self)
    }

    open spec fn mul_spec(self, other: Vector1<isize>) -> Vector1<isize> {
        other.scaled_left(self)
    }
}

impl core::ops::Mul<Vector1<u8>> for u8 {
    type Output = Vector1<u8>;

    fn mul(self, other: Vector1<u8>) -> (r: Vector1<u8>) {
        other.scale_left(self)
    }
}

impl vstd::std_specs::ops::MulSpecImpl<Vector1<u8>> for u8 {
    open spec fn obeys_mul_spec() -> bool {
        true
    }

    open spec fn mul_req(self, other: Vector1<u8>) -> bool {
        other.can_scale_left(self)
    }

    open spec fn mul_spec(self, other: Vector1<u8>) -> Vector1<u8> {
        other.scaled_left(self)
    }
}

impl core::ops::Mul<Vector1<u16>> for u16 {
    type Output = Vector1<u16>;

    fn mul(self, other: Vector1<u16>) -> (r: Vector1<u16>) {
        other.scale_left(self)
    }
}

impl vstd::std_specs::ops::MulSpecImpl<Vector1<u16>> for u16 {
    open spec fn obeys_mul_spec() -> bool {
        true
    }

    open spec fn mul_req(self, other: Vector1<u16>) -> bool {
        other.can_scale_left(self)
    }

    open spec fn mul_spec(self, other: Vector1<u16>) -> Vector1<u16> {
        other.scaled_left(self)
    }
}

impl core::ops::Mul<Vector1<u32>> for u32 {
    type Output = Vector1<u32>;

    fn mul(self, other: Vector1<u32>) -> (r: Vector1<u32>) {
        other.scale_left(self)
    }
}

impl vstd::std_specs::ops::MulSpecImpl<Vector1<u32>> for u32 {
    open spec fn obeys_mul_spec() -> bool {
        true
    }

    open spec fn mul_req(self, other: Vector1<u32>) -> bool {
        other.can_scale_left(self)
    }

    open spec fn mul_spec(self, other: Vector1<u32>) -> Vector1<u32> {
        other.scaled_left(self)
    }
}

impl core::ops::Mul<Vector1<u64>> for u64 {
    type Output = Vector1<u64>;

    fn mul(self, other: Vector1<u64>) -> (r: Vector1<u64>) {
        other.scale_left(self)
    }
}

impl vstd::std_specs::ops::MulSpecImpl<Vector1<u64>> for u64 {
    open spec fn obeys_mul_spec() -> bool {
        true
    }

    open spec fn mul_req(self, other: Vector1<u64>) -> bool {
        other.can_scale_left(self)
    }

    open spec fn mul_spec(self, other: Vector1<u64>) -> Vector1<u64> {
        other.scaled_left(self)
    }
}

impl core::ops::Mul<Vector1<u128>> for u128 {
    type Output = Vector1<u128>;

    fn mul(self, other: Vector1<u128>) -> (r: Vector1<u128>) {
        other.scale_left(self)
    }
}

impl vstd::std_specs::ops::MulSpecImpl<Vector1<u128>> for u128 {
    open spec fn obeys_mul_spec() -> bool {
        true
    }

    open spec fn mul_req(self, other: Vector1<u128>) -> bool {
        other.can_scale_left(self)
    }

    open spec fn mul_spec(self, other: Vector1<u128>) -> Vector1<u128> {
        other.scaled_left(self)
    }
}

impl core::ops::Mul<Vector1<usize>> for usize {
    type Output = Vector1<usize>;

    fn mul(self, other: Vector1<usize>) -> (r: Vector1<usize>) {
        other.scale_left(self)
    }
}

impl vstd::std_specs::ops::MulSpecImpl<Vector1<usize>> for usize {
    open spec fn obeys_mul_spec() -> bool {
        true
    }

    open spec fn mul_req(self, other: Vector1<usize>) -> bool {
        other.can_scale_left(self)
    }

    open spec fn mul_spec(self, other: Vector1<usize>) -> Vector1<usize> {
        other.scaled_left(self)
    }
}

impl core::ops::Mul<Vector2<i8>> for i8 {
    type Output = Vector2<i8>;

    fn mul(self, other: Vector2<i8>) -> (r: Vector2<i8>) {
        other.scale_left(self)
    }
}

impl vstd::std_specs::ops::MulSpecImpl<Vector2<i8>> for i8 {
    open spec fn obeys_mul_spec() -> bool {
        true
    }

    open spec fn mul_req(self, other: Vector2<i8>) -> bool {
        other.can_scale_left(self)
    }

    open spec fn mul_spec(self, other: Vector2<i8>) -> Vector2<i8> {
        other.scaled_left(self)
    }
}

impl core::ops::Mul<Vector2<i16>> for i16 {
    type Output = Vector2<i16>;

    fn mul(self, other: Vector2<i16>) -> (r: Vector2<i16>) {
        other.scale_left(self)
    }
}

impl vstd::std_specs::ops::MulSpecImpl<Vector2<i16>> for i16 {
    open spec fn obeys_mul_spec() -> bool {
        true
    }

    open spec fn mul_req(self, other: Vector2<i16>) -> bool {
        other.can_scale_left(self)
    }

    open spec fn mul_spec(self, other: Vector2<i16>) -> Vector2<i16> {
        other.scaled_left(self)
    }
}

impl core::ops::Mul<Vector2<i32>> for i32 {
    type Output = Vector2<i32>;

    fn mul(self, other: Vector2<i32>) -> (r: Vector2<i32>) {
        other.scale_left(self)
    }
}

impl vstd::std_specs::ops::MulSpecImpl<Vector2<i32>> for i32 {
    open spec fn obeys_mul_spec() -> bool {
        true
    }

    open spec fn mul_req(self, other: Vector2<i32>) -> bool {
        other.can_scale_left(self)
    }

    open spec fn mul_spec(self, other: Vector2<i32>) -> Vector2<i32> {
        other.scaled_left(self)
    }
}

impl core::ops::Mul<Vector2<i64>> for i64 {
    type Output = Vector2<i64>;

    fn mul(self, other: Vector2<i64>) -> (r: Vector2<i64>) {
        other.scale_left(self)
    }
}

impl vstd::std_specs::ops::MulSpecImpl<Vector2<i64>> for i64 {
    open spec fn obeys_mul_spec() -> bool {
        true
    }

    open spec fn mul_req(self, other: Vector2<i64>) -> bool {
        other.can_scale_left(self)
    }

    open spec fn mul_spec(self, other: Vector2<i64>) -> Vector2<i64> {
        other.scaled_left(self)
    }
}

impl core::ops::Mul<Vector2<i128>> for i128 {
    type Output = Vector2<i128>;

    fn mul(self, other: Vector2<i128>) -> (r: Vector2<i128>) {
        other.scale_left(self)
    }
}

impl vstd::std_specs::ops::MulSpecImpl<Vector2<i128>> for i128 {
    open spec fn obeys_mul_spec() -> bool {
        true
    }

    open spec fn mul_req(self, other: Vector2<i128>) -> bool {
        other.can_scale_left(self)
    }

    open spec fn mul_spec(self, other: Vector2<i128>) -> Vector2<i128> {
        other.scaled_left(self)
    }
}

impl core::ops::Mul<Vector2<isize>> for isize {
    type Output = Vector2<isize>;

    fn mul(self, other: Vector2<isize>) -> (r: Vector2<isize>) {
        other.scale_left(self)
    }
}

impl vstd::std_specs::ops::MulSpecImpl<Vector2<isize>> for isize {
    open spec fn obeys_mul_spec() -> bool {
        true
    }

    open spec fn mul_req(self, other: Vector2<isize>) -> bool {
        other.can_scale_left(self)
    }

    open spec fn mul_spec(self, other: Vector2<isize>) -> Vector2<isize> {
        other.scaled_left(self)
    }
}

impl core::ops::Mul<Vector2<u8>> for u8 {
    type Output = Vector2<u8>;

    fn mul(self, other: Vector2<u8>) -> (r: Vector2<u8>) {
        other.scale_left(self)
    }
}

impl vstd::std_specs::ops::MulSpecImpl<Vector2<u8>> for u8 {
    open spec fn obeys_mul_spec() -> bool {
        true
    }

    open spec fn mul_req(self, other: Vector2<u8>) -> bool {
        other.can_scale_left(self)
    }

    open spec fn mul_spec(self, other: Vector2<u8>) -> Vector2<u8> {
        other.scaled_left(self)
    }
}

impl core::ops::Mul<Vector2<u16>> for u16 {
    type Output = Vector2<u16>;

    fn mul(self, other: Vector2<u16>) -> (r: Vector2<u16>) {
        other.scale_left(self)
    }
}

impl vstd::std_specs::ops::MulSpecImpl<Vector2<u16>> for u16 {
    open spec fn obeys_mul_spec() -> bool {
        true
    }

    open spec fn mul_req(self, other: Vector2<u16>) -> bool {
        other.can_scale_left(self)
    }

    open spec fn mul_spec(self, other: Vector2<u16>) -> Vector2<u16> {
        other.scaled_left(self)
    }
}

impl core::ops::Mul<Vector2<u32>> for u32 {
    type Output = Vector2<u32>;

    fn mul(self, other: Vector2<u32>) -> (r: Vector2<u32>) {
        other.scale_left(self)
    }
}

impl vstd::std_specs::ops::MulSpecImpl<Vector2<u32>> for u32 {
    open spec fn obeys_mul_spec() -> bool {
        true
    }

    open spec fn mul_req(self, other: Vector2<u32>) -> bool {
        other.can_scale_left(self)
    }

    open spec fn mul_spec(self, other: Vector2<u32>) -> Vector2<u32> {
        other.scaled_left(self)
    }
}

impl core::ops::Mul<Vector2<u64>> for u64 {
    type Output = Vector2<u64>;

    fn mul(self, other: Vector2<u64>) -> (r: Vector2<u64>) {
        other.scale_left(self)
    }
}

impl vstd::std_specs::ops::MulSpecImpl<Vector2<u64>> for u64 {
    open spec fn obeys_mul_spec() -> bool {
        true
    }

    open spec fn mul_req(self, other: Vector2<u64>) -> bool {
        other.can_scale_left(self)
    }

    open spec fn mul_spec(self, other: Vector2<u64>) -> Vector2<u64> {
        other.scaled_left(self)
    }
}

impl core::ops::Mul<Vector2<u128>> for u128 {
    type Output = Vector2<u128>;

    fn mul(self, other: Vector2<u128>) -> (r: Vector2<u128>) {
        other.scale_left(self)
    }
}

impl vstd::std_specs::ops::MulSpecImpl<Vector2<u128>> for u128 {
    open spec fn obeys_mul_spec() -> bool {
        true
    }

    open spec fn mul_req(self, other: Vector2<u128>) -> bool {
        other.can_scale_left(self)
    }

    open spec fn mul_spec(self, other: Vector2<u128>) -> Vector2<u128> {
        other.scaled_left(self)
    }
}

impl core::ops::Mul<Vector2<usize>> for usize {
    type Output = Vector2<usize>;

    fn mul(self, other: Vector2<usize>) -> (r: Vector2<usize>) {
        other.scale_left(self)
    }
}

impl vstd::std_specs::ops::MulSpecImpl<Vector2<usize>> for usize {
    open spec fn obeys_mul_spec() -> bool {
        true
    }

    open spec fn mul_req(self, other: Vector2<usize>) -> bool {
        other.can_scale_left(self)
    }

    open spec fn mul_spec(self, other: Vector2<usize>) -> Vector2<usize> {
        other.scaled_left(self)
    }
}

impl core::ops::Mul<Vector3<i8>> for i8 {
    type Output = Vector3<i8>;

    fn mul(self, other: Vector3<i8>) -> (r: Vector3<i8>) {
        other.scale_left(self)
    }
}

impl vstd::std_specs::ops::MulSpecImpl<Vector3<i8>> for i8 {
    open spec fn obeys_mul_spec() -> bool {
        true
    }

    open spec fn mul_req(self, other: Vector3<i8>) -> bool {
        other.can_scale_left(self)
    }

    open spec fn mul_spec(self, other: Vector3<i8>) -> Vector3<i8> {
        other.scaled_left(self)
    }
}

impl core::ops::Mul<Vector3<i16>> for i16 {
    type Output = Vector3<i16>;

    fn mul(self, other: Vector3<i16>) -> (r: Vector3<i16>) {
        other.scale_left(self)
    }
}

impl vstd::std_specs::ops::MulSpecImpl<Vector3<i16>> for i16 {
    open spec fn obeys_mul_spec() -> bool {
        true
    }

    open spec fn mul_req(self, other: Vector3<i16>) -> bool {
        other.can_scale_left(self)
    }

    open spec fn mul_spec(self, other: Vector3<i16>) -> Vector3<i16> {
        other.scaled_left(self)
    }
}

impl core::ops::Mul<Vector3<i32>> for i32 {
    type Output = Vector3<i32>;

    fn mul(self, other: Vector3<i32>) -> (r: Vector3<i32>) {
        other.scale_left(self)
    }
}

impl vstd::std_specs::ops::MulSpecImpl<Vector3<i32>> for i32 {
    open spec fn obeys_mul_spec() -> bool {
        true
    }

    open spec fn mul_req(self, other: Vector3<i32>) -> bool {
        other.can_scale_left(self)
    }

    open spec fn mul_spec(self, other: Vector3<i32>) -> Vector3<i32> {
        other.scaled_left(self)
    }
}

impl core::ops::Mul<Vector3<i64>> for i64 {
    type Output = Vector3<i64>;

    fn mul(self, other: Vector3<i64>) -> (r: Vector3<i64>) {
        other.scale_left(self)
    }
}

impl vstd::std_specs::ops::MulSpecImpl<Vector3<i64>> for i64 {
    open spec fn obeys_mul_spec() -> bool {
        true
    }

    open spec fn mul_req(self, other: Vector3<i64>) -> bool {
        other.can_scale_left(self)
    }

    open spec fn mul_spec(self, other: Vector3<i64>) -> Vector3<i64> {
        other.scaled_left(self)
    }
}

impl core::ops::Mul<Vector3<i128>> for i128 {
    type Output = Vector3<i128>;

    fn mul(self, other: Vector3<i128>) -> (r: Vector3<i128>) {
        other.scale_left(self)
    }
}

impl vstd::std_specs::ops::MulSpecImpl<Vector3<i128>> for i128 {
    open spec fn obeys_mul_spec() -> bool {
        true
    }

    open spec fn mul_req(self, other: Vector3<i128>) -> bool {
        other.can_scale_left(self)
    }

    open spec fn mul_spec(self, other: Vector3<i128>) -> Vector3<i128> {
        other.scaled_left(self)
    }
}

impl core::ops::Mul<Vector3<isize>> for isize {
    type Output = Vector3<isize>;

    fn mul(self, other: Vector3<isize>) -> (r: Vector3<isize>) {
        other.scale_left(self)
    }
}

impl vstd::std_specs::ops::MulSpecImpl<Vector3<isize>> for isize {
    open spec fn obeys_mul_spec() -> bool {
        true
    }

    open spec fn mul_req(self, other: Vector3<isize>) -> bool {
        other.can_scale_left(self)
    }

    open spec fn mul_spec(self, other: Vector3<isize>) -> Vector3<isize> {
        other.scaled_left(self)
    }
}

impl core::ops::Mul<Vector3<u8>> for u8 {
    type Output = Vector3<u8>;

    fn mul(self, other: Vector3<u8>) -> (r: Vector3<u8>) {
        other.scale_left(self)
    }
}

impl vstd::std_specs::ops::MulSpecImpl<Vector3<u8>> for u8 {
    open spec fn obeys_mul_spec() -> bool {
        true
    }

    open spec fn mul_req(self, other: Vector3<u8>) -> bool {
        other.can_scale_left(self)
    }

    open spec fn mul_spec(self, other: Vector3<u8>) -> Vector3<u8> {
        other.scaled_left(self)
    }
}

impl core::ops::Mul<Vector3<u16>> for u16 {
    type Output = Vector3<u16>;

    fn mul(self, other: Vector3<u16>) -> (r: Vector3<u16>) {
        other.scale_left(self)
    }
}

impl vstd::std_specs::ops::MulSpecImpl<Vector3<u16>> for u16 {
    open spec fn obeys_mul_spec() -> bool {
        true
    }

    open spec fn mul_req(self, other: Vector3<u16>) -> bool {
        other.can_scale_left(self)
    }

    open spec fn mul_spec(self, other: Vector3<u16>) -> Vector3<u16> {
        other.scaled_left(self)
    }
}

impl core::ops::Mul<Vector3<u32>> for u32 {
    type Output = Vector3<u32>;

    fn mul(self, other: Vector3<u32>) -> (r: Vector3<u32>) {
        other.scale_left(self)
    }
}

impl vstd::std_specs::ops::MulSpecImpl<Vector3<u32>> for u32 {
    open spec fn obeys_mul_spec() -> bool {
        true
    }

    open spec fn mul_req(self, other: Vector3<u32>) -> bool {
        other.can_scale_left(self)
    }

    open spec fn mul_spec(self, other: Vector3<u32>) -> Vector3<u32> {
        other.scaled_left(self)
    }
}

impl core::ops::Mul<Vector3<u64>> for u64 {
    type Output = Vector3<u64>;

    fn mul(self, other: Vector3<u64>) -> (r: Vector3<u64>) {
        other.scale_left(self)
    }
}

impl vstd::std_specs::ops::MulSpecImpl<Vector3<u64>> for u64 {
    open spec fn obeys_mul_spec() -> bool {
        true
    }

    open spec fn mul_req(self, other: Vector3<u64>) -> bool {
        other.can_scale_left(self)
    }

    open spec fn mul_spec(self, other: Vector3<u64>) -> Vector3<u64> {
        other.scaled_left(self)
    }
}

impl core::ops::Mul<Vector3<u128>> for u128 {
    type Output = Vector3<u128>;

    fn mul(self, other: Vector3<u128>) -> (r: Vector3<u128>) {
        other.scale_left(self)
    }
}

impl vstd::std_specs::ops::MulSpecImpl<Vector3<u128>> for u128 {
    open spec fn obeys_mul_spec() -> bool {
        true
    }

    open spec fn mul_req(self, other: Vector3<u128>) -> bool {
        other.can_scale_left(self)
    }

    open spec fn mul_spec(self, other: Vector3<u128>) -> Vector3<u128> {
        other.scaled_left(self)
    }
}

impl core::ops::Mul<Vector3<usize>> for usize {
    type Output = Vector3<usize>;

    fn mul(self, other: Vector3<usize>) -> (r: Vector3<usize>) {
        other.scale_left(self)
    }
}

impl vstd::std_specs::ops::MulSpecImpl<Vector3<usize>> for usize {
    open spec fn obeys_mul_spec() -> bool {
        true
    }

    open spec fn mul_req(self, other: Vector3<usize>) -> bool {
        other.can_scale_left(self)
    }

    open spec fn mul_spec(self, other: Vector3<usize>) -> Vector3<usize> {
        other.scaled_left(self)
    }
}

impl core::ops::Mul<Vector4<i8>> for i8 {
    type Output = Vector4<i8>;

    fn mul(self, other: Vector4<i8>) -> (r: Vector4<i8>) {
        other.scale_left(self)
    }
}

impl vstd::std_specs::ops::MulSpecImpl<Vector4<i8>> for i8 {
    open spec fn obeys_mul_spec() -> bool {
        true
    }

    open spec fn mul_req(self, other: Vector4<i8>) -> bool {
        other.can_scale_left(self)
    }

    open spec fn mul_spec(self, other: Vector4<i8>) -> Vector4<i8> {
        other.scaled_left(self)
    }
}

impl core::ops::Mul<Vector4<i16>> for i16 {
    type Output = Vector4<i16>;

    fn mul(self, other: Vector4<i16>) -> (r: Vector4<i16>) {
        other.scale_left(self)
    }
}

impl vstd::std_specs::ops::MulSpecImpl<Vector4<i16>> for i16 {
    open spec fn obeys_mul_spec() -> bool {
        true
    }

    open spec fn mul_req(self, other: Vector4<i16>) -> bool {
        other.can_scale_left(self)
    }

    open spec fn mul_spec(self, other: Vector4<i16>) -> Vector4<i16> {
        other.scaled_left(self)
    }
}

impl core::ops::Mul<Vector4<i32>> for i32 {
    type Output = Vector4<i32>;

    fn mul(self, other: Vector4<i32>) -> (r: Vector4<i32>) {
        other.scale_left(self)
    }
}

impl vstd::std_specs::ops::MulSpecImpl<Vector4<i32>> for i32 {
    open spec fn obeys_mul_spec() -> bool {
        true
    }

    open spec fn mul_req(self, other: Vector4<i32>) -> bool {
        other.can_scale_left(self)
    }

    open spec fn mul_spec(self, other: Vector4<i32>) -> Vector4<i32> {
        other.scaled_left(self)
    }
}

impl core::ops::Mul<Vector4<i64>> for i64 {
    type Output = Vector4<i64>;

    fn mul(self, other: Vector4<i64>) -> (r: Vector4<i64>) {
        other.scale_left(self)
    }
}

impl vstd::std_specs::ops::MulSpecImpl<Vector4<i64>> for i64 {
    open spec fn obeys_mul_spec() -> bool {
        true
    }

    open spec fn mul_req(self, other: Vector4<i64>) -> bool {
        other.can_scale_left(self)
    }

    open spec fn mul_spec(self, other: Vector4<i64>) -> Vector4<i64> {
        other.scaled_left(self)
    }
}

impl core::ops::Mul<Vector4<i128>> for i128 {
    type Output = Vector4<i128>;

    fn mul(self, other: Vector4<i128>) -> (r: Vector4<i128>) {
        other.scale_left(self)
    }
}

impl vstd::std_specs::ops::MulSpecImpl<Vector4<i128>> for i128 {
    open spec fn obeys_mul_spec() -> bool {
        true
    }

    open spec fn mul_req(self, other: Vector4<i128>) -> bool {
        other.can_scale_left(self)
    }

    open spec fn mul_spec(self, other: Vector4<i128>) -> Vector4<i128> {
        other.scaled_left(self)
    }
}

impl core::ops::Mul<Vector4<isize>> for isize {
    type Output = Vector4<isize>;

    fn mul(self, other: Vector4<isize>) -> (r: Vector4<isize>) {
        other.scale_left(self)
    }
}

impl vstd::std_specs::ops::MulSpecImpl<Vector4<isize>> for isize {
    open spec fn obeys_mul_spec() -> bool {
        true
    }

    open spec fn mul_req(self, other: Vector4<isize>) -> bool {
        other.can_scale_left(self)
    }

    open spec fn mul_spec(self, other: Vector4<isize>) -> Vector4<isize> {
        other.scaled_left(self)
    }
}

impl core::ops::Mul<Vector4<u8>> for u8 {
    type Output = Vector4<u8>;

    fn mul(self, other: Vector4<u8>) -> (r: Vector4<u8>) {
        other.scale_left(self)
    }
}

impl vstd::std_specs::ops::MulSpecImpl<Vector4<u8>> for u8 {
    open spec fn obeys_mul_spec() -> bool {
        true
    }

    open spec fn mul_req(self, other: Vector4<u8>) -> bool {
        other.can_scale_left(self)
    }

    open spec fn mul_spec(self, other: Vector4<u8>) -> Vector4<u8> {
        other.scaled_left(self)
    }
}

impl core::ops::Mul<Vector4<u16>> for u16 {
    type Output = Vector4<u16>;

    fn mul(self, other: Vector4<u16>) -> (r: Vector4<u16>) {
        other.scale_left(self)
    }
}

impl vstd::std_specs::ops::MulSpecImpl<Vector4<u16>> for u16 {
    open spec fn obeys_mul_spec() -> bool {
        true
    }

    open spec fn mul_req(self, other: Vector4<u16>) -> bool {
        other.can_scale_left(self)
    }

    open spec fn mul_spec(self, other: Vector4<u16>) -> Vector4<u16> {
        other.scaled_left(self)
    }
}

impl core::ops::Mul<Vector4<u32>> for u32 {
    type Output = Vector4<u32>;

    fn mul(self, other: Vector4<u32>) -> (r: Vector4<u32>) {
        other.scale_left(self)
    }
}

impl vstd::std_specs::ops::MulSpecImpl<Vector4<u32>> for u32 {
    open spec fn obeys_mul_spec() -> bool {
        true
    }

    open spec fn mul_req(self, other: Vector4<u32>) -> bool {
        other.can_scale_left(self)
    }

    open spec fn mul_spec(self, other: Vector4<u32>) -> Vector4<u32> {
        other.scaled_left(self)
    }
}

impl core::ops::Mul<Vector4<u64>> for u64 {
    type Output = Vector4<u64>;

    fn mul(self, other: Vector4<u64>) -> (r: Vector4<u64>) {
        other.scale_left(self)
    }
}

impl vstd::std_specs::ops::MulSpecImpl<Vector4<u64>> for u64 {
    open spec fn obeys_mul_spec() -> bool {
        true
    }

    open spec fn mul_req(self, other: Vector4<u64>) -> bool {
        other.can_scale_left(self)
    }

    open spec fn mul_spec(self, other: Vector4<u64>) -> Vector4<u64> {
        other.scaled_left(self)
    }
}

impl core::ops::Mul<Vector4<u128>> for u128 {
    type Output = Vector4<u128>;

    fn mul(self, other: Vector4<u128>) -> (r: Vector4<u128>) {
        other.scale_left(self)
    }
}

impl vstd::std_specs::ops::MulSpecImpl<Vector4<u128>> for u128 {
    open spec fn obeys_mul_spec() -> bool {
        true
    }

    open spec fn mul_req(self, other: Vector4<u128>) -> bool {
        other.can_scale_left(self)
    }

    open spec fn mul_spec(self, other: Vector4<u128>) -> Vector4<u128> {
        other.scaled_left(self)
    }
}

impl core::ops::Mul<Vector4<usize>> for usize {
    type Output = Vector4<usize>;

    fn mul(self, other: Vector4<usize>) -> (r: Vector4<usize>) {
        other.scale_left(self)
    }
}

impl vstd::std_specs::ops::MulSpecImpl<Vector4<usize>> for usize {
    open spec fn obeys_mul_spec() -> bool {
        true
    }

    open spec fn mul_req(self, other: Vector4<usize>) -> bool {
        other.can_scale_left(self)
    }

    open spec fn mul_spec(self, other: Vector4<usize>) -> Vector4<usize> {
        other.scaled_left(self)
    }
}

} // verus!
