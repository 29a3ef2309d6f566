//! The fixed-width integers as scalars.

use vstd::prelude::*;
use crate::scalar::{ExactScalar, ExactSigned, Scalar, ScalarSigned};

verus! {

impl Scalar for i8 {
    open spec fn zero_spec() -> Self {
        0
    }

    open spec fn one_spec() -> Self {
        1
    }

    open spec fn can_add(self, rhs: Self) -> bool {
        i8::MIN <= self + rhs <= i8::MAX
    }

    open spec fn plus(self, rhs: Self) -> Self {
        (self + rhs) as i8
    }

    open spec fn can_sub(self, rhs: Self) -> bool {
        i8::MIN <= self - rhs <= i8::MAX
    }

    open spec fn minus(self, rhs: Self) -> Self {
        (self - rhs) as i8
    }

    open spec fn can_mul(self, rhs: Self) -> bool {
        i8::MIN <= self * rhs <= i8::MAX
    }

    open spec fn times(self, rhs: Self) -> Self {
        (self * rhs) as i8
    }

    open spec fn can_div(self, rhs: Self) -> bool {
        rhs != 0 && !(self == i8::MIN && rhs == -1)
    }

    open spec fn over(self, rhs: Self) -> Self {
        if self >= 0 {
            (self / rhs) as i8
        } else {
            (-((-self) / (rhs as int))) as i8
        }
    }

    open spec fn can_rem(self, rhs: Self) -> bool {
        rhs != 0 && !(self == i8::MIN && rhs == -1)
    }

    open spec fn modulo(self, rhs: Self) -> Self {
        if self >= 0 {
            (self % rhs) as i8
        } else {
            (-((-self) % (rhs as int))) as i8
        }
    }

    open spec fn same(self, rhs: Self) -> bool {
        self == rhs
    }

    open spec fn less(self, rhs: Self) -> bool {
        self < rhs
    }

    fn zero() -> (r: Self) {
        0
    }

    fn one() -> (r: Self) {
        1
    }

    fn add(self, rhs: Self) -> (r: Self) {
        self + rhs
    }

    fn sub(self, rhs: Self) -> (r: Self) {
        self - rhs
    }

    fn mul(self, rhs: Self) -> (r: Self) {
        self * rhs
    }

    fn div(self, rhs: Self) -> (r: Self) {
        self / rhs
    }

    fn rem(self, rhs: Self) -> (r: Self) {
        self % rhs
    }

    fn equals(self, rhs: Self) -> (b: bool) {
        self == rhs
    }

    fn less_than(self, rhs: Self) -> (b: bool) {
        self < rhs
    }
}

impl ExactScalar for i8 {
    open spec fn value(self) -> int {
        self as int
    }

    proof fn lemma_value_injective(a: Self, b: Self) {
    }

    proof fn lemma_same(a: Self, b: Self) {
    }

    proof fn lemma_less(a: Self, b: Self) {
    }

    proof fn lemma_identities() {
    }

    proof fn lemma_identities_defined(a: Self) {
    }

    proof fn lemma_reciprocal_of_one() {
    }

    proof fn lemma_add(a: Self, b: Self) {
    }

    proof fn lemma_sub(a: Self, b: Self) {
    }

    proof fn lemma_mul(a: Self, b: Self) {
    }
}

impl ScalarSigned for i8 {
    open spec fn can_neg(self) -> bool {
        self != i8::MIN
    }

    open spec fn negated(self) -> Self {
        (-self) as i8
    }

    fn neg(self) -> (r: Self) {
        -self
    }
}

impl ExactSigned for i8 {
    proof fn lemma_neg(a: Self) {
    }

    proof fn lemma_reciprocal_of_minus_one() {
    }
}

impl Scalar for u8 {
    open spec fn zero_spec() -> Self {
        0
    }

    open spec fn one_spec() -> Self {
        1
    }

    open spec fn can_add(self, rhs: Self) -> bool {
        u8::MIN <= self + rhs <= u8::MAX
    }

    open spec fn plus(self, rhs: Self) -> Self {
        (self + rhs) as u8
    }

    open spec fn can_sub(self, rhs: Self) -> bool {
        u8::MIN <= self - rhs <= u8::MAX
    }

    open spec fn minus(self, rhs: Self) -> Self {
        (self - rhs) as u8
    }

    open spec fn can_mul(self, rhs: Self) -> bool {
        u8::MIN <= self * rhs <= u8::MAX
    }

    open spec fn times(self, rhs: Self) -> Self {
        (self * rhs) as u8
    }

    open spec fn can_div(self, rhs: Self) -> bool {
        rhs != 0
    }

    open spec fn over(self, rhs: Self) -> Self {
        (self / rhs) as u8
    }

    open spec fn can_rem(self, rhs: Self) -> bool {
        rhs != 0
    }

    open spec fn modulo(self, rhs: Self) -> Self {
        (self % rhs) as u8
    }

    open spec fn same(self, rhs: Self) -> bool {
        self == rhs
    }

    open spec fn less(self, rhs: Self) -> bool {
        self < rhs
    }

    fn zero() -> (r: Self) {
        0
    }

    fn one() -> (r: Self) {
        1
    }

    fn add(self, rhs: Self) -> (r: Self) {
        self + rhs
    }

    fn sub(self, rhs: Self) -> (r: Self) {
        self - rhs
    }

    fn mul(self, rhs: Self) -> (r: Self) {
        self * rhs
    }

    fn div(self, rhs: Self) -> (r: Self) {
        self / rhs
    }

    fn rem(self, rhs: Self) -> (r: Self) {
        self % rhs
    }

    fn equals(self, rhs: Self) -> (b: bool) {
        self == rhs
    }

    fn less_than(self, rhs: Self) -> (b: bool) {
        self < rhs
    }
}

impl ExactScalar for u8 {
    open spec fn value(self) -> int {
        self as int
    }

    proof fn lemma_value_injective(a: Self, b: Self) {
    }

    proof fn lemma_same(a: Self, b: Self) {
    }

    proof fn lemma_less(a: Self, b: Self) {
    }

    proof fn lemma_identities() {
    }

    proof fn lemma_identities_defined(a: Self) {
    }

    proof fn lemma_reciprocal_of_one() {
    }

    proof fn lemma_add(a: Self, b: Self) {
    }

    proof fn lemma_sub(a: Self, b: Self) {
    }

    proof fn lemma_mul(a: Self, b: Self) {
    }
}

impl Scalar for i16 {
    open spec fn zero_spec() -> Self {
        0
    }

    open spec fn one_spec() -> Self {
        1
    }

    open spec fn can_add(self, rhs: Self) -> bool {
        i16::MIN <= self + rhs <= i16::MAX
    }

    open spec fn plus(self, rhs: Self) -> Self {
        (self + rhs) as i16
    }

    open spec fn can_sub(self, rhs: Self) -> bool {
        i16::MIN <= self - rhs <= i16::MAX
    }

    open spec fn minus(self, rhs: Self) -> Self {
        (self - rhs) as i16
    }

    open spec fn can_mul(self, rhs: Self) -> bool {
        i16::MIN <= self * rhs <= i16::MAX
    }

    open spec fn times(self, rhs: Self) -> Self {
        (self * rhs) as i16
    }

    open spec fn can_div(self, rhs: Self) -> bool {
        rhs != 0 && !(self == i16::MIN && rhs == -1)
    }

    open spec fn over(self, rhs: Self) -> Self {
        if self >= 0 {
            (self / rhs) as i16
        } else {
            (-((-self) / (rhs as int))) as i16
        }
    }

    open spec fn can_rem(self, rhs: Self) -> bool {
        rhs != 0 && !(self == i16::MIN && rhs == -1)
    }

    open spec fn modulo(self, rhs: Self) -> Self {
        if self >= 0 {
            (self % rhs) as i16
        } else {
            (-((-self) % (rhs as int))) as i16
        }
    }

    open spec fn same(self, rhs: Self) -> bool {
        self == rhs
    }

    open spec fn less(self, rhs: Self) -> bool {
        self < rhs
    }

    fn zero() -> (r: Self) {
        0
    }

    fn one() -> (r: Self) {
        1
    }

    fn add(self, rhs: Self) -> (r: Self) {
        self + rhs
    }

    fn sub(self, rhs: Self) -> (r: Self) {
        self - rhs
    }

    fn mul(self, rhs: Self) -> (r: Self) {
        self * rhs
    }

    fn div(self, rhs: Self) -> (r: Self) {
        self / rhs
    }

    fn rem(self, rhs: Self) -> (r: Self) {
        self % rhs
    }

    fn equals(self, rhs: Self) -> (b: bool) {
        self == rhs
    }

    fn less_than(self, rhs: Self) -> (b: bool) {
        self < rhs
    }
}

impl ExactScalar for i16 {
    open spec fn value(self) -> int {
        self as int
    }

    proof fn lemma_value_injective(a: Self, b: Self) {
    }

    proof fn lemma_same(a: Self, b: Self) {
    }

    proof fn lemma_less(a: Self, b: Self) {
    }

    proof fn lemma_identities() {
    }

    proof fn lemma_identities_defined(a: Self) {
    }

    proof fn lemma_reciprocal_of_one() {
    }

    proof fn lemma_add(a: Self, b: Self) {
    }

    proof fn lemma_sub(a: Self, b: Self) {
    }

    proof fn lemma_mul(a: Self, b: Self) {
    }
}

impl ScalarSigned for i16 {
    open spec fn can_neg(self) -> bool {
        self != i16::MIN
    }

    open spec fn negated(self) -> Self {
        (-self) as i16
    }

    fn neg(self) -> (r: Self) {
        -self
    }
}

impl ExactSigned for i16 {
    proof fn lemma_neg(a: Self) {
    }

    proof fn lemma_reciprocal_of_minus_one() {
    }
}

impl Scalar for u16 {
    open spec fn zero_spec() -> Self {
        0
    }

    open spec fn one_spec() -> Self {
        1
    }

    open spec fn can_add(self, rhs: Self) -> bool {
        u16::MIN <= self + rhs <= u16::MAX
    }

    open spec fn plus(self, rhs: Self) -> Self {
        (self + rhs) as u16
    }

    open spec fn can_sub(self, rhs: Self) -> bool {
        u16::MIN <= self - rhs <= u16::MAX
    }

    open spec fn minus(self, rhs: Self) -> Self {
        (self - rhs) as u16
    }

    open spec fn can_mul(self, rhs: Self) -> bool {
        u16::MIN <= self * rhs <= u16::MAX
    }

    open spec fn times(self, rhs: Self) -> Self {
        (self * rhs) as u16
    }

    open spec fn can_div(self, rhs: Self) -> bool {
        rhs != 0
    }

    open spec fn over(self, rhs: Self) -> Self {
        (self / rhs) as u16
    }

    open spec fn can_rem(self, rhs: Self) -> bool {
        rhs != 0
    }

    open spec fn modulo(self, rhs: Self) -> Self {
        (self % rhs) as u16
    }

    open spec fn same(self, rhs: Self) -> bool {
        self == rhs
    }

    open spec fn less(self, rhs: Self) -> bool {
        self < rhs
    }

    fn zero() -> (r: Self) {
        0
    }

    fn one() -> (r: Self) {
        1
    }

    fn add(self, rhs: Self) -> (r: Self) {
        self + rhs
    }

    fn sub(self, rhs: Self) -> (r: Self) {
        self - rhs
    }

    fn mul(self, rhs: Self) -> (r: Self) {
        self * rhs
    }

    fn div(self, rhs: Self) -> (r: Self) {
        self / rhs
    }

    fn rem(self, rhs: Self) -> (r: Self) {
        self % rhs
    }

    fn equals(self, rhs: Self) -> (b: bool) {
        self == rhs
    }

    fn less_than(self, rhs: Self) -> (b: bool) {
        self < rhs
    }
}

impl ExactScalar for u16 {
    open spec fn value(self) -> int {
        self as int
    }

    proof fn lemma_value_injective(a: Self, b: Self) {
    }

    proof fn lemma_same(a: Self, b: Self) {
    }

    proof fn lemma_less(a: Self, b: Self) {
    }

    proof fn lemma_identities() {
    }

    proof fn lemma_identities_defined(a: Self) {
    }

    proof fn lemma_reciprocal_of_one() {
    }

    proof fn lemma_add(a: Self, b: Self) {
    }

    proof fn lemma_sub(a: Self, b: Self) {
    }

    proof fn lemma_mul(a: Self, b: Self) {
    }
}

impl Scalar for i32 {
    open spec fn zero_spec() -> Self {
        0
    }

    open spec fn one_spec() -> Self {
        1
    }

    open spec fn can_add(self, rhs: Self) -> bool {
        i32::MIN <= self + rhs <= i32::MAX
    }

    open spec fn plus(self, rhs: Self) -> Self {
        (self + rhs) as i32
    }

    open spec fn can_sub(self, rhs: Self) -> bool {
        i32::MIN <= self - rhs <= i32::MAX
    }

    open spec fn minus(self, rhs: Self) -> Self {
        (self - rhs) as i32
    }

    open spec fn can_mul(self, rhs: Self) -> bool {
        i32::MIN <= self * rhs <= i32::MAX
    }

    open spec fn times(self, rhs: Self) -> Self {
        (self * rhs) as i32
    }

    open spec fn can_div(self, rhs: Self) -> bool {
        rhs != 0 && !(self == i32::MIN && rhs == -1)
    }

    open spec fn over(self, rhs: Self) -> Self {
        if self >= 0 {
            (self / rhs) as i32
        } else {
            (-((-self) / (rhs as int))) as i32
        }
    }

    open spec fn can_rem(self, rhs: Self) -> bool {
        rhs != 0 && !(self == i32::MIN && rhs == -1)
    }

    open spec fn modulo(self, rhs: Self) -> Self {
        if self >= 0 {
            (self % rhs) as i32
        } else {
            (-((-self) % (rhs as int))) as i32
        }
    }

    open spec fn same(self, rhs: Self) -> bool {
        self == rhs
    }

    open spec fn less(self, rhs: Self) -> bool {
        self < rhs
    }

    fn zero() -> (r: Self) {
        0
    }

    fn one() -> (r: Self) {
        1
    }

    fn add(self, rhs: Self) -> (r: Self) {
        self + rhs
    }

    fn sub(self, rhs: Self) -> (r: Self) {
        self - rhs
    }

    fn mul(self, rhs: Self) -> (r: Self) {
        self * rhs
    }

    fn div(self, rhs: Self) -> (r: Self) {
        self / rhs
    }

    fn rem(self, rhs: Self) -> (r: Self) {
        self % rhs
    }

    fn equals(self, rhs: Self) -> (b: bool) {
        self == rhs
    }

    fn less_than(self, rhs: Self) -> (b: bool) {
        self < rhs
    }
}

impl ExactScalar for i32 {
    open spec fn value(self) -> int {
        self as int
    }

    proof fn lemma_value_injective(a: Self, b: Self) {
    }

    proof fn lemma_same(a: Self, b: Self) {
    }

    proof fn lemma_less(a: Self, b: Self) {
    }

    proof fn lemma_identities() {
    }

    proof fn lemma_identities_defined(a: Self) {
    }

    proof fn lemma_reciprocal_of_one() {
    }

    proof fn lemma_add(a: Self, b: Self) {
    }

    proof fn lemma_sub(a: Self, b: Self) {
    }

    proof fn lemma_mul(a: Self, b: Self) {
    }
}

impl ScalarSigned for i32 {
    open spec fn can_neg(self) -> bool {
        self != i32::MIN
    }

    open spec fn negated(self) -> Self {
        (-self) as i32
    }

    fn neg(self) -> (r: Self) {
        -self
    }
}

impl ExactSigned for i32 {
    proof fn lemma_neg(a: Self) {
    }

    proof fn lemma_reciprocal_of_minus_one() {
    }
}

impl Scalar for u32 {
    open spec fn zero_spec() -> Self {
        0
    }

    open spec fn one_spec() -> Self {
        1
    }

    open spec fn can_add(self, rhs: Self) -> bool {
        u32::MIN <= self + rhs <= u32::MAX
    }

    open spec fn plus(self, rhs: Self) -> Self {
        (self + rhs) as u32
    }

    open spec fn can_sub(self, rhs: Self) -> bool {
        u32::MIN <= self - rhs <= u32::MAX
    }

    open spec fn minus(self, rhs: Self) -> Self {
        (self - rhs) as u32
    }

    open spec fn can_mul(self, rhs: Self) -> bool {
        u32::MIN <= self * rhs <= u32::MAX
    }

    open spec fn times(self, rhs: Self) -> Self {
        (self * rhs) as u32
    }

    open spec fn can_div(self, rhs: Self) -> bool {
        rhs != 0
    }

    open spec fn over(self, rhs: Self) -> Self {
        (self / rhs) as u32
    }

    open spec fn can_rem(self, rhs: Self) -> bool {
        rhs != 0
    }

    open spec fn modulo(self, rhs: Self) -> Self {
        (self % rhs) as u32
    }

    open spec fn same(self, rhs: Self) -> bool {
        self == rhs
    }

    open spec fn less(self, rhs: Self) -> bool {
        self < rhs
    }

    fn zero() -> (r: Self) {
        0
    }

    fn one() -> (r: Self) {
        1
    }

    fn add(self, rhs: Self) -> (r: Self) {
        self + rhs
    }

    fn sub(self, rhs: Self) -> (r: Self) {
        self - rhs
    }

    fn mul(self, rhs: Self) -> (r: Self) {
        self * rhs
    }

    fn div(self, rhs: Self) -> (r: Self) {
        self / rhs
    }

    fn rem(self, rhs: Self) -> (r: Self) {
        self % rhs
    }

    fn equals(self, rhs: Self) -> (b: bool) {
        self == rhs
    }

    fn less_than(self, rhs: Self) -> (b: bool) {
        self < rhs
    }
}

impl ExactScalar for u32 {
    open spec fn value(self) -> int {
        self as int
    }

    proof fn lemma_value_injective(a: Self, b: Self) {
    }

    proof fn lemma_same(a: Self, b: Self) {
    }

    proof fn lemma_less(a: Self, b: Self) {
    }

    proof fn lemma_identities() {
    }

    proof fn lemma_identities_defined(a: Self) {
    }

    proof fn lemma_reciprocal_of_one() {
    }

    proof fn lemma_add(a: Self, b: Self) {
    }

    proof fn lemma_sub(a: Self, b: Self) {
    }

    proof fn lemma_mul(a: Self, b: Self) {
    }
}

impl Scalar for i64 {
    open spec fn zero_spec() -> Self {
        0
    }

    open spec fn one_spec() -> Self {
        1
    }

    open spec fn can_add(self, rhs: Self) -> bool {
        i64::MIN <= self + rhs <= i64::MAX
    }

    open spec fn plus(self, rhs: Self) -> Self {
        (self + rhs) as i64
    }

    open spec fn can_sub(self, rhs: Self) -> bool {
        i64::MIN <= self - rhs <= i64::MAX
    }

    open spec fn minus(self, rhs: Self) -> Self {
        (self - rhs) as i64
    }

    open spec fn can_mul(self, rhs: Self) -> bool {
        i64::MIN <= self * rhs <= i64::MAX
    }

    open spec fn times(self, rhs: Self) -> Self {
        (self * rhs) as i64
    }

    open spec fn can_div(self, rhs: Self) -> bool {
        rhs != 0 && !(self == i64::MIN && rhs == -1)
    }

    open spec fn over(self, rhs: Self) -> Self {
        if self >= 0 {
            (self / rhs) as i64
        } else {
            (-((-self) / (rhs as int))) as i64
        }
    }

    open spec fn can_rem(self, rhs: Self) -> bool {
        rhs != 0 && !(self == i64::MIN && rhs == -1)
    }

    open spec fn modulo(self, rhs: Self) -> Self {
        if self >= 0 {
            (self % rhs) as i64
        } else {
            (-((-self) % (rhs as int))) as i64
        }
    }

    open spec fn same(self, rhs: Self) -> bool {
        self == rhs
    }

    open spec fn less(self, rhs: Self) -> bool {
        self < rhs
    }

    fn zero() -> (r: Self) {
        0
    }

    fn one() -> (r: Self) {
        1
    }

    fn add(self, rhs: Self) -> (r: Self) {
        self + rhs
    }

    fn sub(self, rhs: Self) -> (r: Self) {
        self - rhs
    }

    fn mul(self, rhs: Self) -> (r: Self) {
        self * rhs
    }

    fn div(self, rhs: Self) -> (r: Self) {
        self / rhs
    }

    fn rem(self, rhs: Self) -> (r: Self) {
        self % rhs
    }

    fn equals(self, rhs: Self) -> (b: bool) {
        self == rhs
    }

    fn less_than(self, rhs: Self) -> (b: bool) {
        self < rhs
    }
}

impl ExactScalar for i64 {
    open spec fn value(self) -> int {
        self as int
    }

    proof fn lemma_value_injective(a: Self, b: Self) {
    }

    proof fn lemma_same(a: Self, b: Self) {
    }

    proof fn lemma_less(a: Self, b: Self) {
    }

    proof fn lemma_identities() {
    }

    proof fn lemma_identities_defined(a: Self) {
    }

    proof fn lemma_reciprocal_of_one() {
    }

    proof fn lemma_add(a: Self, b: Self) {
    }

    proof fn lemma_sub(a: Self, b: Self) {
    }

    proof fn lemma_mul(a: Self, b: Self) {
    }
}

impl ScalarSigned for i64 {
    open spec fn can_neg(self) -> bool {
        self != i64::MIN
    }

    open spec fn negated(self) -> Self {
        (-self) as i64
    }

    fn neg(self) -> (r: Self) {
        -self
    }
}

impl ExactSigned for i64 {
    proof fn lemma_neg(a: Self) {
    }

    proof fn lemma_reciprocal_of_minus_one() {
    }
}

impl Scalar for u64 {
    open spec fn zero_spec() -> Self {
        0
    }

    open spec fn one_spec() -> Self {
        1
    }

    open spec fn can_add(self, rhs: Self) -> bool {
        u64::MIN <= self + rhs <= u64::MAX
    }

    open spec fn plus(self, rhs: Self) -> Self {
        (self + rhs) as u64
    }

    open spec fn can_sub(self, rhs: Self) -> bool {
        u64::MIN <= self - rhs <= u64::MAX
    }

    open spec fn minus(self, rhs: Self) -> Self {
        (self - rhs) as u64
    }

    open spec fn can_mul(self, rhs: Self) -> bool {
        u64::MIN <= self * rhs <= u64::MAX
    }

    open spec fn times(self, rhs: Self) -> Self {
        (self * rhs) as u64
    }

    open spec fn can_div(self, rhs: Self) -> bool {
        rhs != 0
    }

    open spec fn over(self, rhs: Self) -> Self {
        (self / rhs) as u64
    }

    open spec fn can_rem(self, rhs: Self) -> bool {
        rhs != 0
    }

    open spec fn modulo(self, rhs: Self) -> Self {
        (self % rhs) as u64
    }

    open spec fn same(self, rhs: Self) -> bool {
        self == rhs
    }

    open spec fn less(self, rhs: Self) -> bool {
        self < rhs
    }

    fn zero() -> (r: Self) {
        0
    }

    fn one() -> (r: Self) {
        1
    }

    fn add(self, rhs: Self) -> (r: Self) {
        self + rhs
    }

    fn sub(self, rhs: Self) -> (r: Self) {
        self - rhs
    }

    fn mul(self, rhs: Self) -> (r: Self) {
        self * rhs
    }

    fn div(self, rhs: Self) -> (r: Self) {
        self / rhs
    }

    fn rem(self, rhs: Self) -> (r: Self) {
        self % rhs
    }

    fn equals(self, rhs: Self) -> (b: bool) {
        self == rhs
    }

    fn less_than(self, rhs: Self) -> (b: bool) {
        self < rhs
    }
}

impl ExactScalar for u64 {
    open spec fn value(self) -> int {
        self as int
    }

    proof fn lemma_value_injective(a: Self, b: Self) {
    }

    proof fn lemma_same(a: Self, b: Self) {
    }

    proof fn lemma_less(a: Self, b: Self) {
    }

    proof fn lemma_identities() {
    }

    proof fn lemma_identities_defined(a: Self) {
    }

    proof fn lemma_reciprocal_of_one() {
    }

    proof fn lemma_add(a: Self, b: Self) {
    }

    proof fn lemma_sub(a: Self, b: Self) {
    }

    proof fn lemma_mul(a: Self, b: Self) {
    }
}

impl Scalar for i128 {
    open spec fn zero_spec() -> Self {
        0
    }

    open spec fn one_spec() -> Self {
        1
    }

    open spec fn can_add(self, rhs: Self) -> bool {
        i128::MIN <= self + rhs <= i128::MAX
    }

    open spec fn plus(self, rhs: Self) -> Self {
        (self + rhs) as i128
    }

    open spec fn can_sub(self, rhs: Self) -> bool {
        i128::MIN <= self - rhs <= i128::MAX
    }

    open spec fn minus(self, rhs: Self) -> Self {
        (self - rhs) as i128
    }

    open spec fn can_mul(self, rhs: Self) -> bool {
        i128::MIN <= self * rhs <= i128::MAX
    }

    open spec fn times(self, rhs: Self) -> Self {
        (self * rhs) as i128
    }

    open spec fn can_div(self, rhs: Self) -> bool {
        rhs != 0 && !(self == i128::MIN && rhs == -1)
    }

    open spec fn over(self, rhs: Self) -> Self {
        if self >= 0 {
            (self / rhs) as i128
        } else {
            (-((-self) / (rhs as int))) as i128
        }
    }

    open spec fn can_rem(self, rhs: Self) -> bool {
        rhs != 0 && !(self == i128::MIN && rhs == -1)
    }

    open spec fn modulo(self, rhs: Self) -> Self {
        if self >= 0 {
            (self % rhs) as i128
        } else {
            (-((-self) % (rhs as int))) as i128
        }
    }

    open spec fn same(self, rhs: Self) -> bool {
        self == rhs
    }

    open spec fn less(self, rhs: Self) -> bool {
        self < rhs
    }

    fn zero() -> (r: Self) {
        0
    }

    fn one() -> (r: Self) {
        1
    }

    fn add(self, rhs: Self) -> (r: Self) {
        self + rhs
    }

    fn sub(self, rhs: Self) -> (r: Self) {
        self - rhs
    }

    fn mul(self, rhs: Self) -> (r: Self) {
        self * rhs
    }

    fn div(self, rhs: Self) -> (r: Self) {
        self / rhs
    }

    fn rem(self, rhs: Self) -> (r: Self) {
        self % rhs
    }

    fn equals(self, rhs: Self) -> (b: bool) {
        self == rhs
    }

    fn less_than(self, rhs: Self) -> (b: bool) {
        self < rhs
    }
}

impl ExactScalar for i128 {
    open spec fn value(self) -> int {
        self as int
    }

    proof fn lemma_value_injective(a: Self, b: Self) {
    }

    proof fn lemma_same(a: Self, b: Self) {
    }

    proof fn lemma_less(a: Self, b: Self) {
    }

    proof fn lemma_identities() {
    }

    proof fn lemma_identities_defined(a: Self) {
    }

    proof fn lemma_reciprocal_of_one() {
    }

    proof fn lemma_add(a: Self, b: Self) {
    }

    proof fn lemma_sub(a: Self, b: Self) {
    }

    proof fn lemma_mul(a: Self, b: Self) {
    }
}

impl ScalarSigned for i128 {
    open spec fn can_neg(self) -> bool {
        self != i128::MIN
    }

    open spec fn negated(self) -> Self {
        (-self) as i128
    }

    fn neg(self) -> (r: Self) {
        -self
    }
}

impl ExactSigned for i128 {
    proof fn lemma_neg(a: Self) {
    }

    proof fn lemma_reciprocal_of_minus_one() {
    }
}

impl Scalar for u128 {
    open spec fn zero_spec() -> Self {
        0
    }

    open spec fn one_spec() -> Self {
        1
    }

    open spec fn can_add(self, rhs: Self) -> bool {
        u128::MIN <= self + rhs <= u128::MAX
    }

    open spec fn plus(self, rhs: Self) -> Self {
        (self + rhs) as u128
    }

    open spec fn can_sub(self, rhs: Self) -> bool {
        u128::MIN <= self - rhs <= u128::MAX
    }

    open spec fn minus(self, rhs: Self) -> Self {
        (self - rhs) as u128
    }

    open spec fn can_mul(self, rhs: Self) -> bool {
        u128::MIN <= self * rhs <= u128::MAX
    }

    open spec fn times(self, rhs: Self) -> Self {
        (self * rhs) as u128
    }

    open spec fn can_div(self, rhs: Self) -> bool {
        rhs != 0
    }

    open spec fn over(self, rhs: Self) -> Self {
        (self / rhs) as u128
    }

    open spec fn can_rem(self, rhs: Self) -> bool {
        rhs != 0
    }

    open spec fn modulo(self, rhs: Self) -> Self {
        (self % rhs) as u128
    }

    open spec fn same(self, rhs: Self) -> bool {
        self == rhs
    }

    open spec fn less(self, rhs: Self) -> bool {
        self < rhs
    }

    fn zero() -> (r: Self) {
        0
    }

    fn one() -> (r: Self) {
        1
    }

    fn add(self, rhs: Self) -> (r: Self) {
        self + rhs
    }

    fn sub(self, rhs: Self) -> (r: Self) {
        self - rhs
    }

    fn mul(self, rhs: Self) -> (r: Self) {
        self * rhs
    }

    fn div(self, rhs: Self) -> (r: Self) {
        self / rhs
    }

    fn rem(self, rhs: Self) -> (r: Self) {
        self % rhs
    }

    fn equals(self, rhs: Self) -> (b: bool) {
        self == rhs
    }

    fn less_than(self, rhs: Self) -> (b: bool) {
        self < rhs
    }
}

impl ExactScalar for u128 {
    open spec fn value(self) -> int {
        self as int
    }

    proof fn lemma_value_injective(a: Self, b: Self) {
    }

    proof fn lemma_same(a: Self, b: Self) {
    }

    proof fn lemma_less(a: Self, b: Self) {
    }

    proof fn lemma_identities() {
    }

    proof fn lemma_identities_defined(a: Self) {
    }

    proof fn lemma_reciprocal_of_one() {
    }

    proof fn lemma_add(a: Self, b: Self) {
    }

    proof fn lemma_sub(a: Self, b: Self) {
    }

    proof fn lemma_mul(a: Self, b: Self) {
    }
}

impl Scalar for isize {
    open spec fn zero_spec() -> Self {
        0
    }

    open spec fn one_spec() -> Self {
        1
    }

    open spec fn can_add(self, rhs: Self) -> bool {
        isize::MIN <= self + rhs <= isize::MAX
    }

    open spec fn plus(self, rhs: Self) -> Self {
        (self + rhs) as isize
    }

    open spec fn can_sub(self, rhs: Self) -> bool {
        isize::MIN <= self - rhs <= isize::MAX
    }

    open spec fn minus(self, rhs: Self) -> Self {
        (self - rhs) as isize
    }

    open spec fn can_mul(self, rhs: Self) -> bool {
        isize::MIN <= self * rhs <= isize::MAX
    }

    open spec fn times(self, rhs: Self) -> Self {
        (self * rhs) as isize
    }

    open spec fn can_div(self, rhs: Self) -> bool {
        rhs != 0 && !(self == isize::MIN && rhs == -1)
    }

    open spec fn over(self, rhs: Self) -> Self {
        if self >= 0 {
            (self / rhs) as isize
        } else {
            (-((-self) / (rhs as int))) as isize
        }
    }

    open spec fn can_rem(self, rhs: Self) -> bool {
        rhs != 0 && !(self == isize::MIN && rhs == -1)
    }

    open spec fn modulo(self, rhs: Self) -> Self {
        if self >= 0 {
            (self % rhs) as isize
        } else {
            (-((-self) % (rhs as int))) as isize
        }
    }

    open spec fn same(self, rhs: Self) -> bool {
        self == rhs
    }

    open spec fn less(self, rhs: Self) -> bool {
        self < rhs
    }

    fn zero() -> (r: Self) {
        0
    }

    fn one() -> (r: Self) {
        1
    }

    fn add(self, rhs: Self) -> (r: Self) {
        self + rhs
    }

    fn sub(self, rhs: Self) -> (r: Self) {
        self - rhs
    }

    fn mul(self, rhs: Self) -> (r: Self) {
        self * rhs
    }

    fn div(self, rhs: Self) -> (r: Self) {
        self / rhs
    }

    fn rem(self, rhs: Self) -> (r: Self) {
        self % rhs
    }

    fn equals(self, rhs: Self) -> (b: bool) {
        self == rhs
    }

    fn less_than(self, rhs: Self) -> (b: bool) {
        self < rhs
    }
}

impl ExactScalar for isize {
    open spec fn value(self) -> int {
        self as int
    }

    proof fn lemma_value_injective(a: Self, b: Self) {
    }

    proof fn lemma_same(a: Self, b: Self) {
    }

    proof fn lemma_less(a: Self, b: Self) {
    }

    proof fn lemma_identities() {
    }

    proof fn lemma_identities_defined(a: Self) {
    }

    proof fn lemma_reciprocal_of_one() {
    }

    proof fn lemma_add(a: Self, b: Self) {
    }

    proof fn lemma_sub(a: Self, b: Self) {
    }

    proof fn lemma_mul(a: Self, b: Self) {
    }
}

impl ScalarSigned for isize {
    open spec fn can_neg(self) -> bool {
        self != isize::MIN
    }

    open spec fn negated(self) -> Self {
        (-self) as isize
    }

    fn neg(self) -> (r: Self) {
        -self
    }
}

impl ExactSigned for isize {
    proof fn lemma_neg(a: Self) {
    }

    proof fn lemma_reciprocal_of_minus_one() {
    }
}

impl Scalar for usize {
    open spec fn zero_spec() -> Self {
        0
    }

    open spec fn one_spec() -> Self {
        1
    }

    open spec fn can_add(self, rhs: Self) -> bool {
        usize::MIN <= self + rhs <= usize::MAX
    }

    open spec fn plus(self, rhs: Self) -> Self {
        (self + rhs) as usize
    }

    open spec fn can_sub(self, rhs: Self) -> bool {
        usize::MIN <= self - rhs <= usize::MAX
    }

    open spec fn minus(self, rhs: Self) -> Self {
        (self - rhs) as usize
    }

    open spec fn can_mul(self, rhs: Self) -> bool {
        usize::MIN <= self * rhs <= usize::MAX
    }

    open spec fn times(self, rhs: Self) -> Self {
        (self * rhs) as usize
    }

    open spec fn can_div(self, rhs: Self) -> bool {
        rhs != 0
    }

    open spec fn over(self, rhs: Self) -> Self {
        (self / rhs) as usize
    }

    open spec fn can_rem(self, rhs: Self) -> bool {
        rhs != 0
    }

    open spec fn modulo(self, rhs: Self) -> Self {
        (self % rhs) as usize
    }

    open spec fn same(self, rhs: Self) -> bool {
        self == rhs
    }

    open spec fn less(self, rhs: Self) -> bool {
        self < rhs
    }

    fn zero() -> (r: Self) {
        0
    }

    fn one() -> (r: Self) {
        1
    }

    fn add(self, rhs: Self) -> (r: Self) {
        self + rhs
    }

    fn sub(self, rhs: Self) -> (r: Self) {
        self - rhs
    }

    fn mul(self, rhs: Self) -> (r: Self) {
        self * rhs
    }

    fn div(self, rhs: Self) -> (r: Self) {
        self / rhs
    }

    fn rem(self, rhs: Self) -> (r: Self) {
        self % rhs
    }

    fn equals(self, rhs: Self) -> (b: bool) {
        self == rhs
    }

    fn less_than(self, rhs: Self) -> (b: bool) {
        self < rhs
    }
}

impl ExactScalar for usize {
    open spec fn value(self) -> int {
        self as int
    }

    proof fn lemma_value_injective(a: Self, b: Self) {
    }

    proof fn lemma_same(a: Self, b: Self) {
    }

    proof fn lemma_less(a: Self, b: Self) {
    }

    proof fn lemma_identities() {
    }

    proof fn lemma_identities_defined(a: Self) {
    }

    proof fn lemma_reciprocal_of_one() {
    }

    proof fn lemma_add(a: Self, b: Self) {
    }

    proof fn lemma_sub(a: Self, b: Self) {
    }

    proof fn lemma_mul(a: Self, b: Self) {
    }
}

} // verus!
