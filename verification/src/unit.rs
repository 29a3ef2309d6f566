//! Vectors marked as having the length one.

use vstd::prelude::*;
use crate::scalar::ScalarFloat;
use crate::vector::{Vector1, Vector2, Vector3, Vector4};

verus! {

/// A value that has a length and can be divided by it.
pub trait Normed: Sized {
    /// True when `self` can be divided by its length.
    spec fn can_scale_to_unit(self) -> bool;

    /// `self` divided by its length.
    spec fn scaled_to_unit(self) -> Self;

    /// Divides `self` by its length.
    fn scale_to_unit(self) -> (r: Self)
        requires
            self.can_scale_to_unit(),
        ensures
            r == self.scaled_to_unit(),
    ;
}

/// A value marked as being of length one.
///
/// The constructors of reflections, shears and rotations take their normals,
/// directions and axes in this form and do not check the length again.
/// `from_value` normalizes what it is given; `from_value_unchecked` takes the
/// caller's word.
#[derive(Clone, Copy, Debug, PartialEq, Eq, Hash)]
pub struct Unit<T> {
    pub value: T,
}

impl<T> View for Unit<T> {
    type V = T;

    open spec fn view(&self) -> T {
        self.value
    }
}

impl<T: Copy> Unit<T> {
    /// Marks `value` as a unit without looking at it.
    pub fn from_value_unchecked(value: T) -> (r: Unit<T>)
        ensures
            r@ == value,
    {
        Unit { value }
    }

    /// The value inside.
    pub fn into_inner(self) -> (r: T)
        ensures
            r == self@,
    {
        self.value
    }

    /// A reference to the value inside.
    pub fn as_ref(&self) -> (r: &T)
        ensures
            *r == self@,
    {
        &self.value
    }
}

impl<S: ScalarFloat> Normed for Vector1<S> {
    open spec fn can_scale_to_unit(self) -> bool {
        self.can_normalize()
    }

    open spec fn scaled_to_unit(self) -> Vector1<S> {
        self.normalize_spec()
    }

    fn scale_to_unit(self) -> (r: Vector1<S>) {
        self.normalize()
    }
}

impl<S: ScalarFloat> Normed for Vector2<S> {
    open spec fn can_scale_to_unit(self) -> bool {
        self.can_normalize()
    }

    open spec fn scaled_to_unit(self) -> Vector2<S> {
        self.normalize_spec()
    }

    fn scale_to_unit(self) -> (r: Vector2<S>) {
        self.normalize()
    }
}

impl<S: ScalarFloat> Normed for Vector3<S> {
    open spec fn can_scale_to_unit(self) -> bool {
        self.can_normalize()
    }

    open spec fn scaled_to_unit(self) -> Vector3<S> {
        self.normalize_spec()
    }

    fn scale_to_unit(self) -> (r: Vector3<S>) {
        self.normalize()
    }
}

impl<S: ScalarFloat> Normed for Vector4<S> {
    open spec fn can_scale_to_unit(self) -> bool {
        self.can_normalize()
    }

    open spec fn scaled_to_unit(self) -> Vector4<S> {
        self.normalize_spec()
    }

    fn scale_to_unit(self) -> (r: Vector4<S>) {
        self.normalize()
    }
}

impl<T: Normed> Unit<T> {
    /// The unit in the direction of `value`: `value` divided by its length.
    pub fn from_value(value: T) -> (r: Unit<T>)
        requires
            value.can_scale_to_unit(),
        ensures
            r@ == value.scaled_to_unit(),
    {
        Unit { value: value.scale_to_unit() }
    }
}

} // verus!
