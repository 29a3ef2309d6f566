//! Angles.

use vstd::prelude::*;
use crate::scalar::ScalarFloat;

verus! {

/// An angle in radians.
#[derive(Clone, Copy, Debug, PartialEq)]
pub struct Radians<S>(pub S);

impl<S: ScalarFloat> Radians<S> {
    /// The cosine of the angle.
    pub fn cos(self) -> (r: S)
        ensures
            r == self.0.cosine(),
    {
        self.0.cos()
    }

    /// The sine of the angle.
    pub fn sin(self) -> (r: S)
        ensures
            r == self.0.sine(),
    {
        self.0.sin()
    }

    /// The tangent of the angle.
    pub fn tan(self) -> (r: S)
        ensures
            r == self.0.tangent(),
    {
        self.0.tan()
    }
}

} // verus!
