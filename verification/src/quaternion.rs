//! Quaternions, as far as their construction goes.

use vstd::prelude::*;
use crate::scalar::Scalar;
use crate::vector::Vector3;

verus! {

/// A quaternion with the scalar part `s` and the vector part `v`.
#[derive(Clone, Copy, Debug, PartialEq, Eq, Hash)]
pub struct Quaternion<S> {
    pub s: S,
    pub v: Vector3<S>,
}

impl<S: Scalar> Quaternion<S> {
    /// The quaternion `s + x i + y j + z k`.
    pub fn new(s: S, x: S, y: S, z: S) -> (r: Quaternion<S>)
        ensures
            r == (Quaternion { s, v: Vector3 { x, y, z } }),
    {
        Quaternion { s, v: Vector3 { x, y, z } }
    }

    /// The quaternion with the scalar part `s` and the vector part `v`.
    pub fn from_parts(s: S, v: Vector3<S>) -> (r: Quaternion<S>)
        ensures
            r == (Quaternion { s, v }),
    {
        Quaternion { s, v }
    }
}

} // verus!
