//! The parameters of the projections, each with the matrix it stands for.

use vstd::prelude::*;
use crate::angle::Radians;
use crate::matrix4x4::Matrix4x4;
use crate::scalar::{ScalarFloat, ScalarSigned};

verus! {

/// The box that an orthographic projection maps onto the cube from -1 to 1.
#[derive(Clone, Copy, Debug, PartialEq)]
pub struct OrthographicSpec<S> {
    pub left: S,
    pub right: S,
    pub bottom: S,
    pub top: S,
    pub near: S,
    pub far: S,
}

/// The frustum of a perspective projection, given by the extent of its near face.
#[derive(Clone, Copy, Debug, PartialEq)]
pub struct PerspectiveSpec<S> {
    pub left: S,
    pub right: S,
    pub bottom: S,
    pub top: S,
    pub near: S,
    pub far: S,
}

/// The frustum of a perspective projection, given by its vertical field of
/// view and the ratio of its width to its height.
#[derive(Clone, Copy, Debug, PartialEq)]
pub struct PerspectiveFovSpec<S> {
    pub fovy: Radians<S>,
    pub aspect: S,
    pub near: S,
    pub far: S,
}

impl<S: ScalarSigned> OrthographicSpec<S> {
    /// True when the matrix of the projection is defined.
    pub open spec fn can_to_matrix(self) -> bool {
        Matrix4x4::<S>::can_from_orthographic(
            self.left,
            self.right,
            self.bottom,
            self.top,
            self.near,
            self.far,
        )
    }

    /// The matrix of the projection.
    pub open spec fn matrix_spec(self) -> Matrix4x4<S> {
        Matrix4x4::<S>::orthographic_spec(
            self.left,
            self.right,
            self.bottom,
            self.top,
            self.near,
            self.far,
        )
    }

    /// The box with the given faces.
    pub fn new(left: S, right: S, bottom: S, top: S, near: S, far: S) -> (r: OrthographicSpec<S>)
        ensures
            r == (OrthographicSpec { left, right, bottom, top, near, far }),
    {
        OrthographicSpec { left, right, bottom, top, near, far }
    }

    /// The matrix of the projection.
    pub fn to_matrix(&self) -> (r: Matrix4x4<S>)
        requires
            self.can_to_matrix(),
        ensures
            r == self.matrix_spec(),
    {
        Matrix4x4::from_orthographic(
            self.left,
            self.right,
            self.bottom,
            self.top,
            self.near,
            self.far,
        )
    }
}

impl<S: ScalarSigned> PerspectiveSpec<S> {
    /// True when the matrix of the projection is defined.
    pub open spec fn can_to_matrix(self) -> bool {
        Matrix4x4::<S>::can_from_perspective(
            self.left,
            self.right,
            self.bottom,
            self.top,
            self.near,
            self.far,
        )
    }

    /// The matrix of the projection.
    pub open spec fn matrix_spec(self) -> Matrix4x4<S> {
        Matrix4x4::<S>::perspective_spec(
            self.left,
            self.right,
            self.bottom,
            self.top,
            self.near,
            self.far,
        )
    }

    /// The frustum with the given faces.
    pub fn new(left: S, right: S, bottom: S, top: S, near: S, far: S) -> (r: PerspectiveSpec<S>)
        ensures
            r == (PerspectiveSpec { left, right, bottom, top, near, far }),
    {
        PerspectiveSpec { left, right, bottom, top, near, far }
    }

    /// The matrix of the projection.
    pub fn to_matrix(&self) -> (r: Matrix4x4<S>)
        requires
            self.can_to_matrix(),
        ensures
            r == self.matrix_spec(),
    {
        Matrix4x4::from_perspective(
            self.left,
            self.right,
            self.bottom,
            self.top,
            self.near,
            self.far,
        )
    }
}

impl<S: ScalarFloat> PerspectiveFovSpec<S> {
    /// True when the matrix of the projection is defined.
    pub open spec fn can_to_matrix(self) -> bool {
        Matrix4x4::<S>::can_from_perspective_fov(self.fovy, self.aspect, self.near, self.far)
    }

    /// The matrix of the projection.
    pub open spec fn matrix_spec(self) -> Matrix4x4<S> {
        Matrix4x4::<S>::perspective_fov_spec(self.fovy, self.aspect, self.near, self.far)
    }

    /// The frustum with the given field of view, aspect ratio and planes.
    pub fn new(fovy: Radians<S>, aspect: S, near: S, far: S) -> (r: PerspectiveFovSpec<S>)
        ensures
            r == (PerspectiveFovSpec { fovy, aspect, near, far }),
    {
        PerspectiveFovSpec { fovy, aspect, near, far }
    }

    /// The matrix of the projection.
    pub fn to_matrix(&self) -> (r: Matrix4x4<S>)
        requires
            self.can_to_matrix(),
        ensures
            r == self.matrix_spec(),
    {
        Matrix4x4::from_perspective_fov(self.fovy, self.aspect, self.near, self.far)
    }
}

} // verus!
