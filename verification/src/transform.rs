//! General affine transformations, each held as its matrix in homogeneous
//! coordinates.

use vstd::prelude::*;
use crate::matrix3x3::Matrix3x3;
use crate::matrix4x4::Matrix4x4;
use crate::point::{Point2, Point3};
use crate::scalar::Scalar;
use crate::vector::{Vector2, Vector3};

verus! {

/// An affine transformation of the plane, held as a matrix in homogeneous coordinates.
#[derive(Clone, Copy, Debug, PartialEq)]
pub struct Transform2<S> {
    pub matrix: Matrix3x3<S>,
}

impl<S> View for Transform2<S> {
    type V = Matrix3x3<S>;

    open spec fn view(&self) -> Matrix3x3<S> {
        self.matrix
    }
}

impl<S: Scalar> Transform2<S> {
    /// True when the image of `vector` is defined.
    pub open spec fn can_transform_vector(self, vector: Vector2<S>) -> bool {
        self@.can_mul_vector(vector.extend_spec(S::zero_spec()))
    }

    /// The image of `vector`: the matrix times the vector with a last
    /// component of zero, without that last component.
    pub open spec fn transform_vector_spec(self, vector: Vector2<S>) -> Vector2<S> {
        self@.times_vector(vector.extend_spec(S::zero_spec())).contract_spec()
    }

    /// True when the image of `point` is defined: the matrix can be
    /// multiplied with the point in homogeneous coordinates, and the last
    /// component of the product is not zero and divides the others.
    pub open spec fn can_transform_point(self, point: Point2<S>) -> bool {
        &&& self@.can_mul_vector(point.to_homogeneous_spec())
        &&& !self@.times_vector(point.to_homogeneous_spec()).z.same(S::zero_spec())
        &&& Point2::<S>::can_from_homogeneous(self@.times_vector(point.to_homogeneous_spec()))
    }

    /// The image of `point`: the point that the matrix times the point in
    /// homogeneous coordinates stands for.
    pub open spec fn transform_point_spec(self, point: Point2<S>) -> Point2<S> {
        Point2::<S>::from_homogeneous_spec(self@.times_vector(point.to_homogeneous_spec())).unwrap()
    }

    /// The transformation with the matrix of a more special one.
    pub fn from_specialized(matrix: Matrix3x3<S>) -> (r: Transform2<S>)
        ensures
            r@ == matrix,
    {
        Transform2 { matrix }
    }

    /// The transformation with the given matrix, which is not looked at.
    pub fn from_matrix_unchecked(matrix: Matrix3x3<S>) -> (r: Transform2<S>)
        ensures
            r@ == matrix,
    {
        Transform2 { matrix }
    }

    /// The transformation that changes nothing.
    pub fn identity() -> (r: Transform2<S>)
        ensures
            r@ == Matrix3x3::<S>::identity_spec(),
    {
        Transform2 { matrix: Matrix3x3::identity() }
    }

    /// The matrix of the transformation.
    pub fn to_matrix(&self) -> (r: Matrix3x3<S>)
        ensures
            r == self@,
    {
        self.matrix
    }

    /// Applies the transformation to a vector.
    pub fn transform_vector(&self, vector: &Vector2<S>) -> (r: Vector2<S>)
        requires
            self.can_transform_vector(*vector),
        ensures
            r == self.transform_vector_spec(*vector),
    {
        (self.matrix * vector.extend(S::zero())).contract()
    }

    /// Applies the transformation to a point.
    pub fn transform_point(&self, point: &Point2<S>) -> (r: Point2<S>)
        requires
            self.can_transform_point(*point),
        ensures
            r == self.transform_point_spec(*point),
    {
        let image = self.matrix * point.to_homogeneous();
        Point2 { x: image.x.div(image.z), y: image.y.div(image.z) }
    }
}

/// An affine transformation of space, held as a matrix in homogeneous coordinates.
#[derive(Clone, Copy, Debug, PartialEq)]
pub struct Transform3<S> {
    pub matrix: Matrix4x4<S>,
}

impl<S> View for Transform3<S> {
    type V = Matrix4x4<S>;

    open spec fn view(&self) -> Matrix4x4<S> {
        self.matrix
    }
}

impl<S: Scalar> Transform3<S> {
    /// True when the image of `vector` is defined.
    pub open spec fn can_transform_vector(self, vector: Vector3<S>) -> bool {
        self@.can_mul_vector(vector.extend_spec(S::zero_spec()))
    }

    /// The image of `vector`: the matrix times the vector with a last
    /// component of zero, without that last component.
    pub open spec fn transform_vector_spec(self, vector: Vector3<S>) -> Vector3<S> {
        self@.times_vector(vector.extend_spec(S::zero_spec())).contract_spec()
    }

    /// True when the image of `point` is defined: the matrix can be
    /// multiplied with the point in homogeneous coordinates, and the last
    /// component of the product is not zero and divides the others.
    pub open spec fn can_transform_point(self, point: Point3<S>) -> bool {
        &&& self@.can_mul_vector(point.to_homogeneous_spec())
        &&& !self@.times_vector(point.to_homogeneous_spec()).w.same(S::zero_spec())
        &&& Point3::<S>::can_from_homogeneous(self@.times_vector(point.to_homogeneous_spec()))
    }

    /// The image of `point`: the point that the matrix times the point in
    /// homogeneous coordinates stands for.
    pub open spec fn transform_point_spec(self, point: Point3<S>) -> Point3<S> {
        Point3::<S>::from_homogeneous_spec(self@.times_vector(point.to_homogeneous_spec())).unwrap()
    }

    /// The transformation with the matrix of a more special one.
    pub fn from_specialized(matrix: Matrix4x4<S>) -> (r: Transform3<S>)
        ensures
            r@ == matrix,
    {
        Transform3 { matrix }
    }

    /// The transformation with the given matrix, which is not looked at.
    pub fn from_matrix_unchecked(matrix: Matrix4x4<S>) -> (r: Transform3<S>)
        ensures
            r@ == matrix,
    {
        Transform3 { matrix }
    }

    /// The transformation that changes nothing.
    pub fn identity() -> (r: Transform3<S>)
        ensures
            r@ == Matrix4x4::<S>::identity_spec(),
    {
        Transform3 { matrix: Matrix4x4::identity() }
    }

    /// The matrix of the transformation.
    pub fn to_matrix(&self) -> (r: Matrix4x4<S>)
        ensures
            r == self@,
    {
        self.matrix
    }

    /// Applies the transformation to a vector.
    pub fn transform_vector(&self, vector: &Vector3<S>) -> (r: Vector3<S>)
        requires
            self.can_transform_vector(*vector),
        ensures
            r == self.transform_vector_spec(*vector),
    {
        (self.matrix * vector.extend(S::zero())).contract()
    }

    /// Applies the transformation to a point.
    pub fn transform_point(&self, point: &Point3<S>) -> (r: Point3<S>)
        requires
            self.can_transform_point(*point),
        ensures
            r == self.transform_point_spec(*point),
    {
        let image = self.matrix * point.to_homogeneous();
        Point3 { x: image.x.div(image.w), y: image.y.div(image.w), z: image.z.div(image.w) }
    }
}

} // verus!
