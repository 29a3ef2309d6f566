//! Reflections of the plane through a line, and of space through a plane.

use vstd::prelude::*;
use crate::matrix3x3::Matrix3x3;
use crate::matrix4x4::Matrix4x4;
use crate::point::{Point2, Point3};
use crate::scalar::ScalarSigned;
use crate::transform::{Transform2, Transform3};
use crate::unit::Unit;
use crate::vector::{Vector2, Vector3};

verus! {

/// A reflection of the plane through a line, given by a unit normal and a
/// point `bias` that it passes through, together with its matrix in
/// homogeneous coordinates.
#[derive(Clone, Copy, Debug, PartialEq)]
pub struct Reflection2<S> {
    pub bias: Vector2<S>,
    pub normal: Vector2<S>,
    pub matrix: Matrix3x3<S>,
}

impl<S: ScalarSigned> Reflection2<S> {
    /// True when `self` holds the matrix that belongs to its normal and bias.
    pub open spec fn wf(self) -> bool {
        self.matrix == Matrix3x3::<S>::affine_reflection_spec(
            Unit { value: self.normal },
            Point2::<S>::from_vector_spec(self.bias),
        )
    }

    /// True when the image of `vector` is defined.
    pub open spec fn can_reflect_vector(self, vector: Vector2<S>) -> bool {
        self.matrix.can_mul_vector(vector.extend_spec(S::zero_spec()))
    }

    /// The image of `vector`: the matrix times the vector with a last
    /// component of zero, without that last component.
    pub open spec fn reflect_vector_spec(self, vector: Vector2<S>) -> Vector2<S> {
        self.matrix.times_vector(vector.extend_spec(S::zero_spec())).contract_spec()
    }

    /// True when the image of `point` is defined: the matrix can be
    /// multiplied with the point in homogeneous coordinates, and the last
    /// component of the product is not zero and divides the others.
    pub open spec fn can_reflect_point(self, point: Point2<S>) -> bool {
        &&& self.matrix.can_mul_vector(point.to_homogeneous_spec())
        &&& !self.matrix.times_vector(point.to_homogeneous_spec()).z.same(S::zero_spec())
        &&& Point2::<S>::can_from_homogeneous(self.matrix.times_vector(point.to_homogeneous_spec()))
    }

    /// The image of `point`: the point that the matrix times the point in
    /// homogeneous coordinates stands for.
    pub open spec fn reflect_point_spec(self, point: Point2<S>) -> Point2<S> {
        Point2::<S>::from_homogeneous_spec(self.matrix.times_vector(point.to_homogeneous_spec(
            ))).unwrap()
    }

    /// The reflection with the unit normal `normal` that passes through `bias`.
    pub fn from_normal_bias(normal: &Unit<Vector2<S>>, bias: &Vector2<S>) -> (r: Reflection2<S>)
        requires
            Matrix3x3::<S>::can_from_affine_reflection(*normal,
                Point2::<S>::from_vector_spec(*bias)),
        ensures
            r.bias == *bias,
            r.normal == normal@,
            r.wf(),
    {
        let point = Point2::from_vector(bias);
        Reflection2 {
            bias: *bias,
            normal: normal.into_inner(),
            matrix: Matrix3x3::from_affine_reflection(normal, &point),
        }
    }

    /// The point that the reflection passes through.
    pub fn bias(&self) -> (r: Vector2<S>)
        ensures
            r == self.bias,
    {
        self.bias
    }

    /// The normal of the reflection.
    pub fn normal(&self) -> (r: Vector2<S>)
        ensures
            r == self.normal,
    {
        self.normal
    }

    /// The matrix of the reflection in homogeneous coordinates.
    pub fn matrix(&self) -> (r: &Matrix3x3<S>)
        ensures
            *r == self.matrix,
    {
        &self.matrix
    }

    /// Reflects a vector.
    pub fn reflect_vector(&self, vector: &Vector2<S>) -> (r: Vector2<S>)
        requires
            self.can_reflect_vector(*vector),
        ensures
            r == self.reflect_vector_spec(*vector),
    {
        (self.matrix * vector.extend(S::zero())).contract()
    }

    /// Reflects a point.
    pub fn reflect_point(&self, point: &Point2<S>) -> (r: Point2<S>)
        requires
            self.can_reflect_point(*point),
        ensures
            r == self.reflect_point_spec(*point),
    {
        let image = self.matrix * point.to_homogeneous();
        Point2 { x: image.x.div(image.z), y: image.y.div(image.z) }
    }

    /// The transformation that changes nothing, written as a reflection
    /// with the normal zero: its matrix is the identity.
    pub fn identity() -> (r: Reflection2<S>)
        ensures
            r.bias == Vector2::<S>::zero_spec(),
            r.normal == Vector2::<S>::zero_spec(),
            r.matrix == Matrix3x3::<S>::identity_spec(),
    {
        Reflection2 { bias: Vector2::zero(), normal: Vector2::zero(),
            matrix: Matrix3x3::identity() }
    }

    /// The reflection as a general transformation.
    pub fn to_transform(&self) -> (r: Transform2<S>)
        ensures
            r@ == self.matrix,
    {
        Transform2::from_specialized(self.matrix)
    }
}

impl<S: ScalarSigned> core::convert::From<Reflection2<S>> for Matrix3x3<S> {
    fn from(transformation: Reflection2<S>) -> (r: Matrix3x3<S>) {
        transformation.matrix
    }
}

impl<S: ScalarSigned> vstd::std_specs::convert::FromSpecImpl<Reflection2<S>> for Matrix3x3<S> {
    open spec fn obeys_from_spec() -> bool {
        true
    }

    open spec fn from_spec(transformation: Reflection2<S>) -> Matrix3x3<S> {
        transformation.matrix
    }
}

/// A reflection of space through a plane, given by a unit normal and a
/// point `bias` that it passes through, together with its matrix in
/// homogeneous coordinates.
#[derive(Clone, Copy, Debug, PartialEq)]
pub struct Reflection3<S> {
    pub bias: Vector3<S>,
    pub normal: Vector3<S>,
    pub matrix: Matrix4x4<S>,
}

impl<S: ScalarSigned> Reflection3<S> {
    /// True when `self` holds the matrix that belongs to its normal and bias.
    pub open spec fn wf(self) -> bool {
        self.matrix == Matrix4x4::<S>::affine_reflection_spec(
            Unit { value: self.normal },
            Point3::<S>::from_vector_spec(self.bias),
        )
    }

    /// True when the image of `vector` is defined.
    pub open spec fn can_reflect_vector(self, vector: Vector3<S>) -> bool {
        self.matrix.can_mul_vector(vector.extend_spec(S::zero_spec()))
    }

    /// The image of `vector`: the matrix times the vector with a last
    /// component of zero, without that last component.
    pub open spec fn reflect_vector_spec(self, vector: Vector3<S>) -> Vector3<S> {
        self.matrix.times_vector(vector.extend_spec(S::zero_spec())).contract_spec()
    }

    /// True when the image of `point` is defined: the matrix can be
    /// multiplied with the point in homogeneous coordinates, and the last
    /// component of the product is not zero and divides the others.
    pub open spec fn can_reflect_point(self, point: Point3<S>) -> bool {
        &&& self.matrix.can_mul_vector(point.to_homogeneous_spec())
        &&& !self.matrix.times_vector(point.to_homogeneous_spec()).w.same(S::zero_spec())
        &&& Point3::<S>::can_from_homogeneous(self.matrix.times_vector(point.to_homogeneous_spec()))
    }

    /// The image of `point`: the point that the matrix times the point in
    /// homogeneous coordinates stands for.
    pub open spec fn reflect_point_spec(self, point: Point3<S>) -> Point3<S> {
        Point3::<S>::from_homogeneous_spec(self.matrix.times_vector(point.to_homogeneous_spec(
            ))).unwrap()
    }

    /// The reflection with the unit normal `normal` that passes through `bias`.
    pub fn from_normal_bias(normal: &Unit<Vector3<S>>, bias: &Vector3<S>) -> (r: Reflection3<S>)
        requires
            Matrix4x4::<S>::can_from_affine_reflection(*normal,
                Point3::<S>::from_vector_spec(*bias)),
        ensures
            r.bias == *bias,
            r.normal == normal@,
            r.wf(),
    {
        let point = Point3::from_vector(bias);
        Reflection3 {
            bias: *bias,
            normal: normal.into_inner(),
            matrix: Matrix4x4::from_affine_reflection(normal, &point),
        }
    }

    /// The point that the reflection passes through.
    pub fn bias(&self) -> (r: Vector3<S>)
        ensures
            r == self.bias,
    {
        self.bias
    }

    /// The normal of the reflection.
    pub fn normal(&self) -> (r: Vector3<S>)
        ensures
            r == self.normal,
    {
        self.normal
    }

    /// The matrix of the reflection in homogeneous coordinates.
    pub fn matrix(&self) -> (r: &Matrix4x4<S>)
        ensures
            *r == self.matrix,
    {
        &self.matrix
    }

    /// Reflects a vector.
    pub fn reflect_vector(&self, vector: &Vector3<S>) -> (r: Vector3<S>)
        requires
            self.can_reflect_vector(*vector),
        ensures
            r == self.reflect_vector_spec(*vector),
    {
        (self.matrix * vector.extend(S::zero())).contract()
    }

    /// Reflects a point.
    pub fn reflect_point(&self, point: &Point3<S>) -> (r: Point3<S>)
        requires
            self.can_reflect_point(*point),
        ensures
            r == self.reflect_point_spec(*point),
    {
        let image = self.matrix * point.to_homogeneous();
        Point3 { x: image.x.div(image.w), y: image.y.div(image.w), z: image.z.div(image.w) }
    }

    /// The transformation that changes nothing, written as a reflection
    /// with the normal zero: its matrix is the identity.
    pub fn identity() -> (r: Reflection3<S>)
        ensures
            r.bias == Vector3::<S>::zero_spec(),
            r.normal == Vector3::<S>::zero_spec(),
            r.matrix == Matrix4x4::<S>::identity_spec(),
    {
        Reflection3 { bias: Vector3::zero(), normal: Vector3::zero(),
            matrix: Matrix4x4::identity() }
    }

    /// The reflection as a general transformation.
    pub fn to_transform(&self) -> (r: Transform3<S>)
        ensures
            r@ == self.matrix,
    {
        Transform3::from_specialized(self.matrix)
    }
}

impl<S: ScalarSigned> core::convert::From<Reflection3<S>> for Matrix4x4<S> {
    fn from(transformation: Reflection3<S>) -> (r: Matrix4x4<S>) {
        transformation.matrix
    }
}

impl<S: ScalarSigned> vstd::std_specs::convert::FromSpecImpl<Reflection3<S>> for Matrix4x4<S> {
    open spec fn obeys_from_spec() -> bool {
        true
    }

    open spec fn from_spec(transformation: Reflection3<S>) -> Matrix4x4<S> {
        transformation.matrix
    }
}

} // verus!
