//! Points of the plane and of space.
//!
//! A point is a position; the difference of two points is a vector, and a
//! vector added to a point gives a point.

use vstd::prelude::*;
use crate::scalar::Scalar;
use crate::vector::{Vector2, Vector3, Vector4};

verus! {

/// A point of the plane.
#[derive(Clone, Copy, Debug, PartialEq, Eq, Hash)]
pub struct Point2<S> {
    pub x: S,
    pub y: S,
}

impl<S: Scalar> Point2<S> {
    /// The coordinate at index `i`, counted from zero.
    pub open spec fn at(self, i: int) -> S {
        self.to_vector_spec().at(i)
    }

    /// The point all of whose coordinates are zero.
    pub open spec fn origin_spec() -> Point2<S> {
        Point2 { x: S::zero_spec(), y: S::zero_spec() }
    }

    /// The vector from the origin to the point.
    pub open spec fn to_vector_spec(self) -> Vector2<S> {
        Vector2 { x: self.x, y: self.y }
    }

    /// The point at the tip of `vector` when it starts at the origin.
    pub open spec fn from_vector_spec(vector: Vector2<S>) -> Point2<S> {
        Point2 { x: vector.x, y: vector.y }
    }

    /// The point in homogeneous coordinates: the last coordinate is one.
    pub open spec fn to_homogeneous_spec(self) -> Vector3<S> {
        Vector3 { x: self.x, y: self.y, z: S::one_spec() }
    }

    /// True when `vector` stands for a point whose coordinates can be computed:
    /// its last component is not zero and divides the others.
    pub open spec fn can_from_homogeneous(vector: Vector3<S>) -> bool {
        !vector.z.same(S::zero_spec()) ==> vector.x.can_div(vector.z) && vector.y.can_div(vector.z)
    }

    /// The point that `vector` stands for in homogeneous coordinates, if its
    /// last component is not zero.
    pub open spec fn from_homogeneous_spec(vector: Vector3<S>) -> Option<Point2<S>> {
        if vector.z.same(S::zero_spec()) {
            None
        } else {
            Some(Point2 { x: vector.x.over(vector.z), y: vector.y.over(vector.z) })
        }
    }

    /// True when `vector` can be added to the point.
    pub open spec fn can_add_vector(self, other: Vector2<S>) -> bool {
        self.to_vector_spec().can_add(other)
    }

    /// The point displaced by `other`.
    pub open spec fn plus_vector(self, other: Vector2<S>) -> Point2<S> {
        Point2 { x: self.x.plus(other.x), y: self.y.plus(other.y) }
    }

    /// True when `vector` can be subtracted from the point.
    pub open spec fn can_sub_vector(self, other: Vector2<S>) -> bool {
        self.to_vector_spec().can_sub(other)
    }

    /// The point displaced against `other`.
    pub open spec fn minus_vector(self, other: Vector2<S>) -> Point2<S> {
        Point2 { x: self.x.minus(other.x), y: self.y.minus(other.y) }
    }

    /// True when the difference of the two points is defined.
    pub open spec fn can_sub(self, other: Point2<S>) -> bool {
        self.to_vector_spec().can_sub(other.to_vector_spec())
    }

    /// The vector from `other` to `self`.
    pub open spec fn minus(self, other: Point2<S>) -> Vector2<S> {
        Vector2 { x: self.x.minus(other.x), y: self.y.minus(other.y) }
    }

    /// Makes a point from its coordinates.
    pub fn new(x: S, y: S) -> (r: Point2<S>)
        ensures
            r == (Point2 { x: x, y: y }),
    {
        Point2 { x, y }
    }

    /// The origin.
    pub fn origin() -> (r: Point2<S>)
        ensures
            r == Self::origin_spec(),
    {
        Point2 { x: S::zero(), y: S::zero() }
    }

    /// The vector from the origin to the point.
    pub fn to_vector(&self) -> (r: Vector2<S>)
        ensures
            r == self.to_vector_spec(),
    {
        Vector2 { x: self.x, y: self.y }
    }

    /// The point at the tip of `vector`.
    pub fn from_vector(vector: &Vector2<S>) -> (r: Point2<S>)
        ensures
            r == Self::from_vector_spec(*vector),
    {
        Point2 { x: vector.x, y: vector.y }
    }

    /// The point in homogeneous coordinates.
    pub fn to_homogeneous(&self) -> (r: Vector3<S>)
        ensures
            r == self.to_homogeneous_spec(),
    {
        Vector3 { x: self.x, y: self.y, z: S::one() }
    }

    /// The point that a vector in homogeneous coordinates stands for; `None`
    /// when its last component is zero.
    pub fn from_homogeneous(vector: &Vector3<S>) -> (r: Option<Point2<S>>)
        requires
            Self::can_from_homogeneous(*vector),
        ensures
            r == Self::from_homogeneous_spec(*vector),
    {
        if vector.z.equals(S::zero()) {
            None
        } else {
            Some(Point2 { x: vector.x.div(vector.z), y: vector.y.div(vector.z) })
        }
    }
}

impl<S: Scalar> core::ops::Index<usize> for Point2<S> {
    type Output = S;

    fn index(&self, index: usize) -> (r: &S)
        ensures
            *r == self.at(index as int),
    {
        if index == 0 {
            &self.x
        } else if index == 1 {
            &self.y
        } else {
            vstd::pervasive::unreached()
        }
    }
}

impl<S: Scalar> vstd::std_specs::core::IndexSpecImpl<usize> for Point2<S> {
    open spec fn index_req(&self, index: &usize) -> bool {
        *index < 2
    }
}

impl<S: Scalar> core::ops::Add<Vector2<S>> for Point2<S> {
    type Output = Point2<S>;

    fn add(self, other: Vector2<S>) -> (r: Point2<S>) {
        Point2 { x: self.x.add(other.x), y: self.y.add(other.y) }
    }
}

impl<S: Scalar> vstd::std_specs::ops::AddSpecImpl<Vector2<S>> for Point2<S> {
    open spec fn obeys_add_spec() -> bool {
        true
    }

    open spec fn add_req(self, other: Vector2<S>) -> bool {
        self.can_add_vector(other)
    }

    open spec fn add_spec(self, other: Vector2<S>) -> Point2<S> {
        self.plus_vector(other)
    }
}

impl<'b, S: Scalar> core::ops::Add<&'b Vector2<S>> for Point2<S> {
    type Output = Point2<S>;

    fn add(self, other: &'b Vector2<S>) -> (r: Point2<S>) {
        Point2 { x: self.x.add(other.x), y: self.y.add(other.y) }
    }
}

impl<'b, S: Scalar> vstd::std_specs::ops::AddSpecImpl<&'b Vector2<S>> for Point2<S> {
    open spec fn obeys_add_spec() -> bool {
        true
    }

    open spec fn add_req(self, other: &'b Vector2<S>) -> bool {
        self.can_add_vector(*other)
    }

    open spec fn add_spec(self, other: &'b Vector2<S>) -> Point2<S> {
        self.plus_vector(*other)
    }
}

impl<'a, S: Scalar> core::ops::Add<Vector2<S>> for &'a Point2<S> {
    type Output = Point2<S>;

    fn add(self, other: Vector2<S>) -> (r: Point2<S>) {
        Point2 { x: self.x.add(other.x), y: self.y.add(other.y) }
    }
}

impl<'a, S: Scalar> vstd::std_specs::ops::AddSpecImpl<Vector2<S>> for &'a Point2<S> {
    open spec fn obeys_add_spec() -> bool {
        true
    }

    open spec fn add_req(self, other: Vector2<S>) -> bool {
        (*self).can_add_vector(other)
    }

    open spec fn add_spec(self, other: Vector2<S>) -> Point2<S> {
        (*self).plus_vector(other)
    }
}

impl<'a, 'b, S: Scalar> core::ops::Add<&'b Vector2<S>> for &'a Point2<S> {
    type Output = Point2<S>;

    fn add(self, other: &'b Vector2<S>) -> (r: Point2<S>) {
        Point2 { x: self.x.add(other.x), y: self.y.add(other.y) }
    }
}

impl<'a, 'b, S: Scalar> vstd::std_specs::ops::AddSpecImpl<&'b Vector2<S>> for &'a Point2<S> {
    open spec fn obeys_add_spec() -> bool {
        true
    }

    open spec fn add_req(self, other: &'b Vector2<S>) -> bool {
        (*self).can_add_vector(*other)
    }

    open spec fn add_spec(self, other: &'b Vector2<S>) -> Point2<S> {
        (*self).plus_vector(*other)
    }
}

impl<S: Scalar> core::ops::Sub<Vector2<S>> for Point2<S> {
    type Output = Point2<S>;

    fn sub(self, other: Vector2<S>) -> (r: Point2<S>) {
        Point2 { x: self.x.sub(other.x), y: self.y.sub(other.y) }
    }
}

impl<S: Scalar> vstd::std_specs::ops::SubSpecImpl<Vector2<S>> for Point2<S> {
    open spec fn obeys_sub_spec() -> bool {
        true
    }

    open spec fn sub_req(self, other: Vector2<S>) -> bool {
        self.can_sub_vector(other)
    }

    open spec fn sub_spec(self, other: Vector2<S>) -> Point2<S> {
        self.minus_vector(other)
    }
}

impl<'b, S: Scalar> core::ops::Sub<&'b Vector2<S>> for Point2<S> {
    type Output = Point2<S>;

    fn sub(self, other: &'b Vector2<S>) -> (r: Point2<S>) {
        Point2 { x: self.x.sub(other.x), y: self.y.sub(other.y) }
    }
}

impl<'b, S: Scalar> vstd::std_specs::ops::SubSpecImpl<&'b Vector2<S>> for Point2<S> {
    open spec fn obeys_sub_spec() -> bool {
        true
    }

    open spec fn sub_req(self, other: &'b Vector2<S>) -> bool {
        self.can_sub_vector(*other)
    }

    open spec fn sub_spec(self, other: &'b Vector2<S>) -> Point2<S> {
        self.minus_vector(*other)
    }
}

impl<'a, S: Scalar> core::ops::Sub<Vector2<S>> for &'a Point2<S> {
    type Output = Point2<S>;

    fn sub(self, other: Vector2<S>) -> (r: Point2<S>) {
        Point2 { x: self.x.sub(other.x), y: self.y.sub(other.y) }
    }
}

impl<'a, S: Scalar> vstd::std_specs::ops::SubSpecImpl<Vector2<S>> for &'a Point2<S> {
    open spec fn obeys_sub_spec() -> bool {
        true
    }

    open spec fn sub_req(self, other: Vector2<S>) -> bool {
        (*self).can_sub_vector(other)
    }

    open spec fn sub_spec(self, other: Vector2<S>) -> Point2<S> {
        (*self).minus_vector(other)
    }
}

impl<'a, 'b, S: Scalar> core::ops::Sub<&'b Vector2<S>> for &'a Point2<S> {
    type Output = Point2<S>;

    fn sub(self, other: &'b Vector2<S>) -> (r: Point2<S>) {
        Point2 { x: self.x.sub(other.x), y: self.y.sub(other.y) }
    }
}

impl<'a, 'b, S: Scalar> vstd::std_specs::ops::SubSpecImpl<&'b Vector2<S>> for &'a Point2<S> {
    open spec fn obeys_sub_spec() -> bool {
        true
    }

    open spec fn sub_req(self, other: &'b Vector2<S>) -> bool {
        (*self).can_sub_vector(*other)
    }

    open spec fn sub_spec(self, other: &'b Vector2<S>) -> Point2<S> {
        (*self).minus_vector(*other)
    }
}

impl<S: Scalar> core::ops::Sub<Point2<S>> for Point2<S> {
    type Output = Vector2<S>;

    fn sub(self, other: Point2<S>) -> (r: Vector2<S>) {
        Vector2 { x: self.x.sub(other.x), y: self.y.sub(other.y) }
    }
}

impl<S: Scalar> vstd::std_specs::ops::SubSpecImpl<Point2<S>> for Point2<S> {
    open spec fn obeys_sub_spec() -> bool {
        true
    }

    open spec fn sub_req(self, other: Point2<S>) -> bool {
        self.can_sub(other)
    }

    open spec fn sub_spec(self, other: Point2<S>) -> Vector2<S> {
        self.minus(other)
    }
}

impl<'b, S: Scalar> core::ops::Sub<&'b Point2<S>> for Point2<S> {
    type Output = Vector2<S>;

    fn sub(self, other: &'b Point2<S>) -> (r: Vector2<S>) {
        Vector2 { x: self.x.sub(other.x), y: self.y.sub(other.y) }
    }
}

impl<'b, S: Scalar> vstd::std_specs::ops::SubSpecImpl<&'b Point2<S>> for Point2<S> {
    open spec fn obeys_sub_spec() -> bool {
        true
    }

    open spec fn sub_req(self, other: &'b Point2<S>) -> bool {
        self.can_sub(*other)
    }

    open spec fn sub_spec(self, other: &'b Point2<S>) -> Vector2<S> {
        self.minus(*other)
    }
}

impl<'a, S: Scalar> core::ops::Sub<Point2<S>> for &'a Point2<S> {
    type Output = Vector2<S>;

    fn sub(self, other: Point2<S>) -> (r: Vector2<S>) {
        Vector2 { x: self.x.sub(other.x), y: self.y.sub(other.y) }
    }
}

impl<'a, S: Scalar> vstd::std_specs::ops::SubSpecImpl<Point2<S>> for &'a Point2<S> {
    open spec fn obeys_sub_spec() -> bool {
        true
    }

    open spec fn sub_req(self, other: Point2<S>) -> bool {
        (*self).can_sub(other)
    }

    open spec fn sub_spec(self, other: Point2<S>) -> Vector2<S> {
        (*self).minus(other)
    }
}

impl<'a, 'b, S: Scalar> core::ops::Sub<&'b Point2<S>> for &'a Point2<S> {
    type Output = Vector2<S>;

    fn sub(self, other: &'b Point2<S>) -> (r: Vector2<S>) {
        Vector2 { x: self.x.sub(other.x), y: self.y.sub(other.y) }
    }
}

impl<'a, 'b, S: Scalar> vstd::std_specs::ops::SubSpecImpl<&'b Point2<S>> for &'a Point2<S> {
    open spec fn obeys_sub_spec() -> bool {
        true
    }

    open spec fn sub_req(self, other: &'b Point2<S>) -> bool {
        (*self).can_sub(*other)
    }

    open spec fn sub_spec(self, other: &'b Point2<S>) -> Vector2<S> {
        (*self).minus(*other)
    }
}

/// A point of space.
#[derive(Clone, Copy, Debug, PartialEq, Eq, Hash)]
pub struct Point3<S> {
    pub x: S,
    pub y: S,
    pub z: S,
}

impl<S: Scalar> Point3<S> {
    /// The coordinate at index `i`, counted from zero.
    pub open spec fn at(self, i: int) -> S {
        self.to_vector_spec().at(i)
    }

    /// The point all of whose coordinates are zero.
    pub open spec fn origin_spec() -> Point3<S> {
        Point3 { x: S::zero_spec(), y: S::zero_spec(), z: S::zero_spec() }
    }

    /// The vector from the origin to the point.
    pub open spec fn to_vector_spec(self) -> Vector3<S> {
        Vector3 { x: self.x, y: self.y, z: self.z }
    }

    /// The point at the tip of `vector` when it starts at the origin.
    pub open spec fn from_vector_spec(vector: Vector3<S>) -> Point3<S> {
        Point3 { x: vector.x, y: vector.y, z: vector.z }
    }

    /// The point in homogeneous coordinates: the last coordinate is one.
    pub open spec fn to_homogeneous_spec(self) -> Vector4<S> {
        Vector4 { x: self.x, y: self.y, z: self.z, w: S::one_spec() }
    }

    /// True when `vector` stands for a point whose coordinates can be computed:
    /// its last component is not zero and divides the others.
    pub open spec fn can_from_homogeneous(vector: Vector4<S>) -> bool {
        !vector.w.same(S::zero_spec()) ==> vector.x.can_div(vector.w) && vector.y
            .can_div(vector.w) && vector.z.can_div(vector.w)
    }

    /// The point that `vector` stands for in homogeneous coordinates, if its
    /// last component is not zero.
    pub open spec fn from_homogeneous_spec(vector: Vector4<S>) -> Option<Point3<S>> {
        if vector.w.same(S::zero_spec()) {
            None
        } else {
            Some(Point3 { x: vector.x.over(vector.w), y: vector.y.over(vector.w), z: vector.z
                .over(vector.w) })
        }
    }

    /// True when `vector` can be added to the point.
    pub open spec fn can_add_vector(self, other: Vector3<S>) -> bool {
        self.to_vector_spec().can_add(other)
    }

    /// The point displaced by `other`.
    pub open spec fn plus_vector(self, other: Vector3<S>) -> Point3<S> {
        Point3 { x: self.x.plus(other.x), y: self.y.plus(other.y), z: self.z.plus(other.z) }
    }

    /// True when `vector` can be subtracted from the point.
    pub open spec fn can_sub_vector(self, other: Vector3<S>) -> bool {
        self.to_vector_spec().can_sub(other)
    }

    /// The point displaced against `other`.
    pub open spec fn minus_vector(self, other: Vector3<S>) -> Point3<S> {
        Point3 { x: self.x.minus(other.x), y: self.y.minus(other.y), z: self.z.minus(other.z) }
    }

    /// True when the difference of the two points is defined.
    pub open spec fn can_sub(self, other: Point3<S>) -> bool {
        self.to_vector_spec().can_sub(other.to_vector_spec())
    }

    /// The vector from `other` to `self`.
    pub open spec fn minus(self, other: Point3<S>) -> Vector3<S> {
        Vector3 { x: self.x.minus(other.x), y: self.y.minus(other.y), z: self.z.minus(other.z) }
    }

    /// Makes a point from its coordinates.
    pub fn new(x: S, y: S, z: S) -> (r: Point3<S>)
        ensures
            r == (Point3 { x: x, y: y, z: z }),
    {
        Point3 { x, y, z }
    }

    /// The origin.
    pub fn origin() -> (r: Point3<S>)
        ensures
            r == Self::origin_spec(),
    {
        Point3 { x: S::zero(), y: S::zero(), z: S::zero() }
    }

    /// The vector from the origin to the point.
    pub fn to_vector(&self) -> (r: Vector3<S>)
        ensures
            r == self.to_vector_spec(),
    {
        Vector3 { x: self.x, y: self.y, z: self.z }
    }

    /// The point at the tip of `vector`.
    pub fn from_vector(vector: &Vector3<S>) -> (r: Point3<S>)
        ensures
            r == Self::from_vector_spec(*vector),
    {
        Point3 { x: vector.x, y: vector.y, z: vector.z }
    }

    /// The point in homogeneous coordinates.
    pub fn to_homogeneous(&self) -> (r: Vector4<S>)
        ensures
            r == self.to_homogeneous_spec(),
    {
        Vector4 { x: self.x, y: self.y, z: self.z, w: S::one() }
    }

    /// The point that a vector in homogeneous coordinates stands for; `None`
    /// when its last component is zero.
    pub fn from_homogeneous(vector: &Vector4<S>) -> (r: Option<Point3<S>>)
        requires
            Self::can_from_homogeneous(*vector),
        ensures
            r == Self::from_homogeneous_spec(*vector),
    {
        if vector.w.equals(S::zero()) {
            None
        } else {
            Some(Point3 { x: vector.x.div(vector.w), y: vector.y.div(vector.w), z: vector.z
                .div(vector.w) })
        }
    }
}

impl<S: Scalar> core::ops::Index<usize> for Point3<S> {
    type Output = S;

    fn index(&self, index: usize) -> (r: &S)
        ensures
            *r == self.at(index as int),
    {
        if index == 0 {
            &self.x
        } else if index == 1 {
            &self.y
        } else if index == 2 {
            &self.z
        } else {
            vstd::pervasive::unreached()
        }
    }
}

impl<S: Scalar> vstd::std_specs::core::IndexSpecImpl<usize> for Point3<S> {
    open spec fn index_req(&self, index: &usize) -> bool {
        *index < 3
    }
}

impl<S: Scalar> core::ops::Add<Vector3<S>> for Point3<S> {
    type Output = Point3<S>;

    fn add(self, other: Vector3<S>) -> (r: Point3<S>) {
        Point3 { x: self.x.add(other.x), y: self.y.add(other.y), z: self.z.add(other.z) }
    }
}

impl<S: Scalar> vstd::std_specs::ops::AddSpecImpl<Vector3<S>> for Point3<S> {
    open spec fn obeys_add_spec() -> bool {
        true
    }

    open spec fn add_req(self, other: Vector3<S>) -> bool {
        self.can_add_vector(other)
    }

    open spec fn add_spec(self, other: Vector3<S>) -> Point3<S> {
        self.plus_vector(other)
    }
}

impl<'b, S: Scalar> core::ops::Add<&'b Vector3<S>> for Point3<S> {
    type Output = Point3<S>;

    fn add(self, other: &'b Vector3<S>) -> (r: Point3<S>) {
        Point3 { x: self.x.add(other.x), y: self.y.add(other.y), z: self.z.add(other.z) }
    }
}

impl<'b, S: Scalar> vstd::std_specs::ops::AddSpecImpl<&'b Vector3<S>> for Point3<S> {
    open spec fn obeys_add_spec() -> bool {
        true
    }

    open spec fn add_req(self, other: &'b Vector3<S>) -> bool {
        self.can_add_vector(*other)
    }

    open spec fn add_spec(self, other: &'b Vector3<S>) -> Point3<S> {
        self.plus_vector(*other)
    }
}

impl<'a, S: Scalar> core::ops::Add<Vector3<S>> for &'a Point3<S> {
    type Output = Point3<S>;

    fn add(self, other: Vector3<S>) -> (r: Point3<S>) {
        Point3 { x: self.x.add(other.x), y: self.y.add(other.y), z: self.z.add(other.z) }
    }
}

impl<'a, S: Scalar> vstd::std_specs::ops::AddSpecImpl<Vector3<S>> for &'a Point3<S> {
    open spec fn obeys_add_spec() -> bool {
        true
    }

    open spec fn add_req(self, other: Vector3<S>) -> bool {
        (*self).can_add_vector(other)
    }

    open spec fn add_spec(self, other: Vector3<S>) -> Point3<S> {
        (*self).plus_vector(other)
    }
}

impl<'a, 'b, S: Scalar> core::ops::Add<&'b Vector3<S>> for &'a Point3<S> {
    type Output = Point3<S>;

    fn add(self, other: &'b Vector3<S>) -> (r: Point3<S>) {
        Point3 { x: self.x.add(other.x), y: self.y.add(other.y), z: self.z.add(other.z) }
    }
}

impl<'a, 'b, S: Scalar> vstd::std_specs::ops::AddSpecImpl<&'b Vector3<S>> for &'a Point3<S> {
    open spec fn obeys_add_spec() -> bool {
        true
    }

    open spec fn add_req(self, other: &'b Vector3<S>) -> bool {
        (*self).can_add_vector(*other)
    }

    open spec fn add_spec(self, other: &'b Vector3<S>) -> Point3<S> {
        (*self).plus_vector(*other)
    }
}

impl<S: Scalar> core::ops::Sub<Vector3<S>> for Point3<S> {
    type Output = Point3<S>;

    fn sub(self, other: Vector3<S>) -> (r: Point3<S>) {
        Point3 { x: self.x.sub(other.x), y: self.y.sub(other.y), z: self.z.sub(other.z) }
    }
}

impl<S: Scalar> vstd::std_specs::ops::SubSpecImpl<Vector3<S>> for Point3<S> {
    open spec fn obeys_sub_spec() -> bool {
        true
    }

    open spec fn sub_req(self, other: Vector3<S>) -> bool {
        self.can_sub_vector(other)
    }

    open spec fn sub_spec(self, other: Vector3<S>) -> Point3<S> {
        self.minus_vector(other)
    }
}

impl<'b, S: Scalar> core::ops::Sub<&'b Vector3<S>> for Point3<S> {
    type Output = Point3<S>;

    fn sub(self, other: &'b Vector3<S>) -> (r: Point3<S>) {
        Point3 { x: self.x.sub(other.x), y: self.y.sub(other.y), z: self.z.sub(other.z) }
    }
}

impl<'b, S: Scalar> vstd::std_specs::ops::SubSpecImpl<&'b Vector3<S>> for Point3<S> {
    open spec fn obeys_sub_spec() -> bool {
        true
    }

    open spec fn sub_req(self, other: &'b Vector3<S>) -> bool {
        self.can_sub_vector(*other)
    }

    open spec fn sub_spec(self, other: &'b Vector3<S>) -> Point3<S> {
        self.minus_vector(*other)
    }
}

impl<'a, S: Scalar> core::ops::Sub<Vector3<S>> for &'a Point3<S> {
    type Output = Point3<S>;

    fn sub(self, other: Vector3<S>) -> (r: Point3<S>) {
        Point3 { x: self.x.sub(other.x), y: self.y.sub(other.y), z: self.z.sub(other.z) }
    }
}

impl<'a, S: Scalar> vstd::std_specs::ops::SubSpecImpl<Vector3<S>> for &'a Point3<S> {
    open spec fn obeys_sub_spec() -> bool {
        true
    }

    open spec fn sub_req(self, other: Vector3<S>) -> bool {
        (*self).can_sub_vector(other)
    }

    open spec fn sub_spec(self, other: Vector3<S>) -> Point3<S> {
        (*self).minus_vector(other)
    }
}

impl<'a, 'b, S: Scalar> core::ops::Sub<&'b Vector3<S>> for &'a Point3<S> {
    type Output = Point3<S>;

    fn sub(self, other: &'b Vector3<S>) -> (r: Point3<S>) {
        Point3 { x: self.x.sub(other.x), y: self.y.sub(other.y), z: self.z.sub(other.z) }
    }
}

impl<'a, 'b, S: Scalar> vstd::std_specs::ops::SubSpecImpl<&'b Vector3<S>> for &'a Point3<S> {
    open spec fn obeys_sub_spec() -> bool {
        true
    }

    open spec fn sub_req(self, other: &'b Vector3<S>) -> bool {
        (*self).can_sub_vector(*other)
    }

    open spec fn sub_spec(self, other: &'b Vector3<S>) -> Point3<S> {
        (*self).minus_vector(*other)
    }
}

impl<S: Scalar> core::ops::Sub<Point3<S>> for Point3<S> {
    type Output = Vector3<S>;

    fn sub(self, other: Point3<S>) -> (r: Vector3<S>) {
        Vector3 { x: self.x.sub(other.x), y: self.y.sub(other.y), z: self.z.sub(other.z) }
    }
}

impl<S: Scalar> vstd::std_specs::ops::SubSpecImpl<Point3<S>> for Point3<S> {
    open spec fn obeys_sub_spec() -> bool {
        true
    }

    open spec fn sub_req(self, other: Point3<S>) -> bool {
        self.can_sub(other)
    }

    open spec fn sub_spec(self, other: Point3<S>) -> Vector3<S> {
        self.minus(other)
    }
}

impl<'b, S: Scalar> core::ops::Sub<&'b Point3<S>> for Point3<S> {
    type Output = Vector3<S>;

    fn sub(self, other: &'b Point3<S>) -> (r: Vector3<S>) {
        Vector3 { x: self.x.sub(other.x), y: self.y.sub(other.y), z: self.z.sub(other.z) }
    }
}

impl<'b, S: Scalar> vstd::std_specs::ops::SubSpecImpl<&'b Point3<S>> for Point3<S> {
    open spec fn obeys_sub_spec() -> bool {
        true
    }

    open spec fn sub_req(self, other: &'b Point3<S>) -> bool {
        self.can_sub(*other)
    }

    open spec fn sub_spec(self, other: &'b Point3<S>) -> Vector3<S> {
        self.minus(*other)
    }
}

impl<'a, S: Scalar> core::ops::Sub<Point3<S>> for &'a Point3<S> {
    type Output = Vector3<S>;

    fn sub(self, other: Point3<S>) -> (r: Vector3<S>) {
        Vector3 { x: self.x.sub(other.x), y: self.y.sub(other.y), z: self.z.sub(other.z) }
    }
}

impl<'a, S: Scalar> vstd::std_specs::ops::SubSpecImpl<Point3<S>> for &'a Point3<S> {
    open spec fn obeys_sub_spec() -> bool {
        true
    }

    open spec fn sub_req(self, other: Point3<S>) -> bool {
        (*self).can_sub(other)
    }

    open spec fn sub_spec(self, other: Point3<S>) -> Vector3<S> {
        (*self).minus(other)
    }
}

impl<'a, 'b, S: Scalar> core::ops::Sub<&'b Point3<S>> for &'a Point3<S> {
    type Output = Vector3<S>;

    fn sub(self, other: &'b Point3<S>) -> (r: Vector3<S>) {
        Vector3 { x: self.x.sub(other.x), y: self.y.sub(other.y), z: self.z.sub(other.z) }
    }
}

impl<'a, 'b, S: Scalar> vstd::std_specs::ops::SubSpecImpl<&'b Point3<S>> for &'a Point3<S> {
    open spec fn obeys_sub_spec() -> bool {
        true
    }

    open spec fn sub_req(self, other: &'b Point3<S>) -> bool {
        (*self).can_sub(*other)
    }

    open spec fn sub_spec(self, other: &'b Point3<S>) -> Vector3<S> {
        (*self).minus(*other)
    }
}

} // verus!
