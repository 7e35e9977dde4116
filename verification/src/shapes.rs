//! The concrete shape kinds that a [`Geometry`](crate::Geometry) can hold.
//!
//! Every shape is plain data over one coordinate type `T`, and none of them
//! carries an invariant of its own. Two shapes of one kind are equal when
//! their coordinates are equal, position by position.
use vstd::prelude::*;
use vstd::std_specs::cmp::PartialEqSpec;

verus! {

/// The numeric types that can serve as coordinate values.
///
/// Every copyable, partially ordered type qualifies.
pub trait CoordinateType: Copy + PartialOrd {

}

impl<T: Copy + PartialOrd> CoordinateType for T {

}

/// A position in the plane.
#[derive(Copy, Debug, Hash)]
pub struct Coordinate<T> where T: CoordinateType {
    pub x: T,
    pub y: T,
}

impl<T: CoordinateType> Clone for Coordinate<T> {
    fn clone(&self) -> (copy: Self)
        ensures
            copy == *self,
    {
        *self
    }
}

impl<T: CoordinateType> PartialEq for Coordinate<T> {
    fn eq(&self, other: &Self) -> (r: bool) {
        self.x == other.x && self.y == other.y
    }
}

impl<T: CoordinateType> vstd::std_specs::cmp::PartialEqSpecImpl for Coordinate<T> {
    open spec fn obeys_eq_spec() -> bool {
        T::obeys_eq_spec()
    }

    open spec fn eq_spec(&self, other: &Self) -> bool {
        self.x.eq_spec(&other.x) && self.y.eq_spec(&other.y)
    }
}

/// A single point.
#[derive(Copy, Debug, Hash)]
pub struct Point<T>(pub Coordinate<T>) where T: CoordinateType;

impl<T: CoordinateType> Clone for Point<T> {
    fn clone(&self) -> (copy: Self)
        ensures
            copy == *self,
    {
        *self
    }
}

impl<T: CoordinateType> PartialEq for Point<T> {
    fn eq(&self, other: &Self) -> (r: bool) {
        self.0 == other.0
    }
}

impl<T: CoordinateType> vstd::std_specs::cmp::PartialEqSpecImpl for Point<T> {
    open spec fn obeys_eq_spec() -> bool {
        T::obeys_eq_spec()
    }

    open spec fn eq_spec(&self, other: &Self) -> bool {
        PartialEqSpec::eq_spec(&self.0, &other.0)
    }
}

/// A segment between two positions.
#[derive(Clone, Copy, Debug, Hash)]
pub struct Line<T> where T: CoordinateType {
    pub start: Coordinate<T>,
    pub end: Coordinate<T>,
}

impl<T: CoordinateType> PartialEq for Line<T> {
    fn eq(&self, other: &Self) -> (r: bool) {
        self.start == other.start && self.end == other.end
    }
}

impl<T: CoordinateType> vstd::std_specs::cmp::PartialEqSpecImpl for Line<T> {
    open spec fn obeys_eq_spec() -> bool {
        T::obeys_eq_spec()
    }

    open spec fn eq_spec(&self, other: &Self) -> bool {
        &&& PartialEqSpec::eq_spec(&self.start, &other.start)
        &&& PartialEqSpec::eq_spec(&self.end, &other.end)
    }
}

/// A path through an ordered series of positions.
///
/// The model of a line string is the sequence of its positions.
#[derive(Debug, Hash)]
pub struct LineString<T>(pub Vec<Coordinate<T>>) where T: CoordinateType;

impl<T: CoordinateType> View for LineString<T> {
    type V = Seq<Coordinate<T>>;

    open spec fn view(&self) -> Seq<Coordinate<T>> {
        self.0@
    }
}

impl<T: CoordinateType> Clone for LineString<T> {
    /// Copies every position, in order.
    fn clone(&self) -> (copy: Self)
        ensures
            copy@ == self@,
    {
        let copy = LineString(self.0.clone());
        assert(copy@ =~= self@);
        copy
    }
}

impl<T: CoordinateType> PartialEq for LineString<T> {
    fn eq(&self, other: &Self) -> (r: bool) {
        self.0 == other.0
    }
}

impl<T: CoordinateType> vstd::std_specs::cmp::PartialEqSpecImpl for LineString<T> {
    open spec fn obeys_eq_spec() -> bool {
        T::obeys_eq_spec()
    }

    open spec fn eq_spec(&self, other: &Self) -> bool {
        PartialEqSpec::eq_spec(&self.0, &other.0)
    }
}

/// An area bounded by one outer ring and any number of inner rings.
///
/// The model of a polygon is its outer ring and the sequence of its inner
/// rings, each ring as the sequence of its positions.
#[derive(Debug, Hash)]
pub struct Polygon<T> where T: CoordinateType {
    pub exterior: LineString<T>,
    pub interiors: Vec<LineString<T>>,
}

impl<T: CoordinateType> View for Polygon<T> {
    type V = (Seq<Coordinate<T>>, Seq<Seq<Coordinate<T>>>);

    open spec fn view(&self) -> (Seq<Coordinate<T>>, Seq<Seq<Coordinate<T>>>) {
        (self.exterior@, self.interiors@.map_values(|ring: LineString<T>| ring@))
    }
}

impl<T: CoordinateType> Clone for Polygon<T> {
    /// Copies the outer ring and every inner ring, in order.
    fn clone(&self) -> (copy: Self)
        ensures
            copy@ == self@,
    {
        let copy = Polygon { exterior: self.exterior.clone(), interiors: self.interiors.clone() };
        assert(copy@.1 =~= self@.1);
        copy
    }
}

impl<T: CoordinateType> PartialEq for Polygon<T> {
    fn eq(&self, other: &Self) -> (r: bool) {
        self.exterior == other.exterior && self.interiors == other.interiors
    }
}

impl<T: CoordinateType> vstd::std_specs::cmp::PartialEqSpecImpl for Polygon<T> {
    open spec fn obeys_eq_spec() -> bool {
        T::obeys_eq_spec()
    }

    open spec fn eq_spec(&self, other: &Self) -> bool {
        &&& PartialEqSpec::eq_spec(&self.exterior, &other.exterior)
        &&& PartialEqSpec::eq_spec(&self.interiors, &other.interiors)
    }
}

/// A set of points.
///
/// The model of a multi-point is the sequence of its points.
#[derive(Debug, Hash)]
pub struct MultiPoint<T>(pub Vec<Point<T>>) where T: CoordinateType;

impl<T: CoordinateType> View for MultiPoint<T> {
    type V = Seq<Point<T>>;

    open spec fn view(&self) -> Seq<Point<T>> {
        self.0@
    }
}

impl<T: CoordinateType> Clone for MultiPoint<T> {
    /// Copies every point, in order.
    fn clone(&self) -> (copy: Self)
        ensures
            copy@ == self@,
    {
        let copy = MultiPoint(self.0.clone());
        assert(copy@ =~= self@);
        copy
    }
}

impl<T: CoordinateType> PartialEq for MultiPoint<T> {
    fn eq(&self, other: &Self) -> (r: bool) {
        self.0 == other.0
    }
}

impl<T: CoordinateType> vstd::std_specs::cmp::PartialEqSpecImpl for MultiPoint<T> {
    open spec fn obeys_eq_spec() -> bool {
        T::obeys_eq_spec()
    }

    open spec fn eq_spec(&self, other: &Self) -> bool {
        PartialEqSpec::eq_spec(&self.0, &other.0)
    }
}

/// A set of paths.
///
/// The model of a multi-line-string is the sequence of its paths, each path
/// as the sequence of its positions.
#[derive(Debug, Hash)]
pub struct MultiLineString<T>(pub Vec<LineString<T>>) where T: CoordinateType;

impl<T: CoordinateType> View for MultiLineString<T> {
    type V = Seq<Seq<Coordinate<T>>>;

    open spec fn view(&self) -> Seq<Seq<Coordinate<T>>> {
        self.0@.map_values(|path: LineString<T>| path@)
    }
}

impl<T: CoordinateType> Clone for MultiLineString<T> {
    /// Copies every path, in order.
    fn clone(&self) -> (copy: Self)
        ensures
            copy@ == self@,
    {
        let copy = MultiLineString(self.0.clone());
        assert(copy@ =~= self@);
        copy
    }
}

impl<T: CoordinateType> PartialEq for MultiLineString<T> {
    fn eq(&self, other: &Self) -> (r: bool) {
        self.0 == other.0
    }
}

impl<T: CoordinateType> vstd::std_specs::cmp::PartialEqSpecImpl for MultiLineString<T> {
    open spec fn obeys_eq_spec() -> bool {
        T::obeys_eq_spec()
    }

    open spec fn eq_spec(&self, other: &Self) -> bool {
        PartialEqSpec::eq_spec(&self.0, &other.0)
    }
}

/// A set of areas.
///
/// The model of a multi-polygon is the sequence of the models of its
/// polygons.
#[derive(Debug, Hash)]
pub struct MultiPolygon<T>(pub Vec<Polygon<T>>) where T: CoordinateType;

impl<T: CoordinateType> View for MultiPolygon<T> {
    type V = Seq<(Seq<Coordinate<T>>, Seq<Seq<Coordinate<T>>>)>;

    open spec fn view(&self) -> Seq<(Seq<Coordinate<T>>, Seq<Seq<Coordinate<T>>>)> {
        self.0@.map_values(|area: Polygon<T>| area@)
    }
}

impl<T: CoordinateType> Clone for MultiPolygon<T> {
    /// Copies every polygon, in order.
    fn clone(&self) -> (copy: Self)
        ensures
            copy@ == self@,
    {
        let copy = MultiPolygon(self.0.clone());
        assert(copy@ =~= self@);
        copy
    }
}

impl<T: CoordinateType> PartialEq for MultiPolygon<T> {
    fn eq(&self, other: &Self) -> (r: bool) {
        self.0 == other.0
    }
}

impl<T: CoordinateType> vstd::std_specs::cmp::PartialEqSpecImpl for MultiPolygon<T> {
    open spec fn obeys_eq_spec() -> bool {
        T::obeys_eq_spec()
    }

    open spec fn eq_spec(&self, other: &Self) -> bool {
        PartialEqSpec::eq_spec(&self.0, &other.0)
    }
}

/// An axis-aligned rectangle given by two opposite corners.
#[derive(Clone, Copy, Debug, Hash)]
pub struct Rect<T> where T: CoordinateType {
    pub min: Coordinate<T>,
    pub max: Coordinate<T>,
}

impl<T: CoordinateType> PartialEq for Rect<T> {
    fn eq(&self, other: &Self) -> (r: bool) {
        self.min == other.min && self.max == other.max
    }
}

impl<T: CoordinateType> vstd::std_specs::cmp::PartialEqSpecImpl for Rect<T> {
    open spec fn obeys_eq_spec() -> bool {
        T::obeys_eq_spec()
    }

    open spec fn eq_spec(&self, other: &Self) -> bool {
        &&& PartialEqSpec::eq_spec(&self.min, &other.min)
        &&& PartialEqSpec::eq_spec(&self.max, &other.max)
    }
}

/// A triangle given by its three corners.
#[derive(Clone, Copy, Debug, Hash)]
pub struct Triangle<T>(pub Coordinate<T>, pub Coordinate<T>, pub Coordinate<T>) where
    T: CoordinateType;

impl<T: CoordinateType> PartialEq for Triangle<T> {
    fn eq(&self, other: &Self) -> (r: bool) {
        self.0 == other.0 && self.1 == other.1 && self.2 == other.2
    }
}

impl<T: CoordinateType> vstd::std_specs::cmp::PartialEqSpecImpl for Triangle<T> {
    open spec fn obeys_eq_spec() -> bool {
        T::obeys_eq_spec()
    }

    open spec fn eq_spec(&self, other: &Self) -> bool {
        &&& PartialEqSpec::eq_spec(&self.0, &other.0)
        &&& PartialEqSpec::eq_spec(&self.1, &other.1)
        &&& PartialEqSpec::eq_spec(&self.2, &other.2)
    }
}

} // verus!
