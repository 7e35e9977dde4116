//! The tagged geometry value: one of a closed set of shape kinds.
use crate::geometry_collection::GeometryCollection;
use crate::shapes::{
    CoordinateType, Line, LineString, MultiLineString, MultiPoint, MultiPolygon, Point, Polygon,
    Rect, Triangle,
};
use vstd::prelude::*;
use vstd::std_specs::cmp::PartialEqSpec;

verus! {

/// A value that is exactly one of the supported shape kinds.
#[derive(Debug, Hash)]
pub enum Geometry<T> where T: CoordinateType {
    Point(Point<T>),
    Line(Line<T>),
    LineString(LineString<T>),
    Polygon(Polygon<T>),
    MultiPoint(MultiPoint<T>),
    MultiLineString(MultiLineString<T>),
    MultiPolygon(MultiPolygon<T>),
    GeometryCollection(GeometryCollection<T>),
    Rect(Rect<T>),
    Triangle(Triangle<T>),
}

/// Whether two geometries are of the same kind and hold equal shapes.
///
/// Two nested collections are equal when they have the same length and hold
/// equal geometries at every position.
pub open spec fn same_geometry<T: CoordinateType>(a: Geometry<T>, b: Geometry<T>) -> bool
    decreases a,
{
    match (a, b) {
        (Geometry::Point(x), Geometry::Point(y)) => PartialEqSpec::eq_spec(&x, &y),
        (Geometry::Line(x), Geometry::Line(y)) => PartialEqSpec::eq_spec(&x, &y),
        (Geometry::LineString(x), Geometry::LineString(y)) => PartialEqSpec::eq_spec(&x, &y),
        (Geometry::Polygon(x), Geometry::Polygon(y)) => PartialEqSpec::eq_spec(&x, &y),
        (Geometry::MultiPoint(x), Geometry::MultiPoint(y)) => PartialEqSpec::eq_spec(&x, &y),
        (Geometry::MultiLineString(x), Geometry::MultiLineString(y)) => {
            PartialEqSpec::eq_spec(&x, &y)
        },
        (Geometry::MultiPolygon(x), Geometry::MultiPolygon(y)) => PartialEqSpec::eq_spec(&x, &y),
        (Geometry::GeometryCollection(x), Geometry::GeometryCollection(y)) => {
            &&& x.0@.len() == y.0@.len()
            &&& forall|i: int|
                0 <= i < x.0@.len() ==> same_geometry(#[trigger] x.0@[i], y.0@[i])
        },
        (Geometry::Rect(x), Geometry::Rect(y)) => PartialEqSpec::eq_spec(&x, &y),
        (Geometry::Triangle(x), Geometry::Triangle(y)) => PartialEqSpec::eq_spec(&x, &y),
        _ => false,
    }
}

/// Whether two sequences have the same length and hold equal geometries at
/// every position.
pub open spec fn same_geometries<T: CoordinateType>(
    a: Seq<Geometry<T>>,
    b: Seq<Geometry<T>>,
) -> bool {
    &&& a.len() == b.len()
    &&& forall|i: int| 0 <= i < a.len() ==> same_geometry(#[trigger] a[i], b[i])
}

/// Compares two geometries, descending into nested collections.
pub(crate) fn is_same_geometry<T: CoordinateType>(a: &Geometry<T>, b: &Geometry<T>) -> (r: bool)
    ensures
        T::obeys_eq_spec() ==> r == same_geometry(*a, *b),
    decreases a,
{
    match (a, b) {
        (Geometry::Point(x), Geometry::Point(y)) => x == y,
        (Geometry::Line(x), Geometry::Line(y)) => x == y,
        (Geometry::LineString(x), Geometry::LineString(y)) => x == y,
        (Geometry::Polygon(x), Geometry::Polygon(y)) => x == y,
        (Geometry::MultiPoint(x), Geometry::MultiPoint(y)) => x == y,
        (Geometry::MultiLineString(x), Geometry::MultiLineString(y)) => x == y,
        (Geometry::MultiPolygon(x), Geometry::MultiPolygon(y)) => x == y,
        (Geometry::GeometryCollection(x), Geometry::GeometryCollection(y)) => {
            are_same_geometries(&x.0, &y.0)
        },
        (Geometry::Rect(x), Geometry::Rect(y)) => x == y,
        (Geometry::Triangle(x), Geometry::Triangle(y)) => x == y,
        _ => false,
    }
}

/// Compares two vectors of geometries position by position.
pub(crate) fn are_same_geometries<T: CoordinateType>(
    a: &Vec<Geometry<T>>,
    b: &Vec<Geometry<T>>,
) -> (r: bool)
    ensures
        T::obeys_eq_spec() ==> r == same_geometries(a@, b@),
    decreases a,
{
    if a.len() != b.len() {
        return false;
    }
    let mut i: usize = 0;
    while i < a.len()
        invariant
            i <= a@.len(),
            a@.len() == b@.len(),
            T::obeys_eq_spec() ==> forall|j: int|
                0 <= j < i ==> same_geometry(#[trigger] a@[j], b@[j]),
        decreases a@.len() - i,
    {
        if !is_same_geometry(&a[i], &b[i]) {
            return false;
        }
        i += 1;
    }
    true
}

impl<T: CoordinateType> PartialEq for Geometry<T> {
    fn eq(&self, other: &Self) -> (r: bool) {
        is_same_geometry(self, other)
    }
}

impl<T: CoordinateType> vstd::std_specs::cmp::PartialEqSpecImpl for Geometry<T> {
    open spec fn obeys_eq_spec() -> bool {
        T::obeys_eq_spec()
    }

    open spec fn eq_spec(&self, other: &Self) -> bool {
        same_geometry(*self, *other)
    }
}

/// Whether two geometries are of the same kind and hold the same
/// coordinates in the same places.
///
/// Two nested collections do so when they have the same length and the
/// geometries at every position do.
pub open spec fn identical_geometry<T: CoordinateType>(a: Geometry<T>, b: Geometry<T>) -> bool
    decreases a,
{
    match (a, b) {
        (Geometry::Point(x), Geometry::Point(y)) => x == y,
        (Geometry::Line(x), Geometry::Line(y)) => x == y,
        (Geometry::LineString(x), Geometry::LineString(y)) => x@ == y@,
        (Geometry::Polygon(x), Geometry::Polygon(y)) => x@ == y@,
        (Geometry::MultiPoint(x), Geometry::MultiPoint(y)) => x@ == y@,
        (Geometry::MultiLineString(x), Geometry::MultiLineString(y)) => x@ == y@,
        (Geometry::MultiPolygon(x), Geometry::MultiPolygon(y)) => x@ == y@,
        (Geometry::GeometryCollection(x), Geometry::GeometryCollection(y)) => {
            &&& x.0@.len() == y.0@.len()
            &&& forall|i: int|
                #![trigger x.0@[i]]
                #![trigger y.0@[i]]
                0 <= i < x.0@.len() ==> identical_geometry(x.0@[i], y.0@[i])
        },
        (Geometry::Rect(x), Geometry::Rect(y)) => x == y,
        (Geometry::Triangle(x), Geometry::Triangle(y)) => x == y,
        _ => false,
    }
}

/// Whether two sequences have the same length and hold identical geometries
/// at every position.
pub open spec fn identical_geometries<T: CoordinateType>(
    a: Seq<Geometry<T>>,
    b: Seq<Geometry<T>>,
) -> bool {
    &&& a.len() == b.len()
    &&& forall|i: int|
        #![trigger a[i]]
        #![trigger b[i]]
        0 <= i < a.len() ==> identical_geometry(a[i], b[i])
}

/// Copies one geometry, descending into nested collections.
pub(crate) fn clone_geometry<T: CoordinateType>(g: &Geometry<T>) -> (copy: Geometry<T>)
    ensures
        identical_geometry(*g, copy),
    decreases g,
{
    match g {
        Geometry::Point(x) => Geometry::Point(*x),
        Geometry::Line(x) => Geometry::Line(*x),
        Geometry::LineString(x) => Geometry::LineString(x.clone()),
        Geometry::Polygon(x) => Geometry::Polygon(x.clone()),
        Geometry::MultiPoint(x) => Geometry::MultiPoint(x.clone()),
        Geometry::MultiLineString(x) => Geometry::MultiLineString(x.clone()),
        Geometry::MultiPolygon(x) => Geometry::MultiPolygon(x.clone()),
        Geometry::GeometryCollection(x) => Geometry::GeometryCollection(
            GeometryCollection(clone_geometries(&x.0)),
        ),
        Geometry::Rect(x) => Geometry::Rect(*x),
        Geometry::Triangle(x) => Geometry::Triangle(*x),
    }
}

/// Copies every geometry of `items`, in order.
pub(crate) fn clone_geometries<T: CoordinateType>(items: &Vec<Geometry<T>>) -> (copies: Vec<
    Geometry<T>,
>)
    ensures
        identical_geometries(items@, copies@),
    decreases items,
{
    let mut copies: Vec<Geometry<T>> = Vec::new();
    let mut i: usize = 0;
    while i < items.len()
        invariant
            i <= items@.len(),
            copies@.len() == i,
            forall|j: int| 0 <= j < i ==> identical_geometry(#[trigger] items@[j], copies@[j]),
        decreases items@.len() - i,
    {
        copies.push(clone_geometry(&items[i]));
        i += 1;
    }
    copies
}

impl<T: CoordinateType> Clone for Geometry<T> {
    /// Copies the geometry: the copy is of the same kind and holds the same
    /// coordinates in the same places.
    fn clone(&self) -> (copy: Self)
        ensures
            identical_geometry(*self, copy),
    {
        clone_geometry(self)
    }
}

impl<T: CoordinateType> From<Point<T>> for Geometry<T> {
    /// Tags a point as a geometry.
    fn from(x: Point<T>) -> (g: Self) {
        Geometry::Point(x)
    }
}

impl<T: CoordinateType> vstd::std_specs::convert::FromSpecImpl<Point<T>> for Geometry<T> {
    open spec fn obeys_from_spec() -> bool {
        true
    }

    open spec fn from_spec(x: Point<T>) -> Self {
        Geometry::Point(x)
    }
}

impl<T: CoordinateType> From<Line<T>> for Geometry<T> {
    /// Tags a line as a geometry.
    fn from(x: Line<T>) -> (g: Self) {
        Geometry::Line(x)
    }
}

impl<T: CoordinateType> vstd::std_specs::convert::FromSpecImpl<Line<T>> for Geometry<T> {
    open spec fn obeys_from_spec() -> bool {
        true
    }

    open spec fn from_spec(x: Line<T>) -> Self {
        Geometry::Line(x)
    }
}

impl<T: CoordinateType> From<LineString<T>> for Geometry<T> {
    /// Tags a line string as a geometry.
    fn from(x: LineString<T>) -> (g: Self) {
        Geometry::LineString(x)
    }
}

impl<T: CoordinateType> vstd::std_specs::convert::FromSpecImpl<LineString<T>> for Geometry<T> {
    open spec fn obeys_from_spec() -> bool {
        true
    }

    open spec fn from_spec(x: LineString<T>) -> Self {
        Geometry::LineString(x)
    }
}

impl<T: CoordinateType> From<Polygon<T>> for Geometry<T> {
    /// Tags a polygon as a geometry.
    fn from(x: Polygon<T>) -> (g: Self) {
        Geometry::Polygon(x)
    }
}

impl<T: CoordinateType> vstd::std_specs::convert::FromSpecImpl<Polygon<T>> for Geometry<T> {
    open spec fn obeys_from_spec() -> bool {
        true
    }

    open spec fn from_spec(x: Polygon<T>) -> Self {
        Geometry::Polygon(x)
    }
}

impl<T: CoordinateType> From<MultiPoint<T>> for Geometry<T> {
    /// Tags a multi-point as a geometry.
    fn from(x: MultiPoint<T>) -> (g: Self) {
        Geometry::MultiPoint(x)
    }
}

impl<T: CoordinateType> vstd::std_specs::convert::FromSpecImpl<MultiPoint<T>> for Geometry<T> {
    open spec fn obeys_from_spec() -> bool {
        true
    }

    open spec fn from_spec(x: MultiPoint<T>) -> Self {
        Geometry::MultiPoint(x)
    }
}

impl<T: CoordinateType> From<MultiLineString<T>> for Geometry<T> {
    /// Tags a multi-line-string as a geometry.
    fn from(x: MultiLineString<T>) -> (g: Self) {
        Geometry::MultiLineString(x)
    }
}

impl<T: CoordinateType> vstd::std_specs::convert::FromSpecImpl<MultiLineString<T>> for Geometry<T> {
    open spec fn obeys_from_spec() -> bool {
        true
    }

    open spec fn from_spec(x: MultiLineString<T>) -> Self {
        Geometry::MultiLineString(x)
    }
}

impl<T: CoordinateType> From<MultiPolygon<T>> for Geometry<T> {
    /// Tags a multi-polygon as a geometry.
    fn from(x: MultiPolygon<T>) -> (g: Self) {
        Geometry::MultiPolygon(x)
    }
}

impl<T: CoordinateType> vstd::std_specs::convert::FromSpecImpl<MultiPolygon<T>> for Geometry<T> {
    open spec fn obeys_from_spec() -> bool {
        true
    }

    open spec fn from_spec(x: MultiPolygon<T>) -> Self {
        Geometry::MultiPolygon(x)
    }
}

impl<T: CoordinateType> From<Rect<T>> for Geometry<T> {
    /// Tags a rectangle as a geometry.
    fn from(x: Rect<T>) -> (g: Self) {
        Geometry::Rect(x)
    }
}

impl<T: CoordinateType> vstd::std_specs::convert::FromSpecImpl<Rect<T>> for Geometry<T> {
    open spec fn obeys_from_spec() -> bool {
        true
    }

    open spec fn from_spec(x: Rect<T>) -> Self {
        Geometry::Rect(x)
    }
}

impl<T: CoordinateType> From<Triangle<T>> for Geometry<T> {
    /// Tags a triangle as a geometry.
    fn from(x: Triangle<T>) -> (g: Self) {
        Geometry::Triangle(x)
    }
}

impl<T: CoordinateType> vstd::std_specs::convert::FromSpecImpl<Triangle<T>> for Geometry<T> {
    open spec fn obeys_from_spec() -> bool {
        true
    }

    open spec fn from_spec(x: Triangle<T>) -> Self {
        Geometry::Triangle(x)
    }
}

} // verus!
