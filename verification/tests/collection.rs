use geo_types::{
    Coordinate, Geometry, GeometryCollection, Line, LineString, MultiLineString, MultiPoint,
    MultiPolygon, Point, Polygon, Rect, Triangle,
};

fn coord(x: i32, y: i32) -> Coordinate<i32> {
    Coordinate { x, y }
}

fn point(x: i32, y: i32) -> Point<i32> {
    Point(coord(x, y))
}

fn line(x: i32) -> Line<i32> {
    Line { start: coord(x, 0), end: coord(x, 1) }
}

fn three() -> GeometryCollection<i32> {
    GeometryCollection(vec![
        Geometry::Point(point(1, 1)),
        Geometry::Line(line(2)),
        Geometry::Point(point(3, 3)),
    ])
}

#[test]
fn new_collection_is_empty() {
    let gc: GeometryCollection<i32> = GeometryCollection::new();
    assert_eq!(gc.len(), 0);
    assert!(gc.is_empty());
    assert_eq!(gc.0.len(), 0);
}

#[test]
fn len_counts_the_elements() {
    let gc = three();
    assert_eq!(gc.len(), 3);
    assert!(!gc.is_empty());
}

#[test]
fn from_one_point_has_one_element() {
    let gc = GeometryCollection::from(point(1, 2));
    assert_eq!(gc.len(), 1);
    assert!(!gc.is_empty());
    assert_eq!(gc[0], Geometry::Point(point(1, 2)));
}

#[test]
fn from_one_geometry_keeps_it_as_it_is() {
    let g = Geometry::Line(line(7));
    let gc = GeometryCollection::from(g.clone());
    assert_eq!(gc.len(), 1);
    assert_eq!(gc[0], g);
}

#[test]
fn into_makes_a_collection_of_one() {
    let gc: GeometryCollection<i32> = line(4).into();
    assert_eq!(gc.len(), 1);
    assert_eq!(gc[0], Geometry::Line(line(4)));
}

#[test]
fn from_iter_keeps_count_and_order() {
    let points = vec![point(0, 0), point(1, 10), point(2, 20), point(3, 30)];
    let gc: GeometryCollection<i32> = GeometryCollection::from_iter(points.clone().into_iter());
    assert_eq!(gc.len(), points.len());
    for (i, p) in points.iter().enumerate() {
        assert_eq!(gc[i], Geometry::Point(*p));
    }
}

#[test]
fn from_iter_of_nothing_is_empty() {
    let none: Vec<Point<i32>> = Vec::new();
    let gc: GeometryCollection<i32> = GeometryCollection::from_iter(none.into_iter());
    assert_eq!(gc.len(), 0);
    assert!(gc.is_empty());
}

#[test]
fn from_iter_of_geometries_keeps_them() {
    let source = three();
    let gc: GeometryCollection<i32> = GeometryCollection::from_iter(source.0.clone().into_iter());
    assert_eq!(gc, source);
}

#[test]
fn from_iter_takes_a_lazy_sequence() {
    let gc: GeometryCollection<i32> = GeometryCollection::from_iter((0..5).map(|i| point(i, -i)));
    assert_eq!(gc.len(), 5);
    assert_eq!(gc[0], Geometry::Point(point(0, 0)));
    assert_eq!(gc[4], Geometry::Point(point(4, -4)));
}

#[test]
fn index_reads_each_position() {
    let gc = three();
    assert_eq!(gc[0], Geometry::Point(point(1, 1)));
    assert_eq!(gc[1], Geometry::Line(line(2)));
    assert_eq!(gc[2], Geometry::Point(point(3, 3)));
}

#[test]
fn index_write_then_read() {
    let mut gc = three();
    gc[1] = Geometry::Point(point(9, 9));
    assert_eq!(gc[1], Geometry::Point(point(9, 9)));
    assert_eq!(gc.len(), 3);
    assert_eq!(gc[0], Geometry::Point(point(1, 1)));
    assert_eq!(gc[2], Geometry::Point(point(3, 3)));
}

#[test]
fn index_write_at_first_and_last_position() {
    let mut gc = three();
    gc[0] = Geometry::Line(line(0));
    gc[2] = Geometry::Line(line(5));
    assert_eq!(
        gc.0,
        vec![Geometry::Line(line(0)), Geometry::Line(line(2)), Geometry::Line(line(5))]
    );
}

#[test]
fn equal_collections_compare_equal() {
    assert!(three() == three());
    let empty: GeometryCollection<i32> = GeometryCollection::new();
    assert!(empty == GeometryCollection::new());
}

#[test]
fn collections_of_different_length_differ() {
    let mut shorter = three();
    shorter.0.pop();
    assert!(three() != shorter);
    assert!(shorter != three());
}

#[test]
fn collections_that_differ_in_one_element_differ() {
    let mut other = three();
    other[2] = Geometry::Point(point(3, 4));
    assert!(three() != other);
}

#[test]
fn order_matters_for_equality() {
    let a = GeometryCollection(vec![Geometry::Point(point(1, 1)), Geometry::Point(point(2, 2))]);
    let b = GeometryCollection(vec![Geometry::Point(point(2, 2)), Geometry::Point(point(1, 1))]);
    assert!(a != b);
    assert!(a == a.clone());
}

#[test]
fn a_shape_never_equals_a_shape_of_another_kind() {
    let as_point = Geometry::Point(point(0, 0));
    let as_multi = Geometry::MultiPoint(MultiPoint(vec![point(0, 0)]));
    assert!(as_point != as_multi);
}

#[test]
fn nested_collections_compare_position_by_position() {
    let inner = three();
    let a = GeometryCollection(vec![Geometry::GeometryCollection(inner.clone())]);
    let b = GeometryCollection(vec![Geometry::GeometryCollection(inner.clone())]);
    assert!(a == b);
    let mut changed = inner;
    changed[0] = Geometry::Point(point(0, 0));
    let c = GeometryCollection(vec![Geometry::GeometryCollection(changed)]);
    assert!(a != c);
}

#[test]
fn clone_keeps_every_element() {
    let nested = GeometryCollection(vec![
        Geometry::GeometryCollection(three()),
        Geometry::LineString(LineString(vec![coord(0, 0), coord(1, 1)])),
    ]);
    let copy = nested.clone();
    assert_eq!(copy.len(), 2);
    assert_eq!(copy, nested);
}

#[test]
fn every_shape_converts_to_its_own_kind() {
    let ring = LineString(vec![coord(0, 0), coord(1, 0), coord(0, 1), coord(0, 0)]);
    let polygon = Polygon { exterior: ring.clone(), interiors: Vec::new() };
    let rect = Rect { min: coord(0, 0), max: coord(2, 2) };
    let triangle = Triangle(coord(0, 0), coord(1, 0), coord(0, 1));
    assert_eq!(Geometry::from(point(1, 2)), Geometry::Point(point(1, 2)));
    assert_eq!(Geometry::from(line(1)), Geometry::Line(line(1)));
    assert_eq!(Geometry::from(ring.clone()), Geometry::LineString(ring.clone()));
    assert_eq!(Geometry::from(polygon.clone()), Geometry::Polygon(polygon.clone()));
    assert_eq!(
        Geometry::from(MultiPoint(vec![point(1, 2)])),
        Geometry::MultiPoint(MultiPoint(vec![point(1, 2)]))
    );
    assert_eq!(
        Geometry::from(MultiLineString(vec![ring.clone()])),
        Geometry::MultiLineString(MultiLineString(vec![ring]))
    );
    assert_eq!(
        Geometry::from(MultiPolygon(vec![polygon.clone()])),
        Geometry::MultiPolygon(MultiPolygon(vec![polygon]))
    );
    assert_eq!(Geometry::from(rect), Geometry::Rect(rect));
    assert_eq!(Geometry::from(triangle), Geometry::Triangle(triangle));
}

#[test]
fn from_one_of_each_shape_wraps_the_converted_value() {
    let rect = Rect { min: coord(0, 0), max: coord(2, 2) };
    let gc = GeometryCollection::from(rect);
    assert_eq!(gc.len(), 1);
    assert_eq!(gc[0], Geometry::Rect(rect));
    let triangle = Triangle(coord(0, 0), coord(1, 0), coord(0, 1));
    let gc = GeometryCollection::from(triangle);
    assert_eq!(gc[0], Geometry::Triangle(triangle));
}

#[test]
fn clone_of_a_shape_holds_the_same_coordinates() {
    let ring = LineString(vec![coord(0, 0), coord(4, 0), coord(0, 4), coord(0, 0)]);
    let hole = LineString(vec![coord(1, 1), coord(2, 1), coord(1, 2), coord(1, 1)]);
    let polygon = Polygon { exterior: ring.clone(), interiors: vec![hole.clone()] };
    assert_eq!(ring.clone().0, ring.0);
    assert_eq!(polygon.clone().exterior.0, ring.0);
    assert_eq!(polygon.clone().interiors, vec![hole.clone()]);
    let points = MultiPoint(vec![point(1, 2), point(3, 4)]);
    assert_eq!(points.clone().0, vec![point(1, 2), point(3, 4)]);
    let paths = MultiLineString(vec![ring.clone(), hole]);
    assert_eq!(paths.clone(), paths);
    let areas = MultiPolygon(vec![polygon.clone(), polygon]);
    assert_eq!(areas.clone(), areas);
    assert_eq!(coord(7, 8).clone(), coord(7, 8));
    assert_eq!(point(7, 8).clone(), point(7, 8));
}

#[test]
fn clone_of_a_geometry_is_of_the_same_kind() {
    let ring = LineString(vec![coord(0, 0), coord(1, 0)]);
    let all = vec![
        Geometry::Point(point(1, 2)),
        Geometry::Line(line(3)),
        Geometry::LineString(ring.clone()),
        Geometry::MultiLineString(MultiLineString(vec![ring])),
        Geometry::GeometryCollection(three()),
        Geometry::Rect(Rect { min: coord(0, 0), max: coord(1, 1) }),
        Geometry::Triangle(Triangle(coord(0, 0), coord(1, 0), coord(0, 1))),
    ];
    for g in all.iter() {
        assert_eq!(g.clone(), *g);
    }
    let gc = GeometryCollection(all);
    let copy = gc.clone();
    assert_eq!(copy.len(), gc.len());
    assert_eq!(copy[4], Geometry::GeometryCollection(three()));
}
