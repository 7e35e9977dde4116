//! Primitive geometry types and an ordered, heterogeneous collection of them.
//!
//! The collection and its three traversals carry machine-checked contracts;
//! the shape types themselves are plain data.
pub mod shapes;
pub mod geometry;
pub mod geometry_collection;
pub mod laws;

pub use geometry::Geometry;
pub use geometry_collection::{GeometryCollection, IntoIteratorHelper, IterHelper, IterMutHelper};
pub use shapes::{
    Coordinate, CoordinateType, Line, LineString, MultiLineString, MultiPoint, MultiPolygon, Point,
    Polygon, Rect, Triangle,
};
