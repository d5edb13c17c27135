//! Geometries, and what they hold.

use crate::area::{path_sum, Coord};
use crate::geometry::storage::CoordinateStorage;
use crate::geometry::transform::{CoordinateTransform, TransformOutput};
use crate::machine::Part;
use crate::tile::GeomType;
use vstd::prelude::*;

verus! {

/// Lightweight geometry type.
///
/// The decoder yields points, line strings and polygons, one part at a time;
/// the other three hold the parts of one feature together.
#[derive(Debug)]
pub enum Geometry<S: CoordinateStorage> {
    Point { x: i64, y: i64 },
    LineString(S),
    Polygon { exterior: S, holes: Vec<S> },
    MultiPoint(S),
    MultiLineString(Vec<S>),
    MultiPolygon(Vec<(S, Vec<S>)>),
}

/// The transformed components of a line of raw coordinates, one coordinate
/// after the other.
pub open spec fn transform_all<T: CoordinateTransform>(
    transform: &T,
    kind: GeomType,
    line: Seq<Coord>,
) -> Seq<i64>
    decreases line.len(),
{
    if line.len() == 0 {
        Seq::empty()
    } else {
        transform_all(transform, kind, line.drop_last()) + transform.transformed(
            line.last().0,
            line.last().1,
            kind,
        ).components()
    }
}

/// What a store holds: the raw coordinates, the components of the
/// transformed coordinates, and the area accumulator.
pub struct Line {
    pub raw: Seq<Coord>,
    pub transformed: Seq<i64>,
    pub area: int,
}

/// What a geometry holds.
pub enum Shape {
    Point { x: i64, y: i64 },
    LineString(Line),
    Polygon { exterior: Line, holes: Seq<Line> },
    MultiPoint(Line),
    MultiLineString(Seq<Line>),
    MultiPolygon(Seq<(Line, Seq<Line>)>),
}

/// What the store `storage` holds.
pub open spec fn line_of<S: CoordinateStorage>(storage: &S) -> Line {
    Line { raw: storage.raw(), transformed: storage.transformed(), area: storage.area() }
}

/// What each of the stores `stores` holds.
pub open spec fn lines_of<S: CoordinateStorage>(stores: Seq<S>) -> Seq<Line> {
    Seq::new(stores.len(), |i: int| line_of(&stores[i]))
}

/// What each pair of the store of an exterior ring and the stores of its
/// holes holds.
pub open spec fn rings_of_pairs<S: CoordinateStorage>(pairs: Seq<(S, Vec<S>)>) -> Seq<
    (Line, Seq<Line>),
> {
    Seq::new(pairs.len(), |i: int| (line_of(&pairs[i].0), lines_of(pairs[i].1@)))
}

impl<S: CoordinateStorage> View for Geometry<S> {
    type V = Shape;

    open spec fn view(&self) -> Shape {
        match self {
            Geometry::Point { x, y } => Shape::Point { x: *x, y: *y },
            Geometry::LineString(line) => Shape::LineString(line_of(line)),
            Geometry::Polygon { exterior, holes } => Shape::Polygon {
                exterior: line_of(exterior),
                holes: lines_of(holes@),
            },
            Geometry::MultiPoint(points) => Shape::MultiPoint(line_of(points)),
            Geometry::MultiLineString(lines) => Shape::MultiLineString(lines_of(lines@)),
            Geometry::MultiPolygon(polygons) => Shape::MultiPolygon(rings_of_pairs(polygons@)),
        }
    }
}

/// What each of the geometries `geometries` holds.
pub open spec fn shapes_of<S: CoordinateStorage>(geometries: Seq<Geometry<S>>) -> Seq<Shape> {
    Seq::new(geometries.len(), |i: int| geometries[i]@)
}

/// What a store holds once the raw coordinates `line` were pushed to it, one
/// after the other, each with its transformed coordinate: the coordinates,
/// their transformed components, and the sum of the cross terms along them.
pub open spec fn traced<T: CoordinateTransform>(
    line: Seq<Coord>,
    transform: &T,
    kind: GeomType,
) -> Line {
    Line { raw: line, transformed: transform_all(transform, kind, line), area: path_sum(line) }
}

/// What the stores of the lines `lines` hold, one each, in order.
pub open spec fn traced_all<T: CoordinateTransform>(
    lines: Seq<Seq<Coord>>,
    transform: &T,
    kind: GeomType,
) -> Seq<Line> {
    Seq::new(lines.len(), |i: int| traced(lines[i], transform, kind))
}

/// What the geometry of the part `part` holds. A point holds the first two
/// components of its transformed coordinate.
pub open spec fn part_shape<T: CoordinateTransform>(
    part: Part,
    transform: &T,
    kind: GeomType,
) -> Shape {
    match part {
        Part::Point(point) => {
            let components = transform.transformed(point.0, point.1, kind).components();
            Shape::Point { x: components[0], y: components[1] }
        },
        Part::LineString(line) => Shape::LineString(traced(line, transform, kind)),
        Part::Polygon { exterior, holes } => Shape::Polygon {
            exterior: traced(exterior, transform, kind),
            holes: traced_all(holes, transform, kind),
        },
    }
}

/// What the geometries of the parts `parts` hold, one each, in order.
pub open spec fn part_shapes<T: CoordinateTransform>(
    parts: Seq<Part>,
    transform: &T,
    kind: GeomType,
) -> Seq<Shape> {
    Seq::new(parts.len(), |i: int| part_shape(parts[i], transform, kind))
}

/// Whether `storage` holds the raw coordinates `line`, their transformed
/// components, and the area accumulated along them.
pub open spec fn stores<S, T>(storage: &S, line: Seq<Coord>, transform: &T, kind: GeomType) -> bool
    where S: CoordinateStorage, T: CoordinateTransform<Output = S::TransformedCoord>
{
    line_of(storage) == traced(line, transform, kind)
}

/// Whether the stores of `rings` hold the lines `lines`, one each, in order.
pub open spec fn store_all<S, T>(
    rings: Seq<S>,
    lines: Seq<Seq<Coord>>,
    transform: &T,
    kind: GeomType,
) -> bool
    where S: CoordinateStorage, T: CoordinateTransform<Output = S::TransformedCoord>
{
    lines_of(rings) == traced_all(lines, transform, kind)
}

/// The transformed components of a line after one more coordinate.
pub proof fn lemma_transform_all_push<T: CoordinateTransform>(
    transform: &T,
    kind: GeomType,
    line: Seq<Coord>,
    point: Coord,
)
    ensures
        transform_all(transform, kind, line.push(point)) == transform_all(transform, kind, line)
            + transform.transformed(point.0, point.1, kind).components(),
{
    assert(line.push(point).drop_last() =~= line);
}

} // verus!
