//! The whole geometry of one feature, decoded at once.

use crate::area::{lemma_path_sum_push, Coord};
use crate::error::{ErrorSource, GeometryError, ParserError};
use crate::geometry::decoder::GeometryIterator;
use crate::geometry::shape::{
    lemma_transform_all_push, lines_of, rings_of_pairs, store_all, stores, traced, traced_all,
    Geometry, Line, Shape,
};
use crate::geometry::storage::{CoordinateStorage, FlatCoordinateStorage};
use crate::geometry::transform::IdentityTransform;
use crate::machine::{
    all_parts, decode, lemma_all_parts_unfold, lemma_next_part_kind, lemma_next_part_progress,
    next_part, part_of_kind, rank, remaining, Part,
};
use crate::tile::GeomType;
use vstd::prelude::*;

verus! {

/// The coordinates of a sequence of point parts.
pub open spec fn part_points(parts: Seq<Part>) -> Seq<Coord> {
    Seq::new(parts.len(), |i: int| parts[i]->Point_0)
}

/// The lines of a sequence of line string parts.
pub open spec fn part_lines(parts: Seq<Part>) -> Seq<Seq<Coord>> {
    Seq::new(parts.len(), |i: int| parts[i]->LineString_0)
}

/// The rings of a sequence of polygon parts, untransformed: for each polygon
/// its exterior ring and its holes.
pub open spec fn part_rings(parts: Seq<Part>, kind: GeomType) -> Seq<(Line, Seq<Line>)> {
    Seq::new(
        parts.len(),
        |i: int|
            (
                traced(parts[i]->exterior, &IdentityTransform, kind),
                traced_all(parts[i]->holes, &IdentityTransform, kind),
            ),
    )
}

/// All the parts of one feature of kind `kind` together, untransformed. The
/// points of a point feature make a multi-point. One line makes a line
/// string, several make a multi-line string, and no line makes an empty line
/// string. The polygons of a polygon feature make a multi-polygon.
pub open spec fn gathered(kind: GeomType, parts: Seq<Part>) -> Shape {
    match kind {
        GeomType::Point => Shape::MultiPoint(traced(part_points(parts), &IdentityTransform, kind)),
        GeomType::Polygon => Shape::MultiPolygon(part_rings(parts, kind)),
        _ => if parts.len() == 0 {
            Shape::LineString(traced(Seq::empty(), &IdentityTransform, kind))
        } else if parts.len() == 1 {
            Shape::LineString(traced(parts[0]->LineString_0, &IdentityTransform, kind))
        } else {
            Shape::MultiLineString(traced_all(part_lines(parts), &IdentityTransform, kind))
        },
    }
}

/// Whether `result` is the whole geometry that the command stream `data`
/// encodes for a feature of kind `kind`: all its parts together, or a
/// geometry error if the stream is malformed or the kind is unknown.
pub open spec fn parsed(
    result: Result<Geometry<FlatCoordinateStorage>, ParserError>,
    data: Seq<u32>,
    kind: GeomType,
) -> bool {
    match decode(data, kind) {
        Some(parts) => {
            &&& result is Ok
            &&& result->Ok_0@ == gathered(kind, parts)
        },
        None => {
            &&& result is Err
            &&& result->Err_0.source_spec() == ErrorSource::Geometry(GeometryError)
        },
    }
}

/// Decoding the same command stream twice gives the same: both results hold
/// the same geometry, or both are errors of the same cause.
pub proof fn lemma_parse_geometry_is_deterministic(
    first: Result<Geometry<FlatCoordinateStorage>, ParserError>,
    second: Result<Geometry<FlatCoordinateStorage>, ParserError>,
    data: Seq<u32>,
    kind: GeomType,
)
    requires
        parsed(first, data, kind),
        parsed(second, data, kind),
    ensures
        first is Ok <==> second is Ok,
        first is Ok ==> first->Ok_0@ == second->Ok_0@,
        first is Err ==> first->Err_0.source_spec() == second->Err_0.source_spec(),
{
}

/// Decodes the whole geometry of one feature, untransformed, into one value.
///
/// Fails with a geometry error exactly when the kind is unknown or a
/// `ClosePath` comes before any coordinate of its ring.
pub fn parse_geometry(geometry_data: &[u32], geom_type: GeomType) -> (result: Result<
    Geometry<FlatCoordinateStorage>,
    ParserError,
>)
    ensures
        parsed(result, geometry_data@, geom_type),
{
    let mut iterator: GeometryIterator<'_, FlatCoordinateStorage, IdentityTransform> =
        GeometryIterator::new(geometry_data, geom_type, IdentityTransform);
    let mut points = FlatCoordinateStorage::new();
    let mut linestrings: Vec<FlatCoordinateStorage> = Vec::new();
    let mut polygons: Vec<(FlatCoordinateStorage, Vec<FlatCoordinateStorage>)> = Vec::new();
    let ghost mut done: Seq<Part> = Seq::empty();
    let ghost data = geometry_data@;
    let ghost identity = IdentityTransform;
    proof {
        assert(part_points(done) =~= Seq::<Coord>::empty());
        assert(lines_of(linestrings@) =~= traced_all(part_lines(done), &identity, geom_type));
    }
    loop
        invariant_except_break
            decode(data, geom_type) == match all_parts(data, geom_type, iterator.machine()) {
                Some(rest) => Some(done + rest),
                None => None,
            },
        invariant
            data == geometry_data@,
            iterator.wf(),
            iterator.data() == data,
            iterator.kind() == geom_type,
            iterator.transform() == identity,
            forall|i: int| 0 <= i < done.len() ==> part_of_kind(#[trigger] done[i], geom_type),
            geom_type == GeomType::Point ==> stores(
                &points,
                part_points(done),
                &identity,
                geom_type,
            ),
            geom_type == GeomType::Linestring ==> linestrings@.len() == done.len() && store_all(
                linestrings@,
                part_lines(done),
                &identity,
                geom_type,
            ),
            geom_type == GeomType::Polygon ==> rings_of_pairs(polygons@) == part_rings(
                done,
                geom_type,
            ),
        ensures
            decode(data, geom_type) == Some(done),
        decreases remaining(iterator.data(), iterator.machine()), rank(iterator.machine().state),
    {
        let ghost before = iterator.machine();
        proof {
            lemma_all_parts_unfold(data, geom_type, before);
            lemma_next_part_progress(data, geom_type, before);
            lemma_next_part_kind(data, geom_type, before);
        }
        match iterator.next() {
            None => {
                break ;
            },
            Some(Err(error)) => {
                return Err(error);
            },
            Some(Ok(geometry)) => {
                let ghost part = next_part(data, geom_type, before).item->Part_0;
                let ghost more = done.push(part);
                match geometry {
                    Geometry::Point { x, y } => {
                        proof {
                            lemma_transform_all_push(
                                &identity,
                                geom_type,
                                part_points(done),
                                part->Point_0,
                            );
                            lemma_path_sum_push(part_points(done), part->Point_0);
                            assert(part_points(more) =~= part_points(done).push(part->Point_0));
                        }
                        points.push(x as i32, y as i32, (x, y));
                    },
                    Geometry::LineString(line) => {
                        let ghost lines = linestrings@;
                        linestrings.push(line);
                        proof {
                            let expected = traced_all(part_lines(more), &identity, geom_type);
                            assert forall|i: int| 0 <= i < linestrings@.len() implies lines_of(
                                linestrings@,
                            )[i] == expected[i] by {
                                if i < lines.len() {
                                    assert(lines_of(lines)[i] == traced_all(
                                        part_lines(done),
                                        &identity,
                                        geom_type,
                                    )[i]);
                                }
                            }
                            assert(lines_of(linestrings@) =~= expected);
                        }
                    },
                    Geometry::Polygon { exterior, holes } => {
                        let ghost pairs = polygons@;
                        polygons.push((exterior, holes));
                        proof {
                            let expected = part_rings(more, geom_type);
                            assert forall|i: int| 0 <= i < polygons@.len() implies rings_of_pairs(
                                polygons@,
                            )[i] == expected[i] by {
                                if i < pairs.len() {
                                    assert(rings_of_pairs(pairs)[i] == part_rings(
                                        done,
                                        geom_type,
                                    )[i]);
                                }
                            }
                        }
                    },
                    _ => {},
                }
                proof {
                    done = more;
                }
            },
        }
    }
    match geom_type {
        GeomType::Point => Ok(Geometry::MultiPoint(points)),
        GeomType::Linestring => {
            if linestrings.len() == 1 {
                proof {
                    assert(lines_of(linestrings@)[0] == traced_all(
                        part_lines(done),
                        &identity,
                        geom_type,
                    )[0]);
                }
                let line = linestrings.remove(0);
                Ok(Geometry::LineString(line))
            } else if linestrings.len() == 0 {
                Ok(Geometry::LineString(FlatCoordinateStorage::new()))
            } else {
                Ok(Geometry::MultiLineString(linestrings))
            }
        },
        GeomType::Polygon => Ok(Geometry::MultiPolygon(polygons)),
        GeomType::Unknown => Err(ParserError::new(GeometryError::new())),
    }
}

} // verus!
