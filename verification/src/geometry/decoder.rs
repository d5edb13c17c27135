//! The geometry command decoder.
//!
//! The decoder reads the command stream of one feature and yields its parts
//! one at a time. Each request for a part is specified against the state
//! machine of [`crate::machine`].

use crate::area::Coord;
use crate::cursor::{advance_cursor, decode_command, CLOSE_PATH, LINE_TO, MOVE_TO};
use crate::error::{ErrorSource, GeometryError, ParserError};
use crate::geometry::shape::{
    lemma_transform_all_push, lines_of, part_shape, part_shapes, shapes_of, store_all, stores,
    traced_all, Geometry,
};
use crate::geometry::storage::CoordinateStorage;
use crate::geometry::transform::{CoordinateTransform, TransformOutput};
use crate::machine::{
    after, all_parts, finish, initial, lemma_all_parts_unfold, lemma_next_part_progress,
    lemma_step_progress, next_part, polygon_of, rank, remaining, Item, Machine, ParserState, Part,
    Step,
};
use crate::tile::GeomType;
use vstd::prelude::*;

verus! {

/// Whether `item` is what the machine gives: nothing at the end, the
/// geometry of the part, or a geometry error for a failure.
pub open spec fn yields<S, T>(
    item: Option<Result<Geometry<S>, ParserError>>,
    expected: Item,
    transform: &T,
    kind: GeomType,
) -> bool
    where S: CoordinateStorage, T: CoordinateTransform<Output = S::TransformedCoord>
{
    match expected {
        Item::End => item is None,
        Item::Part(part) => {
            &&& item is Some
            &&& item->0 is Ok
            &&& item->0->Ok_0@ == part_shape(part, transform, kind)
        },
        Item::Failure => {
            &&& item is Some
            &&& item->0 is Err
            &&& item->0->Err_0.source_spec() == ErrorSource::Geometry(GeometryError)
        },
    }
}

/// Whether two items are alike: both nothing, both geometries that hold the
/// same, or both errors of the same cause.
pub open spec fn same_items<S: CoordinateStorage>(
    first: Option<Result<Geometry<S>, ParserError>>,
    second: Option<Result<Geometry<S>, ParserError>>,
) -> bool {
    match first {
        None => second is None,
        Some(Ok(geometry)) => second is Some && second->0 is Ok && second->0->Ok_0@ == geometry@,
        Some(Err(error)) => second is Some && second->0 is Err
            && second->0->Err_0.source_spec() == error.source_spec(),
    }
}

/// Two decoders in the same state yield alike: whatever two requests give for
/// the same item of the machine holds the same.
pub proof fn lemma_next_is_deterministic<S, T>(
    first: Option<Result<Geometry<S>, ParserError>>,
    second: Option<Result<Geometry<S>, ParserError>>,
    expected: Item,
    transform: &T,
    kind: GeomType,
) where S: CoordinateStorage, T: CoordinateTransform<Output = S::TransformedCoord>
    requires
        yields(first, expected, transform, kind),
        yields(second, expected, transform, kind),
    ensures
        same_items(first, second),
{
}

/// Whether `result` is what draining a decoder gives: the geometries of all
/// the parts, or a geometry error if the machine fails before the end.
pub open spec fn drained<S, T>(
    result: Result<Vec<Geometry<S>>, ParserError>,
    expected: Option<Seq<Part>>,
    transform: &T,
    kind: GeomType,
) -> bool
    where S: CoordinateStorage, T: CoordinateTransform<Output = S::TransformedCoord>
{
    match expected {
        Some(parts) => {
            &&& result is Ok
            &&& shapes_of(result->Ok_0@) == part_shapes(parts, transform, kind)
        },
        None => {
            &&& result is Err
            &&& result->Err_0.source_spec() == ErrorSource::Geometry(GeometryError)
        },
    }
}

/// Geometry parser iterator: reads the command stream of one feature and
/// yields its parts one at a time.
pub struct GeometryIterator<'a, S, T> where
    S: CoordinateStorage,
    T: CoordinateTransform<Output = S::TransformedCoord>,
 {
    geometry_data: &'a [u32],
    geom_type: GeomType,
    position: usize,
    cursor: Coord,
    current_coordinates: S,
    pending_rings: Vec<S>,
    state: ParserState,
    transform: T,
}

/// The raw coordinates of each of `rings`.
pub open spec fn raw_lines<S: CoordinateStorage>(rings: Seq<S>) -> Seq<Seq<Coord>> {
    Seq::new(rings.len(), |i: int| rings[i].raw())
}

impl<'a, S, T> GeometryIterator<'a, S, T> where
    S: CoordinateStorage,
    T: CoordinateTransform<Output = S::TransformedCoord>,
 {
    /// The command stream.
    pub closed spec fn data(&self) -> Seq<u32> {
        self.geometry_data@
    }

    /// The kind of the geometry.
    pub closed spec fn kind(&self) -> GeomType {
        self.geom_type
    }

    /// The coordinate transform.
    pub closed spec fn transform(&self) -> T {
        self.transform
    }

    /// The state of the decoder.
    pub closed spec fn machine(&self) -> Machine {
        Machine {
            position: self.position as nat,
            cursor: self.cursor,
            current: self.current_coordinates.raw(),
            pending: raw_lines(self.pending_rings@),
            state: self.state,
        }
    }

    /// Whether the decoder is consistent: it has not read past the stream, and
    /// its stores hold the transformed coordinates and the accumulated area
    /// of their raw coordinates.
    pub closed spec fn wf(&self) -> bool {
        &&& self.position <= self.geometry_data@.len()
        &&& stores(
            &self.current_coordinates,
            self.current_coordinates.raw(),
            &self.transform,
            self.geom_type,
        )
        &&& store_all(
            self.pending_rings@,
            raw_lines(self.pending_rings@),
            &self.transform,
            self.geom_type,
        )
    }

    /// A decoder at the start of the command stream `geometry_data`.
    pub fn new(geometry_data: &'a [u32], geom_type: GeomType, transform: T) -> (iterator: Self)
        ensures
            iterator.wf(),
            iterator.data() == geometry_data@,
            iterator.kind() == geom_type,
            iterator.transform() == transform,
            iterator.machine() == initial(),
    {
        let iterator = Self {
            geometry_data,
            geom_type,
            position: 0,
            cursor: (0, 0),
            current_coordinates: S::new_empty(),
            pending_rings: Vec::new(),
            state: ParserState::Initial,
            transform,
        };
        assert(raw_lines(iterator.pending_rings@) =~= Seq::<Seq<Coord>>::empty());
        assert(lines_of(iterator.pending_rings@) =~= traced_all(
            raw_lines(iterator.pending_rings@),
            &iterator.transform,
            iterator.geom_type,
        ));
        iterator
    }
    /// Parse and return the next geometry part: `None` at the end of the
    /// stream, else the part or the error that the machine gives.
    pub fn next(&mut self) -> (item: Option<Result<Geometry<S>, ParserError>>)
        requires
            old(self).wf(),
        ensures
            final(self).wf(),
            final(self).data() == old(self).data(),
            final(self).kind() == old(self).kind(),
            final(self).transform() == old(self).transform(),
            final(self).machine() == next_part(
                old(self).data(),
                old(self).kind(),
                old(self).machine(),
            ).machine,
            yields(
                item,
                next_part(old(self).data(), old(self).kind(), old(self).machine()).item,
                &old(self).transform(),
                old(self).kind(),
            ),
    {
        self.parse_next()
    }

    fn parse_next(&mut self) -> (item: Option<Result<Geometry<S>, ParserError>>)
        requires
            old(self).wf(),
        ensures
            final(self).wf(),
            final(self).data() == old(self).data(),
            final(self).kind() == old(self).kind(),
            final(self).transform() == old(self).transform(),
            final(self).machine() == next_part(
                old(self).data(),
                old(self).kind(),
                old(self).machine(),
            ).machine,
            yields(
                item,
                next_part(old(self).data(), old(self).kind(), old(self).machine()).item,
                &old(self).transform(),
                old(self).kind(),
            ),
    {
        if self.geom_type == GeomType::Unknown {
            return Some(Err(ParserError::new(GeometryError::new())));
        }
        loop
            invariant
                self.wf(),
                self.data() == old(self).data(),
                self.kind() == old(self).kind(),
                self.transform() == old(self).transform(),
                self.kind() != GeomType::Unknown,
                next_part(self.data(), self.kind(), self.machine()) == next_part(
                    old(self).data(),
                    old(self).kind(),
                    old(self).machine(),
                ),
            decreases remaining(self.data(), self.machine()), rank(self.machine().state),
        {
            let ghost before = self.machine();
            proof {
                lemma_step_progress(self.data(), self.kind(), before);
            }
            match self.state {
                ParserState::Initial => {
                    self.state = ParserState::ReadingCommand;
                },
                ParserState::ReadingCommand => {
                    if self.position >= self.geometry_data.len() {
                        return self.finish_parsing();
                    }
                    let command_integer = self.geometry_data[self.position];
                    self.position += 1;

                    let (command_id, count) = decode_command(command_integer);

                    if command_id == MOVE_TO {
                        if self.geom_type == GeomType::Linestring
                            && !self.current_coordinates.is_empty() {
                            // Move current coordinates to create a LineString
                            let mut linestring = S::new_empty();
                            std::mem::swap(&mut linestring, &mut self.current_coordinates);

                            self.state = ParserState::ReadingParameters { count, command_id };
                            return Some(Ok(Geometry::LineString(linestring)));
                        }
                        self.state = ParserState::ReadingParameters { count, command_id };
                    } else if command_id == LINE_TO {
                        self.state = ParserState::ReadingParameters { count, command_id };
                    } else if command_id == CLOSE_PATH {
                        if self.current_coordinates.first().is_none() {
                            return Some(Err(ParserError::new(GeometryError::new())));
                        }
                        // The edge from the last point back to the first is not in
                        // the accumulator: get_accumulated_area adds it.
                        let mut ring = S::new_empty();
                        std::mem::swap(&mut ring, &mut self.current_coordinates);

                        if self.pending_rings.is_empty() {
                            // The first ring is always the exterior ring
                            proof {
                                assert(before.pending =~= Seq::<Seq<Coord>>::empty());
                            }
                            self.push_pending(ring);
                        } else {
                            // Second and subsequent rings: determine by area
                            let area = ring.get_accumulated_area();

                            if area > 0 {
                                let polygon = self.take_pending();

                                // Save the current ring as the start of a new polygon
                                self.push_pending(ring);

                                self.state = ParserState::ReadingCommand;

                                if self.geom_type == GeomType::Polygon {
                                    return Some(Ok(polygon));
                                }
                            } else {
                                // Zero or negative area: hole in the current polygon
                                self.push_pending(ring);
                            }
                        }
                        self.state = ParserState::ReadingCommand;
                    } else {
                        self.state = ParserState::ReadingCommand;
                    }
                },
                ParserState::ReadingParameters { count, command_id } => {
                    if count > 0 && self.position < self.geometry_data.len() {
                        let parameter_integer = self.geometry_data[self.position];
                        self.position += 1;
                        let left: u32 = count - 1;

                        if count % 2 == 0 {
                            self.cursor = (advance_cursor(self.cursor.0, parameter_integer), self.cursor.1);
                            self.state = ParserState::ReadingParameters { count: left, command_id };
                        } else {
                            self.cursor = (self.cursor.0, advance_cursor(self.cursor.1, parameter_integer));

                            let x = self.cursor.0;
                            let y = self.cursor.1;

                            // Apply coordinate transformation
                            let transformed_coord = self.transform.transform(x, y, &self.geom_type);

                            // For Point type, return each coordinate individually
                            if self.geom_type == GeomType::Point && command_id == MOVE_TO {
                                if left > 0 {
                                    self.state = ParserState::ReadingParameters {
                                        count: left,
                                        command_id,
                                    };
                                } else {
                                    self.state = ParserState::ReadingCommand;
                                }
                                // To support both 2D/3D, get the first 2 elements from
                                // the transformation result
                                proof {
                                    transformed_coord.lemma_dimensions();
                                }
                                let mut temp_storage = S::new_empty();
                                temp_storage.push(x, y, transformed_coord);
                                let transformed_slice = temp_storage.transformed_as_slice();

                                return Some(
                                    Ok(
                                        Geometry::Point {
                                            x: transformed_slice[0],
                                            y: transformed_slice[1],
                                        },
                                    ),
                                );
                            } else {
                                proof {
                                    lemma_transform_all_push(
                                        &self.transform,
                                        self.geom_type,
                                        self.current_coordinates.raw(),
                                        (x, y),
                                    );
                                }
                                self.current_coordinates.push(x, y, transformed_coord);
                                self.state = ParserState::ReadingParameters { count: left, command_id };
                            }
                        }
                    } else {
                        self.state = ParserState::ReadingCommand;
                    }
                },
                ParserState::Finished => {
                    return None;
                },
            }
        }
    }

    /// Drains the decoder: all the parts that are still to come, in the
    /// order of their commands, or the first error.
    pub fn collect(self) -> (result: Result<Vec<Geometry<S>>, ParserError>)
        requires
            self.wf(),
        ensures
            drained(
                result,
                all_parts(self.data(), self.kind(), self.machine()),
                &self.transform(),
                self.kind(),
            ),
    {
        let mut iterator = self;
        let mut geometries: Vec<Geometry<S>> = Vec::new();
        let ghost mut done: Seq<Part> = Seq::empty();
        loop
            invariant
                iterator.wf(),
                iterator.data() == self.data(),
                iterator.kind() == self.kind(),
                iterator.transform() == self.transform(),
                geometries@.len() == done.len(),
                shapes_of(geometries@) == part_shapes(done, &self.transform(), self.kind()),
                all_parts(self.data(), self.kind(), self.machine()) == match all_parts(
                    self.data(),
                    self.kind(),
                    iterator.machine(),
                ) {
                    Some(rest) => Some(done + rest),
                    None => None,
                },
            decreases remaining(iterator.data(), iterator.machine()), rank(iterator.machine().state),
        {
            let ghost before = iterator.machine();
            proof {
                lemma_all_parts_unfold(self.data(), self.kind(), before);
                lemma_next_part_progress(self.data(), self.kind(), before);
            }
            match iterator.next() {
                None => {
                    return Ok(geometries);
                },
                Some(Err(error)) => {
                    return Err(error);
                },
                Some(Ok(geometry)) => {
                    let ghost part = next_part(self.data(), self.kind(), before).item->Part_0;
                    let ghost more = done.push(part);
                    let ghost shapes = shapes_of(geometries@);
                    geometries.push(geometry);
                    proof {
                        let expected = part_shapes(more, &self.transform(), self.kind());
                        assert forall|i: int| 0 <= i < geometries@.len() implies shapes_of(
                            geometries@,
                        )[i] == expected[i] by {
                            if i < done.len() {
                                assert(shapes[i] == part_shapes(
                                    done,
                                    &self.transform(),
                                    self.kind(),
                                )[i]);
                            }
                        }
                        done = more;
                    }
                },
            }
        }
    }

    /// Adds a closed ring to the pending rings.
    fn push_pending(&mut self, ring: S)
        requires
            old(self).wf(),
            stores(&ring, ring.raw(), &old(self).transform, old(self).geom_type),
        ensures
            final(self).wf(),
            final(self).data() == old(self).data(),
            final(self).kind() == old(self).kind(),
            final(self).transform() == old(self).transform(),
            final(self).machine() == (Machine {
                pending: old(self).machine().pending.push(ring.raw()),
                ..old(self).machine()
            }),
    {
        self.pending_rings.push(ring);
        proof {
            let before = old(self).pending_rings@;
            let now = self.pending_rings@;
            assert(raw_lines(now) =~= raw_lines(before).push(ring.raw()));
            assert forall|i: int| 0 <= i < now.len() implies lines_of(now)[i] == traced_all(
                raw_lines(now),
                &self.transform,
                self.geom_type,
            )[i] by {
                if i < before.len() {
                    assert(lines_of(before)[i] == traced_all(
                        raw_lines(before),
                        &self.transform,
                        self.geom_type,
                    )[i]);
                }
            }
            assert(lines_of(now) =~= traced_all(raw_lines(now), &self.transform, self.geom_type));
        }
    }

    /// Takes the pending rings out as a polygon: the first ring as its
    /// exterior, the others as its holes.
    fn take_pending(&mut self) -> (polygon: Geometry<S>)
        requires
            old(self).wf(),
            old(self).pending_rings@.len() > 0,
        ensures
            final(self).wf(),
            final(self).data() == old(self).data(),
            final(self).kind() == old(self).kind(),
            final(self).transform() == old(self).transform(),
            final(self).machine() == (Machine { pending: Seq::empty(), ..old(self).machine() }),
            polygon@ == part_shape(
                polygon_of(old(self).machine().pending),
                &old(self).transform(),
                old(self).kind(),
            ),
    {
        let mut rings = Vec::new();
        std::mem::swap(&mut rings, &mut self.pending_rings);
        let ghost all = rings@;
        let exterior = rings.remove(0);
        let holes = rings;
        proof {
            let lines = raw_lines(all);
            let expected = traced_all(lines, &self.transform, self.geom_type);
            assert(raw_lines(self.pending_rings@) =~= Seq::<Seq<Coord>>::empty());
            assert(lines_of(self.pending_rings@) =~= traced_all(
                Seq::<Seq<Coord>>::empty(),
                &self.transform,
                self.geom_type,
            ));
            assert(lines_of(all)[0] == expected[0]);
            assert forall|i: int| 0 <= i < holes@.len() implies lines_of(holes@)[i] == traced_all(
                lines.subrange(1, lines.len() as int),
                &self.transform,
                self.geom_type,
            )[i] by {
                assert(lines_of(all)[i + 1] == expected[i + 1]);
            }
            assert(lines_of(holes@) =~= traced_all(
                lines.subrange(1, lines.len() as int),
                &self.transform,
                self.geom_type,
            ));
        }
        Geometry::Polygon { exterior, holes }
    }

    /// Processing at the end of parsing
    fn finish_parsing(&mut self) -> (item: Option<Result<Geometry<S>, ParserError>>)
        requires
            old(self).wf(),
        ensures
            final(self).wf(),
            final(self).data() == old(self).data(),
            final(self).kind() == old(self).kind(),
            final(self).transform() == old(self).transform(),
            final(self).machine() == after(finish(old(self).kind(), old(self).machine())),
            match finish(old(self).kind(), old(self).machine()) {
                Step::Yield(_, part) => yields(
                    item,
                    Item::Part(part),
                    &old(self).transform(),
                    old(self).kind(),
                ),
                _ => item is None,
            },
    {
        self.state = ParserState::Finished;

        match self.geom_type {
            GeomType::Linestring => {
                if !self.current_coordinates.is_empty() {
                    let mut linestring = S::new_empty();
                    std::mem::swap(&mut linestring, &mut self.current_coordinates);
                    Some(Ok(Geometry::LineString(linestring)))
                } else {
                    None
                }
            },
            GeomType::Point => None,
            GeomType::Polygon => {
                if !self.pending_rings.is_empty() {
                    Some(Ok(self.take_pending()))
                } else {
                    None
                }
            },
            GeomType::Unknown => None,
        }
    }
}

/// Create a geometry iterator
pub fn parse_geometry_iter<'a, S, T>(
    geometry_data: &'a [u32],
    geom_type: GeomType,
    transform: T,
) -> (iterator: GeometryIterator<'a, S, T>) where
    S: CoordinateStorage,
    T: CoordinateTransform<Output = S::TransformedCoord>,

    ensures
        iterator.wf(),
        iterator.data() == geometry_data@,
        iterator.kind() == geom_type,
        iterator.transform() == transform,
        iterator.machine() == initial(),
{
    GeometryIterator::new(geometry_data, geom_type, transform)
}

} // verus!
