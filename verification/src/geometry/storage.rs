//! Coordinate storage: the coordinates of one line or ring, with the area that
//! is accumulated along them.

use crate::area::{
    closed_area_doubled, cross, cross_term, lemma_closed_area_is_shoelace, lemma_cross_bound,
    lemma_path_sum_bound, lemma_path_sum_push, path_sum, shoelace_doubled, Coord, CROSS_MAX,
};
use crate::geometry::transform::TransformOutput;
use vstd::prelude::*;

verus! {

/// A store of the coordinates of one line or ring, raw and transformed, with
/// a running area accumulator.
///
/// A store that is filled by `push` and emptied by `clear` alone keeps its
/// accumulator equal to the sum of the cross terms along its coordinates;
/// `push` and `get_accumulated_area` ask for that, and the sum then fits the
/// accumulator whatever the coordinates are.
pub trait CoordinateStorage: Sized {
    /// The type of transformed coordinates.
    type TransformedCoord: TransformOutput;

    /// The raw coordinates, in the order in which they were added.
    spec fn raw(&self) -> Seq<Coord>;

    /// The components of the transformed coordinates, one coordinate after
    /// the other.
    spec fn transformed(&self) -> Seq<i64>;

    /// The area accumulator.
    spec fn area(&self) -> int;

    /// Adds a coordinate and leaves the area accumulator as it is.
    fn push_coord(&mut self, x: i32, y: i32, transformed: Self::TransformedCoord)
        ensures
            final(self).raw() == old(self).raw().push((x, y)),
            final(self).transformed() == old(self).transformed() + transformed.components(),
            final(self).area() == old(self).area(),
    ;

    /// The first raw coordinate.
    fn first(&self) -> (coord: Option<Coord>)
        ensures
            coord == if self.raw().len() > 0 {
                Some(self.raw()[0])
            } else {
                None
            },
    ;

    /// The last raw coordinate.
    fn last(&self) -> (coord: Option<Coord>)
        ensures
            coord == if self.raw().len() > 0 {
                Some(self.raw().last())
            } else {
                None
            },
    ;

    /// Removes all coordinates and leaves the area accumulator as it is.
    fn clear_coords(&mut self)
        ensures
            final(self).raw() == Seq::<Coord>::empty(),
            final(self).transformed() == Seq::<i64>::empty(),
            final(self).area() == old(self).area(),
    ;

    /// The number of coordinates.
    fn len(&self) -> (n: usize)
        ensures
            n == self.raw().len(),
    ;

    /// Whether no coordinate is held.
    fn is_empty(&self) -> (empty: bool)
        ensures
            empty == (self.raw().len() == 0),
    {
        self.len() == 0
    }

    /// An empty store with an area accumulator of zero.
    fn new_empty() -> (storage: Self)
        ensures
            storage.raw() == Seq::<Coord>::empty(),
            storage.transformed() == Seq::<i64>::empty(),
            storage.area() == 0,
    ;

    /// The area accumulator.
    fn accumulated_area(&self) -> (area: i128)
        ensures
            area == self.area(),
    ;

    /// Sets the area accumulator and leaves the coordinates as they are.
    fn set_accumulated_area(&mut self, area: i128)
        ensures
            final(self).area() == area,
            final(self).raw() == old(self).raw(),
            final(self).transformed() == old(self).transformed(),
    ;

    /// Adds a coordinate; if there is a previous one, the cross term of the
    /// edge between the two is added to the area accumulator, which stays
    /// the sum of the cross terms along the coordinates.
    fn push(&mut self, x: i32, y: i32, transformed: Self::TransformedCoord)
        requires
            old(self).area() == path_sum(old(self).raw()),
        ensures
            final(self).raw() == old(self).raw().push((x, y)),
            final(self).transformed() == old(self).transformed() + transformed.components(),
            final(self).area() == if old(self).raw().len() > 0 {
                old(self).area() + cross(old(self).raw().last(), (x, y))
            } else {
                old(self).area()
            },
            final(self).area() == path_sum(final(self).raw()),
    {
        let ghost before = self.raw();
        if let Some((prev_x, prev_y)) = self.last() {
            let current_area = self.accumulated_area();
            let n = self.len();
            proof {
                lemma_path_sum_bound(before);
                lemma_cross_bound((prev_x, prev_y), (x, y));
                assert(CROSS_MAX * (n - 1) <= CROSS_MAX * (usize::MAX - 1)) by (nonlinear_arith)
                    requires
                        1 <= n <= usize::MAX,
                ;
            }
            self.set_accumulated_area(current_area + cross_term((prev_x, prev_y), (x, y)));
        }
        self.push_coord(x, y, transformed);
        proof {
            lemma_path_sum_push(before, (x, y));
        }
    }

    /// Removes all coordinates and resets the area accumulator to zero.
    fn clear(&mut self)
        ensures
            final(self).raw() == Seq::<Coord>::empty(),
            final(self).transformed() == Seq::<i64>::empty(),
            final(self).area() == 0,
            final(self).area() == path_sum(final(self).raw()),
    {
        self.clear_coords();
        self.set_accumulated_area(0);
    }

    /// Twice the signed area of the ring through the coordinates: the area
    /// accumulator and the cross term of the edge from the last coordinate
    /// back to the first, which is the shoelace formula over the closed ring.
    /// Zero for fewer than two coordinates. The area is kept doubled so that
    /// it is a whole number; its sign is the winding direction of the ring.
    fn get_accumulated_area(&self) -> (area: i128)
        requires
            self.area() == path_sum(self.raw()),
        ensures
            area == closed_area_doubled(self.raw()),
            area == shoelace_doubled(self.raw()),
    {
        proof {
            lemma_closed_area_is_shoelace(self.raw());
        }
        let len = self.len();
        if len >= 2 {
            if let (Some((first_x, first_y)), Some((last_x, last_y))) = (self.first(), self.last()) {
                proof {
                    lemma_path_sum_bound(self.raw());
                    lemma_cross_bound((last_x, last_y), (first_x, first_y));
                    assert(CROSS_MAX * (len - 1) <= CROSS_MAX * (usize::MAX - 1))
                        by (nonlinear_arith)
                        requires
                            1 <= len <= usize::MAX,
                    ;
                }
                self.accumulated_area() + cross_term((last_x, last_y), (first_x, first_y))
            } else {
                0
            }
        } else {
            0
        }
    }

    /// Hands out the buffer of transformed components.
    fn into_transformed_vec(self) -> (buffer: Vec<i64>)
        ensures
            buffer@ == self.transformed(),
    ;

    /// A view of the buffer of transformed components.
    fn transformed_as_slice(&self) -> (buffer: &[i64])
        ensures
            buffer@ == self.transformed(),
    ;
}

/// Flat coordinate storage (2D): the raw coordinates as pairs, the
/// transformed ones as one flat buffer of two components each.
#[derive(Debug, Clone)]
pub struct FlatCoordinateStorage {
    transformed_coords: Vec<i64>,
    coords: Vec<Coord>,
    accumulated_area: i128,
}

impl FlatCoordinateStorage {
    /// An empty store.
    pub fn new() -> (storage: Self)
        ensures
            storage.raw() == Seq::<Coord>::empty(),
            storage.transformed() == Seq::<i64>::empty(),
            storage.area() == 0,
    {
        Self { transformed_coords: Vec::new(), coords: Vec::new(), accumulated_area: 0 }
    }

    /// An empty store with room for `capacity` coordinates.
    pub fn with_capacity(capacity: usize) -> (storage: Self)
        ensures
            storage.raw() == Seq::<Coord>::empty(),
            storage.transformed() == Seq::<i64>::empty(),
            storage.area() == 0,
    {
        let room: usize = if capacity <= usize::MAX / 2 {
            capacity * 2
        } else {
            capacity
        };
        Self {
            transformed_coords: Vec::with_capacity(room),
            coords: Vec::with_capacity(capacity),
            accumulated_area: 0,
        }
    }

    /// Extract the internal buffer of raw coordinates (transfers ownership).
    pub fn into_vec(self) -> (buffer: Vec<Coord>)
        ensures
            buffer@ == self.raw(),
    {
        self.coords
    }

    /// Get a reference to the internal buffer of raw coordinates.
    pub fn as_slice(&self) -> (buffer: &[Coord])
        ensures
            buffer@ == self.raw(),
    {
        self.coords.as_slice()
    }
}

impl Default for FlatCoordinateStorage {
    fn default() -> (storage: Self)
        ensures
            storage.raw() == Seq::<Coord>::empty(),
            storage.transformed() == Seq::<i64>::empty(),
            storage.area() == 0,
    {
        Self::new()
    }
}

impl CoordinateStorage for FlatCoordinateStorage {
    type TransformedCoord = (i64, i64);

    closed spec fn raw(&self) -> Seq<Coord> {
        self.coords@
    }

    closed spec fn transformed(&self) -> Seq<i64> {
        self.transformed_coords@
    }

    closed spec fn area(&self) -> int {
        self.accumulated_area as int
    }

    fn push_coord(&mut self, x: i32, y: i32, transformed: (i64, i64)) {
        self.coords.push((x, y));
        transformed.push_to_vec(&mut self.transformed_coords);
    }

    fn first(&self) -> (coord: Option<Coord>) {
        let len = self.coords.len();
        if len >= 1 {
            Some(self.coords[0])
        } else {
            None
        }
    }

    fn last(&self) -> (coord: Option<Coord>) {
        let len = self.coords.len();
        if len >= 1 {
            Some(self.coords[len - 1])
        } else {
            None
        }
    }

    fn clear_coords(&mut self) {
        self.coords.clear();
        self.transformed_coords.clear();
    }

    fn len(&self) -> (n: usize) {
        self.coords.len()
    }

    fn new_empty() -> (storage: Self) {
        Self::new()
    }

    fn accumulated_area(&self) -> (area: i128) {
        self.accumulated_area
    }

    fn set_accumulated_area(&mut self, area: i128) {
        self.accumulated_area = area;
    }

    fn into_transformed_vec(self) -> (buffer: Vec<i64>) {
        self.transformed_coords
    }

    fn transformed_as_slice(&self) -> (buffer: &[i64]) {
        self.transformed_coords.as_slice()
    }
}

/// Flat coordinate storage (3D): the raw coordinates as pairs, the
/// transformed ones as one flat buffer of three components each.
#[derive(Debug, Clone)]
pub struct FlatCoordinateStorage3D {
    transformed_coords: Vec<i64>,
    coords: Vec<Coord>,
    accumulated_area: i128,
}

impl FlatCoordinateStorage3D {
    /// An empty store.
    pub fn new() -> (storage: Self)
        ensures
            storage.raw() == Seq::<Coord>::empty(),
            storage.transformed() == Seq::<i64>::empty(),
            storage.area() == 0,
    {
        Self { transformed_coords: Vec::new(), coords: Vec::new(), accumulated_area: 0 }
    }

    /// An empty store with room for `capacity` coordinates.
    pub fn with_capacity(capacity: usize) -> (storage: Self)
        ensures
            storage.raw() == Seq::<Coord>::empty(),
            storage.transformed() == Seq::<i64>::empty(),
            storage.area() == 0,
    {
        let room: usize = if capacity <= usize::MAX / 3 {
            capacity * 3
        } else {
            capacity
        };
        Self {
            transformed_coords: Vec::with_capacity(room),
            coords: Vec::with_capacity(capacity),
            accumulated_area: 0,
        }
    }

    /// Extract the internal buffer of raw coordinates (transfers ownership).
    pub fn into_vec(self) -> (buffer: Vec<Coord>)
        ensures
            buffer@ == self.raw(),
    {
        self.coords
    }

    /// Get a reference to the internal buffer of raw coordinates.
    pub fn as_slice(&self) -> (buffer: &[Coord])
        ensures
            buffer@ == self.raw(),
    {
        self.coords.as_slice()
    }
}

impl Default for FlatCoordinateStorage3D {
    fn default() -> (storage: Self)
        ensures
            storage.raw() == Seq::<Coord>::empty(),
            storage.transformed() == Seq::<i64>::empty(),
            storage.area() == 0,
    {
        Self::new()
    }
}

impl CoordinateStorage for FlatCoordinateStorage3D {
    type TransformedCoord = (i64, i64, i64);

    closed spec fn raw(&self) -> Seq<Coord> {
        self.coords@
    }

    closed spec fn transformed(&self) -> Seq<i64> {
        self.transformed_coords@
    }

    closed spec fn area(&self) -> int {
        self.accumulated_area as int
    }

    fn push_coord(&mut self, x: i32, y: i32, transformed: (i64, i64, i64)) {
        self.coords.push((x, y));
        transformed.push_to_vec(&mut self.transformed_coords);
    }

    fn first(&self) -> (coord: Option<Coord>) {
        let len = self.coords.len();
        if len >= 1 {
            Some(self.coords[0])
        } else {
            None
        }
    }

    fn last(&self) -> (coord: Option<Coord>) {
        let len = self.coords.len();
        if len >= 1 {
            Some(self.coords[len - 1])
        } else {
            None
        }
    }

    fn clear_coords(&mut self) {
        self.coords.clear();
        self.transformed_coords.clear();
    }

    fn len(&self) -> (n: usize) {
        self.coords.len()
    }

    fn new_empty() -> (storage: Self) {
        Self::new()
    }

    fn accumulated_area(&self) -> (area: i128) {
        self.accumulated_area
    }

    fn set_accumulated_area(&mut self, area: i128) {
        self.accumulated_area = area;
    }

    fn into_transformed_vec(self) -> (buffer: Vec<i64>) {
        self.transformed_coords
    }

    fn transformed_as_slice(&self) -> (buffer: &[i64]) {
        self.transformed_coords.as_slice()
    }
}

} // verus!
