//! How the closed rings of a polygon feature are grouped into polygons.
//!
//! The decoder groups rings as it reads them. Here the grouping is stated
//! over the whole sequence of rings that a command stream closes, and the
//! decoder is proved to yield exactly the polygons of that grouping.

use crate::area::{is_exterior, Coord};
use crate::cursor::{command_id, CLOSE_PATH};
use crate::machine::{
    all_parts, decode, initial, lemma_step_progress, polygon_of, rank, remaining, step, Machine,
    Part, Step,
};
use crate::tile::GeomType;
use vstd::prelude::*;

verus! {

/// The polygons that the rings `rings` make after the rings `pending` of a
/// polygon that is not complete yet. A ring that follows no other is an
/// exterior ring. A ring of positive area completes the polygon before it and
/// is the exterior ring of the next; any other ring is a hole of the polygon
/// before it.
pub open spec fn assemble(pending: Seq<Seq<Coord>>, rings: Seq<Seq<Coord>>) -> Seq<Part>
    decreases rings.len(),
{
    if rings.len() == 0 {
        if pending.len() > 0 {
            seq![polygon_of(pending)]
        } else {
            Seq::empty()
        }
    } else {
        let ring = rings[0];
        let rest = rings.subrange(1, rings.len() as int);
        if pending.len() == 0 {
            assemble(seq![ring], rest)
        } else if is_exterior(ring) {
            seq![polygon_of(pending)] + assemble(seq![ring], rest)
        } else {
            assemble(pending.push(ring), rest)
        }
    }
}

/// The polygons that a sequence of closed rings makes.
pub open spec fn polygons(rings: Seq<Seq<Coord>>) -> Seq<Part> {
    assemble(Seq::empty(), rings)
}

/// Whether the next step of the machine closes the ring that is being read.
pub open spec fn closes(data: Seq<u32>, m: Machine) -> bool {
    &&& m.state is ReadingCommand
    &&& m.position < data.len()
    &&& command_id(data[m.position as int]) == CLOSE_PATH
    &&& m.current.len() > 0
}

/// The rings that the machine closes from `m` on, in the order of their
/// `ClosePath` commands, or `None` if the machine fails before the end.
pub open spec fn closed_rings(data: Seq<u32>, kind: GeomType, m: Machine) -> Option<
    Seq<Seq<Coord>>,
>
    decreases remaining(data, m), rank(m.state),
{
    if kind == GeomType::Unknown {
        None
    } else {
        match step(data, kind, m) {
            Step::Continue(n) | Step::Yield(n, _) => {
                proof {
                    lemma_step_progress(data, kind, m);
                }
                match closed_rings(data, kind, n) {
                    Some(rest) => if closes(data, m) {
                        Some(seq![m.current] + rest)
                    } else {
                        Some(rest)
                    },
                    None => None,
                }
            },
            Step::Fail(_) => None,
            Step::Done(_) => Some(Seq::empty()),
        }
    }
}

/// The rings that the command stream `data` closes.
pub open spec fn rings_of(data: Seq<u32>, kind: GeomType) -> Option<Seq<Seq<Coord>>> {
    closed_rings(data, kind, initial())
}

/// Rings of which none has positive area are all holes of the polygon that is
/// pending.
proof fn lemma_assemble_holes(pending: Seq<Seq<Coord>>, rings: Seq<Seq<Coord>>)
    requires
        pending.len() > 0,
        forall|i: int| 0 <= i < rings.len() ==> !is_exterior(#[trigger] rings[i]),
    ensures
        assemble(pending, rings) == seq![polygon_of(pending + rings)],
    decreases rings.len(),
{
    if rings.len() == 0 {
        assert(pending + rings =~= pending);
    } else {
        let rest = rings.subrange(1, rings.len() as int);
        assert(!is_exterior(rings[0]));
        assert forall|i: int| 0 <= i < rest.len() implies !is_exterior(#[trigger] rest[i]) by {
            assert(rest[i] == rings[i + 1]);
        }
        lemma_assemble_holes(pending.push(rings[0]), rest);
        assert(pending.push(rings[0]) + rest =~= pending + rings);
    }
}

/// A ring of positive area splits the grouping: the rings before it are
/// grouped on their own, and so are the rings from it on.
proof fn lemma_assemble_split(pending: Seq<Seq<Coord>>, rings: Seq<Seq<Coord>>, k: int)
    requires
        0 <= k < rings.len(),
        is_exterior(rings[k]),
        pending.len() > 0 || k > 0,
    ensures
        assemble(pending, rings) == assemble(pending, rings.take(k)) + polygons(rings.skip(k)),
    decreases k,
{
    let rest = rings.subrange(1, rings.len() as int);
    if k == 0 {
        assert(rings.take(0) =~= Seq::<Seq<Coord>>::empty());
        assert(rings.skip(0) =~= rings);
    } else {
        let head = rings.take(k);
        assert(head[0] == rings[0]);
        assert(head.subrange(1, head.len() as int) =~= rest.take(k - 1));
        assert(rest.skip(k - 1) =~= rings.skip(k));
        assert(rest[k - 1] == rings[k]);
        let next = if pending.len() == 0 || is_exterior(rings[0]) {
            seq![rings[0]]
        } else {
            pending.push(rings[0])
        };
        lemma_assemble_split(next, rest, k - 1);
        if pending.len() > 0 && is_exterior(rings[0]) {
            assert(seq![polygon_of(pending)] + (assemble(next, rest.take(k - 1)) + polygons(
                rings.skip(k),
            )) =~= (seq![polygon_of(pending)] + assemble(next, rest.take(k - 1))) + polygons(
                rings.skip(k),
            ));
        }
    }
}

/// The parts of a polygon feature are the polygons that its closed rings
/// make.
proof fn lemma_parts_are_polygons(data: Seq<u32>, m: Machine)
    requires
        m.state is Finished ==> m.pending.len() == 0,
    ensures
        all_parts(data, GeomType::Polygon, m) == match closed_rings(data, GeomType::Polygon, m) {
            Some(rings) => Some(assemble(m.pending, rings)),
            None => None,
        },
    decreases remaining(data, m), rank(m.state),
{
    let kind = GeomType::Polygon;
    lemma_step_progress(data, kind, m);
    match step(data, kind, m) {
        Step::Continue(n) => {
            lemma_parts_are_polygons(data, n);
            match closed_rings(data, kind, n) {
                Some(rest) => {
                    if closes(data, m) {
                        let rings = seq![m.current] + rest;
                        assert(rings[0] == m.current);
                        assert(rings.subrange(1, rings.len() as int) =~= rest);
                    }
                },
                None => {},
            }
        },
        Step::Yield(n, part) => {
            lemma_parts_are_polygons(data, n);
            match closed_rings(data, kind, n) {
                Some(rest) => {
                    if closes(data, m) {
                        let rings = seq![m.current] + rest;
                        assert(rings[0] == m.current);
                        assert(rings.subrange(1, rings.len() as int) =~= rest);
                    } else {
                        assert(rest.len() == 0);
                        assert(n.pending.len() == 0);
                    }
                },
                None => {},
            }
        },
        Step::Fail(_) => {},
        Step::Done(_) => {},
    }
}

/// The parts of a polygon feature are the polygons that its closed rings
/// make: decoding fails exactly when reading the rings fails, and else yields
/// the grouping of the rings.
pub proof fn lemma_decode_groups_rings(data: Seq<u32>)
    ensures
        decode(data, GeomType::Polygon) == match rings_of(data, GeomType::Polygon) {
            Some(rings) => Some(polygons(rings)),
            None => None,
        },
{
    lemma_parts_are_polygons(data, initial());
}

/// A polygon feature whose rings after the first have no positive area yields
/// exactly one polygon: the first ring is its exterior, whatever its area, and
/// the other rings are its holes, in their order.
pub proof fn lemma_one_exterior_one_polygon(data: Seq<u32>, rings: Seq<Seq<Coord>>)
    requires
        rings_of(data, GeomType::Polygon) == Some(rings),
        rings.len() >= 1,
        forall|i: int| 1 <= i < rings.len() ==> !is_exterior(#[trigger] rings[i]),
    ensures
        decode(data, GeomType::Polygon) == Some(
            seq![
                Part::Polygon { exterior: rings[0], holes: rings.subrange(1, rings.len() as int) },
            ],
        ),
{
    lemma_decode_groups_rings(data);
    let rest = rings.subrange(1, rings.len() as int);
    assert forall|i: int| 0 <= i < rest.len() implies !is_exterior(#[trigger] rest[i]) by {
        assert(rest[i] == rings[i + 1]);
    }
    lemma_assemble_holes(seq![rings[0]], rest);
    assert(seq![rings[0]] + rest =~= rings);
}

/// A later ring of positive area completes the polygon before it: the parts
/// of the feature are the polygons of the rings before that ring, then the
/// polygons of the rings from that ring on.
pub proof fn lemma_exterior_starts_polygon(data: Seq<u32>, rings: Seq<Seq<Coord>>, k: int)
    requires
        rings_of(data, GeomType::Polygon) == Some(rings),
        0 < k < rings.len(),
        is_exterior(rings[k]),
    ensures
        decode(data, GeomType::Polygon) == Some(polygons(rings.take(k)) + polygons(rings.skip(k))),
        polygons(rings.take(k)).len() >= 1,
        polygons(rings.skip(k)).len() >= 1,
{
    lemma_decode_groups_rings(data);
    lemma_assemble_split(Seq::empty(), rings, k);
    lemma_polygons_not_empty(Seq::empty(), rings.take(k));
    lemma_polygons_not_empty(Seq::empty(), rings.skip(k));
}

/// Rings, pending or to come, make at least one polygon.
proof fn lemma_polygons_not_empty(pending: Seq<Seq<Coord>>, rings: Seq<Seq<Coord>>)
    requires
        pending.len() + rings.len() > 0,
    ensures
        assemble(pending, rings).len() >= 1,
    decreases rings.len(),
{
    if rings.len() > 0 {
        let rest = rings.subrange(1, rings.len() as int);
        if pending.len() == 0 || is_exterior(rings[0]) {
            lemma_polygons_not_empty(seq![rings[0]], rest);
        } else {
            lemma_polygons_not_empty(pending.push(rings[0]), rest);
        }
    }
}

} // verus!
