//! The geometry command decoder as a state machine over plain values.
//!
//! A machine reads the command stream of one feature. Each step reads at most
//! one integer of the stream and either goes on, yields a geometry part,
//! fails, or is done. The executable decoder is specified against this
//! machine; the coordinates here are raw cursor positions.

use crate::area::{is_exterior, Coord};
use crate::cursor::{
    advance, command_id, cursor_after, lemma_cursor_after_push, parameter_count, CLOSE_PATH,
    LINE_TO, MOVE_TO,
};
use crate::tile::GeomType;
use vstd::prelude::*;

verus! {

/// Where the decoder stands in the command stream.
#[derive(Debug, Copy, Clone, PartialEq, Eq, Structural)]
pub enum ParserState {
    /// Nothing was read yet.
    Initial,
    /// The next integer is a command.
    ReadingCommand,
    /// The next `count` integers are parameters of the command `command_id`.
    ReadingParameters { count: u32, command_id: u8 },
    /// The stream is exhausted and the trailing part was yielded.
    Finished,
}

/// The state of a decoder.
pub struct Machine {
    /// The number of integers of the stream that were read.
    pub position: nat,
    /// The cursor.
    pub cursor: Coord,
    /// The coordinates of the line or ring that is being read.
    pub current: Seq<Coord>,
    /// The closed rings of the polygon that is being read: its exterior ring,
    /// then its holes.
    pub pending: Seq<Seq<Coord>>,
    /// Where the decoder stands.
    pub state: ParserState,
}

/// One part of a geometry, over raw coordinates.
pub enum Part {
    Point(Coord),
    LineString(Seq<Coord>),
    Polygon { exterior: Seq<Coord>, holes: Seq<Seq<Coord>> },
}

/// The result of one step of the machine.
pub enum Step {
    /// The machine goes on.
    Continue(Machine),
    /// The machine yields a part.
    Yield(Machine, Part),
    /// The stream is malformed at this point.
    Fail(Machine),
    /// The machine has finished and yields nothing more.
    Done(Machine),
}

/// What one request for the next part yields.
pub enum Item {
    /// The geometry has no more parts.
    End,
    /// The next part.
    Part(Part),
    /// The stream is malformed.
    Failure,
}

/// The machine after one request for the next part, and what the request
/// yields.
pub struct Outcome {
    pub machine: Machine,
    pub item: Item,
}

/// The machine before anything was read.
pub open spec fn initial() -> Machine {
    Machine {
        position: 0,
        cursor: (0i32, 0i32),
        current: Seq::empty(),
        pending: Seq::empty(),
        state: ParserState::Initial,
    }
}

/// The polygon that a set of pending rings makes: the first ring is the
/// exterior, the others are its holes, in their order.
pub open spec fn polygon_of(rings: Seq<Seq<Coord>>) -> Part {
    Part::Polygon { exterior: rings[0], holes: rings.subrange(1, rings.len() as int) }
}

/// The end of the stream: a line string yields the line that is being read,
/// if it has a coordinate; a polygon yields its pending rings, if there are
/// any; a point has nothing pending.
pub open spec fn finish(kind: GeomType, m: Machine) -> Step {
    let done = Machine { state: ParserState::Finished, ..m };
    match kind {
        GeomType::Linestring => if m.current.len() > 0 {
            Step::Yield(Machine { current: Seq::empty(), ..done }, Part::LineString(m.current))
        } else {
            Step::Done(done)
        },
        GeomType::Polygon => if m.pending.len() > 0 {
            Step::Yield(Machine { pending: Seq::empty(), ..done }, polygon_of(m.pending))
        } else {
            Step::Done(done)
        },
        _ => Step::Done(done),
    }
}

/// A `ClosePath` on a ring with at least one coordinate. The first ring of a
/// polygon is its exterior whatever its area. A later ring of positive area
/// starts a new polygon, and the pending rings are yielded as a polygon (for
/// a kind other than polygon they are dropped); a later ring of zero or
/// negative area is one more hole.
pub open spec fn close_ring(kind: GeomType, m: Machine) -> Step {
    let ring = m.current;
    let cleared = Machine { current: Seq::empty(), state: ParserState::ReadingCommand, ..m };
    if m.pending.len() == 0 {
        Step::Continue(Machine { pending: seq![ring], ..cleared })
    } else if is_exterior(ring) {
        let restarted = Machine { pending: seq![ring], ..cleared };
        if kind == GeomType::Polygon {
            Step::Yield(restarted, polygon_of(m.pending))
        } else {
            Step::Continue(restarted)
        }
    } else {
        Step::Continue(Machine { pending: m.pending.push(ring), ..cleared })
    }
}

/// Reading the command integer `command`.
pub open spec fn read_command(kind: GeomType, command: u32, m: Machine) -> Step {
    let id = command_id(command);
    let count = parameter_count(command);
    let after = Machine { position: m.position + 1, ..m };
    let reading = Machine {
        state: ParserState::ReadingParameters { count, command_id: id },
        ..after
    };
    if id == MOVE_TO {
        if kind == GeomType::Linestring && m.current.len() > 0 {
            Step::Yield(Machine { current: Seq::empty(), ..reading }, Part::LineString(m.current))
        } else {
            Step::Continue(reading)
        }
    } else if id == LINE_TO {
        Step::Continue(reading)
    } else if id == CLOSE_PATH {
        if m.current.len() == 0 {
            Step::Fail(after)
        } else {
            close_ring(kind, after)
        }
    } else {
        Step::Continue(Machine { state: ParserState::ReadingCommand, ..after })
    }
}

/// Reading the parameter integer `raw` when `count` parameters of the command
/// `id` are still to come. With an even `count` it moves the `x` of the
/// cursor, with an odd one the `y`, which completes a coordinate: a point of
/// a `MoveTo` is yielded at once, any other coordinate joins the line or ring
/// that is being read.
pub open spec fn read_parameter(kind: GeomType, raw: u32, count: u32, id: u8, m: Machine) -> Step {
    let after = Machine { position: m.position + 1, ..m };
    let left = (count - 1) as u32;
    let reading = ParserState::ReadingParameters { count: left, command_id: id };
    if count % 2 == 0 {
        Step::Continue(
            Machine { cursor: (advance(m.cursor.0, raw), m.cursor.1), state: reading, ..after },
        )
    } else {
        let point = (m.cursor.0, advance(m.cursor.1, raw));
        if kind == GeomType::Point && id == MOVE_TO {
            let state = if left > 0 {
                reading
            } else {
                ParserState::ReadingCommand
            };
            Step::Yield(Machine { cursor: point, state, ..after }, Part::Point(point))
        } else {
            Step::Continue(
                Machine { cursor: point, current: m.current.push(point), state: reading, ..after },
            )
        }
    }
}

/// One step of the machine on the stream `data`.
pub open spec fn step(data: Seq<u32>, kind: GeomType, m: Machine) -> Step {
    match m.state {
        ParserState::Initial => Step::Continue(Machine { state: ParserState::ReadingCommand, ..m }),
        ParserState::ReadingCommand => if m.position >= data.len() {
            finish(kind, m)
        } else {
            read_command(kind, data[m.position as int], m)
        },
        ParserState::ReadingParameters { count, command_id } => if count > 0 && m.position
            < data.len() {
            read_parameter(kind, data[m.position as int], count, command_id, m)
        } else {
            Step::Continue(Machine { state: ParserState::ReadingCommand, ..m })
        },
        ParserState::Finished => Step::Done(m),
    }
}

/// The number of integers of the stream that are still to be read.
pub open spec fn remaining(data: Seq<u32>, m: Machine) -> nat {
    if m.position <= data.len() {
        (data.len() - m.position) as nat
    } else {
        0
    }
}

/// The rank of a state: a step that reads nothing lowers it.
pub open spec fn rank(state: ParserState) -> nat {
    match state {
        ParserState::Initial => 3,
        ParserState::ReadingParameters { .. } => 2,
        ParserState::ReadingCommand => 1,
        ParserState::Finished => 0,
    }
}

/// The machine after a step.
pub open spec fn after(s: Step) -> Machine {
    match s {
        Step::Continue(m) => m,
        Step::Yield(m, _) => m,
        Step::Fail(m) => m,
        Step::Done(m) => m,
    }
}

/// Whether the machine `n` is nearer to the end of the stream than `m`.
pub open spec fn nearer(data: Seq<u32>, n: Machine, m: Machine) -> bool {
    remaining(data, n) < remaining(data, m) || (remaining(data, n) == remaining(data, m) && rank(
        n.state,
    ) < rank(m.state))
}

/// A step that goes on or yields a part brings the machine nearer to the end
/// of the stream.
pub proof fn lemma_step_progress(data: Seq<u32>, kind: GeomType, m: Machine)
    ensures
        step(data, kind, m) is Continue || step(data, kind, m) is Yield ==> nearer(
            data,
            after(step(data, kind, m)),
            m,
        ),
{
}

/// The next part of a geometry of kind `kind`: the machine steps until it
/// yields a part, fails or is done. A geometry of unknown kind fails at once
/// and reads nothing.
pub open spec fn next_part(data: Seq<u32>, kind: GeomType, m: Machine) -> Outcome
    decreases remaining(data, m), rank(m.state),
{
    if kind == GeomType::Unknown {
        Outcome { machine: m, item: Item::Failure }
    } else {
        match step(data, kind, m) {
            Step::Continue(n) => {
                proof {
                    lemma_step_progress(data, kind, m);
                }
                next_part(data, kind, n)
            },
            Step::Yield(n, part) => Outcome { machine: n, item: Item::Part(part) },
            Step::Fail(n) => Outcome { machine: n, item: Item::Failure },
            Step::Done(n) => Outcome { machine: n, item: Item::End },
        }
    }
}

/// All the parts of a geometry from the machine `m` on, or `None` if the
/// machine fails before the end.
pub open spec fn all_parts(data: Seq<u32>, kind: GeomType, m: Machine) -> Option<Seq<Part>>
    decreases remaining(data, m), rank(m.state),
{
    if kind == GeomType::Unknown {
        None
    } else {
        match step(data, kind, m) {
            Step::Continue(n) => {
                proof {
                    lemma_step_progress(data, kind, m);
                }
                all_parts(data, kind, n)
            },
            Step::Yield(n, part) => {
                proof {
                    lemma_step_progress(data, kind, m);
                }
                match all_parts(data, kind, n) {
                    Some(rest) => Some(seq![part] + rest),
                    None => None,
                }
            },
            Step::Fail(_) => None,
            Step::Done(_) => Some(Seq::empty()),
        }
    }
}

/// The parts of the geometry that the stream `data` encodes, or `None` if the
/// stream is malformed.
pub open spec fn decode(data: Seq<u32>, kind: GeomType) -> Option<Seq<Part>> {
    all_parts(data, kind, initial())
}

/// A request that yields a part leaves the machine nearer to the end of the
/// stream, so a geometry has finitely many parts.
pub proof fn lemma_next_part_progress(data: Seq<u32>, kind: GeomType, m: Machine)
    ensures
        next_part(data, kind, m).item is Part ==> nearer(
            data,
            next_part(data, kind, m).machine,
            m,
        ),
    decreases remaining(data, m), rank(m.state),
{
    if kind != GeomType::Unknown {
        lemma_step_progress(data, kind, m);
        match step(data, kind, m) {
            Step::Continue(n) => {
                lemma_next_part_progress(data, kind, n);
            },
            _ => {},
        }
    }
}

/// All the parts of a geometry are its next part and then all the parts from
/// the machine that the request leaves.
pub proof fn lemma_all_parts_unfold(data: Seq<u32>, kind: GeomType, m: Machine)
    ensures
        all_parts(data, kind, m) == match next_part(data, kind, m).item {
            Item::End => Some(Seq::empty()),
            Item::Failure => None,
            Item::Part(part) => match all_parts(data, kind, next_part(data, kind, m).machine) {
                Some(rest) => Some(seq![part] + rest),
                None => None,
            },
        },
    decreases remaining(data, m), rank(m.state),
{
    if kind != GeomType::Unknown {
        lemma_step_progress(data, kind, m);
        match step(data, kind, m) {
            Step::Continue(n) => {
                lemma_all_parts_unfold(data, kind, n);
            },
            _ => {},
        }
    }
}

/// Whether a part is of the shape that a geometry of kind `kind` has.
pub open spec fn part_of_kind(part: Part, kind: GeomType) -> bool {
    match part {
        Part::Point(_) => kind == GeomType::Point,
        Part::LineString(_) => kind == GeomType::Linestring,
        Part::Polygon { .. } => kind == GeomType::Polygon,
    }
}

/// A geometry yields only parts of its own kind: points for a point, line
/// strings for a line string, polygons for a polygon.
pub proof fn lemma_next_part_kind(data: Seq<u32>, kind: GeomType, m: Machine)
    ensures
        next_part(data, kind, m).item matches Item::Part(part) ==> part_of_kind(part, kind),
    decreases remaining(data, m), rank(m.state),
{
    if kind != GeomType::Unknown {
        lemma_step_progress(data, kind, m);
        match step(data, kind, m) {
            Step::Continue(n) => {
                lemma_next_part_kind(data, kind, n);
            },
            _ => {},
        }
    }
}

/// Whether the next integer that the machine reads is a command.
pub open spec fn reads_command(m: Machine) -> bool {
    match m.state {
        ParserState::Initial => true,
        ParserState::ReadingCommand => true,
        ParserState::ReadingParameters { count, .. } => count == 0,
        ParserState::Finished => false,
    }
}

/// A `ClosePath` before any coordinate of its ring is a failure: the request
/// for the next part fails, and so does the geometry as a whole.
pub proof fn lemma_close_path_without_coordinates(data: Seq<u32>, kind: GeomType, m: Machine)
    requires
        reads_command(m),
        m.position < data.len(),
        command_id(data[m.position as int]) == CLOSE_PATH,
        m.current.len() == 0,
    ensures
        next_part(data, kind, m).item is Failure,
        all_parts(data, kind, m) is None,
    decreases rank(m.state),
{
    if kind != GeomType::Unknown {
        match step(data, kind, m) {
            Step::Continue(n) => {
                lemma_step_progress(data, kind, m);
                lemma_close_path_without_coordinates(data, kind, n);
            },
            _ => {},
        }
    }
}

/// The machine after `k` steps.
pub open spec fn after_steps(data: Seq<u32>, kind: GeomType, m: Machine, k: nat) -> Machine
    decreases k,
{
    if k == 0 {
        m
    } else {
        after(step(data, kind, after_steps(data, kind, m, (k - 1) as nat)))
    }
}

/// Every other integer of `params`, from the first on: the parameters that
/// move the `x` of the cursor.
pub open spec fn x_parameters(params: Seq<u32>) -> Seq<u32> {
    Seq::new(((params.len() + 1) / 2) as nat, |i: int| params[2 * i])
}

/// Every other integer of `params`, from the second on: the parameters that
/// move the `y` of the cursor.
pub open spec fn y_parameters(params: Seq<u32>) -> Seq<u32> {
    Seq::new(params.len() / 2, |i: int| params[2 * i + 1])
}

/// One more parameter is one more `x` after an even number of parameters and
/// one more `y` after an odd number.
proof fn lemma_parameters_push(params: Seq<u32>, raw: u32)
    ensures
        params.len() % 2 == 0 ==> x_parameters(params.push(raw)) == x_parameters(params).push(raw)
            && y_parameters(params.push(raw)) == y_parameters(params),
        params.len() % 2 == 1 ==> x_parameters(params.push(raw)) == x_parameters(params)
            && y_parameters(params.push(raw)) == y_parameters(params).push(raw),
{
    let more = params.push(raw);
    if params.len() % 2 == 0 {
        assert(x_parameters(more) =~= x_parameters(params).push(raw));
        assert(y_parameters(more) =~= y_parameters(params));
    } else {
        assert(x_parameters(more) =~= x_parameters(params));
        assert(y_parameters(more) =~= y_parameters(params).push(raw));
    }
}

/// Reading one parameter moves one component of the cursor: the `x` when an
/// even number of parameters is still to come, else the `y`.
proof fn lemma_parameter_step(data: Seq<u32>, kind: GeomType, m: Machine)
    requires
        m.state is ReadingParameters,
        m.state->count > 0,
        m.position < data.len(),
    ensures
        ({
            let n = after(step(data, kind, m));
            let raw = data[m.position as int];
            &&& n.position == m.position + 1
            &&& m.state->count % 2 == 0 ==> n.cursor == (advance(m.cursor.0, raw), m.cursor.1)
            &&& m.state->count % 2 == 1 ==> n.cursor == (m.cursor.0, advance(m.cursor.1, raw))
            &&& m.state->count > 1 ==> n.state == (ParserState::ReadingParameters {
                count: (m.state->count - 1) as u32,
                command_id: m.state->command_id,
            })
        }),
{
}

/// The parameters of a command move the cursor one after the other: after
/// `k` of them, each component of the cursor is where its own parameters,
/// applied with saturation, have brought it.
pub proof fn lemma_parameters_move_cursor(data: Seq<u32>, kind: GeomType, m: Machine, k: nat)
    requires
        m.state is ReadingParameters,
        m.state->count % 2 == 0,
        k <= m.state->count,
        m.position + k <= data.len(),
    ensures
        ({
            let n = after_steps(data, kind, m, k);
            let params = data.subrange(m.position as int, (m.position + k) as int);
            &&& n.position == m.position + k
            &&& n.cursor.0 == cursor_after(m.cursor.0, x_parameters(params))
            &&& n.cursor.1 == cursor_after(m.cursor.1, y_parameters(params))
            &&& k < m.state->count ==> n.state == (ParserState::ReadingParameters {
                count: (m.state->count - k) as u32,
                command_id: m.state->command_id,
            })
        }),
    decreases k,
{
    let params = data.subrange(m.position as int, (m.position + k) as int);
    if k == 0 {
        assert(x_parameters(params) =~= Seq::<u32>::empty());
        assert(y_parameters(params) =~= Seq::<u32>::empty());
    } else {
        let j = (k - 1) as nat;
        let before = data.subrange(m.position as int, (m.position + j) as int);
        let raw = data[(m.position + j) as int];
        let previous = after_steps(data, kind, m, j);
        let n = after_steps(data, kind, m, k);
        lemma_parameters_move_cursor(data, kind, m, j);
        lemma_parameter_step(data, kind, previous);
        lemma_parameters_push(before, raw);
        assert(params == before.push(raw)) by {
            assert(params =~= before.push(raw));
        }
        assert(n == after(step(data, kind, previous)));
        assert(previous.state->count % 2 == 0 <==> j % 2 == 0);
        lemma_cursor_after_push(m.cursor.0, x_parameters(before), raw);
        lemma_cursor_after_push(m.cursor.1, y_parameters(before), raw);
    }
}

} // verus!
