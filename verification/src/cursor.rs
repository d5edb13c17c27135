//! Command integers, zigzag deltas and the saturating cursor.

use vstd::prelude::*;

verus! {

/// The command that moves to a new position.
pub const MOVE_TO: u8 = 1;

/// The command that draws lines to new positions.
pub const LINE_TO: u8 = 2;

/// The command that closes the current ring.
pub const CLOSE_PATH: u8 = 7;

/// The signed delta that a zigzag-encoded parameter integer stands for:
/// `(raw >> 1) ^ -(raw & 1)`, that is `raw / 2` for an even `raw` and
/// `-(raw / 2) - 1` for an odd one.
pub open spec fn zigzag(raw: u32) -> int {
    if raw % 2 == 0 {
        (raw / 2) as int
    } else {
        -((raw / 2) as int) - 1
    }
}

/// Decodes one zigzag-encoded parameter integer.
pub fn zigzag_decode(raw: u32) -> (delta: i32)
    ensures
        delta as int == zigzag(raw),
{
    let half: u32 = raw >> 1;
    let low: u32 = raw & 1;
    assert(half == raw / 2 && low == raw % 2 && half <= 0x7fff_ffff) by (bit_vector)
        requires
            half == raw >> 1,
            low == raw & 1,
    ;
    if low == 0 {
        half as i32
    } else {
        -(half as i32) - 1
    }
}

/// The identifier of a command integer: its three low bits.
pub open spec fn command_id(command: u32) -> u8 {
    (command % 8) as u8
}

/// The number of parameter integers that follow a command integer: two for
/// each repetition that its upper bits count.
pub open spec fn parameter_count(command: u32) -> u32 {
    ((command / 8) * 2) as u32
}

/// Splits a command integer into its identifier and the number of parameter
/// integers that it announces.
pub fn decode_command(command: u32) -> (decoded: (u8, u32))
    ensures
        decoded.0 == command_id(command),
        decoded.1 == parameter_count(command),
        decoded.1 % 2 == 0,
{
    let low: u32 = command & 0x7;
    let repeat: u32 = command >> 3;
    assert(low == command % 8 && repeat == command / 8 && repeat <= 0x1fff_ffff && low < 8)
        by (bit_vector)
        requires
            low == command & 0x7,
            repeat == command >> 3,
    ;
    (low as u8, repeat * 2)
}

/// The nearest value to `value` that a cursor component can hold.
pub open spec fn saturate(value: int) -> int {
    if value > i32::MAX {
        i32::MAX as int
    } else if value < i32::MIN {
        i32::MIN as int
    } else {
        value
    }
}

/// Adds a delta to a cursor component; a sum out of range is pinned at the
/// bound that it passed.
pub fn saturating_add(component: i32, delta: i32) -> (moved: i32)
    ensures
        moved as int == saturate(component + delta),
        component + delta > i32::MAX ==> moved == i32::MAX,
        i32::MIN <= component + delta <= i32::MAX ==> moved == component + delta,
{
    let sum: i64 = component as i64 + delta as i64;
    if sum > i32::MAX as i64 {
        i32::MAX
    } else if sum < i32::MIN as i64 {
        i32::MIN
    } else {
        sum as i32
    }
}

/// The cursor component after one parameter integer.
pub open spec fn advance(component: i32, raw: u32) -> i32 {
    saturate(component + zigzag(raw)) as i32
}

/// Moves a cursor component by one zigzag-encoded parameter integer.
pub fn advance_cursor(component: i32, raw: u32) -> (moved: i32)
    ensures
        moved == advance(component, raw),
{
    saturating_add(component, zigzag_decode(raw))
}

/// The exact sum of the deltas that a sequence of parameter integers encodes.
pub open spec fn delta_sum(deltas: Seq<u32>) -> int
    decreases deltas.len(),
{
    if deltas.len() == 0 {
        0
    } else {
        delta_sum(deltas.drop_last()) + zigzag(deltas.last())
    }
}

/// The cursor component after a sequence of parameter integers, each applied
/// with saturation.
pub open spec fn cursor_after(start: i32, deltas: Seq<u32>) -> i32
    decreases deltas.len(),
{
    if deltas.len() == 0 {
        start
    } else {
        advance(cursor_after(start, deltas.drop_last()), deltas.last())
    }
}

/// The cursor component after one more parameter integer.
pub proof fn lemma_cursor_after_push(start: i32, deltas: Seq<u32>, raw: u32)
    ensures
        cursor_after(start, deltas.push(raw)) == advance(cursor_after(start, deltas), raw),
{
    assert(deltas.push(raw).drop_last() =~= deltas);
}

/// Whether the exact sum of the first `k` deltas, added to `start`, fits a
/// cursor component.
pub open spec fn prefix_in_range(start: i32, deltas: Seq<u32>, k: int) -> bool {
    i32::MIN <= start + delta_sum(deltas.take(k)) <= i32::MAX
}

/// As long as no partial sum leaves the range of a cursor component, the
/// cursor is the exact sum of the start and the deltas.
pub proof fn lemma_cursor_is_exact_sum(start: i32, deltas: Seq<u32>)
    requires
        forall|k: int| 0 <= k <= deltas.len() ==> prefix_in_range(start, deltas, k),
    ensures
        cursor_after(start, deltas) == start + delta_sum(deltas),
    decreases deltas.len(),
{
    if deltas.len() > 0 {
        let front = deltas.drop_last();
        assert forall|k: int| 0 <= k <= front.len() implies prefix_in_range(start, front, k) by {
            assert(prefix_in_range(start, deltas, k));
            assert(front.take(k) =~= deltas.take(k));
        }
        lemma_cursor_is_exact_sum(start, front);
        assert(prefix_in_range(start, deltas, deltas.len() as int));
        assert(deltas.take(deltas.len() as int) =~= deltas);
    }
}

/// When the exact sum of the first `k` deltas is the first to pass the largest
/// value of a cursor component, the cursor is pinned at that value instead of
/// wrapping, and it stays there as long as no later delta is negative.
pub proof fn lemma_cursor_is_pinned(start: i32, deltas: Seq<u32>, k: int)
    requires
        0 < k <= deltas.len(),
        forall|j: int| 0 <= j < k ==> prefix_in_range(start, deltas, j),
        start + delta_sum(deltas.take(k)) > i32::MAX,
        forall|j: int| k <= j < deltas.len() ==> zigzag(#[trigger] deltas[j]) >= 0,
    ensures
        cursor_after(start, deltas) == i32::MAX,
    decreases deltas.len() - k,
{
    let front = deltas.drop_last();
    if k == deltas.len() {
        assert forall|j: int| 0 <= j <= front.len() implies prefix_in_range(start, front, j) by {
            assert(prefix_in_range(start, deltas, j));
            assert(front.take(j) =~= deltas.take(j));
        }
        lemma_cursor_is_exact_sum(start, front);
        assert(deltas.take(k) =~= deltas);
    } else {
        assert forall|j: int| 0 <= j < k implies prefix_in_range(start, front, j) by {
            assert(prefix_in_range(start, deltas, j));
            assert(front.take(j) =~= deltas.take(j));
        }
        assert(front.take(k) =~= deltas.take(k));
        assert forall|j: int| k <= j < front.len() implies zigzag(#[trigger] front[j]) >= 0 by {
            assert(front[j] == deltas[j]);
        }
        lemma_cursor_is_pinned(start, front, k);
        assert(zigzag(deltas[deltas.len() - 1]) >= 0);
    }
}

} // verus!
