//! The signed area of a ring, kept doubled so that it stays an integer.
//!
//! The area is accumulated edge by edge while a ring is read; the edge that
//! closes the ring is added only when the area is asked for. The closed sum is
//! proved equal to the shoelace formula over the whole ring.

use vstd::prelude::*;

verus! {

/// A raw coordinate: the cursor after one pair of parameters.
pub type Coord = (i32, i32);

/// The largest magnitude of one cross term.
pub const CROSS_MAX: i128 = 0x7fff_ffff_8000_0000;

/// The cross term of the edge from `p` to `q`.
pub open spec fn cross(p: Coord, q: Coord) -> int {
    p.0 * q.1 - q.0 * p.1
}

/// The sum of the cross terms along the open path through `points`.
pub open spec fn path_sum(points: Seq<Coord>) -> int
    decreases points.len(),
{
    if points.len() < 2 {
        0
    } else {
        path_sum(points.drop_last()) + cross(points[points.len() - 2], points.last())
    }
}

/// Twice the signed area of the ring through `points`: the open path sum and
/// the cross term of the edge from the last point back to the first. A ring of
/// fewer than two points has no area.
pub open spec fn closed_area_doubled(points: Seq<Coord>) -> int {
    if points.len() >= 2 {
        path_sum(points) + cross(points.last(), points[0])
    } else {
        0
    }
}

/// Whether a ring winds in the direction of an exterior ring: its signed area
/// is strictly positive.
pub open spec fn is_exterior(points: Seq<Coord>) -> bool {
    closed_area_doubled(points) > 0
}

/// The term of the shoelace formula for the edge that ends at point `i`; the
/// edge to the first point starts at the last.
pub open spec fn shoelace_term(points: Seq<Coord>, i: int) -> int {
    let previous = if i == 0 {
        points.last()
    } else {
        points[i - 1]
    };
    (points[i].1 - previous.1) * (points[i].0 + previous.0)
}

/// The sum of the first `n` terms of the shoelace formula.
pub open spec fn shoelace_prefix(points: Seq<Coord>, n: nat) -> int
    decreases n,
{
    if n == 0 {
        0
    } else {
        shoelace_prefix(points, (n - 1) as nat) + shoelace_term(points, n - 1)
    }
}

/// The shoelace formula over the closed ring through `points`, doubled: the sum
/// over every edge, the closing one included, of the difference of the `y`
/// times the sum of the `x` of its two ends.
pub open spec fn shoelace_doubled(points: Seq<Coord>) -> int {
    shoelace_prefix(points, points.len())
}

/// One cross term never exceeds `CROSS_MAX` in magnitude.
pub proof fn lemma_cross_bound(p: Coord, q: Coord)
    ensures
        -CROSS_MAX <= cross(p, q) <= CROSS_MAX,
{
    let a = p.0 as int;
    let b = q.1 as int;
    let c = q.0 as int;
    let d = p.1 as int;
    assert(-0x3fff_ffff_8000_0000 <= a * b <= 0x4000_0000_0000_0000) by (nonlinear_arith)
        requires
            -0x8000_0000 <= a <= 0x7fff_ffff,
            -0x8000_0000 <= b <= 0x7fff_ffff,
    ;
    assert(-0x3fff_ffff_8000_0000 <= c * d <= 0x4000_0000_0000_0000) by (nonlinear_arith)
        requires
            -0x8000_0000 <= c <= 0x7fff_ffff,
            -0x8000_0000 <= d <= 0x7fff_ffff,
    ;
}

/// Computes the cross term of the edge from `p` to `q`.
pub fn cross_term(p: Coord, q: Coord) -> (term: i128)
    ensures
        term == cross(p, q),
        -CROSS_MAX <= term <= CROSS_MAX,
{
    let a: i128 = p.0 as i128;
    let b: i128 = q.1 as i128;
    let c: i128 = q.0 as i128;
    let d: i128 = p.1 as i128;
    proof {
        lemma_cross_bound(p, q);
        assert(-0x3fff_ffff_8000_0000 <= a * b <= 0x4000_0000_0000_0000) by (nonlinear_arith)
            requires
                -0x8000_0000 <= a <= 0x7fff_ffff,
                -0x8000_0000 <= b <= 0x7fff_ffff,
        ;
        assert(-0x3fff_ffff_8000_0000 <= c * d <= 0x4000_0000_0000_0000) by (nonlinear_arith)
            requires
                -0x8000_0000 <= c <= 0x7fff_ffff,
                -0x8000_0000 <= d <= 0x7fff_ffff,
        ;
    }
    a * b - c * d
}

/// The open path sum grows by at most `CROSS_MAX` with each edge.
pub proof fn lemma_path_sum_bound(points: Seq<Coord>)
    ensures
        -CROSS_MAX * points.len() <= path_sum(points) <= CROSS_MAX * points.len(),
        points.len() >= 1 ==> -CROSS_MAX * (points.len() - 1) <= path_sum(points) <= CROSS_MAX * (
        points.len() - 1),
    decreases points.len(),
{
    if points.len() >= 2 {
        lemma_path_sum_bound(points.drop_last());
        lemma_cross_bound(points[points.len() - 2], points.last());
    }
}

/// The open path sum after one more point.
pub proof fn lemma_path_sum_push(points: Seq<Coord>, point: Coord)
    ensures
        path_sum(points.push(point)) == if points.len() == 0 {
            0
        } else {
            path_sum(points) + cross(points.last(), point)
        },
{
    let longer = points.push(point);
    assert(longer.drop_last() =~= points);
}

/// The first `n` terms of the shoelace formula, telescoped: the open path sum
/// over the first `n` points, the closing cross term, and what is left of the
/// products that cancel.
proof fn lemma_shoelace_prefix(points: Seq<Coord>, n: nat)
    requires
        1 <= n <= points.len(),
    ensures
        shoelace_prefix(points, n) == path_sum(points.take(n as int)) + cross(
            points.last(),
            points[0],
        ) + points[n - 1].0 * points[n - 1].1 - points.last().0 * points.last().1,
    decreases n,
{
    let first = points[0];
    let last = points.last();
    if n == 1 {
        assert(shoelace_prefix(points, 0) == 0);
        assert(shoelace_prefix(points, 1) == shoelace_term(points, 0));
        assert(path_sum(points.take(1)) == 0);
        assert((first.1 - last.1) * (first.0 + last.0) == last.0 * first.1 - first.0 * last.1
            + first.0 * first.1 - last.0 * last.1) by (nonlinear_arith);
    } else {
        lemma_shoelace_prefix(points, (n - 1) as nat);
        let p = points[n - 2];
        let q = points[n - 1];
        let head = points.take(n as int);
        assert(head.drop_last() =~= points.take(n - 1));
        assert(head[head.len() - 2] == p && head.last() == q);
        assert(path_sum(head) == path_sum(points.take(n - 1)) + cross(p, q));
        assert(shoelace_term(points, n - 1) == (q.1 - p.1) * (q.0 + p.0));
        assert((q.1 - p.1) * (q.0 + p.0) == p.0 * q.1 - q.0 * p.1 + q.0 * q.1 - p.0 * p.1)
            by (nonlinear_arith);
    }
}

/// The accumulated area of a closed ring is the shoelace formula over the
/// ring, so both give the same winding direction.
pub proof fn lemma_closed_area_is_shoelace(points: Seq<Coord>)
    ensures
        closed_area_doubled(points) == shoelace_doubled(points),
        is_exterior(points) <==> shoelace_doubled(points) > 0,
{
    if points.len() == 0 {
    } else {
        lemma_shoelace_prefix(points, points.len());
        assert(points.take(points.len() as int) =~= points);
        if points.len() == 1 {
            assert(path_sum(points) == 0);
            assert(cross(points[0], points[0]) == 0) by (nonlinear_arith);
        }
    }
}

/// Computes the shoelace formula over the closed ring through `points`,
/// doubled.
pub fn shoelace_formula(points: &[Coord]) -> (area: i128)
    ensures
        area == shoelace_doubled(points@),
{
    let n = points.len();
    if n == 0 {
        return 0;
    }
    let mut area: i128 = 0;
    let mut previous: Coord = points[n - 1];
    let mut i: usize = 0;
    while i < n
        invariant
            n == points.len(),
            n > 0,
            i <= n,
            area == shoelace_prefix(points@, i as nat),
            previous == if i == 0 {
                points@.last()
            } else {
                points@[i - 1]
            },
        decreases n - i,
    {
        let current: Coord = points[i];
        let rise: i128 = current.1 as i128 - previous.1 as i128;
        let run: i128 = current.0 as i128 + previous.0 as i128;
        proof {
            let ghost next = (i + 1) as nat;
            lemma_shoelace_prefix(points@, next);
            lemma_path_sum_bound(points@.take(next as int));
            lemma_cross_bound(points@.last(), points@[0]);
            lemma_cross_bound((current.0, 0i32), (0i32, current.1));
            lemma_cross_bound((points@.last().0, 0i32), (0i32, points@.last().1));
            assert(shoelace_prefix(points@, next) == area + shoelace_term(points@, i as int));
            assert(shoelace_term(points@, i as int) == rise * run);
            assert(CROSS_MAX * (next - 1) <= CROSS_MAX * (usize::MAX - 1)) by (nonlinear_arith)
                requires
                    next <= usize::MAX,
            ;
            assert(-0x1_0000_0000_0000_0000 <= rise * run <= 0x1_0000_0000_0000_0000)
                by (nonlinear_arith)
                requires
                    -0x1_0000_0000 <= rise <= 0x1_0000_0000,
                    -0x1_0000_0000 <= run <= 0x1_0000_0000,
            ;
        }
        area = area + rise * run;
        previous = current;
        i += 1;
    }
    area
}

} // verus!
