//! The point sequences that the line and circle primitives visit.

use vstd::prelude::*;

verus! {

/// Absolute difference of two coordinates.
pub open spec fn span(a: int, b: int) -> int {
    if a < b {
        b - a
    } else {
        a - b
    }
}

/// The coordinate `k` steps from `a` in the direction of `b`.
pub open spec fn toward(a: int, b: int, k: int) -> int {
    if a < b {
        a + k
    } else {
        a - k
    }
}

/// Error accumulator of a line with extents `dx` and `dy` after `i` steps
/// along x and `j` steps along y. It starts at `dx - dy`, loses `dy` with
/// each x step and gains `dx` with each y step.
pub open spec fn line_error(i: int, j: int, dx: int, dy: int) -> int {
    (j + 1) * dx - (i + 1) * dy
}

/// Whether the line advances along x after `i` and `j` steps.
pub open spec fn advances_x(i: int, j: int, dx: int, dy: int) -> bool {
    2 * line_error(i, j, dx, dy) >= -dy
}

/// Whether the line advances along y after `i` and `j` steps.
pub open spec fn advances_y(i: int, j: int, dx: int, dy: int) -> bool {
    2 * line_error(i, j, dx, dy) <= dx
}

/// Steps along x after one more iteration.
pub open spec fn next_i(i: int, j: int, dx: int, dy: int) -> int {
    if advances_x(i, j, dx, dy) {
        i + 1
    } else {
        i
    }
}

/// Steps along y after one more iteration.
pub open spec fn next_j(i: int, j: int, dx: int, dy: int) -> int {
    if advances_y(i, j, dx, dy) {
        j + 1
    } else {
        j
    }
}

/// One iteration short of the end point moves towards it and never past it.
pub proof fn lemma_line_step(i: int, j: int, dx: int, dy: int)
    requires
        0 <= i <= dx,
        0 <= j <= dy,
        !(i == dx && j == dy),
    ensures
        i <= next_i(i, j, dx, dy) <= dx,
        j <= next_j(i, j, dx, dy) <= dy,
        next_i(i, j, dx, dy) + next_j(i, j, dx, dy) > i + j,
{
    let e = line_error(i, j, dx, dy);
    if i == dx {
        assert((j + 1) * dx <= dy * dx) by (nonlinear_arith)
            requires
                j + 1 <= dy,
                0 <= dx,
        ;
        assert((dx + 1) * dy == dy * dx + dy) by (nonlinear_arith);
        assert(e <= -dy);
    }
    if j == dy {
        assert((i + 1) * dy <= dx * dy) by (nonlinear_arith)
            requires
                i + 1 <= dx,
                0 <= dy,
        ;
        assert((dy + 1) * dx == dx * dy + dx) by (nonlinear_arith);
        assert(e >= dx);
    }
}

/// How the error accumulator moves with one step along either axis.
pub proof fn lemma_line_error_step(i: int, j: int, dx: int, dy: int)
    ensures
        line_error(i + 1, j, dx, dy) == line_error(i, j, dx, dy) - dy,
        line_error(i, j + 1, dx, dy) == line_error(i, j, dx, dy) + dx,
        line_error(i + 1, j + 1, dx, dy) == line_error(i, j, dx, dy) + dx - dy,
        line_error(0, 0, dx, dy) == dx - dy,
{
    assert((i + 2) * dy == (i + 1) * dy + dy) by (nonlinear_arith);
    assert((j + 2) * dx == (j + 1) * dx + dx) by (nonlinear_arith);
}

/// The step counts `(i, j)` that a line with extents `dx` and `dy` passes
/// through from `(i, j)` to its end `(dx, dy)`, both included.
pub open spec fn line_offsets(i: int, j: int, dx: int, dy: int) -> Seq<(int, int)>
    decreases (dx - i) + (dy - j),
    when 0 <= i <= dx && 0 <= j <= dy
{
    if i == dx && j == dy {
        seq![(i, j)]
    } else {
        proof {
            lemma_line_step(i, j, dx, dy);
        }
        seq![(i, j)] + line_offsets(next_i(i, j, dx, dy), next_j(i, j, dx, dy), dx, dy)
    }
}

/// The step counts start where the walk stands, end at the extents, never
/// go back, and take at most one iteration for each step that is left.
pub proof fn lemma_line_offsets_shape(i: int, j: int, dx: int, dy: int)
    requires
        0 <= i <= dx,
        0 <= j <= dy,
    ensures
        1 <= line_offsets(i, j, dx, dy).len() <= (dx - i) + (dy - j) + 1,
        line_offsets(i, j, dx, dy).first() == (i, j),
        line_offsets(i, j, dx, dy).last() == (dx, dy),
        forall|k: int|
            0 <= k < line_offsets(i, j, dx, dy).len() ==> {
                &&& i <= (#[trigger] line_offsets(i, j, dx, dy)[k]).0 <= dx
                &&& j <= line_offsets(i, j, dx, dy)[k].1 <= dy
            },
    decreases (dx - i) + (dy - j),
{
    if !(i == dx && j == dy) {
        lemma_line_step(i, j, dx, dy);
        let ni = next_i(i, j, dx, dy);
        let nj = next_j(i, j, dx, dy);
        lemma_line_offsets_shape(ni, nj, dx, dy);
        let tail = line_offsets(ni, nj, dx, dy);
        let all = line_offsets(i, j, dx, dy);
        assert(all =~= seq![(i, j)] + tail);
        assert forall|k: int| 0 <= k < all.len() implies {
            &&& i <= (#[trigger] all[k]).0 <= dx
            &&& j <= all[k].1 <= dy
        } by {
            if k > 0 {
                assert(all[k] == tail[k - 1]);
            }
        }
        assert(all.last() == tail.last());
    }
}

/// A line starts at its first end point, ends at its second, and stays
/// within the box that the two span.
pub proof fn lemma_line_points_shape(x1: int, y1: int, x2: int, y2: int)
    ensures
        1 <= line_points(x1, y1, x2, y2).len() <= span(x1, x2) + span(y1, y2) + 1,
        line_points(x1, y1, x2, y2).first() == (x1, y1),
        line_points(x1, y1, x2, y2).last() == (x2, y2),
        forall|k: int|
            0 <= k < line_points(x1, y1, x2, y2).len() ==> {
                let point = #[trigger] line_points(x1, y1, x2, y2)[k];
                &&& (x1 <= point.0 <= x2 || x2 <= point.0 <= x1)
                &&& (y1 <= point.1 <= y2 || y2 <= point.1 <= y1)
            },
{
    lemma_line_offsets_shape(0, 0, span(x1, x2), span(y1, y2));
    let offsets = line_offsets(0, 0, span(x1, x2), span(y1, y2));
    assert forall|k: int| 0 <= k < line_points(x1, y1, x2, y2).len() implies {
        let point = #[trigger] line_points(x1, y1, x2, y2)[k];
        &&& (x1 <= point.0 <= x2 || x2 <= point.0 <= x1)
        &&& (y1 <= point.1 <= y2 || y2 <= point.1 <= y1)
    } by {
        assert(0 <= offsets[k].0 <= span(x1, x2));
    }
}

/// The pixels of the line from `(x1, y1)` to `(x2, y2)`, in drawing order.
pub open spec fn line_points(x1: int, y1: int, x2: int, y2: int) -> Seq<(int, int)> {
    line_offsets(0, 0, span(x1, x2), span(y1, y2)).map_values(
        |o: (int, int)| (toward(x1, x2, o.0), toward(y1, y2, o.1)),
    )
}

/// The points of a horizontal line are the pixels of its row from one end to
/// the other, each once.
pub proof fn lemma_horizontal_line(x1: int, x2: int, y: int)
    ensures
        line_points(x1, y, x2, y).len() == span(x1, x2) + 1,
        forall|k: int|
            0 <= k <= span(x1, x2) ==> #[trigger] line_points(x1, y, x2, y)[k] == (
                toward(x1, x2, k),
                y,
            ),
{
    let dx = span(x1, x2);
    lemma_horizontal_offsets(0, dx);
    assert(span(y, y) == 0);
    assert forall|k: int| 0 <= k <= dx implies #[trigger] line_points(x1, y, x2, y)[k] == (
        toward(x1, x2, k),
        y,
    ) by {
        assert(line_offsets(0, 0, dx, 0)[k] == (k, 0int));
    }
}

/// The step counts of a line without extent along y.
proof fn lemma_horizontal_offsets(i: int, dx: int)
    requires
        0 <= i <= dx,
    ensures
        line_offsets(i, 0, dx, 0).len() == dx - i + 1,
        forall|k: int|
            0 <= k <= dx - i ==> #[trigger] line_offsets(i, 0, dx, 0)[k] == (i + k, 0int),
    decreases dx - i,
{
    if i < dx {
        assert(line_error(i, 0, dx, 0) == dx) by (nonlinear_arith);
        assert(next_i(i, 0, dx, 0) == i + 1);
        assert(next_j(i, 0, dx, 0) == 0);
        lemma_horizontal_offsets(i + 1, dx);
        let tail = line_offsets(i + 1, 0, dx, 0);
        assert(line_offsets(i, 0, dx, 0) =~= seq![(i, 0int)] + tail);
        assert forall|k: int| 0 <= k <= dx - i implies #[trigger] line_offsets(i, 0, dx, 0)[k] == (
            i + k,
            0int,
        ) by {
            if k > 0 {
                assert(tail[k - 1] == (i + 1 + (k - 1), 0int));
            }
        }
    }
}

/// The eight reflections of the offset `(x, y)` about the center `(cx, cy)`,
/// in drawing order.
pub open spec fn octant_points(cx: int, cy: int, x: int, y: int) -> Seq<(int, int)> {
    seq![
        (cx + x, cy + y),
        (cx - x, cy + y),
        (cx + x, cy - y),
        (cx - x, cy - y),
        (cx + y, cy + x),
        (cx - y, cy + x),
        (cx + y, cy - x),
        (cx - y, cy - x),
    ]
}

/// Decision variable after the step that follows offset `(x, y)` with
/// decision `d`: a positive `d` moves `y` inwards.
pub open spec fn next_decision(x: int, y: int, d: int) -> int {
    if d > 0 {
        d + 4 * ((x + 1) - (y - 1)) + 10
    } else {
        d + 4 * (x + 1) + 6
    }
}

/// Height `y` after the step that follows offset `(x, y)` with decision `d`.
pub open spec fn next_height(y: int, d: int) -> int {
    if d > 0 {
        y - 1
    } else {
        y
    }
}

/// The pixels that the midpoint circle walk visits from offset `(x, y)` with
/// decision `d` until `y < x`, in drawing order.
pub open spec fn circle_walk(cx: int, cy: int, x: int, y: int, d: int) -> Seq<(int, int)>
    decreases y - x + 2,
{
    if y < x {
        Seq::empty()
    } else {
        octant_points(cx, cy, x, y) + circle_walk(
            cx,
            cy,
            x + 1,
            next_height(y, d),
            next_decision(x, y, d),
        )
    }
}

/// The pixels of the circle of radius `r` about `(cx, cy)`, in drawing order:
/// the walk starts at offset `(0, r)` with decision `3 - 2 r`.
pub open spec fn circle_points(cx: int, cy: int, r: int) -> Seq<(int, int)> {
    circle_walk(cx, cy, 0, r, 3 - 2 * r)
}

} // verus!
