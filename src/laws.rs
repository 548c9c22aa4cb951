//! Properties of the engine and the translator that hold for all inputs.
use vstd::prelude::*;

use crate::commands::{Commands, HorBar};
use crate::drawing_command::{arc_ops, distinct_count, poly_lines, poly_ops, rect_ops};
use crate::patterns::{
    dash_at, dash_count, dashed_hor_line_ops, dashed_vert_line_ops, dashes_between, lemma_dash_bounds,
    lemma_dash_run,
};
use crate::geometry::{pt, small, Metrics, PathOp, Point, Side};
use crate::recipe::resolve_spec;
use crate::translator::{translate_command, Expr};

verus! {

/// A default horizontal bar is the rectangle across the glyph, extended by half the butt at
/// each end, from half a stroke below the median to half a stroke above it; for an even
/// stroke its thickness is exactly the stroke, and with no butt it spans exactly
/// `[-butt, width + butt]`.
pub proof fn lemma_default_hor_bar(m: Metrics)
    requires
        m.wf(),
    ensures
        Commands::HorBar(HorBar { fatness: None, median: None, butt_left: None, butt_right: None }).ops(m)
            == rect_ops(
            pt(-(m.butt / 2), m.median - m.stroke / 2),
            pt(m.width + m.butt / 2, m.median - m.stroke / 2),
            pt(m.width + m.butt / 2, m.median + m.stroke / 2),
            pt(-(m.butt / 2), m.median + m.stroke / 2),
        ),
        m.stroke % 2 == 0 ==> (m.median + m.stroke / 2) - (m.median - m.stroke / 2) == m.stroke,
        m.butt == 0 ==> Commands::HorBar(HorBar { fatness: None, median: None, butt_left: None, butt_right: None }).ops(
            m,
        ) == rect_ops(
            pt(-m.butt, m.median - m.stroke / 2),
            pt(m.width + m.butt, m.median - m.stroke / 2),
            pt(m.width + m.butt, m.median + m.stroke / 2),
            pt(-m.butt, m.median + m.stroke / 2),
        ),
{
    assert(m.stroke * 1 == m.stroke);
}

/// The number of points of `s`, after the first, that differ from the one before them.
pub open spec fn changes(s: Seq<Point>, k: int) -> nat
    decreases k,
{
    if k <= 1 {
        0
    } else {
        changes(s, k - 1) + if s[k - 1] != s[k - 2] {
            1nat
        } else {
            0nat
        }
    }
}

proof fn lemma_poly_lines_shape(s: Seq<Point>, k: int)
    requires
        k <= s.len(),
    ensures
        poly_lines(s, k).len() == changes(s, k),
        forall|i: int| 0 <= i < poly_lines(s, k).len() ==> (#[trigger] poly_lines(s, k)[i]) is LineTo,
    decreases k,
{
    if k > 1 {
        lemma_poly_lines_shape(s, k - 1);
        let prev = poly_lines(s, k - 1);
        let tail = if s[k - 1] != s[k - 2] {
            seq![PathOp::LineTo(s[k - 1])]
        } else {
            Seq::empty()
        };
        assert forall|i: int| 0 <= i < poly_lines(s, k).len() implies (#[trigger] poly_lines(s, k)[i]) is LineTo by {
            if i < prev.len() {
                assert(poly_lines(s, k)[i] == prev[i]);
            } else {
                assert(poly_lines(s, k)[i] == tail[i - prev.len()]);
            }
        }
    }
}

proof fn lemma_distinct_points(s: Seq<Point>, k: int)
    requires
        0 <= k <= s.len(),
        s.no_duplicates(),
    ensures
        distinct_count(s.subrange(0, k)) == k,
        changes(s, k) == if k == 0 { 0 } else { k - 1 },
    decreases k,
{
    if k > 0 {
        lemma_distinct_points(s, k - 1);
        let pre = s.subrange(0, k);
        assert(pre.drop_last() =~= s.subrange(0, k - 1));
        assert(!pre.drop_last().contains(pre.last())) by {
            if pre.drop_last().contains(pre.last()) {
                let j = choose|j: int| 0 <= j < pre.drop_last().len() && pre.drop_last()[j] == pre.last();
                assert(s[j] == s[k - 1]);
            }
        }
        if k > 1 {
            assert(s[k - 1] != s[k - 2]);
        }
    }
}

/// Polygon drawing: with fewer than three distinct points nothing is drawn; otherwise one
/// move to the first point, then only lines, one for each point that differs from the one
/// before it, then one close. Where no point repeats, that is one line fewer than there
/// are distinct points.
pub proof fn lemma_poly_shape(s: Seq<Point>)
    ensures
        distinct_count(s) < 3 ==> poly_ops(s) == Seq::<PathOp>::empty(),
        distinct_count(s) >= 3 ==> {
            &&& poly_ops(s).len() == changes(s, s.len() as int) + 2
            &&& poly_ops(s)[0] == PathOp::MoveTo(s[0])
            &&& poly_ops(s).last() == PathOp::ClosePath
            &&& forall|i: int| 1 <= i < poly_ops(s).len() - 1 ==> (#[trigger] poly_ops(s)[i]) is LineTo
        },
        s.no_duplicates() && s.len() >= 3 ==> distinct_count(s) == s.len() && changes(s, s.len() as int)
            == distinct_count(s) - 1,
{
    lemma_poly_lines_shape(s, s.len() as int);
    if distinct_count(s) >= 3 {
        let lines = poly_lines(s, s.len() as int);
        let ops = poly_ops(s);
        assert forall|i: int| 1 <= i < ops.len() - 1 implies (#[trigger] ops[i]) is LineTo by {
            assert(ops[i] == lines[i - 1]);
        }
    }
    if s.no_duplicates() {
        lemma_distinct_points(s, s.len() as int);
        assert(s.subrange(0, s.len() as int) =~= s);
    }
}

/// Translating the same expression twice gives the same command, which draws the same
/// path against the same metrics.
pub proof fn lemma_translation_repeatable(e1: Expr, e2: Expr, m: Metrics)
    requires
        e1 == e2,
    ensures
        translate_command(e1) == translate_command(e2),
        translate_command(e1) matches Ok(c1) ==> translate_command(e2) matches Ok(c2) && resolve_spec(c1, m)
            == resolve_spec(c2, m) && (resolve_spec(c1, m) matches Some(k1) ==> resolve_spec(c2, m) matches Some(
            k2,
        ) && k1.ops(m) == k2.ops(m)),
{
}

/// The side on the other side of the vertical axis.
pub open spec fn mirror_side(s: Side) -> Side {
    match s {
        Side::TopLeft => Side::TopRight,
        Side::TopRight => Side::TopLeft,
        Side::BottomLeft => Side::BottomRight,
        Side::BottomRight => Side::BottomLeft,
    }
}

/// `p` reflected in the vertical line `x == axis / 2`.
pub open spec fn mirror_point(p: Point, axis: int) -> Point {
    pt(axis - p.x, p.y as int)
}

pub open spec fn mirror_op(op: PathOp, axis: int) -> PathOp {
    match op {
        PathOp::MoveTo(p) => PathOp::MoveTo(mirror_point(p, axis)),
        PathOp::LineTo(p) => PathOp::LineTo(mirror_point(p, axis)),
        PathOp::CurveTo(a, b, c) => PathOp::CurveTo(
            mirror_point(a, axis),
            mirror_point(b, axis),
            mirror_point(c, axis),
        ),
        PathOp::ClosePath => PathOp::ClosePath,
    }
}

pub open spec fn mirror_ops(s: Seq<PathOp>, axis: int) -> Seq<PathOp> {
    s.map_values(|op: PathOp| mirror_op(op, axis))
}

/// Arc symmetry: an arc drawn from mirrored end points in the mirrored quadrant is the
/// mirror image of the first arc, point for point.
pub proof fn lemma_arc_mirror(
    m: Metrics,
    start: Point,
    end: Point,
    side: Side,
    stroke: int,
    radius: int,
    butt: int,
    axis: int,
)
    requires
        m.wf(),
        start.is_small(),
        end.is_small(),
        small(stroke),
        small(radius),
        small(butt),
        small(axis),
    ensures
        arc_ops(m, pt(axis - start.x, start.y as int), pt(axis - end.x, end.y as int), mirror_side(side), stroke, radius, butt)
            == mirror_ops(arc_ops(m, start, end, side, stroke, radius, butt), axis),
{
    let k = m.kappa as int;
    assert(-2 * crate::geometry::COORD_LIMIT * 10000 <= (radius - stroke / 2) * k <= 2 * crate::geometry::COORD_LIMIT * 10000) by (nonlinear_arith)
        requires small(radius), small(stroke), 0 <= k <= 10000;
    assert(-2 * crate::geometry::COORD_LIMIT * 10000 <= (radius + stroke / 2) * k <= 2 * crate::geometry::COORD_LIMIT * 10000) by (nonlinear_arith)
        requires small(radius), small(stroke), 0 <= k <= 10000;
    let a = arc_ops(m, pt(axis - start.x, start.y as int), pt(axis - end.x, end.y as int), mirror_side(side), stroke, radius, butt);
    let b = mirror_ops(arc_ops(m, start, end, side, stroke, radius, butt), axis);
    assert(a =~= b);
}

/// Horizontal dashed lines: for every positive step and width, the line draws `step` or
/// `step - 1` dashes, left to right; each is the rectangle from `x0` to
/// `x0 + width / step - (width / step) / step`, with `0 <= x0` and its end at most `width`,
/// from half a stroke below the median to half a stroke above it, and each ends no later
/// than the next one starts.
pub proof fn lemma_dashed_hor_line(m: Metrics, step: int, width: int, stroke: int)
    requires
        0 < step,
        0 < width,
    ensures
        ({
            let l = width / step;
            let gap = l / step;
            let n = dash_count(step, width);
            &&& step - 1 <= n <= step
            &&& dashed_hor_line_ops(m, step, width, stroke) == dashes_between(false, m.median as int, 0, l, gap, stroke, 0, n)
            &&& forall|k: int| 0 <= k < n ==> {
                let x0 = #[trigger] (k * l) + gap / 2;
                let x1 = x0 + (width / step - (width / step) / step);
                &&& dash_at(false, m.median as int, 0, l, gap, stroke, k) == rect_ops(
                    pt(x0, m.median - stroke / 2),
                    pt(x1, m.median - stroke / 2),
                    pt(x1, m.median + stroke / 2),
                    pt(x0, m.median + stroke / 2),
                )
                &&& 0 <= x0 <= x1 <= width
                &&& x1 <= (k + 1) * l + gap / 2
            }
        }),
{
    lemma_dash_run(false, m.median as int, 0, width, step, stroke, 0);
    let l = width / step;
    let gap = l / step;
    assert forall|k: int| 0 <= k < dash_count(step, width) implies {
        let x0 = #[trigger] (k * l) + gap / 2;
        let x1 = x0 + (width / step - (width / step) / step);
        &&& dash_at(false, m.median as int, 0, l, gap, stroke, k) == rect_ops(
            pt(x0, m.median - stroke / 2),
            pt(x1, m.median - stroke / 2),
            pt(x1, m.median + stroke / 2),
            pt(x0, m.median + stroke / 2),
        )
        &&& 0 <= x0 <= x1 <= width
        &&& x1 <= (k + 1) * l + gap / 2
    } by {
        lemma_dash_bounds(width, step, k);
    }
}

/// Vertical dashed lines: for every positive step and length, the line draws `step` or
/// `step - 1` dashes, bottom to top, inside the span of `length` that starts at
/// `median - length / 2`; each is `length / step - (length / step) / step` long, half a
/// stroke either side of the center, and ends no later than the next one starts.
pub proof fn lemma_dashed_vert_line(m: Metrics, step: int, length: int, stroke: int)
    requires
        0 < step,
        0 < length,
    ensures
        ({
            let l = length / step;
            let gap = l / step;
            let n = dash_count(step, length);
            let y = m.median - length / 2;
            let cx = m.width / 2;
            &&& step - 1 <= n <= step
            &&& dashed_vert_line_ops(m, step, length, stroke) == dashes_between(true, cx, y, l, gap, stroke, 0, n)
            &&& forall|k: int| 0 <= k < n ==> {
                let y0 = y + #[trigger] (k * l) + gap / 2;
                let y1 = y0 + (length / step - (length / step) / step);
                &&& dash_at(true, cx, y, l, gap, stroke, k) == rect_ops(
                    pt(cx - stroke / 2, y0),
                    pt(cx + stroke / 2, y0),
                    pt(cx + stroke / 2, y1),
                    pt(cx - stroke / 2, y1),
                )
                &&& y <= y0 <= y1 <= y + length
                &&& y1 <= y + (k + 1) * l + gap / 2
            }
        }),
{
    let y = m.median - length / 2;
    let cx = m.width / 2;
    lemma_dash_run(true, cx, y, length, step, stroke, 0);
    let l = length / step;
    let gap = l / step;
    assert forall|k: int| 0 <= k < dash_count(step, length) implies {
        let y0 = y + #[trigger] (k * l) + gap / 2;
        let y1 = y0 + (length / step - (length / step) / step);
        &&& dash_at(true, cx, y, l, gap, stroke, k) == rect_ops(
            pt(cx - stroke / 2, y0),
            pt(cx + stroke / 2, y0),
            pt(cx + stroke / 2, y1),
            pt(cx - stroke / 2, y1),
        )
        &&& y <= y0 <= y1 <= y + length
        &&& y1 <= y + (k + 1) * l + gap / 2
    } by {
        lemma_dash_bounds(length, step, k);
    }
}

} // verus!
