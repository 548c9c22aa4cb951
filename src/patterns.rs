//! Repeated elements: dashed lines and fill patterns.
use vstd::prelude::*;

use crate::drawing_command::{drew, hline, kap, or_default, opt_small, poly_ops, rect_ops, vline, DrawingCommand};
use crate::geometry::{div_floor, half, pt, small, Metrics, PathOp, Point, Shade, COORD_LIMIT, KAPPA_SCALE};

verus! {

/// Dash `k` of a dashed line whose segments of length `l` start at `origin` along the
/// line and which runs along the coordinate `across`: the segment shortened by `gap`,
/// centered in it, of thickness `stroke`.
pub open spec fn dash_at(vertical: bool, across: int, origin: int, l: int, gap: int, stroke: int, k: int) -> Seq<
    PathOp,
> {
    let s = origin + k * l + gap / 2;
    let e = s + l - gap;
    if vertical {
        vline(pt(across, s), pt(across, e), stroke, 0, 0)
    } else {
        hline(pt(s, across), pt(e, across), stroke, 0, 0)
    }
}

/// Segments `k` to `n - 1` of a dashed line over a span of length `span`: each draws its
/// dash only where the dash ends short of the span's end.
pub open spec fn dash_run(
    vertical: bool,
    across: int,
    origin: int,
    span: int,
    l: int,
    gap: int,
    stroke: int,
    k: int,
    n: int,
) -> Seq<PathOp>
    decreases n - k,
{
    if k >= n {
        Seq::empty()
    } else {
        (if k * l + l - gap < span {
            dash_at(vertical, across, origin, l, gap, stroke, k)
        } else {
            Seq::empty()
        }) + dash_run(vertical, across, origin, span, l, gap, stroke, k + 1, n)
    }
}

/// Dashes `j` to `n - 1`, all drawn, in order.
pub open spec fn dashes_between(
    vertical: bool,
    across: int,
    origin: int,
    l: int,
    gap: int,
    stroke: int,
    j: int,
    n: int,
) -> Seq<PathOp>
    decreases n - j,
{
    if j >= n {
        Seq::empty()
    } else {
        dash_at(vertical, across, origin, l, gap, stroke, j) + dashes_between(
            vertical,
            across,
            origin,
            l,
            gap,
            stroke,
            j + 1,
            n,
        )
    }
}

/// How many dashes a line of `step` segments over `span` draws: all of them, unless the
/// last one would reach the span's end.
pub open spec fn dash_count(step: int, span: int) -> int {
    let l = span / step;
    let gap = l / step;
    if step * l - gap < span {
        step
    } else {
        step - 1
    }
}

/// A horizontal dashed line at the median: `width` is cut into `step` segments of length
/// `width / step`, and each holds a dash shortened by a gap of a `step`-th of a segment.
pub open spec fn dashed_hor_line_ops(m: Metrics, step: int, width: int, stroke: int) -> Seq<PathOp> {
    if step <= 0 {
        Seq::empty()
    } else {
        dash_run(false, m.median as int, 0, width, width / step, (width / step) / step, stroke, 0, step)
    }
}

/// A vertical dashed line through the center, over the span of `length` that starts at
/// `median - length / 2`, cut into `step` segments as a horizontal one is.
pub open spec fn dashed_vert_line_ops(m: Metrics, step: int, length: int, stroke: int) -> Seq<PathOp> {
    if step <= 0 {
        Seq::empty()
    } else {
        dash_run(
            true,
            m.width / 2,
            m.median - length / 2,
            length,
            length / step,
            (length / step) / step,
            stroke,
            0,
            step,
        )
    }
}

/// The drawn segments are exactly the first `dash_count` ones.
pub proof fn lemma_dash_run(vertical: bool, across: int, origin: int, span: int, step: int, stroke: int, j: int)
    requires
        0 < step,
        0 < span,
        0 <= j <= dash_count(step, span),
    ensures
        dash_run(vertical, across, origin, span, span / step, (span / step) / step, stroke, j, step)
            == dashes_between(vertical, across, origin, span / step, (span / step) / step, stroke, j, dash_count(step, span)),
    decreases step - j,
{
    let l = span / step;
    let gap = l / step;
    let cnt = dash_count(step, span);
    assert(0 <= l && l * step <= span && 0 <= gap && gap * step <= l && gap <= l) by (nonlinear_arith)
        requires step > 0, span > 0, l == span / step, gap == l / step;
    assert(step * l == l * step) by (nonlinear_arith);
    if j == cnt {
        if cnt == step - 1 {
            assert((step - 1) * l + l == step * l) by (nonlinear_arith);
            assert(!((step - 1) * l + l - gap < span));
            assert(dash_run(vertical, across, origin, span, l, gap, stroke, step, step) == Seq::<PathOp>::empty());
            assert(dash_run(vertical, across, origin, span, l, gap, stroke, j, step) =~= Seq::<PathOp>::empty());
        }
    } else {
        lemma_dash_run(vertical, across, origin, span, step, stroke, j + 1);
        assert(j * l + l == (j + 1) * l) by (nonlinear_arith);
        if j + 1 < step {
            assert((j + 1) * l <= (step - 1) * l) by (nonlinear_arith)
                requires j + 1 <= step - 1, l >= 0;
            assert((step - 1) * l + l == step * l) by (nonlinear_arith);
            if l == 0 {
                assert((j + 1) * l == 0) by (nonlinear_arith)
                    requires l == 0;
                assert(gap == 0);
            }
        } else {
            assert(j + 1 == step);
        }
        assert(j * l + l - gap < span);
    }
}

/// Where each dash lies along its line: it starts at or after the line's origin, ends
/// by `span` past it, and ends no later than the next one starts.
pub proof fn lemma_dash_bounds(span: int, step: int, k: int)
    requires
        0 < step,
        0 < span,
        0 <= k < step,
    ensures
        ({
            let l = span / step;
            let gap = l / step;
            &&& 0 <= k * l + gap / 2
            &&& k * l + gap / 2 + (l - gap) <= span
            &&& k * l + gap / 2 + (l - gap) <= (k + 1) * l + gap / 2
            &&& 0 <= l - gap
        }),
{
    let l = span / step;
    let gap = l / step;
    assert(0 <= l && l * step <= span && 0 <= gap && gap <= l) by (nonlinear_arith)
        requires step > 0, span > 0, l == span / step, gap == l / step;
    assert(0 <= k * l && (k + 1) * l <= step * l) by (nonlinear_arith)
        requires 0 <= k < step, l >= 0;
    assert(k * l + l == (k + 1) * l) by (nonlinear_arith);
    assert(step * l == l * step) by (nonlinear_arith);
}


/// A dot: four Bezier quarter circles around `c`.
pub open spec fn dot_ops(m: Metrics, c: Point, r: int) -> Seq<PathOp> {
    let k = kap(r, m.kappa as int);
    let x = c.x as int;
    let y = c.y as int;
    seq![
        PathOp::MoveTo(pt(x - r, y)),
        PathOp::CurveTo(pt(x - r, y - k), pt(x - k, y - r), pt(x, y - r)),
        PathOp::CurveTo(pt(x + k, y - r), pt(x + r, y - k), pt(x + r, y)),
        PathOp::CurveTo(pt(x + r, y + k), pt(x + k, y + r), pt(x, y + r)),
        PathOp::CurveTo(pt(x - k, y + r), pt(x - r, y + k), pt(x - r, y)),
        PathOp::ClosePath,
    ]
}

pub const POLKA_VSTEP: i64 = 100;

pub const POLKA_HSTEP: i64 = 200;

/// Dot radius of a polka pattern.
pub open spec fn polka_radius(shade: Shade) -> int {
    match shade {
        Shade::TwentyFive => 24,
        Shade::Fifty => 36,
        Shade::SeventyFive => 54,
    }
}

/// One column of polka dots at `w`, from `h` up to the top of the block.
pub open spec fn polka_column(m: Metrics, r: int, w: int, h: int) -> Seq<PathOp>
    decreases span(h, m.median + m.block_height / 2),
{
    if h >= m.median + m.block_height / 2 {
        Seq::empty()
    } else {
        dot_ops(m, pt(w, h), r) + dot_ops(m, pt(w + POLKA_HSTEP / 2, h + POLKA_VSTEP), (r * 3) / 2)
            + polka_column(m, r, w, h + 2 * POLKA_VSTEP)
    }
}

/// The polka columns from `w` to the glyph's width.
pub open spec fn polka_rows(m: Metrics, r: int, w: int) -> Seq<PathOp>
    decreases span(w, m.width as int),
{
    if w >= m.width {
        Seq::empty()
    } else {
        polka_column(m, r, w, m.median - m.block_height / 2) + polka_rows(m, r, w + POLKA_HSTEP)
    }
}

pub const SHADE_VSTEP: i64 = 50;

pub const SHADE_HSTEP: i64 = 100;

/// Width and height of the boxes of a box pattern.
pub open spec fn shade_box(shade: Shade) -> (int, int) {
    match shade {
        Shade::TwentyFive => (20, 30),
        Shade::Fifty => (40, 50),
        Shade::SeventyFive => (45, 70),
    }
}

/// One column of boxes at `w`, from `h` up to the top of the block.
pub open spec fn shade_column(m: Metrics, bw: int, bh: int, w: int, h: int) -> Seq<PathOp>
    decreases span(h, m.median + m.block_height / 2),
{
    if h >= m.median + m.block_height / 2 {
        Seq::empty()
    } else {
        rect_ops(pt(w, h), pt(w + bw, h), pt(w + bw, h + bh), pt(w, h + bh)) + rect_ops(
            pt(w + SHADE_VSTEP, h + SHADE_VSTEP),
            pt(w + bw + SHADE_VSTEP, h + SHADE_VSTEP),
            pt(w + bw + SHADE_VSTEP, h + bh + SHADE_VSTEP),
            pt(w + SHADE_VSTEP, h + bh + SHADE_VSTEP),
        ) + shade_column(m, bw, bh, w, h + 2 * SHADE_VSTEP)
    }
}

/// The box columns from `w` to the glyph's width.
pub open spec fn shade_rows(m: Metrics, bw: int, bh: int, w: int) -> Seq<PathOp>
    decreases span(w, m.width as int),
{
    if w >= m.width {
        Seq::empty()
    } else {
        shade_column(m, bw, bh, w, m.median - m.block_height / 2) + shade_rows(m, bw, bh, w + SHADE_HSTEP)
    }
}

/// The distance between stripes of a striped or vertical pattern.
pub open spec fn stripe_step(m: Metrics, shade: Shade) -> int {
    match shade {
        Shade::TwentyFive => m.width / 3,
        Shade::Fifty => m.width / 6,
        Shade::SeventyFive => m.width / 12,
    }
}

/// The vertical stripes from `x` to the glyph's width.
pub open spec fn vertical_stripes(m: Metrics, step: int, x: int) -> Seq<PathOp>
    decreases span(x, m.width as int),
{
    if step <= 0 || x >= m.width {
        Seq::empty()
    } else {
        let yb = m.median - m.height / 2;
        let yt = yb + m.height;
        let s = m.width / 30;
        rect_ops(pt(x, yb), pt(x + s, yb), pt(x + s, yt), pt(x, yt)) + vertical_stripes(m, step, x + step)
    }
}

/// How far `from` is below `to`, or zero.
pub open spec fn span(from: int, to: int) -> int {
    if from < to {
        to - from
    } else {
        0
    }
}

/// The absolute value of `v`.
pub open spec fn abs(v: int) -> int {
    if v < 0 {
        -v
    } else {
        v
    }
}

/// The four corners of the 45-degree stripe whose lower edge runs from `x1` to
/// `x1 + stroke`, clipped to the block and shifted onto it.
pub open spec fn stripe_points(m: Metrics, stroke: int, x1: int) -> Seq<Point> {
    let w = m.width as int;
    let bh = m.block_height as int;
    let x2 = x1 + stroke;
    // Lower and upper ends of both edges.
    let (bx1, by1) = if x1 <= 0 { (0, abs(x1)) } else { (x1, 0) };
    let (bx2, by2) = if x2 <= 0 { (0, abs(x2)) } else { (x2, 0) };
    let (tx1, ty1) = if x1 + bh >= w { (w, abs(x1 - w)) } else { (x1 + bh, bh) };
    let (tx2, ty2) = if x2 + bh >= w { (w, abs(x2 - w)) } else { (x2 + bh, bh) };
    // Edges that fall outside the block collapse onto its border.
    let (ty1, by1) = if ty1 <= by1 { (bh, bh) } else { (ty1, by1) };
    let (tx1, bx1) = if tx1 <= bx1 { (w, w) } else { (tx1, bx1) };
    let (bx2, ty2) = if bx2 >= w { (w, 0) } else { (bx2, ty2) };
    let dy = m.median - bh / 2;
    seq![pt(bx1, by1 + dy), pt(bx2, by2 + dy), pt(tx2, ty2 + dy), pt(tx1, ty1 + dy)]
}

/// The stripes from `x` up to `width + stroke`.
pub open spec fn diagonal_stripes(m: Metrics, step: int, stroke: int, x: int) -> Seq<PathOp>
    decreases span(x, m.width + stroke),
{
    if step <= 0 || x >= m.width + stroke {
        Seq::empty()
    } else {
        poly_ops(stripe_points(m, stroke, x)) + diagonal_stripes(m, step, stroke, x + step)
    }
}

/// A diagonal stripe pattern over the block.
pub open spec fn striped_shade_ops(m: Metrics, shade: Shade) -> Seq<PathOp> {
    let stroke = m.width / 30;
    diagonal_stripes(m, stripe_step(m, shade), stroke, -(m.block_height as int) - stroke)
}

impl DrawingCommand {
    /// Dashed horizontal line at the median; width and stroke default to the metrics'.
    /// For a positive step and width it draws the first `dash_count` of its `step` dashes,
    /// which is `step` or `step - 1`.
    pub fn dashed_hor_line(&mut self, step: i64, width: Option<i64>, stroke: Option<i64>)
        requires
            old(self).metrics.wf(),
            small(step as int),
            opt_small(width),
            opt_small(stroke),
        ensures
            drew(
                *old(self),
                *final(self),
                dashed_hor_line_ops(
                    old(self).metrics,
                    step as int,
                    or_default(width, old(self).metrics.width as int),
                    or_default(stroke, old(self).metrics.stroke as int),
                ),
            ),
            ({
                let w = or_default(width, old(self).metrics.width as int);
                let l = w / (step as int);
                step > 0 && w > 0 ==> {
                    &&& step - 1 <= dash_count(step as int, w) <= step
                    &&& final(self).ops() == old(self).ops() + dashes_between(
                        false,
                        old(self).metrics.median as int,
                        0,
                        l,
                        l / (step as int),
                        or_default(stroke, old(self).metrics.stroke as int),
                        0,
                        dash_count(step as int, w),
                    )
                }
            }),
    {
        let m = self.metrics;
        let width = match width {
            Some(v) => v,
            None => m.width,
        };
        let stroke = match stroke {
            Some(v) => v,
            None => m.stroke,
        };
        if step <= 0 {
            assert(self.ops() =~= old(self).ops() + dashed_hor_line_ops(m, step as int, width as int, stroke as int));
            return;
        }
        let step_length = div_floor(width, step);
        proof {
            lemma_segment_bounds(width as int, step as int);
        }
        let gap = div_floor(step_length, step);
        let ghost total = dash_run(false, m.median as int, 0, width as int, step_length as int, gap as int, stroke as int, 0, step as int);
        let mut k: i64 = 0;
        let mut w: i64 = 0;
        while k < step
            invariant
                self.metrics == m,
                m.wf(),
                small(width as int),
                small(stroke as int),
                1 <= step <= COORD_LIMIT,
                step_length == (width as int) / (step as int),
                gap == (step_length as int) / (step as int),
                0 <= k <= step,
                w == k * step_length,
                forall|i: int| 0 <= i <= step ==> -2 * COORD_LIMIT <= #[trigger] (i * step_length) <= 2 * COORD_LIMIT,
                -2 * COORD_LIMIT <= step_length <= 2 * COORD_LIMIT,
                -2 * COORD_LIMIT <= gap <= 2 * COORD_LIMIT,
                self.ops() + dash_run(false, m.median as int, 0, width as int, step_length as int, gap as int, stroke as int, k as int, step as int)
                    == old(self).ops() + total,
            decreases step - k,
        {
            let ghost before = self.ops();
            let ghost rest = dash_run(false, m.median as int, 0, width as int, step_length as int, gap as int, stroke as int, k + 1, step as int);
            assert(-2 * COORD_LIMIT <= (k + 1) * step_length <= 2 * COORD_LIMIT);
            assert(k * step_length + step_length == (k + 1) * step_length) by (nonlinear_arith);
            if w + step_length - gap < width {
                let x = w + half(gap);
                self.hor_line(
                    &Point { x, y: m.median },
                    &Point { x: x + step_length - gap, y: m.median },
                    stroke,
                    Some(0),
                    Some(0),
                );
            }
            assert(self.ops() + rest =~= before + dash_run(false, m.median as int, 0, width as int, step_length as int, gap as int, stroke as int, k as int, step as int));
            w = w + step_length;
            k = k + 1;
        }
        assert(self.ops() =~= old(self).ops() + total);
        proof {
            if width > 0 {
                lemma_dash_run(false, m.median as int, 0, width as int, step as int, stroke as int, 0);
            }
        }
    }

    /// Dashed vertical line through the center over `length`, centered on the median;
    /// length and stroke default to the em height and the metrics' stroke. For a positive
    /// step and length it draws the first `dash_count` of its `step` dashes, which is
    /// `step` or `step - 1`.
    pub fn dashed_vert_line(&mut self, step: i64, length: Option<i64>, stroke: Option<i64>)
        requires
            old(self).metrics.wf(),
            small(step as int),
            opt_small(length),
            opt_small(stroke),
        ensures
            drew(
                *old(self),
                *final(self),
                dashed_vert_line_ops(
                    old(self).metrics,
                    step as int,
                    or_default(length, old(self).metrics.em_height as int),
                    or_default(stroke, old(self).metrics.stroke as int),
                ),
            ),
            ({
                let len = or_default(length, old(self).metrics.em_height as int);
                let l = len / (step as int);
                step > 0 && len > 0 ==> {
                    &&& step - 1 <= dash_count(step as int, len) <= step
                    &&& final(self).ops() == old(self).ops() + dashes_between(
                        true,
                        old(self).metrics.width / 2,
                        old(self).metrics.median - len / 2,
                        l,
                        l / (step as int),
                        or_default(stroke, old(self).metrics.stroke as int),
                        0,
                        dash_count(step as int, len),
                    )
                }
            }),
    {
        let m = self.metrics;
        let length = match length {
            Some(v) => v,
            None => m.em_height,
        };
        let stroke = match stroke {
            Some(v) => v,
            None => m.stroke,
        };
        if step <= 0 {
            assert(self.ops() =~= old(self).ops() + dashed_vert_line_ops(m, step as int, length as int, stroke as int));
            return;
        }
        let step_length = div_floor(length, step);
        proof {
            lemma_segment_bounds(length as int, step as int);
        }
        let gap = div_floor(step_length, step);
        let bottom = m.median - half(length);
        let cx = half(m.width);
        let ghost total = dash_run(true, cx as int, bottom as int, length as int, step_length as int, gap as int, stroke as int, 0, step as int);
        let mut k: i64 = 0;
        let mut w: i64 = 0;
        while k < step
            invariant
                self.metrics == m,
                m.wf(),
                small(length as int),
                small(stroke as int),
                1 <= step <= COORD_LIMIT,
                step_length == (length as int) / (step as int),
                gap == (step_length as int) / (step as int),
                bottom == m.median - length / 2,
                cx == m.width / 2,
                0 <= k <= step,
                w == k * step_length,
                forall|i: int| 0 <= i <= step ==> -2 * COORD_LIMIT <= #[trigger] (i * step_length) <= 2 * COORD_LIMIT,
                -2 * COORD_LIMIT <= step_length <= 2 * COORD_LIMIT,
                -2 * COORD_LIMIT <= gap <= 2 * COORD_LIMIT,
                self.ops() + dash_run(true, cx as int, bottom as int, length as int, step_length as int, gap as int, stroke as int, k as int, step as int)
                    == old(self).ops() + total,
            decreases step - k,
        {
            let ghost before = self.ops();
            let ghost rest = dash_run(true, cx as int, bottom as int, length as int, step_length as int, gap as int, stroke as int, k + 1, step as int);
            assert(-2 * COORD_LIMIT <= (k + 1) * step_length <= 2 * COORD_LIMIT);
            assert(k * step_length + step_length == (k + 1) * step_length) by (nonlinear_arith);
            if w + step_length - gap < length {
                let y = bottom + w + half(gap);
                self.vert_line(&Point { x: cx, y }, &Point { x: cx, y: y + step_length - gap }, stroke, None, None);
            }
            assert(self.ops() + rest =~= before + dash_run(true, cx as int, bottom as int, length as int, step_length as int, gap as int, stroke as int, k as int, step as int));
            w = w + step_length;
            k = k + 1;
        }
        assert(self.ops() =~= old(self).ops() + total);
        proof {
            if length > 0 {
                lemma_dash_run(true, cx as int, bottom as int, length as int, step as int, stroke as int, 0);
            }
        }
    }

    /// A dot of radius `radius` around `center`.
    pub fn dot(&mut self, center: &Point, radius: i64)
        requires
            old(self).metrics.wf(),
            -4 * COORD_LIMIT <= center.x <= 4 * COORD_LIMIT,
            -4 * COORD_LIMIT <= center.y <= 4 * COORD_LIMIT,
            small(radius as int),
        ensures
            drew(*old(self), *final(self), dot_ops(old(self).metrics, *center, radius as int)),
    {
        let x = center.x;
        let y = center.y;
        let r = radius;
        let kappa = self.metrics.kappa;
        assert(-COORD_LIMIT * KAPPA_SCALE <= r * kappa <= COORD_LIMIT * KAPPA_SCALE) by (nonlinear_arith)
            requires small(r as int), 0 <= kappa <= KAPPA_SCALE;
        let k = crate::geometry::div_floor(r * kappa, KAPPA_SCALE);
        assert(-COORD_LIMIT <= k <= COORD_LIMIT) by (nonlinear_arith)
            requires k == (r * kappa) / 10000, -COORD_LIMIT * 10000 <= r * kappa <= COORD_LIMIT * 10000;
        self.emit(PathOp::MoveTo(Point { x: x - r, y }));
        self.emit(PathOp::CurveTo(Point { x: x - r, y: y - k }, Point { x: x - k, y: y - r }, Point { x, y: y - r }));
        self.emit(PathOp::CurveTo(Point { x: x + k, y: y - r }, Point { x: x + r, y: y - k }, Point { x: x + r, y }));
        self.emit(PathOp::CurveTo(Point { x: x + r, y: y + k }, Point { x: x + k, y: y + r }, Point { x, y: y + r }));
        self.emit(PathOp::CurveTo(Point { x: x - k, y: y + r }, Point { x: x - r, y: y + k }, Point { x: x - r, y }));
        self.emit(PathOp::ClosePath);
        assert(self.ops() =~= old(self).ops() + dot_ops(self.metrics, *center, radius as int));
    }

    /// Shading pattern of polka dots over the block.
    pub fn polka_shade(&mut self, shade: Shade)
        requires
            old(self).metrics.wf(),
        ensures
            drew(*old(self), *final(self), polka_rows(old(self).metrics, polka_radius(shade), 0)),
    {
        let m = self.metrics;
        let radius: i64 = match shade {
            Shade::TwentyFive => 24,
            Shade::Fifty => 36,
            Shade::SeventyFive => 54,
        };
        let big = radius * 3 / 2;
        let hb = half(m.block_height);
        let bottom = m.median - hb;
        let top = m.median + hb;
        let ghost total = polka_rows(m, radius as int, 0);
        let mut w: i64 = 0;
        while w < m.width
            invariant
                self.metrics == m,
                m.wf(),
                radius == polka_radius(shade),
                big == (radius * 3) / 2,
                bottom == m.median - m.block_height / 2,
                top == m.median + m.block_height / 2,
                0 <= w <= m.width + POLKA_HSTEP,
                self.ops() + polka_rows(m, radius as int, w as int) == old(self).ops() + total,
            decreases span(w as int, m.width as int),
        {
            let mut h: i64 = bottom;
            assert(self.ops() + polka_column(m, radius as int, w as int, h as int) + polka_rows(m, radius as int, w + POLKA_HSTEP)
                =~= self.ops() + polka_rows(m, radius as int, w as int));
            while h < top
                invariant
                    self.metrics == m,
                    m.wf(),
                    radius == polka_radius(shade),
                    big == (radius * 3) / 2,
                    top == m.median + m.block_height / 2,
                    0 <= w < m.width,
                    -2 * COORD_LIMIT <= h <= 2 * COORD_LIMIT + 2 * POLKA_VSTEP,
                    self.ops() + polka_column(m, radius as int, w as int, h as int) + polka_rows(m, radius as int, w + POLKA_HSTEP)
                        == old(self).ops() + total,
                decreases span(h as int, top as int),
            {
                let ghost before = self.ops();
                let ghost rest = polka_column(m, radius as int, w as int, h + 2 * POLKA_VSTEP);
                self.dot(&Point { x: w, y: h }, radius);
                self.dot(&Point { x: w + POLKA_HSTEP / 2, y: h + POLKA_VSTEP }, big);
                assert(self.ops() + rest =~= before + polka_column(m, radius as int, w as int, h as int));
                h = h + 2 * POLKA_VSTEP;
            }
            assert(self.ops() + polka_rows(m, radius as int, w + POLKA_HSTEP) =~= self.ops() + polka_column(m, radius as int, w as int, h as int) + polka_rows(m, radius as int, w + POLKA_HSTEP));
            w = w + POLKA_HSTEP;
        }
        assert(self.ops() =~= self.ops() + polka_rows(m, radius as int, w as int));
    }

    /// Shading pattern of little boxes over the block.
    pub fn shade(&mut self, shade: Shade)
        requires
            old(self).metrics.wf(),
        ensures
            drew(*old(self), *final(self), shade_rows(old(self).metrics, shade_box(shade).0, shade_box(shade).1, 0)),
    {
        let m = self.metrics;
        let (bw, bh): (i64, i64) = match shade {
            Shade::TwentyFive => (20, 30),
            Shade::Fifty => (40, 50),
            Shade::SeventyFive => (45, 70),
        };
        let half_block = half(m.block_height);
        let bottom = m.median - half_block;
        let top = m.median + half_block;
        let ghost total = shade_rows(m, bw as int, bh as int, 0);
        let mut w: i64 = 0;
        while w < m.width
            invariant
                self.metrics == m,
                m.wf(),
                (bw as int, bh as int) == shade_box(shade),
                bottom == m.median - m.block_height / 2,
                top == m.median + m.block_height / 2,
                0 <= w <= m.width + SHADE_HSTEP,
                self.ops() + shade_rows(m, bw as int, bh as int, w as int) == old(self).ops() + total,
            decreases span(w as int, m.width as int),
        {
            let mut h: i64 = bottom;
            assert(self.ops() + shade_column(m, bw as int, bh as int, w as int, h as int) + shade_rows(m, bw as int, bh as int, w + SHADE_HSTEP)
                =~= self.ops() + shade_rows(m, bw as int, bh as int, w as int));
            while h < top
                invariant
                    self.metrics == m,
                    m.wf(),
                    (bw as int, bh as int) == shade_box(shade),
                    top == m.median + m.block_height / 2,
                    0 <= w < m.width,
                    -2 * COORD_LIMIT <= h <= 2 * COORD_LIMIT + 2 * SHADE_VSTEP,
                    self.ops() + shade_column(m, bw as int, bh as int, w as int, h as int) + shade_rows(m, bw as int, bh as int, w + SHADE_HSTEP)
                        == old(self).ops() + total,
                decreases span(h as int, top as int),
            {
                let ghost before = self.ops();
                let ghost rest = shade_column(m, bw as int, bh as int, w as int, h + 2 * SHADE_VSTEP);
                self.box_(Some(Point { x: w, y: h }), Some(Point { x: w + bw, y: h + bh }));
                self.box_(
                    Some(Point { x: w + SHADE_VSTEP, y: h + SHADE_VSTEP }),
                    Some(Point { x: w + bw + SHADE_VSTEP, y: h + bh + SHADE_VSTEP }),
                );
                assert(self.ops() + rest =~= before + shade_column(m, bw as int, bh as int, w as int, h as int));
                h = h + 2 * SHADE_VSTEP;
            }
            assert(self.ops() + shade_rows(m, bw as int, bh as int, w + SHADE_HSTEP) =~= self.ops() + shade_column(m, bw as int, bh as int, w as int, h as int) + shade_rows(m, bw as int, bh as int, w + SHADE_HSTEP));
            w = w + SHADE_HSTEP;
        }
        assert(self.ops() =~= self.ops() + shade_rows(m, bw as int, bh as int, w as int));
    }

    /// The distance between stripes for `shade`.
    fn stripe_step(&self, shade: Shade) -> (r: i64)
        requires
            self.metrics.wf(),
        ensures
            r == stripe_step(self.metrics, shade),
            0 <= r <= self.metrics.width,
    {
        match shade {
            Shade::TwentyFive => self.metrics.width / 3,
            Shade::Fifty => self.metrics.width / 6,
            Shade::SeventyFive => self.metrics.width / 12,
        }
    }

    /// Shading pattern of vertical stripes.
    pub fn vertical_shade(&mut self, shade: Shade)
        requires
            old(self).metrics.wf(),
        ensures
            drew(*old(self), *final(self), vertical_stripes(old(self).metrics, stripe_step(old(self).metrics, shade), 0)),
    {
        let m = self.metrics;
        let step = self.stripe_step(shade);
        let stroke = m.width / 30;
        if step <= 0 {
            assert(self.ops() =~= old(self).ops() + vertical_stripes(m, step as int, 0));
            return;
        }
        let ghost total = vertical_stripes(m, step as int, 0);
        let mut x: i64 = 0;
        while x < m.width
            invariant
                self.metrics == m,
                m.wf(),
                0 < step <= m.width,
                stroke == m.width / 30,
                0 <= x <= 2 * m.width,
                self.ops() + vertical_stripes(m, step as int, x as int) == old(self).ops() + total,
            decreases span(x as int, m.width as int),
        {
            let ghost before = self.ops();
            let y_bot = m.median - half(m.height);
            let y_top = y_bot + m.height;
            self.draw_rect(
                &Point { x, y: y_bot },
                &Point { x: x + stroke, y: y_bot },
                &Point { x: x + stroke, y: y_top },
                &Point { x, y: y_top },
            );
            assert(self.ops() + vertical_stripes(m, step as int, x + step) =~= before + vertical_stripes(m, step as int, x as int));
            x = x + step;
        }
        assert(self.ops() =~= self.ops() + vertical_stripes(m, step as int, x as int));
    }

    /// Shading pattern of 45-degree stripes over the block.
    pub fn striped_shade(&mut self, shade: Shade)
        requires
            old(self).metrics.wf(),
        ensures
            drew(*old(self), *final(self), striped_shade_ops(old(self).metrics, shade)),
    {
        let m = self.metrics;
        let step = self.stripe_step(shade);
        let stroke = m.width / 30;
        let leftmost_x = -m.block_height - stroke;
        if step <= 0 {
            assert(self.ops() =~= old(self).ops() + striped_shade_ops(m, shade));
            return;
        }
        let ghost total = diagonal_stripes(m, step as int, stroke as int, leftmost_x as int);
        let mut x: i64 = leftmost_x;
        while x < m.width + stroke
            invariant
                self.metrics == m,
                m.wf(),
                0 < step <= m.width,
                stroke == m.width / 30,
                -3 * COORD_LIMIT <= x <= 3 * COORD_LIMIT,
                self.ops() + diagonal_stripes(m, step as int, stroke as int, x as int) == old(self).ops() + total,
            decreases span(x as int, m.width + stroke),
        {
            let ghost before = self.ops();
            let mut stripe = stripe_at(&m, stroke, x);
            shift_coords(&mut stripe, None, Some(m.median - half(m.block_height)));
            assert(stripe@ =~= stripe_points(m, stroke as int, x as int));
            self.draw_poly(stripe.as_slice());
            assert(self.ops() + diagonal_stripes(m, step as int, stroke as int, x + step) =~= before + diagonal_stripes(m, step as int, stroke as int, x as int));
            x = x + step;
        }
        assert(self.ops() =~= self.ops() + diagonal_stripes(m, step as int, stroke as int, x as int));
    }
}

/// The corners of the stripe whose lower edge starts at `x1`, before the shift onto the
/// block.
fn stripe_at(m: &Metrics, stroke: i64, x1: i64) -> (r: Vec<Point>)
    requires
        m.wf(),
        0 <= stroke <= COORD_LIMIT,
        -3 * COORD_LIMIT <= x1 <= 3 * COORD_LIMIT,
    ensures
        r@.len() == 4,
        forall|i: int| 0 <= i < 4 ==> (#[trigger] r@[i]).x == stripe_points(*m, stroke as int, x1 as int)[i].x,
        forall|i: int| 0 <= i < 4 ==> (#[trigger] r@[i]).y + (m.median - m.block_height / 2)
            == stripe_points(*m, stroke as int, x1 as int)[i].y,
        forall|i: int| 0 <= i < 4 ==> -8 * COORD_LIMIT <= (#[trigger] r@[i]).y <= 8 * COORD_LIMIT,
{
    let w = m.width;
    let bh = m.block_height;
    let x2 = x1 + stroke;
    let mut bot_x1 = x1;
    let mut bot_x2 = x2;
    let mut top_x1 = x1 + bh;
    let mut top_x2 = x2 + bh;
    let mut bot_y1: i64 = 0;
    let mut bot_y2: i64 = 0;
    let mut top_y1 = bh;
    let mut top_y2 = bh;
    if bot_x1 <= 0 {
        bot_x1 = 0;
        bot_y1 = -x1;
    }
    if bot_x2 <= 0 {
        bot_x2 = 0;
        bot_y2 = -x2;
    }
    if top_x1 >= w {
        top_x1 = w;
        top_y1 = if x1 < w { w - x1 } else { x1 - w };
    }
    if top_x2 >= w {
        top_x2 = w;
        top_y2 = if x2 < w { w - x2 } else { x2 - w };
    }
    if top_y1 <= bot_y1 {
        top_y1 = bh;
        bot_y1 = bh;
    }
    if top_x1 <= bot_x1 {
        top_x1 = w;
        bot_x1 = w;
    }
    if bot_x2 >= w {
        bot_x2 = w;
        top_y2 = 0;
    }
    let r = vec![
        Point { x: bot_x1, y: bot_y1 },
        Point { x: bot_x2, y: bot_y2 },
        Point { x: top_x2, y: top_y2 },
        Point { x: top_x1, y: top_y1 },
    ];
    r
}

/// Moves every point by the given offsets; an offset left unset is zero.
fn shift_coords(coords: &mut Vec<Point>, x_shift: Option<i64>, y_shift: Option<i64>)
    requires
        x_shift matches Some(v) ==> -4 * COORD_LIMIT <= v <= 4 * COORD_LIMIT,
        y_shift matches Some(v) ==> -4 * COORD_LIMIT <= v <= 4 * COORD_LIMIT,
        forall|i: int| 0 <= i < old(coords)@.len() ==> -8 * COORD_LIMIT <= (#[trigger] old(coords)@[i]).x <= 8 * COORD_LIMIT,
        forall|i: int| 0 <= i < old(coords)@.len() ==> -8 * COORD_LIMIT <= (#[trigger] old(coords)@[i]).y <= 8 * COORD_LIMIT,
    ensures
        final(coords)@.len() == old(coords)@.len(),
        forall|i: int| 0 <= i < old(coords)@.len() ==> (#[trigger] final(coords)@[i]) == pt(
            old(coords)@[i].x + or_default(x_shift, 0),
            old(coords)@[i].y + or_default(y_shift, 0),
        ),
{
    let dx = match x_shift {
        Some(v) => v,
        None => 0,
    };
    let dy = match y_shift {
        Some(v) => v,
        None => 0,
    };
    let mut i: usize = 0;
    while i < coords.len()
        invariant
            i <= coords@.len(),
            coords@.len() == old(coords)@.len(),
            -4 * COORD_LIMIT <= dx <= 4 * COORD_LIMIT,
            -4 * COORD_LIMIT <= dy <= 4 * COORD_LIMIT,
            dx == or_default(x_shift, 0),
            dy == or_default(y_shift, 0),
            forall|j: int| i <= j < coords@.len() ==> coords@[j] == old(coords)@[j],
            forall|j: int| 0 <= j < old(coords)@.len() ==> -8 * COORD_LIMIT <= (#[trigger] old(coords)@[j]).x <= 8 * COORD_LIMIT,
            forall|j: int| 0 <= j < old(coords)@.len() ==> -8 * COORD_LIMIT <= (#[trigger] old(coords)@[j]).y <= 8 * COORD_LIMIT,
            forall|j: int| 0 <= j < i ==> (#[trigger] coords@[j]) == pt(old(coords)@[j].x + dx, old(coords)@[j].y + dy),
        decreases coords@.len() - i,
    {
        let p = coords[i];
        coords.set(i, Point { x: p.x + dx, y: p.y + dy });
        i += 1;
    }
}


/// The segment length and gap of a dashed line over a span in range, and every multiple
/// of the segment length up to `step` of them, stay in range.
proof fn lemma_segment_bounds(span: int, step: int)
    requires
        small(span),
        1 <= step <= COORD_LIMIT,
    ensures
        -2 * COORD_LIMIT <= span / step <= 2 * COORD_LIMIT,
        -2 * COORD_LIMIT <= (span / step) / step <= 2 * COORD_LIMIT,
        forall|i: int| 0 <= i <= step ==> -2 * COORD_LIMIT <= #[trigger] (i * (span / step)) <= 2 * COORD_LIMIT,
{
    let l = span / step;
    assert(step * l <= span < step * l + step && -COORD_LIMIT <= l <= COORD_LIMIT) by (nonlinear_arith)
        requires l == span / step, 1 <= step, small(span);
    assert(-COORD_LIMIT <= l / step <= COORD_LIMIT) by (nonlinear_arith)
        requires -COORD_LIMIT <= l <= COORD_LIMIT, 1 <= step;
    assert forall|i: int| 0 <= i <= step implies -2 * COORD_LIMIT <= #[trigger] (i * l) <= 2 * COORD_LIMIT by {
        if l >= 0 {
            assert(0 <= i * l <= step * l) by (nonlinear_arith)
                requires 0 <= i <= step, l >= 0;
        } else {
            assert(step * l <= i * l <= 0) by (nonlinear_arith)
                requires 0 <= i <= step, l < 0;
        }
    }
}

} // verus!
