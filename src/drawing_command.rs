//! The drawing engine: each primitive appends the path operations that draw it.
use vstd::prelude::*;

use crate::geometry::{
    div_floor, half, pt, small, wide, Direction, Metrics, PathOp, Point, Side, COORD_LIMIT,
    KAPPA_SCALE, WIDE_LIMIT,
};

verus! {

/// Largest magnitude of a median or an offset that a bar is drawn at.
pub const MID_LIMIT: i64 = 4398046511104;

pub open spec fn mid(v: int) -> bool {
    -MID_LIMIT <= v <= MID_LIMIT
}

pub open spec fn opt_small(o: Option<i64>) -> bool {
    o matches Some(v) ==> small(v as int)
}

pub open spec fn opt_mid(o: Option<i64>) -> bool {
    o matches Some(v) ==> mid(v as int)
}

pub open spec fn opt_wide(o: Option<i64>) -> bool {
    o matches Some(v) ==> wide(v as int)
}

/// The value held, or `d` where none is.
pub open spec fn or_default(o: Option<i64>, d: int) -> int {
    match o {
        Some(v) => v as int,
        None => d,
    }
}

/// Move to `a`, line to `b`, `c` and `d`, close.
pub open spec fn rect_ops(a: Point, b: Point, c: Point, d: Point) -> Seq<PathOp> {
    seq![PathOp::MoveTo(a), PathOp::LineTo(b), PathOp::LineTo(c), PathOp::LineTo(d), PathOp::ClosePath]
}

/// A horizontal line of thickness `stroke`, extended by half of each butt at its ends.
pub open spec fn hline(start: Point, end: Point, stroke: int, butt_left: int, butt_right: int) -> Seq<
    PathOp,
> {
    rect_ops(
        pt(start.x - butt_left / 2, end.y - stroke / 2),
        pt(end.x + butt_right / 2, end.y - stroke / 2),
        pt(end.x + butt_right / 2, end.y + stroke / 2),
        pt(start.x - butt_left / 2, start.y + stroke / 2),
    )
}

/// A vertical line of thickness `stroke`, extended by half of each butt at its ends.
pub open spec fn vline(start: Point, end: Point, stroke: int, butt_bot: int, butt_top: int) -> Seq<
    PathOp,
> {
    rect_ops(
        pt(start.x - stroke / 2, start.y - butt_bot / 2),
        pt(start.x + stroke / 2, start.y - butt_bot / 2),
        pt(start.x + stroke / 2, end.y + butt_top / 2),
        pt(start.x - stroke / 2, end.y + butt_top / 2),
    )
}

/// A horizontal bar across the glyph at `median`.
pub open spec fn hor_bar_ops(m: Metrics, fatness: int, median: int, butt_left: int, butt_right: int) -> Seq<
    PathOp,
> {
    hline(pt(0, median), pt(m.width as int, median), m.stroke * fatness, butt_left, butt_right)
}

/// A vertical bar through the glyph's center.
pub open spec fn vert_bar_ops(m: Metrics, fatness: int, butt_bot: int, butt_top: int) -> Seq<PathOp> {
    vline(
        pt(m.width / 2, m.median - m.height / 2),
        pt(m.width / 2, m.median + m.height / 2),
        m.stroke * fatness,
        butt_bot,
        butt_top,
    )
}

/// The butt on the side of a half bar that faces the glyph's center: a butt left at the
/// metric's value is dropped, unless that value is also the stroke.
pub open spec fn inner_butt(m: Metrics, butt: int) -> int {
    if butt == m.butt && butt != m.stroke {
        0
    } else {
        butt
    }
}

/// A horizontal bar over the left or the right half of the glyph.
pub open spec fn hor_half_bar_ops(
    m: Metrics,
    side: Side,
    fatness: int,
    median: int,
    butt_left: int,
    butt_right: int,
) -> Seq<PathOp> {
    if side.is_left() {
        hline(
            pt(0, median),
            pt(m.width / 2, median),
            m.stroke * fatness,
            butt_left,
            inner_butt(m, butt_right),
        )
    } else {
        hline(
            pt(m.width / 2, median),
            pt(m.width as int, median),
            m.stroke * fatness,
            inner_butt(m, butt_left),
            butt_right,
        )
    }
}

/// A vertical bar over the top or the bottom half of the glyph.
pub open spec fn vert_half_bar_ops(m: Metrics, side: Side, fatness: int, butt_bot: int, butt_top: int) -> Seq<
    PathOp,
> {
    if side.is_top() {
        vline(
            pt(m.width / 2, m.median as int),
            pt(m.width / 2, m.median + m.height / 2),
            m.stroke * fatness,
            butt_bot,
            butt_top,
        )
    } else {
        vline(
            pt(m.width / 2, m.median - m.height / 2),
            pt(m.width / 2, m.median as int),
            m.stroke * fatness,
            butt_bot,
            butt_top,
        )
    }
}

/// Two horizontal bars, `stroke * fatness` above and below the median.
pub open spec fn hor_split_bar_ops(m: Metrics, fatness: int, butt_left: int, butt_right: int) -> Seq<
    PathOp,
> {
    hor_bar_ops(m, fatness, m.median + m.stroke * fatness, butt_left, butt_right) + hor_bar_ops(
        m,
        fatness,
        m.median - m.stroke * fatness,
        butt_left,
        butt_right,
    )
}

/// Two vertical bars, `stroke * fatness` left and right of the center.
pub open spec fn vert_split_bar_ops(m: Metrics, fatness: int, butt_bot: int, butt_top: int) -> Seq<
    PathOp,
> {
    let w = m.stroke * fatness;
    vline(
        pt(m.width / 2 - w, m.median - m.height / 2),
        pt(m.width / 2 - w, m.median + m.height / 2),
        w,
        butt_bot,
        butt_top,
    ) + vline(
        pt(m.width / 2 + w, m.median - m.height / 2),
        pt(m.width / 2 + w, m.median + m.height / 2),
        w,
        butt_bot,
        butt_top,
    )
}

/// Two half bars, `stroke * fatness` above and below the median.
pub open spec fn hor_split_half_bar_ops(
    m: Metrics,
    side: Side,
    fatness: int,
    butt_left: int,
    butt_right: int,
) -> Seq<PathOp> {
    hor_half_bar_ops(m, side, fatness, m.median + m.stroke * fatness, butt_left, butt_right)
        + hor_half_bar_ops(m, side, fatness, m.median - m.stroke * fatness, butt_left, butt_right)
}

/// Two half-height vertical bars, `stroke * fatness` left and right of the center.
pub open spec fn vert_split_half_bar_ops(
    m: Metrics,
    side: Side,
    fatness: int,
    butt_bot: int,
    butt_top: int,
) -> Seq<PathOp> {
    let w = m.stroke * fatness;
    let (lo, hi) = if side.is_top() {
        (m.median as int, m.median + m.height / 2)
    } else {
        (m.median - m.height / 2, m.median as int)
    };
    vline(pt(m.width / 2 - w, lo), pt(m.width / 2 - w, hi), w, butt_bot, butt_top) + vline(
        pt(m.width / 2 + w, lo),
        pt(m.width / 2 + w, hi),
        w,
        butt_bot,
        butt_top,
    )
}

/// Outer stroke of a double-stroked corner.
pub open spec fn outer_corner_ops(m: Metrics, side: Side, fatness: int, corner_median: int) -> Seq<
    PathOp,
> {
    let w = m.stroke * fatness;
    let cm = if side.is_top() {
        corner_median - w
    } else {
        corner_median + w
    };
    let bar = if side.is_left() {
        hor_half_bar_ops(m, side, 1, cm, m.butt as int, m.stroke * 3)
    } else {
        hor_half_bar_ops(m, side, 1, cm, m.stroke * 3, m.butt as int)
    };
    let x = if side.is_left() {
        m.width / 2 + w
    } else {
        m.width / 2 - w
    };
    let post = if side.is_top() {
        vline(pt(x, cm + w), pt(x, cm + w + m.height / 2), w, m.stroke * 3, 0)
    } else {
        vline(pt(x, cm - w - m.height / 2), pt(x, cm - w), w, 0, m.stroke * 3)
    };
    bar + post
}

/// Inner stroke of a double-stroked corner; its negative butts leave a notch.
pub open spec fn inner_corner_ops(m: Metrics, side: Side, fatness: int, corner_median: int) -> Seq<
    PathOp,
> {
    let w = m.stroke * fatness;
    let cm = if side.is_top() {
        corner_median + w
    } else {
        corner_median - w
    };
    let bar = if side.is_left() {
        hor_half_bar_ops(m, side, 1, cm, m.butt as int, -m.stroke)
    } else {
        hor_half_bar_ops(m, side, 1, cm, -m.stroke, m.butt as int)
    };
    let x = if side.is_left() {
        m.width / 2 - w
    } else {
        m.width / 2 + w
    };
    let post = if side.is_top() {
        vline(pt(x, cm - w), pt(x, cm - w + m.height / 2), w, -m.stroke, 0)
    } else {
        vline(pt(x, cm + w - m.height / 2), pt(x, cm + w), w, -m.stroke, 0)
    };
    bar + post
}

/// An axis-aligned rectangle with corners `start` and `end`.
pub open spec fn box_ops(start: Point, end: Point) -> Seq<PathOp> {
    rect_ops(
        pt(start.x as int, start.y as int),
        pt(end.x as int, start.y as int),
        pt(end.x as int, end.y as int),
        pt(start.x as int, end.y as int),
    )
}

/// `v` scaled by a kappa given in units of `1 / KAPPA_SCALE`, rounded down.
pub open spec fn kap(v: int, kappa: int) -> int {
    (v * kappa) / (KAPPA_SCALE as int)
}

/// `v`, negated where `pos` is false.
pub open spec fn fl(v: int, pos: bool) -> int {
    if pos {
        v
    } else {
        -v
    }
}

/// A rounded corner: two straight caps and the inner and outer quarter arcs, each one
/// cubic Bezier segment; `side` gives the quadrant.
pub open spec fn arc_ops(
    m: Metrics,
    start: Point,
    end: Point,
    side: Side,
    stroke: int,
    radius: int,
    butt: int,
) -> Seq<PathOp> {
    let up = side.is_top();
    let lf = side.is_left();
    let hs = stroke / 2;
    let hb = butt / 2;
    let ki = kap(radius - hs, m.kappa as int);
    let ko = kap(radius + hs, m.kappa as int);
    let csx = start.x as int;
    let csy = end.y - fl(radius, up);
    let cex = start.x + fl(radius, lf);
    let cey = end.y as int;
    seq![
        PathOp::MoveTo(pt(start.x - fl(hs, lf), start.y as int)),
        PathOp::LineTo(pt(start.x + fl(hs, lf), start.y as int)),
        PathOp::LineTo(pt(csx + fl(hs, lf), csy)),
        PathOp::CurveTo(
            pt(csx + fl(hs, lf), csy + fl(ki, up)),
            pt(cex - fl(ki, lf), cey - fl(hs, up)),
            pt(cex, cey - fl(hs, up)),
        ),
        PathOp::LineTo(pt(end.x + fl(hb, lf), end.y - fl(hs, up))),
        PathOp::LineTo(pt(end.x + fl(hb, lf), end.y + fl(hs, up))),
        PathOp::LineTo(pt(cex, cey + fl(hs, up))),
        PathOp::CurveTo(
            pt(cex - fl(ko, lf), cey + fl(hs, up)),
            pt(csx - fl(hs, lf), csy + fl(ko, up)),
            pt(csx - fl(hs, lf), csy),
        ),
        PathOp::ClosePath,
    ]
}

/// `r` is the square root of `n`, rounded down.
pub open spec fn is_floor_sqrt(r: int, n: int) -> bool {
    r >= 0 && r * r <= n < (r + 1) * (r + 1)
}

/// The square root of `n`, rounded down.
pub open spec fn isqrt(n: int) -> int {
    choose|r: int| is_floor_sqrt(r, n)
}

/// A floor square root is unique.
pub proof fn lemma_isqrt_unique(r: int, n: int)
    requires
        is_floor_sqrt(r, n),
    ensures
        isqrt(n) == r,
{
    let q = isqrt(n);
    assert(is_floor_sqrt(q, n));
    if q < r {
        assert((q + 1) * (q + 1) <= r * r) by (nonlinear_arith)
            requires q >= 0, q < r;
    } else if q > r {
        assert((r + 1) * (r + 1) <= q * q) by (nonlinear_arith)
            requires r >= 0, r < q;
    }
}

/// The length of the glyph's diagonal (width by em height), rounded down.
pub open spec fn diagonal_length(m: Metrics) -> int {
    isqrt(m.width * m.width + m.em_height * m.em_height)
}

/// A stroke of constant perpendicular thickness from `start` to `end`, for a diagonal of
/// length `d`.
pub open spec fn diagonal_ops(m: Metrics, start: Point, end: Point, direction: Direction, d: int) -> Seq<
    PathOp,
> {
    let hs = m.stroke / 2;
    let xdist = (hs * d) / (m.em_height as int);
    let ydist = (hs * d) / (m.width as int);
    match direction {
        Direction::TopDown => seq![
            PathOp::MoveTo(pt(start.x + xdist, start.y as int)),
            PathOp::LineTo(pt(start.x as int, start.y as int)),
            PathOp::LineTo(pt(start.x as int, start.y - ydist)),
            PathOp::LineTo(pt(end.x - xdist, end.y as int)),
            PathOp::LineTo(pt(end.x as int, end.y as int)),
            PathOp::LineTo(pt(end.x as int, end.y + ydist)),
            PathOp::ClosePath,
        ],
        Direction::BottomUp => seq![
            PathOp::MoveTo(pt(start.x as int, start.y + ydist)),
            PathOp::LineTo(pt(start.x as int, start.y as int)),
            PathOp::LineTo(pt(start.x + xdist, start.y as int)),
            PathOp::LineTo(pt(end.x as int, end.y - ydist)),
            PathOp::LineTo(pt(end.x as int, end.y as int)),
            PathOp::LineTo(pt(end.x - xdist, end.y as int)),
            PathOp::ClosePath,
        ],
    }
}

/// How many of the points are distinct.
pub open spec fn distinct_count(s: Seq<Point>) -> nat
    decreases s.len(),
{
    if s.len() == 0 {
        0
    } else {
        distinct_count(s.drop_last()) + if s.drop_last().contains(s.last()) {
            0nat
        } else {
            1nat
        }
    }
}

/// A line to each of the first `k` points, after the first, that differs from the one
/// before it.
pub open spec fn poly_lines(s: Seq<Point>, k: int) -> Seq<PathOp>
    decreases k,
{
    if k <= 1 {
        Seq::empty()
    } else {
        poly_lines(s, k - 1) + if s[k - 1] != s[k - 2] {
            seq![PathOp::LineTo(s[k - 1])]
        } else {
            Seq::empty()
        }
    }
}

/// A closed polygon through the points, where at least three of them are distinct;
/// nothing otherwise.
pub open spec fn poly_ops(s: Seq<Point>) -> Seq<PathOp> {
    if distinct_count(s) >= 3 {
        seq![PathOp::MoveTo(s[0])] + poly_lines(s, s.len() as int) + seq![PathOp::ClosePath]
    } else {
        Seq::empty()
    }
}

/// Relies on num::integer::sqrt: for a non-negative argument the result `r` satisfies
/// `r * r <= n < (r + 1) * (r + 1)`.
#[verifier::external_body]
fn floor_sqrt(n: u64) -> (r: u64)
    ensures
        r * r <= n < (r + 1) * (r + 1),
{
    num::integer::sqrt(n)
}

/// Draws into an owned path, against fixed metrics.
pub struct DrawingCommand {
    pub metrics: Metrics,
    /// The operations drawn so far.
    pub path: Vec<PathOp>,
}

/// `after` holds the metrics of `before` and its path followed by `ops`.
pub open spec fn drew(before: DrawingCommand, after: DrawingCommand, ops: Seq<PathOp>) -> bool {
    after.metrics == before.metrics && after.ops() == before.ops() + ops
}

impl DrawingCommand {
    /// The operations drawn so far.
    pub open spec fn ops(&self) -> Seq<PathOp> {
        self.path@
    }

    pub fn new(metrics: Metrics) -> (r: DrawingCommand)
        ensures
            r.metrics == metrics,
            r.ops() == Seq::<PathOp>::empty(),
    {
        DrawingCommand { metrics, path: Vec::new() }
    }

    pub fn path(&self) -> (r: &Vec<PathOp>)
        ensures
            r@ == self.ops(),
    {
        &self.path
    }

    pub fn into_path(self) -> (r: Vec<PathOp>)
        ensures
            r@ == self.ops(),
    {
        self.path
    }

    pub(crate) fn emit(&mut self, op: PathOp)
        ensures
            drew(*old(self), *final(self), seq![op]),
    {
        self.path.push(op);
        assert(self.ops() =~= old(self).ops() + seq![op]);
    }

    /// General drawing function for a rectangle.
    pub(crate) fn draw_rect(&mut self, bot_left: &Point, bot_right: &Point, top_right: &Point, top_left: &Point)
        ensures
            drew(*old(self), *final(self), rect_ops(*bot_left, *bot_right, *top_right, *top_left)),
    {
        self.emit(PathOp::MoveTo(*bot_left));
        self.emit(PathOp::LineTo(*bot_right));
        self.emit(PathOp::LineTo(*top_right));
        self.emit(PathOp::LineTo(*top_left));
        self.emit(PathOp::ClosePath);
        assert(self.ops() =~= old(self).ops() + rect_ops(*bot_left, *bot_right, *top_right, *top_left));
    }

    /// General drawing function for a horizontal line; a butt left unset is the metric's.
    pub fn hor_line(
        &mut self,
        start: &Point,
        end: &Point,
        stroke: i64,
        butt_left: Option<i64>,
        butt_right: Option<i64>,
    )
        requires
            start.is_wide(),
            end.is_wide(),
            wide(stroke as int),
            opt_wide(butt_left),
            opt_wide(butt_right),
            small(old(self).metrics.butt as int),
        ensures
            drew(
                *old(self),
                *final(self),
                hline(
                    *start,
                    *end,
                    stroke as int,
                    or_default(butt_left, old(self).metrics.butt as int),
                    or_default(butt_right, old(self).metrics.butt as int),
                ),
            ),
    {
        let butt_left = match butt_left {
            Some(v) => v,
            None => self.metrics.butt,
        };
        let butt_right = match butt_right {
            Some(v) => v,
            None => self.metrics.butt,
        };
        let hl = half(butt_left);
        let hr = half(butt_right);
        let hs = half(stroke);
        let bot_left = Point { x: start.x - hl, y: end.y - hs };
        let bot_right = Point { x: end.x + hr, y: end.y - hs };
        let top_right = Point { x: end.x + hr, y: end.y + hs };
        let top_left = Point { x: start.x - hl, y: start.y + hs };
        self.draw_rect(&bot_left, &bot_right, &top_right, &top_left);
    }

    /// General drawing function for a vertical line; a butt left unset is zero.
    pub fn vert_line(
        &mut self,
        start: &Point,
        end: &Point,
        stroke: i64,
        butt_bot: Option<i64>,
        butt_top: Option<i64>,
    )
        requires
            start.is_wide(),
            end.is_wide(),
            wide(stroke as int),
            opt_wide(butt_bot),
            opt_wide(butt_top),
        ensures
            drew(
                *old(self),
                *final(self),
                vline(*start, *end, stroke as int, or_default(butt_bot, 0), or_default(butt_top, 0)),
            ),
    {
        let butt_bot = match butt_bot {
            Some(v) => v,
            None => 0,
        };
        let butt_top = match butt_top {
            Some(v) => v,
            None => 0,
        };
        let hb = half(butt_bot);
        let ht = half(butt_top);
        let hs = half(stroke);
        let bot_left = Point { x: start.x - hs, y: start.y - hb };
        let bot_right = Point { x: start.x + hs, y: start.y - hb };
        let top_right = Point { x: start.x + hs, y: end.y + ht };
        let top_left = Point { x: start.x - hs, y: end.y + ht };
        self.draw_rect(&bot_left, &bot_right, &top_right, &top_left);
    }

    /// A box; the corners default to the block origin and the block top.
    pub fn box_(&mut self, start: Option<Point>, end: Option<Point>)
        ensures
            drew(
                *old(self),
                *final(self),
                box_ops(
                    match start {
                        Some(p) => p,
                        None => old(self).metrics.block_origin,
                    },
                    match end {
                        Some(p) => p,
                        None => old(self).metrics.block_top,
                    },
                ),
            ),
    {
        let start = match start {
            Some(p) => p,
            None => self.metrics.block_origin,
        };
        let end = match end {
            Some(p) => p,
            None => self.metrics.block_top,
        };
        let bot_left = Point { x: start.x, y: start.y };
        let bot_right = Point { x: end.x, y: start.y };
        let top_right = Point { x: end.x, y: end.y };
        let top_left = Point { x: start.x, y: end.y };
        self.draw_rect(&bot_left, &bot_right, &top_right, &top_left);
    }

    /// Horizontal bar at the median, or at `median`, across the glyph.
    pub fn hor_bar(
        &mut self,
        fatness: Option<i64>,
        median: Option<i64>,
        butt_left: Option<i64>,
        butt_right: Option<i64>,
    )
        requires
            old(self).metrics.wf(),
            opt_small(fatness),
            opt_mid(median),
            opt_mid(butt_left),
            opt_mid(butt_right),
        ensures
            drew(
                *old(self),
                *final(self),
                hor_bar_ops(
                    old(self).metrics,
                    or_default(fatness, 1),
                    or_default(median, old(self).metrics.median as int),
                    or_default(butt_left, old(self).metrics.butt as int),
                    or_default(butt_right, old(self).metrics.butt as int),
                ),
            ),
    {
        let fatness = match fatness {
            Some(v) => v,
            None => 1,
        };
        let median = match median {
            Some(v) => v,
            None => self.metrics.median,
        };
        let butt_left = match butt_left {
            Some(v) => v,
            None => self.metrics.butt,
        };
        let butt_right = match butt_right {
            Some(v) => v,
            None => self.metrics.butt,
        };
        let stroke = self.thick(fatness);
        let start = Point { x: 0, y: median };
        let end = Point { x: self.metrics.width, y: median };
        self.hor_line(&start, &end, stroke, Some(butt_left), Some(butt_right));
    }

    /// `stroke * fatness`.
    fn thick(&self, fatness: i64) -> (r: i64)
        requires
            self.metrics.wf(),
            small(fatness as int),
        ensures
            r == self.metrics.stroke * fatness,
            -MID_LIMIT / 4 <= r <= MID_LIMIT / 4,
    {
        let s = self.metrics.stroke;
        assert(-MID_LIMIT / 4 <= s * fatness <= MID_LIMIT / 4) by (nonlinear_arith)
            requires small(s as int), small(fatness as int);
        s * fatness
    }

    /// Vertical bar through the center, over the height of line elements.
    pub fn vert_bar(&mut self, fatness: Option<i64>, butt_bot: Option<i64>, butt_top: Option<i64>)
        requires
            old(self).metrics.wf(),
            opt_small(fatness),
            opt_small(butt_bot),
            opt_small(butt_top),
        ensures
            drew(
                *old(self),
                *final(self),
                vert_bar_ops(
                    old(self).metrics,
                    or_default(fatness, 1),
                    or_default(butt_bot, 0),
                    or_default(butt_top, 0),
                ),
            ),
    {
        let fatness = match fatness {
            Some(v) => v,
            None => 1,
        };
        let stroke = self.thick(fatness);
        let m = self.metrics;
        let cx = half(m.width);
        let hh = half(m.height);
        let start = Point { x: cx, y: m.median - hh };
        let end = Point { x: cx, y: m.median + hh };
        self.vert_line(&start, &end, stroke, butt_bot, butt_top);
    }

    /// Halfwidth horizontal bar, left or right.
    pub fn hor_half_bar(
        &mut self,
        side: Side,
        fatness: Option<i64>,
        median: Option<i64>,
        butt_left: Option<i64>,
        butt_right: Option<i64>,
    )
        requires
            old(self).metrics.wf(),
            opt_small(fatness),
            opt_mid(median),
            opt_mid(butt_left),
            opt_mid(butt_right),
        ensures
            drew(
                *old(self),
                *final(self),
                hor_half_bar_ops(
                    old(self).metrics,
                    side,
                    or_default(fatness, 1),
                    or_default(median, old(self).metrics.median as int),
                    or_default(butt_left, old(self).metrics.butt as int),
                    or_default(butt_right, old(self).metrics.butt as int),
                ),
            ),
    {
        let m = self.metrics;
        let fatness = match fatness {
            Some(v) => v,
            None => 1,
        };
        let median = match median {
            Some(v) => v,
            None => m.median,
        };
        let butt_left = match butt_left {
            Some(v) => v,
            None => m.butt,
        };
        let butt_right = match butt_right {
            Some(v) => v,
            None => m.butt,
        };
        let stroke = self.thick(fatness);
        let cx = half(m.width);
        match side {
            Side::TopLeft | Side::BottomLeft => {
                let butt_right = if butt_right == m.butt && butt_right != m.stroke {
                    0
                } else {
                    butt_right
                };
                let start = Point { x: 0, y: median };
                let end = Point { x: cx, y: median };
                self.hor_line(&start, &end, stroke, Some(butt_left), Some(butt_right));
            },
            _ => {
                let butt_left = if butt_left == m.butt && butt_left != m.stroke {
                    0
                } else {
                    butt_left
                };
                let start = Point { x: cx, y: median };
                let end = Point { x: m.width, y: median };
                self.hor_line(&start, &end, stroke, Some(butt_left), Some(butt_right));
            },
        }
    }

    /// Half-height vertical bar, top or bottom.
    pub fn vert_half_bar(
        &mut self,
        side: Side,
        fatness: Option<i64>,
        butt_bot: Option<i64>,
        butt_top: Option<i64>,
    )
        requires
            old(self).metrics.wf(),
            opt_small(fatness),
            opt_small(butt_bot),
            opt_small(butt_top),
        ensures
            drew(
                *old(self),
                *final(self),
                vert_half_bar_ops(
                    old(self).metrics,
                    side,
                    or_default(fatness, 1),
                    or_default(butt_bot, 0),
                    or_default(butt_top, 0),
                ),
            ),
    {
        let m = self.metrics;
        let fatness = match fatness {
            Some(v) => v,
            None => 1,
        };
        let stroke = self.thick(fatness);
        let cx = half(m.width);
        let hh = half(m.height);
        match side {
            Side::TopLeft | Side::TopRight => {
                let start = Point { x: cx, y: m.median };
                let end = Point { x: cx, y: m.median + hh };
                self.vert_line(&start, &end, stroke, butt_bot, butt_top);
            },
            _ => {
                let start = Point { x: cx, y: m.median - hh };
                let end = Point { x: cx, y: m.median };
                self.vert_line(&start, &end, stroke, butt_bot, butt_top);
            },
        }
    }
}


/// The number of distinct elements of `s`.
fn dedup(s: &[Point]) -> (r: usize)
    ensures
        r == distinct_count(s@),
{
    let mut c: usize = 0;
    let mut idx: usize = 0;
    while idx < s.len()
        invariant
            idx <= s@.len(),
            c == distinct_count(s@.subrange(0, idx as int)),
            c <= idx,
        decreases s@.len() - idx,
    {
        let mut found = false;
        let mut j: usize = 0;
        while j < idx
            invariant
                j <= idx < s@.len(),
                found == exists|k: int| 0 <= k < j && s@[k] == s@[idx as int],
            decreases idx - j,
        {
            if s[j] == s[idx] {
                found = true;
            }
            j += 1;
        }
        let ghost pre = s@.subrange(0, idx as int);
        let ghost next = s@.subrange(0, idx + 1);
        assert(next.drop_last() =~= pre);
        assert(next.last() == s@[idx as int]);
        assert(pre.contains(s@[idx as int]) == found) by {
            if found {
                let k = choose|k: int| 0 <= k < idx && s@[k] == s@[idx as int];
                assert(pre[k] == s@[idx as int]);
            }
            if pre.contains(s@[idx as int]) {
                let k = choose|k: int| 0 <= k < pre.len() && pre[k] == s@[idx as int];
                assert(s@[k] == s@[idx as int]);
            }
        }
        if !found {
            c += 1;
        }
        idx += 1;
    }
    assert(s@.subrange(0, s@.len() as int) =~= s@);
    c
}

impl DrawingCommand {
    /// General drawing function for a polygon: nothing is drawn unless at least three of
    /// the points are distinct, and a point equal to the one before it is skipped.
    pub fn draw_poly(&mut self, coords: &[Point])
        ensures
            drew(*old(self), *final(self), poly_ops(coords@)),
    {
        if dedup(coords) >= 3 {
            self.emit(PathOp::MoveTo(coords[0]));
            let mut i: usize = 1;
            while i < coords.len()
                invariant
                    1 <= i <= coords@.len(),
                    self.metrics == old(self).metrics,
                    self.ops() == old(self).ops() + seq![PathOp::MoveTo(coords@[0])] + poly_lines(coords@, i as int),
                decreases coords@.len() - i,
            {
                if coords[i] != coords[i - 1] {
                    self.emit(PathOp::LineTo(coords[i]));
                }
                proof {
                    assert(poly_lines(coords@, i + 1) == poly_lines(coords@, i as int) + if coords@[i as int] != coords@[i - 1] {
                        seq![PathOp::LineTo(coords@[i as int])]
                    } else {
                        Seq::empty()
                    });
                }
                assert(self.ops() =~= old(self).ops() + seq![PathOp::MoveTo(coords@[0])] + poly_lines(coords@, i + 1));
                i += 1;
            }
            self.emit(PathOp::ClosePath);
            assert(self.ops() =~= old(self).ops() + poly_ops(coords@));
        } else {
            assert(self.ops() =~= old(self).ops() + poly_ops(coords@));
        }
    }

    /// General drawing function for an arc: two caps joined by two curves.
    fn draw_arc(
        &mut self,
        start1: &Point,
        start2: &Point,
        end1: &Point,
        end2: &Point,
        iastart: &Point,
        iapoint1: &Point,
        iapoint2: &Point,
        iaend: &Point,
        oastart: &Point,
        oapoint1: &Point,
        oapoint2: &Point,
        oaend: &Point,
    )
        ensures
            drew(
                *old(self),
                *final(self),
                seq![
                    PathOp::MoveTo(*start1),
                    PathOp::LineTo(*start2),
                    PathOp::LineTo(*iastart),
                    PathOp::CurveTo(*iapoint1, *iapoint2, *iaend),
                    PathOp::LineTo(*end1),
                    PathOp::LineTo(*end2),
                    PathOp::LineTo(*oastart),
                    PathOp::CurveTo(*oapoint1, *oapoint2, *oaend),
                    PathOp::ClosePath,
                ],
            ),
    {
        self.emit(PathOp::MoveTo(*start1));
        self.emit(PathOp::LineTo(*start2));
        self.emit(PathOp::LineTo(*iastart));
        self.emit(PathOp::CurveTo(*iapoint1, *iapoint2, *iaend));
        self.emit(PathOp::LineTo(*end1));
        self.emit(PathOp::LineTo(*end2));
        self.emit(PathOp::LineTo(*oastart));
        self.emit(PathOp::CurveTo(*oapoint1, *oapoint2, *oaend));
        self.emit(PathOp::ClosePath);
        assert(self.ops() =~= old(self).ops() + seq![
            PathOp::MoveTo(*start1),
            PathOp::LineTo(*start2),
            PathOp::LineTo(*iastart),
            PathOp::CurveTo(*iapoint1, *iapoint2, *iaend),
            PathOp::LineTo(*end1),
            PathOp::LineTo(*end2),
            PathOp::LineTo(*oastart),
            PathOp::CurveTo(*oapoint1, *oapoint2, *oaend),
            PathOp::ClosePath,
        ]);
    }
}


/// `v`, negated where `pos` is false.
fn flip(v: i64, pos: bool) -> (r: i64)
    requires
        v > i64::MIN,
    ensures
        r == fl(v as int, pos),
{
    if pos {
        v
    } else {
        -v
    }
}

/// `v` scaled by `kappa / KAPPA_SCALE`, rounded down.
fn scale_kappa(v: i64, kappa: i64) -> (r: i64)
    requires
        wide(v as int),
        0 <= kappa <= KAPPA_SCALE,
    ensures
        r == kap(v as int, kappa as int),
        -WIDE_LIMIT <= r <= WIDE_LIMIT,
{
    assert(-WIDE_LIMIT * KAPPA_SCALE <= v * kappa <= WIDE_LIMIT * KAPPA_SCALE) by (nonlinear_arith)
        requires wide(v as int), 0 <= kappa <= KAPPA_SCALE;
    let r = div_floor(v * kappa, KAPPA_SCALE);
    assert(-WIDE_LIMIT <= r <= WIDE_LIMIT) by (nonlinear_arith)
        requires
            r == (v * kappa) / 10000,
            -WIDE_LIMIT * 10000 <= v * kappa <= WIDE_LIMIT * 10000;
    r
}

impl DrawingCommand {
    /// Double-stroked horizontal bar.
    pub fn hor_split_bar(&mut self, fatness: Option<i64>, butt_left: Option<i64>, butt_right: Option<i64>)
        requires
            old(self).metrics.wf(),
            opt_small(fatness),
            opt_small(butt_left),
            opt_small(butt_right),
        ensures
            drew(
                *old(self),
                *final(self),
                hor_split_bar_ops(
                    old(self).metrics,
                    or_default(fatness, 1),
                    or_default(butt_left, old(self).metrics.butt as int),
                    or_default(butt_right, old(self).metrics.butt as int),
                ),
            ),
    {
        let m = self.metrics;
        let fatness = match fatness {
            Some(v) => v,
            None => 1,
        };
        let butt_left = match butt_left {
            Some(v) => v,
            None => m.butt,
        };
        let butt_right = match butt_right {
            Some(v) => v,
            None => m.butt,
        };
        let w = self.thick(fatness);
        let top_median = m.median + w;
        let bottom_median = m.median - w;
        self.hor_bar(Some(fatness), Some(top_median), Some(butt_left), Some(butt_right));
        self.hor_bar(Some(fatness), Some(bottom_median), Some(butt_left), Some(butt_right));
        assert(self.ops() =~= old(self).ops() + hor_split_bar_ops(m, fatness as int, butt_left as int, butt_right as int));
    }

    /// Double-stroked vertical bar.
    pub fn vert_split_bar(&mut self, fatness: Option<i64>, butt_bot: Option<i64>, butt_top: Option<i64>)
        requires
            old(self).metrics.wf(),
            opt_small(fatness),
            opt_small(butt_bot),
            opt_small(butt_top),
        ensures
            drew(
                *old(self),
                *final(self),
                vert_split_bar_ops(
                    old(self).metrics,
                    or_default(fatness, 1),
                    or_default(butt_bot, 0),
                    or_default(butt_top, 0),
                ),
            ),
    {
        let m = self.metrics;
        let fatness = match fatness {
            Some(v) => v,
            None => 1,
        };
        let butt_bot = match butt_bot {
            Some(v) => v,
            None => 0,
        };
        let butt_top = match butt_top {
            Some(v) => v,
            None => 0,
        };
        let w = self.thick(fatness);
        let cx = half(m.width);
        let hh = half(m.height);
        let leftx = cx - w;
        let rightx = cx + w;
        self.vert_line(
            &Point { x: leftx, y: m.median - hh },
            &Point { x: leftx, y: m.median + hh },
            w,
            Some(butt_bot),
            Some(butt_top),
        );
        self.vert_line(
            &Point { x: rightx, y: m.median - hh },
            &Point { x: rightx, y: m.median + hh },
            w,
            Some(butt_bot),
            Some(butt_top),
        );
        assert(self.ops() =~= old(self).ops() + vert_split_bar_ops(m, fatness as int, butt_bot as int, butt_top as int));
    }

    /// Double-stroked halfwidth horizontal bar, left or right.
    pub fn hor_split_half_bar(
        &mut self,
        side: Side,
        fatness: Option<i64>,
        butt_left: Option<i64>,
        butt_right: Option<i64>,
    )
        requires
            old(self).metrics.wf(),
            opt_small(fatness),
            opt_small(butt_left),
            opt_small(butt_right),
        ensures
            drew(
                *old(self),
                *final(self),
                hor_split_half_bar_ops(
                    old(self).metrics,
                    side,
                    or_default(fatness, 1),
                    or_default(butt_left, old(self).metrics.butt as int),
                    or_default(butt_right, old(self).metrics.butt as int),
                ),
            ),
    {
        let m = self.metrics;
        let fatness = match fatness {
            Some(v) => v,
            None => 1,
        };
        let butt_left = match butt_left {
            Some(v) => v,
            None => m.butt,
        };
        let butt_right = match butt_right {
            Some(v) => v,
            None => m.butt,
        };
        let w = self.thick(fatness);
        let top_median = m.median + w;
        let bottom_median = m.median - w;
        self.hor_half_bar(side, Some(fatness), Some(top_median), Some(butt_left), Some(butt_right));
        self.hor_half_bar(side, Some(fatness), Some(bottom_median), Some(butt_left), Some(butt_right));
        assert(self.ops() =~= old(self).ops() + hor_split_half_bar_ops(m, side, fatness as int, butt_left as int, butt_right as int));
    }

    /// Double-stroked half-height vertical bar, top or bottom.
    pub fn vert_split_half_bar(
        &mut self,
        side: Side,
        fatness: Option<i64>,
        butt_bot: Option<i64>,
        butt_top: Option<i64>,
    )
        requires
            old(self).metrics.wf(),
            opt_small(fatness),
            opt_small(butt_bot),
            opt_small(butt_top),
        ensures
            drew(
                *old(self),
                *final(self),
                vert_split_half_bar_ops(
                    old(self).metrics,
                    side,
                    or_default(fatness, 1),
                    or_default(butt_bot, 0),
                    or_default(butt_top, 0),
                ),
            ),
    {
        let m = self.metrics;
        let fatness = match fatness {
            Some(v) => v,
            None => 1,
        };
        let butt_bot = match butt_bot {
            Some(v) => v,
            None => 0,
        };
        let butt_top = match butt_top {
            Some(v) => v,
            None => 0,
        };
        let w = self.thick(fatness);
        let cx = half(m.width);
        let hh = half(m.height);
        let leftx = cx - w;
        let rightx = cx + w;
        let (lo, hi) = match side {
            Side::TopLeft | Side::TopRight => (m.median, m.median + hh),
            _ => (m.median - hh, m.median),
        };
        self.vert_line(&Point { x: leftx, y: lo }, &Point { x: leftx, y: hi }, w, Some(butt_bot), Some(butt_top));
        self.vert_line(&Point { x: rightx, y: lo }, &Point { x: rightx, y: hi }, w, Some(butt_bot), Some(butt_top));
        assert(self.ops() =~= old(self).ops() + vert_split_half_bar_ops(m, side, fatness as int, butt_bot as int, butt_top as int));
    }

    /// Outer part of a double-stroked corner.
    #[verifier::rlimit(60)]
    pub fn outer_corner(&mut self, side: Side, fatness: Option<i64>, corner_median: Option<i64>)
        requires
            old(self).metrics.wf(),
            opt_small(fatness),
            opt_small(corner_median),
        ensures
            drew(
                *old(self),
                *final(self),
                outer_corner_ops(
                    old(self).metrics,
                    side,
                    or_default(fatness, 1),
                    or_default(corner_median, old(self).metrics.median as int),
                ),
            ),
    {
        let m = self.metrics;
        let fatness = match fatness {
            Some(v) => v,
            None => 1,
        };
        let corner_median = match corner_median {
            Some(v) => v,
            None => m.median,
        };
        let w = self.thick(fatness);
        let three_strokes = m.stroke * 3;
        let cm = match side {
            Side::TopLeft | Side::TopRight => corner_median - w,
            _ => corner_median + w,
        };
        let x = match side {
            Side::TopRight | Side::BottomRight => {
                self.hor_half_bar(side, None, Some(cm), Some(three_strokes), Some(m.butt));
                half(m.width) - w
            },
            _ => {
                self.hor_half_bar(side, None, Some(cm), Some(m.butt), Some(three_strokes));
                half(m.width) + w
            },
        };
        let hh = half(m.height);
        match side {
            Side::TopLeft | Side::TopRight => {
                let c = cm + w;
                self.vert_line(&Point { x, y: c }, &Point { x, y: c + hh }, w, Some(three_strokes), None);
            },
            _ => {
                let c = cm - w;
                self.vert_line(&Point { x, y: c - hh }, &Point { x, y: c }, w, None, Some(three_strokes));
            },
        }
        assert(self.ops() =~= old(self).ops() + outer_corner_ops(m, side, fatness as int, corner_median as int));
    }

    /// Inner part of a double-stroked corner.
    #[verifier::rlimit(60)]
    pub fn inner_corner(&mut self, side: Side, fatness: Option<i64>, corner_median: Option<i64>)
        requires
            old(self).metrics.wf(),
            opt_small(fatness),
            opt_small(corner_median),
        ensures
            drew(
                *old(self),
                *final(self),
                inner_corner_ops(
                    old(self).metrics,
                    side,
                    or_default(fatness, 1),
                    or_default(corner_median, old(self).metrics.median as int),
                ),
            ),
    {
        let m = self.metrics;
        let fatness = match fatness {
            Some(v) => v,
            None => 1,
        };
        let corner_median = match corner_median {
            Some(v) => v,
            None => m.median,
        };
        let w = self.thick(fatness);
        let notch = -m.stroke;
        let cm = match side {
            Side::TopLeft | Side::TopRight => corner_median + w,
            _ => corner_median - w,
        };
        let x = match side {
            Side::TopRight | Side::BottomRight => {
                self.hor_half_bar(side, None, Some(cm), Some(notch), Some(m.butt));
                half(m.width) + w
            },
            _ => {
                self.hor_half_bar(side, None, Some(cm), Some(m.butt), Some(notch));
                half(m.width) - w
            },
        };
        let hh = half(m.height);
        match side {
            Side::TopLeft | Side::TopRight => {
                let c = cm - w;
                self.vert_line(&Point { x, y: c }, &Point { x, y: c + hh }, w, Some(notch), None);
            },
            _ => {
                let c = cm + w;
                self.vert_line(&Point { x, y: c - hh }, &Point { x, y: c }, w, Some(notch), None);
            },
        }
        assert(self.ops() =~= old(self).ops() + inner_corner_ops(m, side, fatness as int, corner_median as int));
    }

    /// Rounded corner in the quadrant given by `side`; the butt defaults to zero.
    pub fn arc(&mut self, start: Point, end: Point, side: Side, stroke: i64, radius: i64, butt: Option<i64>)
        requires
            old(self).metrics.wf(),
            start.is_small(),
            end.is_small(),
            small(stroke as int),
            small(radius as int),
            opt_small(butt),
        ensures
            drew(
                *old(self),
                *final(self),
                arc_ops(old(self).metrics, start, end, side, stroke as int, radius as int, or_default(butt, 0)),
            ),
    {
        let up = match side {
            Side::TopLeft | Side::TopRight => true,
            _ => false,
        };
        let lf = match side {
            Side::TopLeft | Side::BottomLeft => true,
            _ => false,
        };
        let butt = match butt {
            Some(v) => v,
            None => 0,
        };
        let hs = half(stroke);
        let hb = half(butt);
        let ki = scale_kappa(radius - hs, self.metrics.kappa);
        let ko = scale_kappa(radius + hs, self.metrics.kappa);
        let c_start_x = start.x;
        let c_start_y = end.y - flip(radius, up);
        let c_end_x = start.x + flip(radius, lf);
        let c_end_y = end.y;
        let hsx = flip(hs, lf);
        let hsy = flip(hs, up);
        let start1 = Point { x: start.x - hsx, y: start.y };
        let start2 = Point { x: start.x + hsx, y: start.y };
        let end1 = Point { x: end.x + flip(hb, lf), y: end.y - hsy };
        let end2 = Point { x: end.x + flip(hb, lf), y: end.y + hsy };
        let iastart = Point { x: c_start_x + hsx, y: c_start_y };
        let iapoint1 = Point { x: c_start_x + hsx, y: c_start_y + flip(ki, up) };
        let iapoint2 = Point { x: c_end_x - flip(ki, lf), y: c_end_y - hsy };
        let iaend = Point { x: c_end_x, y: c_end_y - hsy };
        let oastart = Point { x: c_end_x, y: c_end_y + hsy };
        let oapoint1 = Point { x: c_end_x - flip(ko, lf), y: c_end_y + hsy };
        let oapoint2 = Point { x: c_start_x - hsx, y: c_start_y + flip(ko, up) };
        let oaend = Point { x: c_start_x - hsx, y: c_start_y };
        self.draw_arc(
            &start1,
            &start2,
            &end1,
            &end2,
            &iastart,
            &iapoint1,
            &iapoint2,
            &iaend,
            &oastart,
            &oapoint1,
            &oapoint2,
            &oaend,
        );
    }

    /// The glyph's diagonal length, rounded down.
    fn diagonal_len(&self) -> (r: i64)
        requires
            self.metrics.wf(),
        ensures
            r == diagonal_length(self.metrics),
            0 <= r <= 4 * COORD_LIMIT,
    {
        let w = self.metrics.width;
        let e = self.metrics.em_height;
        assert(0 <= w * w + e * e <= 2 * COORD_LIMIT * COORD_LIMIT) by (nonlinear_arith)
            requires small(w as int), small(e as int);
        let n = (w * w + e * e) as u64;
        let d = floor_sqrt(n);
        assert(d <= 4 * COORD_LIMIT) by (nonlinear_arith)
            requires d * d <= n, n <= 2 * COORD_LIMIT * COORD_LIMIT;
        proof {
            lemma_isqrt_unique(d as int, w * w + e * e);
        }
        d as i64
    }

    /// Diagonal stroke from `start` to `end`, in one of two directions.
    pub fn diagonal(&mut self, start: &Point, end: &Point, direction: Direction)
        requires
            old(self).metrics.wf(),
            start.is_small(),
            end.is_small(),
        ensures
            drew(
                *old(self),
                *final(self),
                diagonal_ops(old(self).metrics, *start, *end, direction, diagonal_length(old(self).metrics)),
            ),
    {
        let m = self.metrics;
        let d = self.diagonal_len();
        let hs = half(m.stroke);
        assert(-4 * COORD_LIMIT * COORD_LIMIT <= hs * d <= 4 * COORD_LIMIT * COORD_LIMIT) by (nonlinear_arith)
            requires small(hs as int), 0 <= d <= 4 * COORD_LIMIT;
        let xdist = div_floor(hs * d, m.em_height);
        let ydist = div_floor(hs * d, m.width);
        assert(-4 * COORD_LIMIT * COORD_LIMIT <= xdist <= 4 * COORD_LIMIT * COORD_LIMIT) by (nonlinear_arith)
            requires xdist == (hs * d) / (m.em_height as int), m.em_height >= 1,
                -4 * COORD_LIMIT * COORD_LIMIT <= hs * d <= 4 * COORD_LIMIT * COORD_LIMIT;
        assert(-4 * COORD_LIMIT * COORD_LIMIT <= ydist <= 4 * COORD_LIMIT * COORD_LIMIT) by (nonlinear_arith)
            requires ydist == (hs * d) / (m.width as int), m.width >= 1,
                -4 * COORD_LIMIT * COORD_LIMIT <= hs * d <= 4 * COORD_LIMIT * COORD_LIMIT;
        match direction {
            Direction::TopDown => {
                self.emit(PathOp::MoveTo(Point { x: start.x + xdist, y: start.y }));
                self.emit(PathOp::LineTo(Point { x: start.x, y: start.y }));
                self.emit(PathOp::LineTo(Point { x: start.x, y: start.y - ydist }));
                self.emit(PathOp::LineTo(Point { x: end.x - xdist, y: end.y }));
                self.emit(PathOp::LineTo(Point { x: end.x, y: end.y }));
                self.emit(PathOp::LineTo(Point { x: end.x, y: end.y + ydist }));
                self.emit(PathOp::ClosePath);
            },
            Direction::BottomUp => {
                self.emit(PathOp::MoveTo(Point { x: start.x, y: start.y + ydist }));
                self.emit(PathOp::LineTo(Point { x: start.x, y: start.y }));
                self.emit(PathOp::LineTo(Point { x: start.x + xdist, y: start.y }));
                self.emit(PathOp::LineTo(Point { x: end.x, y: end.y - ydist }));
                self.emit(PathOp::LineTo(Point { x: end.x, y: end.y }));
                self.emit(PathOp::LineTo(Point { x: end.x - xdist, y: end.y }));
                self.emit(PathOp::ClosePath);
            },
        }
        assert(self.ops() =~= old(self).ops() + diagonal_ops(m, *start, *end, direction, d as int));
    }
}

} // verus!
