//! Drawing commands: one value per primitive, with fields that default to the metrics.
use vstd::prelude::*;

use crate::drawing_command::{
    arc_ops, box_ops, diagonal_length, diagonal_ops, drew, hor_bar_ops, hor_half_bar_ops,
    hor_split_bar_ops, hline, inner_corner_ops, opt_small, or_default, vert_bar_ops,
    vert_half_bar_ops, vert_split_bar_ops, DrawingCommand,
};
use crate::geometry::{small, Direction, Metrics, PathOp, Point, Shade, Side};
use crate::patterns::{dashed_hor_line_ops, dashed_vert_line_ops, polka_radius, polka_rows};

verus! {

/// A point held, where one is, is in range.
pub open spec fn opt_point_small(o: Option<Point>) -> bool {
    o matches Some(p) ==> p.is_small()
}

/// The point held, or `d` where none is.
pub open spec fn point_or(o: Option<Point>, d: Point) -> Point {
    match o {
        Some(p) => p,
        None => d,
    }
}

/// Horizontal bar across the glyph.
#[derive(Clone, Copy, Debug, PartialEq, Eq)]
pub struct HorBar {
    pub fatness: Option<i64>,
    pub median: Option<i64>,
    pub butt_left: Option<i64>,
    pub butt_right: Option<i64>,
}

impl Default for HorBar {
    fn default() -> (r: HorBar)
        ensures
            r == (HorBar { fatness: None, median: None, butt_left: None, butt_right: None }),
    {
        HorBar { fatness: None, median: None, butt_left: None, butt_right: None }
    }
}

impl HorBar {
    pub fn fatness(self, fatness: i64) -> (r: HorBar)
        ensures
            r == (HorBar { fatness: Some(fatness), ..self }),
    {
        HorBar { fatness: Some(fatness), ..self }
    }

    pub fn median(self, median: i64) -> (r: HorBar)
        ensures
            r == (HorBar { median: Some(median), ..self }),
    {
        HorBar { median: Some(median), ..self }
    }

    pub fn butt_left(self, butt_left: i64) -> (r: HorBar)
        ensures
            r == (HorBar { butt_left: Some(butt_left), ..self }),
    {
        HorBar { butt_left: Some(butt_left), ..self }
    }

    pub fn butt_right(self, butt_right: i64) -> (r: HorBar)
        ensures
            r == (HorBar { butt_right: Some(butt_right), ..self }),
    {
        HorBar { butt_right: Some(butt_right), ..self }
    }
}

/// Vertical bar through the glyph.
#[derive(Clone, Copy, Debug, PartialEq, Eq)]
pub struct VertBar {
    pub fatness: Option<i64>,
    pub butt_bot: Option<i64>,
    pub butt_top: Option<i64>,
}

impl Default for VertBar {
    fn default() -> (r: VertBar)
        ensures
            r == (VertBar { fatness: None, butt_bot: None, butt_top: None }),
    {
        VertBar { fatness: None, butt_bot: None, butt_top: None }
    }
}

impl VertBar {
    pub fn fatness(self, fatness: i64) -> (r: VertBar)
        ensures
            r == (VertBar { fatness: Some(fatness), ..self }),
    {
        VertBar { fatness: Some(fatness), ..self }
    }

    pub fn butt_bot(self, butt_bot: i64) -> (r: VertBar)
        ensures
            r == (VertBar { butt_bot: Some(butt_bot), ..self }),
    {
        VertBar { butt_bot: Some(butt_bot), ..self }
    }

    pub fn butt_top(self, butt_top: i64) -> (r: VertBar)
        ensures
            r == (VertBar { butt_top: Some(butt_top), ..self }),
    {
        VertBar { butt_top: Some(butt_top), ..self }
    }
}

/// Horizontal dashed line of `step` dashes.
#[derive(Clone, Copy, Debug, PartialEq, Eq)]
pub struct DashedHorLine {
    pub step: i64,
    pub width: Option<i64>,
    pub stroke: Option<i64>,
}

impl DashedHorLine {
    pub fn new(step: i64) -> (r: DashedHorLine)
        ensures
            r == (DashedHorLine { step, width: None, stroke: None }),
    {
        DashedHorLine { step, width: None, stroke: None }
    }

    pub fn width(self, width: i64) -> (r: DashedHorLine)
        ensures
            r == (DashedHorLine { width: Some(width), ..self }),
    {
        DashedHorLine { width: Some(width), ..self }
    }

    pub fn stroke(self, stroke: i64) -> (r: DashedHorLine)
        ensures
            r == (DashedHorLine { stroke: Some(stroke), ..self }),
    {
        DashedHorLine { stroke: Some(stroke), ..self }
    }
}

/// Vertical dashed line of `step` dashes.
#[derive(Clone, Copy, Debug, PartialEq, Eq)]
pub struct DashedVertLine {
    pub step: i64,
    pub length: Option<i64>,
    pub stroke: Option<i64>,
}

impl DashedVertLine {
    pub fn new(step: i64) -> (r: DashedVertLine)
        ensures
            r == (DashedVertLine { step, length: None, stroke: None }),
    {
        DashedVertLine { step, length: None, stroke: None }
    }

    pub fn length(self, length: i64) -> (r: DashedVertLine)
        ensures
            r == (DashedVertLine { length: Some(length), ..self }),
    {
        DashedVertLine { length: Some(length), ..self }
    }

    pub fn stroke(self, stroke: i64) -> (r: DashedVertLine)
        ensures
            r == (DashedVertLine { stroke: Some(stroke), ..self }),
    {
        DashedVertLine { stroke: Some(stroke), ..self }
    }
}

/// Horizontal bar over one half of the glyph.
#[derive(Clone, Copy, Debug, PartialEq, Eq)]
pub struct HorHalfBar {
    pub side: Side,
    pub fatness: Option<i64>,
    pub median: Option<i64>,
    pub butt_left: Option<i64>,
    pub butt_right: Option<i64>,
}

impl HorHalfBar {
    pub fn new(side: Side) -> (r: HorHalfBar)
        ensures
            r == (HorHalfBar { side, fatness: None, median: None, butt_left: None, butt_right: None }),
    {
        HorHalfBar { side, fatness: None, median: None, butt_left: None, butt_right: None }
    }

    pub fn fatness(self, fatness: i64) -> (r: HorHalfBar)
        ensures
            r == (HorHalfBar { fatness: Some(fatness), ..self }),
    {
        HorHalfBar { fatness: Some(fatness), ..self }
    }

    pub fn median(self, median: i64) -> (r: HorHalfBar)
        ensures
            r == (HorHalfBar { median: Some(median), ..self }),
    {
        HorHalfBar { median: Some(median), ..self }
    }

    pub fn butt_left(self, butt_left: i64) -> (r: HorHalfBar)
        ensures
            r == (HorHalfBar { butt_left: Some(butt_left), ..self }),
    {
        HorHalfBar { butt_left: Some(butt_left), ..self }
    }

    pub fn butt_right(self, butt_right: i64) -> (r: HorHalfBar)
        ensures
            r == (HorHalfBar { butt_right: Some(butt_right), ..self }),
    {
        HorHalfBar { butt_right: Some(butt_right), ..self }
    }
}

/// Vertical bar over one half of the glyph.
#[derive(Clone, Copy, Debug, PartialEq, Eq)]
pub struct VertHalfBar {
    pub side: Side,
    pub fatness: Option<i64>,
    pub butt_bot: Option<i64>,
    pub butt_top: Option<i64>,
}

impl VertHalfBar {
    pub fn new(side: Side) -> (r: VertHalfBar)
        ensures
            r == (VertHalfBar { side, fatness: None, butt_bot: None, butt_top: None }),
    {
        VertHalfBar { side, fatness: None, butt_bot: None, butt_top: None }
    }

    pub fn fatness(self, fatness: i64) -> (r: VertHalfBar)
        ensures
            r == (VertHalfBar { fatness: Some(fatness), ..self }),
    {
        VertHalfBar { fatness: Some(fatness), ..self }
    }

    pub fn butt_bot(self, butt_bot: i64) -> (r: VertHalfBar)
        ensures
            r == (VertHalfBar { butt_bot: Some(butt_bot), ..self }),
    {
        VertHalfBar { butt_bot: Some(butt_bot), ..self }
    }

    pub fn butt_top(self, butt_top: i64) -> (r: VertHalfBar)
        ensures
            r == (VertHalfBar { butt_top: Some(butt_top), ..self }),
    {
        VertHalfBar { butt_top: Some(butt_top), ..self }
    }
}

/// Axis-aligned box; the corners default to the block's.
#[derive(Clone, Copy, Debug, PartialEq, Eq)]
pub struct Box_ {
    pub start: Option<Point>,
    pub end: Option<Point>,
}

/// Rounded corner.
#[derive(Clone, Copy, Debug, PartialEq, Eq)]
pub struct Arc {
    pub start: Point,
    pub end: Point,
    pub side: Side,
    pub stroke: i64,
    pub radius: i64,
    pub butt: Option<i64>,
}

/// Polka-dot fill pattern.
#[derive(Clone, Copy, Debug, PartialEq, Eq)]
pub struct PolkaShade {
    pub shade: Shade,
}

/// Diagonal stroke.
#[derive(Clone, Copy, Debug, PartialEq, Eq)]
pub struct Diagonal {
    pub start: Point,
    pub end: Point,
    pub direction: Direction,
}

/// Inner part of a double-stroked corner.
#[derive(Clone, Copy, Debug, PartialEq, Eq)]
pub struct InnerCorner {
    pub side: Side,
    pub fatness: Option<i64>,
    pub corner_median: Option<i64>,
}

/// Double-stroked horizontal bar.
#[derive(Clone, Copy, Debug, PartialEq, Eq)]
pub struct HorSplitBar {
    pub fatness: Option<i64>,
    pub butt_left: Option<i64>,
    pub butt_right: Option<i64>,
}

/// Double-stroked vertical bar.
#[derive(Clone, Copy, Debug, PartialEq, Eq)]
pub struct VertSplitBar {
    pub fatness: Option<i64>,
    pub butt_bot: Option<i64>,
    pub butt_top: Option<i64>,
}

/// Horizontal line between two points.
#[derive(Clone, Copy, Debug, PartialEq, Eq)]
pub struct HorLine {
    pub start: Point,
    pub end: Point,
    pub stroke: i64,
    pub butt_left: Option<i64>,
    pub butt_right: Option<i64>,
}

/// One drawing command of a recipe.
#[derive(Clone, Copy, Debug, PartialEq, Eq)]
pub enum Commands {
    HorBar(HorBar),
    VertBar(VertBar),
    DashedHorLine(DashedHorLine),
    DashedVertLine(DashedVertLine),
    HorHalfBar(HorHalfBar),
    VertHalfBar(VertHalfBar),
    Box_(Box_),
    Arc(Arc),
    PolkaShade(PolkaShade),
    Diagonal(Diagonal),
    InnerCorner(InnerCorner),
    HorSplitBar(HorSplitBar),
    VertSplitBar(VertSplitBar),
    HorLine(HorLine),
}

impl Commands {
    /// Every number and point the command holds is in range.
    pub open spec fn wf(self) -> bool {
        match self {
            Commands::HorBar(c) => opt_small(c.fatness) && opt_small(c.median) && opt_small(c.butt_left)
                && opt_small(c.butt_right),
            Commands::VertBar(c) => opt_small(c.fatness) && opt_small(c.butt_bot) && opt_small(c.butt_top),
            Commands::DashedHorLine(c) => small(c.step as int) && opt_small(c.width) && opt_small(c.stroke),
            Commands::DashedVertLine(c) => small(c.step as int) && opt_small(c.length) && opt_small(c.stroke),
            Commands::HorHalfBar(c) => opt_small(c.fatness) && opt_small(c.median) && opt_small(c.butt_left)
                && opt_small(c.butt_right),
            Commands::VertHalfBar(c) => opt_small(c.fatness) && opt_small(c.butt_bot) && opt_small(c.butt_top),
            Commands::Box_(c) => opt_point_small(c.start) && opt_point_small(c.end),
            Commands::Arc(c) => c.start.is_small() && c.end.is_small() && small(c.stroke as int) && small(
                c.radius as int,
            ) && opt_small(c.butt),
            Commands::PolkaShade(_) => true,
            Commands::Diagonal(c) => c.start.is_small() && c.end.is_small(),
            Commands::InnerCorner(c) => opt_small(c.fatness) && opt_small(c.corner_median),
            Commands::HorSplitBar(c) => opt_small(c.fatness) && opt_small(c.butt_left) && opt_small(c.butt_right),
            Commands::VertSplitBar(c) => opt_small(c.fatness) && opt_small(c.butt_bot) && opt_small(c.butt_top),
            Commands::HorLine(c) => c.start.is_small() && c.end.is_small() && small(c.stroke as int) && opt_small(
                c.butt_left,
            ) && opt_small(c.butt_right),
        }
    }

    /// What the command draws against `m`.
    pub open spec fn ops(self, m: Metrics) -> Seq<PathOp> {
        match self {
            Commands::HorBar(c) => hor_bar_ops(
                m,
                or_default(c.fatness, 1),
                or_default(c.median, m.median as int),
                or_default(c.butt_left, m.butt as int),
                or_default(c.butt_right, m.butt as int),
            ),
            Commands::VertBar(c) => vert_bar_ops(
                m,
                or_default(c.fatness, 1),
                or_default(c.butt_bot, 0),
                or_default(c.butt_top, 0),
            ),
            Commands::DashedHorLine(c) => dashed_hor_line_ops(
                m,
                c.step as int,
                or_default(c.width, m.width as int),
                or_default(c.stroke, m.stroke as int),
            ),
            Commands::DashedVertLine(c) => dashed_vert_line_ops(
                m,
                c.step as int,
                or_default(c.length, m.em_height as int),
                or_default(c.stroke, m.stroke as int),
            ),
            Commands::HorHalfBar(c) => hor_half_bar_ops(
                m,
                c.side,
                or_default(c.fatness, 1),
                or_default(c.median, m.median as int),
                or_default(c.butt_left, m.butt as int),
                or_default(c.butt_right, m.butt as int),
            ),
            Commands::VertHalfBar(c) => vert_half_bar_ops(
                m,
                c.side,
                or_default(c.fatness, 1),
                or_default(c.butt_bot, 0),
                or_default(c.butt_top, 0),
            ),
            Commands::Box_(c) => box_ops(point_or(c.start, m.block_origin), point_or(c.end, m.block_top)),
            Commands::Arc(c) => arc_ops(
                m,
                c.start,
                c.end,
                c.side,
                c.stroke as int,
                c.radius as int,
                or_default(c.butt, 0),
            ),
            Commands::PolkaShade(c) => polka_rows(m, polka_radius(c.shade), 0),
            Commands::Diagonal(c) => diagonal_ops(m, c.start, c.end, c.direction, diagonal_length(m)),
            Commands::InnerCorner(c) => inner_corner_ops(
                m,
                c.side,
                or_default(c.fatness, 1),
                or_default(c.corner_median, m.median as int),
            ),
            Commands::HorSplitBar(c) => hor_split_bar_ops(
                m,
                or_default(c.fatness, 1),
                or_default(c.butt_left, m.butt as int),
                or_default(c.butt_right, m.butt as int),
            ),
            Commands::VertSplitBar(c) => vert_split_bar_ops(
                m,
                or_default(c.fatness, 1),
                or_default(c.butt_bot, 0),
                or_default(c.butt_top, 0),
            ),
            Commands::HorLine(c) => hline(
                c.start,
                c.end,
                c.stroke as int,
                or_default(c.butt_left, m.butt as int),
                or_default(c.butt_right, m.butt as int),
            ),
        }
    }

    /// Draws the command.
    pub fn execute(&self, ctx: &mut DrawingCommand)
        requires
            old(ctx).metrics.wf(),
            self.wf(),
        ensures
            drew(*old(ctx), *final(ctx), self.ops(old(ctx).metrics)),
    {
        match self {
            Commands::HorBar(c) => ctx.hor_bar(c.fatness, c.median, c.butt_left, c.butt_right),
            Commands::VertBar(c) => ctx.vert_bar(c.fatness, c.butt_bot, c.butt_top),
            Commands::DashedHorLine(c) => ctx.dashed_hor_line(c.step, c.width, c.stroke),
            Commands::DashedVertLine(c) => ctx.dashed_vert_line(c.step, c.length, c.stroke),
            Commands::HorHalfBar(c) => ctx.hor_half_bar(c.side, c.fatness, c.median, c.butt_left, c.butt_right),
            Commands::VertHalfBar(c) => ctx.vert_half_bar(c.side, c.fatness, c.butt_bot, c.butt_top),
            Commands::Box_(c) => ctx.box_(c.start, c.end),
            Commands::Arc(c) => ctx.arc(c.start, c.end, c.side, c.stroke, c.radius, c.butt),
            Commands::PolkaShade(c) => ctx.polka_shade(c.shade),
            Commands::Diagonal(c) => ctx.diagonal(&c.start, &c.end, c.direction),
            Commands::InnerCorner(c) => ctx.inner_corner(c.side, c.fatness, c.corner_median),
            Commands::HorSplitBar(c) => ctx.hor_split_bar(c.fatness, c.butt_left, c.butt_right),
            Commands::VertSplitBar(c) => ctx.vert_split_bar(c.fatness, c.butt_bot, c.butt_top),
            Commands::HorLine(c) => ctx.hor_line(&c.start, &c.end, c.stroke, c.butt_left, c.butt_right),
        }
    }
}

} // verus!
