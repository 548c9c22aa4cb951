//! Evaluation of deferred commands against metrics, and recipes of several commands.
use vstd::prelude::*;

use crate::commands::{
    Arc, Box_, Commands, DashedHorLine, DashedVertLine, Diagonal, HorBar, HorHalfBar, HorLine,
    HorSplitBar, InnerCorner, PolkaShade, VertBar, VertHalfBar, VertSplitBar,
};
use crate::drawing_command::DrawingCommand;
use crate::geometry::{
    div_floor, pt, small, wide, Direction, Metrics, PathOp, Point, Shade, Side, COORD_LIMIT,
    WIDE_LIMIT,
};
use crate::translator::{fields_of, Axis, CommandRecipe, CommandSpec, MetricName, Primitive, Term};

verus! {

/// `v`, where it is within the range of coordinates.
pub open spec fn in_range(v: int) -> Option<int> {
    if wide(v) {
        Some(v)
    } else {
        None
    }
}

/// The value of a numeric metric.
pub open spec fn metric_number(n: MetricName, m: Metrics) -> Option<int> {
    match n {
        MetricName::Fat => Some(m.fat as int),
        MetricName::Butt => Some(m.butt as int),
        MetricName::Width => Some(m.width as int),
        MetricName::Height => Some(m.height as int),
        MetricName::Median => Some(m.median as int),
        MetricName::Radius => Some(m.radius as int),
        MetricName::Stroke => Some(m.stroke as int),
        MetricName::EmHeight => Some(m.em_height as int),
        MetricName::FatStroke => Some(m.fat_stroke as int),
        MetricName::BlockHeight => Some(m.block_height as int),
        MetricName::BlockTop | MetricName::BlockOrigin => None,
    }
}

/// The value of a point metric.
pub open spec fn metric_point(n: MetricName, m: Metrics) -> Option<Point> {
    match n {
        MetricName::BlockTop => Some(m.block_top),
        MetricName::BlockOrigin => Some(m.block_origin),
        _ => None,
    }
}

/// `a / b`, rounded down.
pub open spec fn floor_div(a: int, b: int) -> int {
    if b > 0 {
        a / b
    } else {
        (-a) / (-b)
    }
}

/// The number a term denotes against `m`; none where it is not a number, divides by
/// zero, or leaves the range of coordinates at any step.
pub open spec fn value_of(t: Term, m: Metrics) -> Option<int>
    decreases t,
{
    match t {
        Term::Number(v) => in_range(v as int),
        Term::Metric(n) => metric_number(n, m),
        Term::Coord(n, a) => match metric_point(n, m) {
            Some(p) => Some(
                if a is X {
                    p.x as int
                } else {
                    p.y as int
                },
            ),
            None => None,
        },
        Term::Add(a, b) => match (value_of(*a, m), value_of(*b, m)) {
            (Some(x), Some(y)) => in_range(x + y),
            _ => None,
        },
        Term::Sub(a, b) => match (value_of(*a, m), value_of(*b, m)) {
            (Some(x), Some(y)) => in_range(x - y),
            _ => None,
        },
        Term::Mul(a, b) => match (value_of(*a, m), value_of(*b, m)) {
            (Some(x), Some(y)) => in_range(x * y),
            _ => None,
        },
        Term::Div(a, b) => match (value_of(*a, m), value_of(*b, m)) {
            (Some(x), Some(y)) => if y == 0 {
                None
            } else {
                in_range(floor_div(x, y))
            },
            _ => None,
        },
        Term::Neg(a) => match value_of(*a, m) {
            Some(x) => in_range(-x),
            None => None,
        },
        _ => None,
    }
}

/// The point a term denotes against `m`.
pub open spec fn point_of(t: Term, m: Metrics) -> Option<Point> {
    match t {
        Term::Metric(n) => metric_point(n, m),
        Term::Pair(a, b) => match (value_of(*a, m), value_of(*b, m)) {
            (Some(x), Some(y)) => Some(pt(x, y)),
            _ => None,
        },
        _ => None,
    }
}

fn ranged(v: i64) -> (r: Option<i64>)
    ensures
        match in_range(v as int) {
            Some(x) => r == Some(x as i64),
            None => r is None,
        },
{
    if -WIDE_LIMIT <= v && v <= WIDE_LIMIT {
        Some(v)
    } else {
        None
    }
}

/// Evaluates a numeric term.
pub fn eval_number(t: &Term, m: &Metrics) -> (r: Option<i64>)
    requires
        m.wf(),
    ensures
        match value_of(*t, *m) {
            Some(v) => r == Some(v as i64),
            None => r is None,
        },
    decreases t,
{
    match t {
        Term::Number(v) => ranged(*v),
        Term::Metric(n) => match n {
            MetricName::Fat => Some(m.fat),
            MetricName::Butt => Some(m.butt),
            MetricName::Width => Some(m.width),
            MetricName::Height => Some(m.height),
            MetricName::Median => Some(m.median),
            MetricName::Radius => Some(m.radius),
            MetricName::Stroke => Some(m.stroke),
            MetricName::EmHeight => Some(m.em_height),
            MetricName::FatStroke => Some(m.fat_stroke),
            MetricName::BlockHeight => Some(m.block_height),
            MetricName::BlockTop | MetricName::BlockOrigin => None,
        },
        Term::Coord(n, a) => {
            let p = match n {
                MetricName::BlockTop => m.block_top,
                MetricName::BlockOrigin => m.block_origin,
                _ => {
                    return None;
                },
            };
            match a {
                Axis::X => Some(p.x),
                Axis::Y => Some(p.y),
            }
        },
        Term::Add(a, b) => {
            let x = eval_number(a, m);
            let y = eval_number(b, m);
            match (x, y) {
                (Some(x), Some(y)) => {
                    proof {
                        wide_of_value(&**a, m);
                        wide_of_value(&**b, m);
                    }
                    ranged(x + y)
                },
                _ => None,
            }
        },
        Term::Sub(a, b) => {
            let x = eval_number(a, m);
            let y = eval_number(b, m);
            match (x, y) {
                (Some(x), Some(y)) => {
                    proof {
                        wide_of_value(&**a, m);
                        wide_of_value(&**b, m);
                    }
                    ranged(x - y)
                },
                _ => None,
            }
        },
        Term::Mul(a, b) => {
            let x = eval_number(a, m);
            let y = eval_number(b, m);
            match (x, y) {
                (Some(x), Some(y)) => match x.checked_mul(y) {
                    Some(v) => ranged(v),
                    None => {
                        proof {
                            assert(!wide(x * y));
                        }
                        None
                    },
                },
                _ => None,
            }
        },
        Term::Div(a, b) => {
            let x = eval_number(a, m);
            let y = eval_number(b, m);
            match (x, y) {
                (Some(x), Some(y)) => {
                    proof {
                        wide_of_value(&**a, m);
                        wide_of_value(&**b, m);
                    }
                    if y == 0 {
                        None
                    } else if y > 0 {
                        let q = div_floor(x, y);
                        proof {
                            lemma_floor_div_bound(x as int, y as int);
                        }
                        ranged(q)
                    } else {
                        let q = div_floor(-x, -y);
                        proof {
                            lemma_floor_div_bound(-x, -y);
                        }
                        ranged(q)
                    }
                },
                _ => None,
            }
        },
        Term::Neg(a) => {
            let x = eval_number(a, m);
            match x {
                Some(x) => {
                    proof {
                        wide_of_value(&**a, m);
                    }
                    ranged(-x)
                },
                None => None,
            }
        },
        _ => None,
    }
}

/// A number a term denotes is within the range of coordinates.
proof fn wide_of_value(t: &Term, m: &Metrics)
    requires
        m.wf(),
    ensures
        value_of(*t, *m) matches Some(v) ==> wide(v),
{
}

proof fn lemma_floor_div_bound(a: int, b: int)
    requires
        wide(a),
        b > 0,
    ensures
        wide(a / b),
{
    assert(-WIDE_LIMIT <= a / b <= WIDE_LIMIT) by (nonlinear_arith)
        requires wide(a), b > 0;
}


/// A numeric field: empty, or the value of its term where that is in range.
pub open spec fn num_slot(slot: Option<Term>, m: Metrics) -> Option<Option<i64>> {
    match slot {
        None => Some(None),
        Some(t) => match value_of(t, m) {
            Some(v) => if small(v) {
                Some(Some(v as i64))
            } else {
                None
            },
            None => None,
        },
    }
}

/// A numeric field that must be given.
pub open spec fn req_num(slot: Option<Term>, m: Metrics) -> Option<i64> {
    match num_slot(slot, m) {
        Some(Some(v)) => Some(v),
        _ => None,
    }
}

/// A point field: empty, or the value of its term where that is in range.
pub open spec fn point_slot(slot: Option<Term>, m: Metrics) -> Option<Option<Point>> {
    match slot {
        None => Some(None),
        Some(t) => match point_of(t, m) {
            Some(p) => if p.is_small() {
                Some(Some(p))
            } else {
                None
            },
            None => None,
        },
    }
}

/// A point field that must be given.
pub open spec fn req_point(slot: Option<Term>, m: Metrics) -> Option<Point> {
    match point_slot(slot, m) {
        Some(Some(p)) => Some(p),
        _ => None,
    }
}

pub open spec fn side_slot(slot: Option<Term>) -> Option<Side> {
    match slot {
        Some(Term::Side(s)) => Some(s),
        _ => None,
    }
}

pub open spec fn direction_slot(slot: Option<Term>) -> Option<Direction> {
    match slot {
        Some(Term::Direction(d)) => Some(d),
        _ => None,
    }
}

pub open spec fn shade_slot(slot: Option<Term>) -> Option<Shade> {
    match slot {
        Some(Term::Shade(s)) => Some(s),
        _ => None,
    }
}

/// The command a deferred command denotes against `m`: none where a field cannot be
/// evaluated or leaves the range of command parameters.
pub open spec fn resolve_spec(c: CommandSpec, m: Metrics) -> Option<Commands> {
    let s = c.1;
    if s.len() != fields_of(c.0).len() {
        None
    } else {
        match c.0 {
            Primitive::HorBar => match (num_slot(s[0], m), num_slot(s[1], m), num_slot(s[2], m), num_slot(s[3], m)) {
                (Some(v0), Some(v1), Some(v2), Some(v3)) => Some(Commands::HorBar(HorBar { fatness: v0, median: v1, butt_left: v2, butt_right: v3 })),
                _ => None,
            },
            Primitive::VertBar => match (num_slot(s[0], m), num_slot(s[1], m), num_slot(s[2], m)) {
                (Some(v0), Some(v1), Some(v2)) => Some(Commands::VertBar(VertBar { fatness: v0, butt_bot: v1, butt_top: v2 })),
                _ => None,
            },
            Primitive::DashedHorLine => match (req_num(s[0], m), num_slot(s[1], m), num_slot(s[2], m)) {
                (Some(v0), Some(v1), Some(v2)) => Some(Commands::DashedHorLine(DashedHorLine { step: v0, width: v1, stroke: v2 })),
                _ => None,
            },
            Primitive::DashedVertLine => match (req_num(s[0], m), num_slot(s[1], m), num_slot(s[2], m)) {
                (Some(v0), Some(v1), Some(v2)) => Some(Commands::DashedVertLine(DashedVertLine { step: v0, length: v1, stroke: v2 })),
                _ => None,
            },
            Primitive::HorHalfBar => match (side_slot(s[0]), num_slot(s[1], m), num_slot(s[2], m), num_slot(s[3], m), num_slot(s[4], m)) {
                (Some(v0), Some(v1), Some(v2), Some(v3), Some(v4)) => Some(Commands::HorHalfBar(HorHalfBar { side: v0, fatness: v1, median: v2, butt_left: v3, butt_right: v4 })),
                _ => None,
            },
            Primitive::VertHalfBar => match (side_slot(s[0]), num_slot(s[1], m), num_slot(s[2], m), num_slot(s[3], m)) {
                (Some(v0), Some(v1), Some(v2), Some(v3)) => Some(Commands::VertHalfBar(VertHalfBar { side: v0, fatness: v1, butt_bot: v2, butt_top: v3 })),
                _ => None,
            },
            Primitive::Box_ => match (point_slot(s[0], m), point_slot(s[1], m)) {
                (Some(v0), Some(v1)) => Some(Commands::Box_(Box_ { start: v0, end: v1 })),
                _ => None,
            },
            Primitive::Arc => match (req_point(s[0], m), req_point(s[1], m), side_slot(s[2]), req_num(s[3], m), req_num(s[4], m), num_slot(s[5], m)) {
                (Some(v0), Some(v1), Some(v2), Some(v3), Some(v4), Some(v5)) => Some(Commands::Arc(Arc { start: v0, end: v1, side: v2, stroke: v3, radius: v4, butt: v5 })),
                _ => None,
            },
            Primitive::PolkaShade => match shade_slot(s[0]) {
                Some(v0) => Some(Commands::PolkaShade(PolkaShade { shade: v0 })),
                _ => None,
            },
            Primitive::Diagonal => match (req_point(s[0], m), req_point(s[1], m), direction_slot(s[2])) {
                (Some(v0), Some(v1), Some(v2)) => Some(Commands::Diagonal(Diagonal { start: v0, end: v1, direction: v2 })),
                _ => None,
            },
            Primitive::InnerCorner => match (side_slot(s[0]), num_slot(s[1], m), num_slot(s[2], m)) {
                (Some(v0), Some(v1), Some(v2)) => Some(Commands::InnerCorner(InnerCorner { side: v0, fatness: v1, corner_median: v2 })),
                _ => None,
            },
            Primitive::HorSplitBar => match (num_slot(s[0], m), num_slot(s[1], m), num_slot(s[2], m)) {
                (Some(v0), Some(v1), Some(v2)) => Some(Commands::HorSplitBar(HorSplitBar { fatness: v0, butt_left: v1, butt_right: v2 })),
                _ => None,
            },
            Primitive::VertSplitBar => match (num_slot(s[0], m), num_slot(s[1], m), num_slot(s[2], m)) {
                (Some(v0), Some(v1), Some(v2)) => Some(Commands::VertSplitBar(VertSplitBar { fatness: v0, butt_bot: v1, butt_top: v2 })),
                _ => None,
            },
            Primitive::HorLine => match (req_point(s[0], m), req_point(s[1], m), req_num(s[2], m), num_slot(s[3], m), num_slot(s[4], m)) {
                (Some(v0), Some(v1), Some(v2), Some(v3), Some(v4)) => Some(Commands::HorLine(HorLine { start: v0, end: v1, stroke: v2, butt_left: v3, butt_right: v4 })),
                _ => None,
            },
        }
    }
}

/// Evaluates a point term.
pub fn eval_point(t: &Term, m: &Metrics) -> (r: Option<Point>)
    requires
        m.wf(),
    ensures
        r == point_of(*t, *m),
{
    match t {
        Term::Metric(n) => match n {
            MetricName::BlockTop => Some(m.block_top),
            MetricName::BlockOrigin => Some(m.block_origin),
            _ => None,
        },
        Term::Pair(a, b) => {
            let x = eval_number(a, m);
            let y = eval_number(b, m);
            match (x, y) {
                (Some(x), Some(y)) => Some(Point { x, y }),
                _ => None,
            }
        },
        _ => None,
    }
}

fn num_at(slots: &Vec<Option<Term>>, i: usize, m: &Metrics) -> (r: Option<Option<i64>>)
    requires
        m.wf(),
        i < slots@.len(),
    ensures
        r == num_slot(slots@[i as int], *m),
{
    match &slots[i] {
        None => Some(None),
        Some(t) => match eval_number(t, m) {
            Some(v) => if -COORD_LIMIT <= v && v <= COORD_LIMIT {
                Some(Some(v))
            } else {
                None
            },
            None => None,
        },
    }
}

fn req_num_at(slots: &Vec<Option<Term>>, i: usize, m: &Metrics) -> (r: Option<i64>)
    requires
        m.wf(),
        i < slots@.len(),
    ensures
        r == req_num(slots@[i as int], *m),
{
    match num_at(slots, i, m) {
        Some(Some(v)) => Some(v),
        _ => None,
    }
}

fn point_at(slots: &Vec<Option<Term>>, i: usize, m: &Metrics) -> (r: Option<Option<Point>>)
    requires
        m.wf(),
        i < slots@.len(),
    ensures
        r == point_slot(slots@[i as int], *m),
{
    match &slots[i] {
        None => Some(None),
        Some(t) => match eval_point(t, m) {
            Some(p) => if -COORD_LIMIT <= p.x && p.x <= COORD_LIMIT && -COORD_LIMIT <= p.y && p.y <= COORD_LIMIT {
                Some(Some(p))
            } else {
                None
            },
            None => None,
        },
    }
}

fn req_point_at(slots: &Vec<Option<Term>>, i: usize, m: &Metrics) -> (r: Option<Point>)
    requires
        m.wf(),
        i < slots@.len(),
    ensures
        r == req_point(slots@[i as int], *m),
{
    match point_at(slots, i, m) {
        Some(Some(p)) => Some(p),
        _ => None,
    }
}

fn side_at(slots: &Vec<Option<Term>>, i: usize) -> (r: Option<Side>)
    requires
        i < slots@.len(),
    ensures
        r == side_slot(slots@[i as int]),
{
    match &slots[i] {
        Some(Term::Side(s)) => Some(*s),
        _ => None,
    }
}

fn direction_at(slots: &Vec<Option<Term>>, i: usize) -> (r: Option<Direction>)
    requires
        i < slots@.len(),
    ensures
        r == direction_slot(slots@[i as int]),
{
    match &slots[i] {
        Some(Term::Direction(d)) => Some(*d),
        _ => None,
    }
}

fn shade_at(slots: &Vec<Option<Term>>, i: usize) -> (r: Option<Shade>)
    requires
        i < slots@.len(),
    ensures
        r == shade_slot(slots@[i as int]),
{
    match &slots[i] {
        Some(Term::Shade(s)) => Some(*s),
        _ => None,
    }
}

/// Evaluates every field of a deferred command against `m`.
pub fn resolve(c: &CommandRecipe, m: &Metrics) -> (r: Option<Commands>)
    requires
        m.wf(),
    ensures
        r == resolve_spec(c.spec(), *m),
        r matches Some(cmd) ==> cmd.wf(),
{
    if c.slots.len() != crate::translator::fields(c.primitive).len() {
        return None;
    }
    match c.primitive {
            Primitive::HorBar => {
                let v0 = num_at(&c.slots, 0, m)?;
                let v1 = num_at(&c.slots, 1, m)?;
                let v2 = num_at(&c.slots, 2, m)?;
                let v3 = num_at(&c.slots, 3, m)?;
                Some(Commands::HorBar(HorBar { fatness: v0, median: v1, butt_left: v2, butt_right: v3 }))
            },
            Primitive::VertBar => {
                let v0 = num_at(&c.slots, 0, m)?;
                let v1 = num_at(&c.slots, 1, m)?;
                let v2 = num_at(&c.slots, 2, m)?;
                Some(Commands::VertBar(VertBar { fatness: v0, butt_bot: v1, butt_top: v2 }))
            },
            Primitive::DashedHorLine => {
                let v0 = req_num_at(&c.slots, 0, m)?;
                let v1 = num_at(&c.slots, 1, m)?;
                let v2 = num_at(&c.slots, 2, m)?;
                Some(Commands::DashedHorLine(DashedHorLine { step: v0, width: v1, stroke: v2 }))
            },
            Primitive::DashedVertLine => {
                let v0 = req_num_at(&c.slots, 0, m)?;
                let v1 = num_at(&c.slots, 1, m)?;
                let v2 = num_at(&c.slots, 2, m)?;
                Some(Commands::DashedVertLine(DashedVertLine { step: v0, length: v1, stroke: v2 }))
            },
            Primitive::HorHalfBar => {
                let v0 = side_at(&c.slots, 0)?;
                let v1 = num_at(&c.slots, 1, m)?;
                let v2 = num_at(&c.slots, 2, m)?;
                let v3 = num_at(&c.slots, 3, m)?;
                let v4 = num_at(&c.slots, 4, m)?;
                Some(Commands::HorHalfBar(HorHalfBar { side: v0, fatness: v1, median: v2, butt_left: v3, butt_right: v4 }))
            },
            Primitive::VertHalfBar => {
                let v0 = side_at(&c.slots, 0)?;
                let v1 = num_at(&c.slots, 1, m)?;
                let v2 = num_at(&c.slots, 2, m)?;
                let v3 = num_at(&c.slots, 3, m)?;
                Some(Commands::VertHalfBar(VertHalfBar { side: v0, fatness: v1, butt_bot: v2, butt_top: v3 }))
            },
            Primitive::Box_ => {
                let v0 = point_at(&c.slots, 0, m)?;
                let v1 = point_at(&c.slots, 1, m)?;
                Some(Commands::Box_(Box_ { start: v0, end: v1 }))
            },
            Primitive::Arc => {
                let v0 = req_point_at(&c.slots, 0, m)?;
                let v1 = req_point_at(&c.slots, 1, m)?;
                let v2 = side_at(&c.slots, 2)?;
                let v3 = req_num_at(&c.slots, 3, m)?;
                let v4 = req_num_at(&c.slots, 4, m)?;
                let v5 = num_at(&c.slots, 5, m)?;
                Some(Commands::Arc(Arc { start: v0, end: v1, side: v2, stroke: v3, radius: v4, butt: v5 }))
            },
            Primitive::PolkaShade => {
                let v0 = shade_at(&c.slots, 0)?;
                Some(Commands::PolkaShade(PolkaShade { shade: v0 }))
            },
            Primitive::Diagonal => {
                let v0 = req_point_at(&c.slots, 0, m)?;
                let v1 = req_point_at(&c.slots, 1, m)?;
                let v2 = direction_at(&c.slots, 2)?;
                Some(Commands::Diagonal(Diagonal { start: v0, end: v1, direction: v2 }))
            },
            Primitive::InnerCorner => {
                let v0 = side_at(&c.slots, 0)?;
                let v1 = num_at(&c.slots, 1, m)?;
                let v2 = num_at(&c.slots, 2, m)?;
                Some(Commands::InnerCorner(InnerCorner { side: v0, fatness: v1, corner_median: v2 }))
            },
            Primitive::HorSplitBar => {
                let v0 = num_at(&c.slots, 0, m)?;
                let v1 = num_at(&c.slots, 1, m)?;
                let v2 = num_at(&c.slots, 2, m)?;
                Some(Commands::HorSplitBar(HorSplitBar { fatness: v0, butt_left: v1, butt_right: v2 }))
            },
            Primitive::VertSplitBar => {
                let v0 = num_at(&c.slots, 0, m)?;
                let v1 = num_at(&c.slots, 1, m)?;
                let v2 = num_at(&c.slots, 2, m)?;
                Some(Commands::VertSplitBar(VertSplitBar { fatness: v0, butt_bot: v1, butt_top: v2 }))
            },
            Primitive::HorLine => {
                let v0 = req_point_at(&c.slots, 0, m)?;
                let v1 = req_point_at(&c.slots, 1, m)?;
                let v2 = req_num_at(&c.slots, 2, m)?;
                let v3 = num_at(&c.slots, 3, m)?;
                let v4 = num_at(&c.slots, 4, m)?;
                Some(Commands::HorLine(HorLine { start: v0, end: v1, stroke: v2, butt_left: v3, butt_right: v4 }))
            },
    }
}

/// Why a glyph could not be drawn.
#[derive(Clone, Copy, Debug, PartialEq, Eq, Structural)]
pub enum DrawError {
    /// No recipe has this code point.
    NoSuchGlyph(u32),
    /// A command of the recipe for this code point has a field that cannot be evaluated
    /// against the metrics.
    Unresolvable(u32),
}

/// The recipe of one glyph: its commands, drawn in order.
#[derive(Debug)]
pub struct Recipe {
    pub c: u32,
    pub name: String,
    pub commands: Vec<CommandRecipe>,
}

/// The translated commands.
pub open spec fn specs_of(cmds: Seq<CommandRecipe>) -> Seq<CommandSpec> {
    cmds.map_values(|c: CommandRecipe| c.spec())
}

/// What the first `n` commands draw against `m`, where every one of them resolves.
pub open spec fn recipe_ops(cmds: Seq<CommandSpec>, m: Metrics, n: int) -> Option<Seq<PathOp>>
    decreases n,
{
    if n <= 0 {
        Some(Seq::empty())
    } else {
        match recipe_ops(cmds, m, n - 1) {
            None => None,
            Some(o) => match resolve_spec(cmds[n - 1], m) {
                None => None,
                Some(c) => Some(o + c.ops(m)),
            },
        }
    }
}

proof fn lemma_recipe_none_stays(cmds: Seq<CommandSpec>, m: Metrics, k: int, n: int)
    requires
        0 <= k <= n,
        recipe_ops(cmds, m, k) is None,
    ensures
        recipe_ops(cmds, m, n) is None,
    decreases n - k,
{
    if n > k {
        lemma_recipe_none_stays(cmds, m, k, n - 1);
    }
}

impl Recipe {
    /// What the recipe draws against `m`.
    pub open spec fn ops(&self, m: Metrics) -> Option<Seq<PathOp>> {
        recipe_ops(specs_of(self.commands@), m, self.commands@.len() as int)
    }

    /// Draws the commands in order.
    pub fn execute(&self, ctx: &mut DrawingCommand) -> (r: Result<(), DrawError>)
        requires
            old(ctx).metrics.wf(),
        ensures
            final(ctx).metrics == old(ctx).metrics,
            r is Ok <==> self.ops(old(ctx).metrics) is Some,
            r is Err ==> r == Err::<(), DrawError>(DrawError::Unresolvable(self.c)),
            r is Ok ==> final(ctx).ops() == old(ctx).ops() + self.ops(old(ctx).metrics)->Some_0,
    {
        let ghost cmds = specs_of(self.commands@);
        let ghost m = ctx.metrics;
        let mut k: usize = 0;
        while k < self.commands.len()
            invariant
                k <= self.commands@.len(),
                cmds == specs_of(self.commands@),
                ctx.metrics == m,
                m == old(ctx).metrics,
                m.wf(),
                recipe_ops(cmds, m, k as int) is Some,
                ctx.ops() == old(ctx).ops() + recipe_ops(cmds, m, k as int)->Some_0,
            decreases self.commands@.len() - k,
        {
            assert(cmds[k as int] == self.commands@[k as int].spec());
            match resolve(&self.commands[k], &ctx.metrics) {
                Some(cmd) => {
                    let ghost before = ctx.ops();
                    cmd.execute(ctx);
                    assert(ctx.ops() =~= old(ctx).ops() + recipe_ops(cmds, m, k + 1)->Some_0);
                },
                None => {
                    proof {
                        assert(recipe_ops(cmds, m, k + 1) is None);
                        lemma_recipe_none_stays(cmds, m, k + 1, self.commands@.len() as int);
                    }
                    return Err(DrawError::Unresolvable(self.c));
                },
            }
            k += 1;
        }
        Ok(())
    }
}

} // verus!
