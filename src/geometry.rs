//! Points, path operations, orientation enums and font metrics.
//!
//! All coordinates are integers in font design units. Halving and other
//! divisions round toward negative infinity.
use vstd::prelude::*;

verus! {

/// Largest magnitude of a metric or of a command parameter.
pub const COORD_LIMIT: i64 = 1048576;

/// Largest magnitude of a coordinate handed to a low-level primitive.
pub const WIDE_LIMIT: i64 = 17592186044416;

/// `Metrics::kappa` is expressed in units of `1 / KAPPA_SCALE`.
pub const KAPPA_SCALE: i64 = 10000;

pub open spec fn small(v: int) -> bool {
    -COORD_LIMIT <= v <= COORD_LIMIT
}

pub open spec fn wide(v: int) -> bool {
    -WIDE_LIMIT <= v <= WIDE_LIMIT
}

#[derive(Clone, Copy, Debug, PartialEq, Eq, Hash, Structural)]
pub struct Point {
    pub x: i64,
    pub y: i64,
}

/// The point with the given integer coordinates.
pub open spec fn pt(x: int, y: int) -> Point {
    Point { x: x as i64, y: y as i64 }
}

impl Point {
    pub fn new(x: i64, y: i64) -> (r: Point)
        ensures
            r.x == x,
            r.y == y,
    {
        Point { x, y }
    }

    pub open spec fn is_wide(self) -> bool {
        wide(self.x as int) && wide(self.y as int)
    }

    pub open spec fn is_small(self) -> bool {
        small(self.x as int) && small(self.y as int)
    }
}

impl From<(i64, i64)> for Point {
    fn from(p: (i64, i64)) -> (r: Point) {
        Point { x: p.0, y: p.1 }
    }
}

impl vstd::std_specs::convert::FromSpecImpl<(i64, i64)> for Point {
    open spec fn obeys_from_spec() -> bool {
        true
    }

    open spec fn from_spec(p: (i64, i64)) -> Point {
        Point { x: p.0, y: p.1 }
    }
}

/// One instruction for a path-drawing surface.
#[derive(Clone, Copy, Debug, PartialEq, Eq, Structural)]
pub enum PathOp {
    MoveTo(Point),
    LineTo(Point),
    CurveTo(Point, Point, Point),
    ClosePath,
}

/// Which quadrant or orientation a half bar, a corner or an arc applies to.
#[derive(Clone, Copy, Debug, PartialEq, Eq, Structural)]
pub enum Side {
    TopLeft,
    TopRight,
    BottomLeft,
    BottomRight,
}

impl Side {
    pub open spec fn is_left(self) -> bool {
        self is TopLeft || self is BottomLeft
    }

    pub open spec fn is_top(self) -> bool {
        self is TopLeft || self is TopRight
    }
}

/// Orientation of a diagonal stroke.
#[derive(Clone, Copy, Debug, PartialEq, Eq, Structural)]
pub enum Direction {
    TopDown,
    BottomUp,
}

/// Density tier of a fill pattern.
#[derive(Clone, Copy, Debug, PartialEq, Eq, Structural)]
pub enum Shade {
    TwentyFive,
    Fifty,
    SeventyFive,
}

/// Floor of `v / 2`.
pub fn half(v: i64) -> (r: i64)
    ensures
        r == v / 2,
{
    if v >= 0 {
        v / 2
    } else {
        let n: i64 = -(v + 1);
        -(n / 2) - 1
    }
}

/// Floor of `a / b` for a positive divisor.
pub fn div_floor(a: i64, b: i64) -> (r: i64)
    requires
        b > 0,
        a > i64::MIN,
    ensures
        r == a / b,
{
    if a >= 0 {
        a / b
    } else {
        let n: i64 = -(a + 1);
        let q: i64 = n / b;
        proof {
            let r = n % b;
            assert(n == b * q + r && 0 <= r < b) by (nonlinear_arith)
                requires n >= 0, b > 0, q == n / b, r == n % b;
            assert(a == b * (-q - 1) + (b - 1 - r)) by (nonlinear_arith)
                requires n == b * q + r, n == -(a + 1);
            vstd::arithmetic::div_mod::lemma_fundamental_div_mod_converse(a as int, b as int, -q - 1, b - 1 - r);
        }
        -q - 1
    }
}

/// The parameters of a font's design, in font units.
#[derive(Clone, Copy, Debug, PartialEq, Eq, Structural)]
pub struct Metrics {
    /// Glyph width.
    pub width: i64,
    /// Height for line elements, including overlap.
    pub height: i64,
    /// Median line.
    pub median: i64,
    /// General stroke weight.
    pub stroke: i64,
    /// Multiplication factor for drawing 'fat' strokes.
    pub fat: i64,
    /// Radius for arc elements.
    pub radius: i64,
    /// Height for block elements.
    pub block_height: i64,
    /// Height for elements that don't connect vertically, such as dashed strokes.
    pub em_height: i64,
    /// Stroke thickness for 'fat' lines: `stroke * fat`.
    pub fat_stroke: i64,
    /// Horizontal overlap.
    pub butt: i64,
    /// Bezier point distance for drawing circles, in units of `1 / KAPPA_SCALE`.
    pub kappa: i64,
    /// Lower left corner of block elements: `(0, median - block_height / 2)`.
    pub block_origin: Point,
    /// Upper right corner of block elements: `(width, median + block_height / 2)`.
    pub block_top: Point,
}

pub const DEFAULT_WIDTH: i64 = 600;
pub const DEFAULT_HEIGHT: i64 = 1400;
pub const DEFAULT_MEDIAN: i64 = 300;
pub const DEFAULT_STROKE: i64 = 160;
pub const DEFAULT_FAT: i64 = 2;
pub const DEFAULT_RADIUS: i64 = 300;
pub const DEFAULT_BLOCK_HEIGHT: i64 = 1400;
pub const DEFAULT_EM_HEIGHT: i64 = 1200;
/// `4 * (sqrt(2) - 1) / 3`, rounded to four decimals.
pub const DEFAULT_KAPPA: i64 = 5523;

impl Metrics {
    /// The derived fields agree with the base fields, and every field is in range.
    pub open spec fn wf(&self) -> bool {
        &&& small(self.width as int)
        &&& small(self.height as int)
        &&& small(self.median as int)
        &&& small(self.stroke as int)
        &&& small(self.fat as int)
        &&& small(self.radius as int)
        &&& small(self.block_height as int)
        &&& small(self.em_height as int)
        &&& small(self.fat_stroke as int)
        &&& small(self.butt as int)
        &&& self.width > 0
        &&& self.em_height > 0
        &&& 0 <= self.kappa <= KAPPA_SCALE
        &&& self.fat_stroke == self.stroke * self.fat
        &&& self.block_origin == pt(0, self.median - self.block_height / 2)
        &&& self.block_top == pt(self.width as int, self.median + self.block_height / 2)
    }

    /// The metrics with the given base values, or `None` where a value is out of range,
    /// `width` or `em_height` is not positive, or `kappa` is outside `0..=KAPPA_SCALE`.
    pub fn new(
        width: i64,
        height: i64,
        median: i64,
        stroke: i64,
        fat: i64,
        radius: i64,
        block_height: i64,
        em_height: i64,
        butt: i64,
        kappa: i64,
    ) -> (r: Option<Metrics>)
        ensures
            r is Some <==> {
                &&& small(width as int) && small(height as int) && small(median as int)
                &&& small(stroke as int) && small(fat as int) && small(radius as int)
                &&& small(block_height as int) && small(em_height as int) && small(butt as int)
                &&& small(stroke * fat)
                &&& width > 0 && em_height > 0
                &&& 0 <= kappa <= KAPPA_SCALE
            },
            r matches Some(m) ==> {
                &&& m.wf()
                &&& m.width == width && m.height == height && m.median == median
                &&& m.stroke == stroke && m.fat == fat && m.radius == radius
                &&& m.block_height == block_height && m.em_height == em_height
                &&& m.butt == butt && m.kappa == kappa
            },
    {
        let lim = COORD_LIMIT;
        if !(-lim <= width && width <= lim && -lim <= height && height <= lim && -lim <= median
            && median <= lim && -lim <= stroke && stroke <= lim && -lim <= fat && fat <= lim
            && -lim <= radius && radius <= lim && -lim <= block_height && block_height <= lim
            && -lim <= em_height && em_height <= lim && -lim <= butt && butt <= lim) {
            return None;
        }
        if !(width > 0 && em_height > 0 && 0 <= kappa && kappa <= KAPPA_SCALE) {
            return None;
        }
        assert(-COORD_LIMIT * COORD_LIMIT <= stroke * fat <= COORD_LIMIT * COORD_LIMIT)
            by (nonlinear_arith)
            requires small(stroke as int), small(fat as int);
        let fat_stroke: i64 = stroke * fat;
        if !(-lim <= fat_stroke && fat_stroke <= lim) {
            return None;
        }
        let hb = half(block_height);
        Some(Metrics {
            width,
            height,
            median,
            stroke,
            fat,
            radius,
            block_height,
            em_height,
            fat_stroke,
            butt,
            kappa,
            block_origin: Point { x: 0, y: median - hb },
            block_top: Point { x: width, y: median + hb },
        })
    }

    /// Changes the glyph width, keeping the block corner consistent.
    pub fn set_width(&mut self, width: i64)
        requires
            old(self).wf(),
            small(width as int),
            width > 0,
        ensures
            final(self).wf(),
            *final(self) == (Metrics { width, block_top: pt(width as int, old(self).block_top.y as int), ..*old(self) }),
    {
        self.width = width;
        self.block_top = Point { x: width, y: self.block_top.y };
    }

    /// Changes the height of line elements.
    pub fn set_height(&mut self, height: i64)
        requires
            old(self).wf(),
            small(height as int),
        ensures
            final(self).wf(),
            *final(self) == (Metrics { height, ..*old(self) }),
    {
        self.height = height;
    }
}

impl Default for Metrics {
    /// Width 600, height 1400, median 300, stroke 160, fat 2, radius 300,
    /// block height 1400, em height 1200, butt equal to the stroke.
    fn default() -> (r: Metrics)
        ensures
            r.wf(),
            r.width == DEFAULT_WIDTH,
            r.height == DEFAULT_HEIGHT,
            r.median == DEFAULT_MEDIAN,
            r.stroke == DEFAULT_STROKE,
            r.fat == DEFAULT_FAT,
            r.radius == DEFAULT_RADIUS,
            r.block_height == DEFAULT_BLOCK_HEIGHT,
            r.em_height == DEFAULT_EM_HEIGHT,
            r.butt == DEFAULT_STROKE,
            r.kappa == DEFAULT_KAPPA,
    {
        Metrics {
            width: DEFAULT_WIDTH,
            height: DEFAULT_HEIGHT,
            median: DEFAULT_MEDIAN,
            stroke: DEFAULT_STROKE,
            fat: DEFAULT_FAT,
            radius: DEFAULT_RADIUS,
            block_height: DEFAULT_BLOCK_HEIGHT,
            em_height: DEFAULT_EM_HEIGHT,
            fat_stroke: DEFAULT_STROKE * DEFAULT_FAT,
            butt: DEFAULT_STROKE,
            kappa: DEFAULT_KAPPA,
            block_origin: Point { x: 0, y: DEFAULT_MEDIAN - DEFAULT_BLOCK_HEIGHT / 2 },
            block_top: Point { x: DEFAULT_WIDTH, y: DEFAULT_MEDIAN + DEFAULT_BLOCK_HEIGHT / 2 },
        }
    }
}

/// A path-drawing surface.
pub trait Canvas {
    fn move_to(&mut self, pt: &Point);

    fn line_to(&mut self, pt: &Point);

    fn curve_to(&mut self, pt1: &Point, pt2: &Point, ptend: &Point);

    fn close_path(&mut self);
}

/// Hands each operation of `ops`, in order, to `canvas`.
pub fn replay<C: Canvas>(ops: &Vec<PathOp>, canvas: &mut C) {
    let mut i: usize = 0;
    while i < ops.len()
        invariant
            i <= ops.len(),
        decreases ops.len() - i,
    {
        match ops[i] {
            PathOp::MoveTo(p) => canvas.move_to(&p),
            PathOp::LineTo(p) => canvas.line_to(&p),
            PathOp::CurveTo(p1, p2, p3) => canvas.curve_to(&p1, &p2, &p3),
            PathOp::ClosePath => canvas.close_path(),
        }
        i += 1;
    }
}

} // verus!
