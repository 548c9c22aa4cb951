//! The recipe language: expressions over named metrics, translated into deferred
//! drawing commands whose values are computed against metrics at draw time.
use vstd::prelude::*;

use crate::geometry::{Direction, Shade, Side};

verus! {

/// A binary operator of the recipe language.
#[derive(Clone, Copy, Debug, PartialEq, Eq, Structural)]
pub enum Operator {
    Add,
    Sub,
    Mult,
    Div,
    /// Any other operator of the host language.
    Other,
}

/// A unary operator of the recipe language.
#[derive(Clone, Copy, Debug, PartialEq, Eq, Structural)]
pub enum UnaryOperator {
    Neg,
    /// Any other unary operator of the host language.
    Other,
}

/// One recipe expression, as parsed.
#[derive(Debug)]
pub enum Expr {
    /// An integer literal.
    Number(i64),
    /// A bare identifier.
    Name(String),
    /// A string literal.
    Str(String),
    BinOp(Box<Expr>, Operator, Box<Expr>),
    UnaryOp(UnaryOperator, Box<Expr>),
    Tuple(Vec<Expr>),
    /// `base[index]`.
    Subscript(Box<Expr>, Box<Expr>),
    /// A call with positional and keyword arguments.
    Call(Box<Expr>, Vec<Expr>, Vec<Keyword>),
    /// Any other expression of the host language, described.
    Other(String),
}

/// A keyword argument; unnamed for a spread of keywords.
#[derive(Debug)]
pub struct Keyword {
    pub name: Option<String>,
    pub value: Expr,
}

/// A named metric.
#[derive(Clone, Copy, Debug, PartialEq, Eq, Structural)]
pub enum MetricName {
    Fat,
    Butt,
    Width,
    Height,
    Median,
    Radius,
    Stroke,
    EmHeight,
    BlockTop,
    FatStroke,
    BlockHeight,
    BlockOrigin,
}

impl MetricName {
    /// The metric is a point rather than a number.
    pub open spec fn is_point(self) -> bool {
        self is BlockTop || self is BlockOrigin
    }
}

/// A coordinate of a point.
#[derive(Clone, Copy, Debug, PartialEq, Eq, Structural)]
pub enum Axis {
    X,
    Y,
}

/// A translated expression, evaluated against metrics at draw time.
#[derive(Debug)]
pub enum Term {
    Number(i64),
    Metric(MetricName),
    Coord(MetricName, Axis),
    Add(Box<Term>, Box<Term>),
    Sub(Box<Term>, Box<Term>),
    Mul(Box<Term>, Box<Term>),
    Div(Box<Term>, Box<Term>),
    Neg(Box<Term>),
    Pair(Box<Term>, Box<Term>),
    Side(Side),
    Direction(Direction),
    Shade(Shade),
}

/// What a term denotes.
#[derive(Clone, Copy, Debug, PartialEq, Eq, Structural)]
pub enum Kind {
    Number,
    Point,
    Side,
    Direction,
    Shade,
}

pub open spec fn kind_of(t: Term) -> Kind {
    match t {
        Term::Metric(n) => if n.is_point() {
            Kind::Point
        } else {
            Kind::Number
        },
        Term::Pair(_, _) => Kind::Point,
        Term::Side(_) => Kind::Side,
        Term::Direction(_) => Kind::Direction,
        Term::Shade(_) => Kind::Shade,
        _ => Kind::Number,
    }
}

impl Term {
    pub fn kind(&self) -> (r: Kind)
        ensures
            r == kind_of(*self),
    {
        match self {
            Term::Metric(n) => match n {
                MetricName::BlockTop | MetricName::BlockOrigin => Kind::Point,
                _ => Kind::Number,
            },
            Term::Pair(_, _) => Kind::Point,
            Term::Side(_) => Kind::Side,
            Term::Direction(_) => Kind::Direction,
            Term::Shade(_) => Kind::Shade,
            _ => Kind::Number,
        }
    }
}

/// A field of a drawing command.
#[derive(Clone, Copy, Debug, PartialEq, Eq, Structural)]
pub enum FieldName {
    Fatness,
    Median,
    ButtLeft,
    ButtRight,
    ButtBot,
    ButtTop,
    Step,
    Width,
    Length,
    Stroke,
    Side,
    Start,
    End,
    Radius,
    Butt,
    Shade,
    Direction,
    CornerMedian,
}

/// A drawing primitive that a recipe can call.
#[derive(Clone, Copy, Debug, PartialEq, Eq, Structural)]
pub enum Primitive {
    HorBar,
    VertBar,
    DashedHorLine,
    DashedVertLine,
    HorHalfBar,
    VertHalfBar,
    Box_,
    Arc,
    PolkaShade,
    Diagonal,
    InnerCorner,
    HorSplitBar,
    VertSplitBar,
    HorLine,
}

/// The fields of a primitive, in declaration order.
pub open spec fn fields_of(p: Primitive) -> Seq<FieldName> {
    match p {
        Primitive::HorBar => seq![FieldName::Fatness, FieldName::Median, FieldName::ButtLeft, FieldName::ButtRight],
        Primitive::VertBar => seq![FieldName::Fatness, FieldName::ButtBot, FieldName::ButtTop],
        Primitive::DashedHorLine => seq![FieldName::Step, FieldName::Width, FieldName::Stroke],
        Primitive::DashedVertLine => seq![FieldName::Step, FieldName::Length, FieldName::Stroke],
        Primitive::HorHalfBar => seq![
            FieldName::Side,
            FieldName::Fatness,
            FieldName::Median,
            FieldName::ButtLeft,
            FieldName::ButtRight,
        ],
        Primitive::VertHalfBar => seq![FieldName::Side, FieldName::Fatness, FieldName::ButtBot, FieldName::ButtTop],
        Primitive::Box_ => seq![FieldName::Start, FieldName::End],
        Primitive::Arc => seq![
            FieldName::Start,
            FieldName::End,
            FieldName::Side,
            FieldName::Stroke,
            FieldName::Radius,
            FieldName::Butt,
        ],
        Primitive::PolkaShade => seq![FieldName::Shade],
        Primitive::Diagonal => seq![FieldName::Start, FieldName::End, FieldName::Direction],
        Primitive::InnerCorner => seq![FieldName::Side, FieldName::Fatness, FieldName::CornerMedian],
        Primitive::HorSplitBar => seq![FieldName::Fatness, FieldName::ButtLeft, FieldName::ButtRight],
        Primitive::VertSplitBar => seq![FieldName::Fatness, FieldName::ButtBot, FieldName::ButtTop],
        Primitive::HorLine => seq![
            FieldName::Start,
            FieldName::End,
            FieldName::Stroke,
            FieldName::ButtLeft,
            FieldName::ButtRight,
        ],
    }
}

/// What a field holds.
pub open spec fn field_kind(f: FieldName) -> Kind {
    match f {
        FieldName::Side => Kind::Side,
        FieldName::Start | FieldName::End => Kind::Point,
        FieldName::Shade => Kind::Shade,
        FieldName::Direction => Kind::Direction,
        _ => Kind::Number,
    }
}

/// The field has no default.
pub open spec fn is_required(p: Primitive, f: FieldName) -> bool {
    match f {
        FieldName::Step | FieldName::Side | FieldName::Shade | FieldName::Direction | FieldName::Radius => true,
        FieldName::Start | FieldName::End => !(p is Box_),
        FieldName::Stroke => p is Arc || p is HorLine,
        _ => false,
    }
}

pub fn fields(p: Primitive) -> (r: Vec<FieldName>)
    ensures
        r@ == fields_of(p),
{
    let r = match p {
        Primitive::HorBar => vec![FieldName::Fatness, FieldName::Median, FieldName::ButtLeft, FieldName::ButtRight],
        Primitive::VertBar => vec![FieldName::Fatness, FieldName::ButtBot, FieldName::ButtTop],
        Primitive::DashedHorLine => vec![FieldName::Step, FieldName::Width, FieldName::Stroke],
        Primitive::DashedVertLine => vec![FieldName::Step, FieldName::Length, FieldName::Stroke],
        Primitive::HorHalfBar => vec![
            FieldName::Side,
            FieldName::Fatness,
            FieldName::Median,
            FieldName::ButtLeft,
            FieldName::ButtRight,
        ],
        Primitive::VertHalfBar => vec![FieldName::Side, FieldName::Fatness, FieldName::ButtBot, FieldName::ButtTop],
        Primitive::Box_ => vec![FieldName::Start, FieldName::End],
        Primitive::Arc => vec![
            FieldName::Start,
            FieldName::End,
            FieldName::Side,
            FieldName::Stroke,
            FieldName::Radius,
            FieldName::Butt,
        ],
        Primitive::PolkaShade => vec![FieldName::Shade],
        Primitive::Diagonal => vec![FieldName::Start, FieldName::End, FieldName::Direction],
        Primitive::InnerCorner => vec![FieldName::Side, FieldName::Fatness, FieldName::CornerMedian],
        Primitive::HorSplitBar => vec![FieldName::Fatness, FieldName::ButtLeft, FieldName::ButtRight],
        Primitive::VertSplitBar => vec![FieldName::Fatness, FieldName::ButtBot, FieldName::ButtTop],
        Primitive::HorLine => vec![
            FieldName::Start,
            FieldName::End,
            FieldName::Stroke,
            FieldName::ButtLeft,
            FieldName::ButtRight,
        ],
    };
    assert(r@ =~= fields_of(p));
    r
}

fn kind_of_field(f: FieldName) -> (r: Kind)
    ensures
        r == field_kind(f),
{
    match f {
        FieldName::Side => Kind::Side,
        FieldName::Start | FieldName::End => Kind::Point,
        FieldName::Shade => Kind::Shade,
        FieldName::Direction => Kind::Direction,
        _ => Kind::Number,
    }
}

fn required(p: Primitive, f: FieldName) -> (r: bool)
    ensures
        r == is_required(p, f),
{
    match f {
        FieldName::Step | FieldName::Side | FieldName::Shade | FieldName::Direction | FieldName::Radius => true,
        FieldName::Start | FieldName::End => match p {
            Primitive::Box_ => false,
            _ => true,
        },
        FieldName::Stroke => match p {
            Primitive::Arc | Primitive::HorLine => true,
            _ => false,
        },
        _ => false,
    }
}

/// Why a recipe expression could not be translated.
#[derive(Clone, Debug, PartialEq, Eq)]
pub enum TranslateError {
    /// An identifier outside the table of metric names.
    UnknownConstant(String),
    /// A string literal outside the table of enumerated values.
    UnknownString(String),
    /// A keyword outside the table of keyword names.
    UnknownKeyword(String),
    /// A callee that names no primitive.
    UnknownPrimitive(String),
    /// A keyword that names a field the primitive does not have.
    NoSuchField(FieldName),
    /// A required field that was given no value.
    MissingField(FieldName),
    /// More positional arguments than the primitive has fields.
    TooManyArguments,
    /// A tuple with other than two elements; its length.
    TupleArity(usize),
    /// A subscript other than `POINT_METRIC[0]` or `POINT_METRIC[1]`.
    BadSubscript,
    /// An operator outside `+ - * /` and unary `-`.
    UnsupportedOperator,
    /// A value of the wrong kind for its place.
    TypeMismatch,
    /// An expression outside the recipe grammar, described.
    UnsupportedExpression(String),
    /// A call where a value is expected.
    NestedCall,
    /// A keyword argument without a name.
    UnnamedKeyword,
    /// A call whose callee is not a bare identifier.
    BadCallee,
    /// A command expression that is not a call.
    NotACall,
}

/// `s` holds the same text as `lit`.
fn text_is(s: &String, lit: &str) -> (r: bool)
    ensures
        r == (s@ == lit@),
{
    let t: String = lit.to_owned();
    *s == t
}

/// The metric an upper-case identifier names.
pub open spec fn const_of(name: Seq<char>) -> Option<MetricName> {
    if name == "FAT"@ {
        Some(MetricName::Fat)
    } else if name == "BUTT"@ {
        Some(MetricName::Butt)
    } else if name == "WIDTH"@ {
        Some(MetricName::Width)
    } else if name == "HEIGHT"@ {
        Some(MetricName::Height)
    } else if name == "MEDIAN"@ {
        Some(MetricName::Median)
    } else if name == "RADIUS"@ {
        Some(MetricName::Radius)
    } else if name == "STROKE"@ {
        Some(MetricName::Stroke)
    } else if name == "EM_HEIGHT"@ {
        Some(MetricName::EmHeight)
    } else if name == "BLOCK_TOP"@ {
        Some(MetricName::BlockTop)
    } else if name == "FAT_STROKE"@ {
        Some(MetricName::FatStroke)
    } else if name == "BLOCK_HEIGHT"@ {
        Some(MetricName::BlockHeight)
    } else if name == "BLOCK_ORIGIN"@ {
        Some(MetricName::BlockOrigin)
    } else {
        None
    }
}

pub fn normalized_const(name: &String) -> (r: Option<MetricName>)
    ensures
        r == const_of(name@),
{
    if text_is(name, "FAT") {
        Some(MetricName::Fat)
    } else if text_is(name, "BUTT") {
        Some(MetricName::Butt)
    } else if text_is(name, "WIDTH") {
        Some(MetricName::Width)
    } else if text_is(name, "HEIGHT") {
        Some(MetricName::Height)
    } else if text_is(name, "MEDIAN") {
        Some(MetricName::Median)
    } else if text_is(name, "RADIUS") {
        Some(MetricName::Radius)
    } else if text_is(name, "STROKE") {
        Some(MetricName::Stroke)
    } else if text_is(name, "EM_HEIGHT") {
        Some(MetricName::EmHeight)
    } else if text_is(name, "BLOCK_TOP") {
        Some(MetricName::BlockTop)
    } else if text_is(name, "FAT_STROKE") {
        Some(MetricName::FatStroke)
    } else if text_is(name, "BLOCK_HEIGHT") {
        Some(MetricName::BlockHeight)
    } else if text_is(name, "BLOCK_ORIGIN") {
        Some(MetricName::BlockOrigin)
    } else {
        None
    }
}

/// The field a keyword of the recipe language names.
pub open spec fn keyword_of(name: Seq<char>) -> Option<FieldName> {
    if name == "buttB"@ {
        Some(FieldName::ButtBot)
    } else if name == "buttT"@ {
        Some(FieldName::ButtTop)
    } else if name == "buttL"@ {
        Some(FieldName::ButtLeft)
    } else if name == "buttR"@ {
        Some(FieldName::ButtRight)
    } else if name == "start"@ {
        Some(FieldName::Start)
    } else if name == "end"@ {
        Some(FieldName::End)
    } else if name == "step"@ {
        Some(FieldName::Step)
    } else if name == "stroke"@ {
        Some(FieldName::Stroke)
    } else {
        None
    }
}

pub fn normalized_keyword(name: &String) -> (r: Option<FieldName>)
    ensures
        r == keyword_of(name@),
{
    if text_is(name, "buttB") {
        Some(FieldName::ButtBot)
    } else if text_is(name, "buttT") {
        Some(FieldName::ButtTop)
    } else if text_is(name, "buttL") {
        Some(FieldName::ButtLeft)
    } else if text_is(name, "buttR") {
        Some(FieldName::ButtRight)
    } else if text_is(name, "start") {
        Some(FieldName::Start)
    } else if text_is(name, "end") {
        Some(FieldName::End)
    } else if text_is(name, "step") {
        Some(FieldName::Step)
    } else if text_is(name, "stroke") {
        Some(FieldName::Stroke)
    } else {
        None
    }
}

/// The enumerated value a string literal names.
pub open spec fn string_of(s: Seq<char>) -> Option<Term> {
    if s == "right"@ {
        Some(Term::Side(Side::TopRight))
    } else if s == "left"@ {
        Some(Term::Side(Side::BottomLeft))
    } else if s == "top"@ {
        Some(Term::Side(Side::TopLeft))
    } else if s == "bottom"@ {
        Some(Term::Side(Side::BottomRight))
    } else if s == "TL"@ {
        Some(Term::Side(Side::TopLeft))
    } else if s == "TR"@ {
        Some(Term::Side(Side::TopRight))
    } else if s == "BL"@ {
        Some(Term::Side(Side::BottomLeft))
    } else if s == "BR"@ {
        Some(Term::Side(Side::BottomRight))
    } else if s == "bottomUp"@ {
        Some(Term::Direction(Direction::BottomUp))
    } else if s == "topDown"@ {
        Some(Term::Direction(Direction::TopDown))
    } else if s == "25"@ {
        Some(Term::Shade(Shade::TwentyFive))
    } else if s == "50"@ {
        Some(Term::Shade(Shade::Fifty))
    } else if s == "75"@ {
        Some(Term::Shade(Shade::SeventyFive))
    } else {
        None
    }
}

pub fn normalized_string(s: &String) -> (r: Option<Term>)
    ensures
        r == string_of(s@),
{
    if text_is(s, "right") {
        Some(Term::Side(Side::TopRight))
    } else if text_is(s, "left") {
        Some(Term::Side(Side::BottomLeft))
    } else if text_is(s, "top") {
        Some(Term::Side(Side::TopLeft))
    } else if text_is(s, "bottom") {
        Some(Term::Side(Side::BottomRight))
    } else if text_is(s, "TL") {
        Some(Term::Side(Side::TopLeft))
    } else if text_is(s, "TR") {
        Some(Term::Side(Side::TopRight))
    } else if text_is(s, "BL") {
        Some(Term::Side(Side::BottomLeft))
    } else if text_is(s, "BR") {
        Some(Term::Side(Side::BottomRight))
    } else if text_is(s, "bottomUp") {
        Some(Term::Direction(Direction::BottomUp))
    } else if text_is(s, "topDown") {
        Some(Term::Direction(Direction::TopDown))
    } else if text_is(s, "25") {
        Some(Term::Shade(Shade::TwentyFive))
    } else if text_is(s, "50") {
        Some(Term::Shade(Shade::Fifty))
    } else if text_is(s, "75") {
        Some(Term::Shade(Shade::SeventyFive))
    } else {
        None
    }
}

/// The primitive a callee names.
pub open spec fn primitive_of(name: Seq<char>) -> Option<Primitive> {
    if name == "hor_bar"@ {
        Some(Primitive::HorBar)
    } else if name == "vert_bar"@ {
        Some(Primitive::VertBar)
    } else if name == "dashed_hor_line"@ {
        Some(Primitive::DashedHorLine)
    } else if name == "dashed_vert_line"@ {
        Some(Primitive::DashedVertLine)
    } else if name == "hor_half_bar"@ {
        Some(Primitive::HorHalfBar)
    } else if name == "vert_half_bar"@ {
        Some(Primitive::VertHalfBar)
    } else if name == "box"@ || name == "box_"@ {
        Some(Primitive::Box_)
    } else if name == "arc"@ {
        Some(Primitive::Arc)
    } else if name == "polka_shade"@ {
        Some(Primitive::PolkaShade)
    } else if name == "diagonal"@ {
        Some(Primitive::Diagonal)
    } else if name == "inner_corner"@ {
        Some(Primitive::InnerCorner)
    } else if name == "hor_split_bar"@ {
        Some(Primitive::HorSplitBar)
    } else if name == "vert_split_bar"@ {
        Some(Primitive::VertSplitBar)
    } else if name == "hor_line"@ {
        Some(Primitive::HorLine)
    } else {
        None
    }
}

pub fn normalized_primitive(name: &String) -> (r: Option<Primitive>)
    ensures
        r == primitive_of(name@),
{
    if text_is(name, "hor_bar") {
        Some(Primitive::HorBar)
    } else if text_is(name, "vert_bar") {
        Some(Primitive::VertBar)
    } else if text_is(name, "dashed_hor_line") {
        Some(Primitive::DashedHorLine)
    } else if text_is(name, "dashed_vert_line") {
        Some(Primitive::DashedVertLine)
    } else if text_is(name, "hor_half_bar") {
        Some(Primitive::HorHalfBar)
    } else if text_is(name, "vert_half_bar") {
        Some(Primitive::VertHalfBar)
    } else if text_is(name, "box") || text_is(name, "box_") {
        Some(Primitive::Box_)
    } else if text_is(name, "arc") {
        Some(Primitive::Arc)
    } else if text_is(name, "polka_shade") {
        Some(Primitive::PolkaShade)
    } else if text_is(name, "diagonal") {
        Some(Primitive::Diagonal)
    } else if text_is(name, "inner_corner") {
        Some(Primitive::InnerCorner)
    } else if text_is(name, "hor_split_bar") {
        Some(Primitive::HorSplitBar)
    } else if text_is(name, "vert_split_bar") {
        Some(Primitive::VertSplitBar)
    } else if text_is(name, "hor_line") {
        Some(Primitive::HorLine)
    } else {
        None
    }
}

/// The translation of one expression of the recipe grammar.
pub open spec fn translate(e: Expr) -> Result<Term, TranslateError>
    decreases e,
{
    match e {
        Expr::Number(v) => Ok(Term::Number(v)),
        Expr::Name(n) => match const_of(n@) {
            Some(c) => Ok(Term::Metric(c)),
            None => Err(TranslateError::UnknownConstant(n)),
        },
        Expr::Str(s) => match string_of(s@) {
            Some(t) => Ok(t),
            None => Err(TranslateError::UnknownString(s)),
        },
        Expr::BinOp(a, op, b) => match translate(*a) {
            Err(x) => Err(x),
            Ok(ta) => if op is Other {
                Err(TranslateError::UnsupportedOperator)
            } else {
                match translate(*b) {
                    Err(x) => Err(x),
                    Ok(tb) => if kind_of(ta) != Kind::Number || kind_of(tb) != Kind::Number {
                        Err(TranslateError::TypeMismatch)
                    } else {
                        Ok(
                            match op {
                                Operator::Add => Term::Add(Box::new(ta), Box::new(tb)),
                                Operator::Sub => Term::Sub(Box::new(ta), Box::new(tb)),
                                Operator::Mult => Term::Mul(Box::new(ta), Box::new(tb)),
                                _ => Term::Div(Box::new(ta), Box::new(tb)),
                            },
                        )
                    },
                }
            },
        },
        Expr::UnaryOp(op, a) => if op is Other {
            Err(TranslateError::UnsupportedOperator)
        } else {
            match translate(*a) {
                Err(x) => Err(x),
                Ok(ta) => if kind_of(ta) != Kind::Number {
                    Err(TranslateError::TypeMismatch)
                } else {
                    Ok(Term::Neg(Box::new(ta)))
                },
            }
        },
        Expr::Tuple(els) => if els.len() != 2 {
            Err(TranslateError::TupleArity(els.len()))
        } else {
            match translate(els[0]) {
                Err(x) => Err(x),
                Ok(t0) => match translate(els[1]) {
                    Err(x) => Err(x),
                    Ok(t1) => if kind_of(t0) != Kind::Number || kind_of(t1) != Kind::Number {
                        Err(TranslateError::TypeMismatch)
                    } else {
                        Ok(Term::Pair(Box::new(t0), Box::new(t1)))
                    },
                },
            }
        },
        Expr::Subscript(a, b) => match *a {
            Expr::Name(n) => match const_of(n@) {
                None => Err(TranslateError::UnknownConstant(n)),
                Some(c) => if !c.is_point() {
                    Err(TranslateError::BadSubscript)
                } else {
                    match *b {
                        Expr::Number(0) => Ok(Term::Coord(c, Axis::X)),
                        Expr::Number(1) => Ok(Term::Coord(c, Axis::Y)),
                        _ => Err(TranslateError::BadSubscript),
                    }
                },
            },
            _ => Err(TranslateError::BadSubscript),
        },
        Expr::Call(_, _, _) => Err(TranslateError::NestedCall),
        Expr::Other(d) => Err(TranslateError::UnsupportedExpression(d)),
    }
}

/// Translates one expression of the recipe grammar; anything outside it is an error.
pub fn take_expr(e: &Expr) -> (r: Result<Term, TranslateError>)
    ensures
        r == translate(*e),
    decreases e, 1nat,
{
    match e {
        Expr::Number(v) => Ok(Term::Number(*v)),
        Expr::Name(n) => match normalized_const(n) {
            Some(c) => Ok(Term::Metric(c)),
            None => Err(TranslateError::UnknownConstant(n.clone())),
        },
        Expr::Str(s) => match normalized_string(s) {
            Some(t) => Ok(t),
            None => Err(TranslateError::UnknownString(s.clone())),
        },
        Expr::BinOp(a, op, b) => {
            let ta = take_expr(a)?;
            if let Operator::Other = op {
                return Err(TranslateError::UnsupportedOperator);
            }
            let tb = take_expr(b)?;
            if ta.kind() != Kind::Number || tb.kind() != Kind::Number {
                return Err(TranslateError::TypeMismatch);
            }
            Ok(
                match op {
                    Operator::Add => Term::Add(Box::new(ta), Box::new(tb)),
                    Operator::Sub => Term::Sub(Box::new(ta), Box::new(tb)),
                    Operator::Mult => Term::Mul(Box::new(ta), Box::new(tb)),
                    _ => Term::Div(Box::new(ta), Box::new(tb)),
                },
            )
        },
        Expr::UnaryOp(op, a) => {
            if let UnaryOperator::Other = op {
                return Err(TranslateError::UnsupportedOperator);
            }
            let ta = take_expr(a)?;
            if ta.kind() != Kind::Number {
                return Err(TranslateError::TypeMismatch);
            }
            Ok(Term::Neg(Box::new(ta)))
        },
        Expr::Tuple(els) => take_tuple(els),
        Expr::Subscript(a, b) => match &**a {
            Expr::Name(n) => match normalized_const(n) {
                None => Err(TranslateError::UnknownConstant(n.clone())),
                Some(c) => {
                    match c {
                        MetricName::BlockTop | MetricName::BlockOrigin => {},
                        _ => {
                            return Err(TranslateError::BadSubscript);
                        },
                    }
                    match &**b {
                        Expr::Number(v) => if *v == 0 {
                            Ok(Term::Coord(c, Axis::X))
                        } else if *v == 1 {
                            Ok(Term::Coord(c, Axis::Y))
                        } else {
                            Err(TranslateError::BadSubscript)
                        },
                        _ => Err(TranslateError::BadSubscript),
                    }
                },
            },
            _ => Err(TranslateError::BadSubscript),
        },
        Expr::Call(_, _, _) => Err(TranslateError::NestedCall),
        Expr::Other(d) => Err(TranslateError::UnsupportedExpression(d.clone())),
    }
}

/// Translates a tuple, which must have exactly two numeric elements, into a point.
pub fn take_tuple(elements: &Vec<Expr>) -> (r: Result<Term, TranslateError>)
    ensures
        r == translate(Expr::Tuple(*elements)),
    decreases Expr::Tuple(*elements), 0nat,
{
    if elements.len() != 2 {
        return Err(TranslateError::TupleArity(elements.len()));
    }
    proof {
        assert(decreases_to!(Expr::Tuple(*elements) => elements@[0]));
        assert(decreases_to!(Expr::Tuple(*elements) => elements@[1]));
    }
    let t0 = take_expr(&elements[0])?;
    let t1 = take_expr(&elements[1])?;
    if t0.kind() != Kind::Number || t1.kind() != Kind::Number {
        return Err(TranslateError::TypeMismatch);
    }
    Ok(Term::Pair(Box::new(t0), Box::new(t1)))
}

/// A command whose values are computed against metrics when it is drawn: one slot per
/// field of the primitive, in declaration order.
#[derive(Debug)]
pub struct CommandRecipe {
    pub primitive: Primitive,
    pub slots: Vec<Option<Term>>,
}

/// A translated command: its primitive and the terms of its fields.
pub type CommandSpec = (Primitive, Seq<Option<Term>>);

impl CommandRecipe {
    pub open spec fn spec(&self) -> CommandSpec {
        (self.primitive, self.slots@)
    }
}

/// The name of the pen that recipes pass as their first argument.
pub const PEN: &'static str = "boxPen";

/// How many leading arguments are the pen: one where the first argument names it.
pub open spec fn pen_offset(args: Seq<Expr>) -> int {
    if args.len() > 0 && args[0] is Name && args[0]->Name_0@ == PEN@ {
        1
    } else {
        0
    }
}

/// A slot for every field of `p`, all empty.
pub open spec fn empty_slots(p: Primitive) -> Seq<Option<Term>> {
    Seq::new(fields_of(p).len(), |i: int| None)
}

/// Sets field `i` of `p` to the translation of `e`.
pub open spec fn place(p: Primitive, slots: Seq<Option<Term>>, i: int, e: Expr) -> Result<
    Seq<Option<Term>>,
    TranslateError,
> {
    if i >= fields_of(p).len() {
        Err(TranslateError::TooManyArguments)
    } else {
        match translate(e) {
            Err(x) => Err(x),
            Ok(t) => if kind_of(t) != field_kind(fields_of(p)[i]) {
                Err(TranslateError::TypeMismatch)
            } else {
                Ok(slots.update(i, Some(t)))
            },
        }
    }
}

/// The slots after the positional arguments `args[off..n]`.
pub open spec fn fill_positional(p: Primitive, args: Seq<Expr>, off: int, n: int) -> Result<
    Seq<Option<Term>>,
    TranslateError,
>
    decreases n - off,
{
    if n <= off {
        Ok(empty_slots(p))
    } else {
        match fill_positional(p, args, off, n - 1) {
            Err(x) => Err(x),
            Ok(s) => place(p, s, n - 1 - off, args[n - 1]),
        }
    }
}

/// The first position of `f` in `fs` at `i` or later.
pub open spec fn index_from(fs: Seq<FieldName>, f: FieldName, i: int) -> Option<int>
    decreases fs.len() - i,
{
    if i < 0 || i >= fs.len() {
        None
    } else if fs[i] == f {
        Some(i)
    } else {
        index_from(fs, f, i + 1)
    }
}

/// Sets the field a keyword argument names.
pub open spec fn place_keyword(p: Primitive, slots: Seq<Option<Term>>, k: Keyword) -> Result<
    Seq<Option<Term>>,
    TranslateError,
> {
    match k.name {
        None => Err(TranslateError::UnnamedKeyword),
        Some(name) => match keyword_of(name@) {
            None => Err(TranslateError::UnknownKeyword(name)),
            Some(f) => match index_from(fields_of(p), f, 0) {
                None => Err(TranslateError::NoSuchField(f)),
                Some(i) => match translate(k.value) {
                    Err(x) => Err(x),
                    Ok(t) => if kind_of(t) != field_kind(f) {
                        Err(TranslateError::TypeMismatch)
                    } else {
                        Ok(slots.update(i, Some(t)))
                    },
                },
            },
        },
    }
}

/// The slots after the first `n` keyword arguments, starting from `start`.
pub open spec fn fill_keywords(p: Primitive, kws: Seq<Keyword>, start: Seq<Option<Term>>, n: int) -> Result<
    Seq<Option<Term>>,
    TranslateError,
>
    decreases n,
{
    if n <= 0 {
        Ok(start)
    } else {
        match fill_keywords(p, kws, start, n - 1) {
            Err(x) => Err(x),
            Ok(s) => place_keyword(p, s, kws[n - 1]),
        }
    }
}

/// The first required field, at `i` or later, that has no value.
pub open spec fn first_missing(p: Primitive, slots: Seq<Option<Term>>, i: int) -> Option<FieldName>
    decreases fields_of(p).len() - i,
{
    if i < 0 || i >= fields_of(p).len() {
        None
    } else if is_required(p, fields_of(p)[i]) && slots[i] is None {
        Some(fields_of(p)[i])
    } else {
        first_missing(p, slots, i + 1)
    }
}

/// The translation of a call of a primitive.
pub open spec fn translate_command(e: Expr) -> Result<CommandSpec, TranslateError> {
    match e {
        Expr::Call(f, args, kws) => match *f {
            Expr::Name(n) => match primitive_of(n@) {
                None => Err(TranslateError::UnknownPrimitive(n)),
                Some(p) => match fill_positional(p, args@, pen_offset(args@), args@.len() as int) {
                    Err(x) => Err(x),
                    Ok(s1) => match fill_keywords(p, kws@, s1, kws@.len() as int) {
                        Err(x) => Err(x),
                        Ok(s2) => match first_missing(p, s2, 0) {
                            Some(f) => Err(TranslateError::MissingField(f)),
                            None => Ok((p, s2)),
                        },
                    },
                },
            },
            _ => Err(TranslateError::BadCallee),
        },
        _ => Err(TranslateError::NotACall),
    }
}

proof fn lemma_positional_error_stays(p: Primitive, args: Seq<Expr>, off: int, k: int, n: int)
    requires
        off <= k <= n,
        fill_positional(p, args, off, k) is Err,
    ensures
        fill_positional(p, args, off, n) == fill_positional(p, args, off, k),
    decreases n - k,
{
    if n > k {
        lemma_positional_error_stays(p, args, off, k, n - 1);
    }
}

proof fn lemma_keyword_error_stays(p: Primitive, kws: Seq<Keyword>, start: Seq<Option<Term>>, k: int, n: int)
    requires
        0 <= k <= n,
        fill_keywords(p, kws, start, k) is Err,
    ensures
        fill_keywords(p, kws, start, n) == fill_keywords(p, kws, start, k),
    decreases n - k,
{
    if n > k {
        lemma_keyword_error_stays(p, kws, start, k, n - 1);
    }
}

fn is_pen(e: &Expr) -> (r: bool)
    ensures
        r == (*e is Name && e->Name_0@ == PEN@),
{
    match e {
        Expr::Name(n) => text_is(n, PEN),
        _ => false,
    }
}

/// Translates the argument `e` for field `i` of `p` into `slots`.
fn place_term(p: Primitive, fs: &Vec<FieldName>, slots: &mut Vec<Option<Term>>, i: usize, e: &Expr) -> (r: Result<
    (),
    TranslateError,
>)
    requires
        fs@ == fields_of(p),
        old(slots)@.len() == fields_of(p).len(),
    ensures
        final(slots)@.len() == old(slots)@.len(),
        match place(p, old(slots)@, i as int, *e) {
            Ok(s) => r is Ok && final(slots)@ == s,
            Err(x) => r == Err::<(), TranslateError>(x),
        },
{
    if i >= fs.len() {
        return Err(TranslateError::TooManyArguments);
    }
    let t = take_expr(e)?;
    if t.kind() != kind_of_field(fs[i]) {
        return Err(TranslateError::TypeMismatch);
    }
    slots.set(i, Some(t));
    Ok(())
}

/// The first position of `f` in `fs`.
fn field_index(fs: &Vec<FieldName>, f: FieldName) -> (r: Option<usize>)
    ensures
        match index_from(fs@, f, 0) {
            Some(i) => r == Some(i as usize),
            None => r is None,
        },
{
    let mut i: usize = 0;
    while i < fs.len()
        invariant
            i <= fs@.len(),
            index_from(fs@, f, 0) == index_from(fs@, f, i as int),
        decreases fs@.len() - i,
    {
        if fs[i] == f {
            return Some(i);
        }
        i += 1;
    }
    None
}

/// Lowers one call of a primitive into a deferred command. Positional arguments fill the
/// primitive's fields in declaration order, after the pen; keyword arguments fill the
/// field their keyword names; every required field must be given.
pub fn build_command(e: &Expr) -> (r: Result<CommandRecipe, TranslateError>)
    ensures
        match translate_command(*e) {
            Ok(c) => r matches Ok(cmd) && cmd.spec() == c,
            Err(x) => r matches Err(y) && y == x,
        },
{
    let (f, args, keywords) = match e {
        Expr::Call(f, args, keywords) => (f, args, keywords),
        _ => {
            return Err(TranslateError::NotACall);
        },
    };
    let name = match &**f {
        Expr::Name(n) => n,
        _ => {
            return Err(TranslateError::BadCallee);
        },
    };
    let p = match normalized_primitive(name) {
        Some(p) => p,
        None => {
            return Err(TranslateError::UnknownPrimitive(name.clone()));
        },
    };
    let fs = fields(p);
    let mut slots: Vec<Option<Term>> = Vec::new();
    let mut k: usize = 0;
    while k < fs.len()
        invariant
            k <= fs@.len(),
            fs@ == fields_of(p),
            slots@ =~= Seq::new(k as nat, |i: int| None::<Term>),
        decreases fs@.len() - k,
    {
        slots.push(None);
        k += 1;
    }
    let off: usize = if args.len() > 0 && is_pen(&args[0]) {
        1
    } else {
        0
    };
    assert(off as int == pen_offset(args@));
    let mut i: usize = off;
    while i < args.len()
        invariant
            off <= i <= args@.len(),
            off as int == pen_offset(args@),
            *e is Call && e->Call_0 == *f && e->Call_1 == *args && e->Call_2 == *keywords,
            **f == Expr::Name(*name),
            primitive_of(name@) == Some(p),
            fs@ == fields_of(p),
            slots@.len() == fields_of(p).len(),
            fill_positional(p, args@, off as int, i as int) == Ok::<Seq<Option<Term>>, TranslateError>(slots@),
        decreases args@.len() - i,
    {
        match place_term(p, &fs, &mut slots, i - off, &args[i]) {
            Ok(()) => {},
            Err(x) => {
                proof {
                    assert(fill_positional(p, args@, off as int, i + 1) == Err::<Seq<Option<Term>>, TranslateError>(x));
                    lemma_positional_error_stays(p, args@, off as int, i + 1, args@.len() as int);
                }
                return Err(x);
            },
        }
        i += 1;
    }
    let ghost s1 = slots@;
    let mut j: usize = 0;
    while j < keywords.len()
        invariant
            j <= keywords@.len(),
            fs@ == fields_of(p),
            s1 == fill_positional(p, args@, pen_offset(args@), args@.len() as int)->Ok_0,
            fill_positional(p, args@, pen_offset(args@), args@.len() as int) is Ok,
            *e is Call && e->Call_0 == *f && e->Call_1 == *args && e->Call_2 == *keywords,
            **f == Expr::Name(*name),
            primitive_of(name@) == Some(p),
            slots@.len() == fields_of(p).len(),
            fill_keywords(p, keywords@, s1, j as int) == Ok::<Seq<Option<Term>>, TranslateError>(slots@),
        decreases keywords@.len() - j,
    {
        let kw = &keywords[j];
        let step: Result<(), TranslateError> = match &kw.name {
            None => Err(TranslateError::UnnamedKeyword),
            Some(kname) => match normalized_keyword(kname) {
                None => Err(TranslateError::UnknownKeyword(kname.clone())),
                Some(field) => match field_index(&fs, field) {
                    None => Err(TranslateError::NoSuchField(field)),
                    Some(idx) => {
                        proof {
                            lemma_index_from_bounds(fs@, field, 0);
                        }
                        match take_expr(&kw.value) {
                            Err(x) => Err(x),
                            Ok(t) => if t.kind() != kind_of_field(field) {
                                Err(TranslateError::TypeMismatch)
                            } else {
                                slots.set(idx, Some(t));
                                Ok(())
                            },
                        }
                    },
                },
            },
        };
        match step {
            Ok(()) => {},
            Err(x) => {
                proof {
                    assert(fill_keywords(p, keywords@, s1, j + 1) == Err::<Seq<Option<Term>>, TranslateError>(x));
                    lemma_keyword_error_stays(p, keywords@, s1, j + 1, keywords@.len() as int);
                }
                return Err(x);
            },
        }
        j += 1;
    }
    let mut m: usize = 0;
    while m < fs.len()
        invariant
            m <= fs@.len(),
            fs@ == fields_of(p),
            fill_positional(p, args@, pen_offset(args@), args@.len() as int) is Ok,
            fill_keywords(p, keywords@, fill_positional(p, args@, pen_offset(args@), args@.len() as int)->Ok_0, keywords@.len() as int) == Ok::<Seq<Option<Term>>, TranslateError>(slots@),
            *e is Call && e->Call_0 == *f && e->Call_1 == *args && e->Call_2 == *keywords,
            **f == Expr::Name(*name),
            primitive_of(name@) == Some(p),
            slots@.len() == fields_of(p).len(),
            first_missing(p, slots@, 0) == first_missing(p, slots@, m as int),
        decreases fs@.len() - m,
    {
        if required(p, fs[m]) && slots[m].is_none() {
            assert(first_missing(p, slots@, m as int) == Some(fs@[m as int]));
            return Err(TranslateError::MissingField(fs[m]));
        }
        m += 1;
    }
    Ok(CommandRecipe { primitive: p, slots })
}

proof fn lemma_index_from_bounds(fs: Seq<FieldName>, f: FieldName, i: int)
    ensures
        index_from(fs, f, i) matches Some(k) ==> 0 <= k < fs.len() && fs[k] == f,
    decreases fs.len() - i,
{
    if i >= 0 && i < fs.len() && fs[i] != f {
        lemma_index_from_bounds(fs, f, i + 1);
    }
}

} // verus!
