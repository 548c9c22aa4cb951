//! The glyph catalogue and the font facade that draws it.
use vstd::prelude::*;

use crate::drawing_command::DrawingCommand;
use crate::geometry::{replay, Canvas, Metrics, PathOp, Side};
use crate::recipe::{recipe_ops, specs_of, DrawError, Recipe};
use crate::translator::{CommandRecipe, CommandSpec, MetricName, Primitive, Term};

verus! {

/// The commands that draw each code point of the catalogue, in drawing order.
pub open spec fn catalogue(c: u32) -> Option<Seq<CommandSpec>> {
    if false {
        None
    } else if c == 0x2500 {
        Some(seq![(Primitive::HorBar, seq![None, None, None, None])])
    } else if c == 0x2501 {
        Some(seq![(Primitive::HorBar, seq![Some(Term::Metric(MetricName::Fat)), None, None, None])])
    } else if c == 0x2502 {
        Some(seq![(Primitive::VertBar, seq![None, None, None])])
    } else if c == 0x2503 {
        Some(seq![(Primitive::VertBar, seq![Some(Term::Metric(MetricName::Fat)), None, None])])
    } else if c == 0x2504 {
        Some(seq![(Primitive::DashedHorLine, seq![Some(Term::Number(3)), None, None])])
    } else if c == 0x2505 {
        Some(seq![(Primitive::DashedHorLine, seq![Some(Term::Number(3)), None, Some(Term::Metric(MetricName::FatStroke))])])
    } else if c == 0x2506 {
        Some(seq![(Primitive::DashedVertLine, seq![Some(Term::Number(3)), None, None])])
    } else if c == 0x2507 {
        Some(seq![(Primitive::DashedVertLine, seq![Some(Term::Number(3)), None, Some(Term::Metric(MetricName::FatStroke))])])
    } else if c == 0x2508 {
        Some(seq![(Primitive::DashedHorLine, seq![Some(Term::Number(4)), None, None])])
    } else if c == 0x2509 {
        Some(seq![(Primitive::DashedHorLine, seq![Some(Term::Number(4)), None, Some(Term::Metric(MetricName::FatStroke))])])
    } else if c == 0x250A {
        Some(seq![(Primitive::DashedVertLine, seq![Some(Term::Number(4)), None, None])])
    } else if c == 0x250B {
        Some(seq![(Primitive::DashedVertLine, seq![Some(Term::Number(4)), None, Some(Term::Metric(MetricName::FatStroke))])])
    } else if c == 0x254C {
        Some(seq![(Primitive::DashedHorLine, seq![Some(Term::Number(2)), None, None])])
    } else if c == 0x254D {
        Some(seq![(Primitive::DashedHorLine, seq![Some(Term::Number(2)), None, Some(Term::Metric(MetricName::FatStroke))])])
    } else if c == 0x254E {
        Some(seq![(Primitive::DashedVertLine, seq![Some(Term::Number(2)), None, None])])
    } else if c == 0x254F {
        Some(seq![(Primitive::DashedVertLine, seq![Some(Term::Number(2)), None, Some(Term::Metric(MetricName::FatStroke))])])
    } else if c == 0x250C {
        Some(seq![(Primitive::HorHalfBar, seq![Some(Term::Side(Side::TopRight)), None, None, Some(Term::Metric(MetricName::Stroke)), None]), (Primitive::VertHalfBar, seq![Some(Term::Side(Side::BottomLeft)), None, None, None])])
    } else if c == 0x250D {
        Some(seq![(Primitive::HorHalfBar, seq![Some(Term::Side(Side::TopRight)), Some(Term::Metric(MetricName::Fat)), None, Some(Term::Metric(MetricName::Stroke)), None]), (Primitive::VertHalfBar, seq![Some(Term::Side(Side::BottomLeft)), None, None, None])])
    } else if c == 0x250E {
        Some(seq![(Primitive::HorHalfBar, seq![Some(Term::Side(Side::TopRight)), None, None, None, None]), (Primitive::VertHalfBar, seq![Some(Term::Side(Side::BottomLeft)), Some(Term::Metric(MetricName::Fat)), None, Some(Term::Metric(MetricName::Stroke))])])
    } else if c == 0x250F {
        Some(seq![(Primitive::HorHalfBar, seq![Some(Term::Side(Side::TopRight)), None, None, None, None]), (Primitive::VertHalfBar, seq![Some(Term::Side(Side::BottomLeft)), None, None, Some(Term::Metric(MetricName::Stroke))])])
    } else if c == 0x2510 {
        Some(seq![(Primitive::HorHalfBar, seq![Some(Term::Side(Side::TopLeft)), None, None, None, Some(Term::Metric(MetricName::Stroke))]), (Primitive::VertHalfBar, seq![Some(Term::Side(Side::BottomRight)), None, None, None])])
    } else if c == 0x2511 {
        Some(seq![(Primitive::HorHalfBar, seq![Some(Term::Side(Side::TopLeft)), Some(Term::Metric(MetricName::Fat)), None, None, Some(Term::Metric(MetricName::Stroke))]), (Primitive::VertHalfBar, seq![Some(Term::Side(Side::BottomRight)), None, None, None])])
    } else if c == 0x2512 {
        Some(seq![(Primitive::HorHalfBar, seq![Some(Term::Side(Side::TopLeft)), None, None, None, None]), (Primitive::VertHalfBar, seq![Some(Term::Side(Side::BottomRight)), Some(Term::Metric(MetricName::Fat)), None, Some(Term::Metric(MetricName::Stroke))])])
    } else if c == 0x2513 {
        Some(seq![(Primitive::HorHalfBar, seq![Some(Term::Side(Side::TopLeft)), Some(Term::Metric(MetricName::Fat)), None, None, None]), (Primitive::VertHalfBar, seq![Some(Term::Side(Side::BottomRight)), Some(Term::Metric(MetricName::Fat)), None, Some(Term::Metric(MetricName::FatStroke))])])
    } else if c == 0x2514 {
        Some(seq![(Primitive::HorHalfBar, seq![Some(Term::Side(Side::BottomRight)), None, None, Some(Term::Metric(MetricName::Stroke)), None]), (Primitive::VertHalfBar, seq![Some(Term::Side(Side::TopLeft)), None, None, None])])
    } else if c == 0x2515 {
        Some(seq![(Primitive::HorHalfBar, seq![Some(Term::Side(Side::BottomRight)), Some(Term::Metric(MetricName::Fat)), None, Some(Term::Metric(MetricName::Stroke)), None]), (Primitive::VertHalfBar, seq![Some(Term::Side(Side::TopLeft)), None, None, None])])
    } else if c == 0x2516 {
        Some(seq![(Primitive::HorHalfBar, seq![Some(Term::Side(Side::BottomRight)), None, None, None, None]), (Primitive::VertHalfBar, seq![Some(Term::Side(Side::TopLeft)), Some(Term::Metric(MetricName::Fat)), Some(Term::Metric(MetricName::FatStroke)), None])])
    } else if c == 0x2517 {
        Some(seq![(Primitive::HorHalfBar, seq![Some(Term::Side(Side::BottomRight)), Some(Term::Metric(MetricName::Fat)), None, None, None]), (Primitive::VertHalfBar, seq![Some(Term::Side(Side::TopLeft)), Some(Term::Metric(MetricName::Fat)), Some(Term::Metric(MetricName::FatStroke)), None])])
    } else {
        None
    }
}

/// The name of each code point of the catalogue.
pub open spec fn catalogue_name(c: u32) -> Seq<char> {
    if false {
        Seq::empty()
    } else if c == 0x2500 {
        "lighthorzbxd"@
    } else if c == 0x2501 {
        "heavyhorzbxd"@
    } else if c == 0x2502 {
        "lightvertbxd"@
    } else if c == 0x2503 {
        "heavyvertbxd"@
    } else if c == 0x2504 {
        "lighttrpldashhorzbxd"@
    } else if c == 0x2505 {
        "heavytrpldashhorzbxd"@
    } else if c == 0x2506 {
        "lighttrpldashvertbxd"@
    } else if c == 0x2507 {
        "heavytrpldashvertbxd"@
    } else if c == 0x2508 {
        "lightquaddashhorzbxd"@
    } else if c == 0x2509 {
        "heavyquaddashhorzbxd"@
    } else if c == 0x250A {
        "lightquaddashvertbxd"@
    } else if c == 0x250B {
        "heavyquaddashvertbxd"@
    } else if c == 0x254C {
        "lightdbldashhorzbxd"@
    } else if c == 0x254D {
        "heavydbldashhorzbxd"@
    } else if c == 0x254E {
        "lightdbldashvertbxd"@
    } else if c == 0x254F {
        "heavydbldashvertbxd"@
    } else if c == 0x250C {
        "lightdnrightbxd"@
    } else if c == 0x250D {
        "dnlightrightheavybxd"@
    } else if c == 0x250E {
        "dnheavyrightlightbxd"@
    } else if c == 0x250F {
        "heavydnrightbxd"@
    } else if c == 0x2510 {
        "lightdnleftbxd"@
    } else if c == 0x2511 {
        "dnlightleftheavybxd"@
    } else if c == 0x2512 {
        "dnheavyleftlightbxd"@
    } else if c == 0x2513 {
        "heavydnleftbxd"@
    } else if c == 0x2514 {
        "lightuprightbxd"@
    } else if c == 0x2515 {
        "uplightrightheavybxd"@
    } else if c == 0x2516 {
        "upheavyrightlightbxd"@
    } else if c == 0x2517 {
        "heavyuprightbxd"@
    } else {
        Seq::empty()
    }
}

/// What the catalogue draws for `c` against `m`: none where `c` has no recipe or one of
/// its commands does not resolve.
pub open spec fn glyph_ops(c: u32, m: Metrics) -> Option<Seq<PathOp>> {
    match catalogue(c) {
        Some(cs) => recipe_ops(cs, m, cs.len() as int),
        None => None,
    }
}

/// Every glyph of the catalogue can be drawn against any well-formed metrics: containment
/// and drawability agree.
#[verifier::rlimit(100)]
pub proof fn lemma_catalogue_drawable(c: u32, m: Metrics)
    requires
        m.wf(),
    ensures
        glyph_ops(c, m) is Some <==> catalogue(c) is Some,
{
    if let Some(cs) = catalogue(c) {
        assert(recipe_ops(cs, m, 0) is Some);
        assert(recipe_ops(cs, m, 1) is Some);
        if cs.len() == 2 {
            assert(recipe_ops(cs, m, 2) is Some);
        }
    }
}

/// Draws glyphs of the catalogue against fixed metrics.
pub struct Font {
    pub metrics: Metrics,
}

impl Font {
    pub fn new(metrics: Metrics) -> (r: Font)
        ensures
            r.metrics == metrics,
    {
        Font { metrics }
    }

    /// The catalogue has a recipe for `c`.
    pub fn contains(c: u32) -> (r: bool)
        ensures
            r == catalogue(c) is Some,
    {
        match Font::recipe(c) {
            Some(_) => true,
            None => false,
        }
    }

    /// The recipe of `c`.
    pub fn recipe(c: u32) -> (r: Option<Recipe>)
        ensures
            match catalogue(c) {
                Some(cs) => r matches Some(x) && x.c == c && x.name@ == catalogue_name(c) && specs_of(
                    x.commands@,
                ) == cs,
                None => r is None,
            },
    {
        let (name, commands): (&str, Vec<CommandRecipe>) = match c {
            0x2500 => {
                let commands = vec![
                    CommandRecipe { primitive: Primitive::HorBar, slots: vec![None, None, None, None] },
                ];
                ("lighthorzbxd", commands)
            },
            0x2501 => {
                let commands = vec![
                    CommandRecipe { primitive: Primitive::HorBar, slots: vec![Some(Term::Metric(MetricName::Fat)), None, None, None] },
                ];
                ("heavyhorzbxd", commands)
            },
            0x2502 => {
                let commands = vec![
                    CommandRecipe { primitive: Primitive::VertBar, slots: vec![None, None, None] },
                ];
                ("lightvertbxd", commands)
            },
            0x2503 => {
                let commands = vec![
                    CommandRecipe { primitive: Primitive::VertBar, slots: vec![Some(Term::Metric(MetricName::Fat)), None, None] },
                ];
                ("heavyvertbxd", commands)
            },
            0x2504 => {
                let commands = vec![
                    CommandRecipe { primitive: Primitive::DashedHorLine, slots: vec![Some(Term::Number(3)), None, None] },
                ];
                ("lighttrpldashhorzbxd", commands)
            },
            0x2505 => {
                let commands = vec![
                    CommandRecipe { primitive: Primitive::DashedHorLine, slots: vec![Some(Term::Number(3)), None, Some(Term::Metric(MetricName::FatStroke))] },
                ];
                ("heavytrpldashhorzbxd", commands)
            },
            0x2506 => {
                let commands = vec![
                    CommandRecipe { primitive: Primitive::DashedVertLine, slots: vec![Some(Term::Number(3)), None, None] },
                ];
                ("lighttrpldashvertbxd", commands)
            },
            0x2507 => {
                let commands = vec![
                    CommandRecipe { primitive: Primitive::DashedVertLine, slots: vec![Some(Term::Number(3)), None, Some(Term::Metric(MetricName::FatStroke))] },
                ];
                ("heavytrpldashvertbxd", commands)
            },
            0x2508 => {
                let commands = vec![
                    CommandRecipe { primitive: Primitive::DashedHorLine, slots: vec![Some(Term::Number(4)), None, None] },
                ];
                ("lightquaddashhorzbxd", commands)
            },
            0x2509 => {
                let commands = vec![
                    CommandRecipe { primitive: Primitive::DashedHorLine, slots: vec![Some(Term::Number(4)), None, Some(Term::Metric(MetricName::FatStroke))] },
                ];
                ("heavyquaddashhorzbxd", commands)
            },
            0x250A => {
                let commands = vec![
                    CommandRecipe { primitive: Primitive::DashedVertLine, slots: vec![Some(Term::Number(4)), None, None] },
                ];
                ("lightquaddashvertbxd", commands)
            },
            0x250B => {
                let commands = vec![
                    CommandRecipe { primitive: Primitive::DashedVertLine, slots: vec![Some(Term::Number(4)), None, Some(Term::Metric(MetricName::FatStroke))] },
                ];
                ("heavyquaddashvertbxd", commands)
            },
            0x254C => {
                let commands = vec![
                    CommandRecipe { primitive: Primitive::DashedHorLine, slots: vec![Some(Term::Number(2)), None, None] },
                ];
                ("lightdbldashhorzbxd", commands)
            },
            0x254D => {
                let commands = vec![
                    CommandRecipe { primitive: Primitive::DashedHorLine, slots: vec![Some(Term::Number(2)), None, Some(Term::Metric(MetricName::FatStroke))] },
                ];
                ("heavydbldashhorzbxd", commands)
            },
            0x254E => {
                let commands = vec![
                    CommandRecipe { primitive: Primitive::DashedVertLine, slots: vec![Some(Term::Number(2)), None, None] },
                ];
                ("lightdbldashvertbxd", commands)
            },
            0x254F => {
                let commands = vec![
                    CommandRecipe { primitive: Primitive::DashedVertLine, slots: vec![Some(Term::Number(2)), None, Some(Term::Metric(MetricName::FatStroke))] },
                ];
                ("heavydbldashvertbxd", commands)
            },
            0x250C => {
                let commands = vec![
                    CommandRecipe { primitive: Primitive::HorHalfBar, slots: vec![Some(Term::Side(Side::TopRight)), None, None, Some(Term::Metric(MetricName::Stroke)), None] },
                    CommandRecipe { primitive: Primitive::VertHalfBar, slots: vec![Some(Term::Side(Side::BottomLeft)), None, None, None] },
                ];
                ("lightdnrightbxd", commands)
            },
            0x250D => {
                let commands = vec![
                    CommandRecipe { primitive: Primitive::HorHalfBar, slots: vec![Some(Term::Side(Side::TopRight)), Some(Term::Metric(MetricName::Fat)), None, Some(Term::Metric(MetricName::Stroke)), None] },
                    CommandRecipe { primitive: Primitive::VertHalfBar, slots: vec![Some(Term::Side(Side::BottomLeft)), None, None, None] },
                ];
                ("dnlightrightheavybxd", commands)
            },
            0x250E => {
                let commands = vec![
                    CommandRecipe { primitive: Primitive::HorHalfBar, slots: vec![Some(Term::Side(Side::TopRight)), None, None, None, None] },
                    CommandRecipe { primitive: Primitive::VertHalfBar, slots: vec![Some(Term::Side(Side::BottomLeft)), Some(Term::Metric(MetricName::Fat)), None, Some(Term::Metric(MetricName::Stroke))] },
                ];
                ("dnheavyrightlightbxd", commands)
            },
            0x250F => {
                let commands = vec![
                    CommandRecipe { primitive: Primitive::HorHalfBar, slots: vec![Some(Term::Side(Side::TopRight)), None, None, None, None] },
                    CommandRecipe { primitive: Primitive::VertHalfBar, slots: vec![Some(Term::Side(Side::BottomLeft)), None, None, Some(Term::Metric(MetricName::Stroke))] },
                ];
                ("heavydnrightbxd", commands)
            },
            0x2510 => {
                let commands = vec![
                    CommandRecipe { primitive: Primitive::HorHalfBar, slots: vec![Some(Term::Side(Side::TopLeft)), None, None, None, Some(Term::Metric(MetricName::Stroke))] },
                    CommandRecipe { primitive: Primitive::VertHalfBar, slots: vec![Some(Term::Side(Side::BottomRight)), None, None, None] },
                ];
                ("lightdnleftbxd", commands)
            },
            0x2511 => {
                let commands = vec![
                    CommandRecipe { primitive: Primitive::HorHalfBar, slots: vec![Some(Term::Side(Side::TopLeft)), Some(Term::Metric(MetricName::Fat)), None, None, Some(Term::Metric(MetricName::Stroke))] },
                    CommandRecipe { primitive: Primitive::VertHalfBar, slots: vec![Some(Term::Side(Side::BottomRight)), None, None, None] },
                ];
                ("dnlightleftheavybxd", commands)
            },
            0x2512 => {
                let commands = vec![
                    CommandRecipe { primitive: Primitive::HorHalfBar, slots: vec![Some(Term::Side(Side::TopLeft)), None, None, None, None] },
                    CommandRecipe { primitive: Primitive::VertHalfBar, slots: vec![Some(Term::Side(Side::BottomRight)), Some(Term::Metric(MetricName::Fat)), None, Some(Term::Metric(MetricName::Stroke))] },
                ];
                ("dnheavyleftlightbxd", commands)
            },
            0x2513 => {
                let commands = vec![
                    CommandRecipe { primitive: Primitive::HorHalfBar, slots: vec![Some(Term::Side(Side::TopLeft)), Some(Term::Metric(MetricName::Fat)), None, None, None] },
                    CommandRecipe { primitive: Primitive::VertHalfBar, slots: vec![Some(Term::Side(Side::BottomRight)), Some(Term::Metric(MetricName::Fat)), None, Some(Term::Metric(MetricName::FatStroke))] },
                ];
                ("heavydnleftbxd", commands)
            },
            0x2514 => {
                let commands = vec![
                    CommandRecipe { primitive: Primitive::HorHalfBar, slots: vec![Some(Term::Side(Side::BottomRight)), None, None, Some(Term::Metric(MetricName::Stroke)), None] },
                    CommandRecipe { primitive: Primitive::VertHalfBar, slots: vec![Some(Term::Side(Side::TopLeft)), None, None, None] },
                ];
                ("lightuprightbxd", commands)
            },
            0x2515 => {
                let commands = vec![
                    CommandRecipe { primitive: Primitive::HorHalfBar, slots: vec![Some(Term::Side(Side::BottomRight)), Some(Term::Metric(MetricName::Fat)), None, Some(Term::Metric(MetricName::Stroke)), None] },
                    CommandRecipe { primitive: Primitive::VertHalfBar, slots: vec![Some(Term::Side(Side::TopLeft)), None, None, None] },
                ];
                ("uplightrightheavybxd", commands)
            },
            0x2516 => {
                let commands = vec![
                    CommandRecipe { primitive: Primitive::HorHalfBar, slots: vec![Some(Term::Side(Side::BottomRight)), None, None, None, None] },
                    CommandRecipe { primitive: Primitive::VertHalfBar, slots: vec![Some(Term::Side(Side::TopLeft)), Some(Term::Metric(MetricName::Fat)), Some(Term::Metric(MetricName::FatStroke)), None] },
                ];
                ("upheavyrightlightbxd", commands)
            },
            0x2517 => {
                let commands = vec![
                    CommandRecipe { primitive: Primitive::HorHalfBar, slots: vec![Some(Term::Side(Side::BottomRight)), Some(Term::Metric(MetricName::Fat)), None, None, None] },
                    CommandRecipe { primitive: Primitive::VertHalfBar, slots: vec![Some(Term::Side(Side::TopLeft)), Some(Term::Metric(MetricName::Fat)), Some(Term::Metric(MetricName::FatStroke)), None] },
                ];
                ("heavyuprightbxd", commands)
            },
            _ => {
                return None;
            },
        };
        let r = Recipe { c, name: name.to_owned(), commands };
        assert(specs_of(r.commands@) =~= catalogue(c)->Some_0);
        Some(r)
    }

    /// The path of the glyph `c`: an error exactly where the catalogue has no recipe for it.
    pub fn path_of(&self, c: u32) -> (r: Result<Vec<PathOp>, DrawError>)
        requires
            self.metrics.wf(),
        ensures
            catalogue(c) is None ==> r == Err::<Vec<PathOp>, DrawError>(DrawError::NoSuchGlyph(c)),
            catalogue(c) is Some ==> (r matches Ok(v) && glyph_ops(c, self.metrics) == Some(v@)),
    {
        proof {
            lemma_catalogue_drawable(c, self.metrics);
        }
        let recipe = match Font::recipe(c) {
            Some(x) => x,
            None => {
                return Err(DrawError::NoSuchGlyph(c));
            },
        };
        let mut ctx = DrawingCommand::new(self.metrics);
        recipe.execute(&mut ctx)?;
        assert(ctx.ops() =~= glyph_ops(c, self.metrics)->Some_0);
        Ok(ctx.into_path())
    }

    /// Draws the glyph `c` on `canvas`, command after command; an error exactly where the
    /// catalogue has no recipe for it.
    pub fn draw_to<C: Canvas>(&self, c: u32, canvas: &mut C) -> (r: Result<(), DrawError>)
        requires
            self.metrics.wf(),
        ensures
            r is Ok <==> catalogue(c) is Some,
            catalogue(c) is None ==> r == Err::<(), DrawError>(DrawError::NoSuchGlyph(c)),
    {
        let path = self.path_of(c)?;
        replay(&path, canvas);
        Ok(())
    }
}

} // verus!
