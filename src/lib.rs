//! Parametric drawing of the Unicode box-drawing and block-element glyphs.
//!
//! Recipes written in a small expression language are translated into deferred drawing
//! commands ([`translator`], [`table`]); at draw time their fields are evaluated against
//! font [`geometry::Metrics`] ([`recipe`]) and the drawing engine ([`drawing_command`],
//! [`patterns`]) turns each command into move, line, curve and close operations. The
//! built-in catalogue and the font facade are in [`font`]; properties that hold for all
//! inputs are stated and proved in [`laws`].
//!
//! Coordinates are integers in font units; every division rounds toward negative
//! infinity.

pub mod commands;
pub mod drawing_command;
pub mod font;
pub mod geometry;
pub mod laws;
pub mod patterns;
pub mod recipe;
pub mod table;
pub mod translator;
