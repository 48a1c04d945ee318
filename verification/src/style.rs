//! Plain-value visual attributes for section text.
//!
//! Style is purely cosmetic: it never affects the layout or the clipping of
//! a section.  The values here are plain so that contracts can speak of
//! them; the host maps them onto its terminal's own style type.

use vstd::prelude::*;

verus! {

/// A colour, as plain values a terminal host can translate.
#[derive(Clone, Copy, Debug, PartialEq, Eq)]
pub enum Color {
    /// One of the terminal's 256 indexed colours.
    Indexed(u8),
    /// A true-colour value: red, green, blue.
    Rgb(u8, u8, u8),
}

/// Visual attributes applied uniformly to a section's text.
#[derive(Clone, Copy, Debug, PartialEq, Eq)]
pub struct Style {
    pub fg: Option<Color>,
    pub bg: Option<Color>,
    pub bold: bool,
}

/// No attributes: the host's default rendition.
pub open spec fn plain() -> Style {
    Style { fg: None, bg: None, bold: false }
}

impl Default for Style {
    /// No attributes.
    fn default() -> (r: Self)
        ensures
            r == plain(),
    {
        Style { fg: None, bg: None, bold: false }
    }
}

} // verus!
