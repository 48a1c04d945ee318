//! Display-width measurement of section text.
//!
//! A section's text occupies a number of terminal columns that may differ
//! from its character count: some glyphs are two columns wide, some zero.
//! The measurement is delegated to the same routine that terminal hosts use
//! for their own width arithmetic.

use vstd::prelude::*;

verus! {

/// The display width, in terminal columns, of a run of text.
pub uninterp spec fn display_width(s: Seq<char>) -> nat;

/// Relies on `ratatui::text::Line::width`: the display width in terminal
/// columns of the given text, a function of its characters alone.
#[verifier::external_body]
pub(crate) fn measure_text(pre: &str, content: &str, post: &str) -> (w: usize)
    ensures
        w == display_width(pre@ + content@ + post@),
{
    let full = format!("{pre}{content}{post}");
    ratatui::text::Line::from(full).width()
}

} // verus!
