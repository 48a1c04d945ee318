//! The error reported by the by-index mutators of a status bar.

use vstd::prelude::*;

verus! {

/// An enumeration of potential errors that can impact the status bar
/// operations.
#[derive(Clone, Copy, Debug, PartialEq, Eq, Structural)]
pub enum StatusBarError {
    /// The requested index does not exist.
    IndexOutOfBounds(usize),
}

} // verus!
