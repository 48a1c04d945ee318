//! A single-row status-bar widget for character-cell displays.
//!
//! A [`bar::StatusBar`] holds an ordered list of text sections and a layout
//! configuration.  Rendering partitions a rectangular region into one
//! sub-rectangle per section according to the chosen [`layout::Flex`]
//! strategy, then writes each section's text into its sub-rectangle,
//! truncated to the space available.

pub mod bar;
pub mod error;
pub mod grid;
pub mod layout;
pub mod measure;
pub mod section;
pub mod style;
