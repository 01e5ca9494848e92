//! The Launchpad Mini.
//!
//! Its grid sends note-on messages whose key packs the column into the lower
//! four bits and the row into the upper four. It treats every buffer that it
//! does not recognise as an error.

use vstd::prelude::*;

pub mod input;

pub use input::{Input, Message};

verus! {

/// A button of the Launchpad Mini.
#[derive(Debug, Clone, Copy, PartialEq, Eq, Hash, Structural)]
pub enum Button {
    /// A button of the grid, by column `x` and row `y`, both counted from 0.
    GridButton { x: u8, y: u8 },
    /// One of the eight control buttons, counted from 0.
    ControlButton { index: u8 },
}

} // verus!
