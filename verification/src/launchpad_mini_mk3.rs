//! The Launchpad Mini MK3.
//!
//! Its grid sends note-on messages whose key spells the row and the column as
//! two decimal digits, both counted from 1. Besides presses and releases it
//! answers inquiries and reports the end of a scrolling text. A short message
//! that it does not recognise decodes to [`Message::Unsupported`].

use vstd::prelude::*;

pub mod input;

pub use input::{Input, Message};

verus! {

/// A button of the Launchpad Mini MK3.
#[derive(Debug, Clone, Copy, PartialEq, Eq, Hash, Structural)]
pub enum Button {
    /// A button of the grid, by column `x` and row `y`, both counted from 0.
    GridButton { x: u8, y: u8 },
    /// One of the eight control buttons, counted from 0.
    ControlButton { index: u8 },
}

} // verus!
