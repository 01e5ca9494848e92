//! Short messages: the three-byte channel messages of note-on and
//! controller-change.

use crate::DecodeError;
use vstd::prelude::*;

verus! {

/// Length of a short message: a status byte and two data bytes.
pub const SHORT_MESSAGE_LEN: usize = 3;

/// Status byte of a note-on message.
pub const NOTE_ON: u8 = 0x90;

/// Status byte of a controller-change message.
pub const CONTROLLER_CHANGE: u8 = 0xB0;

/// Velocity of a button that was let go. The devices send no note-off: a
/// note-on of this velocity stands for it.
pub const VELOCITY_RELEASED: u8 = 0;

/// Velocity of a button that was pushed down.
pub const VELOCITY_PRESSED: u8 = 127;

/// Controller number of the first control button.
pub const FIRST_CONTROL_BUTTON: u8 = 104;

/// Controller number of the last control button.
pub const LAST_CONTROL_BUTTON: u8 = 111;

/// Controller number of the first fader.
pub const FIRST_FADER: u8 = 21;

/// Controller number of the last fader.
pub const LAST_FADER: u8 = 28;

/// A short message as every device of the family reads it, before the device
/// turns the key of a note into a place on its grid.
#[derive(Debug, Clone, Copy, PartialEq, Eq, Hash, Structural)]
pub enum ShortMessage {
    /// A note-on: the raw key, and whether it went down or up.
    Note { key: u8, pressed: bool },
    /// A controller-change of a control button: its index from 0 to 7, and
    /// whether it went down or up.
    ControlButton { index: u8, pressed: bool },
    /// A controller-change of a fader: its index from 0 to 7, and the value
    /// that it was moved to. Only some devices of the family have faders.
    Fader { index: u8, value: u8 },
}

/// Whether a velocity says that a button went down (`Some(true)`) or up
/// (`Some(false)`); `None` for every velocity in between.
pub open spec fn pressed_at(velocity: u8) -> Option<bool> {
    if velocity == VELOCITY_PRESSED {
        Some(true)
    } else if velocity == VELOCITY_RELEASED {
        Some(false)
    } else {
        None
    }
}

/// Whether a controller number is that of a control button.
pub open spec fn is_control_button(controller: u8) -> bool {
    FIRST_CONTROL_BUTTON <= controller <= LAST_CONTROL_BUTTON
}

/// Whether a controller number is that of a fader.
pub open spec fn is_fader(controller: u8) -> bool {
    FIRST_FADER <= controller <= LAST_FADER
}

/// What the three bytes of a short message say.
pub open spec fn short_message(status: u8, data1: u8, data2: u8) -> Result<
    ShortMessage,
    DecodeError,
> {
    if status == NOTE_ON {
        match pressed_at(data2) {
            Some(pressed) => Ok(ShortMessage::Note { key: data1, pressed }),
            None => Err(DecodeError::GridVelocity { velocity: data2 }),
        }
    } else if status == CONTROLLER_CHANGE {
        if is_control_button(data1) {
            match pressed_at(data2) {
                Some(pressed) => Ok(
                    ShortMessage::ControlButton {
                        index: (data1 - FIRST_CONTROL_BUTTON) as u8,
                        pressed,
                    },
                ),
                None => Err(DecodeError::ControlVelocity { velocity: data2 }),
            }
        } else if is_fader(data1) {
            Ok(ShortMessage::Fader { index: (data1 - FIRST_FADER) as u8, value: data2 })
        } else {
            Err(DecodeError::UnknownController { controller: data1 })
        }
    } else {
        Err(DecodeError::UnknownStatus { status })
    }
}

/// Reads a velocity as a button going down or up.
pub fn decode_velocity(velocity: u8) -> (pressed: Option<bool>)
    ensures
        pressed == pressed_at(velocity),
{
    if velocity == VELOCITY_PRESSED {
        Some(true)
    } else if velocity == VELOCITY_RELEASED {
        Some(false)
    } else {
        None
    }
}

/// Reads the three bytes of a short message.
///
/// A note-on gives the raw key whatever it is. A controller-change gives a
/// control button where the controller number is one of 104 to 111, and a
/// fader where it is one of 21 to 28; any other number is an error, as is any
/// other status byte. A note-on and a controller-change of a control button
/// are errors where the velocity is neither 0 nor 127; a fader takes every
/// value.
pub fn parse_short_message(status: u8, data1: u8, data2: u8) -> (result: Result<
    ShortMessage,
    DecodeError,
>)
    ensures
        result == short_message(status, data1, data2),
{
    if status == NOTE_ON {
        match decode_velocity(data2) {
            Some(pressed) => Ok(ShortMessage::Note { key: data1, pressed }),
            None => Err(DecodeError::GridVelocity { velocity: data2 }),
        }
    } else if status == CONTROLLER_CHANGE {
        if FIRST_CONTROL_BUTTON <= data1 && data1 <= LAST_CONTROL_BUTTON {
            match decode_velocity(data2) {
                Some(pressed) => Ok(
                    ShortMessage::ControlButton { index: data1 - FIRST_CONTROL_BUTTON, pressed },
                ),
                None => Err(DecodeError::ControlVelocity { velocity: data2 }),
            }
        } else if FIRST_FADER <= data1 && data1 <= LAST_FADER {
            Ok(ShortMessage::Fader { index: data1 - FIRST_FADER, value: data2 })
        } else {
            Err(DecodeError::UnknownController { controller: data1 })
        }
    } else {
        Err(DecodeError::UnknownStatus { status })
    }
}

/// A controller-change of a fader is read whatever its value is: the fader's
/// index is the controller number less 21, and the value is handed on.
pub proof fn lemma_fader_takes_every_value(controller: u8, value: u8)
    requires
        21 <= controller <= 28,
    ensures
        short_message(CONTROLLER_CHANGE, controller, value) == Ok::<ShortMessage, DecodeError>(
            ShortMessage::Fader { index: (controller - 21) as u8, value },
        ),
{
}

/// A press or a release is read from a velocity of 127 or 0 only, and an
/// index is at most 7.
pub proof fn lemma_short_message_ranges(status: u8, data1: u8, data2: u8)
    ensures
        short_message(status, data1, data2) matches Ok(ShortMessage::Note { key, pressed })
            ==> key == data1 && (data2 == 127 || data2 == 0) && (pressed <==> data2 == 127),
        short_message(status, data1, data2) matches Ok(
            ShortMessage::ControlButton { index, pressed },
        ) ==> index <= 7 && (data2 == 127 || data2 == 0) && (pressed <==> data2 == 127),
        short_message(status, data1, data2) matches Ok(ShortMessage::Fader { index, value })
            ==> index <= 7 && value == data2,
{
}

} // verus!
