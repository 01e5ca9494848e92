//! Decoding of what the Launchpad Mini sends.

use super::Button;
use crate::protocols::midi::{
    parse_short_message, short_message, ShortMessage, CONTROLLER_CHANGE, NOTE_ON,
    SHORT_MESSAGE_LEN,
};
use crate::{DecodeError, FailurePolicy, InputDevice};
use vstd::prelude::*;

verus! {

/// Number of keys from one row of the grid to the next.
pub const GRID_STRIDE: u8 = 16;

/// A Launchpad Mini input message.
#[derive(Debug, Clone, Copy, PartialEq, Eq, Hash, Structural)]
pub enum Message {
    /// A button was pressed.
    Press { button: Button },
    /// A button was released.
    Release { button: Button },
}

/// The Launchpad Mini input connection creator.
pub struct Input;

/// The grid button that a key stands for: the column is the key modulo 16,
/// the row the key divided by 16.
pub open spec fn grid_button(btn: u8) -> Button {
    Button::GridButton { x: (btn % GRID_STRIDE) as u8, y: (btn / GRID_STRIDE) as u8 }
}

/// The message for a button that went down or up.
pub open spec fn button_message(button: Button, pressed: bool) -> Message {
    if pressed {
        Message::Press { button }
    } else {
        Message::Release { button }
    }
}

/// What the three bytes of a short message decode to: the short message of
/// the family with the key read as a grid button, and each of its errors
/// unchanged. The device has no faders: to it the controller of one is
/// unknown.
pub open spec fn short_message_of(status: u8, data1: u8, data2: u8) -> Result<
    Message,
    DecodeError,
> {
    match short_message(status, data1, data2) {
        Ok(ShortMessage::Note { key, pressed }) => Ok(button_message(grid_button(key), pressed)),
        Ok(ShortMessage::ControlButton { index, pressed }) => Ok(
            button_message(Button::ControlButton { index }, pressed),
        ),
        Ok(ShortMessage::Fader { .. }) => Err(DecodeError::UnknownController { controller: data1 }),
        Err(error) => Err(error),
    }
}

/// What a buffer decodes to. Three bytes are a short message. A buffer of any
/// other length would be a system-exclusive message, and the device has none.
pub open spec fn message_of(data: Seq<u8>) -> Result<Message, DecodeError> {
    if data.len() == SHORT_MESSAGE_LEN {
        short_message_of(data[0], data[1], data[2])
    } else {
        Err(DecodeError::InvalidSysEx)
    }
}

/// Reads the key of a note-on as a button of the grid.
pub fn decode_grid_button(btn: u8) -> (button: Button)
    ensures
        button == grid_button(btn),
{
    let x: u8 = btn % GRID_STRIDE;
    let y: u8 = btn / GRID_STRIDE;
    Button::GridButton { x, y }
}

/// Makes the message for a button that went down or up.
fn press_or_release(button: Button, pressed: bool) -> (message: Message)
    ensures
        message == button_message(button, pressed),
{
    if pressed {
        Message::Press { button }
    } else {
        Message::Release { button }
    }
}

/// Decodes the three bytes of a short message.
///
/// A note-on of velocity 127 or 0 is a press or a release of the grid button
/// of its key; a controller-change of one of the eight control buttons with
/// value 127 or 0 is a press or a release of that button. Everything else is
/// an error, which names what was not recognised.
pub fn decode_short_message(status: u8, data1: u8, data2: u8) -> (result: Result<
    Message,
    DecodeError,
>)
    ensures
        result == short_message_of(status, data1, data2),
{
    match parse_short_message(status, data1, data2) {
        Ok(ShortMessage::Note { key, pressed }) => Ok(
            press_or_release(decode_grid_button(key), pressed),
        ),
        Ok(ShortMessage::ControlButton { index, pressed }) => Ok(
            press_or_release(Button::ControlButton { index }, pressed),
        ),
        Ok(ShortMessage::Fader { .. }) => Err(DecodeError::UnknownController { controller: data1 }),
        Err(error) => Err(error),
    }
}

impl InputDevice for Input {
    const MIDI_DEVICE_KEYWORD: &'static str = "Launchpad Mini";

    const MIDI_CONNECTION_NAME: &'static str = "Launchy Mini Input";

    type Message = Message;

    open spec fn decoding(data: Seq<u8>) -> Result<Message, DecodeError> {
        message_of(data)
    }

    open spec fn policy() -> FailurePolicy {
        FailurePolicy::FailFast
    }

    proof fn lemma_policy_governs_short_messages(data: Seq<u8>) {
    }

    fn failure_policy() -> (policy: FailurePolicy) {
        FailurePolicy::FailFast
    }

    /// Decodes one buffer: the short message that its three bytes are, or the
    /// error that says why it is none.
    fn try_decode_message(_timestamp: u64, data: &[u8]) -> (result: Result<Message, DecodeError>) {
        if data.len() == SHORT_MESSAGE_LEN {
            decode_short_message(data[0], data[1], data[2])
        } else {
            Err(DecodeError::InvalidSysEx)
        }
    }

    /// Decodes one buffer that holds a press or a release.
    fn decode_message(timestamp: u64, data: &[u8]) -> (message: Message) {
        match Self::try_decode_message(timestamp, data) {
            Ok(message) => message,
            Err(_) => vstd::pervasive::unreached(),
        }
    }
}

/// A controller-change of a control button with value 0 is the release of
/// that button, and with value 127 its press; the button's index is the
/// controller number less 104.
pub proof fn lemma_control_button_decoding(controller: u8, velocity: u8)
    requires
        104 <= controller <= 111,
        velocity == 0 || velocity == 127,
    ensures
        velocity == 0 ==> message_of(seq![CONTROLLER_CHANGE, controller, velocity]) == Ok::<
            Message,
            DecodeError,
        >(Message::Release { button: Button::ControlButton { index: (controller - 104) as u8 } }),
        velocity == 127 ==> message_of(seq![CONTROLLER_CHANGE, controller, velocity]) == Ok::<
            Message,
            DecodeError,
        >(Message::Press { button: Button::ControlButton { index: (controller - 104) as u8 } }),
{
}

/// A note-on with velocity 0 is the release of a grid button, and with
/// velocity 127 its press; the button's column is the key modulo 16 and its
/// row the key divided by 16.
pub proof fn lemma_grid_button_decoding(key: u8, velocity: u8)
    requires
        velocity == 0 || velocity == 127,
    ensures
        velocity == 0 ==> message_of(seq![NOTE_ON, key, velocity]) == Ok::<Message, DecodeError>(
            Message::Release {
                button: Button::GridButton { x: (key % 16) as u8, y: (key / 16) as u8 },
            },
        ),
        velocity == 127 ==> message_of(seq![NOTE_ON, key, velocity]) == Ok::<Message, DecodeError>(
            Message::Press {
                button: Button::GridButton { x: (key % 16) as u8, y: (key / 16) as u8 },
            },
        ),
{
}

/// A short message with a velocity other than 0 and 127 is never a press or a
/// release: it is an error. For a note-on and for a controller-change of a
/// control button the error names the velocity.
pub proof fn lemma_other_velocity_is_an_error(status: u8, data1: u8, velocity: u8)
    requires
        velocity != 0,
        velocity != 127,
    ensures
        message_of(seq![status, data1, velocity]) is Err,
        status == NOTE_ON ==> message_of(seq![status, data1, velocity]) == Err::<
            Message,
            DecodeError,
        >(DecodeError::GridVelocity { velocity }),
        status == CONTROLLER_CHANGE && 104 <= data1 <= 111 ==> message_of(
            seq![status, data1, velocity],
        ) == Err::<Message, DecodeError>(DecodeError::ControlVelocity { velocity }),
{
}

/// The buffers that decode are the short messages of a note-on, or of a
/// controller-change of a control button, with velocity 0 or 127, and no
/// others.
pub proof fn lemma_decodes_presses_and_releases_only(data: Seq<u8>)
    ensures
        message_of(data) is Ok <==> {
            &&& data.len() == 3
            &&& data[0] == NOTE_ON || (data[0] == CONTROLLER_CHANGE && 104 <= data[1] <= 111)
            &&& data[2] == 0 || data[2] == 127
        },
{
}

/// Each error comes for its own buffers: a length other than 3; a status
/// byte other than note-on and controller-change; a controller-change of a
/// controller that is no control button.
pub proof fn lemma_errors_name_what_was_not_recognised(data: Seq<u8>)
    ensures
        message_of(data) == Err::<Message, DecodeError>(DecodeError::InvalidSysEx) <==> data.len()
            != 3,
        data.len() == 3 && data[0] != NOTE_ON && data[0] != CONTROLLER_CHANGE ==> message_of(data)
            == Err::<Message, DecodeError>(DecodeError::UnknownStatus { status: data[0] }),
        data.len() == 3 && data[0] == CONTROLLER_CHANGE && !(104 <= data[1] <= 111) ==> message_of(
            data,
        ) == Err::<Message, DecodeError>(DecodeError::UnknownController { controller: data[1] }),
{
}

/// The kind of the button of a press or a release follows from the status
/// byte alone: a note-on gives a grid button, and a controller-change a
/// control button with an index from 0 to 7.
pub proof fn lemma_button_kind_follows_status(data: Seq<u8>, button: Button)
    requires
        message_of(data) == Ok::<Message, DecodeError>(Message::Press { button }) || message_of(
            data,
        ) == Ok::<Message, DecodeError>(Message::Release { button }),
    ensures
        data.len() == 3,
        button is GridButton <==> data[0] == NOTE_ON,
        button is ControlButton <==> data[0] == CONTROLLER_CHANGE,
        button matches Button::ControlButton { index } ==> index <= 7,
{
}

} // verus!
