//! Decoding of what the Launchpad Mini MK3 sends.

use super::Button;
use crate::protocols::midi::{
    parse_short_message, short_message, ShortMessage, CONTROLLER_CHANGE, NOTE_ON,
    SHORT_MESSAGE_LEN,
};
use crate::protocols::query::{
    device_inquiry, parse_device_query, parse_version_query, version_inquiry, DeviceInquiry,
    VersionInquiry,
};
use crate::protocols::sysex::{decode_sysex, sysex_message, SysEx, TEXT_ENDED_OR_LOOPED};
use crate::{DecodeError, FailurePolicy, InputDevice};
use vstd::prelude::*;

verus! {

/// Number of keys from one row of the grid to the next.
pub const GRID_STRIDE: u8 = 10;

/// Width of the border round the grid: the first row and the first column of
/// the grid have the number 1.
pub const GRID_BORDER: u8 = 1;

/// Controller number of the controller-change that reports the end of a
/// scrolling text.
pub const TEXT_CONTROLLER: u8 = 0;

/// Value of the controller-change that reports the end of a scrolling text.
pub const TEXT_ENDED_VALUE: u8 = 3;

/// A Launchpad Mini MK3 input message.
#[derive(Debug, Clone, Copy, PartialEq, Eq, Hash, Structural)]
pub enum Message {
    /// A button was pressed.
    Press { button: Button },
    /// A button was released.
    Release { button: Button },
    /// Emitted after a text scroll ends or loops.
    TextEndedOrLooped,
    /// The response to a device inquiry request.
    DeviceInquiry(DeviceInquiry),
    /// The response to a version inquiry request.
    VersionInquiry(VersionInquiry),
    /// A short message that the device is not known to send.
    Unsupported,
}

/// The Launchpad Mini MK3 input connection creator.
pub struct Input;

/// Whether a key lies inside the border: both of its digits, the row and the
/// column, are at least 1.
pub open spec fn inside_border(btn: u8) -> bool {
    btn % GRID_STRIDE >= GRID_BORDER && btn / GRID_STRIDE >= GRID_BORDER
}

/// The grid button that a key inside the border stands for: the column is the
/// key modulo 10, less 1, and the row the key divided by 10, less 1.
pub open spec fn grid_button(btn: u8) -> Button {
    Button::GridButton {
        x: (btn % GRID_STRIDE - GRID_BORDER) as u8,
        y: (btn / GRID_STRIDE - GRID_BORDER) as u8,
    }
}

/// The message for a button that went down or up.
pub open spec fn button_message(button: Button, pressed: bool) -> Message {
    if pressed {
        Message::Press { button }
    } else {
        Message::Release { button }
    }
}

/// Whether three bytes are the controller-change that reports the end of a
/// scrolling text.
pub open spec fn is_text_ended(status: u8, data1: u8, data2: u8) -> bool {
    status == CONTROLLER_CHANGE && data1 == TEXT_CONTROLLER && data2 == TEXT_ENDED_VALUE
}

/// What the three bytes of a short message decode to. The end of a scrolling
/// text, and the short messages of the family with a key inside the border
/// read as a grid button, have a message of their own. For every other short
/// message the device degrades: it is `Unsupported`.
pub open spec fn short_message_of(status: u8, data1: u8, data2: u8) -> Message {
    if is_text_ended(status, data1, data2) {
        Message::TextEndedOrLooped
    } else {
        match short_message(status, data1, data2) {
            Ok(ShortMessage::Note { key, pressed }) => if inside_border(key) {
                button_message(grid_button(key), pressed)
            } else {
                Message::Unsupported
            },
            Ok(ShortMessage::ControlButton { index, pressed }) => button_message(
                Button::ControlButton { index },
                pressed,
            ),
            Ok(ShortMessage::Fader { .. }) => Message::Unsupported,
            Err(_) => Message::Unsupported,
        }
    }
}

/// The message of the device for a system-exclusive message of the family.
pub open spec fn sysex_message_of(sysex: SysEx) -> Message {
    match sysex {
        SysEx::TextEndedOrLooped => Message::TextEndedOrLooped,
        SysEx::DeviceInquiry(inquiry) => Message::DeviceInquiry(inquiry),
        SysEx::VersionInquiry(inquiry) => Message::VersionInquiry(inquiry),
    }
}

/// What a buffer decodes to. The answers to the two inquiries are looked for
/// first, whatever the length of the buffer. Of the other buffers, three
/// bytes are a short message, and any other length is a system-exclusive
/// message, which is an error unless it has one of the exact shapes.
pub open spec fn message_of(data: Seq<u8>) -> Result<Message, DecodeError> {
    if let Some(inquiry) = device_inquiry(data) {
        Ok(Message::DeviceInquiry(inquiry))
    } else if let Some(inquiry) = version_inquiry(data) {
        Ok(Message::VersionInquiry(inquiry))
    } else if data.len() == SHORT_MESSAGE_LEN {
        Ok(short_message_of(data[0], data[1], data[2]))
    } else {
        match sysex_message(data) {
            Ok(sysex) => Ok(sysex_message_of(sysex)),
            Err(error) => Err(error),
        }
    }
}

/// Reads the key of a note-on as a button of the grid.
///
/// The key has to lie inside the border: a key with a digit 0 has no place on
/// the grid, and the subtraction would underflow.
pub fn decode_grid_button(btn: u8) -> (button: Button)
    requires
        inside_border(btn),
    ensures
        button == grid_button(btn),
{
    let x: u8 = (btn % GRID_STRIDE) - GRID_BORDER;
    let y: u8 = (btn / GRID_STRIDE) - GRID_BORDER;
    Button::GridButton { x, y }
}

/// Tells whether a key lies inside the border.
pub fn is_inside_border(btn: u8) -> (inside: bool)
    ensures
        inside == inside_border(btn),
{
    btn % GRID_STRIDE >= GRID_BORDER && btn / GRID_STRIDE >= GRID_BORDER
}

/// Makes the message for a button that went down or up.
fn press_or_release(button: Button, pressed: bool) -> (message: Message)
    ensures
        message == button_message(button, pressed),
{
    if pressed {
        Message::Press { button }
    } else {
        Message::Release { button }
    }
}

/// Decodes the three bytes of a short message.
///
/// A note-on of velocity 127 or 0 whose key lies inside the border is a press
/// or a release of the grid button of that key; a controller-change of one of
/// the eight control buttons with value 127 or 0 is a press or a release of
/// that button; the controller-change of controller 0 with value 3 reports
/// the end of a scrolling text. Everything else is `Unsupported`.
pub fn decode_short_message(status: u8, data1: u8, data2: u8) -> (message: Message)
    ensures
        message == short_message_of(status, data1, data2),
{
    if status == CONTROLLER_CHANGE && data1 == TEXT_CONTROLLER && data2 == TEXT_ENDED_VALUE {
        return Message::TextEndedOrLooped;
    }
    match parse_short_message(status, data1, data2) {
        Ok(ShortMessage::Note { key, pressed }) => {
            if is_inside_border(key) {
                press_or_release(decode_grid_button(key), pressed)
            } else {
                Message::Unsupported
            }
        },
        Ok(ShortMessage::ControlButton { index, pressed }) => press_or_release(
            Button::ControlButton { index },
            pressed,
        ),
        Ok(ShortMessage::Fader { .. }) => Message::Unsupported,
        Err(_) => Message::Unsupported,
    }
}

/// Turns a system-exclusive message of the family into the message of the
/// device.
fn message_from_sysex(sysex: SysEx) -> (message: Message)
    ensures
        message == sysex_message_of(sysex),
{
    match sysex {
        SysEx::TextEndedOrLooped => Message::TextEndedOrLooped,
        SysEx::DeviceInquiry(inquiry) => Message::DeviceInquiry(inquiry),
        SysEx::VersionInquiry(inquiry) => Message::VersionInquiry(inquiry),
    }
}

impl InputDevice for Input {
    const MIDI_DEVICE_KEYWORD: &'static str = "Launchpad Mini MK3 MIDI 2";

    const MIDI_CONNECTION_NAME: &'static str = "Launchy Mini Mk3 Input";

    type Message = Message;

    open spec fn decoding(data: Seq<u8>) -> Result<Message, DecodeError> {
        message_of(data)
    }

    open spec fn policy() -> FailurePolicy {
        FailurePolicy::Degrade
    }

    proof fn lemma_policy_governs_short_messages(data: Seq<u8>) {
    }

    fn failure_policy() -> (policy: FailurePolicy) {
        FailurePolicy::Degrade
    }

    /// Decodes one buffer: the answer to an inquiry, a short message, the
    /// report of a text that ended, or the error `InvalidSysEx`.
    fn try_decode_message(_timestamp: u64, data: &[u8]) -> (result: Result<Message, DecodeError>) {
        if let Some(inquiry) = parse_device_query(data) {
            return Ok(Message::DeviceInquiry(inquiry));
        }
        if let Some(inquiry) = parse_version_query(data) {
            return Ok(Message::VersionInquiry(inquiry));
        }
        if data.len() == SHORT_MESSAGE_LEN {
            Ok(decode_short_message(data[0], data[1], data[2]))
        } else {
            match decode_sysex(data) {
                Ok(sysex) => Ok(message_from_sysex(sysex)),
                Err(error) => Err(error),
            }
        }
    }

    /// Decodes one buffer that holds a message of the device.
    fn decode_message(timestamp: u64, data: &[u8]) -> (message: Message) {
        match Self::try_decode_message(timestamp, data) {
            Ok(message) => message,
            Err(_) => vstd::pervasive::unreached(),
        }
    }
}

/// A controller-change of a control button with value 0 is the release of
/// that button, and with value 127 its press; the button's index is the
/// controller number less 104.
pub proof fn lemma_control_button_decoding(controller: u8, velocity: u8)
    requires
        104 <= controller <= 111,
        velocity == 0 || velocity == 127,
    ensures
        velocity == 0 ==> message_of(seq![CONTROLLER_CHANGE, controller, velocity]) == Ok::<
            Message,
            DecodeError,
        >(Message::Release { button: Button::ControlButton { index: (controller - 104) as u8 } }),
        velocity == 127 ==> message_of(seq![CONTROLLER_CHANGE, controller, velocity]) == Ok::<
            Message,
            DecodeError,
        >(Message::Press { button: Button::ControlButton { index: (controller - 104) as u8 } }),
{
}

/// A note-on with velocity 0 whose key lies inside the border is the release
/// of a grid button, and with velocity 127 its press; the button's column is
/// the key modulo 10, less 1, and its row the key divided by 10, less 1.
pub proof fn lemma_grid_button_decoding(key: u8, velocity: u8)
    requires
        key % 10 >= 1,
        key / 10 >= 1,
        velocity == 0 || velocity == 127,
    ensures
        velocity == 0 ==> message_of(seq![NOTE_ON, key, velocity]) == Ok::<Message, DecodeError>(
            Message::Release {
                button: Button::GridButton { x: (key % 10 - 1) as u8, y: (key / 10 - 1) as u8 },
            },
        ),
        velocity == 127 ==> message_of(seq![NOTE_ON, key, velocity]) == Ok::<Message, DecodeError>(
            Message::Press {
                button: Button::GridButton { x: (key % 10 - 1) as u8, y: (key / 10 - 1) as u8 },
            },
        ),
{
}

/// A note-on whose key has a digit 0 lies on the border, not on the grid: it
/// is `Unsupported`, whatever its velocity.
pub proof fn lemma_border_key_is_unsupported(key: u8, velocity: u8)
    requires
        key % 10 == 0 || key / 10 == 0,
    ensures
        message_of(seq![NOTE_ON, key, velocity]) == Ok::<Message, DecodeError>(
            Message::Unsupported,
        ),
{
}

/// A short message with a velocity other than 0 and 127 is never a press or a
/// release. A note-on, and a controller-change of a control button, with such
/// a velocity is `Unsupported`.
pub proof fn lemma_other_velocity_is_unsupported(status: u8, data1: u8, velocity: u8)
    requires
        velocity != 0,
        velocity != 127,
    ensures
        message_of(seq![status, data1, velocity]) is Ok,
        !(message_of(seq![status, data1, velocity])->Ok_0 is Press),
        !(message_of(seq![status, data1, velocity])->Ok_0 is Release),
        status == NOTE_ON || (status == CONTROLLER_CHANGE && 104 <= data1 <= 111) ==> message_of(
            seq![status, data1, velocity],
        ) == Ok::<Message, DecodeError>(Message::Unsupported),
{
}

/// Every short message decodes, and to nothing but a press, a release, the
/// end of a scrolling text or `Unsupported`.
pub proof fn lemma_short_message_never_fails(data: Seq<u8>)
    requires
        data.len() == 3,
    ensures
        message_of(data) == Ok::<Message, DecodeError>(short_message_of(data[0], data[1], data[2])),
        !(message_of(data)->Ok_0 is DeviceInquiry),
        !(message_of(data)->Ok_0 is VersionInquiry),
{
}

/// Among the buffers of eight bytes, the text-ended-or-looped message decodes
/// to `TextEndedOrLooped`, and every other is an error.
pub proof fn lemma_text_ended_or_looped_is_exact(data: Seq<u8>)
    requires
        data.len() == 8,
    ensures
        data == TEXT_ENDED_OR_LOOPED@ ==> message_of(data) == Ok::<Message, DecodeError>(
            Message::TextEndedOrLooped,
        ),
        data != TEXT_ENDED_OR_LOOPED@ ==> message_of(data) == Err::<Message, DecodeError>(
            DecodeError::InvalidSysEx,
        ),
{
}

/// A buffer is an error only if it is routed to system-exclusive decoding:
/// its length is not 3, and it has none of the three exact shapes. The error
/// is `InvalidSysEx`.
pub proof fn lemma_errors_are_invalid_sysex(data: Seq<u8>)
    ensures
        message_of(data) is Err <==> data.len() != 3 && sysex_message(data) is Err,
        message_of(data) is Err ==> message_of(data) == Err::<Message, DecodeError>(
            DecodeError::InvalidSysEx,
        ),
{
}

/// The kind of the button of a press or a release follows from the status
/// byte alone: a note-on gives a grid button, and a controller-change a
/// control button with an index from 0 to 7.
pub proof fn lemma_button_kind_follows_status(data: Seq<u8>, button: Button)
    requires
        message_of(data) == Ok::<Message, DecodeError>(Message::Press { button }) || message_of(
            data,
        ) == Ok::<Message, DecodeError>(Message::Release { button }),
    ensures
        data.len() == 3,
        button is GridButton <==> data[0] == NOTE_ON,
        button is ControlButton <==> data[0] == CONTROLLER_CHANGE,
        button matches Button::ControlButton { index } ==> index <= 7,
{
}

} // verus!
