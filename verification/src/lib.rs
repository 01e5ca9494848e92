//! Decoders for the MIDI messages that Novation Launchpad controllers send.
//!
//! A transport frames the incoming byte stream into buffers: three-byte
//! channel messages and complete system-exclusive messages. Each device
//! implements [`InputDevice`], which turns one such buffer into one message of
//! the device. Decoding keeps no state: what comes out is a function of the
//! bytes of the buffer and of nothing else.

use crate::protocols::midi::{CONTROLLER_CHANGE, NOTE_ON};
use vstd::prelude::*;

pub mod launchpad_mini;
pub mod launchpad_mini_mk3;
pub mod protocols;

verus! {

/// Why a buffer is no message of a device.
#[derive(Debug, Clone, Copy, PartialEq, Eq, Hash, Structural)]
pub enum DecodeError {
    /// A short message whose status byte is neither note-on nor
    /// controller-change.
    UnknownStatus { status: u8 },
    /// A controller-change whose controller number belongs to no control of
    /// the device.
    UnknownController { controller: u8 },
    /// A note-on whose velocity is neither fully released nor fully pressed.
    GridVelocity { velocity: u8 },
    /// A controller-change of a control button whose value is neither fully
    /// released nor fully pressed.
    ControlVelocity { velocity: u8 },
    /// A buffer that is routed to system-exclusive decoding and has none of
    /// the shapes that the device sends.
    InvalidSysEx,
}

/// What a device does with a short message that it does not recognise.
#[derive(Debug, Clone, Copy, PartialEq, Eq, Hash, Structural)]
pub enum FailurePolicy {
    /// The message is an error: the stream is taken to be well-formed, and
    /// anything else is worth halting on.
    FailFast,
    /// The message decodes to a sentinel of the device's message type, and the
    /// caller goes on with the stream.
    Degrade,
}

/// A device whose incoming MIDI messages can be decoded.
pub trait InputDevice {
    /// Part of the name under which the operating system lists the device's
    /// MIDI port.
    const MIDI_DEVICE_KEYWORD: &'static str;

    /// Name that a connection to the device is opened under.
    const MIDI_CONNECTION_NAME: &'static str;

    /// The messages of the device.
    type Message;

    /// What a buffer decodes to: a message of the device, or the reason why it
    /// is none.
    spec fn decoding(data: Seq<u8>) -> Result<Self::Message, DecodeError>;

    /// How the device treats short messages that it does not recognise.
    spec fn policy() -> FailurePolicy;

    /// The policy governs the short messages. A device that degrades has a
    /// message for each of them. A device that fails fast has none for a
    /// status byte other than note-on and controller-change, nor for a
    /// note-on whose velocity is neither 0 nor 127.
    proof fn lemma_policy_governs_short_messages(data: Seq<u8>)
        requires
            data.len() == 3,
        ensures
            Self::policy() == FailurePolicy::Degrade ==> Self::decoding(data) is Ok,
            Self::policy() == FailurePolicy::FailFast && data[0] != NOTE_ON && data[0]
                != CONTROLLER_CHANGE ==> Self::decoding(data) is Err,
            Self::policy() == FailurePolicy::FailFast && data[0] == NOTE_ON && data[2] != 0
                && data[2] != 127 ==> Self::decoding(data) is Err,
    ;

    /// The failure policy of the device.
    fn failure_policy() -> (policy: FailurePolicy)
        ensures
            policy == Self::policy(),
    ;

    /// Decodes one buffer, whatever it holds.
    ///
    /// The result is `Self::decoding` of the bytes: the timestamp does not
    /// bear on it, nor does any call made before.
    fn try_decode_message(timestamp: u64, data: &[u8]) -> (result: Result<
        Self::Message,
        DecodeError,
    >)
        ensures
            result == Self::decoding(data@),
    ;

    /// Decodes one buffer that is known to hold a message of the device.
    fn decode_message(timestamp: u64, data: &[u8]) -> (message: Self::Message)
        requires
            Self::decoding(data@) is Ok,
        ensures
            Self::decoding(data@) == Ok::<Self::Message, DecodeError>(message),
    ;
}

} // verus!
