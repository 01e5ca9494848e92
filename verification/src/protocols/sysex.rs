//! System-exclusive messages: buffers of varying length between a start byte
//! and an end byte.

use crate::protocols::query::{
    device_inquiry, parse_device_query, parse_version_query, version_inquiry, DeviceInquiry,
    VersionInquiry,
};
use crate::DecodeError;
use vstd::prelude::*;

verus! {

/// First byte of every system-exclusive message.
pub const SYSEX_START: u8 = 0xF0;

/// Last byte of every system-exclusive message.
pub const SYSEX_END: u8 = 0xF7;

/// The message that a device sends when a scrolling text has run to its end
/// or starts over.
pub const TEXT_ENDED_OR_LOOPED: [u8; 8] = [240, 0, 32, 41, 2, 24, 21, 247];

/// A system-exclusive message of the family.
#[derive(Debug, Clone, Copy, PartialEq, Eq, Hash, Structural)]
pub enum SysEx {
    /// A scrolling text has run to its end or starts over.
    TextEndedOrLooped,
    /// The device's answer to a device inquiry.
    DeviceInquiry(DeviceInquiry),
    /// The device's answer to a version inquiry.
    VersionInquiry(VersionInquiry),
}

/// Whether `pattern` stands in `data` from index `offset` on.
pub open spec fn holds_at(data: Seq<u8>, offset: int, pattern: Seq<u8>) -> bool {
    &&& 0 <= offset
    &&& offset + pattern.len() <= data.len()
    &&& data.subrange(offset, offset + pattern.len()) == pattern
}

/// What a buffer says when it is read as a system-exclusive message. The three
/// shapes are exact: a buffer that is none of them is an error.
pub open spec fn sysex_message(data: Seq<u8>) -> Result<SysEx, DecodeError> {
    if data == TEXT_ENDED_OR_LOOPED@ {
        Ok(SysEx::TextEndedOrLooped)
    } else if let Some(inquiry) = device_inquiry(data) {
        Ok(SysEx::DeviceInquiry(inquiry))
    } else if let Some(inquiry) = version_inquiry(data) {
        Ok(SysEx::VersionInquiry(inquiry))
    } else {
        Err(DecodeError::InvalidSysEx)
    }
}

/// Tells whether `pattern` stands in `data` from index `offset` on.
pub fn has_bytes_at(data: &[u8], offset: usize, pattern: &[u8]) -> (found: bool)
    ensures
        found == holds_at(data@, offset as int, pattern@),
{
    if offset > data.len() || pattern.len() > data.len() - offset {
        return false;
    }
    let mut i: usize = 0;
    while i < pattern.len()
        invariant
            i <= pattern.len(),
            offset + pattern.len() <= data.len(),
            forall|k: int| 0 <= k < i ==> data@[offset + k] == pattern@[k],
        decreases pattern.len() - i,
    {
        if data[offset + i] != pattern[i] {
            assert(data@.subrange(offset as int, offset + pattern.len())[i as int] != pattern@[i as int]);
            return false;
        }
        i += 1;
    }
    assert(data@.subrange(offset as int, offset + pattern.len()) =~= pattern@);
    true
}

/// Tells whether a buffer is the text-ended-or-looped message, byte for byte.
pub fn is_text_ended_or_looped(data: &[u8]) -> (found: bool)
    ensures
        found == (data@ == TEXT_ENDED_OR_LOOPED@),
{
    let found = data.len() == TEXT_ENDED_OR_LOOPED.len() && has_bytes_at(
        data,
        0,
        &TEXT_ENDED_OR_LOOPED,
    );
    assert(data@.subrange(0, data@.len() as int) =~= data@);
    found
}

/// Decodes a buffer as a system-exclusive message.
///
/// The text-ended-or-looped message, a device inquiry and a version inquiry
/// are recognised, each in its exact shape; every other buffer is
/// `InvalidSysEx`.
pub fn decode_sysex(data: &[u8]) -> (result: Result<SysEx, DecodeError>)
    ensures
        result == sysex_message(data@),
{
    if is_text_ended_or_looped(data) {
        return Ok(SysEx::TextEndedOrLooped);
    }
    if let Some(inquiry) = parse_device_query(data) {
        return Ok(SysEx::DeviceInquiry(inquiry));
    }
    if let Some(inquiry) = parse_version_query(data) {
        return Ok(SysEx::VersionInquiry(inquiry));
    }
    Err(DecodeError::InvalidSysEx)
}

/// Among the buffers of eight bytes, the text-ended-or-looped message is the
/// one system-exclusive message: every other is an error.
pub proof fn lemma_eight_bytes_are_text_or_error(data: Seq<u8>)
    requires
        data.len() == 8,
    ensures
        data == TEXT_ENDED_OR_LOOPED@ ==> sysex_message(data) == Ok::<SysEx, DecodeError>(
            SysEx::TextEndedOrLooped,
        ),
        data != TEXT_ENDED_OR_LOOPED@ ==> sysex_message(data) == Err::<SysEx, DecodeError>(
            DecodeError::InvalidSysEx,
        ),
{
}

/// Every system-exclusive message of the family starts with the start byte
/// and ends with the end byte.
pub proof fn lemma_sysex_is_framed(data: Seq<u8>)
    requires
        sysex_message(data) is Ok,
    ensures
        data.len() >= 8,
        data[0] == SYSEX_START,
        data[data.len() - 1] == SYSEX_END,
{
}

} // verus!
