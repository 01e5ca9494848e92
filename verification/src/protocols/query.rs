//! The answers of a device to the two inquiries: which device it is, and
//! which versions of bootloader and firmware it runs.

use crate::protocols::sysex::{has_bytes_at, holds_at, SYSEX_END};
use vstd::prelude::*;

verus! {

/// Length of the answer to a device inquiry.
pub const DEVICE_INQUIRY_LEN: usize = 17;

/// The two bytes that open the answer to a device inquiry. The device id
/// follows them.
pub const DEVICE_INQUIRY_HEADER: [u8; 2] = [240, 126];

/// The nine bytes between the device id and the firmware revision: the
/// answer's kind, the manufacturer and the device family.
pub const DEVICE_INQUIRY_IDENTITY: [u8; 9] = [6, 2, 0, 32, 41, 105, 0, 0, 0];

/// Index of the device id in the answer to a device inquiry.
pub const DEVICE_ID_AT: usize = 2;

/// Index of the first of the four bytes of the firmware revision.
pub const FIRMWARE_REVISION_AT: usize = 12;

/// Length of the answer to a version inquiry.
pub const VERSION_INQUIRY_LEN: usize = 19;

/// The six bytes that open the answer to a version inquiry.
pub const VERSION_INQUIRY_HEADER: [u8; 6] = [240, 0, 32, 41, 0, 112];

/// Index of the first of the five digits of the bootloader version.
pub const BOOTLOADER_VERSION_AT: usize = 6;

/// Index of the first of the five digits of the firmware version. Two bytes
/// follow the digits whose meaning is not known.
pub const FIRMWARE_VERSION_AT: usize = 11;

/// Number of digits of a version.
pub const VERSION_DIGITS: usize = 5;

/// A device's answer to a device inquiry.
#[derive(Debug, Clone, Copy, PartialEq, Eq, Hash, Structural)]
pub struct DeviceInquiry {
    /// The id that the device was given.
    pub device_id: u8,
    /// The revision of the firmware.
    pub firmware_revision: u32,
}

/// A device's answer to a version inquiry.
#[derive(Debug, Clone, Copy, PartialEq, Eq, Hash, Structural)]
pub struct VersionInquiry {
    /// The version of the bootloader.
    pub bootloader_version: u32,
    /// The version of the firmware.
    pub firmware_version: u32,
}

/// The number that four bytes spell, the most significant first.
pub open spec fn big_endian(b0: u8, b1: u8, b2: u8, b3: u8) -> int {
    b0 * 0x100_0000 + b1 * 0x1_0000 + b2 * 0x100 + b3
}

/// The number that the five bytes from index `at` on spell as decimal digits,
/// the most significant first.
pub open spec fn decimal_at(data: Seq<u8>, at: int) -> int {
    data[at] * 10000 + data[at + 1] * 1000 + data[at + 2] * 100 + data[at + 3] * 10 + data[at
        + 4]
}

/// Whether each byte from index `from` up to, not including, `to` is a decimal
/// digit.
pub open spec fn all_decimal(data: Seq<u8>, from: int, to: int) -> bool {
    forall|i: int| from <= i < to ==> #[trigger] data[i] <= 9
}

/// Whether a buffer has the shape of the answer to a device inquiry: 17 bytes,
/// of which the device id and the four bytes of the firmware revision are
/// free and the others fixed.
pub open spec fn is_device_inquiry(data: Seq<u8>) -> bool {
    &&& data.len() == DEVICE_INQUIRY_LEN
    &&& holds_at(data, 0, DEVICE_INQUIRY_HEADER@)
    &&& holds_at(data, DEVICE_ID_AT + 1, DEVICE_INQUIRY_IDENTITY@)
    &&& data[DEVICE_INQUIRY_LEN - 1] == SYSEX_END
}

/// The device inquiry that a buffer holds, if it has that shape.
pub open spec fn device_inquiry(data: Seq<u8>) -> Option<DeviceInquiry> {
    if is_device_inquiry(data) {
        Some(
            DeviceInquiry {
                device_id: data[DEVICE_ID_AT as int],
                firmware_revision: big_endian(
                    data[FIRMWARE_REVISION_AT as int],
                    data[FIRMWARE_REVISION_AT + 1],
                    data[FIRMWARE_REVISION_AT + 2],
                    data[FIRMWARE_REVISION_AT + 3],
                ) as u32,
            },
        )
    } else {
        None
    }
}

/// Whether a buffer has the shape of the answer to a version inquiry: 19
/// bytes, of which the header and the last are fixed, ten are decimal digits
/// and two are free.
pub open spec fn is_version_inquiry(data: Seq<u8>) -> bool {
    &&& data.len() == VERSION_INQUIRY_LEN
    &&& holds_at(data, 0, VERSION_INQUIRY_HEADER@)
    &&& all_decimal(data, BOOTLOADER_VERSION_AT as int, FIRMWARE_VERSION_AT + VERSION_DIGITS)
    &&& data[VERSION_INQUIRY_LEN - 1] == SYSEX_END
}

/// The version inquiry that a buffer holds, if it has that shape.
pub open spec fn version_inquiry(data: Seq<u8>) -> Option<VersionInquiry> {
    if is_version_inquiry(data) {
        Some(
            VersionInquiry {
                bootloader_version: decimal_at(data, BOOTLOADER_VERSION_AT as int) as u32,
                firmware_version: decimal_at(data, FIRMWARE_VERSION_AT as int) as u32,
            },
        )
    } else {
        None
    }
}

/// Four bytes never spell more than a `u32` holds.
pub proof fn lemma_big_endian_fits(b0: u8, b1: u8, b2: u8, b3: u8)
    ensures
        0 <= big_endian(b0, b1, b2, b3) <= u32::MAX,
{
}

/// Five decimal digits spell a number below 100000.
pub proof fn lemma_decimal_fits(data: Seq<u8>, at: int)
    requires
        0 <= at,
        at + VERSION_DIGITS <= data.len(),
        all_decimal(data, at, at + VERSION_DIGITS),
    ensures
        0 <= decimal_at(data, at) <= 99999,
{
    assert(data[at] <= 9);
    assert(data[at + 1] <= 9);
    assert(data[at + 2] <= 9);
    assert(data[at + 3] <= 9);
    assert(data[at + 4] <= 9);
}

/// Puts four bytes together, the most significant first.
pub fn u32_from_big_endian(b0: u8, b1: u8, b2: u8, b3: u8) -> (value: u32)
    ensures
        value == big_endian(b0, b1, b2, b3),
{
    (b0 as u32) * 0x100_0000 + (b1 as u32) * 0x1_0000 + (b2 as u32) * 0x100 + (b3 as u32)
}

/// Tells whether each byte of `data` from `from` up to `to` is a decimal
/// digit.
pub fn are_decimal(data: &[u8], from: usize, to: usize) -> (decimal: bool)
    requires
        from <= to <= data.len(),
    ensures
        decimal == all_decimal(data@, from as int, to as int),
{
    let mut i: usize = from;
    while i < to
        invariant
            from <= i <= to <= data.len(),
            all_decimal(data@, from as int, i as int),
        decreases to - i,
    {
        if data[i] > 9 {
            return false;
        }
        i += 1;
    }
    true
}

/// Reads the five decimal digits from index `at` on as one number.
pub fn decimal_from_digits(data: &[u8], at: usize) -> (value: u32)
    requires
        at + VERSION_DIGITS <= data.len(),
        all_decimal(data@, at as int, at + VERSION_DIGITS),
    ensures
        value == decimal_at(data@, at as int),
{
    proof {
        lemma_decimal_fits(data@, at as int);
    }
    (data[at] as u32) * 10000 + (data[at + 1] as u32) * 1000 + (data[at + 2] as u32) * 100 + (
    data[at + 3] as u32) * 10 + (data[at + 4] as u32)
}

/// Reads a buffer as the answer to a device inquiry.
///
/// `Some` exactly for a buffer of that shape, with the device id and the
/// firmware revision that it holds; `None` for every other buffer.
pub fn parse_device_query(data: &[u8]) -> (inquiry: Option<DeviceInquiry>)
    ensures
        inquiry == device_inquiry(data@),
{
    if data.len() == DEVICE_INQUIRY_LEN && has_bytes_at(data, 0, &DEVICE_INQUIRY_HEADER)
        && has_bytes_at(data, DEVICE_ID_AT + 1, &DEVICE_INQUIRY_IDENTITY) && data[DEVICE_INQUIRY_LEN
        - 1] == SYSEX_END {
        let firmware_revision: u32 = u32_from_big_endian(
            data[FIRMWARE_REVISION_AT],
            data[FIRMWARE_REVISION_AT + 1],
            data[FIRMWARE_REVISION_AT + 2],
            data[FIRMWARE_REVISION_AT + 3],
        );
        Some(DeviceInquiry { device_id: data[DEVICE_ID_AT], firmware_revision })
    } else {
        None
    }
}

/// Reads a buffer as the answer to a version inquiry.
///
/// `Some` exactly for a buffer of that shape, with the two versions that its
/// digits spell; `None` for every other buffer, one with a byte above 9 in
/// the place of a digit among them.
pub fn parse_version_query(data: &[u8]) -> (inquiry: Option<VersionInquiry>)
    ensures
        inquiry == version_inquiry(data@),
{
    if data.len() == VERSION_INQUIRY_LEN && has_bytes_at(data, 0, &VERSION_INQUIRY_HEADER)
        && data[VERSION_INQUIRY_LEN - 1] == SYSEX_END && are_decimal(
        data,
        BOOTLOADER_VERSION_AT,
        FIRMWARE_VERSION_AT + VERSION_DIGITS,
    ) {
        let bootloader_version: u32 = decimal_from_digits(data, BOOTLOADER_VERSION_AT);
        let firmware_version: u32 = decimal_from_digits(data, FIRMWARE_VERSION_AT);
        Some(VersionInquiry { bootloader_version, firmware_version })
    } else {
        None
    }
}

/// The answer to a device inquiry, written out: whatever the device id and
/// the four bytes of the firmware revision are, these 17 bytes hold that id
/// and the revision that the four bytes spell.
pub proof fn lemma_device_inquiry_shape(device_id: u8, f0: u8, f1: u8, f2: u8, f3: u8)
    ensures
        device_inquiry(
            seq![240, 126, device_id, 6, 2, 0, 32, 41, 105, 0, 0, 0, f0, f1, f2, f3, 247],
        ) == Some(
            DeviceInquiry {
                device_id,
                firmware_revision: (f0 * 0x100_0000 + f1 * 0x1_0000 + f2 * 0x100 + f3) as u32,
            },
        ),
{
    let data = seq![240u8, 126, device_id, 6, 2, 0, 32, 41, 105, 0, 0, 0, f0, f1, f2, f3, 247];
    assert(data.subrange(0, 2) =~= DEVICE_INQUIRY_HEADER@);
    assert(data.subrange(3, 12) =~= DEVICE_INQUIRY_IDENTITY@);
}

/// The answer to a version inquiry, written out: whatever the two last bytes
/// before the end are, these 19 bytes hold the versions that the two groups
/// of five digits spell, provided that each of the ten is at most 9.
pub proof fn lemma_version_inquiry_shape(b: Seq<u8>, f: Seq<u8>, t0: u8, t1: u8)
    requires
        b.len() == 5,
        f.len() == 5,
        forall|i: int| 0 <= i < 5 ==> b[i] <= 9 && f[i] <= 9,
    ensures
        version_inquiry(seq![240u8, 0, 32, 41, 0, 112] + b + f + seq![t0, t1, 247]) == Some(
            VersionInquiry {
                bootloader_version: (b[0] * 10000 + b[1] * 1000 + b[2] * 100 + b[3] * 10
                    + b[4]) as u32,
                firmware_version: (f[0] * 10000 + f[1] * 1000 + f[2] * 100 + f[3] * 10
                    + f[4]) as u32,
            },
        ),
{
    let data = seq![240u8, 0, 32, 41, 0, 112] + b + f + seq![t0, t1, 247];
    assert(data.subrange(0, 6) =~= VERSION_INQUIRY_HEADER@);
    assert forall|i: int| 6 <= i < 16 implies #[trigger] data[i] <= 9 by {
        if i < 11 {
            assert(data[i] == b[i - 6]);
        } else {
            assert(data[i] == f[i - 11]);
        }
    }
    assert(data[6] == b[0] && data[7] == b[1] && data[8] == b[2] && data[9] == b[3] && data[10]
        == b[4]);
    assert(data[11] == f[0] && data[12] == f[1] && data[13] == f[2] && data[14] == f[3]
        && data[15] == f[4]);
}

/// A buffer with a byte above 9 in the place of a digit is no answer to a
/// version inquiry.
pub proof fn lemma_version_digits_are_decimal(data: Seq<u8>, i: int)
    requires
        6 <= i < 16,
        i < data.len(),
        data[i] > 9,
    ensures
        version_inquiry(data) is None,
{
}

/// No buffer is the answer to both inquiries, and an answer has one length.
pub proof fn lemma_inquiries_are_disjoint(data: Seq<u8>)
    ensures
        device_inquiry(data) is Some ==> data.len() == 17 && version_inquiry(data) is None,
        version_inquiry(data) is Some ==> data.len() == 19 && device_inquiry(data) is None,
{
}

} // verus!
