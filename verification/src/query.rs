use vstd::prelude::*;
use crate::error::{frame_view, InvalidArgument};

verus! {

/// Which devices a device inquiry asks.
#[derive(Debug, Clone, Copy, PartialEq, Eq, Hash, Structural)]
pub enum DeviceIdQuery {
    /// Every device on the connection.
    Any,
    /// The device with this id, which must be at most 126.
    Specific(u8),
}

/// What a device answers to a device inquiry.
#[derive(Debug, Clone, Copy, PartialEq, Eq, Hash, Structural)]
pub struct DeviceInquiry {
    /// The id of the device that answered.
    pub device_id: u8,
    /// The two family code bytes, the first one as the high byte.
    pub family_code: u16,
    /// The two family member code bytes, the first one as the high byte.
    pub family_member_code: u16,
    /// The four firmware revision bytes, the first one as the highest byte.
    pub firmware_revision: u32,
}

/// What a device answers to a version inquiry.
#[derive(Debug, Clone, Copy, PartialEq, Eq, Hash, Structural)]
pub struct VersionInquiry {
    /// The five bootloader version bytes, read as decimal digits.
    pub bootloader_version: u32,
    /// The five firmware version bytes, read as decimal digits.
    pub firmware_version: u32,
    /// The two bootloader size bytes, the first one as the high byte.
    pub bootloader_size: u16,
}

/// The device id that addresses every device.
pub const DEVICE_ID_FOR_ANY: u8 = 127;

/// Length of the answer to a device inquiry.
pub const DEVICE_INQUIRY_REPLY_LEN: usize = 17;

/// Length of the answer to a version inquiry.
pub const VERSION_INQUIRY_REPLY_LEN: usize = 19;

/// The frame that asks for a device inquiry, or the error for a specific
/// device id above 126.
pub open spec fn device_inquiry_request(query: DeviceIdQuery) -> Result<Seq<u8>, InvalidArgument> {
    match query {
        DeviceIdQuery::Any => Ok(seq![240u8, 126, 127, 6, 1, 247]),
        DeviceIdQuery::Specific(device_id) => if device_id > 126 {
            Err(InvalidArgument::DeviceId { device_id })
        } else {
            Ok(seq![240u8, 126, device_id, 6, 1, 247])
        },
    }
}

/// The frame that asks for a version inquiry.
pub open spec fn version_inquiry_request() -> Seq<u8> {
    seq![240u8, 0, 32, 41, 0, 112, 247]
}

/// Whether `data` has the envelope of an answer to a device inquiry: 17
/// bytes, the universal header with sub-ids 6 and 2, the manufacturer id
/// `00 20 29`, and the closing byte.
pub open spec fn is_device_inquiry_reply(data: Seq<u8>) -> bool {
    &&& data.len() == 17
    &&& data[0] == 240
    &&& data[1] == 126
    &&& data[3] == 6
    &&& data[4] == 2
    &&& data[5] == 0
    &&& data[6] == 32
    &&& data[7] == 41
    &&& data[16] == 247
}

/// Whether `data` has the envelope of an answer to a version inquiry: 19
/// bytes, the manufacturer id `00 20 29`, the bytes `00 70`, and the closing
/// byte.
pub open spec fn is_version_inquiry_reply(data: Seq<u8>) -> bool {
    &&& data.len() == 19
    &&& data[0] == 240
    &&& data[1] == 0
    &&& data[2] == 32
    &&& data[3] == 41
    &&& data[4] == 0
    &&& data[5] == 112
    &&& data[18] == 247
}

/// Two bytes as one number, the first one as the high byte.
pub open spec fn pair_value(high: u8, low: u8) -> int {
    256 * high + low
}

/// Four bytes as one number, the first one as the highest byte.
pub open spec fn quad_value(b0: u8, b1: u8, b2: u8, b3: u8) -> int {
    16777216 * b0 + 65536 * b1 + 256 * b2 + b3
}

/// Five bytes as one number, each byte one decimal digit.
pub open spec fn digits_value(d0: u8, d1: u8, d2: u8, d3: u8, d4: u8) -> int {
    10000 * d0 + 1000 * d1 + 100 * d2 + 10 * d3 + d4
}

/// What an answer to a device inquiry holds; `None` for any other frame.
pub open spec fn spec_parse_device_query(data: Seq<u8>) -> Option<DeviceInquiry> {
    if is_device_inquiry_reply(data) {
        Some(
            DeviceInquiry {
                device_id: data[2],
                family_code: pair_value(data[8], data[9]) as u16,
                family_member_code: pair_value(data[10], data[11]) as u16,
                firmware_revision: quad_value(data[12], data[13], data[14], data[15]) as u32,
            },
        )
    } else {
        None
    }
}

/// What an answer to a version inquiry holds; `None` for any other frame.
pub open spec fn spec_parse_version_query(data: Seq<u8>) -> Option<VersionInquiry> {
    if is_version_inquiry_reply(data) {
        Some(
            VersionInquiry {
                bootloader_version: digits_value(data[6], data[7], data[8], data[9], data[10]) as u32,
                firmware_version: digits_value(
                    data[11],
                    data[12],
                    data[13],
                    data[14],
                    data[15],
                ) as u32,
                bootloader_size: pair_value(data[16], data[17]) as u16,
            },
        )
    } else {
        None
    }
}

fn pair(high: u8, low: u8) -> (value: u16)
    ensures
        value == pair_value(high, low),
{
    256 * (high as u16) + low as u16
}

fn quad(b0: u8, b1: u8, b2: u8, b3: u8) -> (value: u32)
    ensures
        value == quad_value(b0, b1, b2, b3),
{
    16777216 * (b0 as u32) + 65536 * (b1 as u32) + 256 * (b2 as u32) + b3 as u32
}

fn digits(d0: u8, d1: u8, d2: u8, d3: u8, d4: u8) -> (value: u32)
    ensures
        value == digits_value(d0, d1, d2, d3, d4),
{
    10000 * (d0 as u32) + 1000 * (d1 as u32) + 100 * (d2 as u32) + 10 * (d3 as u32) + d4 as u32
}

/// Builds the frame that asks for a device inquiry.
///
/// Fails exactly for a specific device id above 126: 127 is the id that
/// addresses every device, and a data byte has seven bits.
pub fn request_device_inquiry(query: DeviceIdQuery) -> (frame: Result<Vec<u8>, InvalidArgument>)
    ensures
        frame_view(frame) == device_inquiry_request(query),
        frame is Err <==> (query matches DeviceIdQuery::Specific(device_id) && device_id > 126),
{
    let device_id: u8 = match query {
        DeviceIdQuery::Any => DEVICE_ID_FOR_ANY,
        DeviceIdQuery::Specific(device_id) => {
            if device_id > 126 {
                return Err(InvalidArgument::DeviceId { device_id });
            }
            device_id
        },
    };
    let bytes: Vec<u8> = vec![240, 126, device_id, 6, 1, 247];
    assert(bytes@ =~= seq![240u8, 126, device_id, 6, 1, 247]);
    Ok(bytes)
}

/// Builds the frame that asks for a version inquiry.
pub fn request_version_inquiry() -> (frame: Vec<u8>)
    ensures
        frame@ == version_inquiry_request(),
{
    let bytes: Vec<u8> = vec![240, 0, 32, 41, 0, 112, 247];
    assert(bytes@ =~= version_inquiry_request());
    bytes
}

/// Reads an answer to a device inquiry.
///
/// Returns `None` exactly when `data` does not have the envelope of such an
/// answer; that is no error, the frame is then of another kind.
pub fn parse_device_query(data: &[u8]) -> (parsed: Option<DeviceInquiry>)
    ensures
        parsed == spec_parse_device_query(data@),
        parsed is Some <==> is_device_inquiry_reply(data@),
{
    if data.len() != DEVICE_INQUIRY_REPLY_LEN {
        return None;
    }
    if data[0] != 240 || data[1] != 126 || data[3] != 6 || data[4] != 2 || data[5] != 0 || data[6]
        != 32 || data[7] != 41 || data[16] != 247 {
        return None;
    }
    Some(
        DeviceInquiry {
            device_id: data[2],
            family_code: pair(data[8], data[9]),
            family_member_code: pair(data[10], data[11]),
            firmware_revision: quad(data[12], data[13], data[14], data[15]),
        },
    )
}

/// Reads an answer to a version inquiry.
///
/// Returns `None` exactly when `data` does not have the envelope of such an
/// answer; that is no error, the frame is then of another kind.
pub fn parse_version_query(data: &[u8]) -> (parsed: Option<VersionInquiry>)
    ensures
        parsed == spec_parse_version_query(data@),
        parsed is Some <==> is_version_inquiry_reply(data@),
{
    if data.len() != VERSION_INQUIRY_REPLY_LEN {
        return None;
    }
    if data[0] != 240 || data[1] != 0 || data[2] != 32 || data[3] != 41 || data[4] != 0 || data[5]
        != 112 || data[18] != 247 {
        return None;
    }
    Some(
        VersionInquiry {
            bootloader_version: digits(data[6], data[7], data[8], data[9], data[10]),
            firmware_version: digits(data[11], data[12], data[13], data[14], data[15]),
            bootloader_size: pair(data[16], data[17]),
        },
    )
}

} // verus!
