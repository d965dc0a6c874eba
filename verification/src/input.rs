use vstd::prelude::*;
use crate::button::{
    control_change_number,
    note_names_position,
    spec_decode_grid_button,
    Button,
};
use crate::error::DecodeError;
use crate::query::{
    is_device_inquiry_reply,
    is_version_inquiry_reply,
    parse_device_query,
    parse_version_query,
    spec_parse_device_query,
    spec_parse_version_query,
    DeviceInquiry,
    VersionInquiry,
};

verus! {

/// One event that the device reports.
#[derive(Debug, Clone, Copy, PartialEq, Eq, Hash, Structural)]
pub enum Message {
    /// A button was pressed.
    Press { button: Button },
    /// A button was released.
    Release { button: Button },
    /// A scrolling text has ended, or has started over.
    TextEndedOrLooped,
    /// The device has entered programmer mode.
    ProgrammerMode,
    /// A frame that carries nothing for the caller.
    Pass,
    /// The answer to a device inquiry.
    DeviceInquiry(DeviceInquiry),
    /// The answer to a version inquiry.
    VersionInquiry(VersionInquiry),
}

/// The frame that switches the device into programmer mode, and with which
/// the device confirms the switch.
pub open spec fn programmer_mode_frame() -> Seq<u8> {
    seq![240u8, 0, 32, 41, 2, 13, 14, 1, 247]
}

/// Whether `data` is the programmer mode frame, byte by byte.
pub open spec fn is_programmer_mode_frame(data: Seq<u8>) -> bool {
    &&& data.len() == 9
    &&& data[0] == 240
    &&& data[1] == 0
    &&& data[2] == 32
    &&& data[3] == 41
    &&& data[4] == 2
    &&& data[5] == 13
    &&& data[6] == 14
    &&& data[7] == 1
    &&& data[8] == 247
}

/// The event of a button and a velocity: 0 releases, 127 presses, and the
/// device sends no other velocity.
pub open spec fn press_or_release(button: Button, velocity: u8) -> Result<Message, DecodeError> {
    if velocity == 0 {
        Ok(Message::Release { button })
    } else if velocity == 127 {
        Ok(Message::Press { button })
    } else {
        Err(DecodeError::UnexpectedVelocity { velocity })
    }
}

/// The event that one complete frame stands for.
///
/// The two inquiry answers are tried first. Then the frame's shape decides:
/// a note-on is a grid button, a controller change with a number from 91 to
/// 98 is a control button, `B0 00 03` is the end of a scrolling text, and the
/// programmer mode frame is its own confirmation. Every other frame is
/// `Pass`. There is no note-off: the device releases with velocity 0.
pub open spec fn spec_decode_message(data: Seq<u8>) -> Result<Message, DecodeError> {
    if is_device_inquiry_reply(data) {
        Ok(Message::DeviceInquiry(spec_parse_device_query(data)->Some_0))
    } else if is_version_inquiry_reply(data) {
        Ok(Message::VersionInquiry(spec_parse_version_query(data)->Some_0))
    } else if data.len() == 3 && data[0] == 0x90 {
        match spec_decode_grid_button(data[1]) {
            Some(button) => press_or_release(button, data[2]),
            None => Err(DecodeError::UnexpectedNote { note: data[1] }),
        }
    } else if data.len() == 3 && data[0] == 0xB0 && 91 <= data[1] <= 98 {
        press_or_release(Button::ControlButton { index: (data[1] - 91) as u8 }, data[2])
    } else if data.len() == 3 && data[0] == 0xB0 && data[1] == 0 && data[2] == 3 {
        Ok(Message::TextEndedOrLooped)
    } else if is_programmer_mode_frame(data) {
        Ok(Message::ProgrammerMode)
    } else {
        Ok(Message::Pass)
    }
}

/// The grid button that a note number names: column `note % 10 - 1`, row
/// `8 - note / 10`.
///
/// Returns `None` exactly for the numbers on which one of the two
/// differences would be negative: those that end in zero, and those from 90
/// on.
pub fn decode_grid_button(btn: u8) -> (button: Option<Button>)
    ensures
        button == spec_decode_grid_button(btn),
        button is Some <==> note_names_position(btn),
{
    let column: u8 = btn % 10;
    let row: u8 = btn / 10;
    if column == 0 || row > 8 {
        None
    } else {
        Some(Button::GridButton { x: column - 1, y: 8 - row })
    }
}

fn decode_velocity(button: Button, velocity: u8) -> (event: Result<Message, DecodeError>)
    ensures
        event == press_or_release(button, velocity),
{
    if velocity == 0 {
        Ok(Message::Release { button })
    } else if velocity == 127 {
        Ok(Message::Press { button })
    } else {
        Err(DecodeError::UnexpectedVelocity { velocity })
    }
}

/// The decoder of the frames that the device sends.
pub struct Input;

impl Input {
    /// Decodes one complete frame. The timestamp plays no part in the result.
    ///
    /// The function is total. It fails only on a note-on or a control change
    /// that carries a value the device is not expected to send; a frame of
    /// unknown shape is `Pass`.
    pub fn decode_message(_timestamp: u64, data: &[u8]) -> (decoded: Result<Message, DecodeError>)
        ensures
            decoded == spec_decode_message(data@),
    {
        if let Some(device_inquiry) = parse_device_query(data) {
            return Ok(Message::DeviceInquiry(device_inquiry));
        }
        if let Some(version_inquiry) = parse_version_query(data) {
            return Ok(Message::VersionInquiry(version_inquiry));
        }
        if data.len() == 3 {
            let status: u8 = data[0];
            let number: u8 = data[1];
            let velocity: u8 = data[2];
            if status == 0x90 {
                return match decode_grid_button(number) {
                    Some(button) => decode_velocity(button, velocity),
                    None => Err(DecodeError::UnexpectedNote { note: number }),
                };
            }
            if status == 0xB0 && 91 <= number && number <= 98 {
                return decode_velocity(Button::ControlButton { index: number - 91 }, velocity);
            }
            if status == 0xB0 && number == 0 && velocity == 3 {
                return Ok(Message::TextEndedOrLooped);
            }
            return Ok(Message::Pass);
        }
        if data.len() == 9 && data[0] == 240 && data[1] == 0 && data[2] == 32 && data[3] == 41
            && data[4] == 2 && data[5] == 13 && data[6] == 14 && data[7] == 1 && data[8] == 247 {
            return Ok(Message::ProgrammerMode);
        }
        Ok(Message::Pass)
    }
}

/// A frame is the programmer mode frame byte by byte exactly when it equals
/// it.
pub proof fn lemma_programmer_mode_frame(data: Seq<u8>)
    ensures
        is_programmer_mode_frame(data) <==> data == programmer_mode_frame(),
{
    if is_programmer_mode_frame(data) {
        assert(data =~= programmer_mode_frame());
    }
}

/// A press or a release of control button `index`, as the device reports it
/// with controller number `91 + index`, decodes to that button, for every
/// index up to 7.
pub proof fn lemma_control_change_round_trip(index: u8)
    requires
        index <= 7,
    ensures
        spec_decode_message(seq![0xB0u8, control_change_number(index) as u8, 127]) == Ok::<
            Message,
            DecodeError,
        >(Message::Press { button: Button::ControlButton { index } }),
        spec_decode_message(seq![0xB0u8, control_change_number(index) as u8, 0]) == Ok::<
            Message,
            DecodeError,
        >(Message::Release { button: Button::ControlButton { index } }),
{
}

/// Among the frames of nine bytes only the programmer mode frame is an
/// event: every other one is `Pass`.
pub proof fn lemma_nine_bytes_pass(data: Seq<u8>)
    requires
        data.len() == 9,
    ensures
        data == programmer_mode_frame() ==> spec_decode_message(data) == Ok::<
            Message,
            DecodeError,
        >(Message::ProgrammerMode),
        data != programmer_mode_frame() ==> spec_decode_message(data) == Ok::<
            Message,
            DecodeError,
        >(Message::Pass),
{
    lemma_programmer_mode_frame(data);
}

/// What decoding fails on: a frame of three bytes that is a note-on, or a
/// control change with a number from 91 to 98. Every other frame decodes.
pub proof fn lemma_decode_failures(data: Seq<u8>)
    ensures
        spec_decode_message(data) is Err ==> data.len() == 3 && (data[0] == 0x90 || (data[0]
            == 0xB0 && 91 <= data[1] <= 98)),
        spec_decode_message(data) matches Err(DecodeError::UnexpectedVelocity { velocity })
            ==> velocity == data[2] && velocity != 0 && velocity != 127,
        spec_decode_message(data) matches Err(DecodeError::UnexpectedNote { note }) ==> note
            == data[1] && !note_names_position(note),
{
}

} // verus!
