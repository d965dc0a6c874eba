use launchpad_mini_mk3::{
    decode_grid_button, Button, DecodeError, DeviceInquiry, Input, Message, Output,
    VersionInquiry,
};

#[test]
fn note_on_with_full_velocity_is_a_press() {
    let decoded = Input::decode_message(0, &[0x90, 11, 127]);
    assert_eq!(
        decoded,
        Ok(Message::Press {
            button: Button::GridButton { x: 0, y: 7 }
        })
    );
}

#[test]
fn note_on_with_zero_velocity_is_a_release() {
    let decoded = Input::decode_message(0, &[0x90, 11, 0]);
    assert_eq!(
        decoded,
        Ok(Message::Release {
            button: Button::GridButton { x: 0, y: 7 }
        })
    );
}

#[test]
fn text_end_frame_is_decoded() {
    assert_eq!(
        Input::decode_message(17, &[0xB0, 0, 3]),
        Ok(Message::TextEndedOrLooped)
    );
}

#[test]
fn programmer_mode_frame_is_decoded() {
    assert_eq!(
        Input::decode_message(0, &[240, 0, 32, 41, 2, 13, 14, 1, 247]),
        Ok(Message::ProgrammerMode)
    );
}

#[test]
fn programmer_mode_round_trip() {
    let frame = Output::set_programmer_mode();
    assert_eq!(Input::decode_message(0, &frame), Ok(Message::ProgrammerMode));
}

#[test]
fn other_nine_byte_frames_pass() {
    assert_eq!(
        Input::decode_message(0, &[240, 0, 32, 41, 2, 24, 14, 1, 247]),
        Ok(Message::Pass)
    );
    assert_eq!(
        Input::decode_message(0, &[241, 0, 32, 41, 2, 13, 14, 1, 247]),
        Ok(Message::Pass)
    );
    assert_eq!(
        Input::decode_message(0, &[240, 0, 32, 41, 2, 13, 14, 0, 247]),
        Ok(Message::Pass)
    );
    assert_eq!(Input::decode_message(0, &[0; 9]), Ok(Message::Pass));
}

#[test]
fn every_single_byte_change_of_the_programmer_mode_frame_passes() {
    let frame = [240u8, 0, 32, 41, 2, 13, 14, 1, 247];
    for at in 0..frame.len() {
        let mut changed = frame;
        changed[at] = changed[at].wrapping_add(1);
        assert_eq!(Input::decode_message(0, &changed), Ok(Message::Pass));
    }
}

#[test]
fn timestamp_plays_no_part() {
    let frame = [0x90u8, 45, 127];
    assert_eq!(
        Input::decode_message(0, &frame),
        Input::decode_message(u64::MAX, &frame)
    );
}

#[test]
fn grid_round_trip_over_the_whole_grid() {
    for x in 0..=8u8 {
        for y in 0..=7u8 {
            let button = Button::GridButton { x, y };
            let note = Output::encode_button(button).unwrap();
            assert_eq!(note, 10 * (8 - y) + x + 1);
            assert_eq!(decode_grid_button(note), Some(button));
        }
    }
}

#[test]
fn grid_corners_have_their_notes() {
    assert_eq!(Output::encode_button(Button::GridButton { x: 0, y: 0 }), Ok(81));
    assert_eq!(Output::encode_button(Button::GridButton { x: 8, y: 0 }), Ok(89));
    assert_eq!(Output::encode_button(Button::GridButton { x: 0, y: 7 }), Ok(11));
    assert_eq!(Output::encode_button(Button::GridButton { x: 8, y: 7 }), Ok(19));
    assert_eq!(
        decode_grid_button(89),
        Some(Button::GridButton { x: 8, y: 0 })
    );
    assert_eq!(
        decode_grid_button(54),
        Some(Button::GridButton { x: 3, y: 3 })
    );
}

#[test]
fn notes_without_a_position_are_refused() {
    for note in [0u8, 10, 20, 50, 80, 90, 91, 99, 100, 127, 200, 255] {
        assert_eq!(decode_grid_button(note), None);
        assert_eq!(
            Input::decode_message(0, &[0x90, note, 127]),
            Err(DecodeError::UnexpectedNote { note })
        );
    }
}

#[test]
fn a_decodable_note_is_checked_before_the_velocity() {
    assert_eq!(
        Input::decode_message(0, &[0x90, 10, 64]),
        Err(DecodeError::UnexpectedNote { note: 10 })
    );
}

#[test]
fn notes_below_ten_decode_to_a_row_outside_the_grid() {
    assert_eq!(decode_grid_button(1), Some(Button::GridButton { x: 0, y: 8 }));
    assert_eq!(decode_grid_button(9), Some(Button::GridButton { x: 8, y: 8 }));
}

#[test]
fn decoding_a_note_and_encoding_the_button_gives_the_note_back() {
    for note in 11..=89u8 {
        if note % 10 == 0 {
            continue;
        }
        let button = decode_grid_button(note).unwrap();
        assert_eq!(Output::encode_button(button), Ok(note));
    }
}

#[test]
fn control_change_round_trip() {
    for index in 0..=7u8 {
        let button = Button::ControlButton { index };
        assert_eq!(
            Input::decode_message(0, &[0xB0, 91 + index, 127]),
            Ok(Message::Press { button })
        );
        assert_eq!(
            Input::decode_message(0, &[0xB0, 91 + index, 0]),
            Ok(Message::Release { button })
        );
    }
}

#[test]
fn control_change_outside_the_control_buttons_passes() {
    assert_eq!(Input::decode_message(0, &[0xB0, 90, 127]), Ok(Message::Pass));
    assert_eq!(Input::decode_message(0, &[0xB0, 99, 127]), Ok(Message::Pass));
    assert_eq!(Input::decode_message(0, &[0xB0, 0, 4]), Ok(Message::Pass));
    assert_eq!(Input::decode_message(0, &[0xB0, 1, 3]), Ok(Message::Pass));
}

#[test]
fn the_note_that_lights_a_control_button_is_not_what_the_device_reports() {
    for index in 0..=7u8 {
        let note = Output::encode_button(Button::ControlButton { index }).unwrap();
        assert_eq!(note, index + 104);
        assert_eq!(Input::decode_message(0, &[0xB0, note, 127]), Ok(Message::Pass));
    }
}

#[test]
fn unexpected_velocity_is_reported() {
    assert_eq!(
        Input::decode_message(0, &[0x90, 11, 64]),
        Err(DecodeError::UnexpectedVelocity { velocity: 64 })
    );
    assert_eq!(
        Input::decode_message(0, &[0x90, 11, 1]),
        Err(DecodeError::UnexpectedVelocity { velocity: 1 })
    );
    assert_eq!(
        Input::decode_message(0, &[0xB0, 91, 126]),
        Err(DecodeError::UnexpectedVelocity { velocity: 126 })
    );
    assert_eq!(
        Input::decode_message(0, &[0xB0, 98, 128]),
        Err(DecodeError::UnexpectedVelocity { velocity: 128 })
    );
}

#[test]
fn frames_of_unknown_shape_pass() {
    assert_eq!(Input::decode_message(0, &[]), Ok(Message::Pass));
    assert_eq!(Input::decode_message(0, &[0x90]), Ok(Message::Pass));
    assert_eq!(Input::decode_message(0, &[0x90, 11]), Ok(Message::Pass));
    assert_eq!(Input::decode_message(0, &[0x90, 11, 127, 0]), Ok(Message::Pass));
    assert_eq!(Input::decode_message(0, &[0x80, 11, 0]), Ok(Message::Pass));
    assert_eq!(Input::decode_message(0, &[0x91, 11, 127]), Ok(Message::Pass));
}

#[test]
fn device_inquiry_answer_is_decoded() {
    let frame = [
        240u8, 126, 5, 6, 2, 0, 32, 41, 1, 2, 3, 4, 0, 1, 5, 4, 247,
    ];
    assert_eq!(
        Input::decode_message(0, &frame),
        Ok(Message::DeviceInquiry(DeviceInquiry {
            device_id: 5,
            family_code: 258,
            family_member_code: 772,
            firmware_revision: 66820,
        }))
    );
}

#[test]
fn version_inquiry_answer_is_decoded() {
    let frame = [
        240u8, 0, 32, 41, 0, 112, 0, 0, 1, 3, 5, 0, 0, 2, 4, 6, 1, 2, 247,
    ];
    assert_eq!(
        Input::decode_message(0, &frame),
        Ok(Message::VersionInquiry(VersionInquiry {
            bootloader_version: 135,
            firmware_version: 246,
            bootloader_size: 258,
        }))
    );
}
