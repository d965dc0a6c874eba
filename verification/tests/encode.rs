use launchpad_mini_mk3::{
    Brightness, Buffer, Button, Color, DoubleBuffering, DoubleBufferingBehavior, GridMappingMode,
    InvalidArgument, Output, PaletteColor, RgbColor,
};

#[test]
fn duty_cycle_at_the_branch_boundary() {
    assert_eq!(Output::set_duty_cycle(1, 3), Ok(vec![0xB0, 30, 0]));
    assert_eq!(Output::set_duty_cycle(9, 3), Ok(vec![0xB0, 31, 0]));
    assert_eq!(Output::set_duty_cycle(8, 3), Ok(vec![0xB0, 30, 112]));
}

#[test]
fn duty_cycle_packs_both_numbers() {
    assert_eq!(Output::set_duty_cycle(1, 5), Ok(vec![0xB0, 30, 2]));
    assert_eq!(Output::set_duty_cycle(8, 18), Ok(vec![0xB0, 30, 127]));
    assert_eq!(Output::set_duty_cycle(16, 18), Ok(vec![0xB0, 31, 127]));
    assert_eq!(Output::set_duty_cycle(10, 4), Ok(vec![0xB0, 31, 17]));
}

#[test]
fn duty_cycle_bounds() {
    assert_eq!(
        Output::set_duty_cycle(0, 3),
        Err(InvalidArgument::DutyCycleNumerator { numerator: 0 })
    );
    assert_eq!(
        Output::set_duty_cycle(17, 3),
        Err(InvalidArgument::DutyCycleNumerator { numerator: 17 })
    );
    assert_eq!(
        Output::set_duty_cycle(1, 2),
        Err(InvalidArgument::DutyCycleDenominator { denominator: 2 })
    );
    assert_eq!(
        Output::set_duty_cycle(16, 19),
        Err(InvalidArgument::DutyCycleDenominator { denominator: 19 })
    );
    assert_eq!(
        Output::set_duty_cycle(0, 0),
        Err(InvalidArgument::DutyCycleNumerator { numerator: 0 })
    );
    for numerator in 0..=255u8 {
        for denominator in [0u8, 2, 3, 10, 18, 19, 255] {
            assert_eq!(
                Output::set_duty_cycle(numerator, denominator).is_ok(),
                (1..=16).contains(&numerator) && (3..=18).contains(&denominator)
            );
        }
    }
}

#[test]
fn light_all_black() {
    assert_eq!(
        Output::light_all(PaletteColor::BLACK()),
        Ok(vec![240, 0, 32, 41, 2, 24, 14, 0, 247])
    );
}

#[test]
fn light_all_carries_the_palette_index() {
    assert_eq!(
        Output::light_all(PaletteColor::new(92).unwrap()),
        Ok(vec![240, 0, 32, 41, 2, 24, 14, 92, 247])
    );
    assert_eq!(
        Output::light_all(PaletteColor::new(127).unwrap()),
        Ok(vec![240, 0, 32, 41, 2, 24, 14, 127, 247])
    );
}

#[test]
fn light_all_refuses_an_invalid_color() {
    let mut color = PaletteColor::BLACK();
    color.set_id(128);
    assert_eq!(
        Output::light_all(color),
        Err(InvalidArgument::PaletteId { id: 128 })
    );
}

#[test]
fn clear_is_light_all_black() {
    assert_eq!(Output::clear(), vec![240, 0, 32, 41, 2, 24, 14, 0, 247]);
    assert_eq!(Ok(Output::clear()), Output::light_all(PaletteColor::BLACK()));
}

#[test]
fn encode_button_bounds() {
    assert_eq!(
        Output::encode_button(Button::GridButton { x: 9, y: 0 }),
        Err(InvalidArgument::GridX { x: 9 })
    );
    assert_eq!(
        Output::encode_button(Button::GridButton { x: 0, y: 8 }),
        Err(InvalidArgument::GridY { y: 8 })
    );
    assert_eq!(
        Output::encode_button(Button::GridButton { x: 200, y: 200 }),
        Err(InvalidArgument::GridX { x: 200 })
    );
    assert_eq!(
        Output::encode_button(Button::ControlButton { index: 8 }),
        Err(InvalidArgument::ControlIndex { index: 8 })
    );
    assert_eq!(
        Output::encode_button(Button::ControlButton { index: 0 }),
        Ok(104)
    );
    assert_eq!(
        Output::encode_button(Button::ControlButton { index: 7 }),
        Ok(111)
    );
}

#[test]
fn set_button_frame() {
    let yellow = Color::new(3, 3).unwrap();
    assert_eq!(
        Output::set_button(
            Button::ControlButton { index: 0 },
            yellow,
            DoubleBufferingBehavior::Copy
        ),
        Ok(vec![0x90, 104, 55])
    );
    assert_eq!(
        Output::set_button(
            Button::GridButton { x: 0, y: 7 },
            Color::new(1, 0).unwrap(),
            DoubleBufferingBehavior::Keep
        ),
        Ok(vec![0x90, 11, 1])
    );
}

#[test]
fn set_button_refuses_a_missing_button() {
    let color = Color::new(1, 1).unwrap();
    assert_eq!(
        Output::set_button(
            Button::GridButton { x: 3, y: 9 },
            color,
            DoubleBufferingBehavior::Copy
        ),
        Err(InvalidArgument::GridY { y: 9 })
    );
    assert_eq!(
        Output::light(Button::ControlButton { index: 8 }, color),
        Err(InvalidArgument::ControlIndex { index: 8 })
    );
}

#[test]
fn light_copies_into_both_buffers() {
    let color = Color::new(2, 1).unwrap();
    let button = Button::GridButton { x: 4, y: 2 };
    assert_eq!(Output::light(button, color), Ok(vec![0x90, 65, 22]));
    assert_eq!(
        Output::light(button, color),
        Output::set_button(button, color, DoubleBufferingBehavior::Copy)
    );
}

#[test]
fn set_button_rapid_frame() {
    assert_eq!(
        Output::set_button_rapid(
            Color::new(3, 0).unwrap(),
            DoubleBufferingBehavior::Copy,
            Color::new(0, 3).unwrap(),
            DoubleBufferingBehavior::Clear
        ),
        Ok(vec![0x92, 7, 56])
    );
}

#[test]
fn set_all_buttons_is_forty_rapid_updates() {
    let color = Color::new(1, 2).unwrap();
    let frames = Output::set_all_buttons(color, DoubleBufferingBehavior::Copy).unwrap();
    assert_eq!(frames.len(), 40);
    for frame in &frames {
        assert_eq!(frame, &vec![0x92, 37, 37]);
    }
}

#[test]
fn programmer_mode_frame() {
    assert_eq!(
        Output::set_programmer_mode(),
        vec![240, 0, 32, 41, 2, 13, 14, 1, 247]
    );
}

#[test]
fn all_leds_brightness_codes() {
    assert_eq!(Output::turn_on_all_leds(Brightness::Off), vec![0xB0, 0, 0]);
    assert_eq!(Output::turn_on_all_leds(Brightness::Low), vec![0xB0, 0, 125]);
    assert_eq!(
        Output::turn_on_all_leds(Brightness::Medium),
        vec![0xB0, 0, 126]
    );
    assert_eq!(Output::turn_on_all_leds(Brightness::Full), vec![0xB0, 0, 127]);
}

#[test]
fn reset_turns_all_leds_off() {
    assert_eq!(Output::reset(), vec![0xB0, 0, 0]);
    assert_eq!(Output::reset(), Output::turn_on_all_leds(Brightness::Off));
}

#[test]
fn double_buffering_frame() {
    let default = DoubleBuffering {
        copy: false,
        flash: false,
        edited_buffer: Buffer::A,
        displayed_buffer: Buffer::A,
    };
    assert_eq!(Output::control_double_buffering(default), vec![0xB0, 0, 32]);
    let all = DoubleBuffering {
        copy: true,
        flash: true,
        edited_buffer: Buffer::B,
        displayed_buffer: Buffer::B,
    };
    assert_eq!(Output::control_double_buffering(all), vec![0xB0, 0, 61]);
    let flashing = DoubleBuffering {
        copy: false,
        flash: true,
        edited_buffer: Buffer::A,
        displayed_buffer: Buffer::B,
    };
    assert_eq!(Output::control_double_buffering(flashing), vec![0xB0, 0, 41]);
}

#[test]
fn scroll_text_frame() {
    let color = Color::new(3, 0).unwrap();
    assert_eq!(
        Output::scroll_text(b"Hi", color, false),
        Ok(vec![240, 0, 32, 41, 9, 3, b'H', b'i', 247])
    );
    assert_eq!(
        Output::scroll_text(b"Hi", color, true),
        Ok(vec![240, 0, 32, 41, 9, 67, b'H', b'i', 247])
    );
}

#[test]
fn scroll_text_with_no_text() {
    assert_eq!(
        Output::scroll_text(&[], Color::new(0, 1).unwrap(), false),
        Ok(vec![240, 0, 32, 41, 9, 16, 247])
    );
}

#[test]
fn scroll_text_keeps_every_byte_in_order() {
    let text: Vec<u8> = (0..200u8).collect();
    let frame = Output::scroll_text(&text, Color::new(1, 1).unwrap(), true).unwrap();
    assert_eq!(frame.len(), 207);
    assert_eq!(&frame[..6], &[240, 0, 32, 41, 9, 81]);
    assert_eq!(&frame[6..206], &text[..]);
    assert_eq!(frame[206], 247);
}

#[test]
fn grid_mapping_mode_frame() {
    assert_eq!(
        Output::change_grid_mapping_mode(GridMappingMode::Session),
        vec![240, 0, 32, 41, 2, 24, 34, 0, 247]
    );
    assert_eq!(
        Output::change_grid_mapping_mode(GridMappingMode::DrumRack),
        vec![240, 0, 32, 41, 2, 24, 34, 1, 247]
    );
}

#[test]
fn light_multiple_rgb_frame() {
    let frame = Output::light_multiple_rgb(&[
        (
            Button::GridButton { x: 0, y: 0 },
            RgbColor::new(0, 0, 63).unwrap(),
        ),
        (
            Button::GridButton { x: 7, y: 0 },
            RgbColor::new(63, 0, 0).unwrap(),
        ),
        (
            Button::ControlButton { index: 2 },
            RgbColor::new(1, 2, 3).unwrap(),
        ),
    ]);
    assert_eq!(
        frame,
        Ok(vec![
            240, 0, 32, 41, 2, 13, 3, 3, 81, 0, 0, 63, 3, 88, 63, 0, 0, 3, 106, 1, 2, 3, 247
        ])
    );
}

#[test]
fn light_multiple_rgb_with_no_button() {
    assert_eq!(
        Output::light_multiple_rgb(&[]),
        Ok(vec![240, 0, 32, 41, 2, 13, 3, 247])
    );
}

#[test]
fn light_multiple_rgb_takes_eighty_buttons() {
    let color = RgbColor::new(5, 6, 7).unwrap();
    let mut buttons = Vec::new();
    for y in 0..=7u8 {
        for x in 0..=8u8 {
            buttons.push((Button::GridButton { x, y }, color));
        }
    }
    for index in 0..=7u8 {
        buttons.push((Button::ControlButton { index }, color));
    }
    assert_eq!(buttons.len(), 80);
    let frame = Output::light_multiple_rgb(&buttons).unwrap();
    assert_eq!(frame.len(), 8 + 5 * 80);
    assert_eq!(&frame[..7], &[240, 0, 32, 41, 2, 13, 3]);
    for (at, (button, _)) in buttons.iter().enumerate() {
        let note = Output::encode_button(*button).unwrap();
        assert_eq!(&frame[7 + 5 * at..12 + 5 * at], &[3, note, 5, 6, 7]);
    }
    assert_eq!(frame[407], 247);
}

#[test]
fn light_multiple_rgb_refuses_more_than_eighty() {
    let entry = (
        Button::GridButton { x: 0, y: 0 },
        RgbColor::new(1, 1, 1).unwrap(),
    );
    let buttons = vec![entry; 81];
    assert_eq!(
        Output::light_multiple_rgb(&buttons),
        Err(InvalidArgument::TooManyButtons { count: 81 })
    );
    let many = vec![entry; 1000];
    assert_eq!(
        Output::light_multiple_rgb(&many),
        Err(InvalidArgument::TooManyButtons { count: 1000 })
    );
}

#[test]
fn light_multiple_rgb_counts_before_it_looks_at_the_entries() {
    let bad = (
        Button::GridButton { x: 9, y: 9 },
        RgbColor::new(1, 1, 1).unwrap(),
    );
    let buttons = vec![bad; 81];
    assert_eq!(
        Output::light_multiple_rgb(&buttons),
        Err(InvalidArgument::TooManyButtons { count: 81 })
    );
}

#[test]
fn light_multiple_rgb_names_the_first_entry_that_is_wrong() {
    let color = RgbColor::new(1, 1, 1).unwrap();
    let buttons = [
        (Button::GridButton { x: 0, y: 0 }, color),
        (Button::ControlButton { index: 9 }, color),
        (Button::GridButton { x: 10, y: 0 }, color),
    ];
    assert_eq!(
        Output::light_multiple_rgb(&buttons),
        Err(InvalidArgument::ControlIndex { index: 9 })
    );
}
