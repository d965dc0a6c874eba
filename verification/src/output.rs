use vstd::prelude::*;
use crate::button::{spec_encode_button, Button};
use crate::color::{Color, PaletteColor, RgbColor};
use crate::double_buffering::{
    make_color_code,
    make_color_code_loopable,
    spec_make_color_code,
    spec_make_color_code_loopable,
    Brightness,
    DoubleBuffering,
    DoubleBufferingBehavior,
};
use crate::error::{frame_view, InvalidArgument};
use crate::input::programmer_mode_frame;
use crate::query::{
    device_inquiry_request,
    request_device_inquiry,
    request_version_inquiry,
    version_inquiry_request,
    DeviceIdQuery,
};

verus! {

/// How the device numbers its grid.
#[derive(Debug, Clone, Copy, PartialEq, Eq, Hash, Structural)]
pub enum GridMappingMode {
    Session,
    DrumRack,
}

impl GridMappingMode {
    /// The code of the mode on the wire.
    pub open spec fn spec_code(self) -> u8 {
        match self {
            GridMappingMode::Session => 0,
            GridMappingMode::DrumRack => 1,
        }
    }

    /// The code of the mode on the wire.
    #[verifier::when_used_as_spec(spec_code)]
    pub fn code(self) -> (code: u8)
        ensures
            code == self.spec_code(),
    {
        match self {
            GridMappingMode::Session => 0,
            GridMappingMode::DrumRack => 1,
        }
    }
}

/// The most buttons that one batch can light: the 72 of the grid and the 8
/// control buttons.
pub const MAX_BUTTONS: usize = 80;

/// How many rapid updates light every button: each one lights two.
pub const RAPID_UPDATES_FOR_ALL: usize = 40;

/// The frame that lights one button. The color is checked before the button.
pub open spec fn set_button_frame(
    button: Button,
    color: Color,
    behavior: DoubleBufferingBehavior,
) -> Result<Seq<u8>, InvalidArgument> {
    match spec_make_color_code(color, behavior) {
        Err(error) => Err(error),
        Ok(light_code) => match spec_encode_button(button) {
            Err(error) => Err(error),
            Ok(note) => Ok(seq![0x90u8, note, light_code]),
        },
    }
}

/// The frame that lights the next two buttons in the device's scan order.
/// The first color is checked before the second.
pub open spec fn set_button_rapid_frame(
    color1: Color,
    behavior1: DoubleBufferingBehavior,
    color2: Color,
    behavior2: DoubleBufferingBehavior,
) -> Result<Seq<u8>, InvalidArgument> {
    match spec_make_color_code(color1, behavior1) {
        Err(error) => Err(error),
        Ok(code1) => match spec_make_color_code(color2, behavior2) {
            Err(error) => Err(error),
            Ok(code2) => Ok(seq![0x92u8, code1, code2]),
        },
    }
}

/// The frame that lights all LEDs at one brightness.
pub open spec fn turn_on_all_leds_frame(brightness: Brightness) -> Seq<u8> {
    seq![0xB0u8, 0, brightness.spec_code()]
}

/// The frame that sets the duty cycle `numerator / denominator`.
///
/// The numerator lies in `1..=16`, the denominator in `3..=18`, and the
/// numerator is checked first. Numerators below 9 go to controller 30, the
/// others to controller 31; the data byte holds the numerator's offset in
/// its half in the high four bits and `denominator - 3` in the low four.
pub open spec fn duty_cycle_frame(numerator: u8, denominator: u8) -> Result<
    Seq<u8>,
    InvalidArgument,
> {
    if numerator < 1 || numerator > 16 {
        Err(InvalidArgument::DutyCycleNumerator { numerator })
    } else if denominator < 3 || denominator > 18 {
        Err(InvalidArgument::DutyCycleDenominator { denominator })
    } else if numerator < 9 {
        Ok(seq![0xB0u8, 30, (16 * (numerator - 1) + (denominator - 3)) as u8])
    } else {
        Ok(seq![0xB0u8, 31, (16 * (numerator - 9) + (denominator - 3)) as u8])
    }
}

/// The frame that configures double buffering.
pub open spec fn double_buffering_frame(config: DoubleBuffering) -> Seq<u8> {
    seq![0xB0u8, 0, config.spec_code()]
}

/// The frame that scrolls a text across the grid.
pub open spec fn scroll_text_frame(text: Seq<u8>, color: Color, should_loop: bool) -> Result<
    Seq<u8>,
    InvalidArgument,
> {
    match spec_make_color_code_loopable(color, should_loop) {
        Err(error) => Err(error),
        Ok(color_code) => Ok(seq![240u8, 0, 32, 41, 9, color_code] + text + seq![247u8]),
    }
}

/// The frame that selects how the device numbers its grid.
pub open spec fn grid_mapping_mode_frame(mode: GridMappingMode) -> Seq<u8> {
    seq![240u8, 0, 32, 41, 2, 24, 34, mode.spec_code(), 247]
}

/// The frame that lights every button in one palette color.
pub open spec fn light_all_frame(color: PaletteColor) -> Result<Seq<u8>, InvalidArgument> {
    if color.is_valid() {
        Ok(seq![240u8, 0, 32, 41, 2, 24, 14, color.id(), 247])
    } else {
        Err(InvalidArgument::PaletteId { id: color.id() })
    }
}

/// The bytes that open a batch of RGB colors.
pub open spec fn rgb_batch_header() -> Seq<u8> {
    seq![240u8, 0, 32, 41, 2, 13, 3]
}

/// The five bytes that give one button an RGB color.
pub open spec fn rgb_group(note: u8, color: RgbColor) -> Seq<u8> {
    seq![3u8, note, color.red(), color.green(), color.blue()]
}

/// What is wrong with one entry of a batch, if anything: the color is
/// checked before the button.
pub open spec fn entry_error(entry: (Button, RgbColor)) -> Option<InvalidArgument> {
    match RgbColor::channel_error(entry.1.red(), entry.1.green(), entry.1.blue()) {
        Some(error) => Some(error),
        None => match spec_encode_button(entry.0) {
            Err(error) => Some(error),
            Ok(_) => None,
        },
    }
}

/// The groups of a batch, one after the other in the order of the entries.
pub open spec fn rgb_groups(entries: Seq<(Button, RgbColor)>) -> Seq<u8>
    decreases entries.len(),
{
    if entries.len() == 0 {
        Seq::empty()
    } else {
        rgb_groups(entries.drop_last()) + rgb_group(
            spec_encode_button(entries.last().0)->Ok_0,
            entries.last().1,
        )
    }
}

/// The frame that lights a batch of buttons, each in its RGB color.
pub open spec fn light_multiple_rgb_frame(entries: Seq<(Button, RgbColor)>) -> Seq<u8> {
    rgb_batch_header() + rgb_groups(entries) + seq![247u8]
}

/// Whether entry `at` is the first one of a batch with something wrong, and
/// `error` says what.
pub open spec fn is_first_error(
    entries: Seq<(Button, RgbColor)>,
    at: int,
    error: InvalidArgument,
) -> bool {
    &&& 0 <= at < entries.len()
    &&& entry_error(entries[at]) == Some(error)
    &&& forall|before: int| 0 <= before < at ==> (#[trigger] entry_error(entries[before])) is None
}

/// The builder of the frames that the device accepts.
///
/// Each function builds exactly one frame from typed arguments and hands it
/// back; to send it is the caller's part. Every argument is checked before
/// the first byte is built, and nothing is clamped.
pub struct Output;

impl Output {
    /// The note number that lights a button.
    ///
    /// Fails exactly when the device has no such button.
    pub fn encode_button(button: Button) -> (note: Result<u8, InvalidArgument>)
        ensures
            note == spec_encode_button(button),
            note is Ok <==> button.addressable(),
    {
        match button {
            Button::GridButton { x, y } => {
                if x > 8 {
                    Err(InvalidArgument::GridX { x })
                } else if y > 7 {
                    Err(InvalidArgument::GridY { y })
                } else {
                    Ok(10 * (8 - y) + x + 1)
                }
            },
            Button::ControlButton { index } => {
                if index > 7 {
                    Err(InvalidArgument::ControlIndex { index })
                } else {
                    Ok(index + 104)
                }
            },
        }
    }

    /// Builds the frame that lights `button` in `color`.
    ///
    /// Succeeds exactly when the color is valid and the device has the
    /// button.
    pub fn set_button(button: Button, color: Color, d: DoubleBufferingBehavior) -> (frame: Result<
        Vec<u8>,
        InvalidArgument,
    >)
        ensures
            frame_view(frame) == set_button_frame(button, color, d),
            frame is Ok <==> color.is_valid() && button.addressable(),
    {
        let light_code: u8 = match make_color_code(color, d) {
            Ok(code) => code,
            Err(error) => { return Err(error); },
        };
        let note: u8 = match Self::encode_button(button) {
            Ok(note) => note,
            Err(error) => { return Err(error); },
        };
        let bytes: Vec<u8> = vec![0x90, note, light_code];
        assert(bytes@ =~= seq![0x90u8, note, light_code]);
        Ok(bytes)
    }

    /// Builds the frame that lights the next two buttons in the device's
    /// scan order: the grid from left to right and top to bottom, then the
    /// buttons at the right edge, then the control buttons. Any other frame
    /// sets the device back to the start of that order.
    ///
    /// Succeeds exactly when both colors are valid.
    pub fn set_button_rapid(
        color1: Color,
        dbb1: DoubleBufferingBehavior,
        color2: Color,
        dbb2: DoubleBufferingBehavior,
    ) -> (frame: Result<Vec<u8>, InvalidArgument>)
        ensures
            frame_view(frame) == set_button_rapid_frame(color1, dbb1, color2, dbb2),
            frame is Ok <==> color1.is_valid() && color2.is_valid(),
    {
        let code1: u8 = match make_color_code(color1, dbb1) {
            Ok(code) => code,
            Err(error) => { return Err(error); },
        };
        let code2: u8 = match make_color_code(color2, dbb2) {
            Ok(code) => code,
            Err(error) => { return Err(error); },
        };
        let bytes: Vec<u8> = vec![0x92, code1, code2];
        assert(bytes@ =~= seq![0x92u8, code1, code2]);
        Ok(bytes)
    }

    /// Builds the frame that lights a batch of buttons, each in its own RGB
    /// color: the header, five bytes for each entry in the order given, and
    /// the closing byte.
    ///
    /// A batch of more than 80 entries is refused before anything else is
    /// looked at. Otherwise the batch succeeds exactly when no entry has
    /// something wrong, and fails with what is wrong with the first one that
    /// has.
    pub fn light_multiple_rgb(buttons: &[(Button, RgbColor)]) -> (frame: Result<
        Vec<u8>,
        InvalidArgument,
    >)
        ensures
            buttons@.len() > 80 ==> frame == Err::<Vec<u8>, InvalidArgument>(
                InvalidArgument::TooManyButtons { count: buttons.len() },
            ),
            frame is Ok <==> buttons@.len() <= 80 && forall|i: int|
                0 <= i < buttons@.len() ==> (#[trigger] entry_error(buttons@[i])) is None,
            frame matches Ok(bytes) ==> bytes@ == light_multiple_rgb_frame(buttons@),
            frame matches Err(error) ==> buttons@.len() > 80 || exists|at: int|
                is_first_error(buttons@, at, error),
    {
        let count: usize = buttons.len();
        if count > MAX_BUTTONS {
            return Err(InvalidArgument::TooManyButtons { count });
        }
        let mut bytes: Vec<u8> = Vec::with_capacity(8 + 5 * count);
        bytes.push(240);
        bytes.push(0);
        bytes.push(32);
        bytes.push(41);
        bytes.push(2);
        bytes.push(13);
        bytes.push(3);
        assert(buttons@.take(0) =~= Seq::empty());
        assert(bytes@ =~= rgb_batch_header() + rgb_groups(buttons@.take(0)));
        let mut i: usize = 0;
        while i < count
            invariant
                count == buttons@.len(),
                count <= 80,
                i <= count,
                bytes@ == rgb_batch_header() + rgb_groups(buttons@.take(i as int)),
                forall|k: int| 0 <= k < i ==> (#[trigger] entry_error(buttons@[k])) is None,
            decreases count - i,
        {
            let button: Button = buttons[i].0;
            let color: RgbColor = buttons[i].1;
            if color.red() > 63 {
                assert(is_first_error(
                    buttons@,
                    i as int,
                    InvalidArgument::RgbRed { value: color.red() },
                ));
                return Err(InvalidArgument::RgbRed { value: color.red() });
            }
            if color.green() > 63 {
                assert(is_first_error(
                    buttons@,
                    i as int,
                    InvalidArgument::RgbGreen { value: color.green() },
                ));
                return Err(InvalidArgument::RgbGreen { value: color.green() });
            }
            if color.blue() > 63 {
                assert(is_first_error(
                    buttons@,
                    i as int,
                    InvalidArgument::RgbBlue { value: color.blue() },
                ));
                return Err(InvalidArgument::RgbBlue { value: color.blue() });
            }
            let note: u8 = match Self::encode_button(button) {
                Ok(note) => note,
                Err(error) => {
                    assert(is_first_error(buttons@, i as int, error));
                    return Err(error);
                },
            };
            let ghost before: Seq<u8> = bytes@;
            bytes.push(3);
            bytes.push(note);
            bytes.push(color.red());
            bytes.push(color.green());
            bytes.push(color.blue());
            proof {
                let taken: Seq<(Button, RgbColor)> = buttons@.take(i + 1);
                assert(taken.drop_last() =~= buttons@.take(i as int));
                assert(taken.last() == buttons@[i as int]);
                assert(bytes@ =~= before + rgb_group(note, color));
                assert(bytes@ =~= rgb_batch_header() + rgb_groups(taken));
            }
            i += 1;
        }
        bytes.push(247);
        assert(buttons@.take(i as int) =~= buttons@);
        Ok(bytes)
    }

    /// Builds the forty frames that light every button in one color: the
    /// same rapid update forty times, each one for the next two buttons.
    /// They are meant to be sent in order, with no other frame in between.
    ///
    /// Succeeds exactly when the color is valid.
    pub fn set_all_buttons(color: Color, dbb: DoubleBufferingBehavior) -> (frames: Result<
        Vec<Vec<u8>>,
        InvalidArgument,
    >)
        ensures
            frames is Ok <==> color.is_valid(),
            frames matches Ok(list) ==> list@.len() == 40 && forall|i: int|
                0 <= i < 40 ==> set_button_rapid_frame(color, dbb, color, dbb) == Ok::<
                    Seq<u8>,
                    InvalidArgument,
                >((#[trigger] list@[i])@),
            frames matches Err(error) ==> set_button_rapid_frame(color, dbb, color, dbb) == Err::<
                Seq<u8>,
                InvalidArgument,
            >(error),
    {
        let mut list: Vec<Vec<u8>> = Vec::with_capacity(RAPID_UPDATES_FOR_ALL);
        let mut sent: usize = 0;
        while sent < RAPID_UPDATES_FOR_ALL
            invariant
                sent <= 40,
                list@.len() == sent,
                sent > 0 ==> color.is_valid(),
                forall|i: int|
                    0 <= i < sent ==> set_button_rapid_frame(color, dbb, color, dbb) == Ok::<
                        Seq<u8>,
                        InvalidArgument,
                    >((#[trigger] list@[i])@),
            decreases 40 - sent,
        {
            match Self::set_button_rapid(color, dbb, color, dbb) {
                Ok(frame) => {
                    list.push(frame);
                },
                Err(error) => {
                    return Err(error);
                },
            }
            sent += 1;
        }
        Ok(list)
    }

    /// Builds the frame that switches the device into programmer mode.
    pub fn set_programmer_mode() -> (frame: Vec<u8>)
        ensures
            frame@ == programmer_mode_frame(),
    {
        let bytes: Vec<u8> = vec![240, 0, 32, 41, 2, 13, 14, 1, 247];
        assert(bytes@ =~= programmer_mode_frame());
        bytes
    }

    /// Builds the frame that lights all LEDs at one brightness.
    pub fn turn_on_all_leds(brightness: Brightness) -> (frame: Vec<u8>)
        ensures
            frame@ == turn_on_all_leds_frame(brightness),
    {
        let brightness_code: u8 = brightness.code();
        let bytes: Vec<u8> = vec![0xB0, 0, brightness_code];
        assert(bytes@ =~= turn_on_all_leds_frame(brightness));
        bytes
    }

    /// Builds the frame that sets the share of time for which the LEDs of
    /// low and medium brightness are on.
    ///
    /// Succeeds exactly when the numerator lies in `1..=16` and the
    /// denominator in `3..=18`.
    pub fn set_duty_cycle(numerator: u8, denominator: u8) -> (frame: Result<
        Vec<u8>,
        InvalidArgument,
    >)
        ensures
            frame_view(frame) == duty_cycle_frame(numerator, denominator),
            frame is Ok <==> 1 <= numerator <= 16 && 3 <= denominator <= 18,
    {
        if numerator < 1 || numerator > 16 {
            return Err(InvalidArgument::DutyCycleNumerator { numerator });
        }
        if denominator < 3 || denominator > 18 {
            return Err(InvalidArgument::DutyCycleDenominator { denominator });
        }
        if numerator < 9 {
            let packed: u8 = 16 * (numerator - 1) + (denominator - 3);
            let bytes: Vec<u8> = vec![0xB0, 30, packed];
            assert(bytes@ =~= seq![0xB0u8, 30, packed]);
            Ok(bytes)
        } else {
            let packed: u8 = 16 * (numerator - 9) + (denominator - 3);
            let bytes: Vec<u8> = vec![0xB0, 31, packed];
            assert(bytes@ =~= seq![0xB0u8, 31, packed]);
            Ok(bytes)
        }
    }

    /// Builds the frame that configures double buffering.
    pub fn control_double_buffering(d: DoubleBuffering) -> (frame: Vec<u8>)
        ensures
            frame@ == double_buffering_frame(d),
    {
        let last_byte: u8 = d.code();
        let bytes: Vec<u8> = vec![0xB0, 0, last_byte];
        assert(bytes@ =~= double_buffering_frame(d));
        bytes
    }

    /// Builds the frame that scrolls `text` across the grid, once or in a
    /// loop.
    ///
    /// Succeeds exactly when the color is valid.
    pub fn scroll_text(text: &[u8], color: Color, should_loop: bool) -> (frame: Result<
        Vec<u8>,
        InvalidArgument,
    >)
        ensures
            frame_view(frame) == scroll_text_frame(text@, color, should_loop),
            frame is Ok <==> color.is_valid(),
    {
        let color_code: u8 = match make_color_code_loopable(color, should_loop) {
            Ok(code) => code,
            Err(error) => { return Err(error); },
        };
        let mut bytes: Vec<u8> = vec![240, 0, 32, 41, 9, color_code];
        let ghost header: Seq<u8> = seq![240u8, 0, 32, 41, 9, color_code];
        assert(bytes@ =~= header + text@.take(0));
        let mut i: usize = 0;
        while i < text.len()
            invariant
                i <= text.len(),
                bytes@ == header + text@.take(i as int),
            decreases text.len() - i,
        {
            bytes.push(text[i]);
            assert(text@.take(i + 1) =~= text@.take(i as int).push(text@[i as int]));
            assert(bytes@ =~= header + text@.take(i + 1));
            i += 1;
        }
        bytes.push(247);
        assert(text@.take(i as int) =~= text@);
        assert(bytes@ =~= header + text@ + seq![247u8]);
        Ok(bytes)
    }

    /// Builds the frame that asks for a device inquiry.
    ///
    /// Fails exactly for a specific device id above 126.
    pub fn request_device_inquiry(query: DeviceIdQuery) -> (frame: Result<
        Vec<u8>,
        InvalidArgument,
    >)
        ensures
            frame_view(frame) == device_inquiry_request(query),
            frame is Err <==> (query matches DeviceIdQuery::Specific(device_id) && device_id > 126),
    {
        request_device_inquiry(query)
    }

    /// Builds the frame that asks for a version inquiry.
    pub fn request_version_inquiry() -> (frame: Vec<u8>)
        ensures
            frame@ == version_inquiry_request(),
    {
        request_version_inquiry()
    }

    /// Builds the frame that selects how the device numbers its grid.
    pub fn change_grid_mapping_mode(mode: GridMappingMode) -> (frame: Vec<u8>)
        ensures
            frame@ == grid_mapping_mode_frame(mode),
    {
        let mode_code: u8 = mode.code();
        let bytes: Vec<u8> = vec![240, 0, 32, 41, 2, 24, 34, mode_code, 247];
        assert(bytes@ =~= grid_mapping_mode_frame(mode));
        bytes
    }

    /// Builds the frame that turns all LEDs off, which also sets the mapping
    /// mode, the buffers and the duty cycle back to their defaults.
    pub fn reset() -> (frame: Vec<u8>)
        ensures
            frame@ == turn_on_all_leds_frame(Brightness::Off),
    {
        Self::turn_on_all_leds(Brightness::Off)
    }

    /// Builds the frame that lights `button` in `color`, in both buffers.
    pub fn light(button: Button, color: Color) -> (frame: Result<Vec<u8>, InvalidArgument>)
        ensures
            frame_view(frame) == set_button_frame(button, color, DoubleBufferingBehavior::Copy),
            frame is Ok <==> color.is_valid() && button.addressable(),
    {
        Self::set_button(button, color, DoubleBufferingBehavior::Copy)
    }

    /// Builds the frame that lights every button, the control buttons and
    /// those at the right edge too, in one palette color.
    ///
    /// Succeeds exactly when the color is valid.
    pub fn light_all(color: PaletteColor) -> (frame: Result<Vec<u8>, InvalidArgument>)
        ensures
            frame_view(frame) == light_all_frame(color),
            frame is Ok <==> color.is_valid(),
    {
        if !color.is_valid() {
            return Err(InvalidArgument::PaletteId { id: color.id() });
        }
        let id: u8 = color.id();
        let bytes: Vec<u8> = vec![240, 0, 32, 41, 2, 24, 14, id, 247];
        assert(bytes@ =~= seq![240u8, 0, 32, 41, 2, 24, 14, id, 247]);
        Ok(bytes)
    }

    /// Builds the frame that turns every button dark: `light_all` with the
    /// palette's black.
    pub fn clear() -> (frame: Vec<u8>)
        ensures
            light_all_frame(PaletteColor::with_id(0)) == Ok::<Seq<u8>, InvalidArgument>(frame@),
            frame@ == seq![240u8, 0, 32, 41, 2, 24, 14, 0, 247],
    {
        let bytes: Vec<u8> = vec![240, 0, 32, 41, 2, 24, 14, 0, 247];
        assert(bytes@ =~= seq![240u8, 0, 32, 41, 2, 24, 14, 0, 247]);
        proof {
            crate::color::lemma_palette_color_by_id(
                PaletteColor::with_id(0),
                PaletteColor::with_id(0),
                0,
            );
        }
        bytes
    }
}

/// The groups of a batch take five bytes for each entry.
pub proof fn lemma_rgb_groups_len(entries: Seq<(Button, RgbColor)>)
    ensures
        rgb_groups(entries).len() == 5 * entries.len(),
    decreases entries.len(),
{
    if entries.len() > 0 {
        lemma_rgb_groups_len(entries.drop_last());
    }
}

/// The group of entry `at` stands at offset `5 * at` among the groups of a
/// batch.
pub proof fn lemma_rgb_groups_at(entries: Seq<(Button, RgbColor)>, at: int)
    requires
        0 <= at < entries.len(),
    ensures
        5 * at + 5 <= rgb_groups(entries).len(),
        rgb_groups(entries).subrange(5 * at, 5 * at + 5) == rgb_group(
            spec_encode_button(entries[at].0)->Ok_0,
            entries[at].1,
        ),
    decreases entries.len(),
{
    let shorter: Seq<(Button, RgbColor)> = entries.drop_last();
    let group: Seq<u8> = rgb_group(spec_encode_button(entries.last().0)->Ok_0, entries.last().1);
    lemma_rgb_groups_len(entries);
    lemma_rgb_groups_len(shorter);
    if at == entries.len() - 1 {
        assert(rgb_groups(entries).subrange(5 * at, 5 * at + 5) =~= group);
    } else {
        lemma_rgb_groups_at(shorter, at);
        assert(shorter[at] == entries[at]);
        assert(rgb_groups(entries).subrange(5 * at, 5 * at + 5) =~= rgb_groups(shorter).subrange(
            5 * at,
            5 * at + 5,
        ));
    }
}

/// The frame of a batch, position by position: seven bytes of header, then
/// for entry `at` the byte 3, the button's note and the three channels from
/// offset `7 + 5 * at` on, and the closing byte at the end.
pub proof fn lemma_light_multiple_rgb_layout(entries: Seq<(Button, RgbColor)>, at: int)
    requires
        0 <= at < entries.len(),
    ensures
        light_multiple_rgb_frame(entries).len() == 8 + 5 * entries.len(),
        light_multiple_rgb_frame(entries).subrange(0, 7) == rgb_batch_header(),
        light_multiple_rgb_frame(entries)[7 + 5 * at] == 3,
        light_multiple_rgb_frame(entries)[7 + 5 * at + 1] == spec_encode_button(
            entries[at].0,
        )->Ok_0,
        light_multiple_rgb_frame(entries)[7 + 5 * at + 2] == entries[at].1.red(),
        light_multiple_rgb_frame(entries)[7 + 5 * at + 3] == entries[at].1.green(),
        light_multiple_rgb_frame(entries)[7 + 5 * at + 4] == entries[at].1.blue(),
        light_multiple_rgb_frame(entries).last() == 247,
{
    let frame: Seq<u8> = light_multiple_rgb_frame(entries);
    let groups: Seq<u8> = rgb_groups(entries);
    let group: Seq<u8> = rgb_group(spec_encode_button(entries[at].0)->Ok_0, entries[at].1);
    lemma_rgb_groups_len(entries);
    lemma_rgb_groups_at(entries, at);
    assert(frame.subrange(0, 7) =~= rgb_batch_header());
    assert forall|j: int| 0 <= j < 5 implies frame[7 + 5 * at + j] == group[j] by {
        assert(groups.subrange(5 * at, 5 * at + 5)[j] == groups[5 * at + j]);
    }
    assert(frame[7 + 5 * at] == group[0]);
    assert(frame[7 + 5 * at + 1] == group[1]);
    assert(frame[7 + 5 * at + 2] == group[2]);
    assert(frame[7 + 5 * at + 3] == group[3]);
    assert(frame[7 + 5 * at + 4] == group[4]);
}

/// An empty batch is the header and the closing byte.
pub proof fn lemma_light_multiple_rgb_empty()
    ensures
        light_multiple_rgb_frame(Seq::empty()) == seq![240u8, 0, 32, 41, 2, 13, 3, 247],
{
    assert(light_multiple_rgb_frame(Seq::empty()) =~= seq![240u8, 0, 32, 41, 2, 13, 3, 247]);
}

} // verus!
