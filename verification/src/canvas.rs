use vstd::prelude::*;
use crate::button::{lemma_canvas_button_round_trip, Button};
use crate::color::{lemma_rgb_color_by_channels, RgbColor};
use crate::error::InvalidArgument;
use crate::input::{programmer_mode_frame, Message};
use crate::output::{entry_error, light_multiple_rgb_frame, Output};

verus! {

/// A button event in the coordinates of the 9x9 canvas.
#[derive(Debug, Clone, Copy, PartialEq, Eq, Hash, Structural)]
pub enum CanvasMessage {
    Press { x: u32, y: u32 },
    Release { x: u32, y: u32 },
}

/// One change of the canvas: a position and the three channels of its new
/// color.
pub type Change = (u32, u32, (u8, u8, u8));

/// What is wrong with one change, if anything: the color is checked before
/// the position.
pub open spec fn change_error(change: Change) -> Option<InvalidArgument> {
    match RgbColor::channel_error(change.2.0, change.2.1, change.2.2) {
        Some(error) => Some(error),
        None => match Button::spec_from_abs(change.0, change.1) {
            Err(error) => Some(error),
            Ok(_) => None,
        },
    }
}

/// The button and the color that a change names.
pub open spec fn change_entry(change: Change) -> (Button, RgbColor) {
    (
        Button::spec_from_abs(change.0, change.1)->Ok_0,
        RgbColor::with_channels(change.2.0, change.2.1, change.2.2),
    )
}

/// Whether change `at` is the first one with something wrong, and `error`
/// says what.
pub open spec fn is_first_change_error(changes: Seq<Change>, at: int, error: InvalidArgument) -> bool {
    &&& 0 <= at < changes.len()
    &&& change_error(changes[at]) == Some(error)
    &&& forall|before: int|
        0 <= before < at ==> (#[trigger] change_error(changes[before])) is None
}

/// The event that a message is on the canvas: a press or a release at the
/// button's position, and nothing for any other message.
pub open spec fn spec_convert_message(msg: Message) -> Option<CanvasMessage> {
    match msg {
        Message::Press { button } => Some(
            CanvasMessage::Press {
                x: button.spec_abs_x() as u32,
                y: button.spec_abs_y() as u32,
            },
        ),
        Message::Release { button } => Some(
            CanvasMessage::Release {
                x: button.spec_abs_x() as u32,
                y: button.spec_abs_y() as u32,
            },
        ),
        _ => None,
    }
}

/// The device as a canvas of 9x9 positions: the control buttons as row 0,
/// the grid rows after it, and no button at the end of row 0.
pub struct Spec;

impl Spec {
    /// Whether the canvas holds a button at `(x, y)`.
    pub fn is_valid(x: u32, y: u32) -> (valid: bool)
        ensures
            valid == Button::on_canvas(x as int, y as int),
    {
        if x > 8 || y > 8 {
            return false;
        }
        if x == 8 && y == 0 {
            return false;
        }
        true
    }

    /// Builds the frame that brings a list of changes to the device.
    ///
    /// A list of more than 80 changes is refused before anything else is
    /// looked at. Otherwise the list succeeds exactly when no change has
    /// something wrong, and fails with what is wrong with the first one that
    /// has.
    pub fn flush(changes: &[Change]) -> (frame: Result<Vec<u8>, InvalidArgument>)
        ensures
            changes@.len() > 80 ==> frame == Err::<Vec<u8>, InvalidArgument>(
                InvalidArgument::TooManyButtons { count: changes.len() },
            ),
            frame is Ok <==> changes@.len() <= 80 && forall|i: int|
                0 <= i < changes@.len() ==> (#[trigger] change_error(changes@[i])) is None,
            frame matches Ok(bytes) ==> bytes@ == light_multiple_rgb_frame(
                changes@.map_values(|change: Change| change_entry(change)),
            ),
            frame matches Err(error) ==> changes@.len() > 80 || exists|at: int|
                is_first_change_error(changes@, at, error),
    {
        let count: usize = changes.len();
        if count > 80 {
            return Err(InvalidArgument::TooManyButtons { count });
        }
        let mut entries: Vec<(Button, RgbColor)> = Vec::with_capacity(count);
        let ghost wanted: Seq<(Button, RgbColor)> = changes@.map_values(
            |change: Change| change_entry(change),
        );
        let mut i: usize = 0;
        while i < count
            invariant
                count == changes@.len(),
                count <= 80,
                i <= count,
                wanted == changes@.map_values(|change: Change| change_entry(change)),
                entries@ == wanted.take(i as int),
                forall|k: int| 0 <= k < i ==> (#[trigger] change_error(changes@[k])) is None,
                forall|k: int| 0 <= k < i ==> (#[trigger] entry_error(entries@[k])) is None,
            decreases count - i,
        {
            let (x, y, (r, g, b)) = changes[i];
            let color: RgbColor = match RgbColor::new(r, g, b) {
                Ok(color) => color,
                Err(error) => {
                    assert(is_first_change_error(changes@, i as int, error));
                    return Err(error);
                },
            };
            let button: Button = match Button::from_abs(x, y) {
                Ok(button) => button,
                Err(error) => {
                    assert(is_first_change_error(changes@, i as int, error));
                    return Err(error);
                },
            };
            proof {
                lemma_canvas_button_round_trip(x, y);
                lemma_rgb_color_by_channels(color, color, r, g, b);
                assert((button, color) == change_entry(changes@[i as int]));
                assert(entry_error((button, color)) is None);
            }
            entries.push((button, color));
            assert(entries@ =~= wanted.take(i + 1));
            i += 1;
        }
        assert(entries@ =~= wanted);
        match Output::light_multiple_rgb(entries.as_slice()) {
            Ok(bytes) => Ok(bytes),
            Err(error) => Err(error),
        }
    }

    /// Turns a message of the device into an event of the canvas.
    pub fn convert_message(msg: Message) -> (event: Option<CanvasMessage>)
        ensures
            event == spec_convert_message(msg),
    {
        match msg {
            Message::Press { button } => Some(
                CanvasMessage::Press { x: button.abs_x(), y: button.abs_y() },
            ),
            Message::Release { button } => Some(
                CanvasMessage::Release { x: button.abs_x(), y: button.abs_y() },
            ),
            Message::TextEndedOrLooped
            | Message::DeviceInquiry(_)
            | Message::VersionInquiry(_)
            | Message::ProgrammerMode
            | Message::Pass => None,
        }
    }

    /// Builds the frame that prepares the device for use as a canvas: the
    /// switch into programmer mode.
    pub fn setup() -> (frame: Vec<u8>)
        ensures
            frame@ == programmer_mode_frame(),
    {
        Output::set_programmer_mode()
    }
}

} // verus!
