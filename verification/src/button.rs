use vstd::prelude::*;
use crate::error::InvalidArgument;

verus! {

/// One physical button of the device.
///
/// The grid holds nine columns and eight rows: `x` is the column and `y` the
/// row, and column 8 holds the round buttons at the edge of the grid. The
/// control buttons are a row of eight of their own.
#[derive(Debug, Clone, Copy, PartialEq, Eq, Hash, Structural)]
pub enum Button {
    ControlButton { index: u8 },
    GridButton { x: u8, y: u8 },
}

/// The note number under which the device knows the grid position `(x, y)`.
pub open spec fn grid_note(x: u8, y: u8) -> int {
    10 * (8 - y) + x + 1
}

/// The note number under which the device lights control button `index`.
pub open spec fn control_note(index: u8) -> int {
    index + 104
}

/// The controller number with which the device reports control button `index`.
pub open spec fn control_change_number(index: u8) -> int {
    index + 91
}

/// The grid column that a note number names.
pub open spec fn note_column(note: u8) -> int {
    note % 10 - 1
}

/// The grid row that a note number names.
pub open spec fn note_row(note: u8) -> int {
    8 - note / 10
}

/// Whether a note number names a grid position: its last digit is not zero
/// and it is below 90.
pub open spec fn note_names_position(note: u8) -> bool {
    note % 10 >= 1 && note / 10 <= 8
}

/// The grid button that a note number names; `None` for a number that names
/// no position.
pub open spec fn spec_decode_grid_button(note: u8) -> Option<Button> {
    if note_names_position(note) {
        Some(Button::GridButton { x: note_column(note) as u8, y: note_row(note) as u8 })
    } else {
        None
    }
}

/// The note number that lights a button, or the error for the first
/// coordinate that is out of range: the column before the row.
pub open spec fn spec_encode_button(button: Button) -> Result<u8, InvalidArgument> {
    match button {
        Button::GridButton { x, y } => if x > 8 {
            Err(InvalidArgument::GridX { x })
        } else if y > 7 {
            Err(InvalidArgument::GridY { y })
        } else {
            Ok(grid_note(x, y) as u8)
        },
        Button::ControlButton { index } => if index > 7 {
            Err(InvalidArgument::ControlIndex { index })
        } else {
            Ok(control_note(index) as u8)
        },
    }
}

impl Button {
    /// Whether the device has this button, so that it can be lit.
    pub open spec fn addressable(self) -> bool {
        match self {
            Button::GridButton { x, y } => x <= 8 && y <= 7,
            Button::ControlButton { index } => index <= 7,
        }
    }

    /// Column of the button on the 9x9 canvas.
    pub open spec fn spec_abs_x(self) -> int {
        match self {
            Button::ControlButton { index } => index as int,
            Button::GridButton { x, y } => x as int,
        }
    }

    /// Row of the button on the 9x9 canvas: the control buttons form row 0
    /// and the grid follows below.
    pub open spec fn spec_abs_y(self) -> int {
        match self {
            Button::ControlButton { index } => 0,
            Button::GridButton { x, y } => y + 1,
        }
    }

    /// Whether `(x, y)` is a position of the 9x9 canvas that holds a button:
    /// all of it but the right end of the control row.
    pub open spec fn on_canvas(x: int, y: int) -> bool {
        0 <= x <= 8 && 0 <= y <= 8 && !(x == 8 && y == 0)
    }

    /// The button at a canvas position, or the error for a position without
    /// one.
    pub open spec fn spec_from_abs(x: u32, y: u32) -> Result<Button, InvalidArgument> {
        if !Self::on_canvas(x as int, y as int) {
            Err(InvalidArgument::CanvasPosition { x, y })
        } else if y == 0 {
            Ok(Button::ControlButton { index: x as u8 })
        } else {
            Ok(Button::GridButton { x: x as u8, y: (y - 1) as u8 })
        }
    }

    /// Column of the button on the canvas.
    pub fn abs_x(&self) -> (col: u32)
        ensures
            col == self.spec_abs_x(),
    {
        match self {
            Button::ControlButton { index } => *index as u32,
            Button::GridButton { x, .. } => *x as u32,
        }
    }

    /// Row of the button on the canvas.
    pub fn abs_y(&self) -> (row: u32)
        ensures
            row == self.spec_abs_y(),
    {
        match self {
            Button::ControlButton { .. } => 0,
            Button::GridButton { y, .. } => *y as u32 + 1,
        }
    }

    /// The button at canvas position `(x, y)`.
    ///
    /// Fails exactly on the positions that hold no button.
    pub fn from_abs(x: u32, y: u32) -> (found: Result<Button, InvalidArgument>)
        ensures
            found == Self::spec_from_abs(x, y),
            found is Ok <==> Self::on_canvas(x as int, y as int),
    {
        if x > 8 || y > 8 || (x == 8 && y == 0) {
            Err(InvalidArgument::CanvasPosition { x, y })
        } else if y == 0 {
            Ok(Button::ControlButton { index: x as u8 })
        } else {
            Ok(Button::GridButton { x: x as u8, y: (y - 1) as u8 })
        }
    }
}

/// Encoding a grid button and decoding the note gives the button back, for
/// every column up to 8 and every row up to 7.
pub proof fn lemma_grid_button_round_trip(x: u8, y: u8)
    requires
        x <= 8,
        y <= 7,
    ensures
        spec_encode_button(Button::GridButton { x, y }) == Ok::<u8, InvalidArgument>(
            grid_note(x, y) as u8,
        ),
        11 <= grid_note(x, y) <= 89,
        spec_decode_grid_button(grid_note(x, y) as u8) == Some(Button::GridButton { x, y }),
{
}

/// Decoding a note and encoding the button gives the note back, for every
/// note from 11 to 89 that does not end in zero. The notes from 1 to 9 decode
/// to row 8, which no button of the device has, and do not encode.
pub proof fn lemma_note_round_trip(note: u8)
    requires
        note_names_position(note),
    ensures
        spec_decode_grid_button(note) is Some,
        note >= 10 ==> spec_decode_grid_button(note)->Some_0.addressable() && spec_encode_button(
            spec_decode_grid_button(note)->Some_0,
        ) == Ok::<u8, InvalidArgument>(note),
        note < 10 ==> spec_encode_button(spec_decode_grid_button(note)->Some_0) == Err::<
            u8,
            InvalidArgument,
        >(InvalidArgument::GridY { y: 8 }),
{
}

/// A button can be encoded exactly when the device has it, and no grid
/// button shares its note with a control button.
pub proof fn lemma_encoding_is_injective(a: Button, b: Button)
    ensures
        spec_encode_button(a) is Ok <==> a.addressable(),
        a.addressable() && b.addressable() && spec_encode_button(a) == spec_encode_button(b)
            ==> a == b,
{
}

/// Every button of the device sits on the canvas, and the canvas position
/// leads back to the same button.
pub proof fn lemma_canvas_position_round_trip(button: Button)
    requires
        button.addressable(),
    ensures
        Button::on_canvas(button.spec_abs_x(), button.spec_abs_y()),
        Button::spec_from_abs(button.spec_abs_x() as u32, button.spec_abs_y() as u32) == Ok::<
            Button,
            InvalidArgument,
        >(button),
{
}

/// Every canvas position that holds a button names a button of the device,
/// and that button sits at this position.
pub proof fn lemma_canvas_button_round_trip(x: u32, y: u32)
    requires
        Button::on_canvas(x as int, y as int),
    ensures
        Button::spec_from_abs(x, y) is Ok,
        Button::spec_from_abs(x, y)->Ok_0.addressable(),
        Button::spec_from_abs(x, y)->Ok_0.spec_abs_x() == x,
        Button::spec_from_abs(x, y)->Ok_0.spec_abs_y() == y,
{
}

} // verus!
