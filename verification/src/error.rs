use vstd::prelude::*;

verus! {

/// An argument outside the range that the device accepts.
///
/// Each variant names the limit that was broken and carries the value that
/// broke it. A function that returns this error has built no frame.
#[derive(Debug, Clone, Copy, PartialEq, Eq, Hash, Structural)]
#[allow(inconsistent_fields)]
pub enum InvalidArgument {
    /// A palette index above 127.
    PaletteId { id: u8 },
    /// A red channel of an RGB color above 63.
    RgbRed { value: u8 },
    /// A green channel of an RGB color above 63.
    RgbGreen { value: u8 },
    /// A blue channel of an RGB color above 63.
    RgbBlue { value: u8 },
    /// A red brightness of a two-LED color above 3.
    ColorRed { value: u8 },
    /// A green brightness of a two-LED color above 3.
    ColorGreen { value: u8 },
    /// A grid column above 8.
    GridX { x: u8 },
    /// A grid row above 7.
    GridY { y: u8 },
    /// A control button index above 7.
    ControlIndex { index: u8 },
    /// A duty cycle numerator outside `1..=16`.
    DutyCycleNumerator { numerator: u8 },
    /// A duty cycle denominator outside `3..=18`.
    DutyCycleDenominator { denominator: u8 },
    /// More than 80 buttons in one batch.
    TooManyButtons { count: usize },
    /// A device id above 126 in a query for one specific device.
    DeviceId { device_id: u8 },
    /// A position outside the 9x9 canvas, or its unused corner.
    CanvasPosition { x: u32, y: u32 },
}

/// What a frame builder returned, with the frame as a sequence of bytes.
pub open spec fn frame_view(built: Result<Vec<u8>, InvalidArgument>) -> Result<
    Seq<u8>,
    InvalidArgument,
> {
    match built {
        Ok(bytes) => Ok(bytes@),
        Err(error) => Err(error),
    }
}

/// A frame whose shape was recognised but which carries a value that the
/// device is not expected to send.
#[derive(Debug, Clone, Copy, PartialEq, Eq, Hash, Structural)]
pub enum DecodeError {
    /// A note-on whose note number names no grid position.
    UnexpectedNote { note: u8 },
    /// A press or release whose velocity is neither 0 nor 127.
    UnexpectedVelocity { velocity: u8 },
}

} // verus!
