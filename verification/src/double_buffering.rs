use vstd::prelude::*;
use crate::color::Color;
use crate::error::InvalidArgument;

verus! {

/// One of the two LED buffers that the device holds.
#[derive(Debug, Clone, Copy, PartialEq, Eq, Hash, Structural)]
pub enum Buffer {
    A,
    B,
}

impl Buffer {
    /// The buffer's number on the wire: 0 for `A`, 1 for `B`.
    pub open spec fn spec_id(self) -> u8 {
        match self {
            Buffer::A => 0,
            Buffer::B => 1,
        }
    }

    /// The buffer's number on the wire.
    #[verifier::when_used_as_spec(spec_id)]
    pub fn id(self) -> (id: u8)
        ensures
            id == self.spec_id(),
    {
        match self {
            Buffer::A => 0,
            Buffer::B => 1,
        }
    }
}

/// Which buffer is shown, which one is written to, and how the two relate.
#[derive(Debug, Clone, Copy, PartialEq, Eq, Hash, Structural)]
pub struct DoubleBuffering {
    /// Copy the LED states of the newly displayed buffer into the newly
    /// edited one.
    pub copy: bool,
    /// Flip the displayed buffer continually, so that LEDs which differ
    /// between the buffers flash.
    pub flash: bool,
    /// The buffer that later writes go to.
    pub edited_buffer: Buffer,
    /// The buffer that is shown.
    pub displayed_buffer: Buffer,
}

/// What a write of one LED does to the buffer that is not being edited.
#[derive(Debug, Clone, Copy, PartialEq, Eq, Hash, Structural)]
pub enum DoubleBufferingBehavior {
    /// Leave the other buffer alone.
    Keep,
    /// Clear this LED in the other buffer.
    Clear,
    /// Write this LED to both buffers.
    Copy,
}

impl DoubleBufferingBehavior {
    /// The two flag bits of the behavior: bit 0 is "copy", bit 1 is "clear".
    pub open spec fn spec_flags(self) -> u8 {
        match self {
            DoubleBufferingBehavior::Keep => 0,
            DoubleBufferingBehavior::Copy => 1,
            DoubleBufferingBehavior::Clear => 2,
        }
    }

    /// The two flag bits of the behavior.
    #[verifier::when_used_as_spec(spec_flags)]
    pub fn flags(self) -> (flags: u8)
        ensures
            flags == self.spec_flags(),
    {
        match self {
            DoubleBufferingBehavior::Keep => 0,
            DoubleBufferingBehavior::Copy => 1,
            DoubleBufferingBehavior::Clear => 2,
        }
    }
}

/// One of the four levels at which all LEDs can be lit at once.
#[derive(Debug, Clone, Copy, PartialEq, Eq, Hash, Structural)]
pub enum Brightness {
    Off,
    Low,
    Medium,
    Full,
}

impl Brightness {
    /// The code of the level on the wire.
    pub open spec fn spec_code(self) -> u8 {
        match self {
            Brightness::Off => 0,
            Brightness::Low => 125,
            Brightness::Medium => 126,
            Brightness::Full => 127,
        }
    }

    /// The code of the level on the wire.
    #[verifier::when_used_as_spec(spec_code)]
    pub fn code(self) -> (code: u8)
        ensures
            code == self.spec_code(),
    {
        match self {
            Brightness::Off => 0,
            Brightness::Low => 125,
            Brightness::Medium => 126,
            Brightness::Full => 127,
        }
    }
}

impl DoubleBuffering {
    /// The byte that selects this configuration: a fixed 1 in bit 5, then
    /// `copy` in bit 4, `flash` in bit 3, the edited buffer in bit 2 and the
    /// displayed buffer in bit 0.
    pub open spec fn spec_code(self) -> u8 {
        (32 + (if self.copy { 16int } else { 0 }) + (if self.flash { 8int } else { 0 }) + 4
            * self.edited_buffer.spec_id() + self.displayed_buffer.spec_id()) as u8
    }

    /// The byte that selects this configuration.
    #[verifier::when_used_as_spec(spec_code)]
    pub fn code(self) -> (code: u8)
        ensures
            code == self.spec_code(),
    {
        let copy: u8 = if self.copy { 16 } else { 0 };
        let flash: u8 = if self.flash { 8 } else { 0 };
        32 + copy + flash + 4 * self.edited_buffer.id() + self.displayed_buffer.id()
    }
}

/// The byte that lights one LED pair: green in bits 4 and 5, the behavior's
/// flags in bits 2 and 3, red in bits 0 and 1.
pub open spec fn color_code(color: Color, behavior: DoubleBufferingBehavior) -> int {
    16 * color.green() + 4 * behavior.spec_flags() + color.red()
}

/// The byte that colors a scrolling text: the loop flag in bit 6, green in
/// bits 4 and 5, red in bits 0 and 1.
pub open spec fn color_code_loopable(color: Color, should_loop: bool) -> int {
    (if should_loop { 64int } else { 0 }) + 16 * color.green() + color.red()
}

/// What `make_color_code` returns.
pub open spec fn spec_make_color_code(color: Color, behavior: DoubleBufferingBehavior) -> Result<
    u8,
    InvalidArgument,
> {
    match Color::level_error(color.red(), color.green()) {
        Some(error) => Err(error),
        None => Ok(color_code(color, behavior) as u8),
    }
}

/// What `make_color_code_loopable` returns.
pub open spec fn spec_make_color_code_loopable(color: Color, should_loop: bool) -> Result<
    u8,
    InvalidArgument,
> {
    match Color::level_error(color.red(), color.green()) {
        Some(error) => Err(error),
        None => Ok(color_code_loopable(color, should_loop) as u8),
    }
}

/// Packs a color and a behavior into the byte that lights one LED pair.
///
/// Fails exactly when the color is not valid, with the error for its first
/// level that is out of range.
pub fn make_color_code(color: Color, behavior: DoubleBufferingBehavior) -> (code: Result<
    u8,
    InvalidArgument,
>)
    ensures
        code == spec_make_color_code(color, behavior),
        code is Ok <==> color.is_valid(),
        code matches Ok(byte) ==> byte <= 59,
{
    if color.red() > 3 {
        Err(InvalidArgument::ColorRed { value: color.red() })
    } else if color.green() > 3 {
        Err(InvalidArgument::ColorGreen { value: color.green() })
    } else {
        Ok(16 * color.green() + 4 * behavior.flags() + color.red())
    }
}

/// Packs a color and the loop flag into the byte that colors a scrolling
/// text.
///
/// Fails exactly when the color is not valid, with the error for its first
/// level that is out of range.
pub fn make_color_code_loopable(color: Color, should_loop: bool) -> (code: Result<
    u8,
    InvalidArgument,
>)
    ensures
        code == spec_make_color_code_loopable(color, should_loop),
        code is Ok <==> color.is_valid(),
        code matches Ok(byte) ==> byte <= 127,
{
    if color.red() > 3 {
        Err(InvalidArgument::ColorRed { value: color.red() })
    } else if color.green() > 3 {
        Err(InvalidArgument::ColorGreen { value: color.green() })
    } else {
        let looping: u8 = if should_loop { 64 } else { 0 };
        Ok(looping + 16 * color.green() + color.red())
    }
}

/// The byte of a configuration bit by bit: bit 5 is set, bit 4 is `copy`,
/// bit 3 is `flash`, bit 2 the edited buffer, bit 0 the displayed buffer, and
/// the bits 1, 6 and 7 are clear.
pub proof fn lemma_double_buffering_bits(config: DoubleBuffering)
    ensures
        config.spec_code() & 0b0010_0000 == 0b0010_0000,
        (config.spec_code() & 0b0001_0000 != 0) == config.copy,
        (config.spec_code() & 0b0000_1000 != 0) == config.flash,
        (config.spec_code() & 0b0000_0100 != 0) == (config.edited_buffer == Buffer::B),
        (config.spec_code() & 0b0000_0001 != 0) == (config.displayed_buffer == Buffer::B),
        config.spec_code() & 0b1100_0010 == 0,
{
    let copy: u8 = if config.copy { 1 } else { 0 };
    let flash: u8 = if config.flash { 1 } else { 0 };
    let edited: u8 = config.edited_buffer.spec_id();
    let displayed: u8 = config.displayed_buffer.spec_id();
    let code: u8 = config.spec_code();
    assert(code == 32 + 16 * copy + 8 * flash + 4 * edited + displayed);
    assert(code & 0b0010_0000 == 0b0010_0000 && (code & 0b0001_0000 != 0) == (copy == 1) && (code
        & 0b0000_1000 != 0) == (flash == 1) && (code & 0b0000_0100 != 0) == (edited == 1) && (code
        & 0b0000_0001 != 0) == (displayed == 1) && code & 0b1100_0010 == 0) by (bit_vector)
        requires
            copy <= 1,
            flash <= 1,
            edited <= 1,
            displayed <= 1,
            code == 32 + 16 * copy + 8 * flash + 4 * edited + displayed,
    ;
}

} // verus!
