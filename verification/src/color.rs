use vstd::prelude::*;
use crate::error::InvalidArgument;

verus! {

/// A color of the device's fixed palette of 128 entries.
#[derive(Debug, Clone, Copy, PartialEq, Eq, Hash, Structural)]
pub struct PaletteColor {
    id: u8,
}

impl PaletteColor {
    /// The palette's black, entry 0.
    #[allow(non_snake_case)]
    pub fn BLACK() -> (color: PaletteColor)
        ensures
            color == Self::with_id(0),
            color.id() == 0,
            color.is_valid(),
    {
        PaletteColor { id: 0 }
    }

    /// The palette's dark gray, entry 1.
    #[allow(non_snake_case)]
    pub fn DARK_GRAY() -> (color: PaletteColor)
        ensures
            color == Self::with_id(1),
            color.id() == 1,
            color.is_valid(),
    {
        PaletteColor { id: 1 }
    }

    /// The palette's light gray, entry 2.
    #[allow(non_snake_case)]
    pub fn LIGHT_GRAY() -> (color: PaletteColor)
        ensures
            color == Self::with_id(2),
            color.id() == 2,
            color.is_valid(),
    {
        PaletteColor { id: 2 }
    }

    /// The palette's white, entry 3.
    #[allow(non_snake_case)]
    pub fn WHITE() -> (color: PaletteColor)
        ensures
            color == Self::with_id(3),
            color.id() == 3,
            color.is_valid(),
    {
        PaletteColor { id: 3 }
    }

    /// The palette's red, entry 5.
    #[allow(non_snake_case)]
    pub fn RED() -> (color: PaletteColor)
        ensures
            color == Self::with_id(5),
            color.id() == 5,
            color.is_valid(),
    {
        PaletteColor { id: 5 }
    }

    /// The palette's yellow, entry 13.
    #[allow(non_snake_case)]
    pub fn YELLOW() -> (color: PaletteColor)
        ensures
            color == Self::with_id(13),
            color.id() == 13,
            color.is_valid(),
    {
        PaletteColor { id: 13 }
    }

    /// The palette's green, entry 21.
    #[allow(non_snake_case)]
    pub fn GREEN() -> (color: PaletteColor)
        ensures
            color == Self::with_id(21),
            color.id() == 21,
            color.is_valid(),
    {
        PaletteColor { id: 21 }
    }

    /// The palette's slightly light green, entry 29.
    #[allow(non_snake_case)]
    pub fn SLIGHTLY_LIGHT_GREEN() -> (color: PaletteColor)
        ensures
            color == Self::with_id(29),
            color.id() == 29,
            color.is_valid(),
    {
        PaletteColor { id: 29 }
    }

    /// The palette's light blue, entry 37.
    #[allow(non_snake_case)]
    pub fn LIGHT_BLUE() -> (color: PaletteColor)
        ensures
            color == Self::with_id(37),
            color.id() == 37,
            color.is_valid(),
    {
        PaletteColor { id: 37 }
    }

    /// The palette's blue, entry 45.
    #[allow(non_snake_case)]
    pub fn BLUE() -> (color: PaletteColor)
        ensures
            color == Self::with_id(45),
            color.id() == 45,
            color.is_valid(),
    {
        PaletteColor { id: 45 }
    }

    /// The palette's magenta, entry 53.
    #[allow(non_snake_case)]
    pub fn MAGENTA() -> (color: PaletteColor)
        ensures
            color == Self::with_id(53),
            color.id() == 53,
            color.is_valid(),
    {
        PaletteColor { id: 53 }
    }

    /// The palette's brown, entry 61.
    #[allow(non_snake_case)]
    pub fn BROWN() -> (color: PaletteColor)
        ensures
            color == Self::with_id(61),
            color.id() == 61,
            color.is_valid(),
    {
        PaletteColor { id: 61 }
    }

    /// The palette's cyan, entry 90.
    #[allow(non_snake_case)]
    pub fn CYAN() -> (color: PaletteColor)
        ensures
            color == Self::with_id(90),
            color.id() == 90,
            color.is_valid(),
    {
        PaletteColor { id: 90 }
    }

    /// The palette index that this color holds.
    pub closed spec fn spec_id(&self) -> u8 {
        self.id
    }

    /// Whether the index lies within the palette.
    pub open spec fn spec_is_valid(&self) -> bool {
        self.spec_id() <= 127
    }

    /// What `new` returns for an index.
    pub open spec fn spec_new(id: u8) -> Result<PaletteColor, InvalidArgument> {
        if id <= 127 {
            Ok(Self::with_id(id))
        } else {
            Err(InvalidArgument::PaletteId { id })
        }
    }

    /// The color that holds `id`, valid or not.
    pub closed spec fn with_id(id: u8) -> PaletteColor {
        PaletteColor { id }
    }

    /// Whether the index lies within the palette.
    #[verifier::when_used_as_spec(spec_is_valid)]
    pub fn is_valid(&self) -> (valid: bool)
        ensures
            valid == self.spec_is_valid(),
    {
        self.id <= 127
    }

    /// The color with palette index `id`.
    ///
    /// Succeeds exactly when `id` is at most 127; there is no clamping.
    pub fn new(id: u8) -> (made: Result<PaletteColor, InvalidArgument>)
        ensures
            made is Ok <==> id <= 127,
            made == Self::spec_new(id),
            made matches Ok(color) ==> color.id() == id && color.is_valid(),
    {
        if id <= 127 {
            Ok(PaletteColor { id })
        } else {
            Err(InvalidArgument::PaletteId { id })
        }
    }

    /// The palette index.
    #[verifier::when_used_as_spec(spec_id)]
    pub fn id(&self) -> (id: u8)
        ensures
            id == self.spec_id(),
    {
        self.id
    }

    /// Replaces the palette index. The new index is not checked: whether the
    /// color is still valid is what `is_valid` tells.
    pub fn set_id(&mut self, id: u8)
        ensures
            final(self).id() == id,
            *final(self) == Self::with_id(id),
    {
        self.id = id
    }
}

/// A palette color is known by its index: the color that holds `id` gives
/// `id` back, and two colors with the same index are the same color.
pub proof fn lemma_palette_color_by_id(a: PaletteColor, b: PaletteColor, id: u8)
    ensures
        PaletteColor::with_id(id).id() == id,
        a.id() == b.id() ==> a == b,
{
}

impl TryFrom<u8> for PaletteColor {
    type Error = InvalidArgument;

    /// The color with palette index `id`, under the same check as `new`.
    fn try_from(id: u8) -> (made: Result<PaletteColor, InvalidArgument>)
        ensures
            made == PaletteColor::spec_new(id),
    {
        PaletteColor::new(id)
    }
}

impl vstd::std_specs::convert::TryFromSpecImpl<u8> for PaletteColor {
    open spec fn obeys_try_from_spec() -> bool {
        true
    }

    open spec fn try_from_spec(id: u8) -> Result<PaletteColor, InvalidArgument> {
        PaletteColor::spec_new(id)
    }
}

/// An RGB color with six bits for each channel.
#[derive(Debug, Clone, Copy, PartialEq, Eq, Hash, Structural)]
pub struct RgbColor {
    r: u8,
    g: u8,
    b: u8,
}

impl RgbColor {
    /// The red channel that this color holds.
    pub closed spec fn spec_red(&self) -> u8 {
        self.r
    }

    /// The green channel that this color holds.
    pub closed spec fn spec_green(&self) -> u8 {
        self.g
    }

    /// The blue channel that this color holds.
    pub closed spec fn spec_blue(&self) -> u8 {
        self.b
    }

    /// The color that holds the three channels, valid or not.
    pub closed spec fn with_channels(r: u8, g: u8, b: u8) -> RgbColor {
        RgbColor { r, g, b }
    }

    /// Whether each channel is at most 63.
    pub open spec fn spec_is_valid(&self) -> bool {
        self.spec_red() <= 63 && self.spec_green() <= 63 && self.spec_blue() <= 63
    }

    /// The error for the first channel above 63, in the order red, green,
    /// blue; `None` where all three are in range.
    pub open spec fn channel_error(r: u8, g: u8, b: u8) -> Option<InvalidArgument> {
        if r > 63 {
            Some(InvalidArgument::RgbRed { value: r })
        } else if g > 63 {
            Some(InvalidArgument::RgbGreen { value: g })
        } else if b > 63 {
            Some(InvalidArgument::RgbBlue { value: b })
        } else {
            None
        }
    }

    /// What `new` returns for three channels.
    pub open spec fn spec_new(r: u8, g: u8, b: u8) -> Result<RgbColor, InvalidArgument> {
        match Self::channel_error(r, g, b) {
            Some(error) => Err(error),
            None => Ok(Self::with_channels(r, g, b)),
        }
    }

    /// The color with the given channels.
    ///
    /// Succeeds exactly when every channel is at most 63; there is no
    /// clamping.
    pub fn new(r: u8, g: u8, b: u8) -> (made: Result<RgbColor, InvalidArgument>)
        ensures
            made is Ok <==> r <= 63 && g <= 63 && b <= 63,
            made == Self::spec_new(r, g, b),
            made matches Ok(color) ==> color.red() == r && color.green() == g && color.blue() == b
                && color.is_valid(),
    {
        if r > 63 {
            Err(InvalidArgument::RgbRed { value: r })
        } else if g > 63 {
            Err(InvalidArgument::RgbGreen { value: g })
        } else if b > 63 {
            Err(InvalidArgument::RgbBlue { value: b })
        } else {
            Ok(RgbColor { r, g, b })
        }
    }

    /// Whether each channel is at most 63.
    #[verifier::when_used_as_spec(spec_is_valid)]
    pub fn is_valid(&self) -> (valid: bool)
        ensures
            valid == self.spec_is_valid(),
    {
        self.r <= 63 && self.g <= 63 && self.b <= 63
    }

    /// The red channel.
    #[verifier::when_used_as_spec(spec_red)]
    pub fn red(&self) -> (r: u8)
        ensures
            r == self.spec_red(),
    {
        self.r
    }

    /// The green channel.
    #[verifier::when_used_as_spec(spec_green)]
    pub fn green(&self) -> (g: u8)
        ensures
            g == self.spec_green(),
    {
        self.g
    }

    /// The blue channel.
    #[verifier::when_used_as_spec(spec_blue)]
    pub fn blue(&self) -> (b: u8)
        ensures
            b == self.spec_blue(),
    {
        self.b
    }

    /// Replaces the red channel, or leaves the color as it was where `r` is
    /// above 63.
    pub fn set_red(&mut self, r: u8) -> (done: Result<(), InvalidArgument>)
        ensures
            r <= 63 ==> done is Ok && final(self).red() == r && final(self).green() == old(
                self,
            ).green() && final(self).blue() == old(self).blue(),
            done is Ok && old(self).is_valid() ==> final(self).is_valid(),
            r > 63 ==> done == Err::<(), InvalidArgument>(InvalidArgument::RgbRed { value: r })
                && *final(self) == *old(self),
    {
        if r > 63 {
            return Err(InvalidArgument::RgbRed { value: r });
        }
        self.r = r;
        Ok(())
    }

    /// Replaces the green channel, or leaves the color as it was where `g` is
    /// above 63.
    pub fn set_green(&mut self, g: u8) -> (done: Result<(), InvalidArgument>)
        ensures
            g <= 63 ==> done is Ok && final(self).green() == g && final(self).red() == old(
                self,
            ).red() && final(self).blue() == old(self).blue(),
            done is Ok && old(self).is_valid() ==> final(self).is_valid(),
            g > 63 ==> done == Err::<(), InvalidArgument>(InvalidArgument::RgbGreen { value: g })
                && *final(self) == *old(self),
    {
        if g > 63 {
            return Err(InvalidArgument::RgbGreen { value: g });
        }
        self.g = g;
        Ok(())
    }

    /// Replaces the blue channel, or leaves the color as it was where `b` is
    /// above 63.
    pub fn set_blue(&mut self, b: u8) -> (done: Result<(), InvalidArgument>)
        ensures
            b <= 63 ==> done is Ok && final(self).blue() == b && final(self).red() == old(
                self,
            ).red() && final(self).green() == old(self).green(),
            done is Ok && old(self).is_valid() ==> final(self).is_valid(),
            b > 63 ==> done == Err::<(), InvalidArgument>(InvalidArgument::RgbBlue { value: b })
                && *final(self) == *old(self),
    {
        if b > 63 {
            return Err(InvalidArgument::RgbBlue { value: b });
        }
        self.b = b;
        Ok(())
    }
}

/// An RGB color is known by its channels: the color that holds three
/// channels gives them back, and two colors with the same channels are the
/// same color.
pub proof fn lemma_rgb_color_by_channels(x: RgbColor, y: RgbColor, r: u8, g: u8, b: u8)
    ensures
        RgbColor::with_channels(r, g, b).red() == r,
        RgbColor::with_channels(r, g, b).green() == g,
        RgbColor::with_channels(r, g, b).blue() == b,
        x.red() == y.red() && x.green() == y.green() && x.blue() == y.blue() ==> x == y,
{
}

/// A color of the two-LED protocol: a red and a green LED under each button,
/// each with four levels of brightness.
#[derive(Debug, Clone, Copy, PartialEq, Eq, Hash, Structural)]
pub struct Color {
    red: u8,
    green: u8,
}

impl Color {
    /// The red brightness that this color holds.
    pub closed spec fn spec_red(&self) -> u8 {
        self.red
    }

    /// The green brightness that this color holds.
    pub closed spec fn spec_green(&self) -> u8 {
        self.green
    }

    /// The color that holds the two levels, valid or not.
    pub closed spec fn with_levels(red: u8, green: u8) -> Color {
        Color { red, green }
    }

    /// Whether both levels are at most 3.
    pub open spec fn spec_is_valid(&self) -> bool {
        self.spec_red() <= 3 && self.spec_green() <= 3
    }

    /// The error for the first level above 3, red before green; `None`
    /// where both are in range.
    pub open spec fn level_error(red: u8, green: u8) -> Option<InvalidArgument> {
        if red > 3 {
            Some(InvalidArgument::ColorRed { value: red })
        } else if green > 3 {
            Some(InvalidArgument::ColorGreen { value: green })
        } else {
            None
        }
    }

    /// What `new` returns for two levels.
    pub open spec fn spec_new(red: u8, green: u8) -> Result<Color, InvalidArgument> {
        match Self::level_error(red, green) {
            Some(error) => Err(error),
            None => Ok(Self::with_levels(red, green)),
        }
    }

    /// The color with the given levels of brightness.
    ///
    /// Succeeds exactly when both are at most 3.
    pub fn new(red: u8, green: u8) -> (made: Result<Color, InvalidArgument>)
        ensures
            made is Ok <==> red <= 3 && green <= 3,
            made == Self::spec_new(red, green),
            made matches Ok(color) ==> color.red() == red && color.green() == green
                && color.is_valid(),
    {
        if red > 3 {
            Err(InvalidArgument::ColorRed { value: red })
        } else if green > 3 {
            Err(InvalidArgument::ColorGreen { value: green })
        } else {
            Ok(Color { red, green })
        }
    }

    /// Whether both levels are at most 3.
    #[verifier::when_used_as_spec(spec_is_valid)]
    pub fn is_valid(&self) -> (valid: bool)
        ensures
            valid == self.spec_is_valid(),
    {
        self.red <= 3 && self.green <= 3
    }

    /// The red brightness.
    #[verifier::when_used_as_spec(spec_red)]
    pub fn red(&self) -> (red: u8)
        ensures
            red == self.spec_red(),
    {
        self.red
    }

    /// The green brightness.
    #[verifier::when_used_as_spec(spec_green)]
    pub fn green(&self) -> (green: u8)
        ensures
            green == self.spec_green(),
    {
        self.green
    }
}

/// A two-LED color is known by its levels: the color that holds two levels
/// gives them back, and two colors with the same levels are the same color.
pub proof fn lemma_color_by_levels(x: Color, y: Color, red: u8, green: u8)
    ensures
        Color::with_levels(red, green).red() == red,
        Color::with_levels(red, green).green() == green,
        x.red() == y.red() && x.green() == y.green() ==> x == y,
{
}

} // verus!
