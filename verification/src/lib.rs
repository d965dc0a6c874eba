//! Codec for the Launchpad Mini MK3 grid controller.
//!
//! The crate converts between typed values (buttons, colors, device
//! queries) and the byte frames that travel over a MIDI connection. Every
//! frame builder is a function from typed arguments to bytes, and the decoder
//! is a total function from bytes to one event. Opening a connection and
//! moving the bytes is left to the caller.

pub mod button;
pub mod canvas;
pub mod color;
pub mod double_buffering;
pub mod error;
pub mod input;
pub mod output;
pub mod query;

pub use button::Button;
pub use canvas::{CanvasMessage, Spec};
pub use color::{Color, PaletteColor, RgbColor};
pub use double_buffering::{Brightness, Buffer, DoubleBuffering, DoubleBufferingBehavior};
pub use error::{DecodeError, InvalidArgument};
pub use input::{decode_grid_button, Input, Message};
pub use output::{GridMappingMode, Output};
pub use query::{DeviceIdQuery, DeviceInquiry, VersionInquiry};
