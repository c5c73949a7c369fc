//! Configuration of a gaming mouse over its fixed-size control reports.
//!
//! The core is a codec between 520-byte reports and a typed model: the device
//! configuration (DPI profiles, polling rate, lighting effects), the button map and
//! macro banks. Every decoder is specified by a function from bytes to a model value or
//! an error, every encoder by the bytes it writes, and the round trips between them are
//! proved in `protocol::round_trip`.

pub mod buttonmap;
pub mod commands;
pub mod device;
pub mod error;
pub mod macros;
pub mod protocol;
pub mod rgb;
pub mod text;
pub mod transport;

pub use buttonmap::{default_map, ButtonAction, ButtonMapping};
pub use device::{
    Color, Config, DataReport, DpiProfile, DpiValue, MediaButton, Modifier, MouseButton,
    PollingRate,
};
pub use error::CodecError;
