//! Animation state and colour selection for a spinning, colour-cycling square.
//!
//! All quantities are held as integers in micro-units: time in microseconds,
//! angles in microradians, hues in microdegrees.
pub mod animation;
pub mod color;

pub use animation::App;
pub use color::Color;
