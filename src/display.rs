//! Colour parsing and terminal colouring.

pub mod color;

pub use color::{colorize, hex_to_rgb};
