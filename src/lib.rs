//! Turns cluster metrics into notes and colours.
//!
//! The library holds the sound/colour table, the bucketing of a metric value
//! onto a note, colour parsing and terminal colouring, the derived status
//! metrics and the sample cursor that feeds an audio sink. Metric values are
//! carried as whole thousandths of their unit.

pub mod audio;
pub mod config;
pub mod display;
pub mod error;
pub mod k8s;
pub mod sonify;
pub mod text;

pub use error::SonifyError;
pub use sonify::{get_sound_map, map_metric};
