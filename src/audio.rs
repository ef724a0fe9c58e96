//! Audio-side logic that needs no floating point.

pub mod pcm;

pub use pcm::PcmSource;
