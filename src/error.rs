//! Errors reported by the library.

use vstd::prelude::*;

use crate::text::signed_decimal_string;

verus! {

/// What can go wrong while mapping a metric or talking to its collaborators.
#[derive(Debug)]
pub enum SonifyError {
    /// The cluster API reported an error, given as its message.
    KubeError(String),
    /// The cluster client configuration could not be loaded.
    KubeConfigError(String),
    /// Audio playback failed.
    AudioError(String),
    /// The configuration could not be read or parsed.
    ConfigError(String),
    /// The metric name is not in the sound table.
    InvalidMetric(String),
    /// Reading or writing a file failed.
    IoError(String),
    /// A tone was asked for at a frequency that is not positive, in Hz.
    InvalidFrequency(i64),
    /// The cluster client was used before it was initialized.
    ClientNotInitialized,
    /// No audio output device is available.
    NoAudioDevice,
}

impl SonifyError {
    /// The message that describes this error.
    pub fn message(&self) -> String {
        match self {
            SonifyError::KubeError(m) => String::from_str("Kubernetes API error: ").concat(m.as_str()),
            SonifyError::KubeConfigError(m) => String::from_str("Kube config error: ").concat(
                m.as_str(),
            ),
            SonifyError::AudioError(m) => String::from_str("Audio playback error: ").concat(
                m.as_str(),
            ),
            SonifyError::ConfigError(m) => String::from_str("Configuration error: ").concat(
                m.as_str(),
            ),
            SonifyError::InvalidMetric(m) => String::from_str("Invalid metric: ").concat(m.as_str()),
            SonifyError::IoError(m) => String::from_str("IO error: ").concat(m.as_str()),
            SonifyError::InvalidFrequency(f) => String::from_str("Invalid frequency: ").concat(
                signed_decimal_string(*f).as_str(),
            ),
            SonifyError::ClientNotInitialized => String::from_str("K8s client not initialized"),
            SonifyError::NoAudioDevice => String::from_str("No audio output device available"),
        }
    }
}

} // verus!
