use vstd::prelude::*;

verus! {

/// Stable classification of every failure the library can report.
#[derive(Debug, Clone, PartialEq, Eq)]
pub enum AudioError {
    /// Underlying read or write failure.
    Io(String),
    /// Container or codec not recognised.
    UnsupportedFormat(String),
    /// Stream header lacks a required field.
    InvalidMetadata(String),
    /// Compressed data could not be decoded.
    DecodeError(String),
    /// Encoder write or close failed.
    EncodeError(String),
    /// Reserved for resampler-internal failures.
    ResamplingError(String),
    /// A channel layout contract was violated.
    InvalidChannels { expected: u32, got: u32 },
    /// A sample rate was zero or did not match.
    InvalidSampleRate { rate: u32 },
    /// Sample count incongruent with the channel count.
    BufferError(String),
    /// Reserved for segmenter failures.
    SegmentationError(String),
    /// A construction parameter was out of range.
    ConfigError(String),
    /// Generic invariant violation.
    ProcessingError(String),
}

/// Result type used throughout the library.
pub type AudioResult<T> = Result<T, AudioError>;

} // verus!
