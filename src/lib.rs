//! Frame-oriented audio transform library: the PCM frame model and its
//! invariants, channel layouts, linear-interpolation resampling, channel
//! remixing, time-based segmentation, and the decisions of pull-based
//! decoders and of frame sinks, each with a verified contract.
//!
//! Frames are generic over their sample type: the library decides which
//! samples go where, and arithmetic on the samples themselves (averaging two
//! channels, blending two neighbours) is supplied by the caller as a closure
//! whose results the contracts refer to.

pub mod error;
pub mod frame;
pub mod layout;
pub mod metadata;
pub mod remix;
pub mod resample;
pub mod segment;
pub mod stream;
pub mod time;

pub use error::{AudioError, AudioResult};
pub use frame::AudioFrame;
pub use layout::{BitDepth, Channels};
pub use metadata::AudioMetadata;
pub use remix::Remix;
pub use resample::Resample;
pub use segment::Segment;
pub use stream::{DecodeStep, DecoderState, EncoderState, PacketRead, TrackInfo};
pub use time::TimeSpan;
