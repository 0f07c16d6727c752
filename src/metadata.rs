use vstd::prelude::*;
use crate::error::AudioError;
use crate::layout::{BitDepth, Channels};
use crate::time::TimeSpan;

verus! {

/// Descriptor of a whole stream, filled in at stream boundaries.
#[derive(Debug, Clone)]
pub struct AudioMetadata {
    /// Total duration, when known.
    pub duration: Option<TimeSpan>,
    /// Sample rate in Hz.
    pub sample_rate: u32,
    /// Channel layout.
    pub channels: Channels,
    /// Codec name.
    pub codec: String,
    /// Sample encoding, when known.
    pub bit_depth: Option<BitDepth>,
    /// Bits per second, when known.
    pub bitrate: Option<u32>,
}

impl AudioMetadata {
    /// Metadata with only rate, layout and codec known; a zero rate fails
    /// with `InvalidSampleRate { rate: 0 }`.
    pub fn new(sample_rate: u32, channels: Channels, codec: String) -> (r: Result<AudioMetadata, AudioError>)
        ensures
            sample_rate == 0 ==> r == Err::<AudioMetadata, AudioError>(AudioError::InvalidSampleRate { rate: 0 }),
            sample_rate > 0 ==> {
                &&& r is Ok
                &&& r->Ok_0.duration == None::<TimeSpan>
                &&& r->Ok_0.sample_rate == sample_rate
                &&& r->Ok_0.channels == channels
                &&& r->Ok_0.codec@ == codec@
                &&& r->Ok_0.bit_depth == None::<BitDepth>
                &&& r->Ok_0.bitrate == None::<u32>
            },
    {
        if sample_rate == 0 {
            return Err(AudioError::InvalidSampleRate { rate: sample_rate });
        }
        Ok(AudioMetadata { duration: None, sample_rate, channels, codec, bit_depth: None, bitrate: None })
    }

    /// The same metadata with the duration set.
    pub fn with_duration(self, duration: TimeSpan) -> (r: AudioMetadata)
        ensures
            r.duration == Some(duration),
            r.sample_rate == self.sample_rate,
            r.channels == self.channels,
            r.codec@ == self.codec@,
            r.bit_depth == self.bit_depth,
            r.bitrate == self.bitrate,
    {
        let mut m = self;
        m.duration = Some(duration);
        m
    }

    /// The same metadata with the sample encoding set.
    pub fn with_bit_depth(self, bit_depth: BitDepth) -> (r: AudioMetadata)
        ensures
            r.bit_depth == Some(bit_depth),
            r.duration == self.duration,
            r.sample_rate == self.sample_rate,
            r.channels == self.channels,
            r.codec@ == self.codec@,
            r.bitrate == self.bitrate,
    {
        let mut m = self;
        m.bit_depth = Some(bit_depth);
        m
    }

    /// The same metadata with the bitrate set.
    pub fn with_bitrate(self, bitrate: u32) -> (r: AudioMetadata)
        ensures
            r.bitrate == Some(bitrate),
            r.duration == self.duration,
            r.sample_rate == self.sample_rate,
            r.channels == self.channels,
            r.codec@ == self.codec@,
            r.bit_depth == self.bit_depth,
    {
        let mut m = self;
        m.bitrate = Some(bitrate);
        m
    }

    /// Bitrate in whole kilobits per second, when known.
    pub fn bitrate_kbps(&self) -> (r: Option<u32>)
        ensures
            r == match self.bitrate {
                Some(b) => Some((b / 1000) as u32),
                None => None::<u32>,
            },
    {
        match self.bitrate {
            Some(b) => Some(b / 1000),
            None => None,
        }
    }
}

} // verus!
