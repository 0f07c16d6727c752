use vstd::prelude::*;
use crate::error::AudioError;

verus! {

/// Channel layouts recognised by the pipeline.
#[derive(Debug, Clone, Copy, PartialEq, Eq, Structural)]
pub enum Channels {
    /// One channel: [M].
    Mono,
    /// Two channels: [L, R].
    Stereo,
    /// Four channels: [FL, FR, RL, RR].
    Quad,
    /// Six channels: [FL, FR, C, LFE, RL, RR].
    SurroundFivePointOne,
    /// Eight channels: [FL, FR, C, LFE, RL, RR, SL, SR].
    SurroundSevenPointOne,
}

/// The layout with `n` channels, if one is recognised.
pub open spec fn layout_of_count(n: u32) -> Option<Channels> {
    if n == 1 {
        Some(Channels::Mono)
    } else if n == 2 {
        Some(Channels::Stereo)
    } else if n == 4 {
        Some(Channels::Quad)
    } else if n == 6 {
        Some(Channels::SurroundFivePointOne)
    } else if n == 8 {
        Some(Channels::SurroundSevenPointOne)
    } else {
        None
    }
}

impl Channels {
    /// Number of channels in the layout.
    pub open spec fn spec_count(&self) -> u32 {
        match self {
            Channels::Mono => 1,
            Channels::Stereo => 2,
            Channels::Quad => 4,
            Channels::SurroundFivePointOne => 6,
            Channels::SurroundSevenPointOne => 8,
        }
    }

    /// Human-readable layout name.
    pub open spec fn spec_name(&self) -> Seq<char> {
        match self {
            Channels::Mono => "Mono"@,
            Channels::Stereo => "Stereo"@,
            Channels::Quad => "Quad"@,
            Channels::SurroundFivePointOne => "5.1 Surround"@,
            Channels::SurroundSevenPointOne => "7.1 Surround"@,
        }
    }

    /// Layout for a channel count; any count outside {1, 2, 4, 6, 8} is
    /// rejected with `InvalidChannels { expected: 1, got: count }`.
    pub fn from_count(count: u32) -> (r: Result<Channels, AudioError>)
        ensures
            match layout_of_count(count) {
                Some(c) => r == Ok::<Channels, AudioError>(c),
                None => r == Err::<Channels, AudioError>(AudioError::InvalidChannels { expected: 1, got: count }),
            },
            r is Ok ==> r->Ok_0.spec_count() == count,
    {
        match count {
            1 => Ok(Channels::Mono),
            2 => Ok(Channels::Stereo),
            4 => Ok(Channels::Quad),
            6 => Ok(Channels::SurroundFivePointOne),
            8 => Ok(Channels::SurroundSevenPointOne),
            n => Err(AudioError::InvalidChannels { expected: 1, got: n }),
        }
    }

    /// Number of channels in the layout.
    #[verifier::when_used_as_spec(spec_count)]
    pub fn count(&self) -> (r: u32)
        ensures
            r == self.spec_count(),
            1 <= r <= 8,
    {
        match self {
            Channels::Mono => 1,
            Channels::Stereo => 2,
            Channels::Quad => 4,
            Channels::SurroundFivePointOne => 6,
            Channels::SurroundSevenPointOne => 8,
        }
    }

    /// Human-readable layout name.
    pub fn name(&self) -> (r: &'static str)
        ensures
            r@ == self.spec_name(),
    {
        match self {
            Channels::Mono => "Mono",
            Channels::Stereo => "Stereo",
            Channels::Quad => "Quad",
            Channels::SurroundFivePointOne => "5.1 Surround",
            Channels::SurroundSevenPointOne => "7.1 Surround",
        }
    }
}

/// Sample encodings, as descriptive metadata for external interfaces.
#[derive(Debug, Clone, Copy, PartialEq, Eq, Structural)]
pub enum BitDepth {
    /// 8-bit unsigned.
    I8,
    /// 16-bit signed.
    I16,
    /// 24-bit signed.
    I24,
    /// 32-bit signed.
    I32,
    /// 32-bit floating point.
    F32,
    /// 64-bit floating point.
    F64,
}

impl BitDepth {
    /// Bytes taken by one sample.
    pub open spec fn spec_bytes_per_sample(&self) -> usize {
        match self {
            BitDepth::I8 => 1,
            BitDepth::I16 => 2,
            BitDepth::I24 => 3,
            BitDepth::I32 => 4,
            BitDepth::F32 => 4,
            BitDepth::F64 => 8,
        }
    }

    /// Bytes taken by one sample.
    pub fn bytes_per_sample(&self) -> (r: usize)
        ensures
            r == self.spec_bytes_per_sample(),
    {
        match self {
            BitDepth::I8 => 1,
            BitDepth::I16 => 2,
            BitDepth::I24 => 3,
            BitDepth::I32 => 4,
            BitDepth::F32 => 4,
            BitDepth::F64 => 8,
        }
    }
}

} // verus!
