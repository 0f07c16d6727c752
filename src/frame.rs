use vstd::prelude::*;
use crate::error::AudioError;
use crate::layout::Channels;
use crate::time::{span_nanos, TimeSpan};

verus! {

/// One chunk of PCM audio: interleaved samples (sample 0 of every channel,
/// then sample 1 of every channel, ...) at one rate and one layout, tagged
/// with its producer's sequence number and its duration-derived timestamp.
///
/// The sample type is left open: the frame model and every layout operation
/// of the library only move samples around.
#[derive(Debug)]
pub struct AudioFrame<S> {
    samples: Vec<S>,
    sample_rate: u32,
    channels: Channels,
    frame_number: u64,
    timestamp: TimeSpan,
}

impl<S> AudioFrame<S> {
    #[verifier::type_invariant]
    spec fn inv(&self) -> bool {
        &&& self.sample_rate > 0
        &&& self.samples@.len() % (self.channels.spec_count() as nat) == 0
        &&& self.timestamp.total_nanos() == span_nanos(
            (self.samples@.len() / (self.channels.spec_count() as nat)) as nat,
            self.sample_rate as nat,
        )
    }

    /// The interleaved samples.
    pub closed spec fn spec_samples(&self) -> Seq<S> {
        self.samples@
    }

    /// Sample rate in Hz.
    pub closed spec fn spec_sample_rate(&self) -> u32 {
        self.sample_rate
    }

    /// Channel layout.
    pub closed spec fn spec_channels(&self) -> Channels {
        self.channels
    }

    /// Sequence number assigned by the producer.
    pub closed spec fn spec_frame_number(&self) -> u64 {
        self.frame_number
    }

    /// Presentation offset fixed at construction.
    pub closed spec fn spec_timestamp(&self) -> TimeSpan {
        self.timestamp
    }

    /// Samples per channel.
    pub open spec fn spec_samples_per_channel(&self) -> int {
        (self.spec_samples().len() / (self.spec_channels().spec_count() as nat)) as int
    }

    /// Builds a frame whose invariants are already known to hold.
    pub(crate) fn assemble(samples: Vec<S>, sample_rate: u32, channels: Channels, frame_number: u64) -> (r: Self)
        requires
            sample_rate > 0,
            samples@.len() % (channels.spec_count() as nat) == 0,
        ensures
            r.spec_samples() == samples@,
            r.spec_sample_rate() == sample_rate,
            r.spec_channels() == channels,
            r.spec_frame_number() == frame_number,
            r.spec_timestamp().total_nanos() == span_nanos(
                (samples@.len() / (channels.spec_count() as nat)) as nat,
                sample_rate as nat,
            ),
    {
        let per_channel: usize = samples.len() / (channels.count() as usize);
        let timestamp = TimeSpan::of_frames(per_channel as u64, sample_rate);
        AudioFrame { samples, sample_rate, channels, frame_number, timestamp }
    }

    /// Creates a frame. A zero rate fails with `InvalidSampleRate`, and a
    /// sample count that is not a multiple of the channel count fails with
    /// `BufferError`; otherwise the frame holds exactly the given values and
    /// a timestamp of `samples_per_channel / sample_rate` seconds.
    pub fn new(samples: Vec<S>, sample_rate: u32, channels: Channels, frame_number: u64) -> (r: Result<Self, AudioError>)
        ensures
            sample_rate == 0 ==> r == Err::<Self, AudioError>(AudioError::InvalidSampleRate { rate: 0 }),
            sample_rate > 0 && samples@.len() % (channels.spec_count() as nat) != 0
                ==> r matches Err(AudioError::BufferError(_)),
            sample_rate > 0 && samples@.len() % (channels.spec_count() as nat) == 0 ==> {
                &&& r is Ok
                &&& r->Ok_0.spec_samples() == samples@
                &&& r->Ok_0.spec_sample_rate() == sample_rate
                &&& r->Ok_0.spec_channels() == channels
                &&& r->Ok_0.spec_frame_number() == frame_number
                &&& r->Ok_0.spec_timestamp().total_nanos() == span_nanos(
                    (samples@.len() / (channels.spec_count() as nat)) as nat,
                    sample_rate as nat,
                )
            },
    {
        if sample_rate == 0 {
            return Err(AudioError::InvalidSampleRate { rate: sample_rate });
        }
        if samples.len() % (channels.count() as usize) != 0 {
            return Err(AudioError::BufferError("Sample count not divisible by channel count".to_owned()));
        }
        Ok(Self::assemble(samples, sample_rate, channels, frame_number))
    }

    /// The interleaved samples; their number is a multiple of the channel
    /// count.
    pub fn samples(&self) -> (r: &[S])
        ensures
            r@ == self.spec_samples(),
            r@.len() % (self.spec_channels().spec_count() as nat) == 0,
    {
        proof { use_type_invariant(self); }
        self.samples.as_slice()
    }

    /// Consumes the frame and hands back its samples.
    pub fn into_samples(self) -> (r: Vec<S>)
        ensures
            r@ == self.spec_samples(),
    {
        self.samples
    }

    /// Sample rate in Hz; never zero.
    pub fn sample_rate(&self) -> (r: u32)
        ensures
            r == self.spec_sample_rate(),
            r > 0,
    {
        proof { use_type_invariant(self); }
        self.sample_rate
    }

    /// Channel layout.
    pub fn channels(&self) -> (r: Channels)
        ensures
            r == self.spec_channels(),
    {
        self.channels
    }

    /// Samples per channel; times the channel count it gives the sample
    /// count exactly.
    pub fn samples_per_channel(&self) -> (r: usize)
        ensures
            r == self.spec_samples_per_channel(),
            r * self.spec_channels().spec_count() == self.spec_samples().len(),
    {
        proof { use_type_invariant(self); }
        let n: usize = self.samples.len() / (self.channels.count() as usize);
        proof {
            let c = self.channels.spec_count() as int;
            let len = self.samples@.len() as int;
            assert(n * c == len) by (nonlinear_arith)
                requires c > 0, len % c == 0, n == len / c;
        }
        n
    }

    /// Sequence number assigned by the producer.
    pub fn frame_number(&self) -> (r: u64)
        ensures
            r == self.spec_frame_number(),
    {
        self.frame_number
    }

    /// Presentation offset: the duration of the frame's own samples at its
    /// rate, rounded down to the nanosecond.
    pub fn timestamp(&self) -> (r: TimeSpan)
        ensures
            r == self.spec_timestamp(),
            r.total_nanos() == span_nanos(self.spec_samples_per_channel() as nat, self.spec_sample_rate() as nat),
    {
        proof { use_type_invariant(self); }
        self.timestamp
    }

    /// Playing time of the frame: samples per channel over the rate,
    /// rounded down to the nanosecond.
    pub fn duration(&self) -> (r: TimeSpan)
        ensures
            r.total_nanos() == span_nanos(self.spec_samples_per_channel() as nat, self.spec_sample_rate() as nat),
    {
        let n = self.samples_per_channel();
        let rate = self.sample_rate();
        TimeSpan::of_frames(n as u64, rate)
    }

    /// Whether the frame holds no samples.
    pub fn is_empty(&self) -> (r: bool)
        ensures
            r == (self.spec_samples().len() == 0),
    {
        self.samples.len() == 0
    }
}

impl<S: Copy> AudioFrame<S> {
    /// A new frame with the same samples, rate, layout, number and
    /// timestamp.
    pub fn duplicate(&self) -> (r: Self)
        ensures
            r.spec_samples() == self.spec_samples(),
            r.spec_sample_rate() == self.spec_sample_rate(),
            r.spec_channels() == self.spec_channels(),
            r.spec_frame_number() == self.spec_frame_number(),
            r.spec_timestamp() == self.spec_timestamp(),
    {
        proof { use_type_invariant(self); }
        let samples = copy_samples(self.samples.as_slice());
        AudioFrame {
            samples,
            sample_rate: self.sample_rate,
            channels: self.channels,
            frame_number: self.frame_number,
            timestamp: self.timestamp,
        }
    }
}

/// A new vector holding the same samples in the same order.
pub fn copy_samples<S: Copy>(src: &[S]) -> (r: Vec<S>)
    ensures
        r@ == src@,
{
    let mut out: Vec<S> = Vec::with_capacity(src.len());
    let mut i: usize = 0;
    while i < src.len()
        invariant
            i <= src@.len(),
            out@ == src@.subrange(0, i as int),
        decreases src@.len() - i,
    {
        out.push(src[i]);
        i = i + 1;
        proof { assert(out@ =~= src@.subrange(0, i as int)); }
    }
    proof { assert(out@ =~= src@); }
    out
}

} // verus!
