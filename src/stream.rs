use vstd::prelude::*;
use crate::error::AudioError;
use crate::frame::AudioFrame;
use crate::layout::{layout_of_count, Channels};

verus! {

/// What a container reports about one of its tracks.
#[derive(Debug, Clone, Copy, PartialEq, Eq)]
pub struct TrackInfo {
    /// Track identifier used to tag packets.
    pub id: u32,
    /// Whether the track names a codec (a null codec marks a non-audio track).
    pub has_codec: bool,
    /// Sample rate from the stream header, when present.
    pub sample_rate: Option<u32>,
    /// Channel count from the stream header, when present.
    pub channel_count: Option<u32>,
}

/// Index of the first track that names a codec.
pub open spec fn first_codec_track(tracks: Seq<TrackInfo>) -> Option<int> {
    if exists|i: int| 0 <= i < tracks.len() && tracks[i].has_codec {
        Some(choose|i: int|
            0 <= i < tracks.len() && tracks[i].has_codec
                && forall|j: int| 0 <= j < i ==> !tracks[j].has_codec)
    } else {
        None
    }
}

/// What reading the next packet of a container gave.
#[derive(Debug, Clone, PartialEq, Eq)]
pub enum PacketRead {
    /// A packet of the given track.
    Packet { track_id: u32 },
    /// The container is exhausted.
    EndOfStream,
    /// A malformed packet, which may be skipped.
    Corrupt,
    /// Any other read failure, with its message.
    Failed(String),
}

/// What the decoder does after a packet read.
#[derive(Debug, Clone, PartialEq, Eq)]
pub enum DecodeStep {
    /// Decode the packet just read.
    Decode,
    /// Drop it and read the next one.
    Skip,
    /// Report end of stream.
    Finish,
    /// Report the error.
    Fail(AudioError),
}

/// Decisions of a pull-based decoder bound to one track: which packets to
/// decode, when the stream has ended, and how decoded samples become
/// numbered frames. Once finished it stays finished.
#[derive(Debug, Clone, Copy, PartialEq, Eq)]
pub struct DecoderState {
    track_id: u32,
    sample_rate: u32,
    channels: Channels,
    frame_count: u64,
    finished: bool,
}

impl DecoderState {
    /// Track whose packets are decoded.
    pub closed spec fn spec_track_id(&self) -> u32 {
        self.track_id
    }

    /// Rate of every frame produced.
    pub closed spec fn spec_sample_rate(&self) -> u32 {
        self.sample_rate
    }

    /// Layout of every frame produced.
    pub closed spec fn spec_channels(&self) -> Channels {
        self.channels
    }

    /// Number of frames produced so far.
    pub closed spec fn spec_frame_count(&self) -> u64 {
        self.frame_count
    }

    /// Whether end of stream has been observed.
    pub closed spec fn spec_finished(&self) -> bool {
        self.finished
    }

    /// Binds a decoder to the first track that names a codec. Fails with
    /// `InvalidMetadata` when there is none, or when that track lacks a
    /// sample rate or a channel count; with `InvalidSampleRate` when its rate
    /// is 0; with `InvalidChannels` when its count is not a known layout.
    pub fn open(tracks: &[TrackInfo]) -> (r: Result<DecoderState, AudioError>)
        ensures
            first_codec_track(tracks@) is None ==> (r matches Err(AudioError::InvalidMetadata(_))),
            first_codec_track(tracks@) is Some ==> {
                let t = tracks@[first_codec_track(tracks@)->Some_0];
                &&& t.sample_rate is None ==> (r matches Err(AudioError::InvalidMetadata(_)))
                &&& t.sample_rate == Some(0u32)
                    ==> r == Err::<DecoderState, AudioError>(AudioError::InvalidSampleRate { rate: 0 })
                &&& (t.sample_rate matches Some(rate) && rate > 0) ==> {
                    &&& t.channel_count is None ==> (r matches Err(AudioError::InvalidMetadata(_)))
                    &&& (t.channel_count matches Some(n) && layout_of_count(n) is None)
                        ==> r == Err::<DecoderState, AudioError>(
                            AudioError::InvalidChannels { expected: 1, got: t.channel_count->Some_0 })
                    &&& (t.channel_count matches Some(n) && layout_of_count(n) is Some) ==> {
                        &&& r is Ok
                        &&& r->Ok_0.spec_track_id() == t.id
                        &&& r->Ok_0.spec_sample_rate() == t.sample_rate->Some_0
                        &&& Some(r->Ok_0.spec_channels()) == layout_of_count(t.channel_count->Some_0)
                        &&& r->Ok_0.spec_frame_count() == 0
                        &&& !r->Ok_0.spec_finished()
                    }
                }
            },
    {
        let mut i: usize = 0;
        while i < tracks.len()
            invariant
                i <= tracks@.len(),
                forall|j: int| 0 <= j < i ==> !tracks@[j].has_codec,
            decreases tracks@.len() - i,
        {
            if tracks[i].has_codec {
                proof {
                    let k = first_codec_track(tracks@)->Some_0;
                    assert(exists|j: int| 0 <= j < tracks@.len() && tracks@[j].has_codec);
                    assert(0 <= k < tracks@.len() && tracks@[k].has_codec
                        && forall|j: int| 0 <= j < k ==> !tracks@[j].has_codec);
                    assert(k == i as int) by {
                        if k < i as int {
                        } else if k > i as int {
                            assert(!tracks@[i as int].has_codec);
                        }
                    }
                }
                let t = tracks[i];
                let rate = match t.sample_rate {
                    Some(rate) => rate,
                    None => return Err(AudioError::InvalidMetadata("Unknown sample rate".to_owned())),
                };
                if rate == 0 {
                    return Err(AudioError::InvalidSampleRate { rate: 0 });
                }
                let count = match t.channel_count {
                    Some(n) => n,
                    None => return Err(AudioError::InvalidMetadata("Unknown channel count".to_owned())),
                };
                let channels = match Channels::from_count(count) {
                    Ok(c) => c,
                    Err(e) => return Err(e),
                };
                return Ok(DecoderState { track_id: t.id, sample_rate: rate, channels, frame_count: 0, finished: false });
            }
            i = i + 1;
        }
        Err(AudioError::InvalidMetadata("No audio track found".to_owned()))
    }

    /// Track whose packets are decoded.
    pub fn track_id(&self) -> (r: u32)
        ensures
            r == self.spec_track_id(),
    {
        self.track_id
    }

    /// Rate of every frame produced.
    pub fn sample_rate(&self) -> (r: u32)
        ensures
            r == self.spec_sample_rate(),
    {
        self.sample_rate
    }

    /// Layout of every frame produced.
    pub fn channels(&self) -> (r: Channels)
        ensures
            r == self.spec_channels(),
    {
        self.channels
    }

    /// Number of frames produced so far.
    pub fn frame_count(&self) -> (r: u64)
        ensures
            r == self.spec_frame_count(),
    {
        self.frame_count
    }

    /// Whether end of stream has been observed.
    pub fn is_finished(&self) -> (r: bool)
        ensures
            r == self.spec_finished(),
    {
        self.finished
    }

    /// Decides what to do with the outcome of a packet read. A finished
    /// decoder only finishes; end of stream finishes it; a malformed packet
    /// or one of another track is skipped; any other failure is reported as
    /// `DecodeError`; a packet of the bound track is decoded.
    pub fn on_read(&mut self, read: PacketRead) -> (r: DecodeStep)
        ensures
            final(self).spec_track_id() == old(self).spec_track_id(),
            final(self).spec_sample_rate() == old(self).spec_sample_rate(),
            final(self).spec_channels() == old(self).spec_channels(),
            final(self).spec_frame_count() == old(self).spec_frame_count(),
            final(self).spec_finished() == (old(self).spec_finished() || read == PacketRead::EndOfStream),
            old(self).spec_finished() ==> r == DecodeStep::Finish,
            !old(self).spec_finished() ==> r == match read {
                PacketRead::EndOfStream => DecodeStep::Finish,
                PacketRead::Corrupt => DecodeStep::Skip,
                PacketRead::Failed(m) => DecodeStep::Fail(AudioError::DecodeError(m)),
                PacketRead::Packet { track_id } => if track_id == old(self).spec_track_id() {
                    DecodeStep::Decode
                } else {
                    DecodeStep::Skip
                },
            },
    {
        if self.finished {
            return DecodeStep::Finish;
        }
        match read {
            PacketRead::EndOfStream => {
                self.finished = true;
                DecodeStep::Finish
            },
            PacketRead::Corrupt => DecodeStep::Skip,
            PacketRead::Failed(m) => DecodeStep::Fail(AudioError::DecodeError(m)),
            PacketRead::Packet { track_id } => {
                if track_id == self.track_id {
                    DecodeStep::Decode
                } else {
                    DecodeStep::Skip
                }
            },
        }
    }

    /// Turns the interleaved samples of one decoded packet into the next
    /// frame, numbered by the count of frames so far, which then advances.
    /// An empty packet gives no frame (read on); a count that is not a
    /// multiple of the channel count fails with `BufferError`.
    pub fn on_decoded<S>(&mut self, samples: Vec<S>) -> (r: Result<Option<AudioFrame<S>>, AudioError>)
        requires
            old(self).spec_sample_rate() > 0,
            old(self).spec_frame_count() < u64::MAX,
        ensures
            final(self).spec_track_id() == old(self).spec_track_id(),
            final(self).spec_sample_rate() == old(self).spec_sample_rate(),
            final(self).spec_channels() == old(self).spec_channels(),
            final(self).spec_finished() == old(self).spec_finished(),
            samples@.len() == 0 ==> r == Ok::<Option<AudioFrame<S>>, AudioError>(None)
                && final(self).spec_frame_count() == old(self).spec_frame_count(),
            samples@.len() > 0 && samples@.len() % (old(self).spec_channels().spec_count() as nat) != 0
                ==> (r matches Err(AudioError::BufferError(_)))
                && final(self).spec_frame_count() == old(self).spec_frame_count(),
            samples@.len() > 0 && samples@.len() % (old(self).spec_channels().spec_count() as nat) == 0 ==> {
                &&& r matches Ok(Some(f))
                &&& f.spec_samples() == samples@
                &&& f.spec_sample_rate() == old(self).spec_sample_rate()
                &&& f.spec_channels() == old(self).spec_channels()
                &&& f.spec_frame_number() == old(self).spec_frame_count()
                &&& final(self).spec_frame_count() == old(self).spec_frame_count() + 1
            },
    {
        if samples.len() == 0 {
            return Ok(None);
        }
        match AudioFrame::new(samples, self.sample_rate, self.channels, self.frame_count) {
            Ok(frame) => {
                self.frame_count = self.frame_count + 1;
                Ok(Some(frame))
            },
            Err(e) => Err(e),
        }
    }
}

/// Admission rules of a frame sink bound to one rate and one layout, which
/// refuses every frame once finalized.
#[derive(Debug, Clone, Copy, PartialEq, Eq)]
pub struct EncoderState {
    sample_rate: u32,
    channels: Channels,
    finalized: bool,
}

impl EncoderState {
    /// Rate the sink accepts.
    pub closed spec fn spec_sample_rate(&self) -> u32 {
        self.sample_rate
    }

    /// Layout the sink accepts.
    pub closed spec fn spec_channels(&self) -> Channels {
        self.channels
    }

    /// Whether the sink has been closed.
    pub closed spec fn spec_finalized(&self) -> bool {
        self.finalized
    }

    /// An open sink for frames at `sample_rate` Hz in layout `channels`.
    pub fn new(sample_rate: u32, channels: Channels) -> (r: EncoderState)
        ensures
            r.spec_sample_rate() == sample_rate,
            r.spec_channels() == channels,
            !r.spec_finalized(),
    {
        EncoderState { sample_rate, channels, finalized: false }
    }

    /// Rate the sink accepts.
    pub fn sample_rate(&self) -> (r: u32)
        ensures
            r == self.spec_sample_rate(),
    {
        self.sample_rate
    }

    /// Layout the sink accepts.
    pub fn channels(&self) -> (r: Channels)
        ensures
            r == self.spec_channels(),
    {
        self.channels
    }

    /// Whether the sink has been closed.
    pub fn is_finalized(&self) -> (r: bool)
        ensures
            r == self.spec_finalized(),
    {
        self.finalized
    }

    /// Whether a frame may be written: a frame at another rate fails with
    /// `InvalidSampleRate`, then one of another layout with
    /// `InvalidChannels`, then any frame after finalization with
    /// `ProcessingError`.
    pub fn check_frame<S>(&self, frame: &AudioFrame<S>) -> (r: Result<(), AudioError>)
        ensures
            frame.spec_sample_rate() != self.spec_sample_rate() ==> r == Err::<(), AudioError>(
                AudioError::InvalidSampleRate { rate: frame.spec_sample_rate() }),
            frame.spec_sample_rate() == self.spec_sample_rate() && frame.spec_channels() != self.spec_channels()
                ==> r == Err::<(), AudioError>(AudioError::InvalidChannels {
                    expected: self.spec_channels().spec_count(),
                    got: frame.spec_channels().spec_count(),
                }),
            frame.spec_sample_rate() == self.spec_sample_rate() && frame.spec_channels() == self.spec_channels()
                ==> (self.spec_finalized() ==> (r matches Err(AudioError::ProcessingError(_))))
                && (!self.spec_finalized() ==> r == Ok::<(), AudioError>(())),
    {
        let rate = frame.sample_rate();
        if rate != self.sample_rate {
            return Err(AudioError::InvalidSampleRate { rate });
        }
        let layout = frame.channels();
        if layout != self.channels {
            return Err(AudioError::InvalidChannels { expected: self.channels.count(), got: layout.count() });
        }
        if self.finalized {
            return Err(AudioError::ProcessingError("Encoder already finalized".to_owned()));
        }
        Ok(())
    }

    /// Closes the sink; returns whether it was open, that is whether the
    /// output still has to be finished. A second call returns `false`.
    pub fn finalize(&mut self) -> (r: bool)
        ensures
            r == !old(self).spec_finalized(),
            final(self).spec_finalized(),
            final(self).spec_sample_rate() == old(self).spec_sample_rate(),
            final(self).spec_channels() == old(self).spec_channels(),
    {
        let was_open = !self.finalized;
        self.finalized = true;
        was_open
    }
}

} // verus!
