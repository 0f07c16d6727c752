use vstd::prelude::*;
use crate::error::AudioError;
use crate::frame::AudioFrame;
use crate::layout::Channels;
use crate::time::TimeSpan;

verus! {

/// Samples per channel in one segment of `nanos` nanoseconds at `rate` Hz:
/// the exact product of duration and rate, rounded up.
pub open spec fn segment_len(nanos: int, rate: int) -> int {
    (nanos * rate + 999_999_999) / 1_000_000_000
}

/// Number of windows of `len` samples needed to cover `frames` samples.
pub open spec fn segment_count(frames: int, len: int) -> int
    recommends
        len > 0,
{
    (frames + len - 1) / len
}

/// First sample (per channel) of window `j`.
pub open spec fn window_start(j: int, len: int) -> int {
    j * len
}

/// One past the last sample (per channel) of window `j`.
pub open spec fn window_end(j: int, len: int, frames: int) -> int {
    if (j + 1) * len < frames {
        (j + 1) * len
    } else {
        frames
    }
}

/// The samples of window `[start, end)` of an interleaved buffer with
/// `channels` channels, laid out channel after channel (planar).
pub open spec fn planar_window<S>(samples: Seq<S>, channels: int, start: int, end: int) -> Seq<S> {
    Seq::new(
        (channels * (end - start)) as nat,
        |k: int| samples[(start + k % (end - start)) * channels + k / (end - start)],
    )
}

/// Slices a continuous stream into frames of a fixed duration.
///
/// Segments are numbered by a counter that runs on across calls; each
/// segment's samples are laid out planar (all of channel 0, then all of
/// channel 1, ...).
#[derive(Debug, Clone)]
pub struct Segment {
    duration: TimeSpan,
    sample_rate: u32,
    segment_index: u32,
}

impl Segment {
    /// Duration of one segment.
    pub closed spec fn spec_duration(&self) -> TimeSpan {
        self.duration
    }

    /// Sample rate the segmenter accepts.
    pub closed spec fn spec_sample_rate(&self) -> u32 {
        self.sample_rate
    }

    /// Number given to the next segment.
    pub closed spec fn spec_segment_index(&self) -> u32 {
        self.segment_index
    }

    /// Samples per channel in one segment, saturated at the largest `usize`.
    pub open spec fn spec_samples_per_segment(&self) -> int {
        let n = segment_len(self.spec_duration().total_nanos(), self.spec_sample_rate() as int);
        if n <= usize::MAX {
            n
        } else {
            usize::MAX as int
        }
    }

    /// A segmenter for `duration`-long segments of audio at `sample_rate`
    /// Hz, numbering from 0; a zero rate fails with `InvalidSampleRate`.
    pub fn new(duration: TimeSpan, sample_rate: u32) -> (r: Result<Segment, AudioError>)
        ensures
            sample_rate == 0 ==> r == Err::<Segment, AudioError>(AudioError::InvalidSampleRate { rate: 0 }),
            sample_rate > 0 ==> {
                &&& r is Ok
                &&& r->Ok_0.spec_duration() == duration
                &&& r->Ok_0.spec_sample_rate() == sample_rate
                &&& r->Ok_0.spec_segment_index() == 0
            },
    {
        if sample_rate == 0 {
            return Err(AudioError::InvalidSampleRate { rate: 0 });
        }
        Ok(Segment { duration, sample_rate, segment_index: 0 })
    }

    /// Samples per channel in one segment: `ceil(duration * sample_rate)`,
    /// saturated at the largest `usize`.
    pub fn samples_per_segment(&self) -> (r: usize)
        ensures
            r == self.spec_samples_per_segment(),
    {
        let secs = self.duration.as_secs();
        let nanos = self.duration.subsec_nanos();
        let total: u128 = (secs as u128) * 1_000_000_000u128 + (nanos as u128);
        proof {
            assert(total * (self.sample_rate as u128) + 999_999_999 < 0x1_0000_0000_0000_0000_0000_0000_0000_0000)
                by (nonlinear_arith)
                requires
                    total == secs * 1_000_000_000 + nanos,
                    secs <= 0xffff_ffff_ffff_ffff,
                    nanos < 1_000_000_000,
                    self.sample_rate <= 0xffff_ffff;
        }
        let product: u128 = total * (self.sample_rate as u128);
        let n: u128 = (product + 999_999_999u128) / 1_000_000_000u128;
        if n <= (usize::MAX as u128) {
            n as usize
        } else {
            usize::MAX
        }
    }

    /// Splits one frame into segments of `samples_per_segment` samples per
    /// channel (the last one may be shorter), numbered on from the current
    /// counter, which advances by the number of segments. A frame at another
    /// rate fails with `InvalidSampleRate` and leaves the counter unchanged.
    pub fn split_frame<S: Copy>(&mut self, frame: &AudioFrame<S>) -> (r: Result<Vec<AudioFrame<S>>, AudioError>)
        requires
            old(self).spec_samples_per_segment() > 0,
            old(self).spec_segment_index() + segment_count(
                frame.spec_samples_per_channel(),
                old(self).spec_samples_per_segment(),
            ) <= u32::MAX,
        ensures
            final(self).spec_duration() == old(self).spec_duration(),
            final(self).spec_sample_rate() == old(self).spec_sample_rate(),
            frame.spec_sample_rate() != old(self).spec_sample_rate() ==> {
                &&& r == Err::<Vec<AudioFrame<S>>, AudioError>(
                    AudioError::InvalidSampleRate { rate: frame.spec_sample_rate() })
                &&& final(self).spec_segment_index() == old(self).spec_segment_index()
            },
            frame.spec_sample_rate() == old(self).spec_sample_rate() ==> {
                let len = old(self).spec_samples_per_segment();
                let frames = frame.spec_samples_per_channel();
                let count = segment_count(frames, len);
                &&& r is Ok
                &&& r->Ok_0@.len() == count
                &&& final(self).spec_segment_index() == old(self).spec_segment_index() + count
                &&& forall|j: int| 0 <= j < count ==> {
                    let seg = #[trigger] r->Ok_0@[j];
                    &&& seg.spec_sample_rate() == frame.spec_sample_rate()
                    &&& seg.spec_channels() == frame.spec_channels()
                    &&& seg.spec_frame_number() == old(self).spec_segment_index() + j
                    &&& seg.spec_samples() == planar_window(
                        frame.spec_samples(),
                        frame.spec_channels().spec_count() as int,
                        window_start(j, len),
                        window_end(j, len, frames),
                    )
                }
            },
    {
        let rate = frame.sample_rate();
        if rate != self.sample_rate {
            return Err(AudioError::InvalidSampleRate { rate });
        }
        let len = self.samples_per_segment();
        let channels: Channels = frame.channels();
        let c: usize = channels.count() as usize;
        let input = frame.samples();
        let frames = frame.samples_per_channel();
        let total: usize = input.len();
        let ghost count = segment_count(frames as int, len as int);
        let ghost first = self.segment_index as int;
        let mut segments: Vec<AudioFrame<S>> = Vec::new();
        let mut start: usize = 0;
        proof {
            if frames == 0 {
                assert(count == 0) by (nonlinear_arith)
                    requires count == segment_count(frames as int, len as int), frames == 0, len > 0;
            } else {
                assert(count > 0) by (nonlinear_arith)
                    requires count == segment_count(frames as int, len as int), frames > 0, len > 0;
            }
            assert(segments@.len() == 0);
            assert(start == segments@.len() * len) by (nonlinear_arith)
                requires start == 0, segments@.len() == 0;
        }
        while start < frames
            invariant
                len == old(self).spec_samples_per_segment(),
                len > 0,
                c == channels.spec_count(),
                input@ == frame.spec_samples(),
                input@.len() == total,
                channels == frame.spec_channels(),
                rate == frame.spec_sample_rate(),
                rate > 0,
                frames == frame.spec_samples_per_channel(),
                frames * c == input@.len(),
                count == segment_count(frames as int, len as int),
                first == old(self).spec_segment_index(),
                first + count <= u32::MAX,
                start <= frames,
                start < frames ==> start == segments@.len() * len && segments@.len() < count,
                start == frames ==> segments@.len() == count,
                self.duration == old(self).spec_duration(),
                self.sample_rate == old(self).spec_sample_rate(),
                self.segment_index == first + segments@.len(),
                forall|j: int| 0 <= j < segments@.len() ==> {
                    let seg = #[trigger] segments@[j];
                    &&& seg.spec_sample_rate() == rate
                    &&& seg.spec_channels() == channels
                    &&& seg.spec_frame_number() == first + j
                    &&& seg.spec_samples() == planar_window(
                        input@,
                        c as int,
                        window_start(j, len as int),
                        window_end(j, len as int, frames as int),
                    )
                },
            decreases frames - start,
        {
            let end: usize = if frames - start <= len { frames } else { start + len };
            let ghost j = segments@.len() as int;
            proof {
                lemma_window_step(j, len as int, frames as int, start as int, end as int, count);
            }
            let samples = gather_window(input, c, start, end);
            proof {
                let w = (end - start) as int;
                assert((c * w) % (c as int) == 0) by (nonlinear_arith) requires c > 0, w > 0;
            }
            let seg = AudioFrame::assemble(samples, rate, channels, self.segment_index as u64);
            segments.push(seg);
            self.segment_index = self.segment_index + 1;
            start = end;
        }
        Ok(segments)
    }

    /// Whether `split_frame` may be called on `frame`: segments are not
    /// empty and the counter will not overflow.
    pub fn can_split<S>(&self, frame: &AudioFrame<S>) -> (r: bool)
        ensures
            r == (self.spec_samples_per_segment() > 0 && self.spec_segment_index() + segment_count(
                frame.spec_samples_per_channel(),
                self.spec_samples_per_segment(),
            ) <= u32::MAX),
    {
        let len = self.samples_per_segment();
        if len == 0 {
            return false;
        }
        let frames = frame.samples_per_channel();
        let count: u128 = ((frames as u128) + (len as u128) - 1) / (len as u128);
        (self.segment_index as u128) + count <= (u32::MAX as u128)
    }

    /// Number that the next segment will carry.
    pub fn segment_index(&self) -> (r: u32)
        ensures
            r == self.spec_segment_index(),
    {
        self.segment_index
    }

    /// Sets the segment counter back to 0.
    pub fn reset(&mut self)
        ensures
            final(self).spec_segment_index() == 0,
            final(self).spec_duration() == old(self).spec_duration(),
            final(self).spec_sample_rate() == old(self).spec_sample_rate(),
    {
        self.segment_index = 0;
    }
}

/// Window `j` starting at `start < frames` ends at `end`, and the walk has
/// covered every window exactly when `end` reaches `frames`.
proof fn lemma_window_step(j: int, len: int, frames: int, start: int, end: int, count: int)
    requires
        len > 0,
        0 <= j,
        start == j * len,
        start < frames,
        count == segment_count(frames, len),
        end == if frames - start <= len { frames } else { start + len },
    ensures
        start == window_start(j, len),
        end == window_end(j, len, frames),
        start < end,
        j < count,
        end < frames ==> end == (j + 1) * len && j + 1 < count,
        end == frames ==> j + 1 == count,
{
    assert((j + 1) * len == start + len) by (nonlinear_arith) requires start == j * len;
    if end == frames {
        assert(frames <= (j + 1) * len);
        assert(j * len < frames);
        let q = j + 1;
        let r = frames + len - 1 - j * len - len;
        assert(0 <= r < len);
        assert(frames + len - 1 == q * len + r) by (nonlinear_arith)
            requires r == frames + len - 1 - j * len - len, q == j + 1;
        vstd::arithmetic::div_mod::lemma_fundamental_div_mod_converse(frames + len - 1, len, q, r);
    } else {
        assert((j + 2) * len <= frames + len - 1 + 1) by (nonlinear_arith)
            requires (j + 1) * len < frames;
        assert((j + 2) * len <= frames + len - 1) by (nonlinear_arith)
            requires (j + 1) * len < frames, len > 0;
        vstd::arithmetic::div_mod::lemma_div_is_ordered((j + 2) * len, frames + len - 1, len);
        vstd::arithmetic::div_mod::lemma_div_by_multiple(j + 2, len);
    }
}

/// The samples of window `[start, end)` of `input`, channel after channel.
fn gather_window<S: Copy>(input: &[S], c: usize, start: usize, end: usize) -> (r: Vec<S>)
    requires
        c > 0,
        start < end,
        end * c <= input@.len(),
        input@.len() <= usize::MAX,
    ensures
        r@ == planar_window(input@, c as int, start as int, end as int),
        r@.len() == c * (end - start),
{
    let ghost w = (end - start) as int;
    let mut out: Vec<S> = Vec::new();
    let mut ch: usize = 0;
    while ch < c
        invariant
            c > 0,
            start < end,
            end * c <= input@.len(),
            input@.len() <= usize::MAX,
            w == end - start,
            ch <= c,
            out@.len() == ch * w,
            forall|k: int| 0 <= k < out@.len() ==>
                #[trigger] out@[k] == input@[(start + k % w) * c + k / w],
        decreases c - ch,
    {
        let mut t: usize = start;
        while t < end
            invariant
                c > 0,
                start <= t <= end,
                end * c <= input@.len(),
                input@.len() <= usize::MAX,
                w == end - start,
                ch < c,
                out@.len() == ch * w + (t - start),
                forall|k: int| 0 <= k < out@.len() ==>
                    #[trigger] out@[k] == input@[(start + k % w) * c + k / w],
            decreases end - t,
        {
            proof {
                assert(t * c + ch < end * c) by (nonlinear_arith) requires t < end, ch < c;
                let k = ch * w + (t - start);
                vstd::arithmetic::div_mod::lemma_fundamental_div_mod_converse(k, w, ch as int, (t - start) as int);
            }
            out.push(input[t * c + ch]);
            t = t + 1;
        }
        proof {
            assert(out@.len() == (ch + 1) * w) by (nonlinear_arith)
                requires out@.len() == ch * w + (end - start), w == end - start;
        }
        ch = ch + 1;
    }
    proof {
        assert(out@ =~= planar_window(input@, c as int, start as int, end as int));
    }
    out
}

/// A non-empty input shorter than one segment is covered by exactly one
/// segment, which holds all of it.
pub proof fn lemma_short_input_single_segment(frames: int, len: int)
    requires
        0 < frames < len,
    ensures
        segment_count(frames, len) == 1,
        window_start(0, len) == 0,
        window_end(0, len, frames) == frames,
{
    vstd::arithmetic::div_mod::lemma_fundamental_div_mod_converse(frames + len - 1, len, 1, frames - 1);
}

/// An input of exactly `k` segments' length is covered by exactly `k`
/// segments, each of the full segment length.
pub proof fn lemma_exact_multiple_segments(k: int, len: int)
    requires
        k >= 0,
        len > 0,
    ensures
        segment_count(k * len, len) == k,
        forall|j: int| 0 <= j < k ==>
            #[trigger] window_end(j, len, k * len) - window_start(j, len) == len,
{
    assert(k * len + len - 1 == k * len + (len - 1)) by (nonlinear_arith);
    vstd::arithmetic::div_mod::lemma_fundamental_div_mod_converse(k * len + len - 1, len, k, len - 1);
    assert forall|j: int| 0 <= j < k implies
        #[trigger] window_end(j, len, k * len) - window_start(j, len) == len by {
        assert((j + 1) * len <= k * len) by (nonlinear_arith) requires j + 1 <= k, len > 0;
        assert((j + 1) * len == j * len + len) by (nonlinear_arith);
    }
}

} // verus!
