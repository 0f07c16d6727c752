use vstd::prelude::*;
use crate::error::AudioError;
use crate::frame::AudioFrame;
use crate::layout::Channels;

verus! {

/// Number of outputs when `n` samples at `in_rate` are converted to
/// `out_rate`: `ceil(n / ratio)` with `ratio = in_rate / out_rate`.
pub open spec fn resampled_len(n: int, in_rate: int, out_rate: int) -> int {
    (n * out_rate + in_rate - 1) / in_rate
}

/// Input position of output `i`, `i * ratio`, rounded down.
pub open spec fn source_index(i: int, in_rate: int, out_rate: int) -> int {
    (i * in_rate) / out_rate
}

/// Fractional part of the input position of output `i`, in units of
/// `1 / out_rate`.
pub open spec fn source_offset(i: int, in_rate: int, out_rate: int) -> int {
    (i * in_rate) % out_rate
}

/// `y` is output `i` of the linear interpolation of `input`: the blend of
/// the two samples around the input position, by the fraction
/// `source_offset / out_rate`, or the last sample itself when no sample
/// follows it.
pub open spec fn interpolated_at<S, F: Fn(S, S, u32, u32) -> S>(
    input: Seq<S>,
    i: int,
    in_rate: int,
    out_rate: int,
    blend: F,
    y: S,
) -> bool {
    let idx = source_index(i, in_rate, out_rate);
    if idx + 1 < input.len() {
        blend.ensures(
            (input[idx], input[idx + 1], source_offset(i, in_rate, out_rate) as u32, out_rate as u32),
            y,
        )
    } else {
        y == input[idx]
    }
}

/// Every output index falls inside the input.
proof fn lemma_source_in_range(i: int, n: int, in_rate: int, out_rate: int)
    requires
        in_rate > 0,
        out_rate > 0,
        n >= 0,
        0 <= i < resampled_len(n, in_rate, out_rate),
    ensures
        0 <= source_index(i, in_rate, out_rate) < n,
        0 <= source_offset(i, in_rate, out_rate) < out_rate,
        i * in_rate < n * out_rate,
{
    let l = resampled_len(n, in_rate, out_rate);
    assert(l * in_rate <= n * out_rate + in_rate - 1) by (nonlinear_arith)
        requires l == (n * out_rate + in_rate - 1) / in_rate, in_rate > 0, n >= 0, out_rate > 0;
    assert(i * in_rate < n * out_rate) by (nonlinear_arith)
        requires i + 1 <= l, l * in_rate <= n * out_rate + in_rate - 1, in_rate > 0, i >= 0;
    assert(source_index(i, in_rate, out_rate) < n) by (nonlinear_arith)
        requires i * in_rate < n * out_rate, out_rate > 0, i >= 0, in_rate > 0,
            source_index(i, in_rate, out_rate) == (i * in_rate) / out_rate;
    assert(0 <= source_index(i, in_rate, out_rate)) by (nonlinear_arith)
        requires i >= 0, in_rate > 0, out_rate > 0,
            source_index(i, in_rate, out_rate) == (i * in_rate) / out_rate;
    assert(0 <= source_offset(i, in_rate, out_rate) < out_rate) by (nonlinear_arith)
        requires out_rate > 0, source_offset(i, in_rate, out_rate) == (i * in_rate) % out_rate;
}

/// Converts an empty input into an empty output, at any pair of rates.
pub proof fn lemma_empty_input_empty_output(in_rate: int, out_rate: int)
    requires
        in_rate > 0,
        out_rate > 0,
    ensures
        resampled_len(0, in_rate, out_rate) == 0,
{
    assert((0 * out_rate + in_rate - 1) / in_rate == 0) by (nonlinear_arith)
        requires in_rate > 0;
}

/// Linear-interpolation rate conversion of a buffer treated as one
/// one-dimensional signal: `ceil(n / ratio)` outputs, output `i` taken at
/// input position `i * ratio`. `blend(a, b, num, den)` combines two
/// neighbouring samples at fraction `num / den` (and clamps the result).
pub fn linear_resample<S: Copy, F: Fn(S, S, u32, u32) -> S>(
    input: &[S],
    input_rate: u32,
    output_rate: u32,
    blend: F,
) -> (r: Vec<S>)
    requires
        input_rate > 0,
        output_rate > 0,
        resampled_len(input@.len() as int, input_rate as int, output_rate as int) <= usize::MAX,
        forall|a: S, b: S, num: u32, den: u32| #[trigger] blend.requires((a, b, num, den)),
    ensures
        r@.len() == resampled_len(input@.len() as int, input_rate as int, output_rate as int),
        forall|i: int| 0 <= i < r@.len() ==>
            interpolated_at(input@, i, input_rate as int, output_rate as int, blend, #[trigger] r@[i]),
{
    let n: usize = input.len();
    let ghost ln = resampled_len(n as int, input_rate as int, output_rate as int);
    proof {
        assert((n as int) * (output_rate as int) + (input_rate as int) - 1 < 0x1_0000_0000_0000_0000_0000_0000_0000)
            by (nonlinear_arith)
            requires n <= 0xffff_ffff_ffff_ffff, output_rate <= 0xffff_ffff, input_rate <= 0xffff_ffff;
    }
    let span: u128 = (n as u128) * (output_rate as u128) + (input_rate as u128) - 1;
    let out_len: usize = (span / (input_rate as u128)) as usize;
    let mut out: Vec<S> = Vec::with_capacity(out_len);
    let mut i: usize = 0;
    while i < out_len
        invariant
            input_rate > 0,
            output_rate > 0,
            n == input@.len(),
            out_len == ln,
            ln == resampled_len(n as int, input_rate as int, output_rate as int),
            i <= out_len,
            out@.len() == i,
            forall|a: S, b: S, num: u32, den: u32| #[trigger] blend.requires((a, b, num, den)),
            forall|k: int| 0 <= k < out@.len() ==>
                interpolated_at(input@, k, input_rate as int, output_rate as int, blend, #[trigger] out@[k]),
        decreases out_len - i,
    {
        proof {
            lemma_source_in_range(i as int, n as int, input_rate as int, output_rate as int);
            assert((i as int) * (input_rate as int) <= 0xffff_ffff_ffff_ffff * 0xffff_ffff) by (nonlinear_arith)
                requires i <= 0xffff_ffff_ffff_ffff, input_rate <= 0xffff_ffff, i >= 0, input_rate >= 0;
        }
        let pos: u128 = (i as u128) * (input_rate as u128);
        let idx: usize = (pos / (output_rate as u128)) as usize;
        let num: u32 = (pos % (output_rate as u128)) as u32;
        let y: S = if idx + 1 < n {
            blend(input[idx], input[idx + 1], num, output_rate)
        } else {
            input[idx]
        };
        out.push(y);
        i = i + 1;
    }
    out
}

/// Number of outputs of `linear_resample` for `n` samples, when the rates
/// are positive and the count fits in a `usize`.
pub fn resampled_len_checked(n: usize, input_rate: u32, output_rate: u32) -> (r: Option<usize>)
    ensures
        (input_rate == 0 || output_rate == 0) ==> r == None::<usize>,
        input_rate > 0 && output_rate > 0 ==> {
            let len = resampled_len(n as int, input_rate as int, output_rate as int);
            &&& len <= usize::MAX ==> r == Some(len as usize)
            &&& len > usize::MAX ==> r == None::<usize>
        },
{
    if input_rate == 0 || output_rate == 0 {
        return None;
    }
    proof {
        assert((n as int) * (output_rate as int) + (input_rate as int) - 1 < 0x1_0000_0000_0000_0000_0000_0000_0000)
            by (nonlinear_arith)
            requires n <= 0xffff_ffff_ffff_ffff, output_rate <= 0xffff_ffff, input_rate <= 0xffff_ffff;
    }
    let span: u128 = (n as u128) * (output_rate as u128) + (input_rate as u128) - 1;
    let len: u128 = span / (input_rate as u128);
    if len <= (usize::MAX as u128) {
        Some(len as usize)
    } else {
        None
    }
}

/// Sample-rate converter from `input_rate` to `output_rate` for frames of
/// one channel layout.
#[derive(Debug, Clone, Copy, PartialEq, Eq)]
pub struct Resample {
    input_rate: u32,
    output_rate: u32,
    channels: Channels,
}

impl Resample {
    /// Rate of the frames accepted.
    pub closed spec fn spec_input_rate(&self) -> u32 {
        self.input_rate
    }

    /// Rate of the frames produced.
    pub closed spec fn spec_output_rate(&self) -> u32 {
        self.output_rate
    }

    /// Layout of the frames accepted and produced.
    pub closed spec fn spec_channels(&self) -> Channels {
        self.channels
    }

    /// A converter between two rates; either rate being 0 fails with
    /// `InvalidSampleRate { rate: 0 }`.
    pub fn new(input_rate: u32, output_rate: u32, channels: Channels) -> (r: Result<Resample, AudioError>)
        ensures
            (input_rate == 0 || output_rate == 0)
                ==> r == Err::<Resample, AudioError>(AudioError::InvalidSampleRate { rate: 0 }),
            (input_rate > 0 && output_rate > 0) ==> {
                &&& r is Ok
                &&& r->Ok_0.spec_input_rate() == input_rate
                &&& r->Ok_0.spec_output_rate() == output_rate
                &&& r->Ok_0.spec_channels() == channels
            },
    {
        if input_rate == 0 || output_rate == 0 {
            return Err(AudioError::InvalidSampleRate { rate: 0 });
        }
        Ok(Resample { input_rate, output_rate, channels })
    }

    /// Rate of the frames accepted.
    pub fn input_rate(&self) -> (r: u32)
        ensures
            r == self.spec_input_rate(),
    {
        self.input_rate
    }

    /// Rate of the frames produced.
    pub fn output_rate(&self) -> (r: u32)
        ensures
            r == self.spec_output_rate(),
    {
        self.output_rate
    }

    /// Layout of the frames accepted and produced.
    pub fn channels(&self) -> (r: Channels)
        ensures
            r == self.spec_channels(),
    {
        self.channels
    }

    /// Converts one frame. A frame of another layout fails with
    /// `InvalidChannels`, one at another rate with `InvalidSampleRate`.
    /// Equal rates hand back a copy of the frame; otherwise the samples are
    /// interpolated by `linear_resample` into a frame at the output rate with
    /// the same number, which fails with `BufferError` when the output count
    /// is not a multiple of the channel count.
    pub fn process<S: Copy, F: Fn(S, S, u32, u32) -> S>(&self, frame: &AudioFrame<S>, blend: F) -> (r: Result<AudioFrame<S>, AudioError>)
        requires
            self.spec_input_rate() > 0,
            self.spec_output_rate() > 0,
            resampled_len(frame.spec_samples().len() as int, self.spec_input_rate() as int, self.spec_output_rate() as int) <= usize::MAX,
            forall|a: S, b: S, num: u32, den: u32| #[trigger] blend.requires((a, b, num, den)),
        ensures
            frame.spec_channels() != self.spec_channels() ==> r == Err::<AudioFrame<S>, AudioError>(
                AudioError::InvalidChannels {
                    expected: self.spec_channels().spec_count(),
                    got: frame.spec_channels().spec_count(),
                }),
            frame.spec_channels() == self.spec_channels() && frame.spec_sample_rate() != self.spec_input_rate()
                ==> r == Err::<AudioFrame<S>, AudioError>(
                AudioError::InvalidSampleRate { rate: frame.spec_sample_rate() }),
            frame.spec_channels() == self.spec_channels() && frame.spec_sample_rate() == self.spec_input_rate()
                && self.spec_input_rate() == self.spec_output_rate() ==> {
                &&& r is Ok
                &&& r->Ok_0.spec_samples() == frame.spec_samples()
                &&& r->Ok_0.spec_sample_rate() == frame.spec_sample_rate()
                &&& r->Ok_0.spec_channels() == frame.spec_channels()
                &&& r->Ok_0.spec_frame_number() == frame.spec_frame_number()
                &&& r->Ok_0.spec_timestamp() == frame.spec_timestamp()
            },
            frame.spec_channels() == self.spec_channels() && frame.spec_sample_rate() == self.spec_input_rate()
                && self.spec_input_rate() != self.spec_output_rate() ==> {
                let n = frame.spec_samples().len() as int;
                let len = resampled_len(n, self.spec_input_rate() as int, self.spec_output_rate() as int);
                &&& len % (self.spec_channels().spec_count() as int) != 0
                    ==> (r matches Err(AudioError::BufferError(_)))
                &&& len % (self.spec_channels().spec_count() as int) == 0 ==> {
                    &&& r is Ok
                    &&& r->Ok_0.spec_samples().len() == len
                    &&& forall|i: int| 0 <= i < len ==> interpolated_at(
                        frame.spec_samples(),
                        i,
                        self.spec_input_rate() as int,
                        self.spec_output_rate() as int,
                        blend,
                        #[trigger] r->Ok_0.spec_samples()[i],
                    )
                    &&& r->Ok_0.spec_sample_rate() == self.spec_output_rate()
                    &&& r->Ok_0.spec_channels() == self.spec_channels()
                    &&& r->Ok_0.spec_frame_number() == frame.spec_frame_number()
                }
            },
    {
        let layout = frame.channels();
        if layout != self.channels {
            return Err(AudioError::InvalidChannels { expected: self.channels.count(), got: layout.count() });
        }
        let rate = frame.sample_rate();
        if rate != self.input_rate {
            return Err(AudioError::InvalidSampleRate { rate });
        }
        if self.input_rate == self.output_rate {
            return Ok(frame.duplicate());
        }
        let resampled = linear_resample(frame.samples(), self.input_rate, self.output_rate, blend);
        AudioFrame::new(resampled, self.output_rate, self.channels, frame.frame_number())
    }
}

} // verus!
