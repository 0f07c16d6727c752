use vstd::prelude::*;
use vstd::string::StringExecFns;
use crate::error::AudioError;
use crate::frame::{copy_samples, AudioFrame};
use crate::layout::Channels;

verus! {

/// Each sample of a mono buffer, written twice: `L[k] = R[k] = M[k]`.
pub open spec fn duplicated<S>(mono: Seq<S>) -> Seq<S> {
    Seq::new(2 * mono.len(), |k: int| mono[k / 2])
}

/// `out` holds, for each complete pair `k` of `input` taken with a stride of
/// `stride` samples, `mix` of the samples at offsets `first` and `second`;
/// an incomplete trailing group is dropped.
pub open spec fn mixed_groups<S, F: Fn(S, S) -> S>(
    input: Seq<S>,
    stride: int,
    first: int,
    second: int,
    mix: F,
    out: Seq<S>,
) -> bool {
    &&& out.len() == (input.len() as int) / stride
    &&& forall|k: int| 0 <= k < out.len() ==>
        mix.ensures((input[k * stride + first], input[k * stride + second]), #[trigger] out[k])
}

/// Whether a conversion between two layouts is defined.
pub open spec fn remix_supported(from: Channels, to: Channels) -> bool {
    ||| from == to
    ||| (from == Channels::Stereo && to == Channels::Mono)
    ||| (from == Channels::Mono && to == Channels::Stereo)
    ||| (from == Channels::Quad && to == Channels::Stereo)
}

/// Message carried by the error for an undefined conversion.
pub open spec fn unsupported_message(from: Channels, to: Channels) -> Seq<char> {
    "Remix from "@ + from.spec_name() + " to "@ + to.spec_name() + " not supported"@
}

/// `out` is the remix of `input` from one layout to the other.
pub open spec fn remixed<S, F: Fn(S, S) -> S>(from: Channels, to: Channels, input: Seq<S>, mix: F, out: Seq<S>) -> bool {
    if from == to {
        out == input
    } else if from == Channels::Stereo && to == Channels::Mono {
        mixed_groups(input, 2, 0, 1, mix, out)
    } else if from == Channels::Mono && to == Channels::Stereo {
        out == duplicated(input)
    } else {
        &&& out.len() == 2 * (input.len() / 4)
        &&& forall|k: int| 0 <= k < input.len() / 4 ==> {
            &&& mix.ensures((input[4 * k], input[4 * k + 2]), #[trigger] out[2 * k])
            &&& mix.ensures((input[4 * k + 1], input[4 * k + 3]), out[2 * k + 1])
        }
    }
}

/// Channel layout converter by fixed downmix and upmix rules.
#[derive(Debug, Clone, Copy, PartialEq, Eq)]
pub struct Remix {
    input_channels: Channels,
    output_channels: Channels,
}

impl Remix {
    /// Layout of the frames accepted.
    pub closed spec fn spec_input_channels(&self) -> Channels {
        self.input_channels
    }

    /// Layout of the frames produced.
    pub closed spec fn spec_output_channels(&self) -> Channels {
        self.output_channels
    }

    /// A converter from one layout to another; whether the pair is
    /// supported is decided per frame.
    pub fn new(input_channels: Channels, output_channels: Channels) -> (r: Result<Remix, AudioError>)
        ensures
            r is Ok,
            r->Ok_0.spec_input_channels() == input_channels,
            r->Ok_0.spec_output_channels() == output_channels,
    {
        Ok(Remix { input_channels, output_channels })
    }

    /// Stereo to mono: `(L[k] + R[k]) / 2` by way of `mix`; a trailing
    /// unpaired sample is dropped.
    pub fn stereo_to_mono<S: Copy, F: Fn(S, S) -> S>(input: &[S], mix: F) -> (r: Vec<S>)
        requires
            forall|a: S, b: S| #[trigger] mix.requires((a, b)),
        ensures
            mixed_groups(input@, 2, 0, 1, mix, r@),
    {
        mix_groups(input, 2, 0, 1, mix)
    }

    /// Mono to stereo: each sample feeds both channels.
    pub fn mono_to_stereo<S: Copy>(input: &[S]) -> (r: Vec<S>)
        requires
            2 * input@.len() <= usize::MAX,
        ensures
            r@ == duplicated(input@),
    {
        let mut out: Vec<S> = Vec::new();
        let mut i: usize = 0;
        while i < input.len()
            invariant
                i <= input@.len(),
                out@ =~= duplicated(input@.subrange(0, i as int)),
            decreases input@.len() - i,
        {
            out.push(input[i]);
            out.push(input[i]);
            i = i + 1;
            proof {
                assert(out@ =~= duplicated(input@.subrange(0, i as int)));
            }
        }
        proof {
            assert(input@.subrange(0, input@.len() as int) =~= input@);
        }
        out
    }

    /// Left channel of a stereo buffer.
    pub fn stereo_left<S: Copy>(input: &[S]) -> (r: Vec<S>)
        ensures
            r@.len() == (input@.len() + 1) / 2,
            forall|k: int| 0 <= k < r@.len() ==> #[trigger] r@[k] == input@[2 * k],
    {
        let mut out: Vec<S> = Vec::new();
        let mut i: usize = 0;
        while i < input.len()
            invariant
                i <= input@.len() + 1,
                i % 2 == 0,
                out@.len() == i / 2,
                i < input@.len() || i == input@.len() || i == input@.len() + 1,
                forall|k: int| 0 <= k < out@.len() ==> #[trigger] out@[k] == input@[2 * k],
            decreases input@.len() + 1 - i,
        {
            out.push(input[i]);
            if input.len() - i >= 2 {
                i = i + 2;
            } else {
                i = i + 1;
                proof { assert(out@.len() == (input@.len() + 1) / 2); }
                return out;
            }
        }
        out
    }

    /// Right channel of a stereo buffer; a trailing unpaired sample is
    /// dropped.
    pub fn stereo_right<S: Copy>(input: &[S]) -> (r: Vec<S>)
        ensures
            r@.len() == input@.len() / 2,
            forall|k: int| 0 <= k < r@.len() ==> #[trigger] r@[k] == input@[2 * k + 1],
    {
        let mut out: Vec<S> = Vec::new();
        let mut k: usize = 0;
        let total: usize = input.len();
        let pairs: usize = total / 2;
        while k < pairs
            invariant
                total == input@.len(),
                pairs == input@.len() / 2,
                k <= pairs,
                out@.len() == k,
                forall|j: int| 0 <= j < out@.len() ==> #[trigger] out@[j] == input@[2 * j + 1],
            decreases pairs - k,
        {
            out.push(input[2 * k + 1]);
            k = k + 1;
        }
        out
    }

    /// Converts one frame to the output layout. A frame of another layout
    /// fails with `InvalidChannels`; a pair of layouts outside
    /// `remix_supported` fails with `ProcessingError` naming both. The result
    /// keeps the rate and the frame number.
    pub fn process<S: Copy, F: Fn(S, S) -> S>(&self, frame: &AudioFrame<S>, mix: F) -> (r: Result<AudioFrame<S>, AudioError>)
        requires
            forall|a: S, b: S| #[trigger] mix.requires((a, b)),
            2 * frame.spec_samples().len() <= usize::MAX,
        ensures
            frame.spec_channels() != self.spec_input_channels() ==> r == Err::<AudioFrame<S>, AudioError>(
                AudioError::InvalidChannels {
                    expected: self.spec_input_channels().spec_count(),
                    got: frame.spec_channels().spec_count(),
                }),
            frame.spec_channels() == self.spec_input_channels()
                && !remix_supported(self.spec_input_channels(), self.spec_output_channels())
                ==> (r matches Err(AudioError::ProcessingError(m))
                    && m@ == unsupported_message(self.spec_input_channels(), self.spec_output_channels())),
            frame.spec_channels() == self.spec_input_channels()
                && remix_supported(self.spec_input_channels(), self.spec_output_channels()) ==> {
                &&& r is Ok
                &&& remixed(
                    self.spec_input_channels(),
                    self.spec_output_channels(),
                    frame.spec_samples(),
                    mix,
                    r->Ok_0.spec_samples(),
                )
                &&& r->Ok_0.spec_channels() == self.spec_output_channels()
                &&& r->Ok_0.spec_sample_rate() == frame.spec_sample_rate()
                &&& r->Ok_0.spec_frame_number() == frame.spec_frame_number()
            },
    {
        let layout = frame.channels();
        if layout != self.input_channels {
            return Err(AudioError::InvalidChannels { expected: self.input_channels.count(), got: layout.count() });
        }
        let input = frame.samples();
        let from = self.input_channels;
        let to = self.output_channels;
        let out: Vec<S> = if from == to {
            copy_samples(input)
        } else if from == Channels::Stereo && to == Channels::Mono {
            Self::stereo_to_mono(input, mix)
        } else if from == Channels::Mono && to == Channels::Stereo {
            Self::mono_to_stereo(input)
        } else if from == Channels::Quad && to == Channels::Stereo {
            mix_quad_to_stereo(input, mix)
        } else {
            let mut message = "Remix from ".to_owned();
            message.append(from.name());
            message.append(" to ");
            message.append(to.name());
            message.append(" not supported");
            return Err(AudioError::ProcessingError(message));
        };
        proof {
            let c = to.spec_count() as int;
            let n = input@.len() as int;
            if from == to {
                assert((out@.len() as int) % c == 0);
            } else if from == Channels::Stereo && to == Channels::Mono {
                assert(out@.len() % 1 == 0);
            } else if from == Channels::Mono && to == Channels::Stereo {
                assert(out@.len() == 2 * n);
                assert((2 * n) % 2 == 0) by (nonlinear_arith) requires n >= 0;
            } else {
                assert(out@.len() == 2 * (n / 4));
                assert((2 * (n / 4)) % 2 == 0) by (nonlinear_arith) requires n >= 0;
            }
        }
        Ok(AudioFrame::assemble(out, frame.sample_rate(), to, frame.frame_number()))
    }
}

/// For each complete group of `stride` samples, `mix` of the samples at
/// offsets `first` and `second` within it.
fn mix_groups<S: Copy, F: Fn(S, S) -> S>(input: &[S], stride: usize, first: usize, second: usize, mix: F) -> (r: Vec<S>)
    requires
        stride > 0,
        first < stride,
        second < stride,
        forall|a: S, b: S| #[trigger] mix.requires((a, b)),
    ensures
        mixed_groups(input@, stride as int, first as int, second as int, mix, r@),
{
    let total: usize = input.len();
    let groups: usize = total / stride;
    let mut out: Vec<S> = Vec::new();
    let mut k: usize = 0;
    while k < groups
        invariant
            total == input@.len(),
            stride > 0,
            first < stride,
            second < stride,
            groups == (input@.len() as int) / (stride as int),
            k <= groups,
            out@.len() == k,
            forall|a: S, b: S| #[trigger] mix.requires((a, b)),
            forall|j: int| 0 <= j < out@.len() ==>
                mix.ensures((input@[j * stride + first], input@[j * stride + second]), #[trigger] out@[j]),
        decreases groups - k,
    {
        proof {
            assert(k * stride + stride <= input@.len()) by (nonlinear_arith)
                requires k < groups, groups == (input@.len() as int) / (stride as int), stride > 0;
        }
        let y = mix(input[k * stride + first], input[k * stride + second]);
        out.push(y);
        k = k + 1;
    }
    out
}

/// Quad to stereo: `L[k] = (FL[k] + RL[k]) / 2`, `R[k] = (FR[k] + RR[k]) / 2`
/// by way of `mix`; an incomplete trailing group is dropped.
fn mix_quad_to_stereo<S: Copy, F: Fn(S, S) -> S>(input: &[S], mix: F) -> (r: Vec<S>)
    requires
        forall|a: S, b: S| #[trigger] mix.requires((a, b)),
    ensures
        r@.len() == 2 * (input@.len() / 4),
        forall|k: int| 0 <= k < input@.len() / 4 ==> {
            &&& mix.ensures((input@[4 * k], input@[4 * k + 2]), #[trigger] r@[2 * k])
            &&& mix.ensures((input@[4 * k + 1], input@[4 * k + 3]), r@[2 * k + 1])
        },
{
    let total: usize = input.len();
    let groups: usize = total / 4;
    let mut out: Vec<S> = Vec::new();
    let mut k: usize = 0;
    while k < groups
        invariant
            total == input@.len(),
            groups == total / 4,
            k <= groups,
            out@.len() == 2 * k,
            forall|a: S, b: S| #[trigger] mix.requires((a, b)),
            forall|j: int| 0 <= j < k ==> {
                &&& mix.ensures((input@[4 * j], input@[4 * j + 2]), #[trigger] out@[2 * j])
                &&& mix.ensures((input@[4 * j + 1], input@[4 * j + 3]), out@[2 * j + 1])
            },
        decreases groups - k,
    {
        let base: usize = 4 * k;
        let left = mix(input[base], input[base + 2]);
        let right = mix(input[base + 1], input[base + 3]);
        let ghost prev = out@;
        out.push(left);
        out.push(right);
        proof {
            assert forall|j: int| 0 <= j < k + 1 implies {
                &&& mix.ensures((input@[4 * j], input@[4 * j + 2]), #[trigger] out@[2 * j])
                &&& mix.ensures((input@[4 * j + 1], input@[4 * j + 3]), out@[2 * j + 1])
            } by {
                if j < k {
                    assert(out@[2 * j] == prev[2 * j]);
                    assert(out@[2 * j + 1] == prev[2 * j + 1]);
                }
            }
        }
        k = k + 1;
    }
    out
}

/// Mono to stereo and back to mono with a mix for which mixing a sample
/// with itself gives the sample back (as `(M + M) / 2 = M`) recovers the
/// mono samples exactly.
pub proof fn lemma_mono_stereo_mono_round_trip<S, F: Fn(S, S) -> S>(mono: Seq<S>, mix: F, back: Seq<S>)
    requires
        forall|x: S, y: S| #[trigger] mix.ensures((x, x), y) ==> y == x,
        mixed_groups(duplicated(mono), 2, 0, 1, mix, back),
    ensures
        back == mono,
{
    let stereo = duplicated(mono);
    assert(back.len() == mono.len());
    assert forall|k: int| 0 <= k < back.len() implies back[k] == mono[k] by {
        assert(stereo[k * 2 + 0] == mono[k]);
        assert(stereo[k * 2 + 1] == mono[k]);
        assert(mix.ensures((stereo[k * 2 + 0], stereo[k * 2 + 1]), back[k]));
    }
    assert(back =~= mono);
}

} // verus!
