use audio_pipeline::resample::linear_resample;
use audio_pipeline::{AudioError, AudioFrame, Channels, Remix, Resample};

fn average(a: f32, b: f32) -> f32 {
    (a + b) / 2.0
}

fn blend(a: f32, b: f32, num: u32, den: u32) -> f32 {
    let frac = num as f64 / den as f64;
    let sample = (a as f64 * (1.0 - frac) + b as f64 * frac) as f32;
    sample.clamp(-1.0, 1.0)
}

#[test]
fn test_resample_creation() {
    let resample = Resample::new(44100, 16000, Channels::Stereo);
    assert!(resample.is_ok());
    let r = resample.unwrap();
    assert_eq!(r.input_rate(), 44100);
    assert_eq!(r.output_rate(), 16000);
}

#[test]
fn test_resample_invalid_rate() {
    let resample = Resample::new(0, 16000, Channels::Stereo);
    assert!(resample.is_err());
}

#[test]
fn resampler_rejects_zero_rates_with_rate_zero() {
    assert_eq!(
        Resample::new(0, 16000, Channels::Stereo).unwrap_err(),
        AudioError::InvalidSampleRate { rate: 0 }
    );
    assert_eq!(
        Resample::new(44100, 0, Channels::Mono).unwrap_err(),
        AudioError::InvalidSampleRate { rate: 0 }
    );
}

#[test]
fn test_linear_resample() {
    let input = vec![0.0, 1.0, 0.5];
    let output = linear_resample(&input, 2, 1, blend);
    assert!(!output.is_empty());
}

#[test]
fn linear_resample_exact_values() {
    // Halving the rate keeps every other sample: ceil(3 / 2) = 2 outputs.
    assert_eq!(linear_resample(&[0.0f32, 1.0, 0.5], 2, 1, blend), vec![0.0, 0.5]);
    // Doubling the rate puts midpoints between samples; the last is copied.
    assert_eq!(
        linear_resample(&[0.0f32, 1.0], 1, 2, blend),
        vec![0.0, 0.5, 1.0, 1.0]
    );
    // A ratio of 3/2 gives ceil(4 * 2 / 3) = 3 outputs at 0, 1.5 and 3.
    assert_eq!(
        linear_resample(&[0.0f32, 0.2, 0.4, 0.6], 3, 2, blend),
        vec![0.0, 0.3, 0.6]
    );
}

#[test]
fn linear_resample_clamps_interpolated_values() {
    let out = linear_resample(&[3.0f32, 3.0, 3.0], 1, 2, blend);
    assert_eq!(out, vec![1.0, 1.0, 1.0, 1.0, 3.0, 3.0]);
}

#[test]
fn resample_of_empty_input_is_empty() {
    assert!(linear_resample(&[] as &[f32], 44100, 16000, blend).is_empty());
    let r = Resample::new(44100, 16000, Channels::Mono).unwrap();
    let frame = AudioFrame::<f32>::new(Vec::new(), 44100, Channels::Mono, 4).unwrap();
    let out = r.process(&frame, blend).unwrap();
    assert!(out.is_empty());
    assert_eq!(out.sample_rate(), 16000);
    assert_eq!(out.frame_number(), 4);
}

#[test]
fn resample_at_equal_rates_is_identity() {
    let r = Resample::new(48000, 48000, Channels::Stereo).unwrap();
    let samples = vec![0.1f32, -0.2, 0.3, -0.4, 0.9, 1.0];
    let frame = AudioFrame::new(samples.clone(), 48000, Channels::Stereo, 2).unwrap();
    let out = r.process(&frame, blend).unwrap();
    assert_eq!(out.samples(), samples.as_slice());
    assert_eq!(out.sample_rate(), 48000);
    assert_eq!(out.channels(), Channels::Stereo);
    assert_eq!(out.frame_number(), 2);
}

#[test]
fn resample_process_changes_rate() {
    let r = Resample::new(2, 1, Channels::Mono).unwrap();
    let frame = AudioFrame::new(vec![0.0f32, 1.0, 0.5, 0.25], 2, Channels::Mono, 6).unwrap();
    let out = r.process(&frame, blend).unwrap();
    assert_eq!(out.samples(), &[0.0, 0.5]);
    assert_eq!(out.sample_rate(), 1);
    assert_eq!(out.frame_number(), 6);
}

#[test]
fn resample_rejects_mismatched_frames() {
    let r = Resample::new(44100, 16000, Channels::Stereo).unwrap();
    let mono = AudioFrame::new(vec![0.0f32; 2], 44100, Channels::Mono, 0).unwrap();
    assert_eq!(
        r.process(&mono, blend).unwrap_err(),
        AudioError::InvalidChannels { expected: 2, got: 1 }
    );
    let wrong_rate = AudioFrame::new(vec![0.0f32; 2], 48000, Channels::Stereo, 0).unwrap();
    assert_eq!(
        r.process(&wrong_rate, blend).unwrap_err(),
        AudioError::InvalidSampleRate { rate: 48000 }
    );
}

#[test]
fn resample_with_odd_output_count_is_buffer_error() {
    // Three stereo pairs halved give ceil(6 / 2) = 3 samples: not whole pairs.
    let r = Resample::new(2, 1, Channels::Stereo).unwrap();
    let frame = AudioFrame::new(vec![0.0f32; 6], 2, Channels::Stereo, 0).unwrap();
    assert!(matches!(r.process(&frame, blend), Err(AudioError::BufferError(_))));
}

#[test]
fn test_remix_stereo_to_mono() {
    let input = vec![0.0, 1.0, 0.5, 0.5];
    let output = Remix::stereo_to_mono(&input, average);

    assert_eq!(output.len(), 2);
    assert!((output[0] - 0.5).abs() < 0.001);
    assert!((output[1] - 0.5).abs() < 0.001);
}

#[test]
fn test_remix_mono_to_stereo() {
    let input = vec![0.5, 0.8];
    let output = Remix::mono_to_stereo(&input);

    assert_eq!(output.len(), 4);
    assert_eq!(output[0], 0.5);
    assert_eq!(output[1], 0.5);
    assert_eq!(output[2], 0.8);
    assert_eq!(output[3], 0.8);
}

#[test]
fn stereo_frame_remixed_to_mono() {
    let remix = Remix::new(Channels::Stereo, Channels::Mono).unwrap();
    let frame = AudioFrame::new(vec![0.0f32, 1.0, 0.5, 0.5], 44100, Channels::Stereo, 5).unwrap();
    let out = remix.process(&frame, average).unwrap();
    assert_eq!(out.samples(), &[0.5, 0.5]);
    assert_eq!(out.channels(), Channels::Mono);
    assert_eq!(out.sample_rate(), 44100);
    assert_eq!(out.frame_number(), 5);
}

#[test]
fn mono_frame_remixed_to_stereo() {
    let remix = Remix::new(Channels::Mono, Channels::Stereo).unwrap();
    let frame = AudioFrame::new(vec![0.5f32, 0.8], 44100, Channels::Mono, 0).unwrap();
    let out = remix.process(&frame, average).unwrap();
    assert_eq!(out.samples(), &[0.5, 0.5, 0.8, 0.8]);
    assert_eq!(out.channels(), Channels::Stereo);
}

#[test]
fn mono_to_stereo_to_mono_round_trip() {
    let mono = vec![0.5f32, -0.25, 1.0, -1.0, 0.0, 0.123];
    let stereo = Remix::mono_to_stereo(&mono);
    assert_eq!(Remix::stereo_to_mono(&stereo, average), mono);
}

#[test]
fn quad_frame_remixed_to_stereo() {
    let remix = Remix::new(Channels::Quad, Channels::Stereo).unwrap();
    let frame = AudioFrame::new(
        vec![0.2f32, 0.4, 0.6, 0.8, -1.0, 1.0, 0.0, 0.0],
        48000,
        Channels::Quad,
        1,
    )
    .unwrap();
    let out = remix.process(&frame, average).unwrap();
    assert_eq!(out.samples(), &[0.4, 0.6, -0.5, 0.5]);
    assert_eq!(out.channels(), Channels::Stereo);
}

#[test]
fn identity_remix_copies() {
    let remix = Remix::new(Channels::Quad, Channels::Quad).unwrap();
    let frame = AudioFrame::new(vec![0.1f32, 0.2, 0.3, 0.4], 8000, Channels::Quad, 0).unwrap();
    assert_eq!(remix.process(&frame, average).unwrap().samples(), &[0.1, 0.2, 0.3, 0.4]);
}

#[test]
fn stereo_to_mono_drops_unpaired_sample() {
    assert_eq!(Remix::stereo_to_mono(&[0.2f32, 0.4, 0.9], average), vec![0.3]);
}

#[test]
fn stereo_channel_extraction() {
    assert_eq!(Remix::stereo_left(&[1, 2, 3, 4, 5]), vec![1, 3, 5]);
    assert_eq!(Remix::stereo_right(&[1, 2, 3, 4, 5]), vec![2, 4]);
    assert!(Remix::stereo_left::<i32>(&[]).is_empty());
}

#[test]
fn remix_errors() {
    let remix = Remix::new(Channels::Stereo, Channels::SurroundFivePointOne).unwrap();
    let frame = AudioFrame::new(vec![0.0f32; 2], 44100, Channels::Stereo, 0).unwrap();
    assert_eq!(
        remix.process(&frame, average).unwrap_err(),
        AudioError::ProcessingError("Remix from Stereo to 5.1 Surround not supported".to_string())
    );
    let mono = AudioFrame::new(vec![0.0f32; 2], 44100, Channels::Mono, 0).unwrap();
    assert_eq!(
        remix.process(&mono, average).unwrap_err(),
        AudioError::InvalidChannels { expected: 2, got: 1 }
    );
}
