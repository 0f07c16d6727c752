use audio_pipeline::{AudioError, AudioFrame, Channels};

#[test]
fn test_audio_frame_creation() {
    let samples = vec![0.1, 0.2, 0.3, 0.4];
    let frame = AudioFrame::new(samples, 44100, Channels::Stereo, 0).unwrap();

    assert_eq!(frame.sample_rate(), 44100);
    assert_eq!(frame.channels(), Channels::Stereo);
    assert_eq!(frame.samples_per_channel(), 2);
    assert_eq!(frame.frame_number(), 0);
}

#[test]
fn test_audio_frame_invalid_samples() {
    let samples = vec![0.1, 0.2, 0.3];
    let result = AudioFrame::new(samples, 44100, Channels::Stereo, 0);
    assert!(result.is_err());
}

#[test]
fn frame_with_incongruent_count_is_buffer_error() {
    let r = AudioFrame::new(vec![0.0f32; 5], 48000, Channels::Quad, 1);
    assert!(matches!(r, Err(AudioError::BufferError(_))));
    let r = AudioFrame::new(vec![0.0f32; 7], 48000, Channels::SurroundFivePointOne, 1);
    assert!(matches!(r, Err(AudioError::BufferError(_))));
}

#[test]
fn frame_with_zero_rate_is_rejected() {
    let r = AudioFrame::new(vec![0.0f32; 2], 0, Channels::Mono, 0);
    assert!(matches!(r, Err(AudioError::InvalidSampleRate { rate: 0 })));
}

#[test]
fn frame_timestamp_follows_samples_per_channel() {
    let frame = AudioFrame::new(vec![0.0f32; 2 * 22050], 44100, Channels::Stereo, 9).unwrap();
    assert_eq!(frame.timestamp().as_secs(), 0);
    assert_eq!(frame.timestamp().subsec_nanos(), 500_000_000);
    assert_eq!(frame.duration(), frame.timestamp());
    assert_eq!(frame.frame_number(), 9);
    assert!(!frame.is_empty());
    let empty = AudioFrame::<f32>::new(Vec::new(), 8000, Channels::Mono, 0).unwrap();
    assert!(empty.is_empty());
    assert_eq!(empty.timestamp().as_secs(), 0);
    assert_eq!(empty.timestamp().subsec_nanos(), 0);
}

#[test]
fn frame_copy_and_samples() {
    let frame = AudioFrame::new(vec![0.25f32, -0.5], 16000, Channels::Mono, 3).unwrap();
    let copy = frame.duplicate();
    assert_eq!(copy.samples(), &[0.25, -0.5]);
    assert_eq!(copy.frame_number(), 3);
    assert_eq!(copy.into_samples(), vec![0.25, -0.5]);
}
