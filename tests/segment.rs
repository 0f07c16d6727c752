use audio_pipeline::{AudioError, AudioFrame, Channels, Segment, TimeSpan};

#[test]
fn test_segment_creation() {
    let segment = Segment::new(TimeSpan::from_secs(1), 44100);
    assert!(segment.is_ok());
    let s = segment.unwrap();
    assert_eq!(s.samples_per_segment(), 44100);
}

#[test]
fn test_segment_invalid_rate() {
    let segment = Segment::new(TimeSpan::from_secs(1), 0);
    assert!(segment.is_err());
}

#[test]
fn test_split_frame() {
    let mut segment = Segment::new(TimeSpan::from_secs(1), 44100).unwrap();

    let mut samples = Vec::new();
    for _ in 0..88200 {
        samples.push(0.0);
    }
    let frame = AudioFrame::new(samples, 44100, Channels::Mono, 0).unwrap();

    let segments = segment.split_frame(&frame).unwrap();

    assert_eq!(segments.len(), 2);
    assert_eq!(segments[0].samples_per_channel(), 44100);
}

#[test]
fn split_two_seconds_into_two_full_segments() {
    let mut segment = Segment::new(TimeSpan::from_secs(1), 44100).unwrap();
    let frame = AudioFrame::new(vec![0.0f32; 88200], 44100, Channels::Mono, 0).unwrap();
    let segments = segment.split_frame(&frame).unwrap();
    assert_eq!(segments.len(), 2);
    for s in &segments {
        assert_eq!(s.samples_per_channel(), 44100);
    }
    assert_eq!(segment.segment_index(), 2);
}

#[test]
fn segment_length_rounds_up() {
    let s = Segment::new(TimeSpan::new(0, 100_000_000), 44100).unwrap();
    assert_eq!(s.samples_per_segment(), 4410);
    let s = Segment::new(TimeSpan::new(0, 1), 44100).unwrap();
    assert_eq!(s.samples_per_segment(), 1);
    let s = Segment::new(TimeSpan::new(0, 0), 44100).unwrap();
    assert_eq!(s.samples_per_segment(), 0);
    let s = Segment::new(TimeSpan::from_secs(u64::MAX), u32::MAX).unwrap();
    assert_eq!(s.samples_per_segment(), usize::MAX);
}

#[test]
fn short_input_gives_one_segment() {
    let mut segment = Segment::new(TimeSpan::from_secs(1), 8).unwrap();
    let frame = AudioFrame::new(vec![1i16, 2, 3], 8, Channels::Mono, 0).unwrap();
    let segments = segment.split_frame(&frame).unwrap();
    assert_eq!(segments.len(), 1);
    assert_eq!(segments[0].samples(), &[1, 2, 3]);
}

#[test]
fn exact_multiple_gives_full_segments() {
    let mut segment = Segment::new(TimeSpan::from_secs(1), 4).unwrap();
    let samples: Vec<u8> = (0..12).collect();
    let frame = AudioFrame::new(samples, 4, Channels::Mono, 0).unwrap();
    let segments = segment.split_frame(&frame).unwrap();
    assert_eq!(segments.len(), 3);
    for s in &segments {
        assert_eq!(s.samples_per_channel(), 4);
    }
}

#[test]
fn segments_are_planar_and_numbered_across_calls() {
    let mut segment = Segment::new(TimeSpan::from_secs(1), 2).unwrap();
    // Stereo frames: (L, R) pairs 10/20, 11/21, 12/22.
    let frame = AudioFrame::new(vec![10, 20, 11, 21, 12, 22], 2, Channels::Stereo, 0).unwrap();
    let segments = segment.split_frame(&frame).unwrap();
    assert_eq!(segments.len(), 2);
    assert_eq!(segments[0].samples(), &[10, 11, 20, 21]);
    assert_eq!(segments[1].samples(), &[12, 22]);
    assert_eq!(segments[0].frame_number(), 0);
    assert_eq!(segments[1].frame_number(), 1);
    assert_eq!(segments[1].channels(), Channels::Stereo);
    let again = segment.split_frame(&frame).unwrap();
    assert_eq!(again[0].frame_number(), 2);
    assert_eq!(segment.segment_index(), 4);
    segment.reset();
    assert_eq!(segment.segment_index(), 0);
}

#[test]
fn empty_frame_gives_no_segment() {
    let mut segment = Segment::new(TimeSpan::from_secs(1), 100).unwrap();
    let frame = AudioFrame::<f32>::new(Vec::new(), 100, Channels::Mono, 0).unwrap();
    assert!(segment.split_frame(&frame).unwrap().is_empty());
    assert_eq!(segment.segment_index(), 0);
}

#[test]
fn split_rejects_other_rate() {
    let mut segment = Segment::new(TimeSpan::from_secs(1), 44100).unwrap();
    let frame = AudioFrame::new(vec![0.0f32; 4], 48000, Channels::Mono, 0).unwrap();
    assert_eq!(
        segment.split_frame(&frame).unwrap_err(),
        AudioError::InvalidSampleRate { rate: 48000 }
    );
    assert_eq!(segment.segment_index(), 0);
}
