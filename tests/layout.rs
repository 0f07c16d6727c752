use audio_pipeline::{AudioError, AudioMetadata, BitDepth, Channels, TimeSpan};

#[test]
fn test_channels_from_count() {
    assert_eq!(Channels::from_count(1).unwrap(), Channels::Mono);
    assert_eq!(Channels::from_count(2).unwrap(), Channels::Stereo);
    assert!(Channels::from_count(0).is_err());
    assert!(Channels::from_count(3).is_err());
}

#[test]
fn test_channels_count() {
    assert_eq!(Channels::Mono.count(), 1);
    assert_eq!(Channels::Stereo.count(), 2);
    assert_eq!(Channels::Quad.count(), 4);
}

#[test]
fn from_count_accepts_every_known_layout() {
    for n in [1u32, 2, 4, 6, 8] {
        assert_eq!(Channels::from_count(n).unwrap().count(), n);
    }
    assert_eq!(Channels::from_count(6).unwrap(), Channels::SurroundFivePointOne);
    assert_eq!(Channels::from_count(8).unwrap(), Channels::SurroundSevenPointOne);
}

#[test]
fn from_count_rejects_with_expected_one() {
    for n in [0u32, 3, 5, 7, 9, 100, u32::MAX] {
        assert_eq!(
            Channels::from_count(n),
            Err(AudioError::InvalidChannels { expected: 1, got: n })
        );
    }
}

#[test]
fn layout_names() {
    assert_eq!(Channels::Mono.name(), "Mono");
    assert_eq!(Channels::Stereo.name(), "Stereo");
    assert_eq!(Channels::Quad.name(), "Quad");
    assert_eq!(Channels::SurroundFivePointOne.name(), "5.1 Surround");
    assert_eq!(Channels::SurroundSevenPointOne.name(), "7.1 Surround");
}

#[test]
fn bit_depth_sizes() {
    assert_eq!(BitDepth::I8.bytes_per_sample(), 1);
    assert_eq!(BitDepth::I16.bytes_per_sample(), 2);
    assert_eq!(BitDepth::I24.bytes_per_sample(), 3);
    assert_eq!(BitDepth::I32.bytes_per_sample(), 4);
    assert_eq!(BitDepth::F32.bytes_per_sample(), 4);
    assert_eq!(BitDepth::F64.bytes_per_sample(), 8);
}

#[test]
fn test_audio_metadata() {
    let metadata = AudioMetadata::new(48000, Channels::Stereo, "MP3".to_string())
        .unwrap()
        .with_duration(TimeSpan::from_secs(60))
        .with_bitrate(192000);

    assert_eq!(metadata.sample_rate, 48000);
    assert_eq!(metadata.channels, Channels::Stereo);
    let secs = metadata
        .duration
        .map(|d| d.as_secs() as f64 + d.subsec_nanos() as f64 / 1e9);
    assert_eq!(secs, Some(60.0));
    assert_eq!(metadata.bitrate_kbps(), Some(192));
}

#[test]
fn metadata_rejects_zero_rate_and_keeps_fields() {
    assert_eq!(
        AudioMetadata::new(0, Channels::Mono, "FLAC".to_string()).unwrap_err(),
        AudioError::InvalidSampleRate { rate: 0 }
    );
    let m = AudioMetadata::new(44100, Channels::Mono, "FLAC".to_string())
        .unwrap()
        .with_bit_depth(BitDepth::I24);
    assert_eq!(m.codec, "FLAC");
    assert_eq!(m.bit_depth, Some(BitDepth::I24));
    assert_eq!(m.duration, None);
    assert_eq!(m.bitrate_kbps(), None);
    assert_eq!(m.with_bitrate(1999).bitrate_kbps(), Some(1));
}

#[test]
fn time_span_parts() {
    let t = TimeSpan::new(3, 250_000_000);
    assert_eq!(t.as_secs(), 3);
    assert_eq!(t.subsec_nanos(), 250_000_000);
    let f = TimeSpan::of_frames(66150, 44100);
    assert_eq!(f.as_secs(), 1);
    assert_eq!(f.subsec_nanos(), 500_000_000);
    let g = TimeSpan::of_frames(1, 3);
    assert_eq!(g.as_secs(), 0);
    assert_eq!(g.subsec_nanos(), 333_333_333);
}
