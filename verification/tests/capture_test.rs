use voicetext::capture::{
    choose_native_format, needs_resampling, stereo_to_mono, take_blocks, AudioCapture, CaptureState,
    NativeFormat,
};
use voicetext::audio_chunk::AudioConfig;
use voicetext::errors::AudioError;

#[test]
fn test_stereo_to_mono() {
    let stereo = vec![1000, 2000, 3000, 4000, 5000, 6000];
    let mono = stereo_to_mono(&stereo);
    assert_eq!(mono.len(), 3);
    assert_eq!(mono[0], 1500);
    assert_eq!(mono[1], 3500);
    assert_eq!(mono[2], 5500);
}

#[test]
fn test_stereo_to_mono_empty() {
    let empty: Vec<i16> = vec![];
    let result = stereo_to_mono(&empty);
    assert_eq!(result.len(), 0);
}

#[test]
fn test_stereo_to_mono_overflow_protection() {
    let stereo = vec![i16::MAX, i16::MAX, i16::MIN, i16::MIN];
    let mono = stereo_to_mono(&stereo);
    assert_eq!(mono.len(), 2);
    assert_eq!(mono[0], i16::MAX);
    assert_eq!(mono[1], i16::MIN);
}

#[test]
fn stereo_to_mono_rounds_toward_zero_and_drops_odd_tail() {
    let mono = stereo_to_mono(&[-3, 0, 3, 0, 9]);
    assert_eq!(mono, vec![-1, 1]);
}

#[test]
fn take_blocks_cuts_full_blocks_in_order() {
    let mut buffer: Vec<i16> = vec![1; 1000];
    let samples: Vec<i16> = (0..2100).map(|i| i as i16).collect();
    let blocks = take_blocks(&mut buffer, &samples);
    assert_eq!(blocks.len(), 3);
    assert!(blocks.iter().all(|b| b.len() == 1024));
    assert_eq!(buffer.len(), 3100 - 3 * 1024);
    let mut all: Vec<i16> = blocks.concat();
    all.extend(buffer.iter());
    let mut expected = vec![1i16; 1000];
    expected.extend(samples.iter());
    assert_eq!(all, expected);
}

#[test]
fn capture_state_refuses_double_start() {
    let mut c = CaptureState::new();
    assert!(!c.is_capturing());
    assert_eq!(c.config().sample_rate, 16000);
    assert_eq!(c.config().channels, 1);
    assert!(c.start().is_ok());
    assert!(c.is_capturing());
    match c.start() {
        Err(AudioError::Capture(m)) => assert_eq!(m, "Already capturing audio"),
        _ => panic!("second start must fail"),
    }
    c.stop();
    assert!(!c.is_capturing());
    c.stop();
    assert!(!c.is_capturing());
    c.initialize(AudioConfig { sample_rate: 48000, channels: 2, buffer_size: 1 });
    assert_eq!(c.config().sample_rate, 48000);
}

#[test]
fn native_format_is_first_f32_closest_to_16k() {
    let formats = vec![
        NativeFormat { is_f32: false, min_sample_rate: 16000 },
        NativeFormat { is_f32: true, min_sample_rate: 44100 },
        NativeFormat { is_f32: true, min_sample_rate: 8000 },
        NativeFormat { is_f32: true, min_sample_rate: 24000 },
        NativeFormat { is_f32: true, min_sample_rate: 48000 },
    ];
    assert_eq!(choose_native_format(&formats), Some(2));
    let only_i16 = vec![NativeFormat { is_f32: false, min_sample_rate: 16000 }];
    assert_eq!(choose_native_format(&only_i16), None);
    assert_eq!(choose_native_format(&[]), None);
}

#[test]
fn resampling_only_off_16k() {
    assert!(!needs_resampling(16000));
    assert!(needs_resampling(48000));
}
