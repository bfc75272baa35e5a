use std::time::Duration;
use voicetext::vad::{VadProcessor, VadResult};
use voicetext::vad_gate::VadGate;
use webrtc_vad::VadMode;

#[test]
fn test_vad_creation() {
    let vad = VadProcessor::default();
    assert!(vad.is_ok());
}

#[test]
fn test_buffering() {
    let mut vad = VadProcessor::default().unwrap();
    let samples = vec![0i16; 240];
    let result = vad.process_samples(&samples).unwrap();
    assert_eq!(result, VadResult::Buffering);
    assert_eq!(vad.buffered_samples(), 240);
}

#[test]
fn test_full_frame_processing() {
    let mut vad = VadProcessor::default().unwrap();
    let samples = vec![0i16; 480];
    let result = vad.process_samples(&samples).unwrap();
    assert_ne!(result, VadResult::Buffering);
}

#[test]
fn test_silence_timeout() {
    let mut vad = VadProcessor::new(Some(90), None).unwrap();
    let active_frame = vec![300i16; 480];
    let _ = vad.process_samples(&active_frame).unwrap();
    let silence_frame = vec![0i16; 480];
    let result1 = vad.process_samples(&silence_frame).unwrap();
    assert_eq!(result1, VadResult::Silence);
    let result2 = vad.process_samples(&silence_frame).unwrap();
    assert_eq!(result2, VadResult::Silence);
    let result3 = vad.process_samples(&silence_frame).unwrap();
    assert_eq!(result3, VadResult::SilenceTimeout);
}

#[test]
fn test_reset() {
    let mut vad = VadProcessor::default().unwrap();
    let samples = vec![0i16; 240];
    let _ = vad.process_samples(&samples);
    assert_eq!(vad.buffered_samples(), 240);
    vad.reset();
    assert_eq!(vad.buffered_samples(), 0);
    assert_eq!(vad.silence_duration(), Duration::from_millis(0));
}

#[test]
fn test_buffer_overflow() {
    let mut vad = VadProcessor::default().unwrap();
    let large_chunk = vec![0i16; 1000];
    let result = vad.process_samples(&large_chunk).unwrap();
    assert_ne!(result, VadResult::Buffering);
    assert_eq!(vad.buffered_samples(), 1000 - 480);
}

#[test]
fn test_speech_silence_alternation() {
    let mut vad = VadProcessor::new(Some(100), None).unwrap();
    let active_frame = vec![300i16; 480];
    let _ = vad.process_samples(&active_frame).unwrap();
    let silence_frame = vec![0i16; 480];
    let r1 = vad.process_samples(&silence_frame).unwrap();
    assert_eq!(r1, VadResult::Silence);
    assert_eq!(vad.silence_duration(), Duration::from_millis(30));
    let r2 = vad.process_samples(&silence_frame).unwrap();
    assert_eq!(r2, VadResult::Silence);
    assert_eq!(vad.silence_duration(), Duration::from_millis(60));
    let r3 = vad.process_samples(&silence_frame).unwrap();
    assert_eq!(r3, VadResult::Silence);
    assert_eq!(vad.silence_duration(), Duration::from_millis(90));
    let r4 = vad.process_samples(&silence_frame).unwrap();
    assert_eq!(r4, VadResult::SilenceTimeout);
}

#[test]
fn test_boundary_cases() {
    let mut vad = VadProcessor::default().unwrap();
    let samples_479 = vec![0i16; 479];
    let result = vad.process_samples(&samples_479).unwrap();
    assert_eq!(result, VadResult::Buffering);
    assert_eq!(vad.buffered_samples(), 479);
    let sample_1 = vec![0i16; 1];
    let result2 = vad.process_samples(&sample_1).unwrap();
    assert_ne!(result2, VadResult::Buffering);
    assert_eq!(vad.buffered_samples(), 0);
    let samples_481 = vec![0i16; 481];
    let result3 = vad.process_samples(&samples_481).unwrap();
    assert_ne!(result3, VadResult::Buffering);
    assert_eq!(vad.buffered_samples(), 1);
}

#[test]
fn test_vad_modes() {
    let vad_quality = VadProcessor::new(Some(800), Some(VadMode::Quality)).unwrap();
    let vad_low_bitrate = VadProcessor::new(Some(800), Some(VadMode::LowBitrate)).unwrap();
    let vad_aggressive = VadProcessor::new(Some(800), Some(VadMode::Aggressive)).unwrap();
    let vad_very_aggressive = VadProcessor::new(Some(800), Some(VadMode::VeryAggressive)).unwrap();
    assert_eq!(vad_quality.timeout(), Duration::from_millis(800));
    assert_eq!(vad_low_bitrate.timeout(), Duration::from_millis(800));
    assert_eq!(vad_aggressive.timeout(), Duration::from_millis(800));
    assert_eq!(vad_very_aggressive.timeout(), Duration::from_millis(800));
}

#[test]
fn silence_without_activity_waits_for_the_long_timeout() {
    let mut vad = VadProcessor::new(Some(90), None).unwrap();
    let silence_frame = vec![0i16; 480];
    for _ in 0..10 {
        assert_eq!(vad.process_samples(&silence_frame).unwrap(), VadResult::Silence);
    }
    assert_eq!(vad.silence_duration_ms(), 300);
}

#[test]
fn speech_frame_resets_silence() {
    let mut vad = VadProcessor::new(Some(1000), None).unwrap();
    let silence_frame = vec![0i16; 480];
    let _ = vad.process_samples(&silence_frame).unwrap();
    assert_eq!(vad.silence_duration_ms(), 30);
    let active_frame = vec![300i16; 480];
    let _ = vad.process_samples(&active_frame).unwrap();
    assert_eq!(vad.silence_duration_ms(), 0);
}

#[test]
fn gate_passes_through_non_16k_audio() {
    let vad = VadProcessor::default().unwrap();
    let mut gate = VadGate::new(vad);
    gate.start();
    let out = gate.process_chunk(&vec![0i16; 2000], 48000, 1);
    assert!(out.passthrough);
    assert!(out.frames.is_empty());
    let out = gate.process_chunk(&vec![0i16; 2000], 16000, 2);
    assert!(out.passthrough);
}

#[test]
fn gate_cuts_frames_and_keeps_rest() {
    let vad = VadProcessor::default().unwrap();
    let mut gate = VadGate::new(vad);
    gate.start();
    let data: Vec<i16> = (0..1000).map(|i| i as i16).collect();
    let out = gate.process_chunk(&data, 16000, 1);
    assert!(!out.passthrough);
    assert_eq!(out.frames.len(), 2);
    assert_eq!(out.frames[0], data[0..480].to_vec());
    assert_eq!(out.frames[1], data[480..960].to_vec());
    let out2 = gate.process_chunk(&vec![7i16; 440], 16000, 1);
    assert_eq!(out2.frames.len(), 1);
    let mut expected = data[960..1000].to_vec();
    expected.extend(vec![7i16; 440]);
    assert_eq!(out2.frames[0], expected);
}

#[test]
fn gate_reports_silence_timeout_once_per_capture() {
    let vad = VadProcessor::new(Some(90), None).unwrap();
    let mut gate = VadGate::new(vad);
    gate.start();
    let _ = gate.process_chunk(&vec![300i16; 480], 16000, 1);
    let mut fired = 0;
    for _ in 0..10 {
        let out = gate.process_chunk(&vec![0i16; 480], 16000, 1);
        assert_eq!(out.frames.len(), 1);
        if out.fire_timeout {
            fired += 1;
        }
    }
    assert_eq!(fired, 1);
    gate.stop();
    gate.start();
    let _ = gate.process_chunk(&vec![300i16; 480], 16000, 1);
    let mut fired_again = 0;
    for _ in 0..5 {
        if gate.process_chunk(&vec![0i16; 480], 16000, 1).fire_timeout {
            fired_again += 1;
        }
    }
    assert_eq!(fired_again, 1);
}

#[test]
fn default_processor_uses_three_second_timeout() {
    let vad = VadProcessor::default().unwrap();
    assert_eq!(vad.timeout(), Duration::from_millis(3000));
    assert_eq!(vad.buffered_samples(), 0);
    let vad = VadProcessor::new(None, Some(VadMode::Aggressive)).unwrap();
    assert_eq!(vad.timeout(), Duration::from_millis(3000));
}

#[test]
fn every_full_frame_is_classified_without_error() {
    let mut vad = VadProcessor::default().unwrap();
    let loud: Vec<i16> = (0..480).map(|i| if i % 2 == 0 { 3000 } else { -3000 }).collect();
    assert_eq!(vad.process_samples(&loud).unwrap(), VadResult::Speech);
    let quiet: Vec<i16> = (0..480).map(|i| ((i % 7) as i16) * 5 - 15).collect();
    let r = vad.process_samples(&quiet).unwrap();
    assert!(r == VadResult::Speech || r == VadResult::Silence);
    let zeros = vec![0i16; 480];
    assert_eq!(vad.process_samples(&zeros).unwrap(), VadResult::Silence);
}

#[test]
fn gate_reports_one_result_per_frame() {
    let vad = VadProcessor::new(Some(60), None).unwrap();
    let mut gate = VadGate::new(vad);
    gate.start();
    let mut data = vec![300i16; 480];
    data.extend(vec![0i16; 480 * 3 + 100]);
    let out = gate.process_chunk(&data, 16000, 1);
    assert_eq!(out.frames.len(), 4);
    assert_eq!(
        out.results,
        vec![VadResult::Speech, VadResult::Silence, VadResult::SilenceTimeout, VadResult::SilenceTimeout]
    );
    assert!(out.fire_timeout);
    let out = gate.process_chunk(&vec![0i16; 380], 16000, 1);
    assert_eq!(out.results, vec![VadResult::SilenceTimeout]);
    assert!(!out.fire_timeout);
}

#[test]
fn gate_without_timeout_result_does_not_fire() {
    let vad = VadProcessor::new(Some(1000), None).unwrap();
    let mut gate = VadGate::new(vad);
    gate.start();
    let mut data = vec![300i16; 480];
    data.extend(vec![0i16; 480 * 2]);
    let out = gate.process_chunk(&data, 16000, 1);
    assert_eq!(out.results, vec![VadResult::Speech, VadResult::Silence, VadResult::Silence]);
    assert!(!out.fire_timeout);
    let out = gate.process_chunk(&vec![0i16; 100], 48000, 2);
    assert!(out.passthrough);
    assert!(out.results.is_empty());
}

#[test]
fn gate_accepts_detector_with_pending_samples() {
    let mut vad = VadProcessor::new(Some(60), None).unwrap();
    assert_eq!(vad.process_samples(&vec![0i16; 100]).unwrap(), VadResult::Buffering);
    let mut gate = VadGate::new(vad);
    gate.start();
    let out = gate.process_chunk(&vec![0i16; 480 * 2], 16000, 1);
    assert_eq!(out.frames.len(), 2);
    assert_eq!(out.results, vec![VadResult::Silence, VadResult::Silence]);
    assert!(!out.fire_timeout);
    let out = gate.process_chunk(&vec![0i16; 480 * 2], 16000, 1);
    assert_eq!(out.results, vec![VadResult::Silence, VadResult::Silence]);
}

#[test]
fn gate_run_hands_on_complete_frame_prefix() {
    let vad = VadProcessor::new(Some(150), None).unwrap();
    let mut gate = VadGate::new(vad);
    gate.start();
    let sizes = [100usize, 700, 3, 480, 1999, 20, 960, 77];
    let mut all: Vec<i16> = Vec::new();
    let mut handed: Vec<i16> = Vec::new();
    let mut fires = 0;
    let mut saw_timeout = false;
    let mut k: usize = 0;
    for &n in sizes.iter() {
        let chunk: Vec<i16> = (0..n)
            .map(|_| {
                k += 1;
                if k < 600 { if k % 2 == 0 { 900 } else { -900 } } else { 0 }
            })
            .collect();
        all.extend_from_slice(&chunk);
        let out = gate.process_chunk(&chunk, 16000, 1);
        assert_eq!(out.frames.len(), out.results.len());
        for f in out.frames.iter() {
            assert_eq!(f.len(), 480);
            handed.extend_from_slice(f);
        }
        if out.results.contains(&VadResult::SilenceTimeout) {
            saw_timeout = true;
        }
        if out.fire_timeout {
            fires += 1;
        }
    }
    let complete = 480 * (all.len() / 480);
    assert_eq!(handed, all[..complete].to_vec());
    assert!(saw_timeout);
    assert_eq!(fires, 1);
}

#[test]
fn detector_verdict_depends_only_on_state_and_frame() {
    let frame: Vec<i16> = (0..480).map(|i| (((i * 37) % 41) as i16) - 20).collect();
    let mut a = VadProcessor::default().unwrap();
    let mut b = VadProcessor::default().unwrap();
    for _ in 0..5 {
        assert_eq!(a.process_samples(&frame).unwrap(), b.process_samples(&frame).unwrap());
    }
}
