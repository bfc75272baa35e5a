use voicetext::errors::{SttConnectionCategory, SttConnectionError, SttError};
use voicetext::transcription::{
    can_reuse_connection, parse_quality, quality_label, should_keep_alive, start_failure_text,
    start_step, stop_message, stop_step, AudioProcessorState, ConnectionQuality, RecordingStatus,
    StartAction, StartEvent, StartFailure, StopAction, StopEvent, MAX_CONSECUTIVE_ERRORS,
};

fn conn_err() -> SttError {
    SttError::Connection(SttConnectionError::simple("WS send error"))
}

#[test]
fn many_connection_errors_stop_the_recording() {
    let mut st = AudioProcessorState::new();
    let mut stopped_at = 0;
    for i in 1..=MAX_CONSECUTIVE_ERRORS {
        let plan = st.on_send_result(&Err(conn_err()));
        if i == 1 {
            let q = plan.quality.clone().unwrap();
            assert_eq!(q.quality, ConnectionQuality::Poor);
            assert_eq!(q.reason.unwrap(), "connection: Connection error: WS send error");
        }
        if plan.stop {
            stopped_at = i;
            assert!(plan.error.is_some());
            assert_eq!(
                plan.quality.unwrap().reason.unwrap(),
                "Соединение нестабильно, запись остановлена"
            );
            break;
        }
    }
    assert_eq!(stopped_at, MAX_CONSECUTIVE_ERRORS);
}

#[test]
fn critical_error_stops_at_once() {
    let mut st = AudioProcessorState::new();
    let plan = st.on_send_result(&Err(SttError::Authentication("401".to_string())));
    assert!(plan.stop);
    assert_eq!(plan.quality.unwrap().reason.unwrap(), "Критическая ошибка соединения");
}

#[test]
fn recovery_then_good_after_streak() {
    let mut st = AudioProcessorState::new();
    let _ = st.on_send_result(&Err(SttError::Connection(SttConnectionError::with_category(
        "t",
        SttConnectionCategory::Timeout,
    ))));
    let p = st.on_send_result(&Ok(()));
    assert_eq!(p.quality.unwrap().quality, ConnectionQuality::Recovering);
    let mut good_at = 0;
    for i in 2..=30 {
        let p = st.on_send_result(&Ok(()));
        if let Some(q) = p.quality {
            assert_eq!(q.quality, ConnectionQuality::Good);
            good_at = i;
            break;
        }
    }
    assert_eq!(good_at, 20);
}

#[test]
fn chunks_outside_recording_are_dropped_and_drops_report_poor() {
    let mut st = AudioProcessorState::new();
    let p = st.on_chunk(false, 0, true);
    assert!(!p.process && !p.send);
    let p = st.on_chunk(true, 3, true);
    assert!(p.send);
    assert!(p.emit_level);
    assert_eq!(p.quality.unwrap().quality, ConnectionQuality::Poor);
    let p = st.on_chunk(true, 3, false);
    assert!(p.provider_lost);
    assert!(!p.send);
    assert!(p.quality.is_none());
}

#[test]
fn capture_failure_aborts_provider_and_returns_to_idle() {
    let (s, a) = start_step(RecordingStatus::Idle, StartEvent::Requested { reuse_possible: false });
    assert_eq!((s, a), (RecordingStatus::Starting, StartAction::CreateProvider));
    let (s, a) = start_step(s, StartEvent::ProviderCreated(true));
    assert_eq!(a, StartAction::InitializeProvider);
    let (s, a) = start_step(s, StartEvent::ProviderInitialized(true));
    assert_eq!(a, StartAction::StartStream);
    let (s, a) = start_step(s, StartEvent::StreamStarted(true));
    assert_eq!(a, StartAction::StartCapture);
    let (s, a) = start_step(s, StartEvent::CaptureStarted(false));
    assert_eq!(s, RecordingStatus::Idle);
    assert_eq!(
        a,
        StartAction::Fail { abort_provider: true, stop_processor: true, failure: StartFailure::StartCapture }
    );
    assert_eq!(start_failure_text(StartFailure::StartCapture), "Failed to start audio capture");
}

#[test]
fn double_start_is_rejected() {
    for status in [RecordingStatus::Starting, RecordingStatus::Recording, RecordingStatus::Processing] {
        let (s, a) = start_step(status, StartEvent::Requested { reuse_possible: true });
        assert_eq!(s, status);
        assert_eq!(a, StartAction::Reject);
    }
}

#[test]
fn keep_alive_start_resumes_the_connection() {
    assert!(can_reuse_connection(true, true, true, true));
    assert!(!can_reuse_connection(true, true, false, true));
    let (s, a) = start_step(RecordingStatus::Idle, StartEvent::Requested { reuse_possible: true });
    assert_eq!((s, a), (RecordingStatus::Starting, StartAction::ResumeProvider));
    let (_, a) = start_step(s, StartEvent::Resumed(false));
    assert_eq!(a, StartAction::DiscardProviderAndCreate);
}

#[test]
fn failed_capture_stop_does_not_leave_processing() {
    let (s, a) = stop_step(RecordingStatus::Recording, false, 120, StopEvent::Requested);
    assert_eq!((s, a), (RecordingStatus::Processing, StopAction::StopCapture));
    let (s, a) = stop_step(s, false, 120, StopEvent::CaptureStopped { ok: false, keep_alive: true });
    assert_eq!((s, a), (RecordingStatus::Idle, StopAction::FailAbortProvider));
}

#[test]
fn stop_keeps_connection_alive_with_min_ttl() {
    assert!(should_keep_alive(true, true, true));
    let (s, a) = stop_step(RecordingStatus::Processing, false, 3, StopEvent::CaptureStopped { ok: true, keep_alive: true });
    assert_eq!(a, StopAction::PauseProvider);
    let (s, a) = stop_step(s, false, 3, StopEvent::PauseFinished(Some(true)));
    assert_eq!(s, RecordingStatus::Idle);
    assert_eq!(a, StopAction::KeepAlive { ttl_secs: 10 });
    assert_eq!(stop_message(a).unwrap(), "Recording paused, connection kept alive");
    let (_, hard) = stop_step(RecordingStatus::Processing, true, 3, StopEvent::CaptureStopped { ok: true, keep_alive: true });
    assert_eq!(hard, StopAction::CloseProvider);
    assert_eq!(stop_message(hard).unwrap(), "Transcription completed");
    let (_, r) = stop_step(RecordingStatus::Idle, false, 3, StopEvent::Requested);
    assert_eq!(r, StopAction::Reject);
    assert!(stop_message(r).is_none());
}

#[test]
fn quality_labels_round_trip() {
    for q in [ConnectionQuality::Good, ConnectionQuality::Poor, ConnectionQuality::Recovering] {
        assert_eq!(parse_quality(&quality_label(q)), q);
    }
    assert_eq!(parse_quality("whatever"), ConnectionQuality::Good);
}
