use voicetext::config::{SttConfig, SttProviderType};
use voicetext::deepgram::{
    close_error_type, close_frame_error, handle_message, listen_url, model_for_language,
    DeepgramEvent, DeepgramMessage, DeepgramState,
};
use voicetext::errors::SttError;

#[test]
fn model_by_language() {
    for l in ["en", "es", "fr", "de", "pt", "it", "nl"] {
        assert_eq!(model_for_language(l), "nova-3");
    }
    assert_eq!(model_for_language("ru"), "nova-2");
    assert_eq!(model_for_language("EN"), "nova-2");
}

#[test]
fn listen_url_has_all_parameters() {
    assert_eq!(
        listen_url("nova-2", "ru"),
        "wss://api.deepgram.com/v1/listen?encoding=linear16&sample_rate=16000&channels=1&model=nova-2&language=ru&punctuate=true&interim_results=true"
    );
}

#[test]
fn close_reason_classification() {
    assert_eq!(close_error_type("read timeout"), "timeout");
    assert_eq!(close_error_type("NET0001 idle"), "connection");
    assert_eq!(close_error_type("net0001"), "timeout");
    assert_eq!(close_error_type("bad auth"), "authentication");
    assert_eq!(close_error_type("HTTP 401"), "authentication");
    assert_eq!(close_error_type("server going away"), "connection");
    assert_eq!(close_frame_error("timeout", true), None);
    assert_eq!(
        close_frame_error("timeout", false),
        Some(("timeout".to_string(), "timeout".to_string()))
    );
}

fn results(text: Option<&str>, is_final: Option<bool>, speech_final: Option<bool>) -> DeepgramMessage {
    DeepgramMessage {
        msg_type: Some("Results".to_string()),
        is_final,
        speech_final,
        transcript: text.map(|t| t.to_string()),
        language: Some("ru".to_string()),
    }
}

#[test]
fn results_are_routed_by_finality() {
    match handle_message(&results(Some("привет"), Some(true), Some(true))) {
        DeepgramEvent::Final { text, language } => {
            assert_eq!(text, "привет");
            assert_eq!(language, Some("ru".to_string()));
        }
        _ => panic!("expected final"),
    }
    match handle_message(&results(Some("при"), Some(true), Some(false))) {
        DeepgramEvent::Partial { text, is_final, .. } => {
            assert_eq!(text, "при");
            assert!(is_final);
        }
        _ => panic!("expected partial"),
    }
    match handle_message(&results(Some("п"), None, Some(true))) {
        DeepgramEvent::Partial { is_final, .. } => assert!(!is_final),
        _ => panic!("expected partial"),
    }
    assert!(matches!(handle_message(&results(Some(""), Some(true), Some(true))), DeepgramEvent::Ignored));
    assert!(matches!(handle_message(&results(None, Some(true), Some(true))), DeepgramEvent::Ignored));
    let meta = DeepgramMessage {
        msg_type: Some("Metadata".to_string()),
        is_final: None,
        speech_final: None,
        transcript: None,
        language: None,
    };
    assert!(matches!(handle_message(&meta), DeepgramEvent::SessionReady));
    let other = DeepgramMessage { msg_type: None, ..meta };
    assert!(matches!(handle_message(&other), DeepgramEvent::Ignored));
}

#[test]
fn deepgram_session_lifecycle() {
    let mut s = DeepgramState::new();
    let config = SttConfig::new(SttProviderType::Deepgram);
    match s.initialize(&config) {
        Err(SttError::Configuration(m)) => assert_eq!(m, "API key is required for Deepgram"),
        _ => panic!(),
    }
    let mut config = config.with_language("en");
    config.deepgram_api_key = Some("k".to_string());
    s.initialize(&config).unwrap();
    let plan = s.connect_plan().unwrap();
    assert_eq!(plan.authorization, "Token k");
    assert!(plan.url.contains("model=nova-3&language=en"));
    s.on_stream_started();
    assert_eq!(s.send_audio(&[1i16; 500]).unwrap(), None);
    let bytes = s.send_audio(&[2i16; 300]).unwrap().unwrap();
    assert_eq!(bytes.len(), 1600);
    assert_eq!(s.buffered_samples(), 0);
    assert_eq!(s.send_audio(&[3i16; 10]).unwrap(), None);
    s.pause_stream().unwrap();
    assert!(s.is_connection_alive());
    assert_eq!(s.buffered_samples(), 0);
    assert_eq!(s.send_audio(&[3i16; 1000]).unwrap(), None);
    match s.resume_stream() {
        Ok(()) => {}
        Err(_) => panic!(),
    }
    match s.resume_stream() {
        Err(SttError::Processing(m)) => assert_eq!(m, "Cannot resume - stream not paused"),
        _ => panic!(),
    }
    let _ = s.send_audio(&[4i16; 5]).unwrap();
    let stop = s.stop_stream().unwrap();
    assert_eq!(stop.flush.unwrap(), vec![4u8, 0, 4, 0, 4, 0, 4, 0, 4, 0]);
    assert!(stop.close_stream);
    assert!(s.stop_stream().is_none());
    assert_eq!(s.name(), "Deepgram (Nova-2/Nova-3)");
}
