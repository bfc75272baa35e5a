use voicetext::backend::{react_to_server, ServerEvent, ServerReaction};
use voicetext::backend::{
    classify_backend_host, config_message, get_default_backend_url, handshake_error,
    is_local_backend_url, resolve_auth_token, BackendState, ClientMessage,
};
use voicetext::config::{SttConfig, SttProviderType};
use voicetext::errors::SttError;

fn connection_message(e: &SttError) -> String {
    match e {
        SttError::Connection(c) => c.message.clone(),
        _ => panic!("expected a connection error"),
    }
}

#[test]
fn test_backend_provider_new() {
    let provider = BackendState::new(None, true);
    assert!(!provider.is_streaming());
    assert!(provider.auth_token().is_none());
    assert_eq!(provider.backend_url(), "ws://localhost:8080");
    let release = BackendState::new(None, false);
    assert_eq!(release.backend_url(), "wss://api.voicetotext.app");
}

#[test]
fn test_backend_provider_name() {
    let provider = BackendState::new(None, true);
    assert_eq!(provider.name(), "backend");
}

#[test]
fn test_backend_provider_is_online() {
    let provider = BackendState::new(None, true);
    assert!(provider.is_online());
}

#[test]
fn test_backend_provider_supports_streaming() {
    let provider = BackendState::new(None, true);
    assert!(provider.supports_streaming());
    assert!(provider.supports_keep_alive());
}

#[test]
fn default_backend_url_prefers_non_empty_env() {
    assert_eq!(get_default_backend_url(Some("wss://staging"), true), "wss://staging");
    assert_eq!(get_default_backend_url(Some(""), false), "wss://api.voicetotext.app");
    assert_eq!(get_default_backend_url(None, true), "ws://localhost:8080");
}

#[test]
fn local_backend_detection() {
    assert!(is_local_backend_url("ws://localhost:8080"));
    assert!(is_local_backend_url("ws://127.0.0.1:9000/x"));
    assert!(!is_local_backend_url("wss://api.voicetotext.app"));
    assert!(!is_local_backend_url("wss://localhost.example.com"));
    // the parser reports an IPv6 host with its brackets, which is not in the list
    assert!(!is_local_backend_url("ws://[::1]:8080"));
    // unparsable text falls back to a substring search
    assert!(is_local_backend_url("not a uri localhost"));
    assert!(classify_backend_host(Some("::1"), "x"));
    assert!(classify_backend_host(None, "ws://[::1]"));
    assert!(!classify_backend_host(Some("example.com"), "localhost"));
}

#[test]
fn auth_token_rules_per_build() {
    assert_eq!(resolve_auth_token(true, true, Some("prod")).unwrap(), "dev-local-token");
    assert_eq!(resolve_auth_token(true, false, Some("prod")).unwrap(), "prod");
    assert_eq!(resolve_auth_token(true, false, None).unwrap(), "dev-local-token");
    assert_eq!(resolve_auth_token(false, true, Some("t")).unwrap(), "t");
    match resolve_auth_token(false, false, None) {
        Err(SttError::Configuration(m)) => {
            assert_eq!(m, "Backend auth token is required. Please activate your license.")
        }
        _ => panic!("release build without a token must fail"),
    }
}

#[test]
fn handshake_errors() {
    match handshake_error(Some(401), "401 Unauthorized", true, true) {
        SttError::Authentication(m) => assert!(m.starts_with("401 Unauthorized от локального бэкенда")),
        _ => panic!(),
    }
    match handshake_error(Some(401), "401 Unauthorized", false, true) {
        SttError::Authentication(m) => {
            assert_eq!(m, "401 Unauthorized. Токен недействителен/истёк — попробуй перелогиниться.")
        }
        _ => panic!(),
    }
    let e = handshake_error(Some(503), "503 Service Unavailable", false, false);
    assert_eq!(connection_message(&e), "WS connection failed: HTTP error: 503 Service Unavailable");
    let e = handshake_error(None, "IO error", false, false);
    assert_eq!(connection_message(&e), "WS connection failed: IO error");
}

#[test]
fn config_message_fields() {
    match config_message(SttProviderType::AssemblyAI, "en") {
        ClientMessage::Config { protocol_v, provider, language, sample_rate, channels, encoding } => {
            assert_eq!(protocol_v, 1);
            assert_eq!(provider, "assemblyai");
            assert_eq!(language, "en");
            assert_eq!(sample_rate, 16000);
            assert_eq!(channels, 1);
            assert_eq!(encoding, "pcm_s16le");
        }
        ClientMessage::Close => panic!(),
    }
    match config_message(SttProviderType::Backend, "ru") {
        ClientMessage::Config { provider, .. } => assert_eq!(provider, "deepgram"),
        ClientMessage::Close => panic!(),
    }
}

fn ready_session() -> BackendState {
    let mut s = BackendState::new(None, false);
    let mut config = SttConfig::new(SttProviderType::Backend);
    config.backend_auth_token = Some("tok".to_string());
    config.backend_url = Some("wss://api.example.com".to_string());
    s.initialize(&config, None, false).unwrap();
    s
}

#[test]
fn connect_plan_builds_url_and_headers() {
    let s = ready_session();
    let plan = s.connect_plan().unwrap();
    assert_eq!(plan.ws_url, "wss://api.example.com/api/v1/transcribe/stream");
    assert_eq!(plan.host, "api.example.com");
    assert_eq!(plan.authorization, "Bearer tok");
    let fresh = BackendState::new(None, false);
    match fresh.connect_plan() {
        Err(SttError::Configuration(m)) => assert_eq!(m, "Auth token not set"),
        _ => panic!(),
    }
}

#[test]
fn initialize_without_token_in_release_fails_and_keeps_state() {
    let mut s = BackendState::new(None, false);
    let config = SttConfig::new(SttProviderType::Backend);
    assert!(s.initialize(&config, None, false).is_err());
    assert!(s.auth_token().is_none());
}

#[test]
fn audio_is_batched_in_whole_frames() {
    let mut s = ready_session();
    assert!(s.send_audio(&[0i16; 10]).is_err());
    s.on_connected();
    s.on_stream_started();
    // 100 samples = 200 bytes: one frame counted, not enough bytes yet
    assert_eq!(s.send_audio(&[1i16; 100]).unwrap(), None);
    assert_eq!(s.batch_frames(), 1);
    // 860 more samples: 1920 bytes in the batch, two frames counted -> 1920 bytes go
    let out = s.send_audio(&[2i16; 860]).unwrap().unwrap();
    assert_eq!(out.len(), 1920);
    assert_eq!(&out[0..2], &[1u8, 0u8]);
    assert_eq!(s.batch_len(), 0);
    assert_eq!(s.batch_frames(), 0);
    // one 480-sample chunk is one frame of 960 bytes
    let out = s.send_audio(&[-1i16; 480]).unwrap().unwrap();
    assert_eq!(out, vec![0xffu8; 960]);
}

#[test]
fn pause_flushes_tail_and_resume_reopens() {
    let mut s = ready_session();
    s.on_connected();
    s.on_stream_started();
    assert_eq!(s.send_audio(&[5i16; 10]).unwrap(), None);
    let flushed = s.pause_stream().unwrap().unwrap();
    assert_eq!(flushed.len(), 20);
    assert!(s.is_paused());
    assert!(s.is_connection_alive(false, false));
    assert!(!s.is_connection_alive(true, false));
    assert!(s.pause_stream().unwrap().is_none());
    assert!(s.resume_stream().is_ok());
    assert!(!s.is_paused());
    s.on_connection_lost();
    assert!(s.resume_stream().is_err());
    match s.send_audio(&[0i16; 1]) {
        Err(e) => assert_eq!(connection_message(&e), "Connection closed"),
        Ok(_) => panic!(),
    }
}

#[test]
fn stop_flushes_then_closes() {
    let mut s = ready_session();
    s.on_connected();
    s.on_stream_started();
    let _ = s.send_audio(&[3i16; 7]).unwrap();
    let plan = s.stop_stream();
    assert_eq!(plan.flush.unwrap().len(), 14);
    assert!(plan.close_socket);
    assert!(!s.is_streaming());
    let again = s.stop_stream();
    assert!(again.flush.is_none());
    assert!(!again.close_socket);
    assert!(!s.abort());
}

#[test]
fn server_events_and_json_gate() {
    assert!(matches!(react_to_server(ServerEvent::Ready), ServerReaction::GoodQuality));
    assert!(matches!(react_to_server(ServerEvent::Ack), ServerReaction::Nothing));
    match react_to_server(ServerEvent::Error { code: "LIMIT_EXCEEDED".to_string(), message: "Usage limit reached".to_string() }) {
        ServerReaction::ReportError { message, error_type } => {
            assert_eq!(message, "Usage limit reached");
            assert_eq!(error_type, "LIMIT_EXCEEDED");
        }
        _ => panic!(),
    }
    match react_to_server(ServerEvent::Failed("reset".to_string())) {
        ServerReaction::ConnectionFailed { message } => assert_eq!(message, "reset"),
        _ => panic!(),
    }
    let mut s = ready_session();
    assert_eq!(s.json_send_gate().unwrap(), false);
    s.on_connected();
    assert_eq!(s.json_send_gate().unwrap(), true);
}

#[test]
fn batching_keeps_every_byte_in_order() {
    let mut s = ready_session();
    s.on_connected();
    s.on_stream_started();
    let sizes = [100usize, 333, 480, 7, 2000, 1, 960, 59];
    let mut expected: Vec<u8> = Vec::new();
    let mut sent: Vec<u8> = Vec::new();
    let mut next: i16 = -500;
    for &n in sizes.iter() {
        let chunk: Vec<i16> = (0..n).map(|_| { next = next.wrapping_add(37); next }).collect();
        for v in chunk.iter() {
            expected.extend_from_slice(&v.to_le_bytes());
        }
        if let Some(msg) = s.send_audio(&chunk).unwrap() {
            assert_eq!(msg.len() % 960, 0);
            assert!(msg.len() <= 9600);
            sent.extend(msg);
        }
    }
    let plan = s.stop_stream();
    if let Some(tail) = plan.flush {
        sent.extend(tail);
    }
    assert_eq!(sent, expected);
}
