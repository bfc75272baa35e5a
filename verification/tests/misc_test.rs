use voicetext::capture::{choose_pipeline, CapturePipeline};
use voicetext::commands::vad_timeout_stops;
use voicetext::config_store::tmp_file_name;
use voicetext::models::model_description;
use voicetext::transcription::RecordingStatus;
use voicetext::audio_chunk::AudioChunk;
use voicetext::auto_paste::{
    activate_app_by_bundle_id, check_accessibility_permission, get_active_app_bundle_id,
    open_accessibility_settings,
};
use voicetext::demo::{update_demo_state, DemoState};
use voicetext::errors::{classify_send_error, AudioError, SttConnectionCategory, SttConnectionDetails, SttConnectionError, SttError};
use voicetext::events::{stt_category_to_string, StateSyncInvalidationPayload, TranscriptionErrorDetailsPayload};
use voicetext::models::{available_models, find_model, model_download_url, model_file_name, size_unit, SizeUnit};
use voicetext::text::{is_blank, replace, trim, u64_to_string};
use voicetext::tray::{profile_target, tray_click_shows, tray_menu, tray_menu_action, tray_tooltip, ProfileTarget, TrayAction, TrayMenuEntry};
use voicetext::updater::{check_install_start, next_downloaded_total, UpdateInfo};
use voicetext::whisper_local::{join_segments, whisper_model_name, WhisperLocalState};
use voicetext::config::{SttConfig, SttProviderType};

#[test]
fn audio_chunk_bytes_round_trip() {
    let chunk = AudioChunk::new(vec![0, 1, -1, i16::MAX, i16::MIN, 256], 16000, 1);
    let bytes = chunk.to_bytes();
    assert_eq!(bytes, vec![0, 0, 1, 0, 0xff, 0xff, 0xff, 0x7f, 0, 0x80, 0, 1]);
    let back = AudioChunk::from_bytes(&bytes, 16000, 1);
    assert_eq!(back.data, chunk.data);
    let odd = AudioChunk::from_bytes(&[1, 0, 9], 8000, 2);
    assert_eq!(odd.data, vec![1]);
    assert_eq!(odd.sample_rate, 8000);
    assert_eq!(AudioChunk::new(vec![0; 1600], 16000, 1).duration_ms(), 100);
}

#[test]
fn error_texts_and_classification() {
    let e = SttError::Connection(SttConnectionError::with_category("slow", SttConnectionCategory::Timeout));
    assert_eq!(e.to_display_string(), "Connection error: slow");
    assert_eq!(classify_send_error(&e), ("timeout".to_string(), false));
    assert_eq!(
        classify_send_error(&SttError::Unsupported("x".to_string())),
        ("processing".to_string(), true)
    );
    assert_eq!(AudioError::Capture("c".to_string()).to_display_string(), "Capture error: c");
}

#[test]
fn text_helpers() {
    assert_eq!(replace("wss://a.b", "wss://", ""), "a.b");
    assert_eq!(replace("aaa", "aa", "b"), "ba");
    assert_eq!(trim("\u{3000} x y \u{85}"), "x y");
    assert_eq!(trim(&trim(" a\tb ")), trim(" a\tb "));
    assert!(is_blank(" \t\n"));
    assert!(!is_blank(" a "));
    assert_eq!(u64_to_string(0), "0");
    assert_eq!(u64_to_string(u64::MAX), "18446744073709551615");
}

#[test]
fn error_details_payload() {
    let mut d = SttConnectionDetails::default();
    d.category = Some(SttConnectionCategory::ServerUnavailable);
    d.http_status = Some(503);
    d.server_code = Some("LIMIT".to_string());
    let p = TranscriptionErrorDetailsPayload::from_details(&d);
    assert_eq!(p.category, Some("server_unavailable".to_string()));
    assert_eq!(p.http_status, Some(503));
    assert_eq!(p.server_code, Some("LIMIT".to_string()));
    assert_eq!(stt_category_to_string(SttConnectionCategory::Dns), "dns");
    let inv = StateSyncInvalidationPayload::new("app-config", "3".to_string(), None, 7);
    assert_eq!(inv.topic, "app-config");
    assert_eq!(inv.timestamp_ms, 7);
}

#[test]
fn tray_menu_and_actions() {
    let menu = tray_menu();
    assert_eq!(menu.len(), 6);
    match &menu[0] {
        TrayMenuEntry::Item { id, label } => {
            assert_eq!(*id, "show");
            assert_eq!(*label, "Открыть");
        }
        TrayMenuEntry::Separator => panic!(),
    }
    assert!(matches!(menu[4], TrayMenuEntry::Separator));
    assert_eq!(tray_menu_action("quit"), TrayAction::Quit);
    assert_eq!(tray_menu_action("profile"), TrayAction::OpenProfile);
    assert_eq!(tray_menu_action("other"), TrayAction::Nothing);
    assert_eq!(profile_target(false), ProfileTarget::AuthWindow);
    assert!(tray_click_shows(false));
    assert_eq!(tray_tooltip(), "VoicetextAI");
}

#[test]
fn whisper_model_catalogue() {
    let m = available_models();
    assert_eq!(m.len(), 5);
    assert_eq!(m[2].name, "small");
    assert_eq!(m[2].size_bytes, 466_000_000);
    assert_eq!(find_model("medium"), Some(3));
    assert_eq!(find_model("huge"), None);
    assert_eq!(model_file_name("base"), "ggml-base.bin");
    assert_eq!(
        model_download_url("tiny"),
        "https://huggingface.co/ggerganov/whisper.cpp/resolve/main/ggml-tiny.bin"
    );
    assert_eq!(size_unit(2_900_000_000), SizeUnit::Gigabytes);
    assert_eq!(size_unit(1_048_576), SizeUnit::Megabytes);
    assert_eq!(size_unit(1_048_575), SizeUnit::Kilobytes);
    assert_eq!(size_unit(1023), SizeUnit::Bytes);
}

#[test]
fn update_progress_accumulates() {
    assert_eq!(next_downloaded_total(0, 100, Some(1000)), 100);
    assert_eq!(next_downloaded_total(100, 250, Some(1000)), 250);
    assert_eq!(next_downloaded_total(250, 50, Some(1000)), 300);
    assert_eq!(next_downloaded_total(300, 5000, Some(1000)), 5300);
    assert_eq!(next_downloaded_total(u64::MAX - 1, 5, None), u64::MAX);
    let u = UpdateInfo::new("1.2.3", None);
    assert_eq!(u.version, "1.2.3");
    assert_eq!(u.body, "");
    assert_eq!(
        check_install_start(true),
        Err("Update installation is already in progress".to_string())
    );
}

#[test]
fn demo_state_updates() {
    let mut s = DemoState::default();
    assert_eq!(s.color, "#3b82f6");
    let mut rev = 0u64;
    let r = update_demo_state(&mut s, &mut rev, Some(5), None, Some(150), Some("hi".to_string()));
    assert_eq!(r, "1");
    assert_eq!(s.counter, 5);
    assert_eq!(s.slider_value, 100);
    assert_eq!(s.text, "hi");
    assert_eq!(s.color, "#3b82f6");
}

#[test]
fn portable_paste_helpers() {
    assert!(check_accessibility_permission());
    assert!(open_accessibility_settings().is_ok());
    assert!(get_active_app_bundle_id().is_none());
    assert!(activate_app_by_bundle_id("com.example").is_ok());
}

#[test]
fn whisper_local_stream() {
    let mut w = WhisperLocalState::new();
    assert!(w.start_stream().is_err());
    let config = SttConfig::new(SttProviderType::WhisperLocal);
    assert_eq!(whisper_model_name(&config), "base");
    w.on_model_loaded(&config);
    w.start_stream().unwrap();
    w.send_audio(&[1, 2, 3]).unwrap();
    let job = w.stop_stream().unwrap();
    assert_eq!(job.samples, vec![1, 2, 3]);
    assert_eq!(job.language, "ru");
    assert!(w.send_audio(&[1]).is_err());
    assert_eq!(join_segments(&vec![" Привет".to_string(), "мир ".to_string()]), "Привет мир");
    assert_eq!(join_segments(&vec![]), "");
}

#[test]
fn pipeline_timeout_and_file_names() {
    assert_eq!(choose_pipeline(false, true), CapturePipeline::Mock);
    assert_eq!(choose_pipeline(true, false), CapturePipeline::SystemWithoutVad);
    assert_eq!(choose_pipeline(true, true), CapturePipeline::SystemWithVad);
    assert!(vad_timeout_stops(RecordingStatus::Recording));
    assert!(!vad_timeout_stops(RecordingStatus::Idle));
    assert_eq!(model_description("Модель", false, None), "Модель");
    assert_eq!(model_description("Модель", true, None), "Модель (Скачана)");
    assert_eq!(model_description("Модель", true, Some("142 MB")), "Модель (Скачана, 142 MB на диске)");
    let t = tmp_file_name("app_config.json");
    assert!(t.starts_with("app_config.json.tmp."));
    assert_eq!(t.len(), "app_config.json".len() + 41);
    assert_ne!(t, tmp_file_name("app_config.json"));
}

#[test]
fn connection_error_text_is_its_message() {
    let e = SttConnectionError::simple("boom");
    assert_eq!(e.message, "boom");
    assert_eq!(e.details, SttConnectionDetails::default());
    assert_eq!(e.to_display_string(), "boom");
    let e = SttConnectionError::with_category("slow", SttConnectionCategory::Timeout);
    assert_eq!(e.to_display_string(), "slow");
}
