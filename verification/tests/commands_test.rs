use voicetext::commands::{
    apply_app_config_update, apply_stt_update, bump_revision, center_on_monitor, check_mic_test_start,
    check_mic_test_stop, check_settings_access, hotkey_press, merge_loaded_stt_config, mic_test_device,
    mic_test_sensitivity, paste_activation_delay_ms, plan_set_authenticated, push_mic_test_samples,
    toggle_action, trim_to_last, ui_preferences_unchanged, AppConfigSnapshotData, SttConfigSnapshotData,
    ToggleAction,
};
use voicetext::config::{AppConfig, SttConfig, SttProviderType};
use voicetext::transcription::RecordingStatus;

#[test]
fn toggle_actions_per_status() {
    assert_eq!(toggle_action(false, RecordingStatus::Idle, false), ToggleAction::ShowAuthWindow);
    assert_eq!(
        toggle_action(true, RecordingStatus::Idle, false),
        ToggleAction::StartRecording { show_window: true }
    );
    assert_eq!(
        toggle_action(true, RecordingStatus::Idle, true),
        ToggleAction::StartRecording { show_window: false }
    );
    assert_eq!(toggle_action(true, RecordingStatus::Recording, true), ToggleAction::StopRecording);
    assert_eq!(toggle_action(true, RecordingStatus::Starting, true), ToggleAction::Ignore);
    assert_eq!(toggle_action(true, RecordingStatus::Processing, true), ToggleAction::Ignore);
    assert_eq!(toggle_action(true, RecordingStatus::Error, true), ToggleAction::Ignore);
}

#[test]
fn hotkey_presses_are_debounced() {
    assert_eq!(hotkey_press(1000, 0), Some(1000));
    assert_eq!(hotkey_press(1449, 1000), None);
    assert_eq!(hotkey_press(1450, 1000), Some(1450));
    assert_eq!(hotkey_press(-5, 0), None);
    assert_eq!(hotkey_press(500, 2000), None);
}

#[test]
fn history_keeps_last_items() {
    let mut v: Vec<u32> = (0..25).collect();
    trim_to_last(&mut v, 20);
    assert_eq!(v, (5..25).collect::<Vec<u32>>());
    trim_to_last(&mut v, 30);
    assert_eq!(v.len(), 20);
    trim_to_last(&mut v, 0);
    assert!(v.is_empty());
}

#[test]
fn mic_test_buffer_keeps_five_seconds() {
    let mut b: Vec<i16> = vec![1; 79_000];
    push_mic_test_samples(&mut b, &vec![2; 2_000]);
    assert_eq!(b.len(), 80_000);
    assert_eq!(b[0], 1);
    assert_eq!(b[77_999], 1);
    assert_eq!(b[78_000], 2);
}

#[test]
fn windows_are_centered() {
    assert_eq!(center_on_monitor(0, 0, 1920, 1080, 400, 200), (760, 440));
    assert_eq!(center_on_monitor(100, -50, 300, 300, 401, 200), (50, 0));
}

#[test]
fn revisions_grow_and_saturate() {
    assert_eq!(bump_revision(0), (1, "1".to_string()));
    assert_eq!(bump_revision(41), (42, "42".to_string()));
    assert_eq!(bump_revision(u64::MAX), (u64::MAX, u64::MAX.to_string()));
}

#[test]
fn stt_update_forces_backend_settings() {
    let mut c = SttConfig::new(SttProviderType::Deepgram).with_model("nova-2");
    c.deepgram_api_key = Some("k".to_string());
    c.backend_auth_token = Some("t".to_string());
    let (n, changed) = apply_stt_update(c, "en");
    assert!(changed);
    assert_eq!(n.provider, SttProviderType::Backend);
    assert_eq!(n.language, "en");
    assert!(n.model.is_none());
    assert!(n.deepgram_api_key.is_none());
    assert!(n.keep_connection_alive);
    assert_eq!(n.backend_auth_token, Some("t".to_string()));
    let (_, changed) = apply_stt_update(n, "en");
    assert!(!changed);
}

#[test]
fn app_config_update_applies_and_reports_changes() {
    let mut c = AppConfig::default();
    let ch = apply_app_config_update(&mut c, Some(250), None, Some(false), None, Some("")).unwrap();
    assert!(ch.any_changed);
    assert_eq!(c.microphone_sensitivity, 200);
    assert_eq!(ch.apply_sensitivity, Some(200));
    assert!(!c.auto_copy_to_clipboard);
    assert!(!ch.device_changed);
    let ch = apply_app_config_update(&mut c, None, None, None, None, Some("USB Mic")).unwrap();
    assert!(ch.device_changed && ch.any_changed);
    assert_eq!(c.selected_audio_device, Some("USB Mic".to_string()));
    let ch = apply_app_config_update(&mut c, None, Some("Alt+X"), None, None, None).unwrap();
    assert!(ch.hotkey_changed);
    assert_eq!(c.recording_hotkey, "Alt+X");
}

#[test]
fn app_config_update_with_same_values_changes_nothing() {
    let mut c = AppConfig::default();
    let before = c.clone();
    let ch = apply_app_config_update(
        &mut c,
        Some(95),
        Some("CmdOrCtrl+Shift+X"),
        Some(true),
        Some(false),
        Some(""),
    )
    .unwrap();
    assert!(!ch.any_changed);
    assert!(!ch.hotkey_changed);
    assert!(!ch.device_changed);
    assert_eq!(c.recording_hotkey, before.recording_hotkey);
    assert_eq!(c.microphone_sensitivity, before.microphone_sensitivity);
}

#[test]
fn app_config_update_refuses_bad_hotkey() {
    let mut c = AppConfig::default();
    let r = apply_app_config_update(&mut c, Some(10), Some("Nope+Nope"), Some(false), None, None);
    match r {
        Err(m) => assert_eq!(m, "Неверный формат горячей клавиши: Nope+Nope"),
        Ok(_) => panic!("must refuse"),
    }
    assert_eq!(c.microphone_sensitivity, 10);
    assert_eq!(c.recording_hotkey, "CmdOrCtrl+Shift+X");
    assert!(c.auto_copy_to_clipboard);
}

#[test]
fn ui_preferences_change_detection() {
    assert!(ui_preferences_unchanged("dark", "ru", "dark", "ru"));
    assert!(!ui_preferences_unchanged("dark", "ru", "light", "ru"));
}

#[test]
fn set_authenticated_plans() {
    let mut c = SttConfig::default();
    let p = plan_set_authenticated(false, true, Some("tok"), &mut c);
    assert!(p.flag_changed && p.save_config && p.announce);
    assert_eq!(c.backend_auth_token, Some("tok".to_string()));
    let p = plan_set_authenticated(true, true, Some("tok"), &mut c);
    assert!(!p.flag_changed && !p.save_config && !p.announce);
    let p = plan_set_authenticated(true, true, Some("tok2"), &mut c);
    assert!(!p.flag_changed && p.save_config && !p.announce);
    assert_eq!(c.backend_auth_token, Some("tok2".to_string()));
    let p = plan_set_authenticated(true, false, None, &mut c);
    assert!(p.flag_changed && p.save_config && p.announce);
    assert!(c.backend_auth_token.is_none());
}

#[test]
fn microphone_test_rules() {
    assert_eq!(mic_test_sensitivity(Some(250), 95), 200);
    assert_eq!(mic_test_sensitivity(None, 95), 95);
    assert_eq!(mic_test_device(Some("")), None);
    assert_eq!(mic_test_device(Some("Mic")), Some("Mic".to_string()));
    assert_eq!(check_mic_test_start(true), Err("Microphone test already running".to_string()));
    assert_eq!(check_mic_test_start(false), Ok(()));
    assert_eq!(check_mic_test_stop(false), Err("Microphone test not running".to_string()));
    assert_eq!(check_settings_access(false), Err("Not authenticated".to_string()));
    assert_eq!(paste_activation_delay_ms(true, true), 150);
    assert_eq!(paste_activation_delay_ms(true, false), 50);
    assert_eq!(paste_activation_delay_ms(false, false), 0);
}

#[test]
fn snapshots_copy_public_fields_only() {
    let mut app = AppConfig::default();
    app.stt.backend_auth_token = Some("secret".to_string());
    let s = AppConfigSnapshotData::from_config(&app);
    assert_eq!(s.microphone_sensitivity, 95);
    assert_eq!(s.recording_hotkey, "CmdOrCtrl+Shift+X");
    let t = SttConfigSnapshotData::from_config(&app.stt);
    assert_eq!(t.provider, SttProviderType::Backend);
    assert_eq!(t.language, "ru");
}

#[test]
fn loaded_config_keeps_token_handed_over_meanwhile() {
    let saved = SttConfig::default();
    let merged = merge_loaded_stt_config(saved, &Some("live".to_string()));
    assert_eq!(merged.backend_auth_token, Some("live".to_string()));
    let mut saved = SttConfig::default();
    saved.backend_auth_token = Some("file".to_string());
    let merged = merge_loaded_stt_config(saved, &Some("live".to_string()));
    assert_eq!(merged.backend_auth_token, Some("file".to_string()));
}
