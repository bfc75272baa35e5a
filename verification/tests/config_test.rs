use voicetext::config::{AppConfig, SttConfig, SttProviderType, UiPreferences};

#[test]
fn test_stt_provider_type_default() {
    assert_eq!(SttProviderType::default(), SttProviderType::Backend);
}

#[test]
fn test_stt_config_default() {
    let config = SttConfig::default();
    assert_eq!(config.provider, SttProviderType::Backend);
    assert_eq!(config.language, "ru");
    assert!(!config.auto_detect_language);
    assert!(config.enable_punctuation);
    assert!(!config.filter_profanity);
    assert!(config.deepgram_api_key.is_none());
    assert!(config.assemblyai_api_key.is_none());
    assert!(config.model.is_none());
    assert!(config.backend_auth_token.is_none());
    assert!(config.backend_url.is_none());
    assert!(!config.keep_connection_alive);
    assert_eq!(config.keep_alive_ttl_secs, 120);
}

#[test]
fn test_stt_config_new() {
    let config = SttConfig::new(SttProviderType::AssemblyAI);
    assert_eq!(config.provider, SttProviderType::AssemblyAI);
    assert_eq!(config.language, "ru");
}

#[test]
fn test_stt_config_with_language() {
    let config = SttConfig::new(SttProviderType::Deepgram).with_language("en");
    assert_eq!(config.language, "en");
}

#[test]
fn test_stt_config_with_model() {
    let config = SttConfig::new(SttProviderType::WhisperLocal).with_model("base");
    assert_eq!(config.model, Some("base".to_string()));
}

#[test]
fn test_stt_config_builder_chain() {
    let config = SttConfig::new(SttProviderType::Deepgram)
        .with_language("en")
        .with_model("nova-2");

    assert_eq!(config.provider, SttProviderType::Deepgram);
    assert_eq!(config.language, "en");
    assert_eq!(config.model, Some("nova-2".to_string()));
}

#[test]
fn test_app_config_default() {
    let config = AppConfig::default();
    assert_eq!(config.recording_hotkey, "CmdOrCtrl+Shift+X");
    assert!(config.auto_copy_to_clipboard);
    assert!(config.auto_close_window);
    assert_eq!(config.vad_silence_timeout_ms, 3000);
    assert_eq!(config.microphone_sensitivity, 95);
    assert!(config.keep_history);
    assert_eq!(config.max_history_items, 20);
}

#[test]
fn test_stt_provider_type_equality() {
    assert_eq!(SttProviderType::Deepgram, SttProviderType::Deepgram);
    assert_ne!(SttProviderType::Deepgram, SttProviderType::AssemblyAI);
}

#[test]
fn test_stt_config_clone() {
    let config1 = SttConfig::new(SttProviderType::Deepgram).with_language("en");
    let config2 = config1.clone();
    assert_eq!(config1.provider, config2.provider);
    assert_eq!(config1.language, config2.language);
}

#[test]
fn test_app_config_clone() {
    let config1 = AppConfig::default();
    let config2 = config1.clone();
    assert_eq!(config1.recording_hotkey, config2.recording_hotkey);
    assert_eq!(config1.microphone_sensitivity, config2.microphone_sensitivity);
}

#[test]
fn stt_config_duplicate_keeps_every_field() {
    let mut config = SttConfig::new(SttProviderType::Deepgram).with_model("nova-3");
    config.backend_url = Some("ws://x".to_string());
    config.keep_alive_ttl_secs = 7;
    let copy = config.duplicate();
    assert_eq!(copy.provider, SttProviderType::Deepgram);
    assert_eq!(copy.model, Some("nova-3".to_string()));
    assert_eq!(copy.backend_url, Some("ws://x".to_string()));
    assert_eq!(copy.keep_alive_ttl_secs, 7);
}

#[test]
fn ui_preferences_default_is_dark_russian() {
    let p = UiPreferences::default();
    assert_eq!(p.theme, "dark");
    assert_eq!(p.locale, "ru");
}

#[test]
fn default_app_config_keeps_no_device_and_default_stt() {
    let config = AppConfig::default();
    assert!(config.selected_audio_device.is_none());
    assert!(!config.auto_paste_text);
    assert_eq!(config.stt.provider, SttProviderType::Backend);
    assert_eq!(config.stt.language, "ru");
}
