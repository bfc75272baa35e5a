use voicetext::auth::{AuthSession, AuthStore, AuthStoreData};
use voicetext::config_store::{ConfigStore, LoadOutcome, MarkerRead, PostUpdateMarker};

#[test]
fn auth_store_app_dir_name_matches_build_profile() {
    assert_eq!(AuthStore::app_dir_name(true), "voice-to-text-dev");
    assert_eq!(AuthStore::app_dir_name(false), "voice-to-text");
}

#[test]
fn config_store_app_dir_name_matches_build_profile() {
    assert_eq!(ConfigStore::app_dir_name(true), "voice-to-text-dev");
    assert_eq!(ConfigStore::app_dir_name(false), "voice-to-text");
}

#[test]
fn legacy_dir_is_the_release_dir() {
    assert_eq!(AuthStore::legacy_shared_dir_name(), AuthStore::app_dir_name(false));
    assert_eq!(ConfigStore::legacy_shared_dir_name(), ConfigStore::app_dir_name(false));
}

#[test]
fn legacy_migration_only_in_debug_when_target_missing_and_legacy_present() {
    assert!(AuthStore::legacy_migration_needed(true, false, true));
    assert!(!AuthStore::legacy_migration_needed(false, false, true));
    assert!(!AuthStore::legacy_migration_needed(true, true, true));
    assert!(!AuthStore::legacy_migration_needed(true, false, false));
    assert!(ConfigStore::legacy_migration_needed(true, false, true));
    assert!(!ConfigStore::legacy_migration_needed(false, false, true));
}

#[test]
fn settings_file_names() {
    assert_eq!(ConfigStore::stt_config_file_name(), "stt_config.json");
    assert_eq!(ConfigStore::app_config_file_name(), "app_config.json");
    assert_eq!(ConfigStore::ui_preferences_file_name(), "ui_preferences.json");
    assert_eq!(ConfigStore::post_update_marker_file_name(), "post_update.json");
    assert_eq!(AuthStore::store_file_name(), "auth_store.json");
    assert_eq!(
        ConfigStore::legacy_settings_files(),
        vec!["stt_config.json", "app_config.json", "ui_preferences.json"]
    );
}

#[test]
fn backup_path_appends_bak() {
    assert_eq!(ConfigStore::backup_path("/tmp/app_config.json"), "/tmp/app_config.json.bak");
}

#[test]
fn custom_config_dir_is_trimmed_and_blank_is_ignored() {
    assert_eq!(ConfigStore::custom_config_dir(None), None);
    assert_eq!(ConfigStore::custom_config_dir(Some("   ")), None);
    assert_eq!(ConfigStore::custom_config_dir(Some("")), None);
    assert_eq!(ConfigStore::custom_config_dir(Some("  /tmp/cfg \n")), Some("/tmp/cfg".to_string()));
}

#[test]
fn post_update_marker_taken_from_reads() {
    assert!(ConfigStore::take_post_update_marker_from(MarkerRead::Missing).is_none());
    let unknown = ConfigStore::take_post_update_marker_from(MarkerRead::Unreadable).unwrap();
    assert_eq!(unknown.version, "unknown");
    assert_eq!(unknown.created_at_ms, 0);
    let m = PostUpdateMarker::new("9.9.9", 42);
    let taken = ConfigStore::take_post_update_marker_from(MarkerRead::Read(Some(m))).unwrap();
    assert_eq!(taken.version, "9.9.9");
    assert_eq!(taken.created_at_ms, 42);
    assert!(ConfigStore::take_post_update_marker_from(MarkerRead::Read(None)).is_none());
}

#[test]
fn load_outcome_prefers_main_then_backup() {
    assert!(matches!(ConfigStore::load_outcome(false, false, false, false, false), LoadOutcome::Defaults));
    assert!(matches!(ConfigStore::load_outcome(true, true, true, false, false), LoadOutcome::Main));
    assert!(matches!(ConfigStore::load_outcome(true, false, false, true, true), LoadOutcome::Backup));
    assert!(matches!(ConfigStore::load_outcome(true, true, false, true, true), LoadOutcome::Backup));
    assert!(matches!(ConfigStore::load_outcome(true, true, false, true, false), LoadOutcome::Failed));
    assert!(matches!(ConfigStore::load_outcome(true, false, false, false, true), LoadOutcome::Failed));
}

#[test]
fn new_device_id_has_desktop_prefix_and_v4_uuid() {
    let id = AuthStore::new_device_id();
    assert_eq!(id.len(), 44);
    assert!(id.starts_with("desktop-"));
    let u: Vec<char> = id[8..].chars().collect();
    assert_eq!(u[8], '-');
    assert_eq!(u[13], '-');
    assert_eq!(u[14], '4');
    assert!(matches!(u[19], '8' | '9' | 'a' | 'b'));
    let other = AuthStore::new_device_id();
    assert_ne!(id, other);
}

#[test]
fn clearing_session_keeps_device_id() {
    let mut data = AuthStoreData {
        device_id: "desktop-1".to_string(),
        session: Some(AuthSession {
            access_token: "a".to_string(),
            refresh_token: None,
            access_expires_at_ms: 1,
            refresh_expires_at_ms: None,
            user: None,
        }),
    };
    assert!(data.is_authenticated());
    data.clear_session();
    assert!(!data.is_authenticated());
    assert_eq!(data.device_id, "desktop-1");
}
