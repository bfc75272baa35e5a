use voicetext::auth::{
    decide_refresh, has_refresh_token, refresh_due, refresh_rejection_is_stale, refresh_wait_ms,
    session_refreshable, AuthSession, AuthStoreData, RefreshData, RefreshDecision, RefreshOutcome,
};

fn session(refresh: Option<&str>, access_exp: i64, refresh_exp: Option<i64>) -> AuthSession {
    AuthSession {
        access_token: "a".to_string(),
        refresh_token: refresh.map(|s| s.to_string()),
        access_expires_at_ms: access_exp,
        refresh_expires_at_ms: refresh_exp,
        user: None,
    }
}

#[test]
fn refresh_runs_only_with_live_refresh_token() {
    assert!(!session_refreshable(&None, 0));
    assert!(!session_refreshable(&Some(session(None, 10, None)), 0));
    assert!(session_refreshable(&Some(session(Some("r"), 10, None)), 0));
    assert!(session_refreshable(&Some(session(Some("r"), 10, Some(1001))), 1000));
    assert!(!session_refreshable(&Some(session(Some("r"), 10, Some(1000))), 1000));
    assert!(has_refresh_token(&Some(session(Some("r"), 0, None))));
    assert!(!has_refresh_token(&None));
}

#[test]
fn refresh_waits_until_two_minutes_before_expiry() {
    assert_eq!(refresh_wait_ms(1_000_000, 500_000), 380_000);
    assert_eq!(refresh_wait_ms(1_000_000, 900_000), 0);
    assert_eq!(refresh_wait_ms(i64::MAX, i64::MIN), u64::MAX - 120_000);
    assert!(refresh_due(1_000_000, 880_000));
    assert!(!refresh_due(1_000_000, 879_999));
}

#[test]
fn rejection_is_stale_when_store_moved_on() {
    let store = AuthStoreData {
        device_id: "desktop-1".to_string(),
        session: Some(session(Some("r2"), 0, None)),
    };
    assert!(!refresh_rejection_is_stale(&store, "desktop-1", "r2"));
    assert!(refresh_rejection_is_stale(&store, "desktop-1", "r1"));
    assert!(refresh_rejection_is_stale(&store, "desktop-2", "r2"));
    let empty = AuthStoreData { device_id: "desktop-1".to_string(), session: None };
    assert!(refresh_rejection_is_stale(&empty, "desktop-1", "r2"));
}

fn data(refresh: Option<&str>, access_at: &str, refresh_at: Option<&str>) -> RefreshData {
    RefreshData {
        access_token: "new-access".to_string(),
        refresh_token: refresh.map(|s| s.to_string()),
        access_expires_at: access_at.to_string(),
        refresh_expires_at: refresh_at.map(|s| s.to_string()),
        user: None,
    }
}

#[test]
fn refresh_decisions() {
    assert!(matches!(decide_refresh(RefreshOutcome::NetworkError, "r"), RefreshDecision::RetryLater));
    assert!(matches!(decide_refresh(RefreshOutcome::HttpError(500), "r"), RefreshDecision::RetryLater));
    assert!(matches!(decide_refresh(RefreshOutcome::InvalidBody, "r"), RefreshDecision::RetryLater));
    assert!(matches!(decide_refresh(RefreshOutcome::Unauthorized, "r"), RefreshDecision::CheckStale));
    assert!(matches!(
        decide_refresh(RefreshOutcome::Success(data(None, "not a date", None)), "r"),
        RefreshDecision::RetryLater
    ));
    match decide_refresh(
        RefreshOutcome::Success(data(None, "2024-01-01T00:02:00Z", Some("2024-01-02T00:00:00+01:00"))),
        "old-refresh",
    ) {
        RefreshDecision::Store(s) => {
            assert_eq!(s.access_token, "new-access");
            assert_eq!(s.refresh_token, Some("old-refresh".to_string()));
            assert_eq!(s.access_expires_at_ms, 1_704_067_320_000);
            assert_eq!(s.refresh_expires_at_ms, Some(1_704_150_000_000));
        }
        _ => panic!("expected a stored session"),
    }
    match decide_refresh(RefreshOutcome::Success(data(Some("rotated"), "2024-01-01T00:00:00Z", Some("bad"))), "old") {
        RefreshDecision::Store(s) => {
            assert_eq!(s.refresh_token, Some("rotated".to_string()));
            assert_eq!(s.refresh_expires_at_ms, None);
        }
        _ => panic!("expected a stored session"),
    }
}

#[test]
fn blank_device_id_is_replaced_and_others_kept() {
    let mut data = AuthStoreData { device_id: "  \t".to_string(), session: None };
    assert!(data.ensure_device_id());
    assert!(data.device_id.starts_with("desktop-"));
    assert_eq!(data.device_id.len(), 44);
    let mut data = AuthStoreData { device_id: String::new(), session: None };
    assert!(data.ensure_device_id());
    assert!(data.device_id.starts_with("desktop-"));
    let mut data = AuthStoreData { device_id: "desktop-abc".to_string(), session: None };
    assert!(!data.ensure_device_id());
    assert_eq!(data.device_id, "desktop-abc");
}
