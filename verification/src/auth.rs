//! The auth store (device id and session) and the rules of the background
//! token refresh: when a refresh is due, which answers retry, which clear
//! the session, and what a successful refresh stores.
use vstd::prelude::*;

use crate::text::{concat, dup_opt_string, is_blank, is_blank_seq};

verus! {

/// A signed-in user.
#[derive(Debug, Clone)]
pub struct AuthUser {
    pub id: String,
    pub email: String,
    pub email_verified: bool,
}

/// Tokens of a session and their lifetimes (milliseconds since the epoch).
#[derive(Debug, Clone)]
pub struct AuthSession {
    pub access_token: String,
    pub refresh_token: Option<String>,
    pub access_expires_at_ms: i64,
    pub refresh_expires_at_ms: Option<i64>,
    pub user: Option<AuthUser>,
}

/// What the auth store keeps on disk: the device id shared by all windows
/// and the current session, if any.
#[derive(Debug, Clone)]
pub struct AuthStoreData {
    pub device_id: String,
    pub session: Option<AuthSession>,
}

impl AuthStoreData {
    /// Signed in: there is a session.
    pub fn is_authenticated(&self) -> (b: bool)
        ensures
            b == self.session is Some,
    {
        self.session.is_some()
    }

    /// Signs out but keeps the device id.
    pub fn clear_session(&mut self)
        ensures
            final(self).session is None,
            final(self).device_id == old(self).device_id,
    {
        self.session = None;
    }

    /// A device id is required: a blank one (white space only) is replaced
    /// by a fresh id, any other is kept. Returns whether it was replaced,
    /// in which case the store is to be saved again.
    pub fn ensure_device_id(&mut self) -> (replaced: bool)
        ensures
            replaced == is_blank_seq(old(self).device_id@),
            replaced ==> is_device_id(final(self).device_id@) && final(self).session == old(self).session,
            !replaced ==> *final(self) == *old(self),
    {
        if is_blank(self.device_id.as_str()) {
            self.device_id = AuthStore::new_device_id();
            true
        } else {
            false
        }
    }
}

impl AuthUser {
    /// A copy of this user.
    pub fn duplicate(&self) -> (r: Self)
        ensures
            r == *self,
    {
        AuthUser { id: self.id.clone(), email: self.email.clone(), email_verified: self.email_verified }
    }
}

impl AuthSession {
    /// A copy of this session.
    pub fn duplicate(&self) -> (r: Self)
        ensures
            r == *self,
    {
        AuthSession {
            access_token: self.access_token.clone(),
            refresh_token: dup_opt_string(&self.refresh_token),
            access_expires_at_ms: self.access_expires_at_ms,
            refresh_expires_at_ms: self.refresh_expires_at_ms,
            user: match &self.user {
                Some(u) => Some(u.duplicate()),
                None => None,
            },
        }
    }
}

/// Text of a version 4 UUID as `Uuid` displays it: 36 characters, lower
/// case hexadecimal in groups of 8-4-4-4-12, version digit `4`, variant
/// digit one of `8 9 a b`.
pub open spec fn is_v4_uuid_text(s: Seq<char>) -> bool {
    &&& s.len() == 36
    &&& forall|i: int|
        0 <= i < 36 ==> if i == 8 || i == 13 || i == 18 || i == 23 {
            s[i] == '-'
        } else {
            ('0' <= #[trigger] s[i] <= '9') || ('a' <= s[i] <= 'f')
        }
    &&& s[14] == '4'
    &&& (s[19] == '8' || s[19] == '9' || s[19] == 'a' || s[19] == 'b')
}

/// `Uuid::new_v4` shown as text. The value is random: only its shape is
/// stated (the crate masks in the version and variant bits and displays
/// the hyphenated lower-case form).
#[verifier::external_body]
pub(crate) fn new_uuid_v4_text() -> (s: String)
    ensures
        is_v4_uuid_text(s@),
{
    uuid::Uuid::new_v4().to_string()
}

/// A device id as the store makes them: `desktop-` and a random v4 UUID.
pub open spec fn is_device_id(s: Seq<char>) -> bool {
    s.len() == 44 && s.take(8) == "desktop-"@ && is_v4_uuid_text(s.skip(8))
}

/// The auth store on disk.
pub struct AuthStore;

impl AuthStore {
    /// Directory of the store under the user's configuration directory:
    /// debug builds keep their own, so they never touch a release login.
    pub fn app_dir_name(debug_build: bool) -> (n: &'static str)
        ensures
            debug_build ==> n@ == "voice-to-text-dev"@,
            !debug_build ==> n@ == "voice-to-text"@,
    {
        if debug_build {
            "voice-to-text-dev"
        } else {
            "voice-to-text"
        }
    }

    /// Directory that all builds shared before they were split.
    pub fn legacy_shared_dir_name() -> (n: &'static str)
        ensures
            n@ == "voice-to-text"@,
    {
        "voice-to-text"
    }

    /// File name of the store.
    pub fn store_file_name() -> (n: &'static str)
        ensures
            n@ == "auth_store.json"@,
    {
        "auth_store.json"
    }

    /// A fresh device id.
    pub fn new_device_id() -> (s: String)
        ensures
            is_device_id(s@),
    {
        let u = new_uuid_v4_text();
        let s = concat("desktop-", u.as_str());
        proof {
            reveal_strlit("desktop-");
            assert(s@.take(8) =~= "desktop-"@);
            assert(s@.skip(8) =~= u@);
        }
        s
    }

    /// Whether the store of a debug build is copied over from the shared
    /// legacy directory: only in a debug build (whose directory differs from
    /// the legacy one), only when it has no store yet and a legacy one exists.
    pub fn legacy_migration_needed(debug_build: bool, target_exists: bool, legacy_exists: bool) -> (b:
        bool)
        ensures
            b == (debug_build && !target_exists && legacy_exists),
    {
        debug_build && !target_exists && legacy_exists
    }
}

/// Refresh starts this long before the access token expires.
pub const REFRESH_BUFFER_MS: i64 = 120000;

/// Wait after a failed refresh attempt, in seconds.
pub const ERROR_RETRY_DELAY_SECS: u64 = 30;

/// Wait before a rejected refresh is checked against the store again, in
/// milliseconds (another window may have rotated the token meanwhile).
pub const STALE_CHECK_DELAY_MS: u64 = 300;

/// A session that the background task keeps fresh: it has a refresh token
/// that is not known to have expired.
pub open spec fn spec_refreshable(session: Option<AuthSession>, now_ms: i64) -> bool {
    match session {
        Some(s) => s.refresh_token is Some && !(s.refresh_expires_at_ms matches Some(exp) && exp
            <= now_ms),
        None => false,
    }
}

/// Whether the refresh task runs (or keeps running) for this session.
pub fn session_refreshable(session: &Option<AuthSession>, now_ms: i64) -> (b: bool)
    ensures
        b == spec_refreshable(*session, now_ms),
{
    match session {
        Some(s) => {
            if s.refresh_token.is_none() {
                return false;
            }
            match s.refresh_expires_at_ms {
                Some(exp) => !(exp <= now_ms),
                None => true,
            }
        },
        None => false,
    }
}

/// Whether there still is a session with a refresh token.
pub fn has_refresh_token(session: &Option<AuthSession>) -> (b: bool)
    ensures
        b == (session matches Some(s) && s.refresh_token is Some),
{
    match session {
        Some(s) => s.refresh_token.is_some(),
        None => false,
    }
}

/// How long to wait before refreshing: until two minutes before the access
/// token expires, and not at all when that moment has passed.
pub open spec fn spec_refresh_wait_ms(access_expires_at_ms: i64, now_ms: i64) -> int {
    let d = access_expires_at_ms - REFRESH_BUFFER_MS - now_ms;
    if d > 0 {
        d
    } else {
        0
    }
}

/// The wait before the next refresh attempt, in milliseconds.
pub fn refresh_wait_ms(access_expires_at_ms: i64, now_ms: i64) -> (w: u64)
    ensures
        w == spec_refresh_wait_ms(access_expires_at_ms, now_ms),
{
    let d: i128 = access_expires_at_ms as i128 - REFRESH_BUFFER_MS as i128 - now_ms as i128;
    if d > 0 {
        d as u64
    } else {
        0
    }
}

/// A refresh is due once the access token expires within two minutes.
pub fn refresh_due(access_expires_at_ms: i64, now_ms: i64) -> (b: bool)
    ensures
        b == (access_expires_at_ms - REFRESH_BUFFER_MS <= now_ms),
{
    (access_expires_at_ms as i128 - REFRESH_BUFFER_MS as i128) <= now_ms as i128
}

/// A rejected refresh concerns a session that is no longer current: the
/// device id or the refresh token in the store changed since the request.
pub fn refresh_rejection_is_stale(
    store: &AuthStoreData,
    sent_device_id: &str,
    sent_refresh_token: &str,
) -> (b: bool)
    ensures
        b == (store.device_id@ != sent_device_id@ || !(store.session matches Some(s)
            && s.refresh_token matches Some(t) && t@ == sent_refresh_token@)),
{
    let same_device = crate::text::str_eq(store.device_id.as_str(), sent_device_id);
    let same_token = match &store.session {
        Some(s) => match &s.refresh_token {
            Some(t) => crate::text::str_eq(t.as_str(), sent_refresh_token),
            None => false,
        },
        None => false,
    };
    !same_device || !same_token
}

/// Milliseconds since the epoch of an RFC 3339 timestamp, as `chrono`
/// reads it (`None` where it does not parse).
pub uninterp spec fn rfc3339_millis(s: Seq<char>) -> Option<i64>;

/// `chrono::DateTime::parse_from_rfc3339` followed by `timestamp_millis`.
/// The result is named, not described: the instant that `chrono` reads.
#[verifier::external_body]
fn parse_rfc3339_to_ms(s: &str) -> (r: Option<i64>)
    ensures
        r == rfc3339_millis(s@),
{
    match chrono::DateTime::parse_from_rfc3339(s) {
        Ok(dt) => Some(dt.timestamp_millis()),
        Err(_) => None,
    }
}

/// The `data` of a successful answer of the refresh endpoint.
pub struct RefreshData {
    pub access_token: String,
    pub refresh_token: Option<String>,
    pub access_expires_at: String,
    pub refresh_expires_at: Option<String>,
    pub user: Option<AuthUser>,
}

/// Answer of one refresh attempt.
pub enum RefreshOutcome {
    /// The request did not reach the server
    NetworkError,
    /// 401: the refresh token was rejected
    Unauthorized,
    /// Another status that is not a success
    HttpError(u16),
    /// A success whose body is not the expected JSON
    InvalidBody,
    /// A success with its data
    Success(RefreshData),
}

/// What the refresh task does after an answer.
pub enum RefreshDecision {
    /// Wait `ERROR_RETRY_DELAY_SECS` and try again
    RetryLater,
    /// Wait `STALE_CHECK_DELAY_MS`, then either start over (the store moved
    /// on) or clear the session
    CheckStale,
    /// Store this session and schedule the next refresh
    Store(AuthSession),
}

/// The session stored after a successful refresh.
pub open spec fn spec_refreshed_session(
    d: RefreshData,
    access_expires_at_ms: i64,
    sent_refresh_token: Seq<char>,
    s: AuthSession,
) -> bool {
    &&& s.access_token@ == d.access_token@
    &&& s.refresh_token is Some
    &&& s.refresh_token->0@ == match d.refresh_token {
        Some(t) => t@,
        None => sent_refresh_token,
    }
    &&& s.access_expires_at_ms == access_expires_at_ms
    &&& s.refresh_expires_at_ms == match d.refresh_expires_at {
        Some(t) => rfc3339_millis(t@),
        None => None,
    }
    &&& s.user == d.user
}

/// The decision for an answer: failures retry later, a rejection is checked
/// against the store first, and a success is stored once its access expiry
/// parses; a server that sends no new refresh token leaves the sent one in
/// place.
pub fn decide_refresh(outcome: RefreshOutcome, sent_refresh_token: &str) -> (d: RefreshDecision)
    ensures
        match outcome {
            RefreshOutcome::NetworkError => d is RetryLater,
            RefreshOutcome::HttpError(_) => d is RetryLater,
            RefreshOutcome::InvalidBody => d is RetryLater,
            RefreshOutcome::Unauthorized => d is CheckStale,
            RefreshOutcome::Success(data) => match rfc3339_millis(data.access_expires_at@) {
                None => d is RetryLater,
                Some(ms) => d matches RefreshDecision::Store(s) && spec_refreshed_session(
                    data,
                    ms,
                    sent_refresh_token@,
                    s,
                ),
            },
        },
{
    match outcome {
        RefreshOutcome::NetworkError => RefreshDecision::RetryLater,
        RefreshOutcome::HttpError(_) => RefreshDecision::RetryLater,
        RefreshOutcome::InvalidBody => RefreshDecision::RetryLater,
        RefreshOutcome::Unauthorized => RefreshDecision::CheckStale,
        RefreshOutcome::Success(data) => {
            match parse_rfc3339_to_ms(data.access_expires_at.as_str()) {
                None => RefreshDecision::RetryLater,
                Some(access_ms) => {
                    let refresh_ms = match &data.refresh_expires_at {
                        Some(t) => parse_rfc3339_to_ms(t.as_str()),
                        None => None,
                    };
                    let refresh_token = match data.refresh_token {
                        Some(t) => t,
                        None => sent_refresh_token.to_owned(),
                    };
                    RefreshDecision::Store(
                        AuthSession {
                            access_token: data.access_token,
                            refresh_token: Some(refresh_token),
                            access_expires_at_ms: access_ms,
                            refresh_expires_at_ms: refresh_ms,
                            user: data.user,
                        },
                    )
                },
            }
        },
    }
}

/// A successful refresh never loses the refresh token: after it the task
/// goes on refreshing unless the server reports that the refresh token
/// itself has expired by now.
pub proof fn lemma_refresh_keeps_refresh_token(
    d: RefreshData,
    ms: i64,
    sent: Seq<char>,
    s: AuthSession,
    now_ms: i64,
)
    requires
        spec_refreshed_session(d, ms, sent, s),
    ensures
        spec_refreshable(Some(s), now_ms) <==> !(s.refresh_expires_at_ms matches Some(exp) && exp
            <= now_ms),
{
}

/// The refresh never comes before two minutes ahead of the access expiry,
/// unless that moment has already passed.
pub proof fn lemma_refresh_not_early(access_expires_at_ms: i64, now_ms: i64)
    ensures
        now_ms + spec_refresh_wait_ms(access_expires_at_ms, now_ms) >= access_expires_at_ms
            - REFRESH_BUFFER_MS,
        spec_refresh_wait_ms(access_expires_at_ms, now_ms) >= 0,
{
}

} // verus!
