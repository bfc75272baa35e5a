//! Events sent to the windows, and the payloads they carry.
use vstd::prelude::*;

pub use crate::transcription::ConnectionQuality;
use crate::errors::{SttConnectionCategory, SttConnectionDetails};
use crate::text::{dup_opt_string, opt_string_view};
use crate::transcription::RecordingStatus;

verus! {

/// Name of the partial transcription event.
pub const EVENT_TRANSCRIPTION_PARTIAL: &'static str = "transcription:partial";

/// Name of the final transcription event.
pub const EVENT_TRANSCRIPTION_FINAL: &'static str = "transcription:final";

/// Name of the recording status event.
pub const EVENT_RECORDING_STATUS: &'static str = "recording:status";

/// Name of the audio level event.
pub const EVENT_AUDIO_LEVEL: &'static str = "audio:level";

/// Name of the audio spectrum event.
pub const EVENT_AUDIO_SPECTRUM: &'static str = "audio:spectrum";

/// Name of the microphone test level event.
pub const EVENT_MICROPHONE_TEST_LEVEL: &'static str = "microphone_test:level";

/// Name of the transcription error event.
pub const EVENT_TRANSCRIPTION_ERROR: &'static str = "transcription:error";

/// Name of the connection quality event.
pub const EVENT_CONNECTION_QUALITY: &'static str = "connection:quality";

/// The recording window was shown (not "focus": on macOS the main window
/// may be a non-activating panel that never gets the focus).
pub const EVENT_RECORDING_WINDOW_SHOWN: &'static str = "recording:window-shown";

/// Invalidation event of the state-sync protocol between windows.
pub const EVENT_STATE_SYNC_INVALIDATION: &'static str = "state-sync:invalidation";

/// A topic of the state-sync protocol changed: windows fetch its snapshot again.
#[derive(Debug, Clone)]
pub struct StateSyncInvalidationPayload {
    pub topic: String,
    pub revision: String,
    pub source_id: Option<String>,
    pub timestamp_ms: i64,
}

impl StateSyncInvalidationPayload {
    /// The invalidation of `topic` at `revision`, caused by the window
    /// `source_id` (if any), at `timestamp_ms`.
    pub fn new(topic: &str, revision: String, source_id: Option<String>, timestamp_ms: i64) -> (p: Self)
        ensures
            p.topic@ == topic@,
            p.revision == revision,
            p.source_id == source_id,
            p.timestamp_ms == timestamp_ms,
    {
        StateSyncInvalidationPayload { topic: topic.to_owned(), revision, source_id, timestamp_ms }
    }
}

/// Status of the recording, tagged with the session it belongs to.
#[derive(Debug, Clone)]
pub struct RecordingStatusPayload {
    /// Identifier of the recording session (grows monotonically), so that
    /// late events of an earlier session can be ignored.
    pub session_id: u64,
    pub status: RecordingStatus,
    pub stopped_via_hotkey: bool,
}

/// Details of an error, in the form the windows read.
#[derive(Debug, Clone)]
pub struct TranscriptionErrorDetailsPayload {
    pub category: Option<String>,
    pub http_status: Option<u16>,
    pub ws_close_code: Option<u16>,
    pub io_error_kind: Option<String>,
    pub os_error: Option<i32>,
    pub server_code: Option<String>,
}

/// A transcription error.
#[derive(Debug, Clone)]
pub struct TranscriptionErrorPayload {
    pub session_id: u64,
    pub error: String,
    /// "connection", "configuration", "processing", "timeout", "authentication"
    pub error_type: String,
    pub error_details: Option<TranscriptionErrorDetailsPayload>,
}

/// A change of connection quality.
#[derive(Debug, Clone)]
pub struct ConnectionQualityPayload {
    pub session_id: u64,
    pub quality: ConnectionQuality,
    pub reason: Option<String>,
}

/// Name of a connection failure category in the windows.
pub open spec fn spec_category_name(c: SttConnectionCategory) -> Seq<char> {
    match c {
        SttConnectionCategory::Offline => "offline"@,
        SttConnectionCategory::Dns => "dns"@,
        SttConnectionCategory::Tls => "tls"@,
        SttConnectionCategory::Refused => "refused"@,
        SttConnectionCategory::Reset => "reset"@,
        SttConnectionCategory::Timeout => "timeout"@,
        SttConnectionCategory::Http => "http"@,
        SttConnectionCategory::ServerUnavailable => "server_unavailable"@,
        SttConnectionCategory::Closed => "closed"@,
        SttConnectionCategory::Unknown => "unknown"@,
    }
}

/// The name of a connection failure category.
pub fn stt_category_to_string(cat: SttConnectionCategory) -> (s: String)
    ensures
        s@ == spec_category_name(cat),
{
    match cat {
        SttConnectionCategory::Offline => "offline".to_owned(),
        SttConnectionCategory::Dns => "dns".to_owned(),
        SttConnectionCategory::Tls => "tls".to_owned(),
        SttConnectionCategory::Refused => "refused".to_owned(),
        SttConnectionCategory::Reset => "reset".to_owned(),
        SttConnectionCategory::Timeout => "timeout".to_owned(),
        SttConnectionCategory::Http => "http".to_owned(),
        SttConnectionCategory::ServerUnavailable => "server_unavailable".to_owned(),
        SttConnectionCategory::Closed => "closed".to_owned(),
        SttConnectionCategory::Unknown => "unknown".to_owned(),
    }
}

impl TranscriptionErrorDetailsPayload {
    /// The payload form of connection details: the category by name, the
    /// other fields as they are.
    pub fn from_details(value: &SttConnectionDetails) -> (p: Self)
        ensures
            match value.category {
                Some(c) => p.category matches Some(s) && s@ == spec_category_name(c),
                None => p.category is None,
            },
            p.http_status == value.http_status,
            p.ws_close_code == value.ws_close_code,
            opt_string_view(p.io_error_kind) == opt_string_view(value.io_error_kind),
            p.os_error == value.os_error,
            opt_string_view(p.server_code) == opt_string_view(value.server_code),
    {
        TranscriptionErrorDetailsPayload {
            category: match value.category {
                Some(c) => Some(stt_category_to_string(c)),
                None => None,
            },
            http_status: value.http_status,
            ws_close_code: value.ws_close_code,
            io_error_kind: dup_opt_string(&value.io_error_kind),
            os_error: value.os_error,
            server_code: dup_opt_string(&value.server_code),
        }
    }
}

} // verus!
