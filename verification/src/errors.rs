use vstd::prelude::*;

use crate::text::{dup_opt_string, push_str, string_from_chars};

verus! {

/// Errors that can occur during audio capture
#[derive(Debug, Clone, PartialEq, Eq)]
pub enum AudioError {
    DeviceNotFound(String),
    AccessDenied(String),
    Configuration(String),
    Capture(String),
    Internal(String),
}

/// Category of a network / WebSocket failure, so that the UI can explain it
/// without parsing message strings.
#[derive(Debug, Clone, Copy, PartialEq, Eq)]
pub enum SttConnectionCategory {
    Offline,
    Dns,
    Tls,
    Refused,
    Reset,
    Timeout,
    Http,
    ServerUnavailable,
    Closed,
    Unknown,
}

/// Structured details of a network / WebSocket failure.
#[derive(Debug, Clone, PartialEq, Eq)]
pub struct SttConnectionDetails {
    /// Category of the failure (for a readable text in the UI).
    pub category: Option<SttConnectionCategory>,
    /// HTTP status, when the failure happened during the handshake.
    pub http_status: Option<u16>,
    /// WebSocket close code (when the server closed the connection).
    pub ws_close_code: Option<u16>,
    /// `std::io::ErrorKind`, when there is one (for example ConnectionRefused).
    pub io_error_kind: Option<String>,
    /// Raw OS error code (when available).
    pub os_error: Option<i32>,
    /// Error code sent by the server (`error` message of the backend).
    pub server_code: Option<String>,
}

impl SttConnectionDetails {
    /// All details unknown.
    pub open spec fn spec_empty() -> Self {
        SttConnectionDetails {
            category: None,
            http_status: None,
            ws_close_code: None,
            io_error_kind: None,
            os_error: None,
            server_code: None,
        }
    }
}

impl Default for SttConnectionDetails {
    fn default() -> (d: Self)
        ensures
            d == SttConnectionDetails::spec_empty(),
    {
        SttConnectionDetails {
            category: None,
            http_status: None,
            ws_close_code: None,
            io_error_kind: None,
            os_error: None,
            server_code: None,
        }
    }
}

/// A connection failure: a message plus structured details.
#[derive(Debug, Clone)]
pub struct SttConnectionError {
    pub message: String,
    pub details: SttConnectionDetails,
}

impl SttConnectionError {
    /// A connection error with no structured details.
    pub fn simple(message: &str) -> (e: Self)
        ensures
            e.message@ == message@,
            e.details == SttConnectionDetails::spec_empty(),
    {
        SttConnectionError { message: message.to_owned(), details: SttConnectionDetails::default() }
    }

    /// A connection error that only knows its category.
    pub fn with_category(message: &str, category: SttConnectionCategory) -> (e: Self)
        ensures
            e.message@ == message@,
            e.details == (SttConnectionDetails { category: Some(category), ..SttConnectionDetails::spec_empty() }),
    {
        let mut details = SttConnectionDetails::default();
        details.category = Some(category);
        SttConnectionError { message: message.to_owned(), details }
    }

    /// The text of the error (what its `Display` shows): its message.
    pub fn to_display_string(&self) -> (s: String)
        ensures
            s@ == self.message@,
    {
        self.message.clone()
    }
}

/// Errors that can occur during speech-to-text operations
#[derive(Debug, Clone)]
pub enum SttError {
    Configuration(String),
    Connection(SttConnectionError),
    Authentication(String),
    Processing(String),
    Unsupported(String),
    Internal(String),
}

/// The text of an error, as its `Display` shows it.
pub open spec fn spec_stt_error_text(e: SttError) -> Seq<char> {
    match e {
        SttError::Configuration(m) => "Configuration error: "@ + m@,
        SttError::Connection(c) => "Connection error: "@ + c.message@,
        SttError::Authentication(m) => "Authentication error: "@ + m@,
        SttError::Processing(m) => "Processing error: "@ + m@,
        SttError::Unsupported(m) => "Unsupported operation: "@ + m@,
        SttError::Internal(m) => "Internal error: "@ + m@,
    }
}

impl SttConnectionDetails {
    /// A copy of these details.
    pub fn duplicate(&self) -> (r: Self)
        ensures
            r == *self,
    {
        SttConnectionDetails {
            category: self.category,
            http_status: self.http_status,
            ws_close_code: self.ws_close_code,
            io_error_kind: dup_opt_string(&self.io_error_kind),
            os_error: self.os_error,
            server_code: dup_opt_string(&self.server_code),
        }
    }
}

impl SttError {
    /// A copy of this error.
    pub fn duplicate(&self) -> (r: Self)
        ensures
            r == *self,
    {
        match self {
            SttError::Configuration(m) => SttError::Configuration(m.clone()),
            SttError::Connection(c) => SttError::Connection(SttConnectionError {
                message: c.message.clone(),
                details: c.details.duplicate(),
            }),
            SttError::Authentication(m) => SttError::Authentication(m.clone()),
            SttError::Processing(m) => SttError::Processing(m.clone()),
            SttError::Unsupported(m) => SttError::Unsupported(m.clone()),
            SttError::Internal(m) => SttError::Internal(m.clone()),
        }
    }

    /// The text of the error (what its `Display` shows).
    pub fn to_display_string(&self) -> (s: String)
        ensures
            s@ == spec_stt_error_text(*self),
    {
        let mut v: Vec<char> = Vec::new();
        match self {
            SttError::Configuration(m) => { push_str(&mut v, "Configuration error: "); push_str(&mut v, m.as_str()); },
            SttError::Connection(c) => { push_str(&mut v, "Connection error: "); push_str(&mut v, c.message.as_str()); },
            SttError::Authentication(m) => { push_str(&mut v, "Authentication error: "); push_str(&mut v, m.as_str()); },
            SttError::Processing(m) => { push_str(&mut v, "Processing error: "); push_str(&mut v, m.as_str()); },
            SttError::Unsupported(m) => { push_str(&mut v, "Unsupported operation: "); push_str(&mut v, m.as_str()); },
            SttError::Internal(m) => { push_str(&mut v, "Internal error: "); push_str(&mut v, m.as_str()); },
        }
        string_from_chars(v.as_slice())
    }
}

/// The text of an audio error, as its `Display` shows it.
pub open spec fn spec_audio_error_text(e: AudioError) -> Seq<char> {
    match e {
        AudioError::DeviceNotFound(m) => "Device not found: "@ + m@,
        AudioError::AccessDenied(m) => "Device access denied: "@ + m@,
        AudioError::Configuration(m) => "Configuration error: "@ + m@,
        AudioError::Capture(m) => "Capture error: "@ + m@,
        AudioError::Internal(m) => "Internal error: "@ + m@,
    }
}

impl AudioError {
    /// The text of the error (what its `Display` shows).
    pub fn to_display_string(&self) -> (s: String)
        ensures
            s@ == spec_audio_error_text(*self),
    {
        let mut v: Vec<char> = Vec::new();
        match self {
            AudioError::DeviceNotFound(m) => { push_str(&mut v, "Device not found: "); push_str(&mut v, m.as_str()); },
            AudioError::AccessDenied(m) => { push_str(&mut v, "Device access denied: "); push_str(&mut v, m.as_str()); },
            AudioError::Configuration(m) => { push_str(&mut v, "Configuration error: "); push_str(&mut v, m.as_str()); },
            AudioError::Capture(m) => { push_str(&mut v, "Capture error: "); push_str(&mut v, m.as_str()); },
            AudioError::Internal(m) => { push_str(&mut v, "Internal error: "); push_str(&mut v, m.as_str()); },
        }
        string_from_chars(v.as_slice())
    }
}

/// How the audio pipeline treats a failed send: the error type reported to
/// the UI and whether the recording must stop at once.
pub open spec fn spec_classify_send_error(e: SttError) -> (Seq<char>, bool) {
    match e {
        SttError::Authentication(_) => ("authentication"@, true),
        SttError::Configuration(_) => ("configuration"@, true),
        SttError::Connection(c) => if c.details.category == Some(SttConnectionCategory::Timeout) {
            ("timeout"@, false)
        } else {
            ("connection"@, false)
        },
        SttError::Processing(_) => ("processing"@, false),
        SttError::Internal(_) => ("processing"@, false),
        SttError::Unsupported(_) => ("processing"@, true),
    }
}

/// Classifies a send failure by its type (never by parsing its text):
/// returns the error type for the UI and whether the failure is critical.
pub fn classify_send_error(e: &SttError) -> (r: (String, bool))
    ensures
        r.0@ == spec_classify_send_error(*e).0,
        r.1 == spec_classify_send_error(*e).1,
{
    proof {
        reveal_strlit("authentication");
        reveal_strlit("configuration");
        reveal_strlit("timeout");
        reveal_strlit("connection");
        reveal_strlit("processing");
    }
    match e {
        SttError::Authentication(_) => ("authentication".to_owned(), true),
        SttError::Configuration(_) => ("configuration".to_owned(), true),
        SttError::Connection(c) => {
            let is_timeout = match c.details.category {
                Some(SttConnectionCategory::Timeout) => true,
                _ => false,
            };
            if is_timeout {
                ("timeout".to_owned(), false)
            } else {
                ("connection".to_owned(), false)
            }
        },
        SttError::Processing(_) => ("processing".to_owned(), false),
        SttError::Internal(_) => ("processing".to_owned(), false),
        SttError::Unsupported(_) => ("processing".to_owned(), true),
    }
}

/// `e` is a configuration error with message `msg`.
pub open spec fn is_configuration_error(e: SttError, msg: Seq<char>) -> bool {
    e matches SttError::Configuration(m) && m@ == msg
}

/// `e` is a processing error with message `msg`.
pub open spec fn is_processing_error(e: SttError, msg: Seq<char>) -> bool {
    e matches SttError::Processing(m) && m@ == msg
}

/// `e` is an authentication error with message `msg`.
pub open spec fn is_authentication_error(e: SttError, msg: Seq<char>) -> bool {
    e matches SttError::Authentication(m) && m@ == msg
}

/// `e` is an unsupported-operation error with message `msg`.
pub open spec fn is_unsupported_error(e: SttError, msg: Seq<char>) -> bool {
    e matches SttError::Unsupported(m) && m@ == msg
}

/// `e` is a connection error with message `msg` and no structured details.
pub open spec fn is_plain_connection_error(e: SttError, msg: Seq<char>) -> bool {
    e matches SttError::Connection(c) && c.message@ == msg && c.details == SttConnectionDetails::spec_empty()
}

/// A connection error with message `msg` and no structured details.
pub fn plain_connection_error(msg: &str) -> (e: SttError)
    ensures
        is_plain_connection_error(e, msg@),
{
    SttError::Connection(SttConnectionError::simple(msg))
}

} // verus!
