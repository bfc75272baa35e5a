use vstd::prelude::*;

use crate::errors::{spec_classify_send_error, spec_stt_error_text, classify_send_error, SttError};
use crate::text::{push_str, string_from_chars};

verus! {

/// Recording status
#[derive(Debug, Clone, Copy, PartialEq, Eq, Structural)]
pub enum RecordingStatus {
    Idle,
    /// The recording is starting (WebSocket connecting, audio capture starting)
    Starting,
    /// The recording is active
    Recording,
    Processing,
    Error,
}

impl Default for RecordingStatus {
    fn default() -> (s: Self)
        ensures
            s == RecordingStatus::Idle,
    {
        RecordingStatus::Idle
    }
}

/// Connection quality states
#[derive(Debug, Clone, Copy, PartialEq, Eq, Structural)]
pub enum ConnectionQuality {
    /// Connection is working normally
    Good,
    /// Connection has issues (slow, errors)
    Poor,
    /// Connection is recovering from issues
    Recovering,
}

/// The label of a quality, as the providers report it.
pub open spec fn spec_quality_label(q: ConnectionQuality) -> Seq<char> {
    match q {
        ConnectionQuality::Good => "Good"@,
        ConnectionQuality::Poor => "Poor"@,
        ConnectionQuality::Recovering => "Recovering"@,
    }
}

/// The label of a quality ("Good", "Poor" or "Recovering").
pub fn quality_label(q: ConnectionQuality) -> (s: String)
    ensures
        s@ == spec_quality_label(q),
{
    proof {
        reveal_strlit("Good");
        reveal_strlit("Poor");
        reveal_strlit("Recovering");
    }
    match q {
        ConnectionQuality::Good => "Good".to_owned(),
        ConnectionQuality::Poor => "Poor".to_owned(),
        ConnectionQuality::Recovering => "Recovering".to_owned(),
    }
}

/// The quality a label names; an unknown label counts as `Good`.
pub open spec fn spec_parse_quality(s: Seq<char>) -> ConnectionQuality {
    if s == "Poor"@ {
        ConnectionQuality::Poor
    } else if s == "Recovering"@ {
        ConnectionQuality::Recovering
    } else {
        ConnectionQuality::Good
    }
}

/// Reads a quality label as the providers send it.
pub fn parse_quality(s: &str) -> (q: ConnectionQuality)
    ensures
        q == spec_parse_quality(s@),
{
    if crate::text::str_eq(s, "Poor") {
        ConnectionQuality::Poor
    } else if crate::text::str_eq(s, "Recovering") {
        ConnectionQuality::Recovering
    } else {
        ConnectionQuality::Good
    }
}

/// A quality change to report to the UI, with an optional reason.
#[derive(Debug, Clone)]
pub struct QualityReport {
    pub quality: ConnectionQuality,
    pub reason: Option<String>,
}

/// After this many send failures in a row the recording is stopped.
pub const MAX_CONSECUTIVE_ERRORS: u32 = 10;
/// Successful sends after `Recovering` before `Good` is reported.
pub const GOOD_STREAK_TO_RECOVER: u32 = 20;

/// Bookkeeping of the audio processor of one recording session.
#[derive(Debug, Clone, Copy, PartialEq, Eq)]
pub struct AudioProcessorState {
    pub chunk_count: u64,
    pub consecutive_errors: u32,
    pub last_quality: Option<ConnectionQuality>,
    pub good_streak: u32,
    pub last_dropped_seen: u64,
}

/// What to do with one captured chunk before it is sent.
#[derive(Debug, Clone)]
pub struct ChunkPlan {
    /// False when the service is not recording: the chunk is dropped.
    pub process: bool,
    /// Whether to report the audio level of this chunk.
    pub emit_level: bool,
    /// A quality change to report.
    pub quality: Option<QualityReport>,
    /// The provider is gone: report an error, go Idle, stop capture and end.
    pub provider_lost: bool,
    /// Whether to send the chunk to the provider.
    pub send: bool,
}

/// What to do after a send.
#[derive(Debug, Clone)]
pub struct SendPlan {
    /// A quality change to report.
    pub quality: Option<QualityReport>,
    /// An error to report to the UI.
    pub error: Option<SttError>,
    /// Go Idle, stop capture, abort the provider and end the processor.
    pub stop: bool,
}

/// Reason reported when audio cannot be sent fast enough.
pub open spec fn reason_backpressure() -> Seq<char> { "Аудио не успевает отправляться (плохое соединение?)"@ }
/// Reason reported when the provider disappeared.
pub open spec fn reason_provider_lost() -> Seq<char> { "Соединение с провайдером потеряно"@ }
/// Reason reported when the connection recovers.
pub open spec fn reason_recovering() -> Seq<char> { "Соединение восстанавливается"@ }
/// Reason reported on a critical error.
pub open spec fn reason_critical() -> Seq<char> { "Критическая ошибка соединения"@ }
/// Reason reported when too many errors happened in a row.
pub open spec fn reason_unstable() -> Seq<char> { "Соединение нестабильно, запись остановлена"@ }
/// Text of the error reported when the provider disappeared.
pub open spec fn text_provider_missing() -> Seq<char> { "STT provider is not available (stream not active)"@ }

/// Whether a plan reports exactly this quality and reason.
pub open spec fn reports(q: Option<QualityReport>, quality: ConnectionQuality, reason: Seq<char>) -> bool {
    &&& q is Some
    &&& q->0.quality == quality
    &&& q->0.reason is Some
    &&& q->0.reason->0@ == reason
}

impl AudioProcessorState {
    /// The state of a fresh processor.
    pub open spec fn spec_new() -> Self {
        AudioProcessorState {
            chunk_count: 0,
            consecutive_errors: 0,
            last_quality: None,
            good_streak: 0,
            last_dropped_seen: 0,
        }
    }

    /// A fresh processor.
    pub fn new() -> (s: Self)
        ensures
            s == Self::spec_new(),
    {
        AudioProcessorState {
            chunk_count: 0,
            consecutive_errors: 0,
            last_quality: None,
            good_streak: 0,
            last_dropped_seen: 0,
        }
    }

    /// The processor keeps running only while fewer than
    /// `MAX_CONSECUTIVE_ERRORS` failures happened in a row.
    pub open spec fn running(self) -> bool {
        self.consecutive_errors < MAX_CONSECUTIVE_ERRORS
    }

    /// Decides what to do with a captured chunk.
    ///
    /// * `recording` - whether the service status is `Recording`
    /// * `dropped_now` - chunks dropped so far because the queue was full
    /// * `provider_present` - whether a provider is there to send to
    pub fn on_chunk(&mut self, recording: bool, dropped_now: u64, provider_present: bool) -> (p: ChunkPlan)
        ensures
            final(self).chunk_count == (if old(self).chunk_count == u64::MAX { u64::MAX } else {
                (old(self).chunk_count + 1) as u64
            }),
            final(self).consecutive_errors == old(self).consecutive_errors,
            !recording ==> !p.process && !p.send && !p.emit_level && p.quality is None && !p.provider_lost
                && final(self).last_quality == old(self).last_quality
                && final(self).good_streak == old(self).good_streak
                && final(self).last_dropped_seen == old(self).last_dropped_seen,
            recording ==> {
                let dropped = dropped_now > old(self).last_dropped_seen;
                let poor_dropped = dropped && old(self).last_quality != Some(ConnectionQuality::Poor);
                &&& p.process
                &&& p.emit_level == (final(self).chunk_count % 2 == 0)
                &&& final(self).last_dropped_seen == (if dropped { dropped_now } else { old(self).last_dropped_seen })
                &&& final(self).last_quality == (if poor_dropped { Some(ConnectionQuality::Poor) } else { old(self).last_quality })
                &&& final(self).good_streak == (if poor_dropped { 0 } else { old(self).good_streak })
                &&& p.provider_lost == !provider_present
                &&& p.send == provider_present
                &&& poor_dropped ==> reports(p.quality, ConnectionQuality::Poor, reason_backpressure())
                &&& !poor_dropped && !provider_present && final(self).last_quality != Some(ConnectionQuality::Poor)
                    ==> reports(p.quality, ConnectionQuality::Poor, reason_provider_lost())
                &&& !poor_dropped && (provider_present || final(self).last_quality == Some(ConnectionQuality::Poor))
                    ==> p.quality is None
            },
    {
        self.chunk_count = self.chunk_count.saturating_add(1);
        if !recording {
            return ChunkPlan { process: false, emit_level: false, quality: None, provider_lost: false, send: false };
        }
        let emit_level = self.chunk_count % 2 == 0;
        let mut quality: Option<QualityReport> = None;
        if dropped_now > self.last_dropped_seen {
            self.last_dropped_seen = dropped_now;
            let was_poor = match self.last_quality {
                Some(ConnectionQuality::Poor) => true,
                _ => false,
            };
            if !was_poor {
                proof { reveal_strlit("Аудио не успевает отправляться (плохое соединение?)"); }
                quality = Some(QualityReport {
                    quality: ConnectionQuality::Poor,
                    reason: Some("Аудио не успевает отправляться (плохое соединение?)".to_owned()),
                });
                self.last_quality = Some(ConnectionQuality::Poor);
                self.good_streak = 0;
            }
        }
        if !provider_present {
            let is_poor = match self.last_quality {
                Some(ConnectionQuality::Poor) => true,
                _ => false,
            };
            if !is_poor {
                proof { reveal_strlit("Соединение с провайдером потеряно"); }
                quality = Some(QualityReport {
                    quality: ConnectionQuality::Poor,
                    reason: Some("Соединение с провайдером потеряно".to_owned()),
                });
            }
            return ChunkPlan { process: true, emit_level, quality, provider_lost: true, send: false };
        }
        ChunkPlan { process: true, emit_level, quality, provider_lost: false, send: true }
    }

    /// Decides what follows a send: `outcome` is what the provider returned.
    pub fn on_send_result(&mut self, outcome: &Result<(), SttError>) -> (p: SendPlan)
        requires
            old(self).running(),
        ensures
            final(self).chunk_count == old(self).chunk_count,
            final(self).last_dropped_seen == old(self).last_dropped_seen,
            !p.stop ==> final(self).running(),
            p.stop ==> p.error is Some,
            match outcome {
                Ok(_) => {
                    let recovered = old(self).consecutive_errors > 0;
                    let q1 = if recovered { Some(ConnectionQuality::Recovering) } else { old(self).last_quality };
                    let s1: int = if recovered { 0 } else { old(self).good_streak as int };
                    let counting = q1 == Some(ConnectionQuality::Recovering);
                    &&& !p.stop && p.error is None
                    &&& final(self).consecutive_errors == 0
                    &&& recovered ==> reports(p.quality, ConnectionQuality::Recovering, reason_recovering())
                        && final(self).last_quality == Some(ConnectionQuality::Recovering)
                        && final(self).good_streak == 1
                    &&& !recovered && counting && s1 + 1 >= GOOD_STREAK_TO_RECOVER ==>
                        (p.quality is Some && p.quality->0.quality == ConnectionQuality::Good && p.quality->0.reason is None)
                        && final(self).last_quality == Some(ConnectionQuality::Good)
                        && final(self).good_streak == 0
                    &&& !recovered && counting && s1 + 1 < GOOD_STREAK_TO_RECOVER ==>
                        p.quality is None && final(self).good_streak == s1 + 1
                        && final(self).last_quality == q1
                    &&& !recovered && !counting ==> p.quality is None && final(self).good_streak == s1
                        && final(self).last_quality == q1
                },
                Err(e) => {
                    let kind = spec_classify_send_error(*e);
                    let n = old(self).consecutive_errors + 1;
                    &&& kind.1 ==> p.stop && p.error == Some(*e)
                        && reports(p.quality, ConnectionQuality::Poor, reason_critical())
                        && final(self).consecutive_errors == old(self).consecutive_errors
                    &&& !kind.1 ==> final(self).consecutive_errors == n && final(self).good_streak == 0
                    &&& !kind.1 && n >= MAX_CONSECUTIVE_ERRORS ==> p.stop && p.error == Some(*e)
                        && reports(p.quality, ConnectionQuality::Poor, reason_unstable())
                    &&& !kind.1 && n < MAX_CONSECUTIVE_ERRORS ==> !p.stop && p.error is None
                    &&& !kind.1 && n < MAX_CONSECUTIVE_ERRORS && n == 1
                        && old(self).last_quality != Some(ConnectionQuality::Poor) ==>
                        reports(p.quality, ConnectionQuality::Poor, kind.0 + ": "@ + spec_stt_error_text(*e))
                        && final(self).last_quality == Some(ConnectionQuality::Poor)
                    &&& !kind.1 && n < MAX_CONSECUTIVE_ERRORS && !(n == 1
                        && old(self).last_quality != Some(ConnectionQuality::Poor)) ==>
                        p.quality is None && final(self).last_quality == old(self).last_quality
                },
            },
    {
        match outcome {
            Ok(_) => {
                let mut quality: Option<QualityReport> = None;
                if self.consecutive_errors > 0 {
                    proof { reveal_strlit("Соединение восстанавливается"); }
                    quality = Some(QualityReport {
                        quality: ConnectionQuality::Recovering,
                        reason: Some("Соединение восстанавливается".to_owned()),
                    });
                    self.last_quality = Some(ConnectionQuality::Recovering);
                    self.good_streak = 0;
                }
                self.consecutive_errors = 0;
                let recovering = match self.last_quality {
                    Some(ConnectionQuality::Recovering) => true,
                    _ => false,
                };
                if recovering {
                    self.good_streak = self.good_streak.saturating_add(1);
                    if self.good_streak >= GOOD_STREAK_TO_RECOVER {
                        quality = Some(QualityReport { quality: ConnectionQuality::Good, reason: None });
                        self.last_quality = Some(ConnectionQuality::Good);
                        self.good_streak = 0;
                    }
                }
                SendPlan { quality, error: None, stop: false }
            },
            Err(e) => {
                let (error_type, critical) = classify_send_error(e);
                if critical {
                    proof { reveal_strlit("Критическая ошибка соединения"); }
                    return SendPlan {
                        quality: Some(QualityReport {
                            quality: ConnectionQuality::Poor,
                            reason: Some("Критическая ошибка соединения".to_owned()),
                        }),
                        error: Some(e.duplicate()),
                        stop: true,
                    };
                }
                self.consecutive_errors = self.consecutive_errors + 1;
                self.good_streak = 0;
                if self.consecutive_errors >= MAX_CONSECUTIVE_ERRORS {
                    proof { reveal_strlit("Соединение нестабильно, запись остановлена"); }
                    return SendPlan {
                        quality: Some(QualityReport {
                            quality: ConnectionQuality::Poor,
                            reason: Some("Соединение нестабильно, запись остановлена".to_owned()),
                        }),
                        error: Some(e.duplicate()),
                        stop: true,
                    };
                }
                let was_poor = match self.last_quality {
                    Some(ConnectionQuality::Poor) => true,
                    _ => false,
                };
                if self.consecutive_errors == 1 && !was_poor {
                    let mut v: Vec<char> = Vec::new();
                    push_str(&mut v, error_type.as_str());
                    push_str(&mut v, ": ");
                    let text = e.to_display_string();
                    push_str(&mut v, text.as_str());
                    self.last_quality = Some(ConnectionQuality::Poor);
                    return SendPlan {
                        quality: Some(QualityReport {
                            quality: ConnectionQuality::Poor,
                            reason: Some(string_from_chars(v.as_slice())),
                        }),
                        error: None,
                        stop: false,
                    };
                }
                SendPlan { quality: None, error: None, stop: false }
            },
        }
    }
}

/// Whether a start can resume the kept-alive connection instead of opening a
/// new one: there is a provider, it supports keep-alive, its connection is
/// alive, and the configuration asks for keep-alive.
pub open spec fn spec_can_reuse_connection(provider_present: bool, supports_keep_alive: bool,
    connection_alive: bool, keep_connection_alive: bool) -> bool {
    provider_present && supports_keep_alive && connection_alive && keep_connection_alive
}

/// Whether a start can resume the kept-alive connection.
pub fn can_reuse_connection(provider_present: bool, supports_keep_alive: bool, connection_alive: bool,
    keep_connection_alive: bool) -> (b: bool)
    ensures
        b == spec_can_reuse_connection(provider_present, supports_keep_alive, connection_alive, keep_connection_alive),
{
    provider_present && supports_keep_alive && connection_alive && keep_connection_alive
}

/// Steps of starting a recording, as the service observes them.
#[derive(Debug, Clone, Copy, PartialEq, Eq, Structural)]
pub enum StartEvent {
    /// A start was asked for; `reuse_possible` is `can_reuse_connection`.
    Requested { reuse_possible: bool },
    /// Resuming the kept-alive provider finished (true: it worked).
    Resumed(bool),
    /// The factory was asked for a provider (true: it gave one).
    ProviderCreated(bool),
    /// The new provider was initialized (true: it worked).
    ProviderInitialized(bool),
    /// The new provider's stream was started (true: it worked).
    StreamStarted(bool),
    /// Audio capture was started (true: it worked).
    CaptureStarted(bool),
}

/// Which part of a start failed.
#[derive(Debug, Clone, Copy, PartialEq, Eq, Structural)]
pub enum StartFailure {
    CreateProvider,
    InitializeProvider,
    StartStream,
    StartCapture,
}

/// What the service does next while starting a recording.
#[derive(Debug, Clone, Copy, PartialEq, Eq, Structural)]
pub enum StartAction {
    /// Refuse: a recording is already running or starting.
    Reject,
    /// Cancel the inactivity timer and any old audio processor, then resume
    /// the kept-alive provider.
    ResumeProvider,
    /// Cancel the inactivity timer and any old audio processor, then ask the
    /// factory for a new provider.
    CreateProvider,
    /// Abort and drop the provider that failed to resume, then ask the
    /// factory for a new provider.
    DiscardProviderAndCreate,
    /// Initialize the new provider.
    InitializeProvider,
    /// Start the new provider's stream.
    StartStream,
    /// Keep the provider, spawn the audio processor and start capture.
    StartCapture,
    /// Give up: abort the provider (and drop it) if `abort_provider`, stop the
    /// audio processor if `stop_processor`, and report `failure`.
    Fail { abort_provider: bool, stop_processor: bool, failure: StartFailure },
    /// The recording runs.
    Done,
}

/// One step of starting a recording: the status after it and the next action.
pub open spec fn spec_start_step(status: RecordingStatus, event: StartEvent) -> (RecordingStatus, StartAction) {
    match event {
        StartEvent::Requested { reuse_possible } => if status != RecordingStatus::Idle {
            (status, StartAction::Reject)
        } else if reuse_possible {
            (RecordingStatus::Starting, StartAction::ResumeProvider)
        } else {
            (RecordingStatus::Starting, StartAction::CreateProvider)
        },
        StartEvent::Resumed(ok) => if ok {
            (RecordingStatus::Starting, StartAction::StartCapture)
        } else {
            (RecordingStatus::Starting, StartAction::DiscardProviderAndCreate)
        },
        StartEvent::ProviderCreated(ok) => if ok {
            (RecordingStatus::Starting, StartAction::InitializeProvider)
        } else {
            (RecordingStatus::Idle, StartAction::Fail {
                abort_provider: false, stop_processor: false, failure: StartFailure::CreateProvider })
        },
        StartEvent::ProviderInitialized(ok) => if ok {
            (RecordingStatus::Starting, StartAction::StartStream)
        } else {
            (RecordingStatus::Idle, StartAction::Fail {
                abort_provider: true, stop_processor: false, failure: StartFailure::InitializeProvider })
        },
        StartEvent::StreamStarted(ok) => if ok {
            (RecordingStatus::Starting, StartAction::StartCapture)
        } else {
            (RecordingStatus::Idle, StartAction::Fail {
                abort_provider: true, stop_processor: false, failure: StartFailure::StartStream })
        },
        StartEvent::CaptureStarted(ok) => if ok {
            (RecordingStatus::Recording, StartAction::Done)
        } else {
            (RecordingStatus::Idle, StartAction::Fail {
                abort_provider: true, stop_processor: true, failure: StartFailure::StartCapture })
        },
    }
}

/// One step of starting a recording.  Every event but `Requested` happens
/// while the status is `Starting`.
pub fn start_step(status: RecordingStatus, event: StartEvent) -> (r: (RecordingStatus, StartAction))
    requires
        !(event is Requested) ==> status == RecordingStatus::Starting,
    ensures
        r == spec_start_step(status, event),
{
    match event {
        StartEvent::Requested { reuse_possible } => if status != RecordingStatus::Idle {
            (status, StartAction::Reject)
        } else if reuse_possible {
            (RecordingStatus::Starting, StartAction::ResumeProvider)
        } else {
            (RecordingStatus::Starting, StartAction::CreateProvider)
        },
        StartEvent::Resumed(ok) => if ok {
            (RecordingStatus::Starting, StartAction::StartCapture)
        } else {
            (RecordingStatus::Starting, StartAction::DiscardProviderAndCreate)
        },
        StartEvent::ProviderCreated(ok) => if ok {
            (RecordingStatus::Starting, StartAction::InitializeProvider)
        } else {
            (RecordingStatus::Idle, StartAction::Fail {
                abort_provider: false, stop_processor: false, failure: StartFailure::CreateProvider })
        },
        StartEvent::ProviderInitialized(ok) => if ok {
            (RecordingStatus::Starting, StartAction::StartStream)
        } else {
            (RecordingStatus::Idle, StartAction::Fail {
                abort_provider: true, stop_processor: false, failure: StartFailure::InitializeProvider })
        },
        StartEvent::StreamStarted(ok) => if ok {
            (RecordingStatus::Starting, StartAction::StartCapture)
        } else {
            (RecordingStatus::Idle, StartAction::Fail {
                abort_provider: true, stop_processor: false, failure: StartFailure::StartStream })
        },
        StartEvent::CaptureStarted(ok) => if ok {
            (RecordingStatus::Recording, StartAction::Done)
        } else {
            (RecordingStatus::Idle, StartAction::Fail {
                abort_provider: true, stop_processor: true, failure: StartFailure::StartCapture })
        },
    }
}

/// The context the service adds to a failed start.
pub open spec fn spec_start_failure_text(f: StartFailure) -> Seq<char> {
    match f {
        StartFailure::CreateProvider => "Failed to create STT provider"@,
        StartFailure::InitializeProvider => "Failed to initialize STT provider"@,
        StartFailure::StartStream => "Failed to start STT stream"@,
        StartFailure::StartCapture => "Failed to start audio capture"@,
    }
}

/// The context the service adds to a failed start.
pub fn start_failure_text(f: StartFailure) -> (s: String)
    ensures
        s@ == spec_start_failure_text(f),
{
    proof {
        reveal_strlit("Failed to create STT provider");
        reveal_strlit("Failed to initialize STT provider");
        reveal_strlit("Failed to start STT stream");
        reveal_strlit("Failed to start audio capture");
    }
    match f {
        StartFailure::CreateProvider => "Failed to create STT provider".to_owned(),
        StartFailure::InitializeProvider => "Failed to initialize STT provider".to_owned(),
        StartFailure::StartStream => "Failed to start STT stream".to_owned(),
        StartFailure::StartCapture => "Failed to start audio capture".to_owned(),
    }
}

/// Steps of stopping a recording, as the service observes them.
#[derive(Debug, Clone, Copy, PartialEq, Eq, Structural)]
pub enum StopEvent {
    /// A stop was asked for.
    Requested,
    /// Audio capture was stopped (`ok`: it worked); `keep_alive` is
    /// `should_keep_alive` for the current provider and configuration.
    CaptureStopped { ok: bool, keep_alive: bool },
    /// Pausing the provider finished: `None` when there was no provider,
    /// `Some(true)` when the pause worked.
    PauseFinished(Option<bool>),
}

/// What the service does next while stopping a recording.
#[derive(Debug, Clone, Copy, PartialEq, Eq, Structural)]
pub enum StopAction {
    /// Refuse: no recording is running.
    Reject,
    /// Stop audio capture and the audio processor.
    StopCapture,
    /// Abort and drop the provider and report the capture failure.
    FailAbortProvider,
    /// Cancel the inactivity timer (hard stop only), stop the provider's stream
    /// (aborting it if that fails), drop it: "Transcription completed".
    CloseProvider,
    /// Pause the provider's stream to keep the connection alive.
    PauseProvider,
    /// Nothing left to close: "Recording stopped".
    Stopped,
    /// Abort the provider that failed to pause: "Recording stopped".
    AbortProviderStopped,
    /// Keep the paused provider and arm the inactivity timer for `ttl_secs`:
    /// "Recording paused, connection kept alive".
    KeepAlive { ttl_secs: u64 },
}

/// Shortest time a paused connection is kept alive, in seconds.
pub const MIN_KEEP_ALIVE_TTL_SECS: u64 = 10;

/// Whether a stop keeps the connection alive: there is a provider, it
/// supports keep-alive and the configuration asks for it.
pub open spec fn spec_should_keep_alive(provider_present: bool, supports_keep_alive: bool, keep_connection_alive: bool) -> bool {
    provider_present && supports_keep_alive && keep_connection_alive
}

/// Whether a stop keeps the connection alive.
pub fn should_keep_alive(provider_present: bool, supports_keep_alive: bool, keep_connection_alive: bool) -> (b: bool)
    ensures
        b == spec_should_keep_alive(provider_present, supports_keep_alive, keep_connection_alive),
{
    provider_present && supports_keep_alive && keep_connection_alive
}

/// The keep-alive time actually used: at least `MIN_KEEP_ALIVE_TTL_SECS`.
pub open spec fn spec_keep_alive_ttl(configured: u64) -> u64 {
    if configured < MIN_KEEP_ALIVE_TTL_SECS { MIN_KEEP_ALIVE_TTL_SECS } else { configured }
}

/// One step of stopping a recording: the status after it and the next action.
/// A `hard` stop never keeps the connection alive.
pub open spec fn spec_stop_step(status: RecordingStatus, hard: bool, ttl_secs: u64, event: StopEvent) -> (RecordingStatus, StopAction) {
    match event {
        StopEvent::Requested => if status != RecordingStatus::Recording {
            (status, StopAction::Reject)
        } else {
            (RecordingStatus::Processing, StopAction::StopCapture)
        },
        StopEvent::CaptureStopped { ok, keep_alive } => if !ok {
            (RecordingStatus::Idle, StopAction::FailAbortProvider)
        } else if !hard && keep_alive {
            (RecordingStatus::Processing, StopAction::PauseProvider)
        } else {
            (RecordingStatus::Idle, StopAction::CloseProvider)
        },
        StopEvent::PauseFinished(r) => match r {
            None => (RecordingStatus::Idle, StopAction::Stopped),
            Some(ok) => if ok {
                (RecordingStatus::Idle, StopAction::KeepAlive { ttl_secs: spec_keep_alive_ttl(ttl_secs) })
            } else {
                (RecordingStatus::Idle, StopAction::AbortProviderStopped)
            },
        },
    }
}

/// One step of stopping a recording.  Every event but `Requested` happens
/// while the status is `Processing`; `ttl_secs` is the configured keep-alive
/// time.
pub fn stop_step(status: RecordingStatus, hard: bool, ttl_secs: u64, event: StopEvent) -> (r: (RecordingStatus, StopAction))
    requires
        !(event is Requested) ==> status == RecordingStatus::Processing,
    ensures
        r == spec_stop_step(status, hard, ttl_secs, event),
{
    match event {
        StopEvent::Requested => if status != RecordingStatus::Recording {
            (status, StopAction::Reject)
        } else {
            (RecordingStatus::Processing, StopAction::StopCapture)
        },
        StopEvent::CaptureStopped { ok, keep_alive } => if !ok {
            (RecordingStatus::Idle, StopAction::FailAbortProvider)
        } else if !hard && keep_alive {
            (RecordingStatus::Processing, StopAction::PauseProvider)
        } else {
            (RecordingStatus::Idle, StopAction::CloseProvider)
        },
        StopEvent::PauseFinished(r) => match r {
            None => (RecordingStatus::Idle, StopAction::Stopped),
            Some(ok) => if ok {
                let ttl = if ttl_secs < MIN_KEEP_ALIVE_TTL_SECS { MIN_KEEP_ALIVE_TTL_SECS } else { ttl_secs };
                (RecordingStatus::Idle, StopAction::KeepAlive { ttl_secs: ttl })
            } else {
                (RecordingStatus::Idle, StopAction::AbortProviderStopped)
            },
        },
    }
}

/// The message a finished stop returns (`None` for actions that are not an end).
pub open spec fn spec_stop_message(a: StopAction) -> Option<Seq<char>> {
    match a {
        StopAction::CloseProvider => Some("Transcription completed"@),
        StopAction::Stopped => Some("Recording stopped"@),
        StopAction::AbortProviderStopped => Some("Recording stopped"@),
        StopAction::KeepAlive { .. } => Some("Recording paused, connection kept alive"@),
        _ => None,
    }
}

/// The message a finished stop returns.
pub fn stop_message(a: StopAction) -> (s: Option<String>)
    ensures
        s is Some == spec_stop_message(a) is Some,
        s matches Some(t) ==> t@ == spec_stop_message(a)->0,
{
    proof {
        reveal_strlit("Transcription completed");
        reveal_strlit("Recording stopped");
        reveal_strlit("Recording paused, connection kept alive");
    }
    match a {
        StopAction::CloseProvider => Some("Transcription completed".to_owned()),
        StopAction::Stopped => Some("Recording stopped".to_owned()),
        StopAction::AbortProviderStopped => Some("Recording stopped".to_owned()),
        StopAction::KeepAlive { .. } => Some("Recording paused, connection kept alive".to_owned()),
        _ => None,
    }
}

/// Whether the inactivity timer, when it fires, closes the kept-alive
/// connection: only if no new recording started meanwhile.
pub fn inactivity_timer_closes(status: RecordingStatus) -> (b: bool)
    ensures
        b == (status == RecordingStatus::Idle),
{
    status == RecordingStatus::Idle
}

/// The audio device can only be replaced while the service is idle.
pub fn can_replace_audio_capture(status: RecordingStatus) -> (b: bool)
    ensures
        b == (status == RecordingStatus::Idle),
{
    status == RecordingStatus::Idle
}

/// Microphone sensitivity is kept in 0..=200 percent.
pub fn clamp_sensitivity(s: u8) -> (r: u8)
    ensures
        r == (if s > 200 { 200 } else { s }),
{
    if s > 200 { 200 } else { s }
}

/// A start is only accepted from `Idle`: while a recording is starting,
/// running, stopping or failed, a further start is refused and changes
/// nothing.
pub proof fn lemma_no_double_start(status: RecordingStatus, reuse_possible: bool)
    requires
        status != RecordingStatus::Idle,
    ensures
        spec_start_step(status, StartEvent::Requested { reuse_possible }) == (status, StartAction::Reject),
{
}

/// A start that fails at any step leaves the service `Idle`, and whenever a
/// provider may exist it is aborted.
pub proof fn lemma_failed_start_returns_to_idle(event: StartEvent)
    requires
        !(event is Requested),
        spec_start_step(RecordingStatus::Starting, event).1 is Fail,
    ensures
        spec_start_step(RecordingStatus::Starting, event).0 == RecordingStatus::Idle,
        !(event is ProviderCreated) ==> spec_start_step(RecordingStatus::Starting, event).1->abort_provider,
{
}

/// The only way to `Recording` is a capture that started.
pub proof fn lemma_recording_only_after_capture(status: RecordingStatus, event: StartEvent)
    requires
        spec_start_step(status, event).0 == RecordingStatus::Recording,
        status != RecordingStatus::Recording,
    ensures
        event == StartEvent::CaptureStarted(true),
{
}

/// A stop is only accepted while recording, and once accepted the service
/// is never left in `Processing`: every outcome of the capture stop and of
/// the pause ends in `Idle` (a pause is the only intermediate step).
pub proof fn lemma_stop_never_stuck(status: RecordingStatus, hard: bool, ttl: u64, ok: bool, keep_alive: bool,
    pause: Option<bool>)
    ensures
        status != RecordingStatus::Recording ==> spec_stop_step(status, hard, ttl, StopEvent::Requested) == (status, StopAction::Reject),
        spec_stop_step(RecordingStatus::Recording, hard, ttl, StopEvent::Requested) == (RecordingStatus::Processing, StopAction::StopCapture),
        spec_stop_step(RecordingStatus::Processing, hard, ttl, StopEvent::CaptureStopped { ok, keep_alive }).0 == RecordingStatus::Idle
            || spec_stop_step(RecordingStatus::Processing, hard, ttl, StopEvent::CaptureStopped { ok, keep_alive }).1 == StopAction::PauseProvider,
        spec_stop_step(RecordingStatus::Processing, hard, ttl, StopEvent::PauseFinished(pause)).0 == RecordingStatus::Idle,
        hard ==> spec_stop_step(RecordingStatus::Processing, hard, ttl, StopEvent::CaptureStopped { ok, keep_alive }).0 == RecordingStatus::Idle,
{
}

/// The order of a start: from `Idle`, a start request goes to resuming the
/// kept-alive provider when one can be reused, else to creating one; each
/// successful step leads to the next (create, initialize, start the stream,
/// start capture) and a started capture is a recording. Each failed step
/// ends the start in `Idle` with the failure of that step.
pub proof fn lemma_start_sequence(status: RecordingStatus, ok: bool)
    ensures
        spec_start_step(RecordingStatus::Idle, StartEvent::Requested { reuse_possible: true }) == (
            RecordingStatus::Starting,
            StartAction::ResumeProvider,
        ),
        spec_start_step(RecordingStatus::Idle, StartEvent::Requested { reuse_possible: false }) == (
            RecordingStatus::Starting,
            StartAction::CreateProvider,
        ),
        spec_start_step(status, StartEvent::ProviderCreated(true)) == (
            RecordingStatus::Starting,
            StartAction::InitializeProvider,
        ),
        spec_start_step(status, StartEvent::ProviderInitialized(true)) == (
            RecordingStatus::Starting,
            StartAction::StartStream,
        ),
        spec_start_step(status, StartEvent::StreamStarted(true)) == (
            RecordingStatus::Starting,
            StartAction::StartCapture,
        ),
        spec_start_step(status, StartEvent::CaptureStarted(true)) == (RecordingStatus::Recording, StartAction::Done),
        spec_start_step(status, StartEvent::ProviderCreated(false)).1 matches StartAction::Fail { failure, .. }
            && failure == StartFailure::CreateProvider,
        spec_start_step(status, StartEvent::ProviderInitialized(false)).1 matches StartAction::Fail { failure, .. }
            && failure == StartFailure::InitializeProvider,
        spec_start_step(status, StartEvent::StreamStarted(false)).1 matches StartAction::Fail { failure, .. }
            && failure == StartFailure::StartStream,
        spec_start_step(status, StartEvent::CaptureStarted(false)).1 matches StartAction::Fail {
            failure,
            stop_processor,
            abort_provider,
        } && failure == StartFailure::StartCapture && stop_processor && abort_provider,
{
}

/// Resuming the kept-alive connection: when the resume succeeds, capture
/// starts at once on that provider, exactly as after a freshly started
/// stream; only a failed resume throws the provider away and creates a new
/// one. No other event ever discards a provider.
pub proof fn lemma_resumed_provider_is_kept(status: RecordingStatus, ok: bool, event: StartEvent)
    ensures
        spec_start_step(status, StartEvent::Resumed(true)) == (RecordingStatus::Starting, StartAction::StartCapture),
        spec_start_step(status, StartEvent::Resumed(true)) == spec_start_step(status, StartEvent::StreamStarted(true)),
        spec_start_step(status, StartEvent::Resumed(false)) == (
            RecordingStatus::Starting,
            StartAction::DiscardProviderAndCreate,
        ),
        spec_start_step(status, event).1 == StartAction::DiscardProviderAndCreate ==> event == StartEvent::Resumed(
            false,
        ),
        spec_start_step(status, StartEvent::Resumed(ok)).0 == RecordingStatus::Starting,
{
}

/// After a successful capture stop the provider is paused (and its
/// connection kept) exactly when keep-alive applies and the stop is not
/// hard; otherwise the stream is closed, the provider dropped and the
/// service is `Idle`. A failed capture stop always aborts the provider.
pub proof fn lemma_pause_only_with_keep_alive(status: RecordingStatus, hard: bool, ttl: u64, ok: bool, keep_alive: bool)
    ensures
        (spec_stop_step(status, hard, ttl, StopEvent::CaptureStopped { ok, keep_alive }).1 == StopAction::PauseProvider)
            == (ok && keep_alive && !hard),
        ok && !keep_alive ==> spec_stop_step(status, hard, ttl, StopEvent::CaptureStopped { ok, keep_alive }) == (
            RecordingStatus::Idle,
            StopAction::CloseProvider,
        ),
        ok && hard ==> spec_stop_step(status, hard, ttl, StopEvent::CaptureStopped { ok, keep_alive }) == (
            RecordingStatus::Idle,
            StopAction::CloseProvider,
        ),
        ok && keep_alive && !hard ==> spec_stop_step(status, hard, ttl, StopEvent::CaptureStopped { ok, keep_alive })
            == (RecordingStatus::Processing, StopAction::PauseProvider),
        !ok ==> spec_stop_step(status, hard, ttl, StopEvent::CaptureStopped { ok, keep_alive }) == (
            RecordingStatus::Idle,
            StopAction::FailAbortProvider,
        ),
{
}

/// A kept-alive connection lives for at least `MIN_KEEP_ALIVE_TTL_SECS`
/// seconds, and for the configured time when that is longer.
pub proof fn lemma_keep_alive_ttl(ttl: u64)
    ensures
        spec_stop_step(RecordingStatus::Processing, false, ttl, StopEvent::PauseFinished(Some(true))).1
            == (StopAction::KeepAlive { ttl_secs: spec_keep_alive_ttl(ttl) }),
        spec_keep_alive_ttl(ttl) >= MIN_KEEP_ALIVE_TTL_SECS,
        spec_keep_alive_ttl(ttl) >= ttl,
{
}

/// Runs `n` failed sends with the same error through the processor.
pub open spec fn failures(st: AudioProcessorState, n: nat) -> AudioProcessorState
    decreases n,
{
    if n == 0 {
        st
    } else {
        let prev = failures(st, (n - 1) as nat);
        AudioProcessorState { consecutive_errors: (prev.consecutive_errors + 1) as u32, good_streak: 0, ..prev }
    }
}

/// Consecutive non-critical send failures are counted from the last success;
/// the recording stops at the `MAX_CONSECUTIVE_ERRORS`-th one and not before.
pub proof fn lemma_stop_after_max_errors(st: AudioProcessorState, n: nat)
    requires
        st.consecutive_errors == 0,
        1 <= n <= MAX_CONSECUTIVE_ERRORS,
    ensures
        failures(st, n).consecutive_errors == n,
        (failures(st, n).consecutive_errors >= MAX_CONSECUTIVE_ERRORS) == (n == MAX_CONSECUTIVE_ERRORS),
        failures(st, (n - 1) as nat).running(),
    decreases n,
{
    if n > 1 {
        lemma_stop_after_max_errors(st, (n - 1) as nat);
    } else {
        assert(failures(st, 0) == st);
    }
}

} // verus!
