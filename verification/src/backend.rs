//! Rules of the connection to our own transcription backend: which URL and
//! token a session uses, how the WebSocket handshake is addressed, how its
//! failures are reported, and how captured audio is batched into frames.
use vstd::prelude::*;

use crate::audio_chunk::{append_le_bytes, le_bytes};
use crate::config::{SttConfig, SttProviderType};
use crate::errors::{
    is_authentication_error, is_configuration_error, is_plain_connection_error,
    is_processing_error, plain_connection_error, SttError,
};
use crate::text::{
    concat, contains, contains_seq, opt_as_str, opt_str_view, opt_string_view, replace,
    replace_all, str_eq,
};

verus! {

/// Backend URL of release builds.
pub open spec fn prod_backend_url() -> Seq<char> {
    "wss://api.voicetotext.app"@
}

/// Backend URL of debug builds (a backend on this machine).
pub open spec fn dev_backend_url() -> Seq<char> {
    "ws://localhost:8080"@
}

/// Token that a local development backend accepts.
pub open spec fn dev_local_token() -> Seq<char> {
    "dev-local-token"@
}

/// The host that `http::Uri` finds in `url`: `None` where `url` does not
/// parse as a URI or has no authority.
pub uninterp spec fn uri_host(url: Seq<char>) -> Option<Seq<char>>;

/// `str::parse::<http::Uri>` followed by `Uri::host`. The result is named,
/// not described: it is the host of `url` as the `http` crate parses it.
#[verifier::external_body]
fn parse_uri_host(url: &str) -> (h: Option<String>)
    ensures
        opt_string_view(h) == uri_host(url@),
{
    match url.parse::<http::Uri>() {
        Ok(uri) => uri.host().map(|h| h.to_string()),
        Err(_) => None,
    }
}

/// A loopback host name.
pub open spec fn is_loopback_host(h: Seq<char>) -> bool {
    h == "localhost"@ || h == "127.0.0.1"@ || h == "::1"@
}

/// Whether a backend URL points at this machine, given the host that the
/// URI parser found in it (`None`: fall back to a substring search).
pub open spec fn spec_local_backend(parsed_host: Option<Seq<char>>, url: Seq<char>) -> bool {
    match parsed_host {
        Some(h) => is_loopback_host(h),
        None => contains_seq(url, "localhost"@) || contains_seq(url, "127.0.0.1"@) || contains_seq(
            url,
            "[::1]"@,
        ),
    }
}

/// Decides whether a backend URL is local from the host its parse gave.
pub fn classify_backend_host(parsed_host: Option<&str>, url: &str) -> (b: bool)
    ensures
        b == spec_local_backend(opt_str_view(parsed_host), url@),
{
    match parsed_host {
        Some(h) => str_eq(h, "localhost") || str_eq(h, "127.0.0.1") || str_eq(h, "::1"),
        None => contains(url, "localhost") || contains(url, "127.0.0.1") || contains(url, "[::1]"),
    }
}

/// Whether the URL points at a local backend (localhost / loopback).
///
/// In a debug build a token saved for production is almost surely invalid
/// for a local backend, so such a backend gets the development token.
pub fn is_local_backend_url(url: &str) -> (b: bool)
    ensures
        b == spec_local_backend(uri_host(url@), url@),
{
    let host = parse_uri_host(url);
    classify_backend_host(opt_as_str(&host), url)
}

/// The backend URL when the configuration names none: a non-empty value of
/// the environment override, else the URL of the build profile.
pub open spec fn spec_default_backend_url(env_url: Option<Seq<char>>, debug_build: bool) -> Seq<char> {
    if env_url is Some && env_url->0.len() > 0 {
        env_url->0
    } else if debug_build {
        dev_backend_url()
    } else {
        prod_backend_url()
    }
}

/// Backend URL by environment: `env_url` is the value of
/// `VOICE_TO_TEXT_BACKEND_URL` when it is set.
pub fn get_default_backend_url(env_url: Option<&str>, debug_build: bool) -> (s: String)
    ensures
        s@ == spec_default_backend_url(opt_str_view(env_url), debug_build),
{
    if let Some(u) = env_url {
        if !u.is_empty() {
            return u.to_owned();
        }
    }
    if debug_build {
        "ws://localhost:8080".to_owned()
    } else {
        "wss://api.voicetotext.app".to_owned()
    }
}

/// The URL a session uses: the configured one, else the default.
pub open spec fn spec_session_url(
    configured: Option<Seq<char>>,
    env_url: Option<Seq<char>>,
    debug_build: bool,
) -> Seq<char> {
    match configured {
        Some(u) => u,
        None => spec_default_backend_url(env_url, debug_build),
    }
}

/// Message of the error when a release build has no saved token.
pub open spec fn missing_token_message() -> Seq<char> {
    "Backend auth token is required. Please activate your license."@
}

/// The token a session sends. A debug build talking to a local backend
/// always uses the development token; another debug build falls back to it;
/// a release build needs a saved token.
pub open spec fn spec_auth_token(debug_build: bool, local: bool, saved: Option<Seq<char>>) -> Option<Seq<char>> {
    if debug_build {
        if local {
            Some(dev_local_token())
        } else {
            match saved {
                Some(t) => Some(t),
                None => Some(dev_local_token()),
            }
        }
    } else {
        saved
    }
}

/// Chooses the token for a session (see `spec_auth_token`); fails with a
/// configuration error when a release build has none.
pub fn resolve_auth_token(debug_build: bool, local: bool, saved: Option<&str>) -> (r: Result<
    String,
    SttError,
>)
    ensures
        match spec_auth_token(debug_build, local, opt_str_view(saved)) {
            Some(t) => r matches Ok(s) && s@ == t,
            None => r matches Err(e) && is_configuration_error(e, missing_token_message()),
        },
{
    if debug_build {
        if local {
            return Ok("dev-local-token".to_owned());
        }
        match saved {
            Some(t) => Ok(t.to_owned()),
            None => Ok("dev-local-token".to_owned()),
        }
    } else {
        match saved {
            Some(t) => Ok(t.to_owned()),
            None => Err(
                SttError::Configuration(
                    "Backend auth token is required. Please activate your license.".to_owned(),
                ),
            ),
        }
    }
}

/// Message of a 401 from a local backend in a debug build.
pub open spec fn local_unauthorized_message() -> Seq<char> {
    "401 Unauthorized от локального бэкенда. Проверь, что backend запущен с SECURITY_ALLOW_DEV_TOKEN=true (и APP_ENV=local). Если хочешь использовать свой сохранённый токен — укажи VOICE_TO_TEXT_BACKEND_URL=wss://api.voicetotext.app"@
}

/// Message of a 401 otherwise.
pub open spec fn unauthorized_message() -> Seq<char> {
    "401 Unauthorized. Токен недействителен/истёк — попробуй перелогиниться."@
}

/// The error reported for a failed WebSocket handshake. `status` is the HTTP
/// status when the server answered with one; `detail` is the text of that
/// status, or of the failure when there is none.
pub open spec fn spec_handshake_error_ok(
    e: SttError,
    status: Option<u16>,
    detail: Seq<char>,
    debug_build: bool,
    local: bool,
) -> bool {
    match status {
        Some(code) => if code == 401 {
            if debug_build && local {
                is_authentication_error(e, local_unauthorized_message())
            } else {
                is_authentication_error(e, unauthorized_message())
            }
        } else {
            is_plain_connection_error(e, "WS connection failed: HTTP error: "@ + detail)
        },
        None => is_plain_connection_error(e, "WS connection failed: "@ + detail),
    }
}

/// Maps a failed handshake to the error the session reports.
pub fn handshake_error(status: Option<u16>, detail: &str, debug_build: bool, local: bool) -> (e: SttError)
    ensures
        spec_handshake_error_ok(e, status, detail@, debug_build, local),
{
    match status {
        Some(code) => {
            if code == 401 {
                if debug_build && local {
                    SttError::Authentication(
                        "401 Unauthorized от локального бэкенда. Проверь, что backend запущен с SECURITY_ALLOW_DEV_TOKEN=true (и APP_ENV=local). Если хочешь использовать свой сохранённый токен — укажи VOICE_TO_TEXT_BACKEND_URL=wss://api.voicetotext.app".to_owned(),
                    )
                } else {
                    SttError::Authentication(
                        "401 Unauthorized. Токен недействителен/истёк — попробуй перелогиниться.".to_owned(),
                    )
                }
            } else {
                let m = concat("WS connection failed: HTTP error: ", detail);
                plain_connection_error(m.as_str())
            }
        },
        None => {
            let m = concat("WS connection failed: ", detail);
            plain_connection_error(m.as_str())
        },
    }
}

/// Bytes of one 30 ms frame of 16 kHz mono 16-bit audio.
pub const FRAME_BYTES: usize = 960;

/// At most this many frames travel in one binary message (about 300 ms),
/// so that a backlog is caught up without more messages per second.
pub const MAX_FRAMES_PER_MESSAGE: usize = 10;

/// Messages from the client to the backend.
#[derive(Debug, Clone)]
pub enum ClientMessage {
    /// Session configuration (first message after connecting)
    Config {
        /// Protocol version
        protocol_v: u16,
        /// Provider: deepgram or assemblyai
        provider: String,
        /// Recognition language (ISO 639-1)
        language: String,
        /// Sample rate in Hz
        sample_rate: u32,
        /// Number of channels (1 = mono)
        channels: u8,
        /// Encoding: pcm_s16le
        encoding: String,
    },
    /// The client closes the session
    Close,
}

/// Name of the upstream provider that the backend is asked to use.
pub open spec fn spec_provider_wire_name(p: SttProviderType) -> Seq<char> {
    match p {
        SttProviderType::AssemblyAI => "assemblyai"@,
        _ => "deepgram"@,
    }
}

/// The configuration message that opens a session.
pub open spec fn is_config_message(m: ClientMessage, provider: SttProviderType, language: Seq<char>) -> bool {
    m matches ClientMessage::Config { protocol_v, provider: p, language: l, sample_rate, channels, encoding }
        && protocol_v == 1 && p@ == spec_provider_wire_name(provider) && l@ == language
        && sample_rate == 16000 && channels == 1 && encoding@ == "pcm_s16le"@
}

/// Builds the configuration message for a provider and language.
pub fn config_message(provider: SttProviderType, language: &str) -> (m: ClientMessage)
    ensures
        is_config_message(m, provider, language@),
{
    let name = match provider {
        SttProviderType::AssemblyAI => "assemblyai".to_owned(),
        _ => "deepgram".to_owned(),
    };
    ClientMessage::Config {
        protocol_v: 1,
        provider: name,
        language: language.to_owned(),
        sample_rate: 16000,
        channels: 1,
        encoding: "pcm_s16le".to_owned(),
    }
}

/// What a connection attempt needs: where to connect, the `Host` and
/// `Authorization` headers, and the message that opens the session.
pub struct ConnectPlan {
    pub ws_url: String,
    pub host: String,
    pub authorization: String,
    pub config_message: ClientMessage,
}

/// What stopping a stream still has to send.
pub struct StopPlan {
    /// The tail of the audio batch, sent before anything else
    pub flush: Option<Vec<u8>>,
    /// Whether the WebSocket is closed
    pub close_socket: bool,
}

/// Abstract state of a backend session.
pub struct BackendView {
    pub token: Option<Seq<char>>,
    pub url: Seq<char>,
    pub config: Option<SttConfig>,
    pub streaming: bool,
    pub paused: bool,
    pub closed: bool,
    pub writer: bool,
    pub batch: Seq<u8>,
    pub frames: nat,
}

/// State of a session with the backend: what the provider knows between
/// the socket events that its owner hands it.
pub struct BackendState {
    auth_token: Option<String>,
    backend_url: String,
    config: Option<SttConfig>,
    is_streaming: bool,
    is_paused: bool,
    is_closed: bool,
    has_writer: bool,
    audio_batch: Vec<u8>,
    audio_batch_frames: usize,
}

impl View for BackendState {
    type V = BackendView;

    closed spec fn view(&self) -> BackendView {
        BackendView {
            token: opt_string_view(self.auth_token),
            url: self.backend_url@,
            config: self.config,
            streaming: self.is_streaming,
            paused: self.is_paused,
            closed: self.is_closed,
            writer: self.has_writer,
            batch: self.audio_batch@,
            frames: self.audio_batch_frames as nat,
        }
    }
}

/// Adds the encoding of one chunk to the batch and takes off what is due:
/// the batch after the step, its frame count, and the bytes to send.
/// As many whole frames as were counted (at most `MAX_FRAMES_PER_MESSAGE`)
/// leave once that many bytes are there.
pub open spec fn batch_step(batch: Seq<u8>, frames: nat, samples: Seq<i16>) -> (Seq<u8>, nat, Option<Seq<u8>>) {
    let appended = batch + le_bytes(samples);
    let f = frames + 1;
    let k: nat = if f < 10 { f } else { 10 };
    let n = k * 960;
    if appended.len() < n {
        (appended, f, None)
    } else {
        (appended.skip(n as int), (f - k) as nat, Some(appended.take(n as int)))
    }
}

/// The session may flush its batch: there is something in it, the
/// connection is open, and there is a socket to write to.
pub open spec fn can_flush(v: BackendView) -> bool {
    v.batch.len() > 0 && !v.closed && v.writer
}

impl BackendState {
    /// A session that has not connected yet.
    pub fn new(env_url: Option<&str>, debug_build: bool) -> (s: Self)
        ensures
            s@ == (BackendView {
                token: None,
                url: spec_default_backend_url(opt_str_view(env_url), debug_build),
                config: None,
                streaming: false,
                paused: false,
                closed: true,
                writer: false,
                batch: Seq::empty(),
                frames: 0,
            }),
    {
        BackendState {
            auth_token: None,
            backend_url: get_default_backend_url(env_url, debug_build),
            config: None,
            is_streaming: false,
            is_paused: false,
            is_closed: true,
            has_writer: false,
            audio_batch: Vec::new(),
            audio_batch_frames: 0,
        }
    }

    /// Takes the URL and token for the sessions to come from `config`.
    pub fn initialize(&mut self, config: &SttConfig, env_url: Option<&str>, debug_build: bool) -> (r:
        Result<(), SttError>)
        ensures
            ({
                let url = spec_session_url(
                    opt_string_view(config.backend_url),
                    opt_str_view(env_url),
                    debug_build,
                );
                let local = spec_local_backend(uri_host(url), url);
                match spec_auth_token(debug_build, local, opt_string_view(config.backend_auth_token)) {
                    Some(t) => r is Ok && final(self)@ == (BackendView {
                        token: Some(t),
                        url: url,
                        config: Some(*config),
                        ..old(self)@
                    }),
                    None => r matches Err(e) && is_configuration_error(e, missing_token_message())
                        && final(self)@ == old(self)@,
                }
            }),
    {
        let url = match &config.backend_url {
            Some(u) => u.clone(),
            None => get_default_backend_url(env_url, debug_build),
        };
        let local = is_local_backend_url(url.as_str());
        match resolve_auth_token(debug_build, local, opt_as_str(&config.backend_auth_token)) {
            Ok(token) => {
                self.auth_token = Some(token);
                self.backend_url = url;
                self.config = Some(config.duplicate());
                Ok(())
            },
            Err(e) => Err(e),
        }
    }

    /// What a connection attempt uses; fails when a stream is already
    /// active or the session has not been initialized.
    pub fn connect_plan(&self) -> (r: Result<ConnectPlan, SttError>)
        ensures
            self@.streaming ==> (r matches Err(e) && is_processing_error(e, "Stream already active"@)),
            !self@.streaming && self@.token is None ==> (r matches Err(e) && is_configuration_error(
                e,
                "Auth token not set"@,
            )),
            !self@.streaming && self@.token is Some && self@.config is None ==> (r matches Err(e)
                && is_configuration_error(e, "Config not set"@)),
            !self@.streaming && self@.token is Some && self@.config is Some ==> (r matches Ok(p) && {
                &&& p.ws_url@ == self@.url + "/api/v1/transcribe/stream"@
                &&& p.host@ == replace_all(replace_all(self@.url, "wss://"@, ""@), "ws://"@, ""@)
                &&& p.authorization@ == "Bearer "@ + self@.token->0
                &&& is_config_message(
                    p.config_message,
                    self@.config->0.provider,
                    self@.config->0.language@,
                )
            }),
    {
        if self.is_streaming {
            return Err(SttError::Processing("Stream already active".to_owned()));
        }
        let token = match &self.auth_token {
            Some(t) => t,
            None => return Err(SttError::Configuration("Auth token not set".to_owned())),
        };
        let config = match &self.config {
            Some(c) => c,
            None => return Err(SttError::Configuration("Config not set".to_owned())),
        };
        proof {
            reveal_strlit("wss://");
            reveal_strlit("ws://");
        }
        let ws_url = concat(self.backend_url.as_str(), "/api/v1/transcribe/stream");
        let without_tls = replace(self.backend_url.as_str(), "wss://", "");
        let host = replace(without_tls.as_str(), "ws://", "");
        let authorization = concat("Bearer ", token.as_str());
        let config_message = config_message(config.provider, config.language.as_str());
        Ok(ConnectPlan { ws_url, host, authorization, config_message })
    }

    /// The socket is connected: the connection counts as open.
    pub fn on_connected(&mut self)
        ensures
            final(self)@ == (BackendView { closed: false, writer: true, ..old(self)@ }),
    {
        self.is_closed = false;
        self.has_writer = true;
    }

    /// The configuration was sent and the socket tasks run: the stream is active.
    pub fn on_stream_started(&mut self)
        ensures
            final(self)@ == (BackendView { streaming: true, paused: false, ..old(self)@ }),
    {
        self.is_streaming = true;
        self.is_paused = false;
    }

    /// The server closed the socket or reading it failed.
    pub fn on_connection_lost(&mut self)
        ensures
            final(self)@ == (BackendView { closed: true, ..old(self)@ }),
    {
        self.is_closed = true;
    }

    /// Bytes in the audio batch.
    pub fn batch_len(&self) -> (n: usize)
        ensures
            n == self@.batch.len(),
    {
        self.audio_batch.len()
    }

    /// Frames counted in the audio batch.
    pub fn batch_frames(&self) -> (n: usize)
        ensures
            n == self@.frames,
    {
        self.audio_batch_frames
    }

    /// Adds one chunk of 16 kHz mono samples to the batch and returns the
    /// bytes that are due to be sent now, if any (see `batch_step`).
    pub fn send_audio(&mut self, samples: &[i16]) -> (r: Result<Option<Vec<u8>>, SttError>)
        requires
            old(self)@.frames < usize::MAX,
            old(self)@.batch.len() + 2 * samples@.len() <= usize::MAX,
        ensures
            old(self)@.closed ==> (r matches Err(e) && is_plain_connection_error(e, "Connection closed"@)
                && final(self)@ == old(self)@),
            !old(self)@.closed && !old(self)@.streaming ==> (r matches Err(e) && is_processing_error(
                e,
                "Stream not active"@,
            ) && final(self)@ == old(self)@),
            !old(self)@.closed && old(self)@.streaming && !old(self)@.writer ==> (r matches Err(e)
                && is_processing_error(e, "WebSocket not connected"@) && final(self)@ == old(self)@),
            !old(self)@.closed && old(self)@.streaming && old(self)@.writer ==> {
                let (batch, frames, out) = batch_step(old(self)@.batch, old(self)@.frames, samples@);
                &&& r matches Ok(o) && match o {
                    Some(b) => out == Some(b@),
                    None => out is None,
                }
                &&& final(self)@ == (BackendView { batch: batch, frames: frames, ..old(self)@ })
            },
    {
        if self.is_closed {
            return Err(plain_connection_error("Connection closed"));
        }
        if !self.is_streaming {
            return Err(SttError::Processing("Stream not active".to_owned()));
        }
        if !self.has_writer {
            return Err(SttError::Processing("WebSocket not connected".to_owned()));
        }
        append_le_bytes(&mut self.audio_batch, samples);
        self.audio_batch_frames = self.audio_batch_frames + 1;
        let frames_to_send: usize = if self.audio_batch_frames < MAX_FRAMES_PER_MESSAGE {
            self.audio_batch_frames
        } else {
            MAX_FRAMES_PER_MESSAGE
        };
        let bytes_to_send: usize = frames_to_send * FRAME_BYTES;
        if self.audio_batch.len() < bytes_to_send {
            return Ok(None);
        }
        let ghost appended = self.audio_batch@;
        let mut bytes = self.audio_batch.split_off(bytes_to_send);
        std::mem::swap(&mut bytes, &mut self.audio_batch);
        proof {
            assert(bytes@ =~= appended.take(bytes_to_send as int));
            assert(self.audio_batch@ =~= appended.skip(bytes_to_send as int));
        }
        self.audio_batch_frames = self.audio_batch_frames - frames_to_send;
        Ok(Some(bytes))
    }

    /// Takes the whole batch when it can be flushed.
    fn take_flush(&mut self) -> (f: Option<Vec<u8>>)
        ensures
            can_flush(old(self)@) ==> (f matches Some(b) && b@ == old(self)@.batch && final(self)@ == (
            BackendView { batch: Seq::empty(), frames: 0, ..old(self)@ })),
            !can_flush(old(self)@) ==> f is None && final(self)@ == old(self)@,
    {
        if self.audio_batch.len() > 0 && !self.is_closed && self.has_writer {
            let mut bytes: Vec<u8> = Vec::new();
            std::mem::swap(&mut bytes, &mut self.audio_batch);
            self.audio_batch_frames = 0;
            Some(bytes)
        } else {
            None
        }
    }

    /// Stops the stream: flushes the tail of the batch, marks the connection
    /// closed (so nothing but that tail is sent), and, when a stream was
    /// active, closes the socket and forgets it.
    pub fn stop_stream(&mut self) -> (p: StopPlan)
        ensures
            can_flush(old(self)@) ==> (p.flush matches Some(b) && b@ == old(self)@.batch),
            !can_flush(old(self)@) ==> p.flush is None,
            p.close_socket == (old(self)@.streaming && old(self)@.writer),
            ({
                let flushed = if can_flush(old(self)@) {
                    BackendView { batch: Seq::empty(), frames: 0, closed: true, ..old(self)@ }
                } else {
                    BackendView { closed: true, ..old(self)@ }
                };
                if old(self)@.streaming {
                    final(self)@ == (BackendView { writer: false, streaming: false, paused: false, ..flushed })
                } else {
                    final(self)@ == flushed
                }
            }),
    {
        let flush = self.take_flush();
        self.is_closed = true;
        if !self.is_streaming {
            return StopPlan { flush, close_socket: false };
        }
        let close_socket = self.has_writer;
        self.has_writer = false;
        self.is_streaming = false;
        self.is_paused = false;
        StopPlan { flush, close_socket }
    }

    /// Aborts the stream at once, without a closing message. Returns
    /// whether there is a socket to close.
    pub fn abort(&mut self) -> (close_socket: bool)
        ensures
            close_socket == old(self)@.writer,
            final(self)@ == (BackendView {
                closed: true,
                writer: false,
                streaming: false,
                paused: false,
                ..old(self)@
            }),
    {
        self.is_closed = true;
        let close_socket = self.has_writer;
        self.has_writer = false;
        self.is_streaming = false;
        self.is_paused = false;
        close_socket
    }

    /// Pauses the stream, keeping the connection; the tail of the batch is
    /// returned for sending so the last milliseconds before the pause are kept.
    pub fn pause_stream(&mut self) -> (r: Result<Option<Vec<u8>>, SttError>)
        ensures
            !old(self)@.streaming ==> (r matches Err(e) && is_processing_error(e, "Stream not active"@)
                && final(self)@ == old(self)@),
            old(self)@.streaming && old(self)@.paused ==> (r matches Ok(f) && f is None && final(self)@
                == old(self)@),
            old(self)@.streaming && !old(self)@.paused && can_flush(old(self)@) ==> (r matches Ok(f)
                && f matches Some(b) && b@ == old(self)@.batch && final(self)@ == (BackendView {
                batch: Seq::empty(),
                frames: 0,
                paused: true,
                ..old(self)@
            })),
            old(self)@.streaming && !old(self)@.paused && !can_flush(old(self)@) ==> (r matches Ok(f)
                && f is None && final(self)@ == (BackendView { paused: true, ..old(self)@ })),
    {
        if !self.is_streaming {
            return Err(SttError::Processing("Stream not active".to_owned()));
        }
        if self.is_paused {
            return Ok(None);
        }
        let flush = self.take_flush();
        self.is_paused = true;
        Ok(flush)
    }

    /// Resumes a paused stream on the same connection.
    pub fn resume_stream(&mut self) -> (r: Result<(), SttError>)
        ensures
            !old(self)@.streaming ==> (r matches Err(e) && is_processing_error(e, "Stream not active"@)
                && final(self)@ == old(self)@),
            old(self)@.streaming && old(self)@.closed ==> (r matches Err(e) && is_plain_connection_error(
                e,
                "Connection closed"@,
            ) && final(self)@ == old(self)@),
            old(self)@.streaming && !old(self)@.closed ==> r is Ok && final(self)@ == (BackendView {
                paused: false,
                ..old(self)@
            }),
    {
        if !self.is_streaming {
            return Err(SttError::Processing("Stream not active".to_owned()));
        }
        if self.is_closed {
            return Err(plain_connection_error("Connection closed"));
        }
        self.is_paused = false;
        Ok(())
    }

    /// Whether a paused connection can be reused: it is paused and open, and
    /// neither the reading task nor the keep-alive task has ended.
    pub fn is_connection_alive(&self, receiver_finished: bool, keepalive_finished: bool) -> (b: bool)
        ensures
            b == (self@.streaming && self@.paused && self@.writer && !self@.closed && !receiver_finished
                && !keepalive_finished),
    {
        self.is_streaming && self.is_paused && self.has_writer && !self.is_closed && !receiver_finished
            && !keepalive_finished
    }

    /// Whether a JSON message can go out: not once the connection is
    /// closed (then it is silently skipped: `Ok(false)`), and not without a
    /// socket.
    pub fn json_send_gate(&self) -> (r: Result<bool, SttError>)
        ensures
            self@.closed ==> r == Ok::<bool, SttError>(false),
            !self@.closed && self@.writer ==> r == Ok::<bool, SttError>(true),
            !self@.closed && !self@.writer ==> (r matches Err(e) && is_processing_error(
                e,
                "WebSocket not connected"@,
            )),
    {
        if self.is_closed {
            Ok(false)
        } else if self.has_writer {
            Ok(true)
        } else {
            Err(SttError::Processing("WebSocket not connected".to_owned()))
        }
    }

    /// Name of the provider.
    pub fn name(&self) -> (n: &'static str)
        ensures
            n@ == "backend"@,
    {
        "backend"
    }

    /// Whether a stream is active.
    pub fn is_streaming(&self) -> (b: bool)
        ensures
            b == self@.streaming,
    {
        self.is_streaming
    }

    /// Whether a stream is paused (connection kept alive).
    pub fn is_paused(&self) -> (b: bool)
        ensures
            b == self@.paused,
    {
        self.is_paused
    }

    /// The token the sessions use, once initialized.
    pub fn auth_token(&self) -> (t: Option<&str>)
        ensures
            opt_str_view(t) == self@.token,
    {
        opt_as_str(&self.auth_token)
    }

    /// The backend URL the sessions use.
    pub fn backend_url(&self) -> (u: &str)
        ensures
            u@ == self@.url,
    {
        self.backend_url.as_str()
    }

    /// The backend is a cloud service: always online.
    pub fn is_online(&self) -> (b: bool)
        ensures
            b,
    {
        true
    }

    /// The backend streams results while audio arrives.
    pub fn supports_streaming(&self) -> (b: bool)
        ensures
            b,
    {
        true
    }

    /// A paused backend session keeps its connection for reuse.
    pub fn supports_keep_alive(&self) -> (b: bool)
        ensures
            b,
    {
        true
    }
}

/// What the reading side of a session got.
pub enum ServerEvent {
    /// `ready`: the session accepts audio
    Ready,
    /// `ack` of an audio message
    Ack,
    /// `resumed`: a session was taken up again
    Resumed,
    /// `partial`, `final` or `usage_update` (carried on as they are)
    Result,
    /// `error` with the server's code and message
    Error { code: String, message: String },
    /// A text that is not a known message
    Unparsed,
    /// The server closed the socket
    Closed,
    /// Reading the socket failed with this text
    Failed(String),
}

/// What the session does about it.
pub enum ServerReaction {
    /// Report a good connection quality
    GoodQuality,
    /// Report an error with its message and kind
    ReportError { message: String, error_type: String },
    /// Hand the result on to the listeners
    Forward,
    /// The connection is gone (nothing to report)
    ConnectionLost,
    /// The connection is gone: report the failure as a connection error
    ConnectionFailed { message: String },
    /// Nothing to do
    Nothing,
}

/// A session is ready or resumed: good quality; a server error goes to
/// the error listener with the server's code as its kind; results go on;
/// a closed or failed socket ends the connection.
pub fn react_to_server(e: ServerEvent) -> (r: ServerReaction)
    ensures
        match e {
            ServerEvent::Ready => r is GoodQuality,
            ServerEvent::Resumed => r is GoodQuality,
            ServerEvent::Ack => r is Nothing,
            ServerEvent::Unparsed => r is Nothing,
            ServerEvent::Result => r is Forward,
            ServerEvent::Error { code, message } => r matches ServerReaction::ReportError {
                message: m,
                error_type: t,
            } && m == message && t == code,
            ServerEvent::Closed => r is ConnectionLost,
            ServerEvent::Failed(text) => r matches ServerReaction::ConnectionFailed { message: m } && m
                == text,
        },
{
    match e {
        ServerEvent::Ready => ServerReaction::GoodQuality,
        ServerEvent::Resumed => ServerReaction::GoodQuality,
        ServerEvent::Ack => ServerReaction::Nothing,
        ServerEvent::Unparsed => ServerReaction::Nothing,
        ServerEvent::Result => ServerReaction::Forward,
        ServerEvent::Error { code, message } => ServerReaction::ReportError { message, error_type: code },
        ServerEvent::Closed => ServerReaction::ConnectionLost,
        ServerEvent::Failed(text) => ServerReaction::ConnectionFailed { message: text },
    }
}

/// Kind of error reported when reading the socket fails.
pub fn socket_failure_type() -> (t: &'static str)
    ensures
        t@ == "connection"@,
{
    "connection"
}

/// Batching loses and invents no audio: what is sent followed by what stays
/// in the batch is the old batch followed by the new samples, and a message
/// holds whole frames, at most `MAX_FRAMES_PER_MESSAGE` of them.
pub proof fn lemma_batch_conserves_audio(batch: Seq<u8>, frames: nat, samples: Seq<i16>)
    ensures
        ({
            let (rest, f, out) = batch_step(batch, frames, samples);
            &&& match out {
                Some(b) => b + rest == batch + le_bytes(samples) && b.len() % 960 == 0 && 0 < b.len()
                    <= 9600,
                None => rest == batch + le_bytes(samples) && f == frames + 1,
            }
            &&& f <= frames + 1
        }),
{
    let appended = batch + le_bytes(samples);
    let f = frames + 1;
    let k: nat = if f < 10 { f } else { 10 };
    let n = k * 960;
    if appended.len() >= n {
        assert(appended.take(n as int) + appended.skip(n as int) =~= appended);
    }
}

/// The bytes of a sequence of chunks, one chunk after the other.
pub open spec fn stream_bytes(chunks: Seq<Seq<i16>>) -> Seq<u8>
    decreases chunks.len(),
{
    if chunks.len() == 0 {
        Seq::empty()
    } else {
        stream_bytes(chunks.drop_last()) + le_bytes(chunks.last())
    }
}

/// Batch, frame count and every byte sent, in order, after the chunks were
/// handed to an open stream one after the other (see `batch_step`).
pub open spec fn batch_run(batch: Seq<u8>, frames: nat, chunks: Seq<Seq<i16>>) -> (Seq<u8>, nat, Seq<u8>)
    decreases chunks.len(),
{
    if chunks.len() == 0 {
        (batch, frames, Seq::empty())
    } else {
        let before = batch_run(batch, frames, chunks.drop_last());
        let step = batch_step(before.0, before.1, chunks.last());
        (step.0, step.1, match step.2 {
            Some(m) => before.2 + m,
            None => before.2,
        })
    }
}

/// Over any number of chunks sent on an open stream, no byte is lost,
/// duplicated or reordered: everything sent followed by what stays in the
/// batch is the old batch followed by the bytes of every chunk, in order.
pub proof fn lemma_stream_conserves_audio(batch: Seq<u8>, frames: nat, chunks: Seq<Seq<i16>>)
    ensures
        batch_run(batch, frames, chunks).2 + batch_run(batch, frames, chunks).0 == batch + stream_bytes(chunks),
    decreases chunks.len(),
{
    if chunks.len() == 0 {
        assert(Seq::<u8>::empty() + batch =~= batch + Seq::<u8>::empty());
    } else {
        let before = batch_run(batch, frames, chunks.drop_last());
        lemma_stream_conserves_audio(batch, frames, chunks.drop_last());
        lemma_batch_conserves_audio(before.0, before.1, chunks.last());
        let step = batch_step(before.0, before.1, chunks.last());
        match step.2 {
            Some(m) => {
                assert(before.2 + m + step.0 =~= before.2 + (m + step.0));
                assert(before.2 + (before.0 + le_bytes(chunks.last())) =~= (before.2 + before.0) + le_bytes(
                    chunks.last(),
                ));
            },
            None => {
                assert(before.2 + (before.0 + le_bytes(chunks.last())) =~= (before.2 + before.0) + le_bytes(
                    chunks.last(),
                ));
            },
        }
        assert(batch + stream_bytes(chunks.drop_last()) + le_bytes(chunks.last()) =~= batch + stream_bytes(
            chunks,
        ));
    }
}

} // verus!
