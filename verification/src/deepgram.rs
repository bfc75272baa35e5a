//! Rules of a direct Deepgram streaming session: model choice by language,
//! the listen URL, buffering of audio into 50 ms messages, the routing of
//! recognition results and the reading of close frames.
use vstd::prelude::*;

use crate::audio_chunk::{append_le_bytes, le_bytes};
use crate::config::SttConfig;
use crate::errors::{
    is_configuration_error, is_plain_connection_error, is_processing_error, plain_connection_error,
    SttError,
};
use crate::text::{concat, contains, contains_seq, opt_string_view, str_eq};

verus! {

/// Samples of 50 ms at 16 kHz: the buffer is sent once it holds this many.
pub const MIN_SAMPLES_PER_MESSAGE: usize = 800;

/// Streaming endpoint of Deepgram.
pub open spec fn deepgram_ws_url() -> Seq<char> {
    "wss://api.deepgram.com/v1/listen"@
}

/// Languages that Nova-3 supports.
pub open spec fn is_nova3_language(l: Seq<char>) -> bool {
    l == "en"@ || l == "es"@ || l == "fr"@ || l == "de"@ || l == "pt"@ || l == "it"@ || l == "nl"@
}

/// The model for a language when the configuration names none.
pub open spec fn spec_model_for_language(l: Seq<char>) -> Seq<char> {
    if is_nova3_language(l) {
        "nova-3"@
    } else {
        "nova-2"@
    }
}

/// Picks the model for a language: Nova-3 for the languages it supports,
/// Nova-2 (which knows more languages, Russian among them) otherwise.
pub fn model_for_language(language: &str) -> (m: String)
    ensures
        m@ == spec_model_for_language(language@),
{
    if str_eq(language, "en") || str_eq(language, "es") || str_eq(language, "fr") || str_eq(
        language,
        "de",
    ) || str_eq(language, "pt") || str_eq(language, "it") || str_eq(language, "nl") {
        "nova-3".to_owned()
    } else {
        "nova-2".to_owned()
    }
}

/// The listen URL with its query parameters for a model and a language.
pub open spec fn spec_listen_url(model: Seq<char>, language: Seq<char>) -> Seq<char> {
    deepgram_ws_url() + "?encoding=linear16&sample_rate=16000&channels=1&model="@ + model
        + "&language="@ + language + "&punctuate=true&interim_results=true"@
}

/// Builds the listen URL.
pub fn listen_url(model: &str, language: &str) -> (u: String)
    ensures
        u@ == spec_listen_url(model@, language@),
{
    let a = concat(
        "wss://api.deepgram.com/v1/listen",
        "?encoding=linear16&sample_rate=16000&channels=1&model=",
    );
    let b = concat(a.as_str(), model);
    let c = concat(b.as_str(), "&language=");
    let d = concat(c.as_str(), language);
    let u = concat(d.as_str(), "&punctuate=true&interim_results=true");
    proof {
        assert(u@ =~= spec_listen_url(model@, language@));
    }
    u
}

/// Kind of failure that the reason of a close frame names.
pub open spec fn spec_close_error_type(reason: Seq<char>) -> Seq<char> {
    if contains_seq(reason, "timeout"@) || contains_seq(reason, "net0001"@) {
        "timeout"@
    } else if contains_seq(reason, "auth"@) || contains_seq(reason, "401"@) {
        "authentication"@
    } else {
        "connection"@
    }
}

/// Reads the kind of failure off the reason of a close frame.
pub fn close_error_type(reason: &str) -> (t: String)
    ensures
        t@ == spec_close_error_type(reason@),
{
    if contains(reason, "timeout") || contains(reason, "net0001") {
        "timeout".to_owned()
    } else if contains(reason, "auth") || contains(reason, "401") {
        "authentication".to_owned()
    } else {
        "connection".to_owned()
    }
}

/// What a close frame reports to the user: nothing for a normal close,
/// otherwise its reason and the kind of failure.
pub fn close_frame_error(reason: &str, normal_close: bool) -> (r: Option<(String, String)>)
    ensures
        normal_close ==> r is None,
        !normal_close ==> (r matches Some(p) && p.0@ == reason@ && p.1@ == spec_close_error_type(
            reason@,
        )),
{
    if normal_close {
        None
    } else {
        Some((reason.to_owned(), close_error_type(reason)))
    }
}

/// The fields of a message from Deepgram that the session reads.
pub struct DeepgramMessage {
    /// `type`
    pub msg_type: Option<String>,
    /// `is_final`
    pub is_final: Option<bool>,
    /// `speech_final`
    pub speech_final: Option<bool>,
    /// `channel.alternatives[0].transcript`, when there is a first alternative
    pub transcript: Option<String>,
    /// `channel.alternatives[0].languages[0]`
    pub language: Option<String>,
}

/// What a message from Deepgram leads to.
pub enum DeepgramEvent {
    /// Metadata: the session is ready
    SessionReady,
    /// A result that is still open (`is_final` tells a finished segment)
    Partial { text: String, is_final: bool, language: Option<String> },
    /// A result after which the whole utterance is finished
    Final { text: String, language: Option<String> },
    /// Nothing to report
    Ignored,
}

/// Routing of a message: results with text go out as final only when the
/// whole utterance ended (`is_final` and `speech_final`), as partial
/// otherwise; metadata marks the session ready; everything else is ignored.
pub open spec fn spec_route_ok(m: DeepgramMessage, e: DeepgramEvent) -> bool {
    let ty = opt_string_view(m.msg_type);
    let fin = m.is_final == Some(true);
    let speech = m.speech_final == Some(true);
    if ty == Some("Results"@) {
        match m.transcript {
            Some(t) => if t@.len() > 0 {
                if fin && speech {
                    e matches DeepgramEvent::Final { text, language } && text@ == t@
                        && opt_string_view(language) == opt_string_view(m.language)
                } else {
                    e matches DeepgramEvent::Partial { text, is_final, language } && text@ == t@
                        && is_final == fin && opt_string_view(language) == opt_string_view(m.language)
                }
            } else {
                e is Ignored
            },
            None => e is Ignored,
        }
    } else if ty == Some("Metadata"@) {
        e is SessionReady
    } else {
        e is Ignored
    }
}

/// Handles one message from Deepgram.
pub fn handle_message(m: &DeepgramMessage) -> (e: DeepgramEvent)
    ensures
        spec_route_ok(*m, e),
{
    let is_results = match &m.msg_type {
        Some(t) => str_eq(t.as_str(), "Results"),
        None => false,
    };
    let is_metadata = match &m.msg_type {
        Some(t) => str_eq(t.as_str(), "Metadata"),
        None => false,
    };
    if is_results {
        let fin = match m.is_final {
            Some(b) => b,
            None => false,
        };
        let speech = match m.speech_final {
            Some(b) => b,
            None => false,
        };
        match &m.transcript {
            Some(t) => {
                if t.as_str().is_empty() {
                    DeepgramEvent::Ignored
                } else {
                    let language = match &m.language {
                        Some(l) => Some(l.clone()),
                        None => None,
                    };
                    if fin && speech {
                        DeepgramEvent::Final { text: t.clone(), language }
                    } else {
                        DeepgramEvent::Partial { text: t.clone(), is_final: fin, language }
                    }
                }
            },
            None => DeepgramEvent::Ignored,
        }
    } else if is_metadata {
        DeepgramEvent::SessionReady
    } else {
        DeepgramEvent::Ignored
    }
}

/// What a connection attempt needs: the listen URL and the `Authorization` header.
pub struct DeepgramConnectPlan {
    pub url: String,
    pub authorization: String,
}

/// What stopping a stream still has to send.
pub struct DeepgramStopPlan {
    /// The rest of the buffer, as little-endian bytes
    pub flush: Option<Vec<u8>>,
    /// Whether a `CloseStream` message is sent
    pub close_stream: bool,
}

/// Abstract state of a Deepgram session.
pub struct DeepgramView {
    pub api_key: Option<Seq<char>>,
    pub config: Option<SttConfig>,
    pub streaming: bool,
    pub paused: bool,
    pub writer: bool,
    pub buffer: Seq<i16>,
}

/// State of a Deepgram session between the socket events its owner hands it.
pub struct DeepgramState {
    api_key: Option<String>,
    config: Option<SttConfig>,
    is_streaming: bool,
    is_paused: bool,
    has_writer: bool,
    audio_buffer: Vec<i16>,
}

impl View for DeepgramState {
    type V = DeepgramView;

    closed spec fn view(&self) -> DeepgramView {
        DeepgramView {
            api_key: opt_string_view(self.api_key),
            config: self.config,
            streaming: self.is_streaming,
            paused: self.is_paused,
            writer: self.has_writer,
            buffer: self.audio_buffer@,
        }
    }
}

/// The language a session asks for: the configured one, else English.
pub open spec fn spec_session_language(config: Option<SttConfig>) -> Seq<char> {
    match config {
        Some(c) => c.language@,
        None => "en"@,
    }
}

/// The model a session asks for: the configured one, else by language.
pub open spec fn spec_session_model(config: Option<SttConfig>) -> Seq<char> {
    match config {
        Some(c) => match c.model {
            Some(m) => m@,
            None => spec_model_for_language(c.language@),
        },
        None => spec_model_for_language("en"@),
    }
}

/// One chunk into the buffer: once 50 ms of audio are there, all of it
/// leaves as bytes and the buffer empties.
pub open spec fn buffer_step(buffer: Seq<i16>, samples: Seq<i16>) -> (Seq<i16>, Option<Seq<u8>>) {
    let all = buffer + samples;
    if all.len() >= 800 {
        (Seq::empty(), Some(le_bytes(all)))
    } else {
        (all, None)
    }
}

/// Bytes of the samples, as a new vector.
fn encode_samples(samples: &[i16]) -> (b: Vec<u8>)
    requires
        2 * samples@.len() <= usize::MAX,
    ensures
        b@ == le_bytes(samples@),
{
    let mut out: Vec<u8> = Vec::new();
    append_le_bytes(&mut out, samples);
    assert(out@ =~= le_bytes(samples@));
    out
}

/// Appends samples to a buffer.
fn append_samples(buffer: &mut Vec<i16>, samples: &[i16])
    ensures
        final(buffer)@ == old(buffer)@ + samples@,
{
    let n = samples.len();
    for i in 0..n
        invariant
            n == samples@.len(),
            buffer@ == old(buffer)@ + samples@.take(i as int),
    {
        buffer.push(samples[i]);
        proof {
            assert(samples@.take(i + 1) =~= samples@.take(i as int).push(samples@[i as int]));
        }
    }
    assert(samples@.take(n as int) =~= samples@);
}

impl DeepgramState {
    /// A session that has not connected yet.
    pub fn new() -> (s: Self)
        ensures
            s@ == (DeepgramView {
                api_key: None,
                config: None,
                streaming: false,
                paused: false,
                writer: false,
                buffer: Seq::empty(),
            }),
    {
        DeepgramState {
            api_key: None,
            config: None,
            is_streaming: false,
            is_paused: false,
            has_writer: false,
            audio_buffer: Vec::new(),
        }
    }

    /// Takes the key and settings from `config`; a key is required.
    pub fn initialize(&mut self, config: &SttConfig) -> (r: Result<(), SttError>)
        ensures
            config.deepgram_api_key is None ==> (r matches Err(e) && is_configuration_error(
                e,
                "API key is required for Deepgram"@,
            ) && final(self)@ == old(self)@),
            config.deepgram_api_key is Some ==> r is Ok && final(self)@ == (DeepgramView {
                api_key: opt_string_view(config.deepgram_api_key),
                config: Some(*config),
                ..old(self)@
            }),
    {
        match &config.deepgram_api_key {
            None => Err(SttError::Configuration("API key is required for Deepgram".to_owned())),
            Some(k) => {
                self.api_key = Some(k.clone());
                self.config = Some(config.duplicate());
                Ok(())
            },
        }
    }

    /// What a connection attempt uses; fails when a stream is active or no
    /// key is set.
    pub fn connect_plan(&self) -> (r: Result<DeepgramConnectPlan, SttError>)
        ensures
            self@.streaming ==> (r matches Err(e) && is_processing_error(e, "Stream already active"@)),
            !self@.streaming && self@.api_key is None ==> (r matches Err(e) && is_configuration_error(
                e,
                "API key not set"@,
            )),
            !self@.streaming && self@.api_key is Some ==> (r matches Ok(p) && p.url@ == spec_listen_url(
                spec_session_model(self@.config),
                spec_session_language(self@.config),
            ) && p.authorization@ == "Token "@ + self@.api_key->0),
    {
        if self.is_streaming {
            return Err(SttError::Processing("Stream already active".to_owned()));
        }
        let key = match &self.api_key {
            Some(k) => k,
            None => return Err(SttError::Configuration("API key not set".to_owned())),
        };
        let (model, language) = match &self.config {
            Some(c) => {
                let model = match &c.model {
                    Some(m) => m.clone(),
                    None => model_for_language(c.language.as_str()),
                };
                (model, c.language.clone())
            },
            None => (model_for_language("en"), "en".to_owned()),
        };
        let url = listen_url(model.as_str(), language.as_str());
        let authorization = concat("Token ", key.as_str());
        Ok(DeepgramConnectPlan { url, authorization })
    }

    /// The socket is connected and its tasks run: the stream is active.
    pub fn on_stream_started(&mut self)
        ensures
            final(self)@ == (DeepgramView { writer: true, streaming: true, paused: false, ..old(self)@ }),
    {
        self.has_writer = true;
        self.is_streaming = true;
        self.is_paused = false;
    }

    /// Samples in the buffer.
    pub fn buffered_samples(&self) -> (n: usize)
        ensures
            n == self@.buffer.len(),
    {
        self.audio_buffer.len()
    }

    /// Adds a chunk to the buffer; once the buffer holds 50 ms of audio it is
    /// emptied and its bytes are returned for sending. A paused stream
    /// drops the chunk.
    pub fn send_audio(&mut self, samples: &[i16]) -> (r: Result<Option<Vec<u8>>, SttError>)
        requires
            2 * (old(self)@.buffer.len() + samples@.len()) <= usize::MAX,
        ensures
            !old(self)@.streaming ==> (r matches Err(e) && is_processing_error(e, "Not streaming"@)
                && final(self)@ == old(self)@),
            old(self)@.streaming && old(self)@.paused ==> (r matches Ok(o) && o is None && final(self)@
                == old(self)@),
            old(self)@.streaming && !old(self)@.paused && !old(self)@.writer ==> (r matches Err(e)
                && is_processing_error(e, "WebSocket write handle not available"@) && final(self)@
                == old(self)@),
            old(self)@.streaming && !old(self)@.paused && old(self)@.writer ==> ({
                let (rest, out) = buffer_step(old(self)@.buffer, samples@);
                &&& r matches Ok(o) && match o {
                    Some(b) => out == Some(b@),
                    None => out is None,
                }
                &&& final(self)@ == (DeepgramView { buffer: rest, ..old(self)@ })
            }),
    {
        if !self.is_streaming {
            return Err(SttError::Processing("Not streaming".to_owned()));
        }
        if self.is_paused {
            return Ok(None);
        }
        if !self.has_writer {
            return Err(SttError::Processing("WebSocket write handle not available".to_owned()));
        }
        append_samples(&mut self.audio_buffer, samples);
        if self.audio_buffer.len() >= MIN_SAMPLES_PER_MESSAGE {
            let bytes = encode_samples(self.audio_buffer.as_slice());
            self.audio_buffer.clear();
            Ok(Some(bytes))
        } else {
            Ok(None)
        }
    }

    /// Sending failed because the connection closed: the stream ends.
    pub fn on_send_failed(&mut self) -> (e: SttError)
        ensures
            is_plain_connection_error(e, "WebSocket connection closed"@),
            final(self)@ == (DeepgramView { streaming: false, ..old(self)@ }),
    {
        self.is_streaming = false;
        plain_connection_error("WebSocket connection closed")
    }

    /// Stops the stream: the rest of the buffer is flushed and `CloseStream`
    /// sent when there is a socket; nothing happens when no stream is active.
    pub fn stop_stream(&mut self) -> (p: Option<DeepgramStopPlan>)
        requires
            2 * old(self)@.buffer.len() <= usize::MAX,
        ensures
            !old(self)@.streaming ==> p is None && final(self)@ == old(self)@,
            old(self)@.streaming ==> (p matches Some(plan) && plan.close_stream == old(self)@.writer
                && (if old(self)@.writer && old(self)@.buffer.len() > 0 {
                plan.flush matches Some(b) && b@ == le_bytes(old(self)@.buffer)
            } else {
                plan.flush is None
            }) && final(self)@ == (DeepgramView {
                writer: false,
                streaming: false,
                paused: false,
                buffer: if old(self)@.writer {
                    Seq::empty()
                } else {
                    old(self)@.buffer
                },
                ..old(self)@
            })),
    {
        if !self.is_streaming {
            return None;
        }
        let mut flush: Option<Vec<u8>> = None;
        if self.audio_buffer.len() > 0 && self.has_writer {
            flush = Some(encode_samples(self.audio_buffer.as_slice()));
            self.audio_buffer.clear();
        }
        proof {
            if self.has_writer {
                assert(self.audio_buffer@ =~= Seq::<i16>::empty());
            }
        }
        let close_stream = self.has_writer;
        self.has_writer = false;
        self.is_streaming = false;
        self.is_paused = false;
        Some(DeepgramStopPlan { flush, close_stream })
    }

    /// Aborts the stream at once and drops the buffer.
    pub fn abort(&mut self)
        ensures
            final(self)@ == (DeepgramView {
                writer: false,
                streaming: false,
                paused: false,
                buffer: Seq::empty(),
                ..old(self)@
            }),
    {
        self.has_writer = false;
        self.is_streaming = false;
        self.is_paused = false;
        self.audio_buffer.clear();
    }

    /// Pauses the stream (the connection stays up, audio is dropped).
    pub fn pause_stream(&mut self) -> (r: Result<(), SttError>)
        ensures
            !old(self)@.streaming ==> (r matches Err(e) && is_processing_error(
                e,
                "Cannot pause - stream not active"@,
            ) && final(self)@ == old(self)@),
            old(self)@.streaming && old(self)@.paused ==> r is Ok && final(self)@ == old(self)@,
            old(self)@.streaming && !old(self)@.paused ==> r is Ok && final(self)@ == (DeepgramView {
                paused: true,
                buffer: Seq::empty(),
                ..old(self)@
            }),
    {
        if !self.is_streaming {
            return Err(SttError::Processing("Cannot pause - stream not active".to_owned()));
        }
        if self.is_paused {
            return Ok(());
        }
        self.is_paused = true;
        self.audio_buffer.clear();
        Ok(())
    }

    /// Resumes a paused stream with an empty buffer.
    pub fn resume_stream(&mut self) -> (r: Result<(), SttError>)
        ensures
            !old(self)@.streaming ==> (r matches Err(e) && is_processing_error(
                e,
                "Cannot resume - stream not active"@,
            ) && final(self)@ == old(self)@),
            old(self)@.streaming && !old(self)@.paused ==> (r matches Err(e) && is_processing_error(
                e,
                "Cannot resume - stream not paused"@,
            ) && final(self)@ == old(self)@),
            old(self)@.streaming && old(self)@.paused ==> r is Ok && final(self)@ == (DeepgramView {
                paused: false,
                buffer: Seq::empty(),
                ..old(self)@
            }),
    {
        if !self.is_streaming {
            return Err(SttError::Processing("Cannot resume - stream not active".to_owned()));
        }
        if !self.is_paused {
            return Err(SttError::Processing("Cannot resume - stream not paused".to_owned()));
        }
        self.is_paused = false;
        self.audio_buffer.clear();
        Ok(())
    }

    /// A paused stream keeps its connection alive.
    pub fn is_connection_alive(&self) -> (b: bool)
        ensures
            b == (self@.streaming && self@.paused),
    {
        self.is_streaming && self.is_paused
    }

    /// Name of the provider.
    pub fn name(&self) -> (n: &'static str)
        ensures
            n@ == "Deepgram (Nova-2/Nova-3)"@,
    {
        "Deepgram (Nova-2/Nova-3)"
    }
}

/// Bytes that a step hands out (none when it sends nothing).
pub open spec fn sent_bytes(out: Option<Seq<u8>>) -> Seq<u8> {
    match out {
        Some(b) => b,
        None => Seq::empty(),
    }
}

/// Buffering loses and invents no audio: what a step sends followed by
/// the encoding of what stays buffered is the encoding of the old buffer
/// followed by the new samples.
pub proof fn lemma_buffer_conserves_audio(buffer: Seq<i16>, samples: Seq<i16>)
    ensures
        ({
            let (rest, out) = buffer_step(buffer, samples);
            sent_bytes(out) + le_bytes(rest) == le_bytes(buffer) + le_bytes(samples)
        }),
{
    lemma_le_bytes_concat(buffer, samples);
    assert(le_bytes(Seq::<i16>::empty()) =~= Seq::<u8>::empty());
    assert(le_bytes(buffer + samples) + Seq::<u8>::empty() =~= le_bytes(buffer + samples));
    assert(Seq::<u8>::empty() + le_bytes(buffer + samples) =~= le_bytes(buffer + samples));
}

/// The encoding of a concatenation is the concatenation of the encodings.
pub proof fn lemma_le_bytes_concat(a: Seq<i16>, b: Seq<i16>)
    ensures
        le_bytes(a + b) == le_bytes(a) + le_bytes(b),
{
    let l = le_bytes(a + b);
    let r = le_bytes(a) + le_bytes(b);
    assert forall|j: int| 0 <= j < l.len() implies l[j] == r[j] by {
        if j < 2 * a.len() {
            assert((a + b)[j / 2] == a[j / 2]);
        } else {
            assert((j - 2 * a.len()) / 2 == j / 2 - a.len());
            assert((j - 2 * a.len()) % 2 == j % 2);
            assert((a + b)[j / 2] == b[j / 2 - a.len()]);
        }
    }
    assert(l =~= r);
}

/// The model in the listen URL: a model named by the configuration is used
/// exactly as given, whatever the language; only without one is it chosen
/// by language (Nova-3 for the languages it supports, Nova-2 otherwise).
/// The language in the URL is always the configured one.
pub proof fn lemma_configured_model_is_used(c: SttConfig)
    ensures
        c.model matches Some(m) ==> spec_listen_url(
            spec_session_model(Some(c)),
            spec_session_language(Some(c)),
        ) == spec_listen_url(m@, c.language@),
        c.model is None && is_nova3_language(c.language@) ==> spec_session_model(Some(c)) == "nova-3"@,
        c.model is None && !is_nova3_language(c.language@) ==> spec_session_model(Some(c)) == "nova-2"@,
        spec_session_language(Some(c)) == c.language@,
{
}

} // verus!
