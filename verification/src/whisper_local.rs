//! Rules of the offline Whisper provider: which model it loads, what it
//! buffers while recording, and how the recognized segments become the
//! final text.
use vstd::prelude::*;

use crate::config::SttConfig;
use crate::errors::{is_configuration_error, is_processing_error, SttError};
use crate::text::{chars_of, string_from_chars, trim_chars, trim_seq};

verus! {

/// The model a configuration asks for: the configured one, else `base`.
pub open spec fn spec_whisper_model(config: SttConfig) -> Seq<char> {
    match config.model {
        Some(m) => m@,
        None => "base"@,
    }
}

/// The model to load for a configuration.
pub fn whisper_model_name(config: &SttConfig) -> (m: String)
    ensures
        m@ == spec_whisper_model(*config),
{
    match &config.model {
        Some(m) => m.clone(),
        None => "base".to_owned(),
    }
}

/// The language the recognizer is told: the configured one, else Russian.
pub open spec fn spec_whisper_language(config: Option<SttConfig>) -> Seq<char> {
    match config {
        Some(c) => c.language@,
        None => "ru"@,
    }
}

/// Segments joined, each followed by a space, then trimmed.
pub open spec fn spaced(segments: Seq<Seq<char>>) -> Seq<char>
    decreases segments.len(),
{
    if segments.len() == 0 {
        Seq::empty()
    } else {
        spaced(segments.drop_last()) + segments.last() + seq![' ']
    }
}

/// The views of a sequence of strings.
pub open spec fn string_views(v: Seq<String>) -> Seq<Seq<char>> {
    Seq::new(v.len(), |i: int| v[i]@)
}

/// The final text from the recognized segments.
pub fn join_segments(segments: &Vec<String>) -> (t: String)
    ensures
        t@ == trim_seq(spaced(string_views(segments@))),
{
    let n = segments.len();
    let mut all: Vec<char> = Vec::new();
    for i in 0..n
        invariant
            n == segments@.len(),
            all@ == spaced(string_views(segments@).take(i as int)),
    {
        let cs = chars_of(segments[i].as_str());
        let m = cs.len();
        let ghost base = all@;
        for k in 0..m
            invariant
                m == cs@.len(),
                all@ == base + cs@.take(k as int),
        {
            all.push(cs[k]);
            proof {
                assert(cs@.take(k + 1) =~= cs@.take(k as int).push(cs@[k as int]));
            }
        }
        all.push(' ');
        proof {
            let vs = string_views(segments@);
            assert(vs.take(i + 1).drop_last() =~= vs.take(i as int));
            assert(cs@.take(m as int) =~= cs@);
            assert(all@ =~= spaced(vs.take(i as int)) + vs.take(i + 1).last() + seq![' ']);
        }
    }
    proof {
        assert(string_views(segments@).take(n as int) =~= string_views(segments@));
    }
    let t = trim_chars(all.as_slice());
    string_from_chars(t.as_slice())
}

/// Abstract state of the offline provider.
pub struct WhisperView {
    pub model_loaded: bool,
    pub config: Option<SttConfig>,
    pub streaming: bool,
    pub buffer: Seq<i16>,
}

/// State of the offline provider between the calls of its owner.
pub struct WhisperLocalState {
    model_loaded: bool,
    config: Option<SttConfig>,
    is_streaming: bool,
    audio_buffer: Vec<i16>,
}

impl View for WhisperLocalState {
    type V = WhisperView;

    closed spec fn view(&self) -> WhisperView {
        WhisperView {
            model_loaded: self.model_loaded,
            config: self.config,
            streaming: self.is_streaming,
            buffer: self.audio_buffer@,
        }
    }
}

/// What the end of a stream hands to the recognizer.
pub struct WhisperJob {
    pub samples: Vec<i16>,
    pub language: String,
}

impl WhisperLocalState {
    /// A provider without a model.
    pub fn new() -> (s: Self)
        ensures
            s@ == (WhisperView { model_loaded: false, config: None, streaming: false, buffer: Seq::empty() }),
    {
        WhisperLocalState { model_loaded: false, config: None, is_streaming: false, audio_buffer: Vec::new() }
    }

    /// The model was loaded for `config`.
    pub fn on_model_loaded(&mut self, config: &SttConfig)
        ensures
            final(self)@ == (WhisperView { model_loaded: true, config: Some(*config), ..old(self)@ }),
    {
        self.model_loaded = true;
        self.config = Some(config.duplicate());
    }

    /// Starts a stream with an empty buffer; a model must be loaded.
    pub fn start_stream(&mut self) -> (r: Result<(), SttError>)
        ensures
            !old(self)@.model_loaded ==> (r matches Err(e) && is_configuration_error(
                e,
                "Whisper context not initialized. Call initialize() first."@,
            ) && final(self)@ == old(self)@),
            old(self)@.model_loaded ==> r is Ok && final(self)@ == (WhisperView {
                streaming: true,
                buffer: Seq::empty(),
                ..old(self)@
            }),
    {
        if !self.model_loaded {
            return Err(
                SttError::Configuration(
                    "Whisper context not initialized. Call initialize() first.".to_owned(),
                ),
            );
        }
        self.is_streaming = true;
        self.audio_buffer.clear();
        Ok(())
    }

    /// Buffers the samples of a chunk while streaming.
    pub fn send_audio(&mut self, samples: &[i16]) -> (r: Result<(), SttError>)
        ensures
            !old(self)@.streaming ==> (r matches Err(e) && is_processing_error(e, "Not streaming"@)
                && final(self)@ == old(self)@),
            old(self)@.streaming ==> r is Ok && final(self)@ == (WhisperView {
                buffer: old(self)@.buffer + samples@,
                ..old(self)@
            }),
    {
        if !self.is_streaming {
            return Err(SttError::Processing("Not streaming".to_owned()));
        }
        let n = samples.len();
        let ghost start = self.audio_buffer@;
        for i in 0..n
            invariant
                n == samples@.len(),
                self.audio_buffer@ == start + samples@.take(i as int),
                self.is_streaming == old(self).is_streaming,
                self.model_loaded == old(self).model_loaded,
                self.config == old(self).config,
        {
            self.audio_buffer.push(samples[i]);
            proof {
                assert(samples@.take(i + 1) =~= samples@.take(i as int).push(samples@[i as int]));
            }
        }
        proof {
            assert(samples@.take(n as int) =~= samples@);
        }
        Ok(())
    }

    /// Ends the stream: the buffered audio, when there is any, goes to the
    /// recognizer with the language to use; the buffer empties.
    pub fn stop_stream(&mut self) -> (job: Option<WhisperJob>)
        ensures
            old(self)@.buffer.len() == 0 ==> job is None,
            old(self)@.buffer.len() > 0 ==> (job matches Some(j) && j.samples@ == old(self)@.buffer
                && j.language@ == spec_whisper_language(old(self)@.config)),
            final(self)@ == (WhisperView { streaming: false, buffer: Seq::empty(), ..old(self)@ }),
    {
        self.is_streaming = false;
        if self.audio_buffer.len() == 0 {
            proof {
                assert(self.audio_buffer@ =~= Seq::<i16>::empty());
            }
            return None;
        }
        let mut samples: Vec<i16> = Vec::new();
        std::mem::swap(&mut samples, &mut self.audio_buffer);
        let language = match &self.config {
            Some(c) => c.language.clone(),
            None => "ru".to_owned(),
        };
        Some(WhisperJob { samples, language })
    }

    /// Aborts the stream and drops the buffer.
    pub fn abort(&mut self)
        ensures
            final(self)@ == (WhisperView { streaming: false, buffer: Seq::empty(), ..old(self)@ }),
    {
        self.is_streaming = false;
        self.audio_buffer.clear();
    }

    /// Name of the provider.
    pub fn name(&self) -> (n: &'static str)
        ensures
            n@ == "Whisper Local (Offline)"@,
    {
        "Whisper Local (Offline)"
    }
}

} // verus!
