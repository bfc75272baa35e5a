use vstd::prelude::*;

use crate::text::dup_opt_string;

verus! {

/// Supported STT provider types
#[derive(Debug, Clone, Copy, PartialEq, Eq, Structural)]
pub enum SttProviderType {
    /// Local Whisper.cpp implementation (offline)
    WhisperLocal,
    /// AssemblyAI Universal-Streaming v3 (low cost, ultra-low latency)
    AssemblyAI,
    /// Deepgram cloud service (Nova-3 model)
    Deepgram,
    /// Google Cloud Speech-to-Text v2
    GoogleCloud,
    /// Azure Speech Services
    Azure,
    /// Our backend API (licensed, with usage tracking)
    Backend,
}

impl Default for SttProviderType {
    fn default() -> (p: Self)
        ensures
            p == SttProviderType::Backend,
    {
        SttProviderType::Backend
    }
}

/// Default time a kept-alive connection stays open after a recording, in seconds.
pub fn default_keep_alive_ttl_secs() -> (t: u64)
    ensures
        t == 120,
{
    120
}

/// Configuration for STT provider
#[derive(Debug, Clone)]
pub struct SttConfig {
    /// Provider type
    pub provider: SttProviderType,
    /// Language code (e.g., "en", "ru")
    pub language: String,
    /// Enable automatic language detection
    pub auto_detect_language: bool,
    /// Enable automatic punctuation
    pub enable_punctuation: bool,
    /// Enable profanity filter
    pub filter_profanity: bool,
    /// User's own Deepgram API key (None: the built-in key is used)
    pub deepgram_api_key: Option<String>,
    /// User's own AssemblyAI API key (None: the built-in key is used)
    pub assemblyai_api_key: Option<String>,
    /// Model name/ID for local providers
    pub model: Option<String>,
    /// Auth token for our backend API (obtained when the license is activated)
    pub backend_auth_token: Option<String>,
    /// URL of our backend API
    pub backend_url: Option<String>,
    /// Keep the WebSocket connection alive between recording sessions
    /// (only for providers that support it)
    pub keep_connection_alive: bool,
    /// How long a kept-alive connection stays open after a recording stops,
    /// in seconds; kept short because it holds a provider connection slot.
    pub keep_alive_ttl_secs: u64,
}

/// Whether `c` is the default STT configuration, apart from its provider.
pub open spec fn has_default_stt_settings(c: SttConfig) -> bool {
    &&& c.language@ == "ru"@
    &&& !c.auto_detect_language
    &&& c.enable_punctuation
    &&& !c.filter_profanity
    &&& c.deepgram_api_key is None
    &&& c.assemblyai_api_key is None
    &&& c.model is None
    &&& c.backend_auth_token is None
    &&& c.backend_url is None
    &&& !c.keep_connection_alive
    &&& c.keep_alive_ttl_secs == 120
}

/// Whether `c` is the default STT configuration.
pub open spec fn is_default_stt_config(c: SttConfig) -> bool {
    c.provider == SttProviderType::Backend && has_default_stt_settings(c)
}

impl Default for SttConfig {
    fn default() -> (c: Self)
        ensures
            is_default_stt_config(c),
    {
        proof {
            reveal_strlit("ru");
        }
        SttConfig {
            provider: SttProviderType::Backend,
            language: "ru".to_owned(),
            auto_detect_language: false,
            enable_punctuation: true,
            filter_profanity: false,
            deepgram_api_key: None,
            assemblyai_api_key: None,
            model: None,
            backend_auth_token: None,
            backend_url: None,
            keep_connection_alive: false,
            keep_alive_ttl_secs: default_keep_alive_ttl_secs(),
        }
    }
}

impl SttConfig {
    /// The default configuration for the given provider.
    pub fn new(provider: SttProviderType) -> (c: Self)
        ensures
            c.provider == provider,
            has_default_stt_settings(c),
    {
        let mut c = SttConfig::default();
        c.provider = provider;
        c
    }

    /// The same configuration with another language.
    pub fn with_language(self, language: &str) -> (c: Self)
        ensures
            c.language@ == language@,
            c == (SttConfig { language: c.language, ..self }),
    {
        let mut c = self;
        c.language = language.to_owned();
        c
    }

    /// A copy of this configuration.
    pub fn duplicate(&self) -> (r: Self)
        ensures
            r == *self,
    {
        SttConfig {
            provider: self.provider,
            language: self.language.clone(),
            auto_detect_language: self.auto_detect_language,
            enable_punctuation: self.enable_punctuation,
            filter_profanity: self.filter_profanity,
            deepgram_api_key: dup_opt_string(&self.deepgram_api_key),
            assemblyai_api_key: dup_opt_string(&self.assemblyai_api_key),
            model: dup_opt_string(&self.model),
            backend_auth_token: dup_opt_string(&self.backend_auth_token),
            backend_url: dup_opt_string(&self.backend_url),
            keep_connection_alive: self.keep_connection_alive,
            keep_alive_ttl_secs: self.keep_alive_ttl_secs,
        }
    }

    /// The same configuration with another model.
    pub fn with_model(self, model: &str) -> (c: Self)
        ensures
            c.model is Some,
            c.model->0@ == model@,
            c == (SttConfig { model: c.model, ..self }),
    {
        let mut c = self;
        c.model = Some(model.to_owned());
        c
    }
}

/// Application-wide configuration
#[derive(Debug, Clone)]
pub struct AppConfig {
    /// STT configuration
    pub stt: SttConfig,
    /// Recording hotkey (for example "Ctrl+X")
    pub recording_hotkey: String,
    /// Auto-copy transcription to clipboard
    pub auto_copy_to_clipboard: bool,
    /// Auto-paste transcription text incrementally
    pub auto_paste_text: bool,
    /// Auto-close window after transcription
    pub auto_close_window: bool,
    /// VAD silence timeout in milliseconds
    pub vad_silence_timeout_ms: u64,
    /// Microphone sensitivity / gain in percent (0-200, default 95):
    /// 0% silences, 100% keeps the signal, 200% amplifies it five times.
    pub microphone_sensitivity: u8,
    /// Selected audio input device name (None = use system default)
    pub selected_audio_device: Option<String>,
    /// Keep history of transcriptions
    pub keep_history: bool,
    /// Maximum number of history items
    pub max_history_items: usize,
}

/// The default recording hotkey.
pub open spec fn default_recording_hotkey() -> Seq<char> {
    "CmdOrCtrl+Shift+X"@
}

/// Whether `c` is the default application configuration.
pub open spec fn is_default_app_config(c: AppConfig) -> bool {
    &&& is_default_stt_config(c.stt)
    &&& c.recording_hotkey@ == default_recording_hotkey()
    &&& c.auto_copy_to_clipboard
    &&& !c.auto_paste_text
    &&& c.auto_close_window
    &&& c.vad_silence_timeout_ms == 3000
    &&& c.microphone_sensitivity == 95
    &&& c.selected_audio_device is None
    &&& c.keep_history
    &&& c.max_history_items == 20
}

impl Default for AppConfig {
    fn default() -> (c: Self)
        ensures
            is_default_app_config(c),
    {
        proof {
            reveal_strlit("CmdOrCtrl+Shift+X");
        }
        AppConfig {
            stt: SttConfig::default(),
            recording_hotkey: "CmdOrCtrl+Shift+X".to_owned(),
            auto_copy_to_clipboard: true,
            auto_paste_text: false,
            auto_close_window: true,
            vad_silence_timeout_ms: 3000,
            microphone_sensitivity: 95,
            selected_audio_device: None,
            keep_history: true,
            max_history_items: 20,
        }
    }
}

/// User interface preferences (theme, locale), synchronised between windows.
#[derive(Debug, Clone)]
pub struct UiPreferences {
    pub theme: String,
    pub locale: String,
}

impl Default for UiPreferences {
    fn default() -> (p: Self)
        ensures
            p.theme@ == "dark"@,
            p.locale@ == "ru"@,
    {
        proof {
            reveal_strlit("dark");
            reveal_strlit("ru");
        }
        UiPreferences { theme: "dark".to_owned(), locale: "ru".to_owned() }
    }
}

} // verus!
