//! Decisions behind the commands that the windows call: what the recording
//! hotkey does in each state, how settings updates are applied and when
//! they are saved and announced, the public snapshots, and the bounded
//! buffers of history and microphone test.
use vstd::prelude::*;

use crate::config::{AppConfig, SttConfig, SttProviderType};
use crate::hotkey::hotkey_parses;
use crate::text::{concat, opt_str_view, opt_string_view, str_eq, u64_to_string, decimal};
use crate::transcription::RecordingStatus;

verus! {

/// Presses of the recording hotkey closer together than this are ignored
/// (key repeat, double triggers that make the window blink).
pub const HOTKEY_DEBOUNCE_MS: u64 = 450;

/// At most five seconds of 16 kHz audio are kept by the microphone test.
pub const MIC_TEST_MAX_SAMPLES: usize = 80000;

/// Highest microphone sensitivity, in percent.
pub const MAX_SENSITIVITY: u8 = 200;

/// What the recording hotkey (or the toggle command) does.
#[derive(Debug, Clone, Copy, PartialEq, Eq, Structural)]
pub enum ToggleAction {
    /// Not signed in: show the sign-in window instead
    ShowAuthWindow,
    /// Start a recording, showing the recording window first when it is hidden
    StartRecording { show_window: bool },
    /// Stop the recording; the window hides itself on the `Idle` status
    /// that is then sent with `stopped_via_hotkey`
    StopRecording,
    /// Starting, processing or in error: the press is ignored
    Ignore,
}

/// The action of a toggle for a sign-in state, a recording status and the
/// visibility of the recording window.
pub open spec fn spec_toggle_action(authenticated: bool, status: RecordingStatus, window_visible: bool) -> ToggleAction {
    if !authenticated {
        ToggleAction::ShowAuthWindow
    } else {
        match status {
            RecordingStatus::Idle => ToggleAction::StartRecording { show_window: !window_visible },
            RecordingStatus::Recording => ToggleAction::StopRecording,
            _ => ToggleAction::Ignore,
        }
    }
}

/// Decides what a toggle of the recording does.
pub fn toggle_action(authenticated: bool, status: RecordingStatus, window_visible: bool) -> (a: ToggleAction)
    ensures
        a == spec_toggle_action(authenticated, status, window_visible),
{
    if !authenticated {
        return ToggleAction::ShowAuthWindow;
    }
    match status {
        RecordingStatus::Idle => ToggleAction::StartRecording { show_window: !window_visible },
        RecordingStatus::Recording => ToggleAction::StopRecording,
        _ => ToggleAction::Ignore,
    }
}

/// The recording hotkey agrees with the recording service: a signed-out
/// user only gets the sign-in window; a signed-in user starts a recording
/// exactly when the service would accept a start (it is `Idle`) and stops
/// one exactly when it would accept a stop (it is `Recording`); in every
/// other status the press is ignored.
pub proof fn lemma_toggle_matches_service(authenticated: bool, status: RecordingStatus, window_visible: bool, reuse: bool)
    ensures
        !authenticated ==> spec_toggle_action(authenticated, status, window_visible) == ToggleAction::ShowAuthWindow,
        authenticated ==> ((spec_toggle_action(authenticated, status, window_visible) is StartRecording)
            == !(crate::transcription::spec_start_step(
            status,
            crate::transcription::StartEvent::Requested { reuse_possible: reuse },
        ).1 is Reject)),
        authenticated ==> ((spec_toggle_action(authenticated, status, window_visible) == ToggleAction::StopRecording)
            == !(crate::transcription::spec_stop_step(
            status,
            false,
            0,
            crate::transcription::StopEvent::Requested,
        ).1 is Reject)),
        authenticated && status != RecordingStatus::Idle && status != RecordingStatus::Recording ==> spec_toggle_action(
            authenticated,
            status,
            window_visible,
        ) == ToggleAction::Ignore,
        spec_toggle_action(authenticated, status, window_visible) matches ToggleAction::StartRecording { show_window }
            ==> show_window == !window_visible,
{
}

/// A press of the hotkey at `now_ms` after one at `last_ms`: `None` when it
/// is ignored, else the time to remember (the clock read as unsigned,
/// negative values as 0).
pub open spec fn spec_hotkey_press(now_ms: i64, last_ms: u64) -> Option<u64> {
    let now: int = if now_ms < 0 {
        0
    } else {
        now_ms as int
    };
    let delta: int = if now > last_ms {
        now - last_ms
    } else {
        0
    };
    if delta < HOTKEY_DEBOUNCE_MS {
        None
    } else {
        Some(now as u64)
    }
}

/// Debounces a press of the recording hotkey.
pub fn hotkey_press(now_ms: i64, last_ms: u64) -> (r: Option<u64>)
    ensures
        r == spec_hotkey_press(now_ms, last_ms),
{
    let now: u64 = if now_ms < 0 {
        0
    } else {
        now_ms as u64
    };
    let delta = now.saturating_sub(last_ms);
    if delta < HOTKEY_DEBOUNCE_MS {
        None
    } else {
        Some(now)
    }
}

/// The last `max` items of a sequence (all of them when there are fewer).
pub open spec fn keep_last<T>(s: Seq<T>, max: nat) -> Seq<T> {
    if s.len() > max {
        s.skip(s.len() - max)
    } else {
        s
    }
}

/// Keeps only the last `max_items` items (the oldest are dropped first).
pub fn trim_to_last<T>(items: &mut Vec<T>, max_items: usize)
    ensures
        final(items)@ == keep_last(old(items)@, max_items as nat),
{
    let len = items.len();
    if len > max_items {
        let mut tail = items.split_off(len - max_items);
        std::mem::swap(items, &mut tail);
    }
}

/// Adds the amplified samples of a chunk to the microphone test buffer and
/// keeps its last five seconds.
pub fn push_mic_test_samples(buffer: &mut Vec<i16>, samples: &[i16])
    ensures
        final(buffer)@ == keep_last(old(buffer)@ + samples@, MIC_TEST_MAX_SAMPLES as nat),
{
    let n = samples.len();
    let ghost start = buffer@;
    for i in 0..n
        invariant
            n == samples@.len(),
            buffer@ == start + samples@.take(i as int),
    {
        buffer.push(samples[i]);
        proof {
            assert(samples@.take(i + 1) =~= samples@.take(i as int).push(samples@[i as int]));
        }
    }
    assert(samples@.take(n as int) =~= samples@);
    trim_to_last(buffer, MIC_TEST_MAX_SAMPLES);
}

/// Where a window of `win_w` x `win_h` goes to be centered on a monitor at
/// (`mon_x`, `mon_y`) of `mon_w` x `mon_h` (halves rounded toward zero).
pub open spec fn spec_centered(mon_pos: int, mon_size: int, win_size: int) -> int {
    let d = mon_size - win_size;
    let half = if d >= 0 {
        d / 2
    } else {
        -((-d) / 2)
    };
    mon_pos + half
}

/// The top-left corner that centers a window on a monitor.
pub fn center_on_monitor(mon_x: i32, mon_y: i32, mon_w: u32, mon_h: u32, win_w: u32, win_h: u32) -> (p:
    (i32, i32))
    requires
        mon_w <= i32::MAX,
        mon_h <= i32::MAX,
        win_w <= i32::MAX,
        win_h <= i32::MAX,
        i32::MIN <= spec_centered(mon_x as int, mon_w as int, win_w as int) <= i32::MAX,
        i32::MIN <= spec_centered(mon_y as int, mon_h as int, win_h as int) <= i32::MAX,
    ensures
        p.0 == spec_centered(mon_x as int, mon_w as int, win_w as int),
        p.1 == spec_centered(mon_y as int, mon_h as int, win_h as int),
{
    let dx: i32 = mon_w as i32 - win_w as i32;
    let dy: i32 = mon_h as i32 - win_h as i32;
    let hx: i32 = dx / 2;
    let hy: i32 = dy / 2;
    (mon_x + hx, mon_y + hy)
}

/// The next revision of a topic, and its text: counters grow by one and
/// stop at the largest value.
pub fn bump_revision(rev: u64) -> (r: (u64, String))
    ensures
        r.0 == (if rev < u64::MAX {
            rev + 1
        } else {
            rev as int
        }),
        r.1@ == decimal(r.0 as nat),
{
    let next = rev.saturating_add(1);
    (next, u64_to_string(next))
}

/// The public snapshot of the application settings: no STT settings and
/// no token, since snapshots go to every window.
#[derive(Debug, Clone)]
pub struct AppConfigSnapshotData {
    pub microphone_sensitivity: u8,
    pub recording_hotkey: String,
    pub auto_copy_to_clipboard: bool,
    pub auto_paste_text: bool,
    pub selected_audio_device: Option<String>,
}

/// The public snapshot of the STT settings: without the backend token and URL.
#[derive(Debug, Clone)]
pub struct SttConfigSnapshotData {
    pub provider: SttProviderType,
    pub language: String,
    pub auto_detect_language: bool,
    pub enable_punctuation: bool,
    pub filter_profanity: bool,
    pub deepgram_api_key: Option<String>,
    pub assemblyai_api_key: Option<String>,
    pub model: Option<String>,
    pub keep_connection_alive: bool,
}

/// The snapshot of the sign-in state.
#[derive(Debug, Clone)]
pub struct AuthStateData {
    pub is_authenticated: bool,
}

impl AppConfigSnapshotData {
    /// The public part of the application settings.
    pub fn from_config(c: &AppConfig) -> (s: Self)
        ensures
            s.microphone_sensitivity == c.microphone_sensitivity,
            s.recording_hotkey == c.recording_hotkey,
            s.auto_copy_to_clipboard == c.auto_copy_to_clipboard,
            s.auto_paste_text == c.auto_paste_text,
            s.selected_audio_device == c.selected_audio_device,
    {
        AppConfigSnapshotData {
            microphone_sensitivity: c.microphone_sensitivity,
            recording_hotkey: c.recording_hotkey.clone(),
            auto_copy_to_clipboard: c.auto_copy_to_clipboard,
            auto_paste_text: c.auto_paste_text,
            selected_audio_device: crate::text::dup_opt_string(&c.selected_audio_device),
        }
    }
}

impl SttConfigSnapshotData {
    /// The public part of the STT settings.
    pub fn from_config(c: &SttConfig) -> (s: Self)
        ensures
            s.provider == c.provider,
            s.language == c.language,
            s.auto_detect_language == c.auto_detect_language,
            s.enable_punctuation == c.enable_punctuation,
            s.filter_profanity == c.filter_profanity,
            s.deepgram_api_key == c.deepgram_api_key,
            s.assemblyai_api_key == c.assemblyai_api_key,
            s.model == c.model,
            s.keep_connection_alive == c.keep_connection_alive,
    {
        SttConfigSnapshotData {
            provider: c.provider,
            language: c.language.clone(),
            auto_detect_language: c.auto_detect_language,
            enable_punctuation: c.enable_punctuation,
            filter_profanity: c.filter_profanity,
            deepgram_api_key: crate::text::dup_opt_string(&c.deepgram_api_key),
            assemblyai_api_key: crate::text::dup_opt_string(&c.assemblyai_api_key),
            model: crate::text::dup_opt_string(&c.model),
            keep_connection_alive: c.keep_connection_alive,
        }
    }
}

/// The STT settings after an update from the settings window: the backend
/// is the only provider, keys and model are no longer used, and the
/// connection is kept alive between recordings (the TTL stays short).
pub open spec fn spec_stt_update(old: SttConfig, new: SttConfig, language: Seq<char>) -> bool {
    &&& new.language@ == language
    &&& new == (SttConfig {
        provider: SttProviderType::Backend,
        language: new.language,
        model: None,
        keep_connection_alive: true,
        deepgram_api_key: None,
        assemblyai_api_key: None,
        ..old
    })
}

/// Applies an update of the STT settings; also says whether the language
/// changed (only then the other windows are told).
pub fn apply_stt_update(config: SttConfig, language: &str) -> (r: (SttConfig, bool))
    ensures
        spec_stt_update(config, r.0, language@),
        r.1 == (language@ != config.language@),
{
    let changed = !str_eq(config.language.as_str(), language);
    let mut c = config;
    c.provider = SttProviderType::Backend;
    c.language = language.to_owned();
    c.model = None;
    c.keep_connection_alive = true;
    c.deepgram_api_key = None;
    c.assemblyai_api_key = None;
    (c, changed)
}

/// What an update of the application settings changed.
pub struct AppConfigChange {
    /// Something changed: save and tell the other windows
    pub any_changed: bool,
    /// The hotkey changed: register it again
    pub hotkey_changed: bool,
    /// The input device changed: recreate the capture
    pub device_changed: bool,
    /// Sensitivity to apply to the running recording, when one was given
    pub apply_sensitivity: Option<u8>,
}

/// Message of a refused hotkey.
pub open spec fn bad_hotkey_message(h: Seq<char>) -> Seq<char> {
    "Неверный формат горячей клавиши: "@ + h
}

/// The device an update selects: an empty name means the system default.
pub open spec fn spec_device_choice(d: Seq<char>) -> Option<Seq<char>> {
    if d.len() == 0 {
        None
    } else {
        Some(d)
    }
}

/// The settings after the sensitivity step (clamped to 0-200).
pub open spec fn spec_after_sensitivity(c: AppConfig, sensitivity: Option<u8>) -> AppConfig {
    match sensitivity {
        Some(s) => AppConfig { microphone_sensitivity: if s < 200 { s } else { 200 }, ..c },
        None => c,
    }
}

/// Whether a new hotkey is refused: it differs and the parser rejects it.
pub open spec fn spec_hotkey_refused(c: AppConfig, hotkey: Option<Seq<char>>) -> bool {
    hotkey matches Some(h) && h != c.recording_hotkey@ && !hotkey_parses(h)
}

/// The fields an update asks for, compared with the current settings.
pub open spec fn spec_update_ok(
    old: AppConfig,
    new: AppConfig,
    sensitivity: Option<u8>,
    hotkey: Option<Seq<char>>,
    auto_copy: Option<bool>,
    auto_paste: Option<bool>,
    device: Option<Seq<char>>,
) -> bool {
    let s = spec_after_sensitivity(old, sensitivity);
    &&& new.stt == old.stt
    &&& new.auto_close_window == old.auto_close_window
    &&& new.vad_silence_timeout_ms == old.vad_silence_timeout_ms
    &&& new.keep_history == old.keep_history
    &&& new.max_history_items == old.max_history_items
    &&& new.microphone_sensitivity == s.microphone_sensitivity
    &&& match hotkey {
        Some(h) => new.recording_hotkey@ == h,
        None => new.recording_hotkey == old.recording_hotkey,
    }
    &&& new.auto_copy_to_clipboard == match auto_copy {
        Some(b) => b,
        None => old.auto_copy_to_clipboard,
    }
    &&& new.auto_paste_text == match auto_paste {
        Some(b) => b,
        None => old.auto_paste_text,
    }
    &&& match device {
        Some(d) => opt_string_view(new.selected_audio_device) == spec_device_choice(d),
        None => new.selected_audio_device == old.selected_audio_device,
    }
}

/// Every given value equals the current one.
pub open spec fn spec_update_is_noop(
    c: AppConfig,
    sensitivity: Option<u8>,
    hotkey: Option<Seq<char>>,
    auto_copy: Option<bool>,
    auto_paste: Option<bool>,
    device: Option<Seq<char>>,
) -> bool {
    &&& (sensitivity matches Some(s) ==> (if s < 200 { s } else { 200u8 }) == c.microphone_sensitivity)
    &&& (hotkey matches Some(h) ==> h == c.recording_hotkey@)
    &&& (auto_copy matches Some(b) ==> b == c.auto_copy_to_clipboard)
    &&& (auto_paste matches Some(b) ==> b == c.auto_paste_text)
    &&& (device matches Some(d) ==> spec_device_choice(d) == opt_string_view(c.selected_audio_device))
}

/// Applies an update of the application settings from the settings window.
///
/// Each given field is compared with the current value; a new hotkey must
/// parse, else the update stops with an error (the sensitivity, applied
/// first, stays). Nothing counts as changed when every given value equals
/// the current one, and then nothing is saved or announced.
pub fn apply_app_config_update(
    config: &mut AppConfig,
    sensitivity: Option<u8>,
    hotkey: Option<&str>,
    auto_copy: Option<bool>,
    auto_paste: Option<bool>,
    device: Option<&str>,
) -> (r: Result<AppConfigChange, String>)
    ensures
        spec_hotkey_refused(spec_after_sensitivity(*old(config), sensitivity), opt_str_view(hotkey))
            ==> (r matches Err(m) && m@ == bad_hotkey_message(opt_str_view(hotkey)->0) && *final(
            config) == spec_after_sensitivity(*old(config), sensitivity)),
        !spec_hotkey_refused(spec_after_sensitivity(*old(config), sensitivity), opt_str_view(hotkey))
            ==> (r matches Ok(ch) && {
            &&& spec_update_ok(
                *old(config),
                *final(config),
                sensitivity,
                opt_str_view(hotkey),
                auto_copy,
                auto_paste,
                opt_str_view(device),
            )
            &&& ch.any_changed == (*final(config) != *old(config))
            &&& ch.hotkey_changed == (hotkey matches Some(h) && h@ != old(config).recording_hotkey@)
            &&& ch.device_changed == (device matches Some(d) && spec_device_choice(d@)
                != opt_string_view(old(config).selected_audio_device))
            &&& spec_update_is_noop(
                *old(config),
                sensitivity,
                opt_str_view(hotkey),
                auto_copy,
                auto_paste,
                opt_str_view(device),
            ) ==> !ch.any_changed && *final(config) == *old(config)
            &&& ch.apply_sensitivity == match sensitivity {
                Some(s) => Some(if s < 200 { s } else { 200u8 }),
                None => None,
            }
        }),
{
    let ghost old_config = *config;
    let mut any_changed = false;
    let mut apply_sensitivity: Option<u8> = None;
    if let Some(s) = sensitivity {
        let clamped: u8 = if s < MAX_SENSITIVITY {
            s
        } else {
            MAX_SENSITIVITY
        };
        if config.microphone_sensitivity != clamped {
            config.microphone_sensitivity = clamped;
            any_changed = true;
        }
        apply_sensitivity = Some(clamped);
    }
    let mut hotkey_changed = false;
    if let Some(h) = hotkey {
        if !str_eq(h, config.recording_hotkey.as_str()) {
            if !crate::hotkey::shortcut_is_valid(h) {
                let m = concat("Неверный формат горячей клавиши: ", h);
                return Err(m);
            }
            config.recording_hotkey = h.to_owned();
            hotkey_changed = true;
            any_changed = true;
        }
    }
    if let Some(b) = auto_copy {
        if config.auto_copy_to_clipboard != b {
            config.auto_copy_to_clipboard = b;
            any_changed = true;
        }
    }
    if let Some(b) = auto_paste {
        if config.auto_paste_text != b {
            config.auto_paste_text = b;
            any_changed = true;
        }
    }
    let mut device_changed = false;
    if let Some(d) = device {
        let choice: Option<String> = if d.is_empty() {
            None
        } else {
            Some(d.to_owned())
        };
        let same = match (&choice, &config.selected_audio_device) {
            (None, None) => true,
            (Some(a), Some(b)) => str_eq(a.as_str(), b.as_str()),
            _ => false,
        };
        if !same {
            config.selected_audio_device = choice;
            device_changed = true;
            any_changed = true;
        }
    }
    Ok(AppConfigChange { any_changed, hotkey_changed, device_changed, apply_sensitivity })
}

/// Whether an update of the interface preferences changes nothing (then
/// nothing is saved or announced).
pub fn ui_preferences_unchanged(theme: &str, locale: &str, new_theme: &str, new_locale: &str) -> (b:
    bool)
    ensures
        b == (theme@ == new_theme@ && locale@ == new_locale@),
{
    str_eq(theme, new_theme) && str_eq(locale, new_locale)
}

/// What a change of the sign-in flag coming from a window does.
pub struct AuthSyncPlan {
    /// The flag of the application changes
    pub flag_changed: bool,
    /// The STT settings (with the token) are saved and applied
    pub save_config: bool,
    /// The revision of the sign-in state grows and the windows are told
    pub announce: bool,
}

/// Syncs the sign-in flag and the backend token into the STT settings.
///
/// When the flag does not change, only a new token of a signed-in user is
/// taken over, silently. When it changes, signing in stores the token (if
/// one came) and signing out clears it; the settings are saved and the
/// change is announced.
pub fn plan_set_authenticated(
    current: bool,
    authenticated: bool,
    token: Option<&str>,
    config: &mut SttConfig,
) -> (p: AuthSyncPlan)
    ensures
        current == authenticated ==> {
            let takes = authenticated && token is Some && opt_string_view(old(config).backend_auth_token)
                != opt_str_view(token);
            &&& !p.flag_changed && !p.announce
            &&& p.save_config == takes
            &&& takes ==> *final(config) == (SttConfig {
                backend_auth_token: final(config).backend_auth_token,
                ..*old(config)
            }) && opt_string_view(final(config).backend_auth_token) == opt_str_view(token)
            &&& !takes ==> *final(config) == *old(config)
        },
        current != authenticated ==> {
            &&& p.flag_changed && p.save_config && p.announce
            &&& *final(config) == (SttConfig {
                backend_auth_token: final(config).backend_auth_token,
                ..*old(config)
            })
            &&& if authenticated {
                match token {
                    Some(t) => opt_string_view(final(config).backend_auth_token) == Some(t@),
                    None => final(config).backend_auth_token == old(config).backend_auth_token,
                }
            } else {
                final(config).backend_auth_token is None
            }
        },
{
    if current == authenticated {
        if authenticated {
            if let Some(t) = token {
                let same = match &config.backend_auth_token {
                    Some(c) => str_eq(c.as_str(), t),
                    None => false,
                };
                if !same {
                    config.backend_auth_token = Some(t.to_owned());
                    return AuthSyncPlan { flag_changed: false, save_config: true, announce: false };
                }
            }
        }
        return AuthSyncPlan { flag_changed: false, save_config: false, announce: false };
    }
    if authenticated {
        if let Some(t) = token {
            config.backend_auth_token = Some(t.to_owned());
        }
    } else {
        config.backend_auth_token = None;
    }
    AuthSyncPlan { flag_changed: true, save_config: true, announce: true }
}

/// The sensitivity of a microphone test: the requested one clamped to
/// 0-200, else the configured one.
pub fn mic_test_sensitivity(requested: Option<u8>, configured: u8) -> (s: u8)
    ensures
        s == match requested {
            Some(r) => if r < 200 { r } else { 200u8 },
            None => configured,
        },
{
    match requested {
        Some(r) => if r < MAX_SENSITIVITY {
            r
        } else {
            MAX_SENSITIVITY
        },
        None => configured,
    }
}

/// The device of a microphone test: an empty name means the default device.
pub fn mic_test_device(name: Option<&str>) -> (d: Option<String>)
    ensures
        match name {
            Some(n) => opt_string_view(d) == spec_device_choice(n@),
            None => d is None,
        },
{
    match name {
        Some(n) => if n.is_empty() {
            None
        } else {
            Some(n.to_owned())
        },
        None => None,
    }
}

/// A microphone test can start only when none runs.
pub fn check_mic_test_start(is_testing: bool) -> (r: Result<(), String>)
    ensures
        is_testing ==> (r matches Err(m) && m@ == "Microphone test already running"@),
        !is_testing ==> r is Ok,
{
    if is_testing {
        Err("Microphone test already running".to_owned())
    } else {
        Ok(())
    }
}

/// A microphone test can stop only when one runs.
pub fn check_mic_test_stop(is_testing: bool) -> (r: Result<(), String>)
    ensures
        !is_testing ==> (r matches Err(m) && m@ == "Microphone test not running"@),
        is_testing ==> r is Ok,
{
    if !is_testing {
        Err("Microphone test not running".to_owned())
    } else {
        Ok(())
    }
}

/// The settings window opens only for a signed-in user (others get the
/// sign-in window and this error).
pub fn check_settings_access(authenticated: bool) -> (r: Result<(), String>)
    ensures
        !authenticated ==> (r matches Err(m) && m@ == "Not authenticated"@),
        authenticated ==> r is Ok,
{
    if !authenticated {
        Err("Not authenticated".to_owned())
    } else {
        Ok(())
    }
}

/// Pause before pasting, in milliseconds: time for the remembered
/// application to come to the front (less when activating it failed, none
/// when no application was remembered).
pub fn paste_activation_delay_ms(had_target: bool, activated: bool) -> (ms: u64)
    ensures
        !had_target ==> ms == 0,
        had_target && activated ==> ms == 150,
        had_target && !activated ==> ms == 50,
{
    if !had_target {
        0
    } else if activated {
        150
    } else {
        50
    }
}

/// The STT settings loaded at start-up. A token that a window already
/// handed over while the file was being read is kept when the file has none.
pub fn merge_loaded_stt_config(saved: SttConfig, current_token: &Option<String>) -> (c: SttConfig)
    ensures
        saved.backend_auth_token is None && current_token is Some ==> c == (SttConfig {
            backend_auth_token: *current_token,
            ..saved
        }),
        !(saved.backend_auth_token is None && current_token is Some) ==> c == saved,
{
    let mut c = saved;
    if c.backend_auth_token.is_none() && current_token.is_some() {
        c.backend_auth_token = crate::text::dup_opt_string(current_token);
    }
    c
}

/// A silence timeout stops the recording only while one is running.
pub fn vad_timeout_stops(status: RecordingStatus) -> (b: bool)
    ensures
        b == (status == RecordingStatus::Recording),
{
    match status {
        RecordingStatus::Recording => true,
        _ => false,
    }
}

/// Once a press is taken, every press in the next 450 ms is ignored.
pub proof fn lemma_debounce_window(t1: i64, t2: i64, last: u64)
    requires
        0 <= t1 <= t2,
        t2 < t1 + HOTKEY_DEBOUNCE_MS,
        spec_hotkey_press(t1, last) is Some,
    ensures
        spec_hotkey_press(t2, spec_hotkey_press(t1, last)->0) is None,
{
}

/// The microphone sensitivity stays within 0-200 % through any update.
pub proof fn lemma_sensitivity_stays_in_range(c: AppConfig, s: Option<u8>)
    requires
        c.microphone_sensitivity <= 200,
    ensures
        spec_after_sensitivity(c, s).microphone_sensitivity <= 200,
{
}

} // verus!
