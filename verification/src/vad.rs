use vstd::prelude::*;
use std::time::Duration;
use webrtc_vad::{SampleRate, Vad, VadMode};

use crate::audio_chunk::duration_total_millis;
use crate::errors::SttError;

verus! {

/// Length of one VAD frame in milliseconds.
pub const FRAME_SIZE_MS: u64 = 30;
/// Samples in one VAD frame (16 kHz * 30 ms).
pub const FRAME_SIZE_SAMPLES: usize = 480;
/// Silence timeout used when none is configured.
pub const DEFAULT_SILENCE_TIMEOUT_MS: u64 = 3000;
/// A frame whose peak amplitude reaches this value counts as activity.
pub const FALLBACK_ACTIVITY_MAX_ABS_I16: u32 = 220;
/// A frame whose RMS amplitude reaches this value counts as activity.
pub const FALLBACK_ACTIVITY_RMS_I16: u32 = 65;
/// Silence timeout in force while no activity has been seen yet.
pub const NO_ACTIVITY_TIMEOUT_MS: u64 = 15_000;

#[verifier::external_type_specification]
#[verifier::external_body]
pub struct ExVad(Vad);

#[verifier::external_type_specification]
#[verifier::external_body]
pub struct ExVadMode(VadMode);

#[verifier::external_type_specification]
#[verifier::external_body]
pub struct ExSampleRate(SampleRate);

/// The input sample rate, in Hz, that a detector is set to.
pub uninterp spec fn detector_rate_hz(v: Vad) -> int;

/// The rate, in Hz, that a `SampleRate` value stands for.
pub uninterp spec fn sample_rate_hz(r: SampleRate) -> int;

/// The verdict libfvad gives on `frame` (speech or not), from the state the
/// detector is in before the call.
pub uninterp spec fn fvad_verdict(v: Vad, frame: Seq<i16>) -> bool;

/// Whether `len` samples make one frame of 10, 20 or 30 ms at `rate_hz`,
/// the only frame lengths the detector takes.
pub open spec fn is_valid_frame_len(rate_hz: int, len: int) -> bool {
    let per_ms = rate_hz / 1000;
    len == 10 * per_ms || len == 20 * per_ms || len == 30 * per_ms
}

/// `webrtc_vad::Vad::new`: a fresh detector, which the crate sets to
/// 8000 Hz (and `Quality` mode).
#[verifier::external_body]
fn vad_new() -> (v: Vad)
    ensures
        detector_rate_hz(v) == 8000,
{
    Vad::new()
}

/// `webrtc_vad::Vad::set_mode`: changes the aggressiveness of the detector;
/// the sample rate stays.
#[verifier::external_body]
fn vad_set_mode(vad: &mut Vad, mode: VadMode)
    ensures
        detector_rate_hz(*final(vad)) == detector_rate_hz(*old(vad)),
{
    vad.set_mode(mode)
}

/// `SampleRate::try_from(i32)`: succeeds exactly for 8000, 16000, 32000 and
/// 48000 Hz, with the value that stands for that rate.
#[verifier::external_body]
fn sample_rate_from_hz(hz: i32) -> (r: Result<SampleRate, &'static str>)
    ensures
        r.is_ok() == (hz == 8000 || hz == 16000 || hz == 32000 || hz == 48000),
        r matches Ok(rate) ==> sample_rate_hz(rate) == hz,
{
    SampleRate::try_from(hz)
}

/// `webrtc_vad::Vad::set_sample_rate`: the detector takes the given rate
/// (libfvad accepts every `SampleRate` value, so the crate's assertion holds).
#[verifier::external_body]
fn vad_set_sample_rate(vad: &mut Vad, rate: SampleRate)
    ensures
        detector_rate_hz(*final(vad)) == sample_rate_hz(rate),
{
    vad.set_sample_rate(rate)
}

/// `webrtc_vad::Vad::is_voice_segment`: libfvad's verdict on a frame. It
/// fails exactly when the frame is not 10, 20 or 30 ms long at the rate the
/// detector is set to; otherwise the verdict is a function of the detector's
/// state before the call and the frame (`fvad_verdict`).  The call updates
/// the detector's adaptive state, of which only the rate is stated: it stays.
/// The crate indexes the first sample, so the frame must not be empty.
#[verifier::external_body]
fn vad_is_voice_segment(vad: &mut Vad, frame: &[i16]) -> (r: Result<bool, ()>)
    requires
        frame@.len() > 0,
    ensures
        r is Ok == is_valid_frame_len(detector_rate_hz(*old(vad)), frame@.len() as int),
        r matches Ok(b) ==> b == fvad_verdict(*old(vad), frame@),
        detector_rate_hz(*final(vad)) == detector_rate_hz(*old(vad)),
{
    vad.is_voice_segment(frame)
}

/// The `Duration` of a whole number of milliseconds.
pub uninterp spec fn duration_of_millis(ms: u64) -> Duration;

/// `Duration::from_millis`.
#[verifier::external_body]
fn duration_from_millis(ms: u64) -> (d: Duration)
    ensures
        d == duration_of_millis(ms),
        duration_total_millis(d) == ms,
{
    Duration::from_millis(ms)
}

/// Result of VAD processing
#[derive(Debug, Clone, Copy, PartialEq, Eq)]
pub enum VadResult {
    /// Speech detected in current frame
    Speech,
    /// Silence detected, but below timeout threshold
    Silence,
    /// Silence timeout reached - should stop recording
    SilenceTimeout,
    /// Still buffering samples (not enough for full frame yet)
    Buffering,
}

/// Absolute value of a sample, as a mathematical integer.
pub open spec fn abs_sample(s: i16) -> int {
    if s < 0 { -(s as int) } else { s as int }
}

/// Peak absolute amplitude of a frame (0 for an empty frame).
pub open spec fn max_abs(f: Seq<i16>) -> int
    decreases f.len(),
{
    if f.len() == 0 {
        0
    } else {
        let m = max_abs(f.drop_last());
        let a = abs_sample(f.last());
        if a > m { a } else { m }
    }
}

/// Sum of the squared amplitudes of a frame.
pub open spec fn sum_sq(f: Seq<i16>) -> int
    decreases f.len(),
{
    if f.len() == 0 { 0 } else { sum_sq(f.drop_last()) + abs_sample(f.last()) * abs_sample(f.last()) }
}

/// Mean squared amplitude of a frame, rounded down (0 for an empty frame).
pub open spec fn mean_sq(f: Seq<i16>) -> int {
    if f.len() == 0 { 0 } else { sum_sq(f) / (f.len() as int) }
}

/// A frame with a clearly audible amplitude, whatever the detector says.
pub open spec fn has_activity(f: Seq<i16>) -> bool {
    max_abs(f) >= FALLBACK_ACTIVITY_MAX_ABS_I16 || mean_sq(f) >= FALLBACK_ACTIVITY_RMS_I16 * FALLBACK_ACTIVITY_RMS_I16
}

/// A (near) zero frame: always silence, the detector is not asked.
pub open spec fn is_trivial_silence(f: Seq<i16>) -> bool {
    max_abs(f) <= 12 && mean_sq(f) <= 12
}

/// The abstract state of a VAD processor.
pub struct VadState {
    /// Samples waiting for a complete frame.
    pub buffer: Seq<i16>,
    /// Accumulated silence in milliseconds.
    pub silence_ms: u64,
    /// Whether activity has been seen since the last reset.
    pub saw_activity: bool,
    /// Configured silence timeout in milliseconds.
    pub timeout_ms: u64,
    /// The WebRTC detector, whose state decides the verdict on a frame.
    pub detector: Vad,
}

/// The silence timeout in force: the configured one once activity has been
/// seen, otherwise at least `NO_ACTIVITY_TIMEOUT_MS`.
pub open spec fn effective_timeout(st: VadState) -> u64 {
    if st.saw_activity {
        st.timeout_ms
    } else if st.timeout_ms >= NO_ACTIVITY_TIMEOUT_MS {
        st.timeout_ms
    } else {
        NO_ACTIVITY_TIMEOUT_MS
    }
}

/// Accumulated silence after one more silent frame (saturating).
pub open spec fn add_frame_ms(ms: u64) -> u64 {
    if ms + FRAME_SIZE_MS > u64::MAX { u64::MAX } else { (ms + FRAME_SIZE_MS) as u64 }
}

/// Effect of one complete frame, given whether it counts as speech.
pub open spec fn record_frame_spec(st: VadState, active: bool) -> (VadState, VadResult) {
    if active {
        (VadState { silence_ms: 0, saw_activity: true, ..st }, VadResult::Speech)
    } else {
        let st2 = VadState { silence_ms: add_frame_ms(st.silence_ms), ..st };
        (st2, if st2.silence_ms >= effective_timeout(st2) { VadResult::SilenceTimeout } else { VadResult::Silence })
    }
}

/// Whether a complete frame counts as speech: a clearly audible frame
/// does; a near zero frame does not (the detector is not asked); for any
/// other frame the detector decides.
pub open spec fn frame_is_speech(detector: Vad, frame: Seq<i16>) -> bool {
    has_activity(frame) || (!is_trivial_silence(frame) && fvad_verdict(detector, frame))
}

/// One call of `process_samples` with `samples`, from `st` to `st2` with
/// result `r`: the samples are buffered; while less than a frame waits,
/// the result is `Buffering`; otherwise the first 480 samples form a frame
/// that is accounted as speech or silence (`frame_is_speech`).  A detector
/// that was asked moves on to a new state.
pub open spec fn vad_step(st: VadState, samples: Seq<i16>, r: VadResult, st2: VadState) -> bool {
    let all = st.buffer + samples;
    let frame = all.take(FRAME_SIZE_SAMPLES as int);
    let rest = VadState { buffer: all.skip(FRAME_SIZE_SAMPLES as int), ..st };
    if all.len() < FRAME_SIZE_SAMPLES {
        r == VadResult::Buffering && st2 == VadState { buffer: all, ..st }
    } else {
        &&& (VadState { detector: st.detector, ..st2 }, r) == record_frame_spec(
            rest,
            frame_is_speech(st.detector, frame),
        )
        &&& is_trivial_silence(frame) ==> st2.detector == st.detector
    }
}

/// Voice Activity Detection processor using WebRTC VAD: 30 ms frames of
/// 480 samples at 16 kHz, with a configurable silence timeout.
pub struct VadProcessor {
    vad: Vad,
    buffer: Vec<i16>,
    silence_ms: u64,
    saw_activity: bool,
    timeout_ms: u64,
}

impl View for VadProcessor {
    type V = VadState;

    closed spec fn view(&self) -> VadState {
        VadState {
            buffer: self.buffer@,
            silence_ms: self.silence_ms,
            saw_activity: self.saw_activity,
            timeout_ms: self.timeout_ms,
            detector: self.vad,
        }
    }
}

proof fn lemma_sum_sq_bound(f: Seq<i16>)
    ensures
        0 <= sum_sq(f) <= f.len() * 1073741824,
        0 <= max_abs(f) <= 32768,
    decreases f.len(),
{
    if f.len() > 0 {
        lemma_sum_sq_bound(f.drop_last());
        let a = abs_sample(f.last());
        assert(0 <= a * a <= 1073741824) by (nonlinear_arith)
            requires 0 <= a <= 32768;
    }
}

/// Computes (max_abs, mean_sq) of a frame.
fn frame_metrics(frame: &[i16]) -> (r: (u32, u64))
    requires
        frame@.len() <= 4096,
    ensures
        r.0 == max_abs(frame@),
        r.1 == mean_sq(frame@),
{
    let n = frame.len();
    let mut max_a: u32 = 0;
    let mut sum: u64 = 0;
    let mut i: usize = 0;
    while i < n
        invariant
            n == frame@.len(),
            n <= 4096,
            i <= n,
            max_a == max_abs(frame@.take(i as int)),
            sum == sum_sq(frame@.take(i as int)),
        decreases n - i,
    {
        let s = frame[i];
        proof {
            assert(frame@.take(i + 1).drop_last() =~= frame@.take(i as int));
            lemma_sum_sq_bound(frame@.take(i as int));
            lemma_sum_sq_bound(frame@.take(i + 1));
        }
        let a: u32 = if s < 0 { (-(s as i32)) as u32 } else { s as u32 };
        if a > max_a {
            max_a = a;
        }
        assert(a * a <= 1073741824) by (nonlinear_arith)
            requires a <= 32768;
        sum = sum + (a as u64) * (a as u64);
        i = i + 1;
    }
    assert(frame@.take(n as int) =~= frame@);
    if n == 0 {
        (max_a, 0)
    } else {
        (max_a, sum / (n as u64))
    }
}

impl VadProcessor {
    /// The detector is set to 16 kHz input.
    pub closed spec fn wf(&self) -> bool {
        detector_rate_hz(self.vad) == 16000
    }

    /// Create a new VAD processor for 16 kHz mono audio.
    ///
    /// * `timeout_ms` - silence timeout (default `DEFAULT_SILENCE_TIMEOUT_MS`)
    /// * `mode` - detector aggressiveness (default `Quality`)
    pub fn new(timeout_ms: Option<u64>, mode: Option<VadMode>) -> (r: Result<Self, SttError>)
        ensures
            r is Ok,
            r matches Ok(p) ==> p.wf(),
            r matches Ok(p) ==> p@ == (VadState {
                buffer: Seq::empty(),
                silence_ms: 0,
                saw_activity: false,
                timeout_ms: match timeout_ms { Some(t) => t, None => DEFAULT_SILENCE_TIMEOUT_MS },
                detector: p@.detector,
            }),
    {
        let mut vad = vad_new();
        match mode {
            Some(m) => vad_set_mode(&mut vad, m),
            // a fresh detector is already in `Quality` mode
            None => {},
        }
        match sample_rate_from_hz(16000) {
            Ok(rate) => vad_set_sample_rate(&mut vad, rate),
            Err(_) => {},
        }
        let timeout_ms = match timeout_ms {
            Some(t) => t,
            None => DEFAULT_SILENCE_TIMEOUT_MS,
        };
        Ok(VadProcessor { vad, buffer: Vec::new(), silence_ms: 0, saw_activity: false, timeout_ms })
    }

    /// Create a VAD processor with default settings (default timeout, `Quality` mode).
    pub fn default() -> (r: Result<Self, SttError>)
        ensures
            r is Ok,
            r matches Ok(p) ==> p.wf(),
            r matches Ok(p) ==> p@ == (VadState {
                buffer: Seq::empty(),
                silence_ms: 0,
                saw_activity: false,
                timeout_ms: DEFAULT_SILENCE_TIMEOUT_MS,
                detector: p@.detector,
            }),
    {
        Self::new(None, None)
    }

    /// Accounts one complete frame, given whether it counts as speech.
    pub fn record_frame(&mut self, active: bool) -> (r: VadResult)
        ensures
            (final(self)@, r) == record_frame_spec(old(self)@, active),
            final(self).wf() == old(self).wf(),
    {
        if active {
            self.silence_ms = 0;
            self.saw_activity = true;
            VadResult::Speech
        } else {
            self.silence_ms = self.silence_ms.saturating_add(FRAME_SIZE_MS);
            let effective = if self.saw_activity {
                self.timeout_ms
            } else if self.timeout_ms >= NO_ACTIVITY_TIMEOUT_MS {
                self.timeout_ms
            } else {
                NO_ACTIVITY_TIMEOUT_MS
            };
            if self.silence_ms >= effective {
                VadResult::SilenceTimeout
            } else {
                VadResult::Silence
            }
        }
    }

    /// Process incoming 16 kHz mono samples: buffer them until a full frame of
    /// 480 samples is there, then classify exactly one frame.
    pub fn process_samples(&mut self, samples: &[i16]) -> (r: Result<VadResult, SttError>)
        requires
            old(self).wf(),
        ensures
            final(self).wf(),
            r is Ok,
            r matches Ok(res) && vad_step(old(self)@, samples@, res, final(self)@),
    {
        let ghost old_buf = self.buffer@;
        let ghost det0: Vad = self.vad;
        let n = samples.len();
        for i in 0..n
            invariant
                n == samples@.len(),
                self.buffer@ == old_buf + samples@.take(i as int),
                self.silence_ms == old(self).silence_ms,
                self.saw_activity == old(self).saw_activity,
                self.timeout_ms == old(self).timeout_ms,
                self.vad == det0,
                det0 == old(self).vad,
                self.wf(),
        {
            self.buffer.push(samples[i]);
            proof {
                assert(samples@.take(i + 1) =~= samples@.take(i as int).push(samples@[i as int]));
            }
        }
        proof {
            assert(samples@.take(n as int) =~= samples@);
        }
        if self.buffer.len() < FRAME_SIZE_SAMPLES {
            return Ok(VadResult::Buffering);
        }
        let mut frame = self.buffer.split_off(FRAME_SIZE_SAMPLES);
        std::mem::swap(&mut self.buffer, &mut frame);
        let (max_a, mean) = frame_metrics(frame.as_slice());
        let has_act = max_a >= FALLBACK_ACTIVITY_MAX_ABS_I16
            || mean >= (FALLBACK_ACTIVITY_RMS_I16 as u64) * (FALLBACK_ACTIVITY_RMS_I16 as u64);
        let trivial = max_a <= 12 && mean <= 12;
        let is_speech = if trivial {
            false
        } else {
            match vad_is_voice_segment(&mut self.vad, frame.as_slice()) {
                Ok(v) => v,
                // cannot happen: a 30 ms frame at 16 kHz is always accepted
                Err(_) => return Err(SttError::Processing("VAD error".to_owned())),
            }
        };
        Ok(self.record_frame(is_speech || has_act))
    }

    /// Reset silence counter, buffer and activity flag.
    pub fn reset(&mut self)
        ensures
            final(self)@ == (VadState {
                buffer: Seq::empty(),
                silence_ms: 0,
                saw_activity: false,
                timeout_ms: old(self)@.timeout_ms,
                detector: old(self)@.detector,
            }),
            final(self).wf() == old(self).wf(),
    {
        self.silence_ms = 0;
        self.buffer.clear();
        self.saw_activity = false;
    }

    /// Current silence duration in milliseconds.
    pub fn silence_duration_ms(&self) -> (ms: u64)
        ensures
            ms == self@.silence_ms,
    {
        self.silence_ms
    }

    /// Get current silence duration
    pub fn silence_duration(&self) -> (d: Duration)
        ensures
            d == duration_of_millis(self@.silence_ms),
            duration_total_millis(d) == self@.silence_ms,
    {
        duration_from_millis(self.silence_ms)
    }

    /// Get configured timeout threshold
    pub fn timeout(&self) -> (d: Duration)
        ensures
            d == duration_of_millis(self@.timeout_ms),
            duration_total_millis(d) == self@.timeout_ms,
    {
        duration_from_millis(self.timeout_ms)
    }

    /// Check if buffer has pending samples
    pub fn has_buffered_samples(&self) -> (b: bool)
        ensures
            b == (self@.buffer.len() > 0),
    {
        self.buffer.len() > 0
    }

    /// Get number of buffered samples
    pub fn buffered_samples(&self) -> (n: usize)
        ensures
            n == self@.buffer.len(),
    {
        self.buffer.len()
    }
}

/// State and last result after `n` consecutive silent frames.
pub open spec fn silent_frames(st: VadState, n: nat) -> (VadState, VadResult)
    decreases n,
{
    if n == 0 {
        (st, VadResult::Silence)
    } else {
        record_frame_spec(silent_frames(st, (n - 1) as nat).0, false)
    }
}

/// A frame that counts as speech clears the accumulated silence and marks the
/// recording as having activity, whatever came before.
pub proof fn lemma_speech_resets_silence(st: VadState)
    ensures
        record_frame_spec(st, true).0.silence_ms == 0,
        record_frame_spec(st, true).0.saw_activity,
        record_frame_spec(st, true).1 == VadResult::Speech,
        record_frame_spec(st, true).0.timeout_ms == st.timeout_ms,
        record_frame_spec(st, true).0.buffer == st.buffer,
{
}

/// Starting from no accumulated silence, `n` silent frames accumulate exactly
/// `30 * n` milliseconds, and the `n`-th frame reports the timeout exactly
/// when that reaches the timeout in force.
pub proof fn lemma_silence_accumulates(st: VadState, n: nat)
    requires
        st.silence_ms == 0,
        n >= 1,
        n * FRAME_SIZE_MS <= u64::MAX,
    ensures
        silent_frames(st, n).0.silence_ms == n * FRAME_SIZE_MS,
        silent_frames(st, n).0.saw_activity == st.saw_activity,
        silent_frames(st, n).0.timeout_ms == st.timeout_ms,
        (silent_frames(st, n).1 == VadResult::SilenceTimeout) == (n * FRAME_SIZE_MS >= effective_timeout(st)),
        (silent_frames(st, n).1 == VadResult::Silence) == (n * FRAME_SIZE_MS < effective_timeout(st)),
    decreases n,
{
    let prev = silent_frames(st, (n - 1) as nat).0;
    if n > 1 {
        assert((n - 1) * FRAME_SIZE_MS <= u64::MAX) by (nonlinear_arith)
            requires n * FRAME_SIZE_MS <= u64::MAX, n >= 1;
        lemma_silence_accumulates(st, (n - 1) as nat);
        assert(prev.silence_ms + FRAME_SIZE_MS == n * FRAME_SIZE_MS) by (nonlinear_arith)
            requires prev.silence_ms == (n - 1) * FRAME_SIZE_MS;
    } else {
        assert(silent_frames(st, 0).0 == st);
    }
}

/// Until some activity has been seen, silence alone never stops a recording
/// before `NO_ACTIVITY_TIMEOUT_MS` of it.
pub proof fn lemma_no_early_timeout_without_activity(st: VadState)
    requires
        !st.saw_activity,
        record_frame_spec(st, false).1 == VadResult::SilenceTimeout,
    ensures
        record_frame_spec(st, false).0.silence_ms >= NO_ACTIVITY_TIMEOUT_MS,
        record_frame_spec(st, false).0.silence_ms >= st.timeout_ms,
{
}

/// No sample is lost or reordered: the classified frame followed by what
/// stays buffered is the old buffer followed by the new samples.
pub proof fn lemma_frame_split_keeps_samples(buffer: Seq<i16>, samples: Seq<i16>)
    requires
        (buffer + samples).len() >= FRAME_SIZE_SAMPLES,
    ensures
        (buffer + samples).take(FRAME_SIZE_SAMPLES as int) + (buffer + samples).skip(FRAME_SIZE_SAMPLES as int)
            == buffer + samples,
        (buffer + samples).take(FRAME_SIZE_SAMPLES as int).len() == FRAME_SIZE_SAMPLES,
{
    assert((buffer + samples).take(FRAME_SIZE_SAMPLES as int) + (buffer + samples).skip(FRAME_SIZE_SAMPLES as int)
        =~= buffer + samples);
}

} // verus!
