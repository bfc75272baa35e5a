//! Integer side of the system audio capture: the capture state, the choice
//! of the device format, down-mixing to mono and cutting the input into the
//! fixed blocks that the resampler takes.
use vstd::prelude::*;

use crate::audio_chunk::AudioConfig;
use crate::errors::AudioError;

verus! {

/// Sample rate of everything the capture hands on.
pub const TARGET_SAMPLE_RATE: u32 = 16000;

/// Channels of everything the capture hands on.
pub const TARGET_CHANNELS: u16 = 1;

/// Fixed block size of the resampler input, in samples.
pub const RESAMPLER_CHUNK_SIZE: usize = 1024;

/// Capture of audio chunks.
pub trait AudioCapture {
    /// Whether audio is being captured.
    fn is_capturing(&self) -> bool;

    /// The current audio configuration.
    fn config(&self) -> AudioConfig;
}

/// Whether a capture runs and with which configuration.
pub struct CaptureState {
    pub capturing: bool,
    pub audio_config: AudioConfig,
}

impl AudioCapture for CaptureState {
    fn is_capturing(&self) -> (b: bool)
        ensures
            b == self.capturing,
    {
        self.capturing
    }

    fn config(&self) -> (c: AudioConfig)
        ensures
            c == self.audio_config,
    {
        self.audio_config
    }
}

/// `e` is a capture error with message `msg`.
pub open spec fn is_capture_error(e: AudioError, msg: Seq<char>) -> bool {
    e matches AudioError::Capture(m) && m@ == msg
}

impl CaptureState {
    /// A capture that does not run, with the default configuration.
    pub fn new() -> (s: Self)
        ensures
            !s.capturing,
            s.audio_config.sample_rate == 16000,
            s.audio_config.channels == 1,
            s.audio_config.buffer_size == 4096,
    {
        CaptureState { capturing: false, audio_config: AudioConfig::default() }
    }

    /// Takes a configuration.
    pub fn initialize(&mut self, config: AudioConfig)
        ensures
            final(self).audio_config == config,
            final(self).capturing == old(self).capturing,
    {
        self.audio_config = config;
    }

    /// Marks the capture started; a running capture cannot start again.
    pub fn start(&mut self) -> (r: Result<(), AudioError>)
        ensures
            old(self).capturing ==> (r matches Err(e) && is_capture_error(e, "Already capturing audio"@)
                && *final(self) == *old(self)),
            !old(self).capturing ==> r is Ok && final(self).capturing && final(self).audio_config
                == old(self).audio_config,
    {
        if self.capturing {
            return Err(AudioError::Capture("Already capturing audio".to_owned()));
        }
        self.capturing = true;
        Ok(())
    }

    /// Marks the capture stopped; stopping a stopped capture does nothing.
    pub fn stop(&mut self)
        ensures
            !final(self).capturing,
            final(self).audio_config == old(self).audio_config,
    {
        self.capturing = false;
    }
}

/// Whether audio at `native_rate` must be resampled.
pub fn needs_resampling(native_rate: u32) -> (b: bool)
    ensures
        b == (native_rate != TARGET_SAMPLE_RATE),
{
    native_rate != TARGET_SAMPLE_RATE
}

/// Mean of a pair of samples, rounded toward zero.
pub open spec fn mono_of(a: i16, b: i16) -> i16 {
    let s = a + b;
    (if s >= 0 {
        s / 2
    } else {
        -((-s) / 2)
    }) as i16
}

/// Interleaved stereo down-mixed to mono: each pair of samples becomes its
/// mean (a trailing odd sample is dropped).
pub open spec fn spec_stereo_to_mono(s: Seq<i16>) -> Seq<i16> {
    Seq::new(s.len() / 2, |i: int| mono_of(s[2 * i], s[2 * i + 1]))
}

/// Converts stereo to mono by averaging channels.
pub fn stereo_to_mono(samples: &[i16]) -> (m: Vec<i16>)
    ensures
        m@ == spec_stereo_to_mono(samples@),
{
    let len = samples.len();
    let n = len / 2;
    let mut out: Vec<i16> = Vec::new();
    for i in 0..n
        invariant
            len == samples@.len(),
            n == samples@.len() / 2,
            out@.len() == i,
            forall|j: int| 0 <= j < i ==> out@[j] == mono_of(samples@[2 * j], samples@[2 * j + 1]),
    {
        assert(i + i + 1 < samples@.len());
        let j: usize = i + i;
        let a: i32 = samples[j] as i32;
        let b: i32 = samples[j + 1] as i32;
        let v: i32 = (a + b) / 2;
        out.push(v as i16);
    }
    assert(out@ =~= spec_stereo_to_mono(samples@));
    out
}

/// Down-mixing never leaves the range of the pair: the mono sample lies
/// between the two channel samples, so it cannot overflow.
pub proof fn lemma_mono_between(a: i16, b: i16)
    ensures
        (if a <= b { a } else { b }) <= mono_of(a, b) <= (if a <= b { b } else { a }),
{
}

/// Down-mixing keeps one sample per pair, and each is the mean of its pair
/// rounded toward zero: twice the mono sample is the pair's sum, or one
/// less than it (positive sum) or one more (negative sum).
pub proof fn lemma_stereo_to_mono_is_mean(s: Seq<i16>)
    ensures
        spec_stereo_to_mono(s).len() == s.len() / 2,
        forall|i: int|
            0 <= i < s.len() / 2 ==> {
                let sum = s[2 * i] + s[2 * i + 1];
                let m = #[trigger] spec_stereo_to_mono(s)[i];
                &&& sum >= 0 ==> 2 * m <= sum <= 2 * m + 1
                &&& sum < 0 ==> 2 * m - 1 <= sum <= 2 * m
            },
{
    assert forall|i: int| 0 <= i < s.len() / 2 implies {
        let sum = s[2 * i] + s[2 * i + 1];
        let m = #[trigger] spec_stereo_to_mono(s)[i];
        &&& sum >= 0 ==> 2 * m <= sum <= 2 * m + 1
        &&& sum < 0 ==> 2 * m - 1 <= sum <= 2 * m
    } by {
        let a = s[2 * i];
        let b = s[2 * i + 1];
        lemma_mono_between(a, b);
    }
}

/// Concatenation of a sequence of blocks.
pub open spec fn flatten_blocks(blocks: Seq<Seq<i16>>) -> Seq<i16>
    decreases blocks.len(),
{
    if blocks.len() == 0 {
        Seq::empty()
    } else {
        flatten_blocks(blocks.drop_last()) + blocks.last()
    }
}

/// The views of a sequence of sample vectors.
pub open spec fn block_views(v: Seq<Vec<i16>>) -> Seq<Seq<i16>> {
    Seq::new(v.len(), |i: int| v[i]@)
}

/// Adds samples to the input buffer and cuts off every full block of
/// `RESAMPLER_CHUNK_SIZE` samples, oldest first. Nothing is lost: the
/// blocks followed by what stays buffered are the old buffer followed by
/// the new samples, and less than a block stays.
pub fn take_blocks(buffer: &mut Vec<i16>, samples: &[i16]) -> (blocks: Vec<Vec<i16>>)
    requires
        old(buffer)@.len() < RESAMPLER_CHUNK_SIZE,
    ensures
        flatten_blocks(block_views(blocks@)) + final(buffer)@ == old(buffer)@ + samples@,
        final(buffer)@.len() < RESAMPLER_CHUNK_SIZE,
        forall|i: int| 0 <= i < blocks@.len() ==> (#[trigger] blocks@[i])@.len() == RESAMPLER_CHUNK_SIZE,
{
    let mut blocks: Vec<Vec<i16>> = Vec::new();
    let n = samples.len();
    let ghost all = old(buffer)@ + samples@;
    proof {
        assert(flatten_blocks(block_views(blocks@)) =~= Seq::<i16>::empty());
        assert(Seq::<i16>::empty() + buffer@ + samples@.take(0) =~= old(buffer)@);
    }
    for i in 0..n
        invariant
            n == samples@.len(),
            all == old(buffer)@ + samples@,
            buffer@.len() < RESAMPLER_CHUNK_SIZE,
            flatten_blocks(block_views(blocks@)) + buffer@ == old(buffer)@ + samples@.take(i as int),
            forall|k: int| 0 <= k < blocks@.len() ==> (#[trigger] blocks@[k])@.len() == RESAMPLER_CHUNK_SIZE,
    {
        let ghost before = buffer@;
        buffer.push(samples[i]);
        proof {
            assert(samples@.take(i + 1) =~= samples@.take(i as int).push(samples@[i as int]));
            assert(flatten_blocks(block_views(blocks@)) + buffer@ =~= (flatten_blocks(block_views(blocks@))
                + before).push(samples@[i as int]));
        }
        if buffer.len() == RESAMPLER_CHUNK_SIZE {
            let ghost old_views = block_views(blocks@);
            let mut block: Vec<i16> = Vec::new();
            std::mem::swap(&mut block, buffer);
            let ghost b = block@;
            blocks.push(block);
            proof {
                assert(block_views(blocks@) =~= old_views.push(b));
                assert(block_views(blocks@).drop_last() =~= old_views);
                assert(flatten_blocks(block_views(blocks@)) == flatten_blocks(old_views) + b);
                assert(flatten_blocks(block_views(blocks@)) + buffer@ =~= flatten_blocks(old_views) + b);
            }
        }
    }
    proof {
        assert(samples@.take(n as int) =~= samples@);
    }
    blocks
}

/// A format that the device offers: whether its samples are `f32`, and the
/// lowest rate of its range.
pub struct NativeFormat {
    pub is_f32: bool,
    pub min_sample_rate: u32,
}

/// Distance of a rate from 16 kHz.
pub open spec fn rate_distance(rate: u32) -> int {
    if rate >= 16000 {
        rate - 16000
    } else {
        16000 - rate
    }
}

/// The format to capture with: among the `f32` formats, the first whose
/// lowest rate is closest to 16 kHz; `None` when there is no `f32` format.
pub open spec fn spec_best_format(f: Seq<NativeFormat>, r: Option<usize>) -> bool {
    match r {
        None => forall|i: int| 0 <= i < f.len() ==> !(#[trigger] f[i]).is_f32,
        Some(k) => {
            &&& k < f.len()
            &&& f[k as int].is_f32
            &&& forall|i: int|
                0 <= i < f.len() && (#[trigger] f[i]).is_f32 ==> rate_distance(f[k as int].min_sample_rate)
                    <= rate_distance(f[i].min_sample_rate)
            &&& forall|i: int|
                0 <= i < k && (#[trigger] f[i]).is_f32 ==> rate_distance(f[k as int].min_sample_rate)
                    < rate_distance(f[i].min_sample_rate)
        },
    }
}

/// Chooses the capture format among those the device offers.
pub fn choose_native_format(formats: &[NativeFormat]) -> (r: Option<usize>)
    ensures
        spec_best_format(formats@, r),
{
    let n = formats.len();
    let mut best: Option<usize> = None;
    let mut best_d: u32 = 0;
    for i in 0..n
        invariant
            n == formats@.len(),
            match best {
                None => forall|j: int| 0 <= j < i ==> !(#[trigger] formats@[j]).is_f32,
                Some(k) => {
                    &&& k < i
                    &&& formats@[k as int].is_f32
                    &&& best_d == rate_distance(formats@[k as int].min_sample_rate)
                    &&& forall|j: int|
                        0 <= j < i && (#[trigger] formats@[j]).is_f32 ==> best_d <= rate_distance(
                            formats@[j].min_sample_rate,
                        )
                    &&& forall|j: int|
                        0 <= j < k && (#[trigger] formats@[j]).is_f32 ==> best_d < rate_distance(
                            formats@[j].min_sample_rate,
                        )
                },
            },
    {
        let f = &formats[i];
        if f.is_f32 {
            let d: u32 = if f.min_sample_rate >= 16000 {
                f.min_sample_rate - 16000
            } else {
                16000 - f.min_sample_rate
            };
            match best {
                None => {
                    best = Some(i);
                    best_d = d;
                },
                Some(_) => {
                    if d < best_d {
                        best = Some(i);
                        best_d = d;
                    }
                },
            }
        }
    }
    best
}

/// The error when the device offers no usable format.
pub fn no_format_error() -> (e: AudioError)
    ensures
        e matches AudioError::Configuration(m) && m@ == "No suitable f32 audio config found"@,
{
    AudioError::Configuration("No suitable f32 audio config found".to_owned())
}

/// How the recording input is put together at start-up.
#[derive(Debug, Clone, Copy, PartialEq, Eq, Structural)]
pub enum CapturePipeline {
    /// No input device: a silent stand-in capture
    Mock,
    /// The system capture, without voice activity detection (the detector
    /// could not be created)
    SystemWithoutVad,
    /// The system capture behind voice activity detection
    SystemWithVad,
}

/// The pipeline for what could be created.
pub fn choose_pipeline(system_capture_ok: bool, vad_ok: bool) -> (p: CapturePipeline)
    ensures
        !system_capture_ok ==> p == CapturePipeline::Mock,
        system_capture_ok && !vad_ok ==> p == CapturePipeline::SystemWithoutVad,
        system_capture_ok && vad_ok ==> p == CapturePipeline::SystemWithVad,
{
    if !system_capture_ok {
        CapturePipeline::Mock
    } else if !vad_ok {
        CapturePipeline::SystemWithoutVad
    } else {
        CapturePipeline::SystemWithVad
    }
}

} // verus!
