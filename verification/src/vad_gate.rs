//! Voice activity detection in front of a capture: captured audio is cut
//! into 30 ms frames, each frame is classified and passed on, and the
//! silence timeout is reported once per capture.
use vstd::prelude::*;

use crate::capture::{block_views, flatten_blocks};
use crate::vad::{vad_step, VadProcessor, VadResult, VadState, FRAME_SIZE_SAMPLES};

verus! {

/// What one captured chunk leads to.
pub struct GateOutput {
    /// The chunk is not 16 kHz mono: it goes on unchanged, without detection
    pub passthrough: bool,
    /// Complete 30 ms frames that go on, oldest first
    pub frames: Vec<Vec<i16>>,
    /// What the detector said of each frame, in the same order
    pub results: Vec<VadResult>,
    /// The silence timeout is reported now
    pub fire_timeout: bool,
}

/// Voice activity detection in front of a 16 kHz mono capture.
pub struct VadGate {
    vad: VadProcessor,
    frame_buffer: Vec<i16>,
    timeout_fired: bool,
}

/// What the detector in front of the capture keeps between chunks.
pub struct VadGateView {
    /// Samples waiting for a complete frame
    pub pending: Seq<i16>,
    /// The silence timeout was reported during this capture
    pub timeout_fired: bool,
    /// State of the voice activity detector
    pub detector: VadState,
}

impl View for VadGate {
    type V = VadGateView;

    closed spec fn view(&self) -> VadGateView {
        VadGateView { pending: self.frame_buffer@, timeout_fired: self.timeout_fired, detector: self.vad@ }
    }
}

/// Complete frames of a sequence cut in order, and what is left: every
/// frame has 480 samples, less than a frame is left, and together they
/// give back the sequence.
pub open spec fn is_framing(all: Seq<i16>, frames: Seq<Seq<i16>>, rest: Seq<i16>) -> bool {
    &&& flatten_blocks(frames) + rest == all
    &&& rest.len() < 480
    &&& forall|i: int| 0 <= i < frames.len() ==> (#[trigger] frames[i]).len() == 480
}

/// `states` lists the detector's state before each frame and after the
/// last: it starts at `st0`, and the `i`-th call, on `frames[i]`, goes from
/// `states[i]` to `states[i + 1]` with result `results[i]`.
pub open spec fn is_run(
    st0: VadState,
    frames: Seq<Seq<i16>>,
    results: Seq<VadResult>,
    states: Seq<VadState>,
) -> bool {
    &&& results.len() == frames.len()
    &&& states.len() == frames.len() + 1
    &&& states[0] == st0
    &&& forall|i: int|
        0 <= i < frames.len() ==> #[trigger] vad_step(states[i], frames[i], results[i], states[i + 1])
}

/// The detector goes from `st0` to `end` by handling `frames` one after
/// the other, the `i`-th call giving `results[i]`.
pub open spec fn detector_runs(
    st0: VadState,
    frames: Seq<Seq<i16>>,
    results: Seq<VadResult>,
    end: VadState,
) -> bool {
    exists|states: Seq<VadState>| #[trigger] is_run(st0, frames, results, states) && states.last() == end
}

/// Whether some result in the sequence is a silence timeout.
pub open spec fn has_silence_timeout(results: Seq<VadResult>) -> bool {
    exists|i: int| 0 <= i < results.len() && results[i] == VadResult::SilenceTimeout
}

/// A `VadGate` handles one 16 kHz mono chunk, going from `g` to `g2`: the waiting
/// samples and the chunk are cut into `frames`, the detector runs over them
/// giving `results`, and the timeout is reported (`fire`) when some frame
/// gave it and it was not reported before in this capture.
pub open spec fn gate_step(
    g: VadGateView,
    data: Seq<i16>,
    frames: Seq<Seq<i16>>,
    results: Seq<VadResult>,
    fire: bool,
    g2: VadGateView,
) -> bool {
    &&& is_framing(g.pending + data, frames, g2.pending)
    &&& detector_runs(g.detector, frames, results, g2.detector)
    &&& fire == (!g.timeout_fired && has_silence_timeout(results))
    &&& g2.timeout_fired == (g.timeout_fired || has_silence_timeout(results))
}

impl VadGate {
    /// Consistency: the detector is set up for 16 kHz input, and less than
    /// a frame waits here.
    pub closed spec fn wf(&self) -> bool {
        &&& self.vad.wf()
        &&& self.frame_buffer@.len() < FRAME_SIZE_SAMPLES
    }

    /// A gate around a detector.
    pub fn new(vad: VadProcessor) -> (g: Self)
        requires
            vad.wf(),
        ensures
            g.wf(),
            g@.pending == Seq::<i16>::empty(),
            !g@.timeout_fired,
            g@.detector == vad@,
    {
        VadGate { vad, frame_buffer: Vec::new(), timeout_fired: false }
    }

    /// A new capture starts: the timeout may be reported again, and no
    /// partial frame is kept from before.
    pub fn start(&mut self)
        requires
            old(self).wf(),
        ensures
            final(self).wf(),
            final(self)@.pending == Seq::<i16>::empty(),
            !final(self)@.timeout_fired,
            final(self)@.detector == old(self)@.detector,
    {
        self.timeout_fired = false;
        self.frame_buffer.clear();
    }

    /// The capture stops: the detector starts over (no partial frame, no
    /// silence counted, no activity seen, same timeout; the WebRTC detector
    /// itself is kept as it is); what waits here and
    /// the timeout flag stay.
    pub fn stop(&mut self)
        requires
            old(self).wf(),
        ensures
            final(self).wf(),
            final(self)@ == (VadGateView {
                detector: VadState {
                    buffer: Seq::empty(),
                    silence_ms: 0,
                    saw_activity: false,
                    timeout_ms: old(self)@.detector.timeout_ms,
                    detector: old(self)@.detector.detector,
                },
                ..old(self)@
            }),
    {
        self.vad.reset();
    }

    /// Handles one captured chunk.
    pub fn process_chunk(&mut self, data: &[i16], sample_rate: u32, channels: u16) -> (out: GateOutput)
        requires
            old(self).wf(),
        ensures
            final(self).wf(),
            sample_rate != 16000 || channels != 1 ==> out.passthrough && out.frames@.len() == 0
                && out.results@.len() == 0 && !out.fire_timeout && final(self)@ == old(self)@,
            sample_rate == 16000 && channels == 1 ==> !out.passthrough && gate_step(
                old(self)@,
                data@,
                block_views(out.frames@),
                out.results@,
                out.fire_timeout,
                final(self)@,
            ),
    {
        if sample_rate != 16000 || channels != 1 {
            return GateOutput { passthrough: true, frames: Vec::new(), results: Vec::new(), fire_timeout: false };
        }
        let mut frames: Vec<Vec<i16>> = Vec::new();
        let mut results: Vec<VadResult> = Vec::new();
        let mut fire_timeout = false;
        let n = data.len();
        let ghost start = self.frame_buffer@;
        let ghost fired0 = self.timeout_fired;
        let ghost det0 = self.vad@;
        let ghost mut states: Seq<VadState> = seq![det0];
        proof {
            assert(flatten_blocks(block_views(frames@)) =~= Seq::<i16>::empty());
            assert(Seq::<i16>::empty() + self.frame_buffer@ =~= start + data@.take(0));
        }
        for i in 0..n
            invariant
                n == data@.len(),
                self.wf(),
                flatten_blocks(block_views(frames@)) + self.frame_buffer@ == start + data@.take(i as int),
                forall|k: int| 0 <= k < frames@.len() ==> (#[trigger] frames@[k])@.len() == 480,
                is_run(det0, block_views(frames@), results@, states),
                states.last() == self.vad@,
                fire_timeout == (!fired0 && has_silence_timeout(results@)),
                self.timeout_fired == (fired0 || has_silence_timeout(results@)),
        {
            let ghost before = self.frame_buffer@;
            self.frame_buffer.push(data[i]);
            proof {
                assert(data@.take(i + 1) =~= data@.take(i as int).push(data@[i as int]));
                assert(flatten_blocks(block_views(frames@)) + self.frame_buffer@ =~= (flatten_blocks(
                    block_views(frames@),
                ) + before).push(data@[i as int]));
            }
            if self.frame_buffer.len() == FRAME_SIZE_SAMPLES {
                let mut frame: Vec<i16> = Vec::new();
                std::mem::swap(&mut frame, &mut self.frame_buffer);
                let ghost det_before = self.vad@;
                let result = self.vad.process_samples(frame.as_slice());
                let res = result.unwrap();
                let is_timeout = match res {
                    VadResult::SilenceTimeout => true,
                    _ => false,
                };
                if is_timeout && !self.timeout_fired {
                    self.timeout_fired = true;
                    fire_timeout = true;
                }
                let ghost old_views = block_views(frames@);
                let ghost old_results = results@;
                let ghost f = frame@;
                frames.push(frame);
                results.push(res);
                proof {
                    assert(block_views(frames@) =~= old_views.push(f));
                    assert(block_views(frames@).drop_last() =~= old_views);
                    assert(results@.drop_last() =~= old_results);
                    assert(flatten_blocks(block_views(frames@)) + self.frame_buffer@ =~= flatten_blocks(
                        old_views,
                    ) + f);
                    let ghost old_states = states;
                    states = states.push(self.vad@);
                    assert forall|k: int| 0 <= k < block_views(frames@).len() implies #[trigger] vad_step(
                        states[k],
                        block_views(frames@)[k],
                        results@[k],
                        states[k + 1],
                    ) by {
                        if k < old_views.len() {
                            assert(vad_step(old_states[k], old_views[k], old_results[k], old_states[k + 1]));
                        }
                    }
                    if has_silence_timeout(results@) && !has_silence_timeout(old_results) {
                        let k = choose|k: int| 0 <= k < results@.len() && results@[k] == VadResult::SilenceTimeout;
                        assert(k == old_results.len());
                    }
                    if has_silence_timeout(old_results) {
                        let k = choose|k: int| 0 <= k < old_results.len() && old_results[k] == VadResult::SilenceTimeout;
                        assert(results@[k] == VadResult::SilenceTimeout);
                    }
                    if res == VadResult::SilenceTimeout {
                        assert(results@[old_results.len() as int] == VadResult::SilenceTimeout);
                    }
                }
            }
        }
        proof {
            assert(data@.take(n as int) =~= data@);
            assert(is_run(det0, block_views(frames@), results@, states));
        }
        GateOutput { passthrough: false, frames, results, fire_timeout }
    }
}

/// Everything a run of chunks hands on: the frames of each chunk, chunk
/// after chunk, concatenated.
pub open spec fn handed_on(frames: Seq<Seq<Seq<i16>>>) -> Seq<i16>
    decreases frames.len(),
{
    if frames.len() == 0 {
        Seq::empty()
    } else {
        handed_on(frames.drop_last()) + flatten_blocks(frames.last())
    }
}

/// A run of chunks handled by a `VadGate`: `gs[i]` is its view before the `i`-th
/// chunk and `gs[i + 1]` after it, the chunk giving `frames[i]`,
/// `results[i]` and `fires[i]`.
pub open spec fn is_gate_run(
    gs: Seq<VadGateView>,
    chunks: Seq<Seq<i16>>,
    frames: Seq<Seq<Seq<i16>>>,
    results: Seq<Seq<VadResult>>,
    fires: Seq<bool>,
) -> bool {
    &&& gs.len() == chunks.len() + 1
    &&& frames.len() == chunks.len()
    &&& results.len() == chunks.len()
    &&& fires.len() == chunks.len()
    &&& forall|i: int|
        0 <= i < chunks.len() ==> #[trigger] gate_step(gs[i], chunks[i], frames[i], results[i], fires[i], gs[i + 1])
}

/// Some chunk of the run reported the timeout.
pub open spec fn some_fire(fires: Seq<bool>) -> bool {
    exists|i: int| 0 <= i < fires.len() && fires[i]
}

/// Some frame of the run gave a silence timeout.
pub open spec fn some_timeout(results: Seq<Seq<VadResult>>) -> bool {
    exists|i: int| 0 <= i < results.len() && #[trigger] has_silence_timeout(results[i])
}

proof fn lemma_flatten_frames_len(fs: Seq<Seq<i16>>)
    requires
        forall|i: int| 0 <= i < fs.len() ==> (#[trigger] fs[i]).len() == 480,
    ensures
        flatten_blocks(fs).len() == 480 * fs.len(),
    decreases fs.len(),
{
    if fs.len() > 0 {
        assert forall|i: int| 0 <= i < fs.drop_last().len() implies (#[trigger] fs.drop_last()[i]).len() == 480 by {
            assert(fs.drop_last()[i] == fs[i]);
        }
        lemma_flatten_frames_len(fs.drop_last());
    }
}

proof fn lemma_gate_run_prefix(
    gs: Seq<VadGateView>,
    chunks: Seq<Seq<i16>>,
    frames: Seq<Seq<Seq<i16>>>,
    results: Seq<Seq<VadResult>>,
    fires: Seq<bool>,
)
    requires
        is_gate_run(gs, chunks, frames, results, fires),
        gs[0].pending.len() == 0,
        !gs[0].timeout_fired,
    ensures
        handed_on(frames) + gs.last().pending == flatten_blocks(chunks),
        handed_on(frames).len() % 480 == 0,
        gs.last().pending.len() < 480,
        gs.last().timeout_fired == some_timeout(results),
        some_fire(fires) == some_timeout(results),
        forall|i: int, j: int| 0 <= i < fires.len() && 0 <= j < fires.len() && fires[i] && fires[j] ==> i == j,
        forall|i: int, k: int|
            0 <= i < frames.len() && 0 <= k < frames[i].len() ==> (#[trigger] frames[i][k]).len() == 480,
    decreases chunks.len(),
{
    let n = chunks.len() as int;
    if n == 0 {
        assert(handed_on(frames) + gs.last().pending =~= flatten_blocks(chunks));
        assert(!some_fire(fires));
        assert(!some_timeout(results));
    } else {
        let gs1 = gs.drop_last();
        let ch1 = chunks.drop_last();
        let fr1 = frames.drop_last();
        let rs1 = results.drop_last();
        let fi1 = fires.drop_last();
        assert forall|i: int| 0 <= i < ch1.len() implies #[trigger] gate_step(
            gs1[i],
            ch1[i],
            fr1[i],
            rs1[i],
            fi1[i],
            gs1[i + 1],
        ) by {
            assert(gate_step(gs[i], chunks[i], frames[i], results[i], fires[i], gs[i + 1]));
        }
        lemma_gate_run_prefix(gs1, ch1, fr1, rs1, fi1);
        assert(gate_step(gs[n - 1], chunks[n - 1], frames[n - 1], results[n - 1], fires[n - 1], gs[n]));
        let prev = gs[n - 1];
        let last = gs[n];
        assert(gs1.last() == prev);
        let fl = frames.last();
        // the samples
        assert(handed_on(frames) == handed_on(fr1) + flatten_blocks(fl));
        assert(flatten_blocks(fl) + last.pending == prev.pending + chunks.last());
        assert(handed_on(frames) + last.pending =~= handed_on(fr1) + (flatten_blocks(fl) + last.pending));
        assert(handed_on(fr1) + (prev.pending + chunks.last()) =~= (handed_on(fr1) + prev.pending)
            + chunks.last());
        assert(flatten_blocks(chunks) == flatten_blocks(ch1) + chunks.last());
        // whole frames
        lemma_flatten_frames_len(fl);
        assert(handed_on(frames).len() == handed_on(fr1).len() + 480 * fl.len());
        assert((handed_on(fr1).len() + 480 * fl.len()) % 480 == 0) by (nonlinear_arith)
            requires handed_on(fr1).len() % 480 == 0;
        assert forall|i: int, k: int| 0 <= i < frames.len() && 0 <= k < frames[i].len() implies (
        #[trigger] frames[i][k]).len() == 480 by {
            if i < n - 1 {
                assert(frames[i] == fr1[i]);
                assert(fr1[i][k].len() == 480);
            }
        }
        // the timeout
        if has_silence_timeout(results[n - 1]) {
            assert(some_timeout(results));
        }
        if some_timeout(rs1) {
            let i = choose|i: int| 0 <= i < rs1.len() && #[trigger] has_silence_timeout(rs1[i]);
            assert(rs1[i] == results[i]);
            assert(some_timeout(results));
        }
        if some_timeout(results) {
            let i = choose|i: int| 0 <= i < results.len() && #[trigger] has_silence_timeout(results[i]);
            if i < n - 1 {
                assert(rs1[i] == results[i]);
                assert(some_timeout(rs1));
            }
        }
        if some_fire(fi1) {
            let i = choose|i: int| 0 <= i < fi1.len() && fi1[i];
            assert(fires[i]);
        }
        if fires[n - 1] {
            assert(some_fire(fires));
        }
        if some_fire(fires) {
            let i = choose|i: int| 0 <= i < fires.len() && fires[i];
            if i < n - 1 {
                assert(fi1[i]);
            }
        }
        assert forall|i: int, j: int|
            0 <= i < fires.len() && 0 <= j < fires.len() && fires[i] && fires[j] implies i == j by {
            if i < n - 1 && j < n - 1 {
                assert(fi1[i] && fi1[j]);
            } else if i < n - 1 {
                assert(fi1[i]);
                assert(some_fire(fi1));
            } else if j < n - 1 {
                assert(fi1[j]);
                assert(some_fire(fi1));
            }
        }
    }
}

/// A capture handled by a `VadGate` from `start` on, chunk by chunk (all
/// 16 kHz mono): what is handed on is exactly the complete-frame prefix of
/// all captured samples, in order, in frames of 480 samples; the timeout
/// is reported at most once, and it is reported exactly when some frame
/// gave a silence timeout.
pub proof fn lemma_capture_through_gate(
    gs: Seq<VadGateView>,
    chunks: Seq<Seq<i16>>,
    frames: Seq<Seq<Seq<i16>>>,
    results: Seq<Seq<VadResult>>,
    fires: Seq<bool>,
)
    requires
        is_gate_run(gs, chunks, frames, results, fires),
        gs[0].pending.len() == 0,
        !gs[0].timeout_fired,
    ensures
        handed_on(frames) == flatten_blocks(chunks).take(480 * (flatten_blocks(chunks).len() / 480) as int),
        forall|i: int, k: int|
            0 <= i < frames.len() && 0 <= k < frames[i].len() ==> (#[trigger] frames[i][k]).len() == 480,
        forall|i: int, j: int| 0 <= i < fires.len() && 0 <= j < fires.len() && fires[i] && fires[j] ==> i == j,
        some_fire(fires) == some_timeout(results),
{
    lemma_gate_run_prefix(gs, chunks, frames, results, fires);
    let all = flatten_blocks(chunks);
    let out = handed_on(frames);
    let p = gs.last().pending;
    let l = out.len() as int;
    let d = all.len() as int;
    assert(d == l + p.len());
    assert(480 * (d / 480) == l) by (nonlinear_arith)
        requires l % 480 == 0, d == l + p.len(), 0 <= p.len() < 480, l >= 0;
    assert(out =~= all.take(l));
}

} // verus!
