//! Temporal smoothing on top of a raw voice activity detector.
//!
//! The decorator keeps a bounded history of recent frames (prefill), demands
//! several consecutive speech verdicts before committing to speech (onset
//! debounce), and keeps emitting speech for a grace period after the raw
//! detector reverts to noise (hangover).  On a confirmed onset the buffered
//! history is replayed, so the utterance's leading edge is not lost to the
//! debounce latency.
//!
//! All smoothing state is captured by the abstract `VadSmoothModel`; every
//! public operation is specified as a function of that model, so the
//! emissions depend on nothing but the model and the raw verdicts.

use vstd::prelude::*;

use std::collections::VecDeque;

use crate::vad::{VadError, VadFrame, VoiceActivityDetector};

verus! {

/// Abstract state of the smoothing decorator.
pub struct VadSmoothModel {
    /// Frames of pre-roll kept before a confirmed onset.
    pub prefill_frames: nat,
    /// Frames of speech still emitted after the raw detector reverts to noise.
    pub hangover_frames: nat,
    /// Consecutive raw-speech frames required to confirm an onset.
    pub onset_frames: nat,
    /// The most recent frames, at most `prefill_frames + 1` of them.
    pub buffer: Seq<Seq<i16>>,
    /// Consecutive raw-speech frames seen while not in speech.
    pub onset_counter: nat,
    /// Remaining grace frames while in speech.
    pub hangover_counter: nat,
    /// Whether the decorator is currently in the speech state.
    pub in_speech: bool,
}

/// The state of a freshly constructed decorator.
pub open spec fn fresh_vad_model(
    prefill_frames: nat,
    hangover_frames: nat,
    onset_frames: nat,
) -> VadSmoothModel {
    VadSmoothModel {
        prefill_frames,
        hangover_frames,
        onset_frames,
        buffer: Seq::empty(),
        onset_counter: 0,
        hangover_counter: 0,
        in_speech: false,
    }
}

/// Append `frame` to the history, evicting the oldest entries so that at most
/// `cap` remain.
pub open spec fn push_bounded(buf: Seq<Seq<i16>>, frame: Seq<i16>, cap: nat) -> Seq<Seq<i16>> {
    let b = buf.push(frame);
    if b.len() > cap {
        b.skip(b.len() - cap)
    } else {
        b
    }
}

/// Concatenation of all buffered frames, oldest first.
pub open spec fn concat_frames(frames: Seq<Seq<i16>>) -> Seq<i16>
    decreases frames.len(),
{
    if frames.len() == 0 {
        Seq::empty()
    } else {
        concat_frames(frames.drop_last()) + frames.last()
    }
}

/// The model after the incoming frame has been pushed into the history.
pub open spec fn vad_buffered(m: VadSmoothModel, frame: Seq<i16>) -> VadSmoothModel {
    VadSmoothModel { buffer: push_bounded(m.buffer, frame, m.prefill_frames + 1), ..m }
}

/// The transition table on `(in_speech, raw verdict)`, applied after the
/// frame has been buffered.  Returns the successor model and the emission:
/// `None` is noise, `Some(samples)` is a speech emission with its payload.
pub open spec fn vad_transition(m: VadSmoothModel, frame: Seq<i16>, voice: bool) -> (
    VadSmoothModel,
    Option<Seq<i16>>,
) {
    if !m.in_speech && voice {
        if m.onset_counter + 1 >= m.onset_frames {
            (
                VadSmoothModel {
                    onset_counter: 0,
                    hangover_counter: m.hangover_frames,
                    in_speech: true,
                    ..m
                },
                Some(concat_frames(m.buffer)),
            )
        } else {
            (VadSmoothModel { onset_counter: m.onset_counter + 1, ..m }, None)
        }
    } else if m.in_speech && voice {
        (VadSmoothModel { hangover_counter: m.hangover_frames, ..m }, Some(frame))
    } else if m.in_speech && !voice {
        if m.hangover_counter > 0 {
            (
                VadSmoothModel { hangover_counter: (m.hangover_counter - 1) as nat, ..m },
                Some(frame),
            )
        } else {
            (VadSmoothModel { in_speech: false, ..m }, None)
        }
    } else {
        (VadSmoothModel { onset_counter: 0, ..m }, None)
    }
}

/// One full step: buffer the frame, then apply the transition table.
pub open spec fn vad_step(m: VadSmoothModel, frame: Seq<i16>, voice: bool) -> (
    VadSmoothModel,
    Option<Seq<i16>>,
) {
    vad_transition(vad_buffered(m, frame), frame, voice)
}

/// Whether an executable classification result carries exactly the payload of
/// an abstract emission.
pub open spec fn emission_matches(out: VadFrame, e: Option<Seq<i16>>) -> bool {
    match e {
        Some(s) => out matches VadFrame::Speech(p) && p@ == s,
        None => out is Noise,
    }
}

/// The model after a whole sequence of frames with the given raw verdicts.
pub open spec fn vad_run_state(
    m: VadSmoothModel,
    frames: Seq<Seq<i16>>,
    verdicts: Seq<bool>,
) -> VadSmoothModel
    recommends
        frames.len() == verdicts.len(),
    decreases frames.len(),
{
    if frames.len() == 0 {
        m
    } else {
        vad_run_state(
            vad_step(m, frames.first(), verdicts.first()).0,
            frames.drop_first(),
            verdicts.drop_first(),
        )
    }
}

/// The per-frame emissions over a whole sequence of frames.
pub open spec fn vad_emissions(
    m: VadSmoothModel,
    frames: Seq<Seq<i16>>,
    verdicts: Seq<bool>,
) -> Seq<Option<Seq<i16>>>
    recommends
        frames.len() == verdicts.len(),
    decreases frames.len(),
{
    if frames.len() == 0 {
        Seq::empty()
    } else {
        seq![vad_step(m, frames.first(), verdicts.first()).1] + vad_emissions(
            vad_step(m, frames.first(), verdicts.first()).0,
            frames.drop_first(),
            verdicts.drop_first(),
        )
    }
}

/// All speech emissions over a whole sequence, concatenated in order.
pub open spec fn emitted_samples(
    m: VadSmoothModel,
    frames: Seq<Seq<i16>>,
    verdicts: Seq<bool>,
) -> Seq<i16>
    recommends
        frames.len() == verdicts.len(),
    decreases frames.len(),
{
    if frames.len() == 0 {
        Seq::empty()
    } else {
        emission_payload(vad_step(m, frames.first(), verdicts.first()).1) + emitted_samples(
            vad_step(m, frames.first(), verdicts.first()).0,
            frames.drop_first(),
            verdicts.drop_first(),
        )
    }
}

/// The payload of an emission: the emitted samples, or nothing for noise.
pub open spec fn emission_payload(e: Option<Seq<i16>>) -> Seq<i16> {
    match e {
        Some(s) => s,
        None => Seq::empty(),
    }
}

/// The abstract state a reset returns to: fresh, with the parameters kept.
pub open spec fn reset_model(m: VadSmoothModel) -> VadSmoothModel {
    fresh_vad_model(m.prefill_frames, m.hangover_frames, m.onset_frames)
}

/// Append a copy of `src` to `dst`.
pub(crate) fn copy_samples(src: &Vec<i16>, dst: &mut Vec<i16>)
    ensures
        final(dst)@ == old(dst)@ + src@,
{
    let mut i: usize = 0;
    while i < src.len()
        invariant
            i <= src@.len(),
            dst@ == old(dst)@ + src@.take(i as int),
        decreases src@.len() - i,
    {
        proof {
            assert(src@.take(i + 1).drop_last() == src@.take(i as int));
            assert(old(dst)@ + src@.take(i + 1)
                == (old(dst)@ + src@.take(i as int)).push(src@[i as int]));
        }
        dst.push(src[i]);
        i = i + 1;
    }
    proof {
        assert(src@.take(src@.len() as int) == src@);
    }
}

/// The smoothing decorator around a raw detector.
pub struct SmoothedVad<V> {
    inner_vad: V,
    prefill_frames: usize,
    hangover_frames: usize,
    onset_frames: usize,
    frame_buffer: VecDeque<Vec<i16>>,
    hangover_counter: usize,
    onset_counter: usize,
    in_speech: bool,
}

impl<V> View for SmoothedVad<V> {
    type V = VadSmoothModel;

    closed spec fn view(&self) -> VadSmoothModel {
        VadSmoothModel {
            prefill_frames: self.prefill_frames as nat,
            hangover_frames: self.hangover_frames as nat,
            onset_frames: self.onset_frames as nat,
            buffer: self.frame_buffer@.map_values(|f: Vec<i16>| f@),
            onset_counter: self.onset_counter as nat,
            hangover_counter: self.hangover_counter as nat,
            in_speech: self.in_speech,
        }
    }
}

impl<V: VoiceActivityDetector> SmoothedVad<V> {
    /// Wrap `inner_vad` with the given smoothing parameters.
    pub fn new(
        inner_vad: V,
        prefill_frames: usize,
        hangover_frames: usize,
        onset_frames: usize,
    ) -> (r: Self)
        ensures
            r@ == fresh_vad_model(
                prefill_frames as nat,
                hangover_frames as nat,
                onset_frames as nat,
            ),
    {
        let r = SmoothedVad {
            inner_vad,
            prefill_frames,
            hangover_frames,
            onset_frames,
            frame_buffer: VecDeque::new(),
            hangover_counter: 0,
            onset_counter: 0,
            in_speech: false,
        };
        proof {
            assert(r@.buffer =~= Seq::<Seq<i16>>::empty());
        }
        r
    }

    /// Wrap `inner_vad` with defaults suited to speech-to-text: 3 prefill
    /// frames (~90 ms), 10 hangover frames (~300 ms), 2 onset frames (~60 ms).
    pub fn with_defaults(inner_vad: V) -> (r: Self)
        ensures
            r@ == fresh_vad_model(3, 10, 2),
    {
        Self::new(inner_vad, 3, 10, 2)
    }

    /// Push the incoming frame into the bounded history.
    fn buffer_frame(&mut self, frame: &Vec<i16>)
        ensures
            final(self)@ == vad_buffered(old(self)@, frame@),
    {
        let mut frame_copy: Vec<i16> = Vec::new();
        copy_samples(frame, &mut frame_copy);
        self.frame_buffer.push_back(frame_copy);
        let ghost pushed = self.frame_buffer@;
        let ghost cap = old(self)@.prefill_frames + 1;
        proof {
            assert(pushed.map_values(|f: Vec<i16>| f@)
                =~= old(self)@.buffer.push(frame@));
        }
        while self.frame_buffer.len() - 1 > self.prefill_frames
            invariant
                cap == self.prefill_frames as int + 1,
                1 <= self.frame_buffer@.len() <= pushed.len(),
                self.frame_buffer@ == pushed.skip(pushed.len() - self.frame_buffer@.len()),
                self.frame_buffer@.len() >= cap || self.frame_buffer@.len() == pushed.len(),
                self.prefill_frames == old(self).prefill_frames,
                self.hangover_frames == old(self).hangover_frames,
                self.onset_frames == old(self).onset_frames,
                self.onset_counter == old(self).onset_counter,
                self.hangover_counter == old(self).hangover_counter,
                self.in_speech == old(self).in_speech,
            decreases self.frame_buffer@.len(),
        {
            let dropped = self.frame_buffer.pop_front();
            proof {
                assert(dropped is Some);
                assert(self.frame_buffer@
                    =~= pushed.skip(pushed.len() - self.frame_buffer@.len()));
            }
        }
        proof {
            let b = old(self)@.buffer.push(frame@);
            let kept = self.frame_buffer@;
            if pushed.len() > cap {
                assert(kept.len() == cap);
                assert(kept =~= pushed.skip(pushed.len() - cap));
                assert(kept.map_values(|f: Vec<i16>| f@) =~= b.skip(b.len() - cap));
            } else {
                assert(kept =~= pushed);
                assert(kept.map_values(|f: Vec<i16>| f@) =~= b);
            }
        }
    }

    /// Apply the transition table to an already-buffered frame, given the raw
    /// verdict on that frame.
    fn apply_verdict(&mut self, frame: &Vec<i16>, voice: bool) -> (out: VadFrame)
        ensures
            final(self)@ == vad_transition(old(self)@, frame@, voice).0,
            emission_matches(out, vad_transition(old(self)@, frame@, voice).1),
    {
        if !self.in_speech && voice {
            let reached = self.onset_frames == 0 || self.onset_counter >= self.onset_frames - 1;
            if reached {
                self.in_speech = true;
                self.hangover_counter = self.hangover_frames;
                self.onset_counter = 0;
                let mut samples: Vec<i16> = Vec::new();
                let mut k: usize = 0;
                proof {
                    assert(samples@ =~= concat_frames(self@.buffer.take(0)));
                }
                while k < self.frame_buffer.len()
                    invariant
                        k <= self.frame_buffer@.len(),
                        samples@ == concat_frames(
                            self.frame_buffer@.map_values(|f: Vec<i16>| f@).take(k as int),
                        ),
                    decreases self.frame_buffer@.len() - k,
                {
                    let ghost bufv = self.frame_buffer@.map_values(|f: Vec<i16>| f@);
                    copy_samples(&self.frame_buffer[k], &mut samples);
                    proof {
                        assert(bufv.take(k + 1).drop_last() =~= bufv.take(k as int));
                        assert(bufv.take(k + 1).last() == bufv[k as int]);
                    }
                    k = k + 1;
                }
                proof {
                    let bufv = self.frame_buffer@.map_values(|f: Vec<i16>| f@);
                    assert(bufv.take(bufv.len() as int) == bufv);
                }
                VadFrame::Speech(samples)
            } else {
                self.onset_counter = self.onset_counter + 1;
                VadFrame::Noise
            }
        } else if self.in_speech && voice {
            self.hangover_counter = self.hangover_frames;
            let mut samples: Vec<i16> = Vec::new();
            copy_samples(frame, &mut samples);
            VadFrame::Speech(samples)
        } else if self.in_speech && !voice {
            if self.hangover_counter > 0 {
                self.hangover_counter = self.hangover_counter - 1;
                let mut samples: Vec<i16> = Vec::new();
                copy_samples(frame, &mut samples);
                VadFrame::Speech(samples)
            } else {
                self.in_speech = false;
                VadFrame::Noise
            }
        } else {
            self.onset_counter = 0;
            VadFrame::Noise
        }
    }

    /// One full smoothing step for a frame whose raw verdict is already
    /// known: buffer the frame, apply the transition table, and return the
    /// classification carrying any emitted samples.
    ///
    /// This is the deterministic core of the decorator: the successor state
    /// and the emission are exact functions of the abstract model, the frame
    /// and the verdict.
    pub fn push_frame_with_verdict(&mut self, frame: &Vec<i16>, voice: bool) -> (out: VadFrame)
        ensures
            final(self)@ == vad_step(old(self)@, frame@, voice).0,
            emission_matches(out, vad_step(old(self)@, frame@, voice).1),
    {
        self.buffer_frame(frame);
        self.apply_verdict(frame, voice)
    }

    /// Ask the wrapped raw detector for its verdict on `frame`.  The
    /// smoothing state is untouched; nothing is promised of the verdict
    /// itself, which may depend on the wrapped classifier's own state.
    pub fn raw_verdict(&mut self, frame: &Vec<i16>) -> (r: Result<bool, VadError>)
        ensures
            final(self)@ == old(self)@,
    {
        self.inner_vad.is_voice(frame)
    }
}

impl<V: VoiceActivityDetector> VoiceActivityDetector for SmoothedVad<V> {
    /// Buffer the frame, take the wrapped detector's verdict on it, and apply
    /// the smoothing transition.  On a detector failure the frame has still
    /// been buffered and the error is passed through.
    fn push_frame(&mut self, frame: &Vec<i16>) -> (r: Result<VadFrame, VadError>)
        ensures
            r is Err ==> final(self)@ == vad_buffered(old(self)@, frame@),
            r matches Ok(out) ==> exists|voice: bool|
                final(self)@ == #[trigger] vad_step(old(self)@, frame@, voice).0
                    && emission_matches(out, vad_step(old(self)@, frame@, voice).1),
    {
        self.buffer_frame(frame);
        match self.inner_vad.is_voice(frame) {
            Ok(voice) => {
                let out = self.apply_verdict(frame, voice);
                proof {
                    assert(final(self)@ == vad_step(old(self)@, frame@, voice).0);
                }
                Ok(out)
            },
            Err(e) => Err(e),
        }
    }

    /// Clear the history and all counters, returning to the not-in-speech
    /// state.  The wrapped raw detector keeps its own state, as the decorator
    /// only owns the smoothing state.
    fn reset(&mut self)
        ensures
            final(self)@ == fresh_vad_model(
                old(self)@.prefill_frames,
                old(self)@.hangover_frames,
                old(self)@.onset_frames,
            ),
    {
        self.frame_buffer.clear();
        self.hangover_counter = 0;
        self.onset_counter = 0;
        self.in_speech = false;
        proof {
            assert(self@.buffer =~= Seq::<Seq<i16>>::empty());
        }
    }
}

/// The emissions sequence has one entry per frame.
pub proof fn lemma_vad_emissions_len(m: VadSmoothModel, frames: Seq<Seq<i16>>, verdicts: Seq<bool>)
    ensures
        vad_emissions(m, frames, verdicts).len() == frames.len(),
    decreases frames.len(),
{
    if frames.len() > 0 {
        lemma_vad_emissions_len(
            vad_step(m, frames.first(), verdicts.first()).0,
            frames.drop_first(),
            verdicts.drop_first(),
        );
    }
}

/// Emission `i` is the step emission from the state reached after the first
/// `i` frames.
pub proof fn lemma_vad_emissions_index(
    m: VadSmoothModel,
    frames: Seq<Seq<i16>>,
    verdicts: Seq<bool>,
    i: int,
)
    requires
        frames.len() == verdicts.len(),
        0 <= i < frames.len(),
    ensures
        vad_emissions(m, frames, verdicts).len() == frames.len(),
        vad_emissions(m, frames, verdicts)[i] == vad_step(
            vad_run_state(m, frames.take(i), verdicts.take(i)),
            frames[i],
            verdicts[i],
        ).1,
    decreases i,
{
    lemma_vad_emissions_len(m, frames, verdicts);
    let m1 = vad_step(m, frames.first(), verdicts.first()).0;
    if i == 0 {
        assert(frames.take(0) =~= Seq::<Seq<i16>>::empty());
        assert(verdicts.take(0) =~= Seq::<bool>::empty());
    } else {
        lemma_vad_emissions_index(m1, frames.drop_first(), verdicts.drop_first(), i - 1);
        assert(frames.take(i).drop_first() =~= frames.drop_first().take(i - 1));
        assert(verdicts.take(i).drop_first() =~= verdicts.drop_first().take(i - 1));
        assert(frames.take(i).first() == frames.first());
        assert(frames.drop_first()[i - 1] == frames[i]);
        assert(verdicts.drop_first()[i - 1] == verdicts[i]);
        lemma_vad_emissions_len(m1, frames.drop_first(), verdicts.drop_first());
        assert(vad_emissions(m, frames, verdicts)[i]
            == vad_emissions(m1, frames.drop_first(), verdicts.drop_first())[i - 1]);
    }
}

/// Appending one more frame to a run extends the state by one step and the
/// emitted samples by that step's payload.
pub proof fn lemma_run_snoc(
    m: VadSmoothModel,
    frames: Seq<Seq<i16>>,
    verdicts: Seq<bool>,
    f: Seq<i16>,
    v: bool,
)
    requires
        frames.len() == verdicts.len(),
    ensures
        vad_run_state(m, frames.push(f), verdicts.push(v)) == vad_step(
            vad_run_state(m, frames, verdicts),
            f,
            v,
        ).0,
        emitted_samples(m, frames.push(f), verdicts.push(v)) == emitted_samples(
            m,
            frames,
            verdicts,
        ) + emission_payload(vad_step(vad_run_state(m, frames, verdicts), f, v).1),
    decreases frames.len(),
{
    if frames.len() == 0 {
        assert(frames.push(f).drop_first() =~= Seq::<Seq<i16>>::empty());
        assert(verdicts.push(v).drop_first() =~= Seq::<bool>::empty());
        assert(frames.push(f).first() == f);
        assert(verdicts.push(v).first() == v);
        let m1 = vad_step(m, f, v).0;
        assert(vad_run_state(m1, frames.push(f).drop_first(), verdicts.push(v).drop_first())
            == m1);
        assert(emitted_samples(m1, frames.push(f).drop_first(), verdicts.push(v).drop_first())
            =~= Seq::<i16>::empty());
        assert(emitted_samples(m, frames.push(f), verdicts.push(v))
            =~= emission_payload(vad_step(m, f, v).1));
        assert(emitted_samples(m, frames, verdicts) =~= Seq::<i16>::empty());
        assert(emitted_samples(m, frames, verdicts) + emission_payload(vad_step(m, f, v).1)
            =~= emission_payload(vad_step(m, f, v).1));
    } else {
        let m1 = vad_step(m, frames.first(), verdicts.first()).0;
        lemma_run_snoc(m1, frames.drop_first(), verdicts.drop_first(), f, v);
        assert(frames.push(f).first() == frames.first());
        assert(verdicts.push(v).first() == verdicts.first());
        assert(frames.push(f).drop_first() =~= frames.drop_first().push(f));
        assert(verdicts.push(v).drop_first() =~= verdicts.drop_first().push(v));
        assert(emitted_samples(m, frames.push(f), verdicts.push(v))
            =~= emitted_samples(m, frames, verdicts) + emission_payload(
                vad_step(vad_run_state(m, frames, verdicts), f, v).1));
    }
}

/// The concatenation of frames of a uniform size has their total size.
pub proof fn lemma_concat_uniform_len(frames: Seq<Seq<i16>>, frame_size: nat)
    requires
        forall|i: int| 0 <= i < frames.len() ==> frames[i].len() == frame_size,
    ensures
        concat_frames(frames).len() == frames.len() * frame_size,
    decreases frames.len(),
{
    if frames.len() == 0 {
        assert(frames.len() * frame_size == 0) by (nonlinear_arith)
            requires frames.len() == 0;
    } else {
        lemma_concat_uniform_len(frames.drop_last(), frame_size);
        assert((frames.len() - 1) * frame_size + frame_size == frames.len() * frame_size)
            by (nonlinear_arith);
    }
}

/// While not in speech and below the onset threshold, consecutive raw-speech
/// frames only advance the onset counter: nothing is emitted and the state
/// stays out of speech.
proof fn lemma_onset_progress(m: VadSmoothModel, frames: Seq<Seq<i16>>, verdicts: Seq<bool>)
    requires
        frames.len() == verdicts.len(),
        forall|i: int| 0 <= i < verdicts.len() ==> verdicts[i],
        !m.in_speech,
        m.onset_counter + frames.len() < m.onset_frames,
    ensures
        forall|i: int|
            0 <= i < frames.len() ==> vad_emissions(m, frames, verdicts)[i] is None,
        !vad_run_state(m, frames, verdicts).in_speech,
        vad_run_state(m, frames, verdicts).onset_counter == m.onset_counter + frames.len(),
        vad_run_state(m, frames, verdicts).onset_frames == m.onset_frames,
        vad_run_state(m, frames, verdicts).prefill_frames == m.prefill_frames,
        vad_run_state(m, frames, verdicts).hangover_frames == m.hangover_frames,
        vad_run_state(m, frames, verdicts).hangover_counter == m.hangover_counter,
    decreases frames.len(),
{
    lemma_vad_emissions_len(m, frames, verdicts);
    if frames.len() > 0 {
        let m1 = vad_step(m, frames.first(), verdicts.first()).0;
        lemma_onset_progress(m1, frames.drop_first(), verdicts.drop_first());
        lemma_vad_emissions_len(m1, frames.drop_first(), verdicts.drop_first());
    }
}

/// The history length after a run: one frame is buffered per step and at most
/// `prefill_frames + 1` are kept; when every incoming frame has a uniform
/// size, so does every buffered frame.
proof fn lemma_buffer_evolution(
    m: VadSmoothModel,
    frames: Seq<Seq<i16>>,
    verdicts: Seq<bool>,
    frame_size: nat,
)
    requires
        frames.len() == verdicts.len(),
        m.buffer.len() <= m.prefill_frames + 1,
        forall|i: int| 0 <= i < frames.len() ==> frames[i].len() == frame_size,
        forall|i: int| 0 <= i < m.buffer.len() ==> m.buffer[i].len() == frame_size,
    ensures
        vad_run_state(m, frames, verdicts).buffer.len() == (
            if m.buffer.len() + frames.len() <= m.prefill_frames + 1 {
                (m.buffer.len() + frames.len()) as int
            } else {
                (m.prefill_frames + 1) as int
            }
        ),
        forall|i: int|
            0 <= i < vad_run_state(m, frames, verdicts).buffer.len()
                ==> vad_run_state(m, frames, verdicts).buffer[i].len() == frame_size,
        vad_run_state(m, frames, verdicts).prefill_frames == m.prefill_frames,
    decreases frames.len(),
{
    if frames.len() > 0 {
        let m1 = vad_step(m, frames.first(), verdicts.first()).0;
        assert(m1.buffer == push_bounded(m.buffer, frames.first(), m.prefill_frames + 1));
        lemma_buffer_evolution(m1, frames.drop_first(), verdicts.drop_first(), frame_size);
    }
}

/// Law: feeding fewer than `onset_frames` consecutive speech frames followed
/// by a noise frame never emits speech — the onset is not confirmed, and the
/// noise frame resets the counter.
pub proof fn lemma_onset_not_reached(m: VadSmoothModel, frames: Seq<Seq<i16>>, verdicts: Seq<bool>)
    requires
        m == reset_model(m),
        m.onset_frames >= 1,
        frames.len() == verdicts.len(),
        verdicts.len() == m.onset_frames,
        forall|i: int| 0 <= i < verdicts.len() - 1 ==> verdicts[i],
        !verdicts[verdicts.len() - 1],
    ensures
        forall|i: int|
            0 <= i < frames.len() ==> vad_emissions(m, frames, verdicts)[i] is None,
{
    lemma_vad_emissions_len(m, frames, verdicts);
    let n = frames.len() as int;
    assert forall|i: int| 0 <= i < n implies vad_emissions(m, frames, verdicts)[i] is None by {
        lemma_vad_emissions_index(m, frames, verdicts, i);
        assert(verdicts.take(i).len() == i);
        assert(forall|j: int| 0 <= j < i ==> verdicts.take(i)[j]);
        lemma_onset_progress(m, frames.take(i), verdicts.take(i));
        let s = vad_run_state(m, frames.take(i), verdicts.take(i));
        if i < n - 1 {
            assert(verdicts[i]);
            assert(s.onset_counter + 1 < s.onset_frames);
        } else {
            assert(!verdicts[i]);
        }
    }
}

/// Law: feeding exactly `onset_frames` consecutive speech frames emits speech
/// on the last of them, and — provided at least `prefill_frames + 1` frames
/// had been fed by then — the emission replays `(prefill_frames + 1)` frames'
/// worth of samples.
pub proof fn lemma_onset_confirmed(
    m: VadSmoothModel,
    frames: Seq<Seq<i16>>,
    verdicts: Seq<bool>,
    frame_size: nat,
)
    requires
        m == reset_model(m),
        m.onset_frames >= 1,
        m.onset_frames >= m.prefill_frames + 1,
        frames.len() == verdicts.len(),
        verdicts.len() == m.onset_frames,
        forall|i: int| 0 <= i < verdicts.len() ==> verdicts[i],
        forall|i: int| 0 <= i < frames.len() ==> frames[i].len() == frame_size,
    ensures
        vad_emissions(m, frames, verdicts)[frames.len() - 1] matches Some(s)
            && s.len() == (m.prefill_frames + 1) * frame_size,
        forall|i: int|
            0 <= i < frames.len() - 1 ==> vad_emissions(m, frames, verdicts)[i] is None,
{
    lemma_vad_emissions_len(m, frames, verdicts);
    let n = frames.len() as int;
    assert forall|i: int| 0 <= i < n - 1 implies vad_emissions(m, frames, verdicts)[i] is None by {
        lemma_vad_emissions_index(m, frames, verdicts, i);
        lemma_onset_progress(m, frames.take(i), verdicts.take(i));
        let s = vad_run_state(m, frames.take(i), verdicts.take(i));
        assert(s.onset_counter + 1 < s.onset_frames);
    }
    lemma_vad_emissions_index(m, frames, verdicts, n - 1);
    lemma_onset_progress(m, frames.take(n - 1), verdicts.take(n - 1));
    lemma_buffer_evolution(m, frames.take(n - 1), verdicts.take(n - 1), frame_size);
    let s = vad_run_state(m, frames.take(n - 1), verdicts.take(n - 1));
    assert(s.onset_counter == n - 1);
    assert(s.onset_counter + 1 >= s.onset_frames);
    assert(s.buffer.len() == (
        if n - 1 <= m.prefill_frames + 1 {
            n - 1
        } else {
            (m.prefill_frames + 1) as int
        }
    ));
    let sb = vad_buffered(s, frames[n - 1]);
    assert(sb.buffer.len() == (m.prefill_frames + 1) as int);
    assert(forall|i: int| 0 <= i < sb.buffer.len() ==> sb.buffer[i].len() == frame_size);
    lemma_concat_uniform_len(sb.buffer, frame_size);
}

/// Law: after entering speech, `hangover_frames` noise frames still emit
/// speech (the hangover tail, each carrying its own frame), and one further
/// noise frame emits noise.
pub proof fn lemma_hangover(m: VadSmoothModel, frames: Seq<Seq<i16>>, verdicts: Seq<bool>)
    requires
        m.in_speech,
        m.hangover_counter == m.hangover_frames,
        frames.len() == verdicts.len(),
        frames.len() == m.hangover_frames + 1,
        forall|i: int| 0 <= i < verdicts.len() ==> !verdicts[i],
    ensures
        forall|i: int|
            0 <= i < frames.len() - 1 ==> vad_emissions(m, frames, verdicts)[i] == Some(frames[i]),
        vad_emissions(m, frames, verdicts)[frames.len() - 1] is None,
{
    lemma_vad_emissions_len(m, frames, verdicts);
    let n = frames.len() as int;
    assert forall|i: int|
        0 <= i < n - 1 implies vad_emissions(m, frames, verdicts)[i] == Some(frames[i]) by {
        lemma_vad_emissions_index(m, frames, verdicts, i);
        lemma_hangover_progress(m, frames.take(i), verdicts.take(i));
        let s = vad_run_state(m, frames.take(i), verdicts.take(i));
        assert(s.hangover_counter == m.hangover_frames - i > 0);
    }
    lemma_vad_emissions_index(m, frames, verdicts, n - 1);
    lemma_hangover_progress(m, frames.take(n - 1), verdicts.take(n - 1));
    let s = vad_run_state(m, frames.take(n - 1), verdicts.take(n - 1));
    assert(s.hangover_counter == 0);
}

/// While in speech with a positive hangover counter, noise frames decrement
/// the counter and keep emitting the incoming frame.
proof fn lemma_hangover_progress(m: VadSmoothModel, frames: Seq<Seq<i16>>, verdicts: Seq<bool>)
    requires
        frames.len() == verdicts.len(),
        forall|i: int| 0 <= i < verdicts.len() ==> !verdicts[i],
        m.in_speech,
        frames.len() <= m.hangover_counter,
    ensures
        forall|i: int|
            0 <= i < frames.len() ==> vad_emissions(m, frames, verdicts)[i] == Some(frames[i]),
        vad_run_state(m, frames, verdicts).in_speech,
        vad_run_state(m, frames, verdicts).hangover_counter == m.hangover_counter - frames.len(),
        vad_run_state(m, frames, verdicts).hangover_frames == m.hangover_frames,
        vad_run_state(m, frames, verdicts).onset_frames == m.onset_frames,
        vad_run_state(m, frames, verdicts).prefill_frames == m.prefill_frames,
        vad_run_state(m, frames, verdicts).onset_counter == m.onset_counter,
    decreases frames.len(),
{
    lemma_vad_emissions_len(m, frames, verdicts);
    if frames.len() > 0 {
        let m1 = vad_step(m, frames.first(), verdicts.first()).0;
        lemma_hangover_progress(m1, frames.drop_first(), verdicts.drop_first());
        lemma_vad_emissions_len(m1, frames.drop_first(), verdicts.drop_first());
        assert forall|i: int|
            0 <= i < frames.len() implies vad_emissions(m, frames, verdicts)[i] == Some(
            frames[i],
        ) by {
            if i > 0 {
                assert(vad_emissions(m, frames, verdicts)[i]
                    == vad_emissions(m1, frames.drop_first(), verdicts.drop_first())[i - 1]);
                assert(frames.drop_first()[i - 1] == frames[i]);
            }
        }
    }
}

/// Law: a reset detector behaves exactly like a freshly constructed one with
/// the same parameters — both start from the same abstract state, and every
/// later state and emission is a function of that state alone.
pub proof fn lemma_reset_equivalent(m: VadSmoothModel, frames: Seq<Seq<i16>>, verdicts: Seq<bool>)
    ensures
        vad_run_state(reset_model(m), frames, verdicts) == vad_run_state(
            fresh_vad_model(m.prefill_frames, m.hangover_frames, m.onset_frames),
            frames,
            verdicts,
        ),
        vad_emissions(reset_model(m), frames, verdicts) == vad_emissions(
            fresh_vad_model(m.prefill_frames, m.hangover_frames, m.onset_frames),
            frames,
            verdicts,
        ),
{
}

} // verus!
