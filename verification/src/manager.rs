//! The recording orchestrator: a small state machine (`Idle → Recording →
//! Transcribing → Idle`) that coordinates the capture engine, resampling to
//! the canonical rate, voice-activity filtering and dispatch to a
//! transcription backend.
//!
//! The backends and the raw detector are injected capabilities: the host
//! passes them in, the orchestrator decides when and with what to call them.
//! Every state change and every error condition is specified exactly over the
//! abstract `ManagerModel`; what a backend answers is its own affair.

use vstd::prelude::*;

use crate::engine::{delivered, recorder_wf, AudioRecorder, NegotiatedConfig, RecorderModel};
use crate::models::{lemma_find_model_skip, spec_find_model, EngineType, ModelInfo};
use crate::resample::{resample_to_16k, resampled_len, spec_resample};
use crate::smoothed::{copy_samples, emitted_samples, lemma_run_snoc, vad_run_state, SmoothedVad};
use crate::vad::{VadError, VoiceActivityDetector};
use crate::{CANONICAL_SAMPLE_RATE, VAD_FRAME_SAMPLES};

verus! {

/// The orchestrator's authoritative state.
#[derive(Clone, Copy, Debug, PartialEq, Eq, Structural)]
pub enum ManagerState {
    Idle,
    Recording,
    Transcribing,
}

/// Failures of the orchestrator.
#[derive(Debug, Clone, PartialEq, Eq)]
pub enum OrchestratorError {
    /// `stop_and_transcribe` was called while not recording.
    NotRecording,
    /// The state said recording but no capture engine was present.
    RecorderNotInitialized,
    /// The capture buffer came back empty.
    NoAudioRecorded,
    /// The selected model is not in the catalog.
    ModelNotFound,
    /// The selected model is local and has not been downloaded.
    ModelNotDownloaded,
    /// Voice-activity filtering removed all audio.
    NoSpeechDetected,
    /// The transcription backend failed; carries its message.
    Backend(String),
}

/// A transcription backend: turns captured samples at a given rate into
/// text.  The two implementations — the hosted API and the local inference
/// engine — live with the host; nothing is promised of their answers.
pub trait TranscriptionBackend {
    /// Transcribe mono 16-bit samples at `sample_rate` Hz, optionally fixing
    /// the language.
    fn transcribe(&mut self, samples: &Vec<i16>, sample_rate: u32, language: Option<&str>) -> (r:
        Result<String, String>);
}

/// What a validated model switch requires of the host.
#[derive(Debug, Clone, Copy, PartialEq, Eq, Structural)]
pub enum ModelSwitchAction {
    /// Load the selected local model before committing.
    LoadModel,
    /// The selected local model is already loaded; just commit.
    AlreadyLoaded,
    /// Switching to the cloud: unload any loaded local model, then commit.
    UnloadForCloud,
}

/// Abstract state of the orchestrator.
pub struct ManagerModel {
    /// The authoritative lifecycle state.
    pub state: ManagerState,
    /// The capture engine, present exactly while a recording is under way.
    pub recorder: Option<RecorderModel>,
    /// The known models.
    pub catalog: Seq<ModelInfo>,
    /// The id of the selected transcription model.
    pub selected_model: Seq<char>,
    /// Whether voice-activity filtering is applied before transcription.
    pub vad_enabled: bool,
}

/// Validity of an orchestrator state: any present capture engine is open and
/// has a valid configuration.
pub open spec fn manager_wf(m: ManagerModel) -> bool {
    m.recorder matches Some(rec) ==> (recorder_wf(rec) && rec.opened)
}

/// The captured samples brought to the canonical 16 kHz rate: resampled when
/// the engine ran at another rate, untouched otherwise.
pub open spec fn prepared_samples(rec: RecorderModel) -> Seq<i16> {
    if rec.sample_rate != 16000 {
        spec_resample(rec.buffer, rec.sample_rate as int)
    } else {
        rec.buffer
    }
}

/// Number of detector frames a sample stream is cut into: one per started
/// group of `VAD_FRAME_SAMPLES` samples.
pub open spec fn num_frames(len: int) -> int {
    len / 480 + if len % 480 == 0 {
        0int
    } else {
        1int
    }
}

/// Detector frame `k` of a stream: the samples of its group, zero-padded at
/// the end of the stream to the full frame size.
pub open spec fn frame_at(samples: Seq<i16>, k: int) -> Seq<i16> {
    let stop = if (k + 1) * 480 <= samples.len() {
        (k + 1) * 480
    } else {
        samples.len() as int
    };
    let chunk = samples.subrange(k * 480, stop);
    chunk + Seq::new((480 - chunk.len()) as nat, |i: int| 0i16)
}

/// The stream cut into zero-padded detector frames.
pub open spec fn chunked_frames(samples: Seq<i16>) -> Seq<Seq<i16>> {
    Seq::new(num_frames(samples.len() as int) as nat, |k: int| frame_at(samples, k))
}

/// Filter a sample stream through a smoothing detector: the stream is cut
/// into zero-padded frames, each frame is classified by the wrapped raw
/// detector and smoothed, and the speech emissions are concatenated.
///
/// On success the output is exactly the emissions of the smoothing machine
/// over the frames under the raw verdicts the wrapped detector gave; a
/// detector failure is passed through (the caller falls back to the
/// unfiltered stream).
pub fn filter_with_vad<V: VoiceActivityDetector>(
    samples: &Vec<i16>,
    vad: &mut SmoothedVad<V>,
) -> (r: Result<Vec<i16>, VadError>)
    ensures
        r matches Ok(out) ==> exists|verdicts: Seq<bool>|
            {
                &&& verdicts.len() == chunked_frames(samples@).len()
                &&& out@ == #[trigger] emitted_samples(old(vad)@, chunked_frames(samples@), verdicts)
                &&& final(vad)@ == vad_run_state(old(vad)@, chunked_frames(samples@), verdicts)
            },
        samples@.len() == 0 ==> (r matches Ok(out) && out@ == Seq::<i16>::empty() && final(vad)@
            == old(vad)@),
        r is Err ==> exists|verdicts: Seq<bool>|
            {
                &&& verdicts.len() <= chunked_frames(samples@).len()
                &&& final(vad)@ == #[trigger] vad_run_state(
                    old(vad)@,
                    chunked_frames(samples@).take(verdicts.len() as int),
                    verdicts,
                )
            },
{
    let len: usize = samples.len();
    let nf: usize = len / VAD_FRAME_SAMPLES + (if len % VAD_FRAME_SAMPLES == 0 {
        0
    } else {
        1
    });
    let ghost all_frames = chunked_frames(samples@);
    let mut out: Vec<i16> = Vec::new();
    let ghost mut verdicts: Seq<bool> = Seq::empty();
    let mut k: usize = 0;
    proof {
        assert(all_frames.len() == nf);
        assert(all_frames.take(0) =~= Seq::<Seq<i16>>::empty());
        assert(verdicts.take(0) =~= Seq::<bool>::empty());
    }
    while k < nf
        invariant
            nf == num_frames(samples@.len() as int),
            len == samples@.len(),
            all_frames == chunked_frames(samples@),
            k <= nf,
            verdicts.len() == k,
            out@ == emitted_samples(old(vad)@, all_frames.take(k as int), verdicts),
            vad@ == vad_run_state(old(vad)@, all_frames.take(k as int), verdicts),
        decreases nf - k,
    {
        proof {
            vstd::arithmetic::div_mod::lemma_fundamental_div_mod(len as int, 480);
            assert(k * 480 <= (nf - 1) * 480) by (nonlinear_arith)
                requires k <= nf - 1;
            assert((nf - 1) * 480 < len) by (nonlinear_arith)
                requires nf - 1 <= len as int / 480, 480 * (len as int / 480) <= len,
                    len as int % 480 == 0 ==> nf == len as int / 480,
                    len as int % 480 != 0 ==> nf == len as int / 480 + 1,
                    len > 0 || nf == 0;
        }
        let start: usize = k * VAD_FRAME_SAMPLES;
        let stop: usize = if len - start >= VAD_FRAME_SAMPLES {
            start + VAD_FRAME_SAMPLES
        } else {
            len
        };
        let mut frame: Vec<i16> = Vec::new();
        let mut j: usize = start;
        while j < stop
            invariant
                start <= j <= stop <= len,
                len == samples@.len(),
                frame@ == samples@.subrange(start as int, j as int),
            decreases stop - j,
        {
            proof {
                assert(samples@.subrange(start as int, j + 1).drop_last()
                    == samples@.subrange(start as int, j as int));
            }
            frame.push(samples[j]);
            j = j + 1;
        }
        let ghost chunk = samples@.subrange(start as int, stop as int);
        while frame.len() < VAD_FRAME_SAMPLES
            invariant
                chunk.len() <= frame@.len() <= 480,
                frame@ == chunk + Seq::new((frame@.len() - chunk.len()) as nat, |i: int| 0i16),
            decreases 480 - frame@.len(),
        {
            proof {
                let pad = Seq::new((frame@.len() - chunk.len()) as nat, |i: int| 0i16);
                assert((chunk + pad).push(0i16) =~= chunk + Seq::new(
                    (frame@.len() + 1 - chunk.len()) as nat,
                    |i: int| 0i16,
                ));
            }
            frame.push(0i16);
        }
        proof {
            assert((k + 1) * 480 == k * 480 + 480) by (nonlinear_arith);
            assert(frame@ =~= frame_at(samples@, k as int));
            assert(all_frames[k as int] == frame_at(samples@, k as int));
        }
        let verdict = match vad.raw_verdict(&frame) {
            Ok(v) => v,
            Err(e) => {
                return Err(e);
            },
        };
        let emitted = vad.push_frame_with_verdict(&frame, verdict);
        proof {
            lemma_run_snoc(
                old(vad)@,
                all_frames.take(k as int),
                verdicts,
                frame@,
                verdict,
            );
            assert(all_frames.take(k as int).push(frame@) =~= all_frames.take(k + 1));
        }
        match emitted {
            crate::vad::VadFrame::Speech(payload) => {
                copy_samples(&payload, &mut out);
            },
            crate::vad::VadFrame::Noise => {},
        }
        proof {
            verdicts = verdicts.push(verdict);
            assert(out@ =~= emitted_samples(old(vad)@, all_frames.take(k + 1), verdicts));
        }
        k = k + 1;
    }
    proof {
        assert(all_frames.take(nf as int) == all_frames);
    }
    Ok(out)
}

/// The recording orchestrator.
pub struct RecordingManager {
    state: ManagerState,
    recorder: Option<AudioRecorder>,
    catalog: Vec<ModelInfo>,
    selected_model: String,
    vad_enabled: bool,
}

impl View for RecordingManager {
    type V = ManagerModel;

    closed spec fn view(&self) -> ManagerModel {
        ManagerModel {
            state: self.state,
            recorder: match self.recorder {
                Some(ref rec) => Some(rec@),
                None => None,
            },
            catalog: self.catalog@,
            selected_model: self.selected_model@,
            vad_enabled: self.vad_enabled,
        }
    }
}

impl RecordingManager {
    /// A fresh orchestrator: idle, no capture engine, the cloud model
    /// selected, voice-activity filtering enabled.
    pub fn new(catalog: Vec<ModelInfo>) -> (r: Self)
        ensures
            r@ == (ManagerModel {
                state: ManagerState::Idle,
                recorder: None,
                catalog: catalog@,
                selected_model: "cloud"@,
                vad_enabled: true,
            }),
            manager_wf(r@),
    {
        RecordingManager {
            state: ManagerState::Idle,
            recorder: None,
            catalog,
            selected_model: "cloud".to_owned(),
            vad_enabled: true,
        }
    }

    /// The current lifecycle state.
    pub fn get_state(&self) -> (r: ManagerState)
        ensures
            r == self@.state,
    {
        self.state
    }

    /// The id of the selected transcription model.
    pub fn get_selected_model(&self) -> (r: String)
        ensures
            r@ == self@.selected_model,
    {
        self.selected_model.clone()
    }

    /// Whether voice-activity filtering is applied before transcription.
    pub fn is_vad_enabled(&self) -> (r: bool)
        ensures
            r == self@.vad_enabled,
    {
        self.vad_enabled
    }

    /// Enable or disable voice-activity filtering.
    pub fn set_vad_enabled(&mut self, enabled: bool)
        ensures
            final(self)@ == (ManagerModel { vad_enabled: enabled, ..old(self)@ }),
    {
        self.vad_enabled = enabled;
    }

    /// Replace the model catalog (the host refreshes it from its registry).
    pub fn set_catalog(&mut self, catalog: Vec<ModelInfo>)
        ensures
            final(self)@ == (ManagerModel { catalog: catalog@, ..old(self)@ }),
    {
        self.catalog = catalog;
    }

    /// All models the catalog holds, in catalog order.
    pub fn get_available_models(&self) -> (r: Vec<ModelInfo>)
        ensures
            r@ == self@.catalog,
    {
        let mut models: Vec<ModelInfo> = Vec::new();
        let mut i: usize = 0;
        while i < self.catalog.len()
            invariant
                i <= self.catalog@.len(),
                models@ == self.catalog@.take(i as int),
            decreases self.catalog@.len() - i,
        {
            proof {
                assert(self.catalog@.take(i + 1).drop_last() == self.catalog@.take(i as int));
            }
            models.push(self.catalog[i].clone());
            i = i + 1;
        }
        proof {
            assert(self.catalog@.take(self.catalog@.len() as int) == self.catalog@);
        }
        models
    }

    /// Whether the model with this id is downloaded; false for an unknown id.
    pub fn is_model_downloaded(&self, model_id: &str) -> (r: bool)
        ensures
            r == match spec_find_model(self@.catalog, model_id@) {
                Some(info) => info.is_downloaded,
                None => false,
            },
    {
        match self.get_model_info(model_id) {
            Some(info) => info.is_downloaded,
            None => false,
        }
    }

    /// Look a model up by id: the first catalog entry with that id.
    pub fn get_model_info(&self, model_id: &str) -> (r: Option<ModelInfo>)
        ensures
            r == spec_find_model(self@.catalog, model_id@),
    {
        let key: String = model_id.to_owned();
        let mut i: usize = 0;
        while i < self.catalog.len()
            invariant
                i <= self.catalog@.len(),
                key@ == model_id@,
                forall|j: int| 0 <= j < i ==> self.catalog@[j].id@ != model_id@,
            decreases self.catalog@.len() - i,
        {
            if self.catalog[i].id == key {
                proof {
                    lemma_find_model_skip(self.catalog@, model_id@, i as int);
                    assert(self.catalog@.skip(i as int).first() == self.catalog@[i as int]);
                }
                return Some(self.catalog[i].clone());
            }
            i = i + 1;
        }
        proof {
            lemma_find_model_skip(self.catalog@, model_id@, self.catalog@.len() as int);
            assert(self.catalog@.skip(self.catalog@.len() as int) =~= Seq::<ModelInfo>::empty());
        }
        None
    }

    /// Validate a model switch and say what side effect the host must perform
    /// before committing it: an unknown id is rejected, a local model must be
    /// downloaded, a local model not yet loaded must be loaded, and a switch
    /// to the cloud unloads any loaded local model.
    ///
    /// `current_local_model` is the id of the model the host's local engine
    /// has loaded, if any.
    pub fn plan_model_switch(&self, model_id: &str, current_local_model: Option<&String>) -> (r:
        Result<ModelSwitchAction, OrchestratorError>)
        ensures
            spec_find_model(self@.catalog, model_id@) is None <==> (r matches Err(e) && e
                == OrchestratorError::ModelNotFound),
            spec_find_model(self@.catalog, model_id@) matches Some(info) ==> {
                &&& (info.engine_type != EngineType::Cloud && !info.is_downloaded) <==> (
                r matches Err(e) && e == OrchestratorError::ModelNotDownloaded)
                &&& info.engine_type == EngineType::Cloud ==> r == Ok::<_, OrchestratorError>(
                    ModelSwitchAction::UnloadForCloud,
                )
                &&& (info.engine_type != EngineType::Cloud && info.is_downloaded) ==> r == Ok::<
                    _,
                    OrchestratorError,
                >(
                    if current_local_model matches Some(l) && l@ == model_id@ {
                        ModelSwitchAction::AlreadyLoaded
                    } else {
                        ModelSwitchAction::LoadModel
                    },
                )
            },
    {
        let info = match self.get_model_info(model_id) {
            Some(info) => info,
            None => {
                return Err(OrchestratorError::ModelNotFound);
            },
        };
        if matches!(info.engine_type, EngineType::Cloud) {
            Ok(ModelSwitchAction::UnloadForCloud)
        } else if !info.is_downloaded {
            Err(OrchestratorError::ModelNotDownloaded)
        } else {
            let key: String = model_id.to_owned();
            let already = match current_local_model {
                Some(l) => *l == key,
                None => false,
            };
            if already {
                Ok(ModelSwitchAction::AlreadyLoaded)
            } else {
                Ok(ModelSwitchAction::LoadModel)
            }
        }
    }

    /// Record `model_id` as the selected model.  The host calls this after
    /// performing the side effect that `plan_model_switch` named; on a failed
    /// load it keeps the previous selection by not committing.
    pub fn commit_model_switch(&mut self, model_id: &str)
        ensures
            final(self)@ == (ManagerModel { selected_model: model_id@, ..old(self)@ }),
    {
        self.selected_model = model_id.to_owned();
    }

    /// Start a recording: when idle, open a capture engine with the given
    /// (already negotiated) configuration and start it.  When a cycle is
    /// already running, this is a soft rejection: nothing changes and no
    /// error is raised — the host may log a warning.
    pub fn start_recording(&mut self, config: Option<NegotiatedConfig>) -> (r: Result<
        (),
        OrchestratorError,
    >)
        requires
            config matches Some(c) ==> c.channels >= 1 && c.sample_rate >= 1,
        ensures
            r is Ok,
            manager_wf(old(self)@) ==> manager_wf(final(self)@),
            old(self)@.state != ManagerState::Idle ==> final(self)@ == old(self)@,
            old(self)@.state == ManagerState::Idle ==> final(self)@ == (ManagerModel {
                state: ManagerState::Recording,
                recorder: Some(
                    RecorderModel {
                        opened: true,
                        recording: true,
                        sample_rate: match config {
                            Some(c) => c.sample_rate,
                            None => 16000u32,
                        },
                        channels: match config {
                            Some(c) => c.channels,
                            None => 1u16,
                        },
                        buffer: Seq::empty(),
                        level_buffer: Seq::empty(),
                    },
                ),
                ..old(self)@
            }),
    {
        if !matches!(self.state, ManagerState::Idle) {
            return Ok(());
        }
        let mut recorder = match AudioRecorder::new() {
            Ok(rec) => rec,
            // The constructor's contract rules an error out.
            Err(_) => unreached(),
        };
        match recorder.open(config) {
            Ok(()) => {},
            // Opening a fresh engine with a valid configuration cannot fail.
            Err(_) => unreached(),
        }
        match recorder.start() {
            Ok(()) => {},
            // The engine was just opened, so starting cannot fail.
            Err(_) => unreached(),
        }
        self.recorder = Some(recorder);
        self.state = ManagerState::Recording;
        Ok(())
    }

    /// Deliver one converted hardware block to the capture engine, as the
    /// stream callback does.  Without an engine (no recording under way) the
    /// block is discarded.
    pub fn deliver_samples(&mut self, block: &Vec<i16>)
        requires
            manager_wf(old(self)@),
        ensures
            manager_wf(final(self)@),
            final(self)@ == (ManagerModel {
                recorder: match old(self)@.recorder {
                    Some(rec) => Some(delivered(rec, block@)),
                    None => None,
                },
                ..old(self)@
            }),
    {
        match &mut self.recorder {
            Some(rec) => {
                rec.deliver_samples(block);
            },
            None => {},
        }
    }

    /// Hand over the samples accumulated for loudness reporting, clearing
    /// that buffer; `None` without an engine.
    pub fn take_level_samples(&mut self) -> (r: Option<Vec<i16>>)
        ensures
            manager_wf(old(self)@) ==> manager_wf(final(self)@),
            match old(self)@.recorder {
                Some(rec) => r matches Some(samples) && samples@ == rec.level_buffer
                    && final(self)@ == (ManagerModel {
                    recorder: Some(RecorderModel { level_buffer: Seq::empty(), ..rec }),
                    ..old(self)@
                }),
                None => r is None && final(self)@ == old(self)@,
            },
    {
        match &mut self.recorder {
            Some(rec) => Some(rec.take_level_samples()),
            None => None,
        }
    }

    /// The state-changing prefix of `stop_and_transcribe`: while recording,
    /// stop the engine, take the captured samples and the negotiated rate,
    /// close and drop the engine, and move to `Transcribing`.  Exactly when
    /// nothing was captured, move straight to `Idle` and fail with
    /// `NoAudioRecorded`.  While not recording, fail with `NotRecording` and
    /// change nothing.  Should the slot hold no engine despite the recording
    /// state, fail with `RecorderNotInitialized` and land in `Idle` — no
    /// failure leaves the state stuck.
    pub fn take_recording(&mut self) -> (r: Result<(Vec<i16>, u32), OrchestratorError>)
        requires
            manager_wf(old(self)@),
        ensures
            manager_wf(final(self)@),
            old(self)@.state != ManagerState::Recording ==> (r matches Err(e) && e
                == OrchestratorError::NotRecording && final(self)@ == old(self)@),
            (old(self)@.state == ManagerState::Recording && old(self)@.recorder is None) ==> (
            r matches Err(e) && e == OrchestratorError::RecorderNotInitialized && final(self)@
                == (ManagerModel { state: ManagerState::Idle, ..old(self)@ })),
            old(self)@.recorder matches Some(rec) ==> (old(self)@.state
                == ManagerState::Recording ==> (if rec.buffer.len() == 0 {
                r matches Err(e) && e == OrchestratorError::NoAudioRecorded && final(self)@ == (
                ManagerModel { state: ManagerState::Idle, recorder: None, ..old(self)@ })
            } else {
                r matches Ok(pair) && pair.0@ == rec.buffer && pair.1 == rec.sample_rate
                    && final(self)@ == (ManagerModel {
                    state: ManagerState::Transcribing,
                    recorder: None,
                    ..old(self)@
                })
            })),
    {
        if !matches!(self.state, ManagerState::Recording) {
            return Err(OrchestratorError::NotRecording);
        }
        let mut recorder = match self.recorder.take() {
            Some(rec) => rec,
            None => {
                // A failure must not leave the state stuck: land in Idle.
                self.state = ManagerState::Idle;
                return Err(OrchestratorError::RecorderNotInitialized);
            },
        };
        let samples = match recorder.stop() {
            Ok(s) => s,
            // A present engine is open by well-formedness, so stopping cannot
            // fail.
            Err(_) => unreached(),
        };
        let sample_rate = recorder.sample_rate();
        let _ = recorder.close();
        if samples.len() == 0 {
            self.state = ManagerState::Idle;
            return Err(OrchestratorError::NoAudioRecorded);
        }
        self.state = ManagerState::Transcribing;
        Ok((samples, sample_rate))
    }

    /// Stop the running capture and transcribe what it caught: take the
    /// captured samples, resample them to 16 kHz if the engine ran at another
    /// rate, filter them through the smoothing detector when filtering is
    /// enabled and a detector is available (a detector failure is non-fatal:
    /// the unfiltered samples are used), and hand the result to the backend
    /// the selected model names.  Whatever happens after the capture was
    /// taken, the orchestrator lands back in `Idle`.
    ///
    /// Errors: `NotRecording` exactly when not in `Recording`;
    /// `NoAudioRecorded` exactly when the capture was empty;
    /// `ModelNotFound` exactly when the selected model is not in the catalog;
    /// `NoSpeechDetected` exactly when the samples left for the backend were
    /// empty — with filtering disabled or unavailable, exactly when the
    /// resampled capture is empty; with filtering applied, exactly when the
    /// smoothing machine kept nothing under the verdicts the detector gave
    /// (after a detector failure, again exactly when the resampled capture
    /// is empty); `Backend` exactly when the backend itself failed.
    pub fn stop_and_transcribe<V: VoiceActivityDetector, C: TranscriptionBackend, L: TranscriptionBackend>(
        &mut self,
        vad: &mut Option<SmoothedVad<V>>,
        cloud: &mut C,
        local: &mut L,
    ) -> (r: Result<String, OrchestratorError>)
        requires
            manager_wf(old(self)@),
            old(self)@.recorder matches Some(rec) ==> resampled_len(
                rec.buffer.len() as int,
                rec.sample_rate as int,
            ) <= usize::MAX,
        ensures
            manager_wf(final(self)@),
            old(self)@.state != ManagerState::Recording ==> (r matches Err(e) && e
                == OrchestratorError::NotRecording && final(self)@ == old(self)@ && *final(vad)
                == *old(vad)),
            (old(self)@.state == ManagerState::Recording && old(self)@.recorder is None) ==> (
            r matches Err(e) && e == OrchestratorError::RecorderNotInitialized && final(self)@
                == (ManagerModel { state: ManagerState::Idle, ..old(self)@ }) && *final(vad)
                == *old(vad)),
            (old(self)@.state == ManagerState::Recording && old(self)@.recorder is Some) ==> (
            final(self)@ == (ManagerModel {
                state: ManagerState::Idle,
                recorder: None,
                ..old(self)@
            })),
            old(self)@.recorder matches Some(rec) ==> (old(self)@.state
                == ManagerState::Recording ==> ((r matches Err(e) && e
                == OrchestratorError::NoAudioRecorded) <==> rec.buffer.len() == 0)),
            old(self)@.recorder matches Some(rec) ==> ((old(self)@.state
                == ManagerState::Recording && rec.buffer.len() > 0) ==> ((r matches Err(e) && e
                == OrchestratorError::ModelNotFound) <==> spec_find_model(
                old(self)@.catalog,
                old(self)@.selected_model,
            ) is None)),
            old(self)@.recorder matches Some(rec) ==> ((old(self)@.state
                == ManagerState::Recording && rec.buffer.len() > 0 && spec_find_model(
                old(self)@.catalog,
                old(self)@.selected_model,
            ) is Some && (!old(self)@.vad_enabled || (*old(vad)) is None)) ==> (
            if prepared_samples(rec).len() == 0 {
                r matches Err(e) && e == OrchestratorError::NoSpeechDetected
            } else {
                r is Ok || r matches Err(OrchestratorError::Backend(_))
            })),
            old(self)@.recorder matches Some(rec) ==> ((*old(vad)) matches Some(v) ==> ((
            old(self)@.state == ManagerState::Recording && rec.buffer.len() > 0 && spec_find_model(
                old(self)@.catalog,
                old(self)@.selected_model,
            ) is Some && old(self)@.vad_enabled) ==> (r is Ok || r matches Err(
                OrchestratorError::NoSpeechDetected,
            ) || r matches Err(OrchestratorError::Backend(_))))),
            old(self)@.recorder matches Some(rec) ==> ((*old(vad)) matches Some(v) ==> ((
            old(self)@.state == ManagerState::Recording && rec.buffer.len() > 0 && spec_find_model(
                old(self)@.catalog,
                old(self)@.selected_model,
            ) is Some && old(self)@.vad_enabled) ==> ((exists|verdicts: Seq<bool>|
                {
                    &&& verdicts.len() == chunked_frames(prepared_samples(rec)).len()
                    &&& ((r matches Err(e) && e == OrchestratorError::NoSpeechDetected)
                        <==> #[trigger] emitted_samples(
                        v@,
                        chunked_frames(prepared_samples(rec)),
                        verdicts,
                    ).len() == 0)
                }) || ((r matches Err(e) && e == OrchestratorError::NoSpeechDetected)
                <==> prepared_samples(rec).len() == 0)))),
            r is Ok ==> (old(self)@.state == ManagerState::Recording && old(self)@.recorder
                is Some),
            old(self)@.recorder matches Some(rec) ==> (r is Ok ==> (rec.buffer.len() > 0
                && spec_find_model(old(self)@.catalog, old(self)@.selected_model) is Some)),
    {
        let (samples, sample_rate) = match self.take_recording() {
            Ok(pair) => pair,
            Err(e) => {
                return Err(e);
            },
        };
        let selected = self.get_selected_model();
        let info = match self.get_model_info(selected.as_str()) {
            Some(info) => info,
            None => {
                self.state = ManagerState::Idle;
                return Err(OrchestratorError::ModelNotFound);
            },
        };
        let ghost recm = match old(self)@.recorder {
            Some(x) => x,
            None => vstd::pervasive::arbitrary(),
        };
        let ghost entry_vad = match *old(vad) {
            Some(x) => x@,
            None => vstd::pervasive::arbitrary(),
        };
        proof {
            assert(samples@ == recm.buffer);
            assert(sample_rate == recm.sample_rate);
        }
        let samples_16k: Vec<i16> = if sample_rate != 16000 {
            resample_to_16k(&samples, sample_rate)
        } else {
            samples
        };
        let ghost prepared = prepared_samples(recm);
        proof {
            assert(samples_16k@ == prepared);
        }
        // When filtering ran to completion, the raw verdicts its detector
        // gave; `None` on the unfiltered paths (filtering off, no detector,
        // or a non-fatal detector failure).
        let ghost mut filter_verdicts: Option<Seq<bool>> = None;
        let filtered: Vec<i16>;
        if self.vad_enabled {
            match vad {
                Some(v) => {
                    let ghost v_pre = v@;
                    proof {
                        assert(v_pre == entry_vad);
                    }
                    match filter_with_vad(&samples_16k, v) {
                        Ok(f) => {
                            proof {
                                let vs = choose|verdicts: Seq<bool>|
                                    {
                                        &&& verdicts.len() == chunked_frames(prepared).len()
                                        &&& f@ == #[trigger] emitted_samples(
                                            entry_vad,
                                            chunked_frames(prepared),
                                            verdicts,
                                        )
                                        &&& v@ == vad_run_state(
                                            entry_vad,
                                            chunked_frames(prepared),
                                            verdicts,
                                        )
                                    };
                                filter_verdicts = Some(vs);
                            }
                            filtered = f;
                        },
                        // A detector failure is non-fatal: proceed unfiltered.
                        Err(_) => {
                            filtered = samples_16k;
                        },
                    }
                },
                None => {
                    filtered = samples_16k;
                },
            }
        } else {
            filtered = samples_16k;
        }
        proof {
            if old(self)@.vad_enabled && (*old(vad)) is Some {
                match filter_verdicts {
                    Some(vs) => {
                        assert(vs.len() == chunked_frames(prepared).len());
                        assert(filtered@ == emitted_samples(
                            entry_vad,
                            chunked_frames(prepared),
                            vs,
                        ));
                    },
                    None => {
                        assert(filtered@ == prepared);
                    },
                }
            } else {
                assert(filtered@ == prepared);
            }
        }
        if filtered.len() == 0 {
            self.state = ManagerState::Idle;
            return Err(OrchestratorError::NoSpeechDetected);
        }
        let outcome = match info.engine_type {
            EngineType::Cloud => cloud.transcribe(&filtered, CANONICAL_SAMPLE_RATE, None),
            EngineType::Parakeet => local.transcribe(&filtered, CANONICAL_SAMPLE_RATE, None),
        };
        self.state = ManagerState::Idle;
        match outcome {
            Ok(text) => Ok(text),
            Err(message) => Err(OrchestratorError::Backend(message)),
        }
    }

    /// Best-effort cancellation, valid in any state: stop and close any
    /// active capture engine, discard buffered audio, and force `Idle`.
    /// Never fails.
    pub fn cancel(&mut self)
        ensures
            manager_wf(final(self)@),
            final(self)@ == (ManagerModel {
                state: ManagerState::Idle,
                recorder: None,
                ..old(self)@
            }),
    {
        match &mut self.recorder {
            Some(rec) => {
                let _ = rec.stop();
                let _ = rec.close();
            },
            None => {},
        }
        self.recorder = None;
        self.state = ManagerState::Idle;
    }
}

} // verus!
