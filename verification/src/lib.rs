//! A verified core for push-to-talk speech capture and transcription.
//!
//! The library owns the signal and state logic of a recording pipeline:
//! converting interleaved hardware blocks to a mono sample stream, buffering
//! it under command control, negotiating a stream configuration, resampling
//! to the canonical 16 kHz rate, smoothing a raw voice-activity classifier
//! with prefill, onset debounce and hangover, encoding samples as a WAV
//! container, and the orchestrator state machine that ties a capture cycle to
//! a transcription backend.
//!
//! Samples are 16-bit PCM throughout.  The platform pieces — the hardware
//! stream and its worker thread, the neural classifier, the network and
//! local inference backends — are injected through the interfaces in `vad`
//! and `manager`; the host performs them, this crate decides everything
//! about them.

use vstd::prelude::*;

pub mod audio_feedback;
pub mod engine;
pub mod manager;
pub mod models;
pub mod overlay;
pub mod resample;
pub mod samples;
pub mod settings;
pub mod smoothed;
pub mod tray;
pub mod vad;
pub mod wav;

verus! {

/// Number of samples in one detector frame: 30 ms at the canonical 16 kHz rate.
pub const VAD_FRAME_SAMPLES: usize = 480;

/// The canonical sample rate that the detector and the backends expect.
pub const CANONICAL_SAMPLE_RATE: u32 = 16000;

} // verus!
