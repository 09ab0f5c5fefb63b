//! Voice activity detection: the per-frame classification result, the error
//! taxonomy, and the detector interface.
//!
//! A detector classifies fixed-size frames (`VAD_FRAME_SAMPLES` samples at
//! 16 kHz) as speech or noise.  The concrete neural classifier lives outside
//! the library behind this interface; the temporal smoothing decorator that
//! wraps any detector is in the `smoothed` module.

use vstd::prelude::*;

verus! {

/// Result of classifying one frame.  A `Speech` result owns its payload,
/// which may extend beyond the frame itself when buffered pre-roll is
/// replayed at a confirmed onset.
#[derive(Debug, Clone, PartialEq)]
pub enum VadFrame {
    /// Speech detected; holds the emitted audio samples.
    Speech(Vec<i16>),
    /// No speech (silence or noise).
    Noise,
}

impl VadFrame {
    /// Whether this frame was classified as speech.
    pub fn is_speech(&self) -> (r: bool)
        ensures
            r == (self is Speech),
    {
        matches!(self, VadFrame::Speech(_))
    }
}

/// Failures of a voice activity detector.
#[derive(Debug, Clone, PartialEq, Eq)]
pub enum VadError {
    /// A frame of the wrong length was pushed.
    InvalidFrameSize,
    /// The activation threshold was outside the unit interval.
    InvalidThreshold,
    /// The classifier's model file could not be loaded.
    ModelLoad(String),
    /// Classification itself failed.
    Inference(String),
}

/// A single-frame speech/no-speech classifier.
///
/// `push_frame` expects a frame of exactly `VAD_FRAME_SAMPLES` samples at
/// 16 kHz and fails with `InvalidFrameSize` otherwise.  Implementations with
/// temporal state clear it in `reset`; stateless classifiers need not.
pub trait VoiceActivityDetector {
    /// Classify one frame.
    fn push_frame(&mut self, frame: &Vec<i16>) -> (r: Result<VadFrame, VadError>);

    /// Derive a plain boolean verdict from `push_frame`.
    fn is_voice(&mut self, frame: &Vec<i16>) -> (r: Result<bool, VadError>) {
        match self.push_frame(frame) {
            Ok(f) => Ok(f.is_speech()),
            Err(e) => Err(e),
        }
    }

    /// Clear any internal smoothing or temporal state.
    fn reset(&mut self) {
    }
}

} // verus!
