//! Feedback sound kinds and their sound resources.
//!
//! Resolving the resource to a real path and playing it is the host's work;
//! the library only fixes which file each kind names.

use vstd::prelude::*;

verus! {

/// Kinds of feedback sounds.
#[derive(Debug, Clone, Copy, PartialEq, Eq, Structural)]
pub enum SoundType {
    Start,
    Stop,
}

/// The sound resource for each feedback kind.
pub fn get_sound_path(sound_type: &SoundType) -> (r: &'static str)
    ensures
        *sound_type == SoundType::Start ==> r@ == "resources/sounds/start.wav"@,
        *sound_type == SoundType::Stop ==> r@ == "resources/sounds/stop.wav"@,
{
    match sound_type {
        SoundType::Start => "resources/sounds/start.wav",
        SoundType::Stop => "resources/sounds/stop.wav",
    }
}

} // verus!
