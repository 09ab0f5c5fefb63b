//! Tray icon states and their icon resources.
//!
//! Building the actual tray, its menu and its event handling is the host's
//! work; the library only fixes which icon each state shows.

use vstd::prelude::*;

verus! {

/// The tray icon's state, mirroring the orchestrator lifecycle.
#[derive(Debug, Clone, Copy, PartialEq, Eq, Structural)]
pub enum TrayIconState {
    Idle,
    Recording,
    Transcribing,
}

/// The icon resource shown for each tray state.
pub fn get_icon_path(state: &TrayIconState) -> (r: &'static str)
    ensures
        *state == TrayIconState::Idle ==> r@ == "icons/tray_idle.png"@,
        *state == TrayIconState::Recording ==> r@ == "icons/tray_recording.png"@,
        *state == TrayIconState::Transcribing ==> r@ == "icons/tray_transcribing.png"@,
{
    match state {
        TrayIconState::Idle => "icons/tray_idle.png",
        TrayIconState::Recording => "icons/tray_recording.png",
        TrayIconState::Transcribing => "icons/tray_transcribing.png",
    }
}

} // verus!
