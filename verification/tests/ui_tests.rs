use indexvoice::audio_feedback::{get_sound_path, SoundType};
use indexvoice::overlay::{is_mouse_within_monitor, OverlayState};
use indexvoice::settings::{ClipboardHandling, OverlayPosition, PasteMethod};
use indexvoice::tray::{get_icon_path, TrayIconState};

#[test]
fn test_sound_paths() {
    assert_eq!(get_sound_path(&SoundType::Start), "resources/sounds/start.wav");
    assert_eq!(get_sound_path(&SoundType::Stop), "resources/sounds/stop.wav");
}

#[test]
fn test_icon_paths() {
    assert_eq!(get_icon_path(&TrayIconState::Idle), "icons/tray_idle.png");
    assert_eq!(get_icon_path(&TrayIconState::Recording), "icons/tray_recording.png");
    assert_eq!(get_icon_path(&TrayIconState::Transcribing), "icons/tray_transcribing.png");
}

#[test]
fn test_mouse_within_monitor() {
    // A 1920x1080 monitor at the origin.
    assert!(is_mouse_within_monitor((0, 0), (0, 0), (1920, 1080)));
    assert!(is_mouse_within_monitor((1919, 1079), (0, 0), (1920, 1080)));
    assert!(!is_mouse_within_monitor((1920, 500), (0, 0), (1920, 1080)));
    assert!(!is_mouse_within_monitor((-1, 500), (0, 0), (1920, 1080)));
    // A secondary monitor left of the primary.
    assert!(is_mouse_within_monitor((-100, 10), (-1920, 0), (1920, 1080)));
    assert!(!is_mouse_within_monitor((-100, -10), (-1920, 0), (1920, 1080)));
}

#[test]
fn test_settings_defaults() {
    assert_eq!(OverlayPosition::default(), OverlayPosition::Bottom);
    assert_eq!(PasteMethod::default(), PasteMethod::CtrlV);
    assert_eq!(ClipboardHandling::default(), ClipboardHandling::DontModify);
}

#[test]
fn test_overlay_states_are_distinct() {
    assert_ne!(OverlayState::Hidden, OverlayState::Recording);
    assert_ne!(OverlayState::Recording, OverlayState::Transcribing);
}
