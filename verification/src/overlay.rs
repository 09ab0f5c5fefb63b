//! Overlay window states and positioning arithmetic.
//!
//! Creating and moving the real window is the host's work; the monitor
//! containment test it uses to find the monitor under the cursor is plain
//! integer logic and lives here.

use vstd::prelude::*;

verus! {

/// The overlay's display state.
#[derive(Debug, Clone, Copy, PartialEq, Eq, Structural)]
pub enum OverlayState {
    Hidden,
    Recording,
    Transcribing,
}

/// Whether the mouse position lies within the monitor's rectangle:
/// `monitor_pos` is its top-left corner and `monitor_size` its width and
/// height in physical pixels.
pub fn is_mouse_within_monitor(
    mouse_pos: (i32, i32),
    monitor_pos: (i32, i32),
    monitor_size: (u32, u32),
) -> (r: bool)
    ensures
        r == {
            &&& mouse_pos.0 >= monitor_pos.0
            &&& (mouse_pos.0 as int) < monitor_pos.0 + monitor_size.0
            &&& mouse_pos.1 >= monitor_pos.1
            &&& (mouse_pos.1 as int) < monitor_pos.1 + monitor_size.1
        },
{
    let (mouse_x, mouse_y) = mouse_pos;
    let (monitor_x, monitor_y) = monitor_pos;
    let (monitor_width, monitor_height) = monitor_size;
    mouse_x >= monitor_x && (mouse_x as i64) < (monitor_x as i64) + (monitor_width as i64)
        && mouse_y >= monitor_y && (mouse_y as i64) < (monitor_y as i64) + (monitor_height as i64)
}

} // verus!
