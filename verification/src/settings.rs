//! Settings value types.
//!
//! The settings store itself (persistence, serialization) lives with the
//! host; these are the plain values its records hold.

use vstd::prelude::*;

verus! {

/// A keyboard shortcut binding.
#[derive(Debug, Clone, PartialEq, Eq)]
pub struct ShortcutBinding {
    pub id: String,
    pub name: String,
    pub description: String,
    pub default_binding: String,
    pub current_binding: String,
}

/// Where the recording overlay is shown.
#[derive(Debug, Clone, Copy, PartialEq, Eq, Structural)]
pub enum OverlayPosition {
    /// The overlay is never shown.
    Disabled,
    Top,
    Bottom,
}

impl Default for OverlayPosition {
    /// The overlay sits at the bottom by default.
    fn default() -> (r: Self)
        ensures
            r == OverlayPosition::Bottom,
    {
        OverlayPosition::Bottom
    }
}

/// How transcribed text is injected.
#[derive(Debug, Clone, Copy, PartialEq, Eq, Structural)]
pub enum PasteMethod {
    CtrlV,
    Direct,
    /// No injection at all.
    Disabled,
    ShiftInsert,
    CtrlShiftV,
}

impl Default for PasteMethod {
    /// Plain paste is the default injection method.
    fn default() -> (r: Self)
        ensures
            r == PasteMethod::CtrlV,
    {
        PasteMethod::CtrlV
    }
}

/// What happens to the clipboard after injection.
#[derive(Debug, Clone, Copy, PartialEq, Eq, Structural)]
pub enum ClipboardHandling {
    DontModify,
    CopyToClipboard,
}

impl Default for ClipboardHandling {
    /// The clipboard is left untouched by default.
    fn default() -> (r: Self)
        ensures
            r == ClipboardHandling::DontModify,
    {
        ClipboardHandling::DontModify
    }
}

} // verus!
