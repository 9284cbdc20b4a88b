//! Decisions of the editor window that do not depend on the image geometry:
//! status texts, which keyboard shortcuts apply, and what switching tools resets.

use vstd::prelude::*;
use crate::text::{count_lines, decimal_seq, decimal_string, is_blank, is_blank_seq, line_count};
use crate::tools::ToolKind;

verus! {

/// The hint shown in the status line when `tool` becomes active.
pub open spec fn tool_status(tool: ToolKind) -> Seq<char> {
    match tool {
        ToolKind::Select => "Select active. Click an object to select it, drag inside to move it, or drag a handle to resize it."@,
        ToolKind::Pen => "Pen active. Drag on the image to draw."@,
        ToolKind::Highlighter => "Highlighter active. Drag on the image to lay down translucent strokes; increase thickness for broader highlights."@,
        ToolKind::Rectangle => "Rectangle active. Drag on the image to place a box."@,
        ToolKind::Arrow => "Arrow active. Drag on the image to place an arrow."@,
        ToolKind::Text => "Text active. Click the image to place a text anchor, type directly on the image, press Enter to apply, or press Shift+Enter for a new line."@,
        ToolKind::Crop => "Crop active. Resize or move the crop box, then press Enter to commit or Esc to cancel."@,
    }
}

/// The status hint for a newly activated tool.
pub fn tool_status_message(tool: ToolKind) -> (message: &'static str)
    ensures
        message@ == tool_status(tool),
{
    match tool {
        ToolKind::Select => "Select active. Click an object to select it, drag inside to move it, or drag a handle to resize it.",
        ToolKind::Pen => "Pen active. Drag on the image to draw.",
        ToolKind::Highlighter => "Highlighter active. Drag on the image to lay down translucent strokes; increase thickness for broader highlights.",
        ToolKind::Rectangle => "Rectangle active. Drag on the image to place a box.",
        ToolKind::Arrow => "Arrow active. Drag on the image to place an arrow.",
        ToolKind::Text => "Text active. Click the image to place a text anchor, type directly on the image, press Enter to apply, or press Shift+Enter for a new line.",
        ToolKind::Crop => "Crop active. Resize or move the crop box, then press Enter to commit or Esc to cancel.",
    }
}

/// Names what text extraction reads: the crop selection while one is pending,
/// the whole screenshot otherwise.
pub fn text_extraction_source(has_pending_crop: bool) -> (source: &'static str)
    ensures
        has_pending_crop ==> source@ == "crop selection"@,
        !has_pending_crop ==> source@ == "screenshot"@,
{
    if has_pending_crop {
        "crop selection"
    } else {
        "screenshot"
    }
}

/// Which groups of keyboard shortcuts are live in the current frame.
#[derive(Clone, Copy, Debug, PartialEq, Eq, Structural)]
pub struct ShortcutGates {
    /// Ctrl+C copies the image (and a copy event is taken as the same request).
    pub copy: bool,
    /// Enter commits and Escape cancels the pending crop.
    pub crop: bool,
    /// Enter places and Escape discards the text being typed.
    pub text: bool,
}

/// Decides which shortcut groups apply. Copy and crop keys stay off while a text
/// field has keyboard focus; text keys apply while a text anchor is placed.
pub fn shortcut_gates(
    active_tool: ToolKind,
    has_pending_crop: bool,
    has_pending_text: bool,
    text_field_focused: bool,
) -> (gates: ShortcutGates)
    ensures
        gates.copy == !text_field_focused,
        gates.crop == (active_tool == ToolKind::Crop && has_pending_crop && !text_field_focused),
        gates.text == (active_tool == ToolKind::Text && has_pending_text),
{
    let copy = !text_field_focused;
    let crop = active_tool == ToolKind::Crop && has_pending_crop && copy;
    let text = active_tool == ToolKind::Text && has_pending_text;
    ShortcutGates { copy, crop, text }
}

/// Whether a key press carries no modifier at all, as Enter must to place text
/// (Shift+Enter starts a new line instead).
pub fn is_unmodified(alt: bool, ctrl: bool, shift: bool, command: bool, mac_cmd: bool) -> (r: bool)
    ensures
        r == (!alt && !ctrl && !shift && !command && !mac_cmd),
{
    !alt && !ctrl && !shift && !command && !mac_cmd
}

/// What switching to a tool does besides making it active.
#[derive(Clone, Copy, Debug, PartialEq, Eq, Structural)]
pub struct ToolActivation {
    /// Drop the draft, the selection, the pending crop and the pending text.
    pub clear_transient: bool,
    /// Clamp the highlighter thickness to its range (otherwise the stroke thickness
    /// is clamped to its own range).
    pub clamp_highlighter: bool,
    /// Start a crop box that covers the whole image.
    pub start_full_crop: bool,
}

/// Decides what activating `requested` while `current` is active resets.
pub fn tool_activation(current: ToolKind, requested: ToolKind) -> (a: ToolActivation)
    ensures
        a.clear_transient == (current != requested),
        a.clamp_highlighter == (requested == ToolKind::Highlighter),
        a.start_full_crop == (requested == ToolKind::Crop),
{
    ToolActivation {
        clear_transient: current != requested,
        clamp_highlighter: requested == ToolKind::Highlighter,
        start_full_crop: requested == ToolKind::Crop,
    }
}

/// The status line after text extraction finished with `text` from `source`.
pub open spec fn extraction_status(text: Seq<char>, source: Seq<char>) -> Seq<char> {
    if is_blank_seq(text) {
        "No text detected in the "@ + source + "."@
    } else {
        let count = line_count(text);
        "Extracted "@ + decimal_seq(count) + " line"@ + (if count == 1 {
            Seq::<char>::empty()
        } else {
            "s"@
        }) + " from the "@ + source + "."@
    }
}

/// Reports how text extraction went: how many lines came out of `source`, or
/// that no text was detected.
pub fn extraction_status_message(text: &str, source: &str) -> (message: String)
    ensures
        message@ == extraction_status(text@, source@),
{
    if is_blank(text) {
        let mut message = "No text detected in the ".to_owned();
        message.append(source);
        message.append(".");
        message
    } else {
        let count = count_lines(text);
        let mut message = "Extracted ".to_owned();
        let digits = decimal_string(count as u64);
        message.append(digits.as_str());
        message.append(" line");
        if count != 1 {
            message.append("s");
        }
        message.append(" from the ");
        message.append(source);
        message.append(".");
        message
    }
}

} // verus!
