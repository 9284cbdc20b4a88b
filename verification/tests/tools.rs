use snapture::app::{
    is_unmodified, shortcut_gates, text_extraction_source, tool_activation, tool_status_message,
};
use snapture::model::types::RgbaColor;
use snapture::tools::{begin_drag, DraftKind, ToolKind};
use snapture::ui::toolbar::ToolbarOutput;
use snapture::ui::topbar::TopbarOutput;

#[test]
fn tools_carry_their_labels() {
    let labels: Vec<&str> = ToolKind::all().iter().map(|tool| tool.label()).collect();
    assert_eq!(
        labels,
        vec!["Select", "Pen", "Highlight", "Rect", "Arrow", "Text", "Crop"]
    );
}

#[test]
fn only_drawing_tools_start_a_drag_draft() {
    assert_eq!(begin_drag(ToolKind::Select), None);
    assert_eq!(begin_drag(ToolKind::Text), None);
    assert_eq!(begin_drag(ToolKind::Pen), Some(DraftKind::Pen));
    assert_eq!(begin_drag(ToolKind::Highlighter), Some(DraftKind::Highlighter));
    assert_eq!(begin_drag(ToolKind::Rectangle), Some(DraftKind::Rectangle));
    assert_eq!(begin_drag(ToolKind::Arrow), Some(DraftKind::Arrow));
    assert_eq!(begin_drag(ToolKind::Crop), Some(DraftKind::Crop));
}

#[test]
fn only_the_highlighter_uses_the_highlighter_style() {
    for tool in ToolKind::all() {
        assert_eq!(tool.uses_highlighter_style(), tool == ToolKind::Highlighter);
    }
}

#[test]
fn default_color_is_opaque_red() {
    let color = RgbaColor::default();
    assert_eq!(color, RgbaColor::from_rgba(255, 59, 48, 255));
    assert_eq!((color.r, color.g, color.b, color.a), (255, 59, 48, 255));
}

#[test]
fn panel_outputs_start_empty() {
    let toolbar = ToolbarOutput::default();
    assert_eq!(toolbar.tool_change, None);
    assert!(!toolbar.delete_selected && !toolbar.commit_crop && !toolbar.cancel_crop);
    let topbar = TopbarOutput::default();
    assert!(!topbar.save_clicked && !topbar.copy_clicked && !topbar.extract_text_clicked);
    assert!(!topbar.undo_clicked && !topbar.redo_clicked && !topbar.fit_clicked);
}

#[test]
fn status_hints_name_the_tool() {
    assert_eq!(
        tool_status_message(ToolKind::Pen),
        "Pen active. Drag on the image to draw."
    );
    assert_eq!(
        tool_status_message(ToolKind::Crop),
        "Crop active. Resize or move the crop box, then press Enter to commit or Esc to cancel."
    );
}

#[test]
fn extraction_reads_the_crop_when_one_is_pending() {
    assert_eq!(text_extraction_source(true), "crop selection");
    assert_eq!(text_extraction_source(false), "screenshot");
}

#[test]
fn shortcuts_depend_on_tool_and_focus() {
    let gates = shortcut_gates(ToolKind::Crop, true, false, false);
    assert!(gates.copy && gates.crop && !gates.text);
    let gates = shortcut_gates(ToolKind::Crop, true, false, true);
    assert!(!gates.copy && !gates.crop);
    let gates = shortcut_gates(ToolKind::Text, false, true, true);
    assert!(gates.text && !gates.crop && !gates.copy);
    let gates = shortcut_gates(ToolKind::Pen, true, true, false);
    assert!(gates.copy && !gates.crop && !gates.text);
}

#[test]
fn plain_enter_has_no_modifiers() {
    assert!(is_unmodified(false, false, false, false, false));
    assert!(!is_unmodified(false, false, true, false, false));
    assert!(!is_unmodified(false, false, false, false, true));
}

#[test]
fn switching_tools_resets_transient_state() {
    let same = tool_activation(ToolKind::Pen, ToolKind::Pen);
    assert!(!same.clear_transient && !same.clamp_highlighter && !same.start_full_crop);
    let crop = tool_activation(ToolKind::Pen, ToolKind::Crop);
    assert!(crop.clear_transient && crop.start_full_crop);
    let highlight = tool_activation(ToolKind::Select, ToolKind::Highlighter);
    assert!(highlight.clear_transient && highlight.clamp_highlighter);
}
