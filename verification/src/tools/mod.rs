//! Annotation tools and which kind of drag draft each one starts.

use vstd::prelude::*;

verus! {

/// The tools of the editor's tool palette.
#[derive(Clone, Copy, Debug, PartialEq, Eq, Structural)]
pub enum ToolKind {
    Select,
    Pen,
    Highlighter,
    Rectangle,
    Arrow,
    Text,
    Crop,
}

/// The label a tool carries on its palette button.
pub open spec fn tool_label(tool: ToolKind) -> Seq<char> {
    match tool {
        ToolKind::Select => "Select"@,
        ToolKind::Pen => "Pen"@,
        ToolKind::Highlighter => "Highlight"@,
        ToolKind::Rectangle => "Rect"@,
        ToolKind::Arrow => "Arrow"@,
        ToolKind::Text => "Text"@,
        ToolKind::Crop => "Crop"@,
    }
}

/// Every tool, in palette order.
pub open spec fn all_tools() -> Seq<ToolKind> {
    seq![
        ToolKind::Select,
        ToolKind::Pen,
        ToolKind::Highlighter,
        ToolKind::Rectangle,
        ToolKind::Arrow,
        ToolKind::Text,
        ToolKind::Crop,
    ]
}

/// The draft a drag on the canvas builds while a tool is active.
#[derive(Clone, Copy, Debug, PartialEq, Eq, Structural)]
pub enum DraftKind {
    Pen,
    Highlighter,
    Rectangle,
    Arrow,
    Crop,
}

/// Which draft a drag starts with `tool`: none for selecting and for text.
pub open spec fn drag_draft(tool: ToolKind) -> Option<DraftKind> {
    match tool {
        ToolKind::Select => None,
        ToolKind::Pen => Some(DraftKind::Pen),
        ToolKind::Highlighter => Some(DraftKind::Highlighter),
        ToolKind::Rectangle => Some(DraftKind::Rectangle),
        ToolKind::Arrow => Some(DraftKind::Arrow),
        ToolKind::Text => None,
        ToolKind::Crop => Some(DraftKind::Crop),
    }
}

impl ToolKind {
    /// Every tool, in palette order.
    pub fn all() -> (tools: [ToolKind; 7])
        ensures
            tools@ == all_tools(),
    {
        let tools = [
            ToolKind::Select,
            ToolKind::Pen,
            ToolKind::Highlighter,
            ToolKind::Rectangle,
            ToolKind::Arrow,
            ToolKind::Text,
            ToolKind::Crop,
        ];
        assert(tools@ =~= all_tools());
        tools
    }

    /// The label shown on the tool's button.
    pub fn label(self) -> (label: &'static str)
        ensures
            label@ == tool_label(self),
    {
        match self {
            ToolKind::Select => "Select",
            ToolKind::Pen => "Pen",
            ToolKind::Highlighter => "Highlight",
            ToolKind::Rectangle => "Rect",
            ToolKind::Arrow => "Arrow",
            ToolKind::Text => "Text",
            ToolKind::Crop => "Crop",
        }
    }

    /// Whether strokes of this tool use the translucent highlighter style rather
    /// than the plain stroke style.
    pub fn uses_highlighter_style(self) -> (r: bool)
        ensures
            r == (self == ToolKind::Highlighter),
    {
        match self {
            ToolKind::Highlighter => true,
            _ => false,
        }
    }
}

/// Starts a drag with `tool`: the kind of draft to build, or `None` when the tool
/// does not draw by dragging.
pub fn begin_drag(tool: ToolKind) -> (draft: Option<DraftKind>)
    ensures
        draft == drag_draft(tool),
{
    match tool {
        ToolKind::Select => None,
        ToolKind::Pen => Some(DraftKind::Pen),
        ToolKind::Highlighter => Some(DraftKind::Highlighter),
        ToolKind::Rectangle => Some(DraftKind::Rectangle),
        ToolKind::Arrow => Some(DraftKind::Arrow),
        ToolKind::Crop => Some(DraftKind::Crop),
        ToolKind::Text => None,
    }
}

/// Each tool appears exactly once in the palette.
pub proof fn lemma_palette_lists_each_tool_once(tool: ToolKind)
    ensures
        all_tools().len() == 7,
        all_tools().contains(tool),
        forall|i: int, j: int|
            0 <= i < j < all_tools().len() ==> all_tools()[i] != all_tools()[j],
{
    let all = all_tools();
    match tool {
        ToolKind::Select => assert(all[0] == tool),
        ToolKind::Pen => assert(all[1] == tool),
        ToolKind::Highlighter => assert(all[2] == tool),
        ToolKind::Rectangle => assert(all[3] == tool),
        ToolKind::Arrow => assert(all[4] == tool),
        ToolKind::Text => assert(all[5] == tool),
        ToolKind::Crop => assert(all[6] == tool),
    }
}

} // verus!
