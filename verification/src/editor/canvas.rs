//! How a drag on the crop box (or on a selected object's box) is interpreted:
//! which handle the pointer grabs, which edges that handle moves, and the cursor
//! shown for it. The pointer tests themselves are made on screen coordinates by
//! the caller and handed in as booleans.

use vstd::prelude::*;

verus! {

/// The eight resize handles of a box: its sides and its corners.
#[derive(Clone, Copy, Debug, PartialEq, Eq, Structural)]
pub enum CropHandle {
    North,
    South,
    East,
    West,
    NorthEast,
    NorthWest,
    SouthEast,
    SouthWest,
}

/// What a drag on a box does: move the whole box, or resize it by one handle.
#[derive(Clone, Copy, Debug, PartialEq, Eq, Structural)]
pub enum CropInteractionKind {
    Move,
    Resize(CropHandle),
}

/// Where the pointer is relative to a box, each test made within the grab margin.
#[derive(Clone, Copy, Debug, PartialEq, Eq, Structural)]
pub struct PointerNearBox {
    pub near_left: bool,
    pub near_right: bool,
    pub near_top: bool,
    pub near_bottom: bool,
    /// Between the left and right edges, margin included.
    pub within_x: bool,
    /// Between the top and bottom edges, margin included.
    pub within_y: bool,
    /// Inside the box, its edges included.
    pub inside: bool,
}

/// The interaction a press at `p` starts: corners before sides, sides before
/// moving, and nothing outside the box and its margin.
pub open spec fn interaction_for(p: PointerNearBox) -> Option<CropInteractionKind> {
    if p.near_left && p.near_top {
        Some(CropInteractionKind::Resize(CropHandle::NorthWest))
    } else if p.near_right && p.near_top {
        Some(CropInteractionKind::Resize(CropHandle::NorthEast))
    } else if p.near_left && p.near_bottom {
        Some(CropInteractionKind::Resize(CropHandle::SouthWest))
    } else if p.near_right && p.near_bottom {
        Some(CropInteractionKind::Resize(CropHandle::SouthEast))
    } else if p.near_top && p.within_x {
        Some(CropInteractionKind::Resize(CropHandle::North))
    } else if p.near_bottom && p.within_x {
        Some(CropInteractionKind::Resize(CropHandle::South))
    } else if p.near_left && p.within_y {
        Some(CropInteractionKind::Resize(CropHandle::West))
    } else if p.near_right && p.within_y {
        Some(CropInteractionKind::Resize(CropHandle::East))
    } else if p.inside {
        Some(CropInteractionKind::Move)
    } else {
        None
    }
}

/// Picks the interaction for a press described by `p`.
pub fn crop_interaction_at(p: PointerNearBox) -> (kind: Option<CropInteractionKind>)
    ensures
        kind == interaction_for(p),
        kind matches Some(CropInteractionKind::Resize(h)) ==> {
            &&& edges_of(h).top ==> p.near_top
            &&& edges_of(h).bottom ==> p.near_bottom
            &&& edges_of(h).left ==> p.near_left
            &&& edges_of(h).right ==> p.near_right
        },
        kind == Some(CropInteractionKind::Move) ==> p.inside,
{
    if p.near_left && p.near_top {
        return Some(CropInteractionKind::Resize(CropHandle::NorthWest));
    }
    if p.near_right && p.near_top {
        return Some(CropInteractionKind::Resize(CropHandle::NorthEast));
    }
    if p.near_left && p.near_bottom {
        return Some(CropInteractionKind::Resize(CropHandle::SouthWest));
    }
    if p.near_right && p.near_bottom {
        return Some(CropInteractionKind::Resize(CropHandle::SouthEast));
    }
    if p.near_top && p.within_x {
        return Some(CropInteractionKind::Resize(CropHandle::North));
    }
    if p.near_bottom && p.within_x {
        return Some(CropInteractionKind::Resize(CropHandle::South));
    }
    if p.near_left && p.within_y {
        return Some(CropInteractionKind::Resize(CropHandle::West));
    }
    if p.near_right && p.within_y {
        return Some(CropInteractionKind::Resize(CropHandle::East));
    }
    if p.inside {
        return Some(CropInteractionKind::Move);
    }
    None
}

/// A press near no edge grabs nothing but the box itself, and only from inside.
pub proof fn lemma_away_from_edges_only_moves(p: PointerNearBox)
    requires
        !p.near_left,
        !p.near_right,
        !p.near_top,
        !p.near_bottom,
    ensures
        interaction_for(p) == if p.inside {
            Some(CropInteractionKind::Move)
        } else {
            None
        },
{
}

/// The edges of a box that a resize handle drags.
#[derive(Clone, Copy, Debug, PartialEq, Eq, Structural)]
pub struct ResizeEdges {
    pub left: bool,
    pub right: bool,
    pub top: bool,
    pub bottom: bool,
}

/// The edges `handle` drags: a side handle its own edge, a corner handle the two
/// edges that meet there.
pub open spec fn edges_of(handle: CropHandle) -> ResizeEdges {
    match handle {
        CropHandle::North => ResizeEdges { left: false, right: false, top: true, bottom: false },
        CropHandle::South => ResizeEdges { left: false, right: false, top: false, bottom: true },
        CropHandle::East => ResizeEdges { left: false, right: true, top: false, bottom: false },
        CropHandle::West => ResizeEdges { left: true, right: false, top: false, bottom: false },
        CropHandle::NorthEast => ResizeEdges { left: false, right: true, top: true, bottom: false },
        CropHandle::NorthWest => ResizeEdges { left: true, right: false, top: true, bottom: false },
        CropHandle::SouthEast => ResizeEdges { left: false, right: true, top: false, bottom: true },
        CropHandle::SouthWest => ResizeEdges { left: true, right: false, top: false, bottom: true },
    }
}

/// Which edges dragging `handle` moves.
pub fn handle_edges(handle: CropHandle) -> (edges: ResizeEdges)
    ensures
        edges == edges_of(handle),
        edges.top <==> (handle == CropHandle::North || handle == CropHandle::NorthEast
            || handle == CropHandle::NorthWest),
        edges.bottom <==> (handle == CropHandle::South || handle == CropHandle::SouthEast
            || handle == CropHandle::SouthWest),
        edges.left <==> (handle == CropHandle::West || handle == CropHandle::NorthWest
            || handle == CropHandle::SouthWest),
        edges.right <==> (handle == CropHandle::East || handle == CropHandle::NorthEast
            || handle == CropHandle::SouthEast),
{
    match handle {
        CropHandle::North => ResizeEdges { left: false, right: false, top: true, bottom: false },
        CropHandle::South => ResizeEdges { left: false, right: false, top: false, bottom: true },
        CropHandle::East => ResizeEdges { left: false, right: true, top: false, bottom: false },
        CropHandle::West => ResizeEdges { left: true, right: false, top: false, bottom: false },
        CropHandle::NorthEast => ResizeEdges { left: false, right: true, top: true, bottom: false },
        CropHandle::NorthWest => ResizeEdges { left: true, right: false, top: true, bottom: false },
        CropHandle::SouthEast => ResizeEdges { left: false, right: true, top: false, bottom: true },
        CropHandle::SouthWest => ResizeEdges { left: true, right: false, top: false, bottom: true },
    }
}

/// A handle never drags two opposite edges, and always drags at least one edge,
/// so a resize keeps the box's far sides where they were.
pub proof fn lemma_handles_move_one_side_per_axis(handle: CropHandle)
    ensures
        !(edges_of(handle).left && edges_of(handle).right),
        !(edges_of(handle).top && edges_of(handle).bottom),
        edges_of(handle).left || edges_of(handle).right || edges_of(handle).top
            || edges_of(handle).bottom,
{
}

/// Each handle drags the edges of its compass direction: the top edge moves
/// exactly for the handles on the north side, the bottom edge for those on the
/// south side, the left edge for the west side and the right edge for the east.
pub proof fn lemma_handles_drag_their_compass_edges(handle: CropHandle)
    ensures
        edges_of(handle).top <==> (handle == CropHandle::North || handle == CropHandle::NorthEast
            || handle == CropHandle::NorthWest),
        edges_of(handle).bottom <==> (handle == CropHandle::South || handle
            == CropHandle::SouthEast || handle == CropHandle::SouthWest),
        edges_of(handle).left <==> (handle == CropHandle::West || handle == CropHandle::NorthWest
            || handle == CropHandle::SouthWest),
        edges_of(handle).right <==> (handle == CropHandle::East || handle == CropHandle::NorthEast
            || handle == CropHandle::SouthEast),
{
}

/// Whether a press is near the edges in `edges` and no others.
pub open spec fn near_exactly(p: PointerNearBox, edges: ResizeEdges) -> bool {
    p.near_left == edges.left && p.near_right == edges.right && p.near_top == edges.top
        && p.near_bottom == edges.bottom
}

/// A resize picked for a press only drags edges the press is near, and a side
/// handle only when the press lies within the box's span along that side. A
/// press near one edge (within its span), or near one horizontal and one
/// vertical edge, drags exactly those edges. Moving needs a press inside the
/// box, and a press that grabs nothing is outside it.
pub proof fn lemma_presses_drag_the_edges_they_are_near(p: PointerNearBox)
    ensures
        interaction_for(p) matches Some(CropInteractionKind::Resize(h)) ==> {
            &&& edges_of(h).top ==> p.near_top
            &&& edges_of(h).bottom ==> p.near_bottom
            &&& edges_of(h).left ==> p.near_left
            &&& edges_of(h).right ==> p.near_right
            &&& (h == CropHandle::North || h == CropHandle::South) ==> p.within_x
            &&& (h == CropHandle::East || h == CropHandle::West) ==> p.within_y
        },
        forall|e: ResizeEdges|
            #![trigger near_exactly(p, e)]
            near_exactly(p, e) && !(e.left && e.right) && !(e.top && e.bottom) && (e.left
                || e.right || e.top || e.bottom) && ((e.top || e.bottom) && !e.left && !e.right
                ==> p.within_x) && ((e.left || e.right) && !e.top && !e.bottom ==> p.within_y)
                ==> (interaction_for(p) matches Some(CropInteractionKind::Resize(h))
                && edges_of(h) == e),
        interaction_for(p) == Some(CropInteractionKind::Move) ==> p.inside,
        interaction_for(p) is None ==> !p.inside,
{
}

/// The cursor shows the direction a handle drags in: vertical arrows for the
/// top and bottom edges alone, horizontal for the left and right edges alone,
/// and the diagonal through the two corners a corner handle lies between.
pub proof fn lemma_cursors_follow_the_dragged_edges(handle: CropHandle)
    ensures
        cursor_for(CropInteractionKind::Resize(handle)) == CursorShape::ResizeVertical <==> (
        !edges_of(handle).left && !edges_of(handle).right),
        cursor_for(CropInteractionKind::Resize(handle)) == CursorShape::ResizeHorizontal <==> (
        !edges_of(handle).top && !edges_of(handle).bottom),
        cursor_for(CropInteractionKind::Resize(handle)) == CursorShape::ResizeNwSe <==> (
        edges_of(handle).left && edges_of(handle).top || edges_of(handle).right && edges_of(
            handle,
        ).bottom),
        cursor_for(CropInteractionKind::Resize(handle)) == CursorShape::ResizeNeSw <==> (
        edges_of(handle).right && edges_of(handle).top || edges_of(handle).left && edges_of(
            handle,
        ).bottom),
        cursor_for(CropInteractionKind::Move) == CursorShape::Grab,
{
}

/// The pointer shapes shown over a box.
#[derive(Clone, Copy, Debug, PartialEq, Eq, Structural)]
pub enum CursorShape {
    Grab,
    ResizeVertical,
    ResizeHorizontal,
    ResizeNwSe,
    ResizeNeSw,
}

/// The cursor that announces `kind`.
pub open spec fn cursor_for(kind: CropInteractionKind) -> CursorShape {
    match kind {
        CropInteractionKind::Move => CursorShape::Grab,
        CropInteractionKind::Resize(handle) => match handle {
            CropHandle::North | CropHandle::South => CursorShape::ResizeVertical,
            CropHandle::East | CropHandle::West => CursorShape::ResizeHorizontal,
            CropHandle::NorthWest | CropHandle::SouthEast => CursorShape::ResizeNwSe,
            CropHandle::NorthEast | CropHandle::SouthWest => CursorShape::ResizeNeSw,
        },
    }
}

/// Picks the cursor for an interaction.
pub fn crop_cursor(kind: CropInteractionKind) -> (shape: CursorShape)
    ensures
        shape == cursor_for(kind),
{
    match kind {
        CropInteractionKind::Move => CursorShape::Grab,
        CropInteractionKind::Resize(handle) => match handle {
            CropHandle::North | CropHandle::South => CursorShape::ResizeVertical,
            CropHandle::East | CropHandle::West => CursorShape::ResizeHorizontal,
            CropHandle::NorthWest | CropHandle::SouthEast => CursorShape::ResizeNwSe,
            CropHandle::NorthEast | CropHandle::SouthWest => CursorShape::ResizeNeSw,
        },
    }
}

/// What a drag that just started on the canvas goes to.
#[derive(Clone, Copy, Debug, PartialEq, Eq, Structural)]
pub enum DragStart {
    /// Move or resize the pending crop box.
    CropBox,
    /// Move or resize the selected object by its box or handles.
    SelectionBox,
    /// Select the object under the pointer and start moving it.
    ObjectUnderPointer,
    /// Move the text annotation under the pointer.
    Text,
    /// Start drawing with the active tool.
    Draw,
    /// Nothing happens.
    Nothing,
}

/// The target of a drag that starts where the crop box (`crop_box_hit`), the
/// selected object's box (`selection_box_hit`), another object
/// (`object_hit`) or a text annotation (`text_hit`) can be grabbed. Earlier
/// targets win; drawing only happens with a drawing tool.
pub open spec fn drag_start_target(
    crop_box_hit: bool,
    selection_box_hit: bool,
    object_hit: bool,
    text_hit: bool,
    crop_tool_active: bool,
    text_tool_active: bool,
    selection_tool_active: bool,
) -> DragStart {
    if crop_box_hit {
        DragStart::CropBox
    } else if selection_box_hit {
        DragStart::SelectionBox
    } else if object_hit {
        DragStart::ObjectUnderPointer
    } else if text_hit {
        DragStart::Text
    } else if !crop_tool_active && !text_tool_active && !selection_tool_active {
        DragStart::Draw
    } else {
        DragStart::Nothing
    }
}

/// Decides where a newly started drag goes.
pub fn choose_drag_start(
    crop_box_hit: bool,
    selection_box_hit: bool,
    object_hit: bool,
    text_hit: bool,
    crop_tool_active: bool,
    text_tool_active: bool,
    selection_tool_active: bool,
) -> (target: DragStart)
    ensures
        target == drag_start_target(
            crop_box_hit,
            selection_box_hit,
            object_hit,
            text_hit,
            crop_tool_active,
            text_tool_active,
            selection_tool_active,
        ),
        crop_box_hit ==> target == DragStart::CropBox,
        !crop_box_hit && selection_box_hit ==> target == DragStart::SelectionBox,
        !crop_box_hit && !selection_box_hit && object_hit ==> target
            == DragStart::ObjectUnderPointer,
        !crop_box_hit && !selection_box_hit && !object_hit && text_hit ==> target
            == DragStart::Text,
        target == DragStart::Draw ==> !crop_box_hit && !selection_box_hit && !object_hit
            && !text_hit && !crop_tool_active && !text_tool_active && !selection_tool_active,
{
    if crop_box_hit {
        DragStart::CropBox
    } else if selection_box_hit {
        DragStart::SelectionBox
    } else if object_hit {
        DragStart::ObjectUnderPointer
    } else if text_hit {
        DragStart::Text
    } else if !crop_tool_active && !text_tool_active && !selection_tool_active {
        DragStart::Draw
    } else {
        DragStart::Nothing
    }
}

/// A drag goes to the first thing it can grab, in the order crop box, selected
/// object's box, object under the pointer, text: whatever else is under the
/// pointer, the earliest hit wins. Each target is taken only when it was hit.
/// With nothing hit it draws exactly when a drawing tool (not crop, text or
/// select) is active, and otherwise does nothing.
pub proof fn lemma_drag_goes_to_the_first_hit(
    crop_box_hit: bool,
    selection_box_hit: bool,
    object_hit: bool,
    text_hit: bool,
    crop_tool_active: bool,
    text_tool_active: bool,
    selection_tool_active: bool,
)
    ensures
        ({
            let target = drag_start_target(
                crop_box_hit,
                selection_box_hit,
                object_hit,
                text_hit,
                crop_tool_active,
                text_tool_active,
                selection_tool_active,
            );
            let drawing_tool = !crop_tool_active && !text_tool_active && !selection_tool_active;
            &&& crop_box_hit ==> target == DragStart::CropBox
            &&& !crop_box_hit && selection_box_hit ==> target == DragStart::SelectionBox
            &&& !crop_box_hit && !selection_box_hit && object_hit ==> target
                == DragStart::ObjectUnderPointer
            &&& !crop_box_hit && !selection_box_hit && !object_hit && text_hit ==> target
                == DragStart::Text
            &&& target == DragStart::CropBox ==> crop_box_hit
            &&& target == DragStart::SelectionBox ==> selection_box_hit
            &&& target == DragStart::ObjectUnderPointer ==> object_hit
            &&& target == DragStart::Text ==> text_hit
            &&& !crop_box_hit && !selection_box_hit && !object_hit && !text_hit ==> (target
                == DragStart::Draw <==> drawing_tool) && (target == DragStart::Nothing
                <==> !drawing_tool)
        }),
{
}

/// What a click on the canvas does.
#[derive(Clone, Copy, Debug, PartialEq, Eq, Structural)]
pub enum ClickOutcome {
    /// Change the selection to the object under the pointer (or to none).
    Select,
    /// Report the clicked image position to the active tool.
    Place,
    /// Nothing: no click, or a click on existing text that the text tool drags instead.
    Ignore,
}

/// Decides what a click does: with the select tool it selects, otherwise it
/// places unless it landed on existing text.
pub fn click_outcome(
    clicked: bool,
    selection_tool_active: bool,
    on_existing_text: bool,
) -> (outcome: ClickOutcome)
    ensures
        !clicked ==> outcome == ClickOutcome::Ignore,
        clicked && selection_tool_active ==> outcome == ClickOutcome::Select,
        clicked && !selection_tool_active && on_existing_text ==> outcome == ClickOutcome::Ignore,
        clicked && !selection_tool_active && !on_existing_text ==> outcome == ClickOutcome::Place,
{
    if clicked && selection_tool_active {
        ClickOutcome::Select
    } else if clicked && !on_existing_text {
        ClickOutcome::Place
    } else {
        ClickOutcome::Ignore
    }
}

} // verus!
