use snapture::editor::canvas::{
    choose_drag_start, click_outcome, crop_cursor, crop_interaction_at, handle_edges,
    ClickOutcome, CropHandle, CropInteractionKind, CursorShape, DragStart, PointerNearBox,
};

fn pointer(
    near_left: bool,
    near_right: bool,
    near_top: bool,
    near_bottom: bool,
    inside: bool,
) -> PointerNearBox {
    PointerNearBox {
        near_left,
        near_right,
        near_top,
        near_bottom,
        within_x: true,
        within_y: true,
        inside,
    }
}

#[test]
fn corners_win_over_sides_and_sides_over_moving() {
    assert_eq!(
        crop_interaction_at(pointer(true, false, true, false, true)),
        Some(CropInteractionKind::Resize(CropHandle::NorthWest))
    );
    assert_eq!(
        crop_interaction_at(pointer(false, true, false, true, true)),
        Some(CropInteractionKind::Resize(CropHandle::SouthEast))
    );
    assert_eq!(
        crop_interaction_at(pointer(false, false, true, false, true)),
        Some(CropInteractionKind::Resize(CropHandle::North))
    );
    assert_eq!(
        crop_interaction_at(pointer(true, false, false, false, true)),
        Some(CropInteractionKind::Resize(CropHandle::West))
    );
    assert_eq!(
        crop_interaction_at(pointer(false, false, false, false, true)),
        Some(CropInteractionKind::Move)
    );
    assert_eq!(crop_interaction_at(pointer(false, false, false, false, false)), None);
}

#[test]
fn a_side_needs_the_pointer_along_it() {
    let mut p = pointer(false, false, true, false, false);
    p.within_x = false;
    assert_eq!(crop_interaction_at(p), None);
}

#[test]
fn handles_drag_their_edges() {
    let corner = handle_edges(CropHandle::NorthEast);
    assert!(corner.top && corner.right && !corner.left && !corner.bottom);
    let side = handle_edges(CropHandle::South);
    assert!(side.bottom && !side.top && !side.left && !side.right);
}

#[test]
fn cursors_follow_the_handle() {
    assert_eq!(crop_cursor(CropInteractionKind::Move), CursorShape::Grab);
    assert_eq!(
        crop_cursor(CropInteractionKind::Resize(CropHandle::East)),
        CursorShape::ResizeHorizontal
    );
    assert_eq!(
        crop_cursor(CropInteractionKind::Resize(CropHandle::SouthWest)),
        CursorShape::ResizeNeSw
    );
}

#[test]
fn a_drag_goes_to_the_first_thing_it_can_grab() {
    assert_eq!(
        choose_drag_start(true, true, true, true, true, false, false),
        DragStart::CropBox
    );
    assert_eq!(
        choose_drag_start(false, true, true, false, false, false, true),
        DragStart::SelectionBox
    );
    assert_eq!(
        choose_drag_start(false, false, true, false, false, false, true),
        DragStart::ObjectUnderPointer
    );
    assert_eq!(
        choose_drag_start(false, false, false, true, false, true, false),
        DragStart::Text
    );
}

#[test]
fn a_drag_on_nothing_draws_only_with_a_drawing_tool() {
    assert_eq!(
        choose_drag_start(false, false, false, false, false, false, false),
        DragStart::Draw
    );
    assert_eq!(
        choose_drag_start(false, false, false, false, true, false, false),
        DragStart::Nothing
    );
    assert_eq!(
        choose_drag_start(false, false, false, false, false, true, false),
        DragStart::Nothing
    );
    assert_eq!(
        choose_drag_start(false, false, false, false, false, false, true),
        DragStart::Nothing
    );
}

#[test]
fn clicks_select_place_or_are_ignored() {
    assert_eq!(click_outcome(false, true, false), ClickOutcome::Ignore);
    assert_eq!(click_outcome(true, true, true), ClickOutcome::Select);
    assert_eq!(click_outcome(true, false, false), ClickOutcome::Place);
    assert_eq!(click_outcome(true, false, true), ClickOutcome::Ignore);
}
