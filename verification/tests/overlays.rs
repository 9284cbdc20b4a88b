use snapture::editor::overlays::OverlayList;

#[test]
fn annotations_are_added_on_top_and_crops_are_not_kept() {
    let mut list = OverlayList::new();
    list.add("pen", true);
    list.add("crop", false);
    list.add("arrow", true);
    assert_eq!(list.as_slice(), &["pen", "arrow"]);
    assert_eq!(list.len(), 2);
}

#[test]
fn replacing_needs_an_annotation_at_the_index() {
    let mut list = OverlayList::from_vec(vec![1, 2, 3]);
    assert!(list.set(1, 20));
    assert_eq!(list.as_slice(), &[1, 20, 3]);
    assert!(!list.set(3, 40));
    assert_eq!(list.as_slice(), &[1, 20, 3]);
    assert_eq!(list.get(1), Some(&20));
    assert_eq!(list.get(3), None);
}

#[test]
fn removing_moves_later_annotations_down() {
    let mut list = OverlayList::from_vec(vec![1, 2, 3]);
    assert!(list.remove(0));
    assert_eq!(list.as_slice(), &[2, 3]);
    assert!(!list.remove(2));
    assert_eq!(list.as_slice(), &[2, 3]);
}

#[test]
fn removing_what_was_just_added_restores_the_list() {
    let mut list = OverlayList::from_vec(vec![1, 2]);
    list.add(3, true);
    assert!(list.remove(2));
    assert_eq!(list.as_slice(), &[1, 2]);
}
