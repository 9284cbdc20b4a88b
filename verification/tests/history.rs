use snapture::editor::history::HistoryManager;

#[test]
fn new_history_has_nothing_to_undo_or_redo() {
    let history: HistoryManager<i32> = HistoryManager::new(4);
    assert!(!history.can_undo());
    assert!(!history.can_redo());
}

#[test]
fn undo_restores_the_checkpointed_document() {
    let mut history = HistoryManager::new(8);
    let mut document = 1;
    history.checkpoint(document);
    document = 2;
    assert!(history.undo(&mut document));
    assert_eq!(document, 1);
    assert!(history.can_redo());
    assert!(!history.can_undo());
}

#[test]
fn redo_takes_back_an_undo() {
    let mut history = HistoryManager::new(8);
    let mut document = String::from("first");
    history.checkpoint(document.clone());
    document = String::from("second");
    assert!(history.undo(&mut document));
    assert_eq!(document, "first");
    assert!(history.redo(&mut document));
    assert_eq!(document, "second");
    assert!(history.can_undo());
    assert!(!history.can_redo());
}

#[test]
fn undo_and_redo_without_steps_change_nothing() {
    let mut history: HistoryManager<i32> = HistoryManager::new(2);
    let mut document = 7;
    assert!(!history.undo(&mut document));
    assert!(!history.redo(&mut document));
    assert_eq!(document, 7);
}

#[test]
fn checkpoint_discards_redo_steps() {
    let mut history = HistoryManager::new(8);
    let mut document = 1;
    history.checkpoint(document);
    document = 2;
    history.undo(&mut document);
    assert!(history.can_redo());
    history.checkpoint(document);
    assert!(!history.can_redo());
}

#[test]
fn full_history_drops_the_oldest_snapshot() {
    let mut history = HistoryManager::new(2);
    let mut document = 0;
    for next in 1..=3 {
        history.checkpoint(document);
        document = next;
    }
    // snapshots 1 and 2 are kept; 0 was dropped
    assert!(history.undo(&mut document));
    assert_eq!(document, 2);
    assert!(history.undo(&mut document));
    assert_eq!(document, 1);
    assert!(!history.undo(&mut document));
    assert_eq!(document, 1);
}

#[test]
fn unbounded_history_keeps_everything() {
    let mut history = HistoryManager::new(0);
    let mut document = 0;
    for next in 1..=100 {
        history.checkpoint(document);
        document = next;
    }
    let mut undone = 0;
    while history.undo(&mut document) {
        undone += 1;
    }
    assert_eq!(undone, 100);
    assert_eq!(document, 0);
}

#[test]
fn undo_gives_snapshots_back_newest_first() {
    let mut history = HistoryManager::new(5);
    let mut document = 'a';
    history.checkpoint(document);
    document = 'b';
    history.checkpoint(document);
    document = 'c';
    history.undo(&mut document);
    assert_eq!(document, 'b');
    history.undo(&mut document);
    assert_eq!(document, 'a');
    history.redo(&mut document);
    assert_eq!(document, 'b');
    history.redo(&mut document);
    assert_eq!(document, 'c');
}
