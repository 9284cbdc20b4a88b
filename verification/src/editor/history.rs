//! Bounded undo/redo history of document snapshots.

use vstd::prelude::*;

verus! {

/// The abstract state of a history: the snapshots that undo can restore (oldest
/// first), the snapshots that redo can restore (most recently undone last), and
/// the bound on the undo side (0 means unbounded).
pub ghost struct HistoryState<S> {
    pub undo: Seq<S>,
    pub redo: Seq<S>,
    pub limit: nat,
}

/// A history holds at most `limit` snapshots in all when it is bounded.
pub open spec fn history_wf<S>(h: HistoryState<S>) -> bool {
    h.limit == 0 || h.undo.len() + h.redo.len() <= h.limit
}

/// The empty history with the given bound.
pub open spec fn history_empty<S>(limit: nat) -> HistoryState<S> {
    HistoryState { undo: Seq::empty(), redo: Seq::empty(), limit }
}

/// Recording `snapshot` as a new undo point: when the undo side is full the oldest
/// snapshot is dropped, and the redo side is always discarded.
pub open spec fn history_checkpoint<S>(h: HistoryState<S>, snapshot: S) -> HistoryState<S> {
    let kept = if h.limit > 0 && h.undo.len() >= h.limit {
        h.undo.drop_first()
    } else {
        h.undo
    };
    HistoryState { undo: kept.push(snapshot), redo: Seq::empty(), limit: h.limit }
}

/// Undoing while the document is `current`: the newest undo snapshot becomes the
/// document and `current` moves to the redo side. Without undo snapshots nothing changes.
pub open spec fn history_undo<S>(h: HistoryState<S>, current: S) -> (HistoryState<S>, S) {
    if h.undo.len() == 0 {
        (h, current)
    } else {
        (
            HistoryState { undo: h.undo.drop_last(), redo: h.redo.push(current), limit: h.limit },
            h.undo.last(),
        )
    }
}

/// Redoing while the document is `current`: the newest redo snapshot becomes the
/// document and `current` moves to the undo side. Without redo snapshots nothing changes.
pub open spec fn history_redo<S>(h: HistoryState<S>, current: S) -> (HistoryState<S>, S) {
    if h.redo.len() == 0 {
        (h, current)
    } else {
        (
            HistoryState { undo: h.undo.push(current), redo: h.redo.drop_last(), limit: h.limit },
            h.redo.last(),
        )
    }
}

/// A bounded history stays within its bound through every checkpoint, undo and redo.
pub proof fn lemma_history_bound_preserved<S>(h: HistoryState<S>, snapshot: S, current: S)
    requires
        history_wf(h),
    ensures
        history_wf(history_checkpoint(h, snapshot)),
        history_wf(history_undo(h, current).0),
        history_wf(history_redo(h, current).0),
{
}

/// After a checkpoint the undo side holds one snapshot more, or exactly `limit`
/// snapshots when it was already full.
pub proof fn lemma_checkpoint_undo_len<S>(h: HistoryState<S>, snapshot: S)
    requires
        history_wf(h),
    ensures
        history_checkpoint(h, snapshot).undo.len() as int == if h.limit > 0 && h.undo.len() >= h.limit {
            h.limit as int
        } else {
            h.undo.len() as int + 1
        },
        history_checkpoint(h, snapshot).undo.last() == snapshot,
        history_checkpoint(h, snapshot).redo.len() == 0,
{
}

/// Undoing right after a checkpoint restores the checkpointed snapshot, and the
/// document it replaces becomes the only redo step.
pub proof fn lemma_undo_restores_checkpoint<S>(h: HistoryState<S>, snapshot: S, current: S)
    ensures
        ({
            let (after, document) = history_undo(history_checkpoint(h, snapshot), current);
            &&& document == snapshot
            &&& after.redo == seq![current]
        }),
{
    let (after, document) = history_undo(history_checkpoint(h, snapshot), current);
    assert(after.redo =~= seq![current]);
}

/// Redo takes back an undo: both the history and the document return to what they were.
pub proof fn lemma_redo_reverts_undo<S>(h: HistoryState<S>, current: S)
    requires
        h.undo.len() > 0,
    ensures
        ({
            let (undone, document) = history_undo(h, current);
            history_redo(undone, document) == (h, current)
        }),
{
    let (undone, document) = history_undo(h, current);
    assert(undone.undo.push(document) =~= h.undo);
    assert(undone.redo.drop_last() =~= h.redo);
}

/// Undo takes back a redo: both the history and the document return to what they were.
pub proof fn lemma_undo_reverts_redo<S>(h: HistoryState<S>, current: S)
    requires
        h.redo.len() > 0,
    ensures
        ({
            let (redone, document) = history_redo(h, current);
            history_undo(redone, document) == (h, current)
        }),
{
    let (redone, document) = history_redo(h, current);
    assert(redone.redo.push(document) =~= h.redo);
    assert(redone.undo.drop_last() =~= h.undo);
}

/// Undo with nothing recorded, and redo with nothing undone, change nothing.
pub proof fn lemma_empty_steps_change_nothing<S>(h: HistoryState<S>, current: S)
    ensures
        h.undo.len() == 0 ==> history_undo(h, current) == (h, current),
        h.redo.len() == 0 ==> history_redo(h, current) == (h, current),
{
}

/// Undo never restores a snapshot that was not recorded: the restored document
/// is the newest undo snapshot.
pub proof fn lemma_undo_restores_recorded<S>(h: HistoryState<S>, current: S)
    requires
        h.undo.len() > 0,
    ensures
        h.undo.contains(history_undo(h, current).1),
        history_undo(h, current).1 == h.undo[h.undo.len() - 1],
{
    assert(h.undo[h.undo.len() - 1] == h.undo.last());
}

/// Snapshots come back newest first: two undos after two checkpoints on a history
/// with room for both give back the second snapshot, then the first.
pub proof fn lemma_two_checkpoints_undo_in_order<S>(h: HistoryState<S>, first: S, second: S, current: S)
    requires
        h.limit == 0 || h.undo.len() + 2 <= h.limit,
    ensures
        ({
            let h2 = history_checkpoint(history_checkpoint(h, first), second);
            let (u1, d1) = history_undo(h2, current);
            let (u2, d2) = history_undo(u1, d1);
            &&& d1 == second
            &&& d2 == first
            &&& u2.undo == h.undo
            &&& u2.redo == seq![current, second]
        }),
{
    let h2 = history_checkpoint(history_checkpoint(h, first), second);
    let (u1, d1) = history_undo(h2, current);
    let (u2, d2) = history_undo(u1, d1);
    assert(h2.undo =~= h.undo.push(first).push(second));
    assert(u1.undo =~= h.undo.push(first));
    assert(u2.undo =~= h.undo);
    assert(u2.redo =~= seq![current, second]);
}

/// The history after recording each of `snapshots` in turn.
pub open spec fn history_checkpoint_all<S>(h: HistoryState<S>, snapshots: Seq<S>) -> HistoryState<S>
    decreases snapshots.len(),
{
    if snapshots.len() == 0 {
        h
    } else {
        history_checkpoint(history_checkpoint_all(h, snapshots.drop_last()), snapshots.last())
    }
}

/// The last `limit` entries of `s` (all of them when `limit` is 0 or `s` is shorter).
pub open spec fn newest<S>(s: Seq<S>, limit: nat) -> Seq<S> {
    if limit == 0 || s.len() <= limit {
        s
    } else {
        s.subrange(s.len() - limit, s.len() as int)
    }
}

/// A bounded history keeps exactly the newest `limit` snapshots, oldest first:
/// whatever is recorded, the undo side is the tail of everything recorded so far.
pub proof fn lemma_history_keeps_newest_snapshots<S>(h: HistoryState<S>, snapshots: Seq<S>)
    requires
        h.limit == 0 || h.undo.len() <= h.limit,
    ensures
        history_checkpoint_all(h, snapshots).undo == newest(h.undo + snapshots, h.limit),
        history_checkpoint_all(h, snapshots).limit == h.limit,
        snapshots.len() > 0 ==> history_checkpoint_all(h, snapshots).redo.len() == 0,
    decreases snapshots.len(),
{
    if snapshots.len() > 0 {
        let rest = snapshots.drop_last();
        let x = snapshots.last();
        lemma_history_keeps_newest_snapshots(h, rest);
        let t = h.undo + rest;
        let u = newest(t, h.limit);
        assert(h.undo + snapshots =~= t.push(x));
        let n = t.len();
        let l = h.limit;
        if l == 0 || n < l {
            assert(newest(t.push(x), l) =~= t.push(x));
        } else {
            assert(u.len() == l);
            assert(u.drop_first().push(x) =~= t.push(x).subrange(n + 1 - l, n as int + 1));
        }
    }
}

/// Undo and redo stacks of snapshots of type `S`.
pub struct HistoryManager<S> {
    undo_stack: Vec<S>,
    redo_stack: Vec<S>,
    limit: usize,
}

impl<S> View for HistoryManager<S> {
    type V = HistoryState<S>;

    closed spec fn view(&self) -> HistoryState<S> {
        HistoryState { undo: self.undo_stack@, redo: self.redo_stack@, limit: self.limit as nat }
    }
}

impl<S> HistoryManager<S> {
    #[verifier::type_invariant]
    closed spec fn inv(self) -> bool {
        history_wf(self@)
    }

    /// An empty history that keeps at most `limit` snapshots (0: no bound).
    pub fn new(limit: usize) -> (h: Self)
        ensures
            h@ == history_empty::<S>(limit as nat),
    {
        HistoryManager { undo_stack: Vec::new(), redo_stack: Vec::new(), limit }
    }

    /// Records `snapshot` (the document as it was before an edit) as an undo point.
    pub fn checkpoint(&mut self, snapshot: S)
        ensures
            final(self)@ == history_checkpoint(old(self)@, snapshot),
    {
        proof {
            use_type_invariant(&*self);
        }
        let ghost h = self@;
        let mut undo_stack = Vec::new();
        std::mem::swap(&mut undo_stack, &mut self.undo_stack);
        let mut redo_stack = Vec::new();
        std::mem::swap(&mut redo_stack, &mut self.redo_stack);
        if self.limit > 0 && undo_stack.len() >= self.limit {
            undo_stack.remove(0);
        }
        undo_stack.push(snapshot);
        redo_stack.clear();
        assert(undo_stack@ =~= history_checkpoint(h, snapshot).undo);
        self.undo_stack = undo_stack;
        self.redo_stack = redo_stack;
    }

    /// Steps back: `document` becomes the newest undo snapshot and its former
    /// value is kept for redo. Returns whether there was anything to undo.
    pub fn undo(&mut self, document: &mut S) -> (changed: bool)
        ensures
            changed == (old(self)@.undo.len() > 0),
            (final(self)@, *final(document)) == history_undo(old(self)@, *old(document)),
    {
        proof {
            use_type_invariant(&*self);
        }
        let mut undo_stack = Vec::new();
        std::mem::swap(&mut undo_stack, &mut self.undo_stack);
        match undo_stack.pop() {
            None => {
                self.undo_stack = undo_stack;
                false
            },
            Some(snapshot) => {
                let mut previous = snapshot;
                std::mem::swap(&mut previous, document);
                let mut redo_stack = Vec::new();
                std::mem::swap(&mut redo_stack, &mut self.redo_stack);
                redo_stack.push(previous);
                self.undo_stack = undo_stack;
                self.redo_stack = redo_stack;
                true
            },
        }
    }

    /// Steps forward again: `document` becomes the newest redo snapshot and its
    /// former value is kept for undo. Returns whether there was anything to redo.
    pub fn redo(&mut self, document: &mut S) -> (changed: bool)
        ensures
            changed == (old(self)@.redo.len() > 0),
            (final(self)@, *final(document)) == history_redo(old(self)@, *old(document)),
    {
        proof {
            use_type_invariant(&*self);
        }
        let mut redo_stack = Vec::new();
        std::mem::swap(&mut redo_stack, &mut self.redo_stack);
        match redo_stack.pop() {
            None => {
                self.redo_stack = redo_stack;
                false
            },
            Some(snapshot) => {
                let mut previous = snapshot;
                std::mem::swap(&mut previous, document);
                let mut undo_stack = Vec::new();
                std::mem::swap(&mut undo_stack, &mut self.undo_stack);
                undo_stack.push(previous);
                self.undo_stack = undo_stack;
                self.redo_stack = redo_stack;
                true
            },
        }
    }

    /// Whether an undo step is available.
    pub fn can_undo(&self) -> (r: bool)
        ensures
            r == (self@.undo.len() > 0),
    {
        self.undo_stack.len() > 0
    }

    /// Whether a redo step is available.
    pub fn can_redo(&self) -> (r: bool)
        ensures
            r == (self@.redo.len() > 0),
    {
        self.redo_stack.len() > 0
    }
}

} // verus!
