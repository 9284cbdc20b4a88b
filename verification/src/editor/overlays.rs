//! The document's list of annotations, in drawing order.

use vstd::prelude::*;

verus! {

/// The annotations drawn over the base image, first drawn first.
#[derive(Clone, Debug)]
pub struct OverlayList<T> {
    items: Vec<T>,
}

impl<T> View for OverlayList<T> {
    type V = Seq<T>;

    closed spec fn view(&self) -> Seq<T> {
        self.items@
    }
}

impl<T> OverlayList<T> {
    /// A list with no annotations.
    pub fn new() -> (list: Self)
        ensures
            list@ == Seq::<T>::empty(),
    {
        OverlayList { items: Vec::new() }
    }

    /// A list holding `items`, in their order (used when a snapshot is restored).
    pub fn from_vec(items: Vec<T>) -> (list: Self)
        ensures
            list@ == items@,
    {
        OverlayList { items }
    }

    /// The annotations, in drawing order.
    pub fn as_slice(&self) -> (items: &[T])
        ensures
            items@ == self@,
    {
        self.items.as_slice()
    }

    /// The number of annotations.
    pub fn len(&self) -> (n: usize)
        ensures
            n == self@.len(),
    {
        self.items.len()
    }

    /// The annotation at `index`, if there is one.
    pub fn get(&self, index: usize) -> (item: Option<&T>)
        ensures
            index < self@.len() ==> item == Some(&self@[index as int]),
            index >= self@.len() ==> item is None,
    {
        if index < self.items.len() {
            Some(&self.items[index])
        } else {
            None
        }
    }

    /// Adds `item` on top of the others when it is an annotation; a crop box
    /// (`is_annotation` false) is never kept in the list.
    pub fn add(&mut self, item: T, is_annotation: bool)
        ensures
            is_annotation ==> final(self)@ == old(self)@.push(item),
            !is_annotation ==> final(self)@ == old(self)@,
    {
        if is_annotation {
            self.items.push(item);
        }
    }

    /// Replaces the annotation at `index`; false, and nothing changes, when there
    /// is none there.
    pub fn set(&mut self, index: usize, item: T) -> (replaced: bool)
        ensures
            replaced == (index < old(self)@.len()),
            replaced ==> final(self)@ == old(self)@.update(index as int, item),
            !replaced ==> final(self)@ == old(self)@,
    {
        if index < self.items.len() {
            self.items.set(index, item);
            true
        } else {
            false
        }
    }

    /// Removes the annotation at `index`, moving the later ones down; false, and
    /// nothing changes, when there is none there.
    pub fn remove(&mut self, index: usize) -> (removed: bool)
        ensures
            removed == (index < old(self)@.len()),
            removed ==> final(self)@ == old(self)@.remove(index as int),
            !removed ==> final(self)@ == old(self)@,
    {
        if index < self.items.len() {
            self.items.remove(index);
            true
        } else {
            false
        }
    }
}

/// Removing the annotation that was just added gives the list as it was.
pub proof fn lemma_remove_undoes_add<T>(items: Seq<T>, item: T)
    ensures
        items.push(item).remove(items.len() as int) == items,
{
    assert(items.push(item).remove(items.len() as int) =~= items);
}

} // verus!
