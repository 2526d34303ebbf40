//! Snapshot-based undo/redo history.
//!
//! The history keeps two stacks of full document texts, not diffs. Recording
//! an edit pushes the previous text onto the undo stack and clears the redo
//! stack; undoing moves the current text onto the redo stack and hands back
//! the text to restore, and redoing is symmetric.

use vstd::prelude::*;

verus! {

/// Mathematical model of a history: the two stacks as sequences of texts,
/// oldest first.
pub struct HistoryModel {
    pub undo: Seq<Seq<char>>,
    pub redo: Seq<Seq<char>>,
}

/// The texts held by a stack of strings, oldest first.
pub open spec fn texts_of(v: Seq<String>) -> Seq<Seq<char>> {
    v.map_values(|s: String| s@)
}

/// Undo/redo stacks of full-text snapshots. Depth is unbounded: no capacity
/// eviction takes place, matching the intended small-document scale.
pub struct SnapshotHistory {
    undo: Vec<String>,
    redo: Vec<String>,
}

impl View for SnapshotHistory {
    type V = HistoryModel;

    closed spec fn view(&self) -> HistoryModel {
        HistoryModel { undo: texts_of(self.undo@), redo: texts_of(self.redo@) }
    }
}

proof fn lemma_texts_of_push(v: Seq<String>, s: String)
    ensures
        texts_of(v.push(s)) == texts_of(v).push(s@),
{
    assert(texts_of(v.push(s)) =~= texts_of(v).push(s@));
}

proof fn lemma_texts_of_drop_last(v: Seq<String>)
    requires
        v.len() > 0,
    ensures
        texts_of(v.drop_last()) == texts_of(v).drop_last(),
        v.last()@ == texts_of(v).last(),
{
    assert(texts_of(v.drop_last()) =~= texts_of(v).drop_last());
}

impl SnapshotHistory {
    /// A fresh history with both stacks empty.
    pub fn new() -> (h: Self)
        ensures
            h@.undo == Seq::<Seq<char>>::empty(),
            h@.redo == Seq::<Seq<char>>::empty(),
    {
        let h = SnapshotHistory { undo: Vec::new(), redo: Vec::new() };
        proof {
            assert(h@.undo =~= Seq::<Seq<char>>::empty());
            assert(h@.redo =~= Seq::<Seq<char>>::empty());
        }
        h
    }

    /// Number of entries available to undo.
    pub fn undo_depth(&self) -> (n: usize)
        ensures
            n == self@.undo.len(),
    {
        self.undo.len()
    }

    /// Number of entries available to redo.
    pub fn redo_depth(&self) -> (n: usize)
        ensures
            n == self@.redo.len(),
    {
        self.redo.len()
    }

    /// Record a committed user edit: push the text as it stood before the
    /// edit onto the undo stack and clear the redo stack. To be called only
    /// for changes that were not programmatic and actually changed the text.
    pub fn record_edit(&mut self, previous: String)
        ensures
            final(self)@.undo == old(self)@.undo.push(previous@),
            final(self)@.redo == Seq::<Seq<char>>::empty(),
    {
        let ghost u0 = self.undo@;
        self.undo.push(previous);
        self.redo.clear();
        proof {
            lemma_texts_of_push(u0, previous);
            assert(texts_of(self.redo@) =~= Seq::<Seq<char>>::empty());
        }
    }

    /// Drop both stacks; used when a new document replaces the current one.
    pub fn clear(&mut self)
        ensures
            final(self)@.undo == Seq::<Seq<char>>::empty(),
            final(self)@.redo == Seq::<Seq<char>>::empty(),
    {
        self.undo.clear();
        self.redo.clear();
        proof {
            assert(texts_of(self.undo@) =~= Seq::<Seq<char>>::empty());
            assert(texts_of(self.redo@) =~= Seq::<Seq<char>>::empty());
        }
    }

    /// Undo one step: pop the most recent undo snapshot and return it as the
    /// text to restore, pushing `current` (the text being replaced) onto the
    /// redo stack. With an empty undo stack this is a no-op, not an error.
    pub fn undo(&mut self, current: &String) -> (r: Option<String>)
        ensures
            old(self)@.undo.len() == 0 ==> r is None && final(self)@ == old(self)@,
            old(self)@.undo.len() > 0 ==> {
                &&& r matches Some(t) && t@ == old(self)@.undo.last()
                &&& final(self)@.undo == old(self)@.undo.drop_last()
                &&& final(self)@.redo == old(self)@.redo.push(current@)
            },
    {
        let ghost u0 = self.undo@;
        let ghost r0 = self.redo@;
        match self.undo.pop() {
            None => {
                proof {
                    assert(final(self)@ =~= old(self)@);
                }
                None
            },
            Some(t) => {
                self.redo.push(current.clone());
                proof {
                    lemma_texts_of_drop_last(u0);
                    lemma_texts_of_push(r0, *current);
                }
                Some(t)
            },
        }
    }

    /// Redo one step: pop the most recent redo snapshot and return it as the
    /// text to restore, pushing `current` onto the undo stack. With an empty
    /// redo stack this is a no-op, not an error.
    pub fn redo(&mut self, current: &String) -> (r: Option<String>)
        ensures
            old(self)@.redo.len() == 0 ==> r is None && final(self)@ == old(self)@,
            old(self)@.redo.len() > 0 ==> {
                &&& r matches Some(t) && t@ == old(self)@.redo.last()
                &&& final(self)@.redo == old(self)@.redo.drop_last()
                &&& final(self)@.undo == old(self)@.undo.push(current@)
            },
    {
        let ghost u0 = self.undo@;
        let ghost r0 = self.redo@;
        match self.redo.pop() {
            None => {
                proof {
                    assert(final(self)@ =~= old(self)@);
                }
                None
            },
            Some(t) => {
                self.undo.push(current.clone());
                proof {
                    lemma_texts_of_drop_last(r0);
                    lemma_texts_of_push(u0, *current);
                }
                Some(t)
            },
        }
    }
}

} // verus!
