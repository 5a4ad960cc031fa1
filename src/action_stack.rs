//! A linear undo/redo history over batches of edits.
use vstd::prelude::*;
use crate::components::{copy_actions, EditAction, Reversible, TilePos};

verus! {

/// The history as a mathematical value: each entry pairs a batch with the
/// batch that reverses it, and `cursor` counts the entries that are applied.
pub struct StackModel {
    pub cursor: nat,
    pub entries: Seq<(Seq<EditAction>, Seq<EditAction>)>,
}

impl StackModel {
    pub open spec fn wf(self) -> bool {
        self.cursor <= self.entries.len()
    }

    /// The history with nothing recorded.
    pub open spec fn empty() -> StackModel {
        StackModel { cursor: 0, entries: Seq::empty() }
    }

    /// Record a batch: entries past the cursor are dropped, the new pair is
    /// appended and becomes the last applied entry.
    pub open spec fn push(self, value: Seq<EditAction>, undo: Seq<EditAction>) -> StackModel {
        StackModel {
            cursor: self.cursor + 1,
            entries: self.entries.take(self.cursor as int).push((value, undo)),
        }
    }

    /// The history after one step back.
    pub open spec fn undo(self) -> StackModel {
        if self.cursor > 0 {
            StackModel { cursor: (self.cursor - 1) as nat, entries: self.entries }
        } else {
            self
        }
    }

    /// What one step back hands out: the reversing batch of the last applied entry.
    pub open spec fn undone(self) -> Option<Seq<EditAction>> {
        if self.cursor > 0 {
            Some(self.entries[self.cursor - 1].1)
        } else {
            None
        }
    }

    /// The history after one step forward.
    pub open spec fn redo(self) -> StackModel {
        if self.cursor < self.entries.len() {
            StackModel { cursor: self.cursor + 1, entries: self.entries }
        } else {
            self
        }
    }

    /// What one step forward hands out: the batch of the first entry not applied.
    pub open spec fn redone(self) -> Option<Seq<EditAction>> {
        if self.cursor < self.entries.len() {
            Some(self.entries[self.cursor as int].0)
        } else {
            None
        }
    }

    /// The history after `n` steps back.
    pub open spec fn undo_n(self, n: nat) -> StackModel
        decreases n,
    {
        if n == 0 {
            self
        } else {
            self.undo_n((n - 1) as nat).undo()
        }
    }

    /// The history after `n` steps forward.
    pub open spec fn redo_n(self, n: nat) -> StackModel
        decreases n,
    {
        if n == 0 {
            self
        } else {
            self.redo_n((n - 1) as nat).redo()
        }
    }

    /// Position touched last by the most recently pushed batch, whether or
    /// not it has been stepped back over since.
    pub open spec fn last_tilepos(self) -> Option<TilePos> {
        if self.entries.len() > 0 && self.entries.last().0.len() > 0 {
            Some(self.entries.last().0.last().pos())
        } else {
            None
        }
    }
}

/// The editing history of one session.
pub struct ActionStack {
    cursor: usize,
    stack: Vec<Reversible<Vec<EditAction>>>,
}

impl View for ActionStack {
    type V = StackModel;

    closed spec fn view(&self) -> StackModel {
        StackModel {
            cursor: self.cursor as nat,
            entries: self.stack@.map_values(|r: Reversible<Vec<EditAction>>| (r.value@, r.undo@)),
        }
    }
}

impl ActionStack {
    /// An empty history.
    pub fn default() -> (r: Self)
        ensures
            r@ == StackModel::empty(),
    {
        let r = ActionStack { cursor: 0, stack: Vec::new() };
        assert(r@.entries =~= Seq::<(Seq<EditAction>, Seq<EditAction>)>::empty());
        r
    }

    /// The position touched last by the most recently pushed batch; steps
    /// back and forward leave it as it is.
    pub fn last_tilepos(&self) -> (r: Option<TilePos>)
        requires
            self@.wf(),
        ensures
            r == self@.last_tilepos(),
    {
        if self.stack.len() > 0 {
            let last = &self.stack[self.stack.len() - 1];
            let n = last.value.len();
            if n > 0 {
                match last.value[n - 1] {
                    EditAction::PlaceTile { tile_pos, .. } => {
                        return Some(tile_pos);
                    },
                }
            }
        }
        None
    }

    /// Record a batch and the batch that reverses it, dropping whatever could
    /// still have been redone.
    pub fn push(&mut self, value: Vec<EditAction>, undo: Vec<EditAction>)
        requires
            old(self)@.wf(),
        ensures
            final(self)@ == old(self)@.push(value@, undo@),
            final(self)@.wf(),
    {
        if self.cursor < self.stack.len() {
            self.stack.truncate(self.cursor);
        }
        let ghost v = value@;
        let ghost u = undo@;
        self.stack.push(Reversible { value, undo });
        self.cursor = self.stack.len();
        assert(self@.entries =~= old(self)@.entries.take(old(self)@.cursor as int).push((v, u)));
    }

    /// Step back: hands out the batch that reverses the last applied one.
    pub fn undo(&mut self) -> (r: Option<Vec<EditAction>>)
        requires
            old(self)@.wf(),
        ensures
            final(self)@ == old(self)@.undo(),
            final(self)@.wf(),
            r matches Some(b) ==> old(self)@.undone() == Some(b@),
            r is None <==> old(self)@.undone() is None,
    {
        if self.cursor > 0 {
            self.cursor = self.cursor - 1;
            Some(copy_actions(&self.stack[self.cursor].undo))
        } else {
            None
        }
    }

    /// Step forward: hands out the first batch that is not applied.
    pub fn redo(&mut self) -> (r: Option<Vec<EditAction>>)
        requires
            old(self)@.wf(),
        ensures
            final(self)@ == old(self)@.redo(),
            final(self)@.wf(),
            r matches Some(b) ==> old(self)@.redone() == Some(b@),
            r is None <==> old(self)@.redone() is None,
    {
        if self.cursor < self.stack.len() {
            self.cursor = self.cursor + 1;
            Some(copy_actions(&self.stack[self.cursor - 1].value))
        } else {
            None
        }
    }
}

} // verus!
