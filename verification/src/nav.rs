//! Bounded-index selection list: the navigation core that every diagnostic
//! category shares.  The selected index is clamped to the list, never
//! wrapped; on an empty list it stays at zero.

use vstd::prelude::*;

verus! {

/// Where a single clamped move lands: down means towards the end of the
/// list.  At either boundary (or on an empty list) the index is unchanged.
pub open spec fn moved_index(len: nat, sel: nat, down: bool) -> nat {
    if down {
        if sel + 1 < len {
            sel + 1
        } else {
            sel
        }
    } else {
        if sel > 0 {
            (sel - 1) as nat
        } else {
            0
        }
    }
}

/// Where a whole sequence of clamped moves lands, applied first to last.
pub open spec fn apply_moves(len: nat, sel: nat, moves: Seq<bool>) -> nat
    decreases moves.len(),
{
    if moves.len() == 0 {
        sel
    } else {
        apply_moves(len, moved_index(len, sel, moves[0]), moves.drop_first())
    }
}

/// An ordered list of entries with one highlighted index.
///
/// Invariant: the index is strictly below the length whenever the list is
/// non-empty, and exactly zero when it is empty.
pub struct NavigableList {
    pub items: Vec<String>,
    pub selected: usize,
}

impl NavigableList {
    pub open spec fn wf(self) -> bool {
        if self.items@.len() == 0 {
            self.selected == 0
        } else {
            self.selected < self.items@.len()
        }
    }

    pub fn new() -> (r: Self)
        ensures
            r.wf(),
            r.items@.len() == 0,
            r.selected == 0,
    {
        NavigableList { items: Vec::new(), selected: 0 }
    }

    pub fn from_items(items: Vec<String>) -> (r: Self)
        ensures
            r.wf(),
            r.items == items,
            r.selected == 0,
    {
        NavigableList { items, selected: 0 }
    }

    /// Replace the entries and reset the highlight to the top.
    pub fn set_items(&mut self, items: Vec<String>)
        ensures
            final(self).wf(),
            final(self).items == items,
            final(self).selected == 0,
    {
        self.items = items;
        self.selected = 0;
    }

    /// Drop every entry; the highlight returns to the top.
    pub fn clear(&mut self)
        ensures
            final(self).wf(),
            final(self).items@.len() == 0,
            final(self).selected == 0,
    {
        self.items = Vec::new();
        self.selected = 0;
    }

    pub fn len(&self) -> (n: usize)
        ensures
            n == self.items@.len(),
    {
        self.items.len()
    }

    pub fn is_empty(&self) -> (r: bool)
        ensures
            r == (self.items@.len() == 0),
    {
        self.items.len() == 0
    }

    pub fn selected_index(&self) -> (i: usize)
        ensures
            i == self.selected,
    {
        self.selected
    }

    /// The highlighted entry, or nothing when the list is empty.
    pub fn selected_item(&self) -> (r: Option<String>)
        requires
            self.wf(),
        ensures
            self.items@.len() == 0 ==> r is None,
            self.items@.len() > 0 ==> r == Some(self.items@[self.selected as int]),
    {
        if self.items.len() == 0 {
            None
        } else {
            Some(self.items[self.selected].clone())
        }
    }

    /// Move the highlight one entry towards the end, clamped: at the last
    /// entry (or on an empty list) nothing changes.
    pub fn move_down(&mut self)
        requires
            old(self).wf(),
        ensures
            final(self).wf(),
            final(self).items == old(self).items,
            final(self).selected == moved_index(
                old(self).items@.len() as nat,
                old(self).selected as nat,
                true,
            ),
            old(self).items@.len() == 0 || old(self).selected == old(self).items@.len() - 1
                ==> final(self).selected == old(self).selected,
    {
        let n = self.items.len();
        if n > 0 && self.selected + 1 < n {
            self.selected = self.selected + 1;
        }
    }

    /// Move the highlight one entry towards the start, clamped: at the first
    /// entry nothing changes.
    pub fn move_up(&mut self)
        requires
            old(self).wf(),
        ensures
            final(self).wf(),
            final(self).items == old(self).items,
            final(self).selected == moved_index(
                old(self).items@.len() as nat,
                old(self).selected as nat,
                false,
            ),
            old(self).selected == 0 ==> final(self).selected == old(self).selected,
    {
        if self.selected > 0 {
            self.selected = self.selected - 1;
        }
    }

    /// Move the highlight by one step in either direction, clamped at both
    /// boundaries.
    pub fn move_selection(&mut self, delta: i32)
        requires
            old(self).wf(),
            delta == 1 || delta == -1,
        ensures
            final(self).wf(),
            final(self).items == old(self).items,
            final(self).selected == moved_index(
                old(self).items@.len() as nat,
                old(self).selected as nat,
                delta == 1,
            ),
    {
        if delta == 1 {
            self.move_down();
        } else {
            self.move_up();
        }
    }
}

/// One clamped move keeps the invariant: the landing index is in range for a
/// non-empty list and zero for an empty one.
pub proof fn lemma_move_stays_in_range(len: nat, sel: nat, down: bool)
    requires
        if len == 0 {
            sel == 0
        } else {
            sel < len
        },
    ensures
        if len == 0 {
            moved_index(len, sel, down) == 0
        } else {
            moved_index(len, sel, down) < len
        },
{
}

/// After any sequence of clamped moves the selected index is still in
/// `[0, len - 1]` for a non-empty list, and still zero for an empty one.
pub proof fn lemma_moves_stay_in_range(len: nat, sel: nat, moves: Seq<bool>)
    requires
        if len == 0 {
            sel == 0
        } else {
            sel < len
        },
    ensures
        if len == 0 {
            apply_moves(len, sel, moves) == 0
        } else {
            apply_moves(len, sel, moves) < len
        },
    decreases moves.len(),
{
    if moves.len() > 0 {
        lemma_move_stays_in_range(len, sel, moves[0]);
        lemma_moves_stay_in_range(len, moved_index(len, sel, moves[0]), moves.drop_first());
    }
}

/// A move at either boundary is a no-op: moving down at the last index or up
/// at index zero leaves the selection unchanged.
pub proof fn lemma_move_boundary_noop(len: nat, sel: nat)
    requires
        if len == 0 {
            sel == 0
        } else {
            sel < len
        },
    ensures
        len > 0 && sel == len - 1 ==> moved_index(len, sel, true) == sel,
        sel == 0 ==> moved_index(len, sel, false) == sel,
        len == 0 ==> moved_index(len, sel, true) == sel && moved_index(len, sel, false) == sel,
{
}

} // verus!
