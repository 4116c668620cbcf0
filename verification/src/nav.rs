//! Reusable menu navigation state.
//!
//! A menu cursor (current selection and scroll offset) round-trips
//! between successive menu invocations: the caller carries the state
//! out of one menu and hands it back on re-entry, so reopening a menu
//! restores the previously highlighted item instead of the first one.

use vstd::prelude::*;

verus! {

/// The cursor of one menu: the highlighted item and the first visible
/// row of the scrolled view.
#[derive(Clone, Copy, Debug, PartialEq, Eq, Structural)]
pub struct MenuState {
    pub selected: usize,
    pub scroll: usize,
}

/// A cursor component clamped into the item range of a menu.
pub open spec fn spec_clamped(v: usize, item_count: usize) -> usize {
    if v < item_count {
        v
    } else {
        (item_count - 1) as usize
    }
}

/// The selection that entering a menu of `item_count` items restores
/// from a carried-over state: the previous selection, clamped into the
/// item range, or the first item when no state is carried.
pub open spec fn spec_restored(prev: Option<MenuState>, item_count: usize) -> usize {
    match prev {
        None => 0,
        Some(s) => spec_clamped(s.selected, item_count),
    }
}

impl MenuState {
    /// The cursor that a freshly opened menu starts with.
    pub fn new() -> (r: MenuState)
        ensures
            r.selected == 0,
            r.scroll == 0,
    {
        MenuState { selected: 0, scroll: 0 }
    }

    /// Enters a menu of `item_count` items, restoring the carried-over
    /// cursor when one is given.  A selection that no longer fits (the
    /// menu shrank since the state was taken) is clamped to the last
    /// item; the scroll offset is clamped the same way.
    pub fn enter(prev: Option<MenuState>, item_count: usize) -> (r: MenuState)
        requires
            item_count > 0,
        ensures
            r.selected == spec_restored(prev, item_count),
            r.scroll == match prev {
                None => 0usize,
                Some(s) => spec_clamped(s.scroll, item_count),
            },
    {
        match prev {
            None => MenuState { selected: 0, scroll: 0 },
            Some(s) => MenuState {
                selected: if s.selected < item_count {
                    s.selected
                } else {
                    item_count - 1
                },
                scroll: if s.scroll < item_count {
                    s.scroll
                } else {
                    item_count - 1
                },
            },
        }
    }

    /// Moves the highlight one item down, stopping at the last item.
    pub fn move_down(&mut self, item_count: usize)
        requires
            item_count > 0,
            old(self).selected < item_count,
        ensures
            final(self).selected == if old(self).selected + 1 < item_count {
                old(self).selected + 1
            } else {
                old(self).selected as int
            },
            final(self).scroll == old(self).scroll,
    {
        if self.selected + 1 < item_count {
            self.selected = self.selected + 1;
        }
    }

    /// Moves the highlight one item up, stopping at the first item.
    pub fn move_up(&mut self)
        ensures
            final(self).selected == if old(self).selected > 0 {
                old(self).selected - 1
            } else {
                0
            },
            final(self).scroll == old(self).scroll,
    {
        if self.selected > 0 {
            self.selected = self.selected - 1;
        }
    }
}

/// Law: menu navigation state round-trips.  Backing out of a menu with
/// the cursor on item `n` and re-entering a menu of the same size
/// restores the cursor to item `n`, not to the first item.
pub proof fn lemma_menu_state_round_trip(state: MenuState, item_count: usize)
    requires
        state.selected < item_count,
    ensures
        spec_restored(Some(state), item_count) == state.selected,
{
}

} // verus!
