//! Viewport scrolling: which contiguous window of the list is visible.

use vstd::prelude::*;

verus! {

/// Scrolling state owned by the caller, persisted across frames and updated
/// in place on every render pass.
pub struct ListState {
    /// Index of the first visible item.
    pub offset: usize,
    /// Absolute index of the active item.
    pub selected: usize,
    /// Number of rows of the window computed by the last render pass.
    pub max_entries: usize,
}

impl ListState {
    pub fn selected(&self) -> (r: usize)
        ensures
            r == self.selected,
    {
        self.selected
    }

    pub fn max_entries(&self) -> (r: usize)
        ensures
            r == self.max_entries,
    {
        self.max_entries
    }

    pub fn select(&mut self, index: usize)
        ensures
            final(self).selected == index,
            final(self).offset == old(self).offset,
            final(self).max_entries == old(self).max_entries,
    {
        self.selected = index;
    }
}

impl Default for ListState {
    fn default() -> (r: Self)
        ensures
            r.offset == 0 && r.selected == 0 && r.max_entries == 0,
    {
        ListState { offset: 0, selected: 0, max_entries: 0 }
    }
}

/// Head-room kept below the cursor is capped at this many rows.
pub open spec fn margin_cap() -> int {
    10
}

/// Rows of slack kept below the cursor: never more than the viewport height,
/// the cap, or what remains of the list past the selection.
pub open spec fn margin_spec(height: int, length: int, selected: int) -> int {
    let rest = length - selected;
    let cap = if margin_cap() < rest {
        margin_cap()
    } else {
        rest
    };
    if height < cap {
        height
    } else {
        cap
    }
}

/// The scrolling policy: a lazy window with a bounded bottom margin.
/// The prior offset is clamped into the list; the window then either snaps so
/// its bottom edge sits exactly `margin` rows past the selection (when the
/// selection would otherwise run out the bottom), snaps its top edge to the
/// selection (when the selection moved above the window), or stays where it
/// was.
pub open spec fn bounds_spec(selected: int, offset: int, height: int, length: int) -> (int, int) {
    let last = if length >= 1 {
        length - 1
    } else {
        0
    };
    let off = if offset < last {
        offset
    } else {
        last
    };
    let margin = margin_spec(height, length, selected);
    if off + height < selected + margin {
        (selected + margin - height, selected + margin)
    } else if selected < off {
        (selected, selected + height)
    } else {
        (off, off + height)
    }
}

/// Computes the visible window `[start, end)` for one render pass.
pub fn get_items_bounds(selected: usize, offset: usize, height: usize, length: usize) -> (r: (
    usize,
    usize,
))
    requires
        selected < length,
        1 <= height,
        length + height <= usize::MAX,
    ensures
        (r.0 as int, r.1 as int) == bounds_spec(
            selected as int,
            offset as int,
            height as int,
            length as int,
        ),
        r.0 <= selected < r.1,
        r.1 - r.0 == height,
{
    let last: usize = length - 1;
    let off: usize = if offset < last {
        offset
    } else {
        last
    };
    let rest: usize = length - selected;
    let cap: usize = if 10 < rest {
        10
    } else {
        rest
    };
    let margin: usize = if height < cap {
        height
    } else {
        cap
    };
    if off + height < selected + margin {
        (selected + margin - height, selected + margin)
    } else if selected < off {
        (selected, selected + height)
    } else {
        (off, off + height)
    }
}

/// For a positive viewport height and a selection inside a list that the
/// window fits into, the computed window contains the selection, is no taller
/// than the viewport, and stays inside the list. The window-fits premise
/// (`offset + height <= length`) is needed: the policy always returns a
/// window exactly `height` rows tall, so when the viewport outgrows the list
/// the window's end passes the list's end and the caller cuts the row count
/// to the list instead.
pub proof fn lemma_bounds_in_window(selected: int, offset: int, height: int, length: int)
    requires
        0 < height,
        0 <= selected < length,
        0 <= offset,
        offset + height <= length,
    ensures
        ({
            let (start, end) = bounds_spec(selected, offset, height, length);
            &&& start <= selected < end
            &&& end - start <= height
            &&& 0 <= start
            &&& end <= length
        }),
{
}

} // verus!
