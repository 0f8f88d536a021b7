//! List selection shared by the three panes.
use vstd::prelude::*;

verus! {

/// Which row of a list is highlighted, if any.
pub struct ListSelection {
    pub selected: Option<usize>,
}

/// A selection that names no row, or a row of a list of `len` rows.
pub open spec fn sel_in_range(sel: Option<usize>, len: nat) -> bool {
    match sel {
        Some(i) => i < len,
        None => true,
    }
}

/// `n` read as a signed machine integer, as `n as isize` reads it: values
/// above `isize::MAX` wrap around to negative ones.
pub open spec fn as_signed(n: int) -> int {
    if n <= isize::MAX {
        n
    } else {
        n - (usize::MAX + 1)
    }
}

/// The selection after moving `steps` rows with wrap-around: an empty list has
/// no selection, no selection lands on the first row, otherwise the current
/// row, read as a signed integer, plus `steps` is taken modulo the length,
/// also read as a signed integer (Euclidean, so it never leaves the list).
pub open spec fn advanced(sel: Option<usize>, len: nat, steps: int) -> Option<usize> {
    if len == 0 {
        None
    } else {
        match sel {
            None => Some(0),
            Some(cur) => Some(((as_signed(cur as int) + steps) % as_signed(len as int)) as usize),
        }
    }
}

/// Moving `steps` rows stays within signed machine arithmetic: the current
/// row plus `steps` fits in an `isize`, and the remainder does not divide the
/// smallest `isize` by minus one.
pub open spec fn advance_ok(sel: Option<usize>, len: nat, steps: int) -> bool {
    (len > 0 && sel is Some) ==> {
        let sum = as_signed(sel->0 as int) + steps;
        &&& isize::MIN <= sum <= isize::MAX
        &&& !(sum == isize::MIN && as_signed(len as int) == -1)
    }
}

/// The selection after jumping to the first row (unchanged on an empty list).
pub open spec fn first_selected(sel: Option<usize>, len: nat) -> Option<usize> {
    if len > 0 { Some(0) } else { sel }
}

/// The selection after jumping to the last row (unchanged on an empty list).
pub open spec fn last_selected(sel: Option<usize>, len: nat) -> Option<usize> {
    if len > 0 { Some((len - 1) as usize) } else { sel }
}

/// The selection after jumping to row `index`, clamped to the last row
/// (unchanged on an empty list).
pub open spec fn index_selected(sel: Option<usize>, len: nat, index: usize) -> Option<usize> {
    if len == 0 {
        sel
    } else if index < len {
        Some(index)
    } else {
        Some((len - 1) as usize)
    }
}

/// `x` clamped into `lo..=hi`.
pub open spec fn clamp_int(x: int, lo: int, hi: int) -> int {
    if x < lo { lo } else if x > hi { hi } else { x }
}

/// The row that scrolling starts from: the current row read as a signed
/// integer, or the first row when none is selected.
pub open spec fn scroll_start(sel: Option<usize>) -> int {
    match sel {
        Some(i) => as_signed(i as int),
        None => 0,
    }
}

/// The selection after scrolling `delta` rows without wrapping: from the
/// start row, clamped to the list (unchanged on an empty list).
pub open spec fn scrolled(sel: Option<usize>, len: nat, delta: int) -> Option<usize> {
    if len == 0 {
        sel
    } else {
        Some(clamp_int(scroll_start(sel) + delta, 0, len - 1) as usize)
    }
}

/// Scrolling stays within signed machine arithmetic: the list length fits in
/// an `isize` and the start row plus `delta` does too.
pub open spec fn scroll_ok(sel: Option<usize>, len: nat, delta: int) -> bool {
    len > 0 ==> len <= isize::MAX && isize::MIN <= scroll_start(sel) + delta <= isize::MAX
}

/// `n` as `as_signed` reads it, computed exactly.
fn signed_reading(n: usize) -> (r: i128)
    ensures
        r == as_signed(n as int),
{
    if n <= isize::MAX as usize {
        n as i128
    } else {
        n as i128 - usize::MAX as i128 - 1
    }
}

/// A non-empty list length read as a signed integer is non-zero and no
/// longer than the list.
pub proof fn lemma_signed_len(len: int)
    requires
        0 < len <= usize::MAX,
    ensures
        as_signed(len) != 0,
        -len <= as_signed(len) <= len,
{
}

/// Whether moving `steps` rows stays within signed machine arithmetic.
pub fn can_advance(sel: Option<usize>, len: usize, steps: isize) -> (r: bool)
    ensures
        r == advance_ok(sel, len as nat, steps as int),
{
    if len == 0 {
        return true;
    }
    match sel {
        None => true,
        Some(cur) => {
            let sum: i128 = signed_reading(cur) + steps as i128;
            let d: i128 = signed_reading(len);
            isize::MIN as i128 <= sum && sum <= isize::MAX as i128 && !(sum
                == isize::MIN as i128 && d == -1)
        },
    }
}

/// Whether scrolling `delta` rows stays within signed machine arithmetic.
pub fn can_scroll(sel: Option<usize>, len: usize, delta: isize) -> (r: bool)
    ensures
        r == scroll_ok(sel, len as nat, delta as int),
{
    if len == 0 {
        return true;
    }
    let start: i128 = match sel {
        Some(i) => signed_reading(i),
        None => 0,
    };
    let next: i128 = start + delta as i128;
    len <= isize::MAX as usize && isize::MIN as i128 <= next && next <= isize::MAX as i128
}

impl Default for ListSelection {
    fn default() -> (r: ListSelection)
        ensures
            r.selected is None,
    {
        ListSelection { selected: None }
    }
}

impl ListSelection {
    pub fn new() -> (r: ListSelection)
        ensures
            r.selected is None,
    {
        ListSelection { selected: None }
    }

    /// The highlighted row, if any.
    pub fn selected(&self) -> (r: Option<usize>)
        ensures
            r == self.selected,
    {
        self.selected
    }

    /// Highlights `sel`.
    pub fn select(&mut self, sel: Option<usize>)
        ensures
            final(self).selected == sel,
    {
        self.selected = sel;
    }

    /// Moves by `delta` rows, wrapping around at either end.
    pub fn move_selection(&mut self, len: usize, delta: isize)
        requires
            advance_ok(old(self).selected, len as nat, delta as int),
        ensures
            final(self).selected == advanced(old(self).selected, len as nat, delta as int),
    {
        advance_selection(self, len, delta);
    }

    /// Jumps to the first row of a non-empty list.
    pub fn select_first(&mut self, len: usize)
        ensures
            final(self).selected == first_selected(old(self).selected, len as nat),
    {
        if len > 0 {
            self.selected = Some(0);
        }
    }

    /// Jumps to the last row of a non-empty list.
    pub fn select_last(&mut self, len: usize)
        ensures
            final(self).selected == last_selected(old(self).selected, len as nat),
    {
        if len > 0 {
            self.selected = Some(len - 1);
        }
    }

    /// Jumps to row `index`, clamped to the last row.
    pub fn select_index(&mut self, len: usize, index: usize)
        ensures
            final(self).selected == index_selected(old(self).selected, len as nat, index),
    {
        if len == 0 {
            return;
        }
        let target = if index < len { index } else { len - 1 };
        self.selected = Some(target);
    }

    /// Moves by `delta` rows without wrapping, clamped to the list.
    pub fn scroll(&mut self, len: usize, delta: isize)
        requires
            scroll_ok(old(self).selected, len as nat, delta as int),
        ensures
            final(self).selected == scrolled(old(self).selected, len as nat, delta as int),
    {
        if len == 0 {
            return;
        }
        let cur: i128 = match self.selected {
            Some(i) => signed_reading(i),
            None => 0,
        };
        let next: i128 = cur + delta as i128;
        let hi: i128 = len as i128 - 1;
        let clamped: i128 = if next < 0 { 0 } else if next > hi { hi } else { next };
        self.selected = Some(clamped as usize);
    }
}

/// Move a list selection by `steps`, wrapping around at either end.
///
/// An empty list clears the selection. Starting from no selection lands on the
/// first item; otherwise the index wraps within the list, so large positive or
/// negative counts never fall out of range.
pub fn advance_selection(state: &mut ListSelection, len: usize, steps: isize)
    requires
        advance_ok(old(state).selected, len as nat, steps as int),
    ensures
        final(state).selected == advanced(old(state).selected, len as nat, steps as int),
        len > 0 ==> final(state).selected is Some,
        sel_in_range(final(state).selected, len as nat),
{
    if len == 0 {
        state.selected = None;
        return;
    }
    let next: usize = match state.selected {
        None => 0,
        Some(cur) => {
            let sum: i128 = signed_reading(cur) + steps as i128;
            let d: i128 = signed_reading(len);
            proof {
                lemma_signed_len(len as int);
            }
            let r: i128 = sum.checked_rem_euclid(d).unwrap();
            r as usize
        },
    };
    state.selected = Some(next);
}

/// Inner content height of a pane area: the area height minus the two border
/// rows, never less than one.
pub fn content_height(area_height: u16) -> (h: usize)
    ensures
        h == if area_height >= 3 { area_height - 2 } else { 1 },
        h >= 1,
{
    let inner: u16 = area_height.saturating_sub(2);
    if inner < 1 { 1 } else { inner as usize }
}

} // verus!
