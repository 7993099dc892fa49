//! Row-selection arithmetic shared by every tabular view: a cursor that
//! holds the selected row, if any, and the row count it is clamped against.

use vstd::prelude::*;

verus! {

/// Rows skipped by one page-wise navigation step.
pub const PAGE_STEP: usize = 30;

/// Selection state of one tabular view. `selected` stays `None` until the
/// first navigation action; `row_count` is refreshed on every render and is
/// what the navigation operations clamp against.
pub struct ListCursor {
    pub selected: Option<usize>,
    pub row_count: usize,
}

impl ListCursor {
    /// The selection, when present, lies in `[0, row_count)`, and is absent
    /// whenever the view is empty.
    pub open spec fn wf(self) -> bool {
        &&& (self.selected is Some ==> self.selected->0 < self.row_count)
        &&& (self.row_count == 0 ==> self.selected is None)
    }

    /// Row reached by moving `step` rows toward row 0, saturating at 0;
    /// an unset selection starts at row 0.
    pub open spec fn back_target(self, step: nat) -> usize {
        match self.selected {
            Some(i) => if i >= step { (i - step) as usize } else { 0 },
            None => 0,
        }
    }

    /// Row reached by moving `step` rows toward the last row, saturating
    /// at `row_count - 1`; an unset selection starts at row 0.
    pub open spec fn fwd_target(self, step: nat) -> usize
        recommends
            self.row_count > 0,
    {
        match self.selected {
            Some(i) => if i + step < self.row_count {
                (i + step) as usize
            } else {
                (self.row_count - 1) as usize
            },
            None => 0,
        }
    }

    /// Cursor after a backward navigation of `step` rows; a no-op on an
    /// empty view.
    pub open spec fn back_spec(self, step: nat) -> ListCursor {
        if self.row_count == 0 {
            self
        } else {
            ListCursor { selected: Some(self.back_target(step)), row_count: self.row_count }
        }
    }

    /// Cursor after a forward navigation of `step` rows; a no-op on an
    /// empty view.
    pub open spec fn fwd_spec(self, step: nat) -> ListCursor {
        if self.row_count == 0 {
            self
        } else {
            ListCursor { selected: Some(self.fwd_target(step)), row_count: self.row_count }
        }
    }

    /// Cursor after a jump to the first row; a no-op on an empty view.
    pub open spec fn first_spec(self) -> ListCursor {
        if self.row_count == 0 {
            self
        } else {
            ListCursor { selected: Some(0usize), row_count: self.row_count }
        }
    }

    /// Cursor after a jump to the last row; a no-op on an empty view.
    pub open spec fn last_spec(self) -> ListCursor {
        if self.row_count == 0 {
            self
        } else {
            ListCursor {
                selected: Some((self.row_count - 1) as usize),
                row_count: self.row_count,
            }
        }
    }

    /// Cursor after the row count is refreshed to `n`: the selection is
    /// dropped on an empty view and clamped to `n - 1` if the view shrank
    /// past it.
    pub open spec fn with_rows_spec(self, n: usize) -> ListCursor {
        if n == 0 {
            ListCursor { selected: None, row_count: 0 }
        } else {
            match self.selected {
                Some(i) => ListCursor {
                    selected: Some(if i < n { i } else { (n - 1) as usize }),
                    row_count: n,
                },
                None => ListCursor { selected: None, row_count: n },
            }
        }
    }

    /// A fresh cursor: nothing selected over zero rows.
    pub fn new() -> (r: ListCursor)
        ensures
            r == (ListCursor { selected: None::<usize>, row_count: 0usize }),
            r.wf(),
    {
        ListCursor { selected: None, row_count: 0 }
    }

    /// Move the selection one row toward row 0.
    pub fn previous_item(&mut self)
        requires
            old(self).wf(),
        ensures
            *final(self) == old(self).back_spec(1),
            final(self).wf(),
    {
        if self.row_count > 0 {
            let new_idx: usize = match self.selected {
                Some(idx) => if idx >= 1 {
                    idx - 1
                } else {
                    0
                },
                None => 0,
            };
            self.selected = Some(new_idx);
        }
    }

    /// Move the selection one row toward the last row.
    pub fn next_item(&mut self)
        requires
            old(self).wf(),
        ensures
            *final(self) == old(self).fwd_spec(1),
            final(self).wf(),
    {
        if self.row_count > 0 {
            let last_idx: usize = self.row_count - 1;
            let new_idx: usize = match self.selected {
                Some(idx) => if idx < last_idx {
                    idx + 1
                } else {
                    last_idx
                },
                None => 0,
            };
            self.selected = Some(new_idx);
        }
    }

    /// Move the selection one page toward row 0.
    pub fn previous_page(&mut self)
        requires
            old(self).wf(),
        ensures
            *final(self) == old(self).back_spec(PAGE_STEP as nat),
            final(self).wf(),
    {
        if self.row_count > 0 {
            let new_idx: usize = match self.selected {
                Some(idx) => if idx >= PAGE_STEP {
                    idx - PAGE_STEP
                } else {
                    0
                },
                None => 0,
            };
            self.selected = Some(new_idx);
        }
    }

    /// Move the selection one page toward the last row.
    pub fn next_page(&mut self)
        requires
            old(self).wf(),
        ensures
            *final(self) == old(self).fwd_spec(PAGE_STEP as nat),
            final(self).wf(),
    {
        if self.row_count > 0 {
            let last_idx: usize = self.row_count - 1;
            let new_idx: usize = match self.selected {
                Some(idx) => if idx < last_idx && last_idx - idx > PAGE_STEP {
                    idx + PAGE_STEP
                } else {
                    last_idx
                },
                None => 0,
            };
            self.selected = Some(new_idx);
        }
    }

    /// Jump to the first row.
    pub fn first_item(&mut self)
        requires
            old(self).wf(),
        ensures
            *final(self) == old(self).first_spec(),
            final(self).wf(),
    {
        if self.row_count > 0 {
            self.selected = Some(0);
        }
    }

    /// Jump to the last row.
    pub fn last_item(&mut self)
        requires
            old(self).wf(),
        ensures
            *final(self) == old(self).last_spec(),
            final(self).wf(),
    {
        if self.row_count > 0 {
            self.selected = Some(self.row_count - 1);
        }
    }

    /// Refresh the row count from a freshly rendered view, clamping the
    /// selection as `with_rows_spec` says.
    pub fn set_row_count(&mut self, n: usize)
        ensures
            *final(self) == old(self).with_rows_spec(n),
            final(self).wf(),
    {
        self.row_count = n;
        if n == 0 {
            self.selected = None;
        } else if let Some(i) = self.selected {
            if i >= n {
                self.selected = Some(n - 1);
            }
        }
    }
}

/// The state a navigation operation must leave behind: a well-formed cursor
/// whose selection is absent exactly when the view is empty.
pub open spec fn nav_result_valid(c: ListCursor) -> bool {
    &&& c.wf()
    &&& (c.selected is None <==> c.row_count == 0)
}

/// Law: after any navigation operation, over any step width, the selection
/// is `None` iff the view is empty, and otherwise lies in `[0, row_count)`.
pub proof fn lemma_navigation_keeps_selection_valid(c: ListCursor, step: nat)
    requires
        c.wf(),
    ensures
        nav_result_valid(c.back_spec(step)),
        nav_result_valid(c.fwd_spec(step)),
        nav_result_valid(c.first_spec()),
        nav_result_valid(c.last_spec()),
{
}

/// Law: one forward step undone by one backward step returns to the same
/// selection except from the last row, where the forward step saturates;
/// symmetrically for backward-then-forward at row 0. Saturated steps are
/// idempotent.
pub proof fn lemma_item_step_round_trip(c: ListCursor)
    requires
        c.wf(),
        c.selected is Some,
    ensures
        c.selected->0 < c.row_count - 1 ==> c.fwd_spec(1).back_spec(1) == c,
        c.selected->0 == c.row_count - 1 ==> c.fwd_spec(1) == c,
        c.selected->0 > 0 ==> c.back_spec(1).fwd_spec(1) == c,
        c.selected->0 == 0 ==> c.back_spec(1) == c,
{
}

/// Law: on a non-empty view, jumping to the first row selects row 0 and
/// jumping to the last row selects `row_count - 1`.
pub proof fn lemma_first_last_targets(c: ListCursor)
    requires
        c.wf(),
        c.row_count > 0,
    ensures
        c.first_spec().selected == Some(0usize),
        c.last_spec().selected == Some((c.row_count - 1) as usize),
{
}

} // verus!
