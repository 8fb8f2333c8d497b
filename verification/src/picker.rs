//! The interactive picker: a snapshot of the workspace list, a wrapping
//! cursor, and the bounded-viewport render computation.

use vstd::prelude::*;

use crate::workspace::Workspace;

verus! {

/// One row of the render description.
pub struct RenderRow {
    /// The label drawn on this row.
    pub label: String,
    /// Whether this row is the highlighted selection.
    pub selected: bool,
}

/// What the presentation layer should draw: blank padding first (keeping the
/// list's vertical position stable), then the visible slice of the list.
pub struct RenderPlan {
    /// Blank lines before the items when the list is shorter than the
    /// viewport.
    pub blank_rows: usize,
    /// Index into the full list of the first visible row.
    pub first: usize,
    /// The visible rows, in list order.
    pub rows: Vec<RenderRow>,
}

/// The first visible index: the cursor kept as close to the vertical middle
/// as the list's ends allow, clamped at both ends.
pub open spec fn window_first(len: int, cursor: int, total_rows: int) -> int {
    let half = if total_rows >= 1 {
        (total_rows - 1) / 2
    } else {
        0
    };
    let hi = if len - total_rows > 0 {
        len - total_rows
    } else {
        0
    };
    let centered = cursor - half;
    if centered < 0 {
        0
    } else if centered > hi {
        hi
    } else {
        centered
    }
}

/// How many rows are visible from `first`: the whole rest of the list, or a
/// full viewport, whichever is shorter.
pub open spec fn window_count(len: int, first: int, total_rows: int) -> int {
    if len - first < total_rows {
        len - first
    } else {
        total_rows
    }
}

/// The picker: holds its own ordered snapshot of the workspace list and a
/// cursor into it.
pub struct Picker {
    /// Index of the highlighted item; 0 when the list is empty.
    pub cursor: usize,
    /// The picker's own snapshot of the workspace list.
    pub workspaces: Vec<Workspace>,
}

impl Picker {
    /// The cursor stays inside the list, and sits at 0 when the list is
    /// empty.
    pub open spec fn wf(self) -> bool {
        if self.workspaces@.len() == 0 {
            self.cursor == 0
        } else {
            self.cursor < self.workspaces@.len()
        }
    }

    /// A picker over the given snapshot, cursor at the top.
    pub fn new(workspaces: Vec<Workspace>) -> (r: Picker)
        ensures
            r.wf(),
            r.workspaces@ == workspaces@,
            r.cursor == 0,
    {
        Picker { cursor: 0, workspaces }
    }

    /// Replaces the snapshot. The previously highlighted item stays
    /// highlighted when its real path is still present (at its first new
    /// position, wherever that is); otherwise the cursor resets to the top.
    pub fn rebuild(&mut self, workspaces: Vec<Workspace>)
        requires
            old(self).wf(),
        ensures
            final(self).wf(),
            final(self).workspaces@ == workspaces@,
            old(self).workspaces@.len() == 0 ==> final(self).cursor == 0,
            old(self).workspaces@.len() > 0 ==> {
                let kept = old(self).workspaces@[old(self).cursor as int]@.dir.path;
                if exists|j: int| 0 <= j < workspaces@.len() && workspaces@[j]@.dir.path == kept {
                    &&& final(self).cursor < workspaces@.len()
                    &&& workspaces@[final(self).cursor as int]@.dir.path == kept
                    &&& forall|k: int| 0 <= k < final(self).cursor ==> workspaces@[k]@.dir.path
                        != kept
                } else {
                    final(self).cursor == 0
                }
            },
    {
        if self.workspaces.len() == 0 {
            self.cursor = 0;
            self.workspaces = workspaces;
            return ;
        }
        let kept = &self.workspaces[self.cursor].dir.path;
        let n = workspaces.len();
        let mut j: usize = 0;
        let mut found = false;
        let mut at: usize = 0;
        while j < n
            invariant
                0 <= j <= n,
                n == workspaces@.len(),
                !found ==> forall|k: int| 0 <= k < j ==> workspaces@[k]@.dir.path != kept@,
                found ==> {
                    &&& at < j
                    &&& workspaces@[at as int]@.dir.path == kept@
                    &&& forall|k: int| 0 <= k < at ==> workspaces@[k]@.dir.path != kept@
                },
            decreases n - j,
        {
            if !found && workspaces[j].dir.path == *kept {
                found = true;
                at = j;
            }
            j += 1;
        }
        if found {
            self.cursor = at;
        } else {
            self.cursor = 0;
        }
        self.workspaces = workspaces;
    }

    /// The currently highlighted workspace, or nothing for an empty list.
    pub fn get_selection(&self) -> (r: Option<Workspace>)
        requires
            self.wf(),
        ensures
            match r {
                Some(w) => self.workspaces@.len() > 0 && w == self.workspaces@[self.cursor as int],
                None => self.workspaces@.len() == 0,
            },
    {
        if self.workspaces.len() > 0 {
            Some(self.workspaces[self.cursor].duplicate())
        } else {
            None
        }
    }

    /// Moves the highlight one item up, wrapping from the top to the bottom;
    /// does nothing on an empty list.
    pub fn handle_up(&mut self)
        requires
            old(self).wf(),
        ensures
            final(self).wf(),
            final(self).workspaces@ == old(self).workspaces@,
            old(self).workspaces@.len() == 0 ==> final(self).cursor == 0,
            old(self).workspaces@.len() > 0 ==> final(self).cursor as int == if old(
                self,
            ).cursor == 0 {
                old(self).workspaces@.len() - 1
            } else {
                old(self).cursor - 1
            },
    {
        if self.workspaces.len() == 0 {
            return ;
        }
        if self.cursor > 0 {
            self.cursor = self.cursor - 1;
        } else {
            self.cursor = self.workspaces.len() - 1;
        }
    }

    /// Moves the highlight one item down, wrapping from the bottom to the
    /// top; does nothing on an empty list.
    pub fn handle_down(&mut self)
        requires
            old(self).wf(),
        ensures
            final(self).wf(),
            final(self).workspaces@ == old(self).workspaces@,
            old(self).workspaces@.len() == 0 ==> final(self).cursor == 0,
            old(self).workspaces@.len() > 0 ==> final(self).cursor as int == if old(self).cursor
                + 1 == old(self).workspaces@.len() {
                0int
            } else {
                old(self).cursor + 1
            },
    {
        if self.workspaces.len() == 0 {
            return ;
        }
        if self.cursor + 1 < self.workspaces.len() {
            self.cursor = self.cursor + 1;
        } else {
            self.cursor = 0;
        }
    }

    /// The visible slice of the list for a viewport of `total_rows` rows.
    /// The slice never leaves the list's bounds, shows everything when the
    /// list fits, and always contains the cursor when it can hold anything
    /// at all.
    pub fn visible_window(&self, total_rows: usize) -> (r: (usize, usize))
        requires
            self.wf(),
        ensures
            r.0 as int == window_first(
                self.workspaces@.len() as int,
                self.cursor as int,
                total_rows as int,
            ),
            r.1 as int == window_count(
                self.workspaces@.len() as int,
                r.0 as int,
                total_rows as int,
            ),
            r.0 + r.1 <= self.workspaces@.len(),
            r.1 <= total_rows,
            self.workspaces@.len() > 0 && total_rows >= 1 ==> r.0 <= self.cursor < r.0 + r.1,
    {
        let len = self.workspaces.len();
        let half = if total_rows >= 1 {
            (total_rows - 1) / 2
        } else {
            0
        };
        let hi = if len > total_rows {
            len - total_rows
        } else {
            0
        };
        let centered = if self.cursor > half {
            self.cursor - half
        } else {
            0
        };
        let first = if centered > hi {
            hi
        } else {
            centered
        };
        let count = if len - first < total_rows {
            len - first
        } else {
            total_rows
        };
        (first, count)
    }

    /// The full render description for a viewport of `total_rows` rows:
    /// blank padding when the list is short, then the visible labels, the
    /// cursor's row marked selected.
    pub fn render(&self, total_rows: usize) -> (r: RenderPlan)
        requires
            self.wf(),
        ensures
            r.first as int == window_first(
                self.workspaces@.len() as int,
                self.cursor as int,
                total_rows as int,
            ),
            r.rows@.len() == window_count(
                self.workspaces@.len() as int,
                r.first as int,
                total_rows as int,
            ),
            forall|k: int|
                0 <= k < r.rows@.len() ==> r.rows@[k].label@ == self.workspaces@[r.first
                    + k]@.name,
            forall|k: int|
                0 <= k < r.rows@.len() ==> r.rows@[k].selected == (r.first + k
                    == self.cursor as int),
            r.blank_rows as int == if self.workspaces@.len() < total_rows {
                total_rows - self.workspaces@.len()
            } else {
                0int
            },
    {
        let (first, count) = self.visible_window(total_rows);
        let len = self.workspaces.len();
        let blank_rows = if len < total_rows {
            total_rows - len
        } else {
            0
        };
        let mut rows: Vec<RenderRow> = Vec::new();
        let mut k: usize = 0;
        while k < count
            invariant
                0 <= k <= count,
                len == self.workspaces@.len(),
                first + count <= len,
                rows@.len() == k,
                forall|t: int|
                    0 <= t < k ==> rows@[t].label@ == self.workspaces@[first as int + t]@.name,
                forall|t: int|
                    0 <= t < k ==> rows@[t].selected == (first as int + t == self.cursor as int),
            decreases count - k,
        {
            let label = self.workspaces[first + k].name.clone();
            let selected = first + k == self.cursor;
            rows.push(RenderRow { label, selected });
            k += 1;
        }
        RenderPlan { blank_rows, first, rows }
    }
}

} // verus!
