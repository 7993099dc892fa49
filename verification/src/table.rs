//! Tabular rendering common to every view: column sizing from the current
//! cells, the rendered-table value handed to the drawing boundary, and the
//! generic entity view whose records stay opaque to this core.

use vstd::prelude::*;
use crate::nav::ListCursor;
use vstd::string::StrSliceExecFns;

verus! {

/// Widest cell of column `j` over `rows`; 0 with no rows.
pub open spec fn max_cell_len(rows: Seq<Seq<Seq<char>>>, j: int) -> nat
    decreases rows.len(),
{
    if rows.len() == 0 {
        0
    } else {
        let rest = max_cell_len(rows.drop_last(), j);
        let last = rows.last()[j].len();
        if last > rest {
            last
        } else {
            rest
        }
    }
}

/// Rendering width of a column: the wider of its header and its widest cell.
pub open spec fn col_width(header_len: nat, rows: Seq<Seq<Seq<char>>>, j: int) -> nat {
    let m = max_cell_len(rows, j);
    if m > header_len {
        m
    } else {
        header_len
    }
}

/// Every row has exactly one cell per header.
pub open spec fn rows_rectangular(headers: Seq<Seq<char>>, rows: Seq<Seq<Seq<char>>>) -> bool {
    forall|i: int| 0 <= i < rows.len() ==> (#[trigger] rows[i]).len() == headers.len()
}

/// Law: with no rows at all, a column is exactly as wide as its header.
pub proof fn lemma_header_only_width(header_len: nat, rows: Seq<Seq<Seq<char>>>, j: int)
    requires
        rows.len() == 0,
    ensures
        col_width(header_len, rows, j) == header_len,
{
}

/// Per-frame column widths: for each column, the wider of its header and
/// its widest cell, measured in characters and recomputed from scratch.
pub fn column_widths(headers: &Vec<String>, rows: &Vec<Vec<String>>) -> (w: Vec<usize>)
    requires
        rows_rectangular(headers.deep_view(), rows.deep_view()),
    ensures
        w@.len() == headers@.len(),
        forall|j: int|
            0 <= j < w@.len() ==> w@[j] == col_width(
                headers.deep_view()[j].len(),
                rows.deep_view(),
                j,
            ),
{
    let mut w: Vec<usize> = Vec::new();
    let n_cols = headers.len();
    let mut j: usize = 0;
    while j < n_cols
        invariant
            n_cols == headers@.len(),
            rows_rectangular(headers.deep_view(), rows.deep_view()),
            j <= n_cols,
            w@.len() == j,
            forall|jj: int|
                0 <= jj < j ==> w@[jj] == col_width(
                    headers.deep_view()[jj].len(),
                    rows.deep_view(),
                    jj,
                ),
        decreases n_cols - j,
    {
        let n_rows = rows.len();
        let mut cur: usize = 0;
        let mut i: usize = 0;
        while i < n_rows
            invariant
                n_cols == headers@.len(),
                rows_rectangular(headers.deep_view(), rows.deep_view()),
                j < n_cols,
                n_rows == rows@.len(),
                i <= n_rows,
                cur == max_cell_len(rows.deep_view().take(i as int), j as int),
            decreases n_rows - i,
        {
            proof {
                let s = rows.deep_view();
                assert(s[i as int] == rows@[i as int].deep_view());
                assert(s[i as int].len() == headers.deep_view().len());
                assert(rows@[i as int].deep_view().len() == rows@[i as int]@.len());
                assert(s.take(i + 1).drop_last() =~= s.take(i as int));
                assert(s.take(i + 1).last() == s[i as int]);
            }
            let cell_len: usize = rows[i][j].as_str().unicode_len();
            if cell_len > cur {
                cur = cell_len;
            }
            i = i + 1;
        }
        proof {
            let s = rows.deep_view();
            assert(s.take(n_rows as int) =~= s);
        }
        let header_len: usize = headers[j].as_str().unicode_len();
        let width: usize = if cur > header_len {
            cur
        } else {
            header_len
        };
        proof {
            assert(headers.deep_view()[j as int] == headers@[j as int].deep_view());
        }
        w.push(width);
        j = j + 1;
    }
    w
}

/// One view's table as computed for a frame, ready for the drawing
/// boundary: the header labels, the formatted cells row by row, the
/// per-column widths, and the row to highlight.
pub struct RenderedTable {
    pub headers: Vec<String>,
    pub rows: Vec<Vec<String>>,
    pub widths: Vec<usize>,
    pub selected: Option<usize>,
}

/// `t` is the faithful tabular rendering of `headers` over `cells` with
/// selection `sel`: the same text, widths per `col_width`, that selection.
pub open spec fn table_renders(
    headers: Seq<Seq<char>>,
    cells: Seq<Seq<Seq<char>>>,
    sel: Option<usize>,
    t: RenderedTable,
) -> bool {
    &&& t.headers.deep_view() == headers
    &&& t.rows.deep_view() == cells
    &&& t.widths@.len() == headers.len()
    &&& (forall|j: int|
        0 <= j < headers.len() ==> t.widths@[j] == col_width(headers[j].len(), cells, j))
    &&& t.selected == sel
}

/// A writers, readers or topics view. Its records are opaque to this core,
/// so a render takes the already formatted header and cell text and does
/// the sizing, row counting and selection itself.
pub struct EntityTable {
    pub table_state: ListCursor,
}

impl EntityTable {
    pub fn new() -> (r: EntityTable)
        ensures
            r.table_state == (ListCursor { selected: None::<usize>, row_count: 0usize }),
            r.table_state.wf(),
    {
        EntityTable { table_state: ListCursor::new() }
    }

    /// Render one frame of this view from formatted cells: compute the
    /// column widths, refresh the row count the cursor clamps against, and
    /// hand back the table with the current selection.
    pub fn render(&mut self, headers: Vec<String>, rows: Vec<Vec<String>>) -> (t: RenderedTable)
        requires
            old(self).table_state.wf(),
            rows_rectangular(headers.deep_view(), rows.deep_view()),
        ensures
            final(self).table_state == old(self).table_state.with_rows_spec(
                rows@.len() as usize,
            ),
            final(self).table_state.wf(),
            table_renders(
                headers.deep_view(),
                rows.deep_view(),
                final(self).table_state.selected,
                t,
            ),
    {
        let widths = column_widths(&headers, &rows);
        let n: usize = rows.len();
        self.table_state.set_row_count(n);
        let selected = self.table_state.selected;
        RenderedTable { headers, rows, widths, selected }
    }

    pub fn previous_item(&mut self)
        requires
            old(self).table_state.wf(),
        ensures
            final(self).table_state == old(self).table_state.back_spec(1),
            final(self).table_state.wf(),
    {
        self.table_state.previous_item();
    }

    pub fn next_item(&mut self)
        requires
            old(self).table_state.wf(),
        ensures
            final(self).table_state == old(self).table_state.fwd_spec(1),
            final(self).table_state.wf(),
    {
        self.table_state.next_item();
    }

    pub fn previous_page(&mut self)
        requires
            old(self).table_state.wf(),
        ensures
            final(self).table_state == old(self).table_state.back_spec(
                crate::nav::PAGE_STEP as nat,
            ),
            final(self).table_state.wf(),
    {
        self.table_state.previous_page();
    }

    pub fn next_page(&mut self)
        requires
            old(self).table_state.wf(),
        ensures
            final(self).table_state == old(self).table_state.fwd_spec(
                crate::nav::PAGE_STEP as nat,
            ),
            final(self).table_state.wf(),
    {
        self.table_state.next_page();
    }

    pub fn first_item(&mut self)
        requires
            old(self).table_state.wf(),
        ensures
            final(self).table_state == old(self).table_state.first_spec(),
            final(self).table_state.wf(),
    {
        self.table_state.first_item();
    }

    pub fn last_item(&mut self)
        requires
            old(self).table_state.wf(),
        ensures
            final(self).table_state == old(self).table_state.last_spec(),
            final(self).table_state.wf(),
    {
        self.table_state.last_item();
    }
}

} // verus!
