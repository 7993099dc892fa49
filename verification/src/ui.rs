//! The dashboard core behind the event/tick loop: the four views' cursors,
//! the active tab, the keyboard dispatch, and the per-iteration timing
//! decisions. The loop itself, the terminal and the shared store's lock
//! stay with the caller, which hands in one decoded key or one owned
//! snapshot at a time.

use vstd::prelude::*;
use crate::nav::{ListCursor, PAGE_STEP};
use crate::table::{EntityTable, RenderedTable, rows_rectangular, table_renders};
use crate::tab_abnormality::{TabAbnormality, Abnormality, all_when_wf, renders_abnormalities};

verus! {

/// Number of tabs: writers, readers, topics, abnormalities.
pub const N_TABS: usize = 4;

/// One decoded keyboard event, as the input boundary hands it over.
#[derive(Clone, Copy, PartialEq, Eq)]
pub enum KeyInput {
    Char(char),
    Up,
    Down,
    Left,
    Right,
    PageUp,
    PageDown,
    Home,
    End,
    Tab,
    BackTab,
    Other,
}

/// The one key that quits the dashboard.
pub open spec fn is_quit_key(key: KeyInput) -> bool {
    match key {
        KeyInput::Char(c) => c == 'q',
        _ => false,
    }
}

/// The tab after `i`, wrapping past the last.
pub open spec fn next_tab_index(i: usize) -> usize {
    ((i + 1) % (N_TABS as int)) as usize
}

/// The tab before `i`, wrapping past the first.
pub open spec fn previous_tab_index(i: usize) -> usize {
    ((i + (N_TABS - 1)) % (N_TABS as int)) as usize
}

/// Law: four consecutive next-tab steps return to the starting tab; one
/// previous-tab step from the first tab reaches the last; a previous-tab
/// step undoes a next-tab step.
pub proof fn lemma_tab_cycling(i: usize)
    requires
        i < N_TABS,
    ensures
        next_tab_index(next_tab_index(next_tab_index(next_tab_index(i)))) == i,
        previous_tab_index(0) == 3,
        previous_tab_index(next_tab_index(i)) == i,
{
}

/// One frame's owned copy of the shared store: the already formatted
/// header and cell text of the three entity views, whose records this core
/// does not interpret, and the abnormality records themselves.
pub struct Snapshot {
    pub writer_headers: Vec<String>,
    pub writer_rows: Vec<Vec<String>>,
    pub reader_headers: Vec<String>,
    pub reader_rows: Vec<Vec<String>>,
    pub topic_headers: Vec<String>,
    pub topic_rows: Vec<Vec<String>>,
    pub abnormalities: Vec<Abnormality>,
}

impl Snapshot {
    /// Entity cells are rectangular and every timestamp is in formatting
    /// range.
    pub open spec fn wf(self) -> bool {
        &&& rows_rectangular(self.writer_headers.deep_view(), self.writer_rows.deep_view())
        &&& rows_rectangular(self.reader_headers.deep_view(), self.reader_rows.deep_view())
        &&& rows_rectangular(self.topic_headers.deep_view(), self.topic_rows.deep_view())
        &&& all_when_wf(self.abnormalities@)
    }
}

/// The dashboard core: one cursor per view and the active tab.
pub struct Tui {
    pub tab_writer: EntityTable,
    pub tab_reader: EntityTable,
    pub tab_topic: EntityTable,
    pub tab_abnormality: TabAbnormality,
    pub tab_index: usize,
}

impl Tui {
    /// The active tab exists and every cursor is well formed.
    pub open spec fn wf(self) -> bool {
        &&& self.tab_index < N_TABS
        &&& self.tab_writer.table_state.wf()
        &&& self.tab_reader.table_state.wf()
        &&& self.tab_topic.table_state.wf()
        &&& self.tab_abnormality.table_state.wf()
    }

    /// Cursor of the active tab.
    pub open spec fn active_cursor(self) -> ListCursor {
        if self.tab_index == 0 {
            self.tab_writer.table_state
        } else if self.tab_index == 1 {
            self.tab_reader.table_state
        } else if self.tab_index == 2 {
            self.tab_topic.table_state
        } else {
            self.tab_abnormality.table_state
        }
    }

    /// This dashboard with the active tab's cursor replaced; no other
    /// view is touched.
    pub open spec fn with_active_cursor(self, c: ListCursor) -> Tui {
        if self.tab_index == 0 {
            Tui { tab_writer: EntityTable { table_state: c }, ..self }
        } else if self.tab_index == 1 {
            Tui { tab_reader: EntityTable { table_state: c }, ..self }
        } else if self.tab_index == 2 {
            Tui { tab_topic: EntityTable { table_state: c }, ..self }
        } else {
            Tui { tab_abnormality: TabAbnormality { table_state: c }, ..self }
        }
    }

    /// This dashboard with another tab active.
    pub open spec fn with_tab_index(self, i: usize) -> Tui {
        Tui { tab_index: i, ..self }
    }

    /// The dashboard after one keyboard event: navigation keys move the
    /// active view's cursor only, the tab keys cycle the active tab with
    /// wraparound, and every other key leaves the state unchanged.
    pub open spec fn step_spec(self, key: KeyInput) -> Tui {
        match key {
            KeyInput::Up => self.with_active_cursor(self.active_cursor().back_spec(1)),
            KeyInput::Down => self.with_active_cursor(self.active_cursor().fwd_spec(1)),
            KeyInput::PageUp => self.with_active_cursor(
                self.active_cursor().back_spec(PAGE_STEP as nat),
            ),
            KeyInput::PageDown => self.with_active_cursor(
                self.active_cursor().fwd_spec(PAGE_STEP as nat),
            ),
            KeyInput::Home => self.with_active_cursor(self.active_cursor().first_spec()),
            KeyInput::End => self.with_active_cursor(self.active_cursor().last_spec()),
            KeyInput::Tab => self.with_tab_index(next_tab_index(self.tab_index)),
            KeyInput::BackTab => self.with_tab_index(previous_tab_index(self.tab_index)),
            _ => self,
        }
    }

    /// A fresh dashboard: first tab active, nothing selected anywhere.
    pub fn new() -> (r: Tui)
        ensures
            r.tab_index == 0,
            r.tab_writer.table_state == (ListCursor { selected: None::<usize>, row_count: 0usize }),
            r.tab_reader.table_state == (ListCursor { selected: None::<usize>, row_count: 0usize }),
            r.tab_topic.table_state == (ListCursor { selected: None::<usize>, row_count: 0usize }),
            r.tab_abnormality.table_state == (
            ListCursor { selected: None::<usize>, row_count: 0usize }),
            r.wf(),
    {
        Tui {
            tab_writer: EntityTable::new(),
            tab_reader: EntityTable::new(),
            tab_topic: EntityTable::new(),
            tab_abnormality: TabAbnormality::new(),
            tab_index: 0,
        }
    }

    /// One row up in the active view.
    pub fn key_up(&mut self)
        requires
            old(self).wf(),
        ensures
            *final(self) == old(self).with_active_cursor(old(self).active_cursor().back_spec(1)),
            final(self).wf(),
    {
        match self.tab_index {
            0 => self.tab_writer.previous_item(),
            1 => self.tab_reader.previous_item(),
            2 => self.tab_topic.previous_item(),
            _ => self.tab_abnormality.previous_item(),
        }
    }

    /// One row down in the active view.
    pub fn key_down(&mut self)
        requires
            old(self).wf(),
        ensures
            *final(self) == old(self).with_active_cursor(old(self).active_cursor().fwd_spec(1)),
            final(self).wf(),
    {
        match self.tab_index {
            0 => self.tab_writer.next_item(),
            1 => self.tab_reader.next_item(),
            2 => self.tab_topic.next_item(),
            _ => self.tab_abnormality.next_item(),
        }
    }

    /// One page up in the active view.
    pub fn key_page_up(&mut self)
        requires
            old(self).wf(),
        ensures
            *final(self) == old(self).with_active_cursor(
                old(self).active_cursor().back_spec(PAGE_STEP as nat),
            ),
            final(self).wf(),
    {
        match self.tab_index {
            0 => self.tab_writer.previous_page(),
            1 => self.tab_reader.previous_page(),
            2 => self.tab_topic.previous_page(),
            _ => self.tab_abnormality.previous_page(),
        }
    }

    /// One page down in the active view.
    pub fn key_page_down(&mut self)
        requires
            old(self).wf(),
        ensures
            *final(self) == old(self).with_active_cursor(
                old(self).active_cursor().fwd_spec(PAGE_STEP as nat),
            ),
            final(self).wf(),
    {
        match self.tab_index {
            0 => self.tab_writer.next_page(),
            1 => self.tab_reader.next_page(),
            2 => self.tab_topic.next_page(),
            _ => self.tab_abnormality.next_page(),
        }
    }

    /// Jump to the first row of the active view.
    pub fn key_home(&mut self)
        requires
            old(self).wf(),
        ensures
            *final(self) == old(self).with_active_cursor(old(self).active_cursor().first_spec()),
            final(self).wf(),
    {
        match self.tab_index {
            0 => self.tab_writer.first_item(),
            1 => self.tab_reader.first_item(),
            2 => self.tab_topic.first_item(),
            _ => self.tab_abnormality.first_item(),
        }
    }

    /// Jump to the last row of the active view.
    pub fn key_end(&mut self)
        requires
            old(self).wf(),
        ensures
            *final(self) == old(self).with_active_cursor(old(self).active_cursor().last_spec()),
            final(self).wf(),
    {
        match self.tab_index {
            0 => self.tab_writer.last_item(),
            1 => self.tab_reader.last_item(),
            2 => self.tab_topic.last_item(),
            _ => self.tab_abnormality.last_item(),
        }
    }

    /// Advance to the next tab, wrapping past the last.
    pub fn next_tab(&mut self)
        requires
            old(self).wf(),
        ensures
            *final(self) == old(self).with_tab_index(next_tab_index(old(self).tab_index)),
            final(self).wf(),
    {
        self.tab_index = (self.tab_index + 1) % N_TABS;
    }

    /// Retreat to the previous tab, wrapping past the first.
    pub fn previous_tab(&mut self)
        requires
            old(self).wf(),
        ensures
            *final(self) == old(self).with_tab_index(previous_tab_index(old(self).tab_index)),
            final(self).wf(),
    {
        self.tab_index = (self.tab_index + (N_TABS - 1)) % N_TABS;
    }

    /// Interpret one keyboard event: report whether it quits the loop, and
    /// apply its navigation or tab effect to this state. Exactly this one
    /// event is consumed.
    pub fn process_key(&mut self, key: KeyInput) -> (quit: bool)
        requires
            old(self).wf(),
        ensures
            quit == is_quit_key(key),
            *final(self) == old(self).step_spec(key),
            final(self).wf(),
    {
        match key {
            KeyInput::Char(c) => {
                if c == 'q' {
                    return true;
                }
            },
            KeyInput::Up => self.key_up(),
            KeyInput::Down => self.key_down(),
            KeyInput::Left => {},
            KeyInput::Right => {},
            KeyInput::PageUp => self.key_page_up(),
            KeyInput::PageDown => self.key_page_down(),
            KeyInput::Home => self.key_home(),
            KeyInput::End => self.key_end(),
            KeyInput::Tab => self.next_tab(),
            KeyInput::BackTab => self.previous_tab(),
            KeyInput::Other => {},
        }
        false
    }

    /// Render the active view against this frame's snapshot; the other
    /// views' cursors are untouched.
    pub fn draw(&mut self, snapshot: Snapshot) -> (t: RenderedTable)
        requires
            old(self).wf(),
            snapshot.wf(),
        ensures
            final(self).tab_index == old(self).tab_index,
            *final(self) == old(self).with_active_cursor(final(self).active_cursor()),
            final(self).wf(),
            old(self).tab_index == 0 ==> {
                &&& final(self).active_cursor() == old(self).active_cursor().with_rows_spec(
                    snapshot.writer_rows@.len() as usize,
                )
                &&& table_renders(
                    snapshot.writer_headers.deep_view(),
                    snapshot.writer_rows.deep_view(),
                    final(self).active_cursor().selected,
                    t,
                )
            },
            old(self).tab_index == 1 ==> {
                &&& final(self).active_cursor() == old(self).active_cursor().with_rows_spec(
                    snapshot.reader_rows@.len() as usize,
                )
                &&& table_renders(
                    snapshot.reader_headers.deep_view(),
                    snapshot.reader_rows.deep_view(),
                    final(self).active_cursor().selected,
                    t,
                )
            },
            old(self).tab_index == 2 ==> {
                &&& final(self).active_cursor() == old(self).active_cursor().with_rows_spec(
                    snapshot.topic_rows@.len() as usize,
                )
                &&& table_renders(
                    snapshot.topic_headers.deep_view(),
                    snapshot.topic_rows.deep_view(),
                    final(self).active_cursor().selected,
                    t,
                )
            },
            old(self).tab_index == 3 ==> {
                &&& final(self).active_cursor() == old(self).active_cursor().with_rows_spec(
                    snapshot.abnormalities@.len() as usize,
                )
                &&& renders_abnormalities(
                    snapshot.abnormalities@,
                    final(self).active_cursor().selected,
                    t,
                )
            },
    {
        match self.tab_index {
            0 => self.tab_writer.render(snapshot.writer_headers, snapshot.writer_rows),
            1 => self.tab_reader.render(snapshot.reader_headers, snapshot.reader_rows),
            2 => self.tab_topic.render(snapshot.topic_headers, snapshot.topic_rows),
            _ => self.tab_abnormality.render(snapshot.abnormalities),
        }
    }
}

/// The fixed tab strip labels.
pub open spec fn tab_titles_model() -> Seq<Seq<char>> {
    seq!["Writers"@, "Reader"@, "Topics"@, "Abnormalities"@]
}

/// The tab strip labels, in tab order.
pub fn tab_titles() -> (r: Vec<String>)
    ensures
        r@.len() == N_TABS,
        r.deep_view() == tab_titles_model(),
{
    let mut r: Vec<String> = Vec::new();
    r.push("Writers".to_owned());
    r.push("Reader".to_owned());
    r.push("Topics".to_owned());
    r.push("Abnormalities".to_owned());
    proof {
        assert(r.deep_view() =~= tab_titles_model());
    }
    r
}

/// Input-wait budget left in the current tick: the redraw cadence minus
/// the time already elapsed, floored at zero (both in nanoseconds).
pub fn poll_budget(tick_ns: u64, elapsed_ns: u64) -> (r: u64)
    ensures
        r == if elapsed_ns <= tick_ns {
            (tick_ns - elapsed_ns) as u64
        } else {
            0u64
        },
{
    if elapsed_ns <= tick_ns {
        tick_ns - elapsed_ns
    } else {
        0
    }
}

/// A frame is due exactly when the elapsed time reaches the cadence.
pub fn tick_due(tick_ns: u64, elapsed_ns: u64) -> (r: bool)
    ensures
        r == (elapsed_ns >= tick_ns),
{
    elapsed_ns >= tick_ns
}

} // verus!
