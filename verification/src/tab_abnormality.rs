//! The abnormalities view: the recorded irregularities of the network,
//! shown most recent first in five fixed columns, with absent fields
//! rendered as an explicit placeholder.

use vstd::prelude::*;
use crate::nav::ListCursor;
use crate::table::{RenderedTable, column_widths, table_renders, rows_rectangular};

verus! {

/// A point in time as the monitoring producer reports it: non-leap seconds
/// since the UNIX epoch, and nanoseconds into that second.
#[derive(Clone, Copy, PartialEq, Eq, Structural)]
pub struct Timestamp {
    pub secs: i64,
    pub nanos: u32,
}

/// `a` is at or before `b`.
pub open spec fn ts_le(a: Timestamp, b: Timestamp) -> bool {
    a.secs < b.secs || (a.secs == b.secs && a.nanos <= b.nanos)
}

/// Timestamps the formatting boundary accepts: from the epoch through the
/// last second of year 9999, with the nanoseconds inside one second.
pub open spec fn ts_wf(t: Timestamp) -> bool {
    0 <= t.secs <= 253_402_300_799i64 && t.nanos < 1_000_000_000u32
}

/// The RFC 3339 text of a timestamp; its exact characters are the
/// formatting library's.
pub uninterp spec fn rfc3339_of(secs: i64, nanos: u32) -> Seq<char>;

/// Relies on chrono's `DateTime::from_timestamp` (`Some` on an in-range
/// second and nanosecond count) and `DateTime::to_rfc3339` (text that
/// depends on the timestamp alone).
#[verifier::external_body]
fn rfc3339_text(secs: i64, nanos: u32) -> (r: String)
    requires
        ts_wf(Timestamp { secs, nanos }),
    ensures
        r@ == rfc3339_of(secs, nanos),
{
    chrono::DateTime::<chrono::Utc>::from_timestamp(secs, nanos).unwrap().to_rfc3339()
}

/// One recorded irregularity: when it was observed, the writer, reader and
/// topic involved where applicable, and a free-text description. Entity
/// identities arrive as their display tokens; an absent optional field is
/// meaningful and is rendered as the placeholder, never dropped.
pub struct Abnormality {
    pub when: Timestamp,
    pub writer_id: Option<String>,
    pub reader_id: Option<String>,
    pub topic_name: Option<String>,
    pub desc: String,
}

/// Cell text of an optional field: the text itself, else the placeholder.
pub open spec fn opt_cell(o: Option<String>) -> Seq<char> {
    match o {
        Some(s) => s@,
        None => "<none>"@,
    }
}

/// The five formatted cells of one record.
pub open spec fn row_model(a: Abnormality) -> Seq<Seq<char>> {
    seq![
        rfc3339_of(a.when.secs, a.when.nanos),
        opt_cell(a.writer_id),
        opt_cell(a.reader_id),
        opt_cell(a.topic_name),
        a.desc@,
    ]
}

/// The formatted rows of a record sequence, in its order.
pub open spec fn rows_of(s: Seq<Abnormality>) -> Seq<Seq<Seq<char>>> {
    s.map_values(|a: Abnormality| row_model(a))
}

/// The records run most recent first.
pub open spec fn sorted_by_when_desc(s: Seq<Abnormality>) -> bool {
    forall|i: int, j: int| #![trigger s[i], s[j]]
        0 <= i <= j < s.len() ==> ts_le(s[j].when, s[i].when)
}

/// Every record's timestamp is one the formatting boundary accepts.
pub open spec fn all_when_wf(s: Seq<Abnormality>) -> bool {
    forall|i: int| 0 <= i < s.len() ==> ts_wf((#[trigger] s[i]).when)
}

/// Column headers of the abnormality view.
pub open spec fn abnormality_headers_model() -> Seq<Seq<char>> {
    seq!["when"@, "writer"@, "reader"@, "topic"@, "desc"@]
}

/// `a` is at or before `b`.
pub fn ts_before_eq(a: Timestamp, b: Timestamp) -> (r: bool)
    ensures
        r == ts_le(a, b),
{
    a.secs < b.secs || (a.secs == b.secs && a.nanos <= b.nanos)
}

/// Everything of `b` came out of `a`, so valid timestamps stay valid.
proof fn lemma_permutation_keeps_when_wf(a: Seq<Abnormality>, b: Seq<Abnormality>)
    requires
        a.to_multiset() == b.to_multiset(),
        all_when_wf(a),
    ensures
        all_when_wf(b),
{
    broadcast use vstd::seq_lib::group_to_multiset_ensures;

    assert forall|i: int| 0 <= i < b.len() implies ts_wf((#[trigger] b[i]).when) by {
        assert(b.contains(b[i]));
        assert(a.to_multiset().count(b[i]) > 0);
        assert(a.contains(b[i]));
        let j = choose|j: int| 0 <= j < a.len() && a[j] == b[i];
        assert(ts_wf(a[j].when));
    }
}

/// Sort the records most recent first. The order among records with equal
/// timestamps is left open; the result is some sorted permutation.
pub fn sort_by_when(v: Vec<Abnormality>) -> (r: Vec<Abnormality>)
    ensures
        r@.to_multiset() == v@.to_multiset(),
        r@.len() == v@.len(),
        sorted_by_when_desc(r@),
{
    let mut rest = v;
    let ghost orig = rest@;
    let mut out: Vec<Abnormality> = Vec::new();
    proof {
        broadcast use vstd::seq_lib::group_to_multiset_ensures;
        broadcast use vstd::multiset::group_multiset_axioms;

        assert(out@.to_multiset().add(rest@.to_multiset()) =~= orig.to_multiset());
    }
    while rest.len() > 0
        invariant
            out@.to_multiset().add(rest@.to_multiset()) == orig.to_multiset(),
            out@.len() + rest@.len() == orig.len(),
            sorted_by_when_desc(out@),
            forall|x: int, y: int| #![trigger out@[x], rest@[y]]
                0 <= x < out@.len() && 0 <= y < rest@.len() ==> ts_le(
                    rest@[y].when,
                    out@[x].when,
                ),
        decreases rest@.len(),
    {
        let mut best: usize = 0;
        let mut k: usize = 1;
        while k < rest.len()
            invariant
                rest@.len() > 0,
                best < k,
                k <= rest@.len(),
                forall|m: int| 0 <= m < k ==> ts_le((#[trigger] rest@[m]).when, rest@[best as int].when),
            decreases rest@.len() - k,
        {
            if !ts_before_eq(rest[k].when, rest[best].when) {
                best = k;
            }
            k = k + 1;
        }
        let ghost pre_out = out@;
        let ghost pre_rest = rest@;
        let x = rest.remove(best);
        out.push(x);
        proof {
            broadcast use vstd::seq_lib::group_to_multiset_ensures;
            broadcast use vstd::multiset::group_multiset_axioms;

            assert(rest@ =~= pre_rest.remove(best as int));
            assert(0 <= best < pre_rest.len() && pre_rest[best as int] == x);
            assert(pre_rest.to_multiset().count(x) > 0) by {
                assert(pre_rest.contains(x));
            }
            assert(out@.to_multiset().add(rest@.to_multiset()) =~= orig.to_multiset()) by {
                assert(out@ == pre_out.push(x));
                assert(pre_out.push(x).to_multiset() =~= pre_out.to_multiset().insert(x));
                assert(pre_rest.remove(best as int).to_multiset() =~= pre_rest.to_multiset().remove(
                    pre_rest[best as int],
                ));
                assert(rest@.to_multiset() =~= pre_rest.to_multiset().remove(x));
                assert(pre_out.to_multiset().insert(x).add(pre_rest.to_multiset().remove(x))
                    =~= pre_out.to_multiset().add(pre_rest.to_multiset()));
            }
            assert forall|y: int| 0 <= y < rest@.len() implies ts_le(
                (#[trigger] rest@[y]).when,
                x.when,
            ) by {
                if y < best {
                    assert(rest@[y] == pre_rest[y]);
                } else {
                    assert(rest@[y] == pre_rest[y + 1]);
                }
            }
        }
    }
    out
}

/// Cell text of an optional field: a copy of the text, else the
/// placeholder.
pub fn opt_cell_text(o: &Option<String>) -> (r: String)
    ensures
        r@ == opt_cell(*o),
{
    match o {
        Some(s) => s.clone(),
        None => "<none>".to_owned(),
    }
}

/// Format one record into its five cells.
pub fn format_row(a: &Abnormality) -> (r: Vec<String>)
    requires
        ts_wf(a.when),
    ensures
        r.deep_view() == row_model(*a),
{
    let when = rfc3339_text(a.when.secs, a.when.nanos);
    let writer_id = opt_cell_text(&a.writer_id);
    let reader_id = opt_cell_text(&a.reader_id);
    let topic_name = opt_cell_text(&a.topic_name);
    let desc = a.desc.clone();
    let mut r: Vec<String> = Vec::new();
    r.push(when);
    r.push(writer_id);
    r.push(reader_id);
    r.push(topic_name);
    r.push(desc);
    proof {
        assert(r.deep_view() =~= row_model(*a));
    }
    r
}

/// Format every record, in order.
pub fn format_rows(v: &Vec<Abnormality>) -> (r: Vec<Vec<String>>)
    requires
        all_when_wf(v@),
    ensures
        r@.len() == v@.len(),
        r.deep_view() == rows_of(v@),
{
    let mut r: Vec<Vec<String>> = Vec::new();
    let n = v.len();
    let mut i: usize = 0;
    while i < n
        invariant
            all_when_wf(v@),
            n == v@.len(),
            i <= n,
            r@.len() == i,
            forall|ii: int| 0 <= ii < i ==> (#[trigger] r@[ii]).deep_view() == row_model(v@[ii]),
        decreases n - i,
    {
        let row = format_row(&v[i]);
        r.push(row);
        i = i + 1;
    }
    proof {
        assert(r.deep_view() =~= rows_of(v@));
    }
    r
}

/// The header labels of the abnormality view.
pub fn abnormality_headers() -> (r: Vec<String>)
    ensures
        r.deep_view() == abnormality_headers_model(),
{
    let mut r: Vec<String> = Vec::new();
    r.push("when".to_owned());
    r.push("writer".to_owned());
    r.push("reader".to_owned());
    r.push("topic".to_owned());
    r.push("desc".to_owned());
    proof {
        assert(r.deep_view() =~= abnormality_headers_model());
    }
    r
}

/// `t` is a faithful frame of the abnormality view over `input`: five fixed
/// headers over the formatted records in some most-recent-first order, with
/// widths per column and the selection `sel`.
pub open spec fn renders_abnormalities(
    input: Seq<Abnormality>,
    sel: Option<usize>,
    t: RenderedTable,
) -> bool {
    exists|s: Seq<Abnormality>|
        {
            &&& #[trigger] s.to_multiset() == input.to_multiset()
            &&& s.len() == input.len()
            &&& sorted_by_when_desc(s)
            &&& table_renders(abnormality_headers_model(), rows_of(s), sel, t)
        }
}

/// The abnormalities view.
pub struct TabAbnormality {
    pub table_state: ListCursor,
}

impl TabAbnormality {
    pub fn new() -> (r: TabAbnormality)
        ensures
            r.table_state == (ListCursor { selected: None::<usize>, row_count: 0usize }),
            r.table_state.wf(),
    {
        TabAbnormality { table_state: ListCursor::new() }
    }

    /// Render one frame: sort the snapshot's records most recent first,
    /// format the five columns, size them from headers and cells, and
    /// refresh the row count the cursor clamps against.
    pub fn render(&mut self, abnormalities: Vec<Abnormality>) -> (t: RenderedTable)
        requires
            old(self).table_state.wf(),
            all_when_wf(abnormalities@),
        ensures
            final(self).table_state == old(self).table_state.with_rows_spec(
                abnormalities@.len() as usize,
            ),
            final(self).table_state.wf(),
            t.rows@.len() == abnormalities@.len(),
            renders_abnormalities(abnormalities@, final(self).table_state.selected, t),
    {
        let sorted = sort_by_when(abnormalities);
        proof {
            lemma_permutation_keeps_when_wf(abnormalities@, sorted@);
        }
        let rows = format_rows(&sorted);
        let headers = abnormality_headers();
        proof {
            assert(rows_rectangular(headers.deep_view(), rows.deep_view())) by {
                assert forall|i: int| 0 <= i < rows.deep_view().len() implies (#[trigger] rows
                    .deep_view()[i]).len() == headers.deep_view().len() by {
                    assert(rows.deep_view()[i] == row_model(sorted@[i]));
                }
            }
        }
        let widths = column_widths(&headers, &rows);
        let n: usize = rows.len();
        self.table_state.set_row_count(n);
        let selected = self.table_state.selected;
        let t = RenderedTable { headers, rows, widths, selected };
        proof {
            assert(table_renders(abnormality_headers_model(), rows_of(sorted@), selected, t));
            assert(renders_abnormalities(abnormalities@, selected, t));
        }
        t
    }

    pub fn previous_item(&mut self)
        requires
            old(self).table_state.wf(),
        ensures
            final(self).table_state == old(self).table_state.back_spec(1),
            final(self).table_state.wf(),
    {
        self.table_state.previous_item();
    }

    pub fn next_item(&mut self)
        requires
            old(self).table_state.wf(),
        ensures
            final(self).table_state == old(self).table_state.fwd_spec(1),
            final(self).table_state.wf(),
    {
        self.table_state.next_item();
    }

    pub fn previous_page(&mut self)
        requires
            old(self).table_state.wf(),
        ensures
            final(self).table_state == old(self).table_state.back_spec(
                crate::nav::PAGE_STEP as nat,
            ),
            final(self).table_state.wf(),
    {
        self.table_state.previous_page();
    }

    pub fn next_page(&mut self)
        requires
            old(self).table_state.wf(),
        ensures
            final(self).table_state == old(self).table_state.fwd_spec(
                crate::nav::PAGE_STEP as nat,
            ),
            final(self).table_state.wf(),
    {
        self.table_state.next_page();
    }

    pub fn first_item(&mut self)
        requires
            old(self).table_state.wf(),
        ensures
            final(self).table_state == old(self).table_state.first_spec(),
            final(self).table_state.wf(),
    {
        self.table_state.first_item();
    }

    pub fn last_item(&mut self)
        requires
            old(self).table_state.wf(),
        ensures
            final(self).table_state == old(self).table_state.last_spec(),
            final(self).table_state.wf(),
    {
        self.table_state.last_item();
    }
}

} // verus!
