//! Rendering behavior of the tabular views on concrete stores.

use dds_dashboard::tab_abnormality::{Abnormality, TabAbnormality, Timestamp};
use dds_dashboard::table::{column_widths, EntityTable};
use dds_dashboard::ui::{tab_titles, poll_budget, tick_due, KeyInput, Snapshot, Tui};

fn record(secs: i64, desc: &str) -> Abnormality {
    Abnormality {
        when: Timestamp { secs, nanos: 0 },
        writer_id: Some("writer-1".to_string()),
        reader_id: Some("reader-1".to_string()),
        topic_name: Some("topic-1".to_string()),
        desc: desc.to_string(),
    }
}

#[test]
fn abnormalities_sort_most_recent_first() {
    let mut tab = TabAbnormality::new();
    let t: i64 = 1_000_000;
    let records = vec![record(t, "at"), record(t - 1, "before"), record(t + 1, "after")];
    let table = tab.render(records);
    assert_eq!(table.rows.len(), 3);
    assert_eq!(table.rows[0][4], "after");
    assert_eq!(table.rows[1][4], "at");
    assert_eq!(table.rows[2][4], "before");
}

#[test]
fn when_cell_is_rfc3339_text() {
    let mut tab = TabAbnormality::new();
    let table = tab.render(vec![record(0, "epoch")]);
    assert_eq!(table.rows[0][0], "1970-01-01T00:00:00+00:00");
    let mut tab2 = TabAbnormality::new();
    let table2 = tab2.render(vec![record(1_431_648_000, "later")]);
    assert_eq!(table2.rows[0][0], "2015-05-15T00:00:00+00:00");
}

#[test]
fn absent_fields_render_placeholder() {
    // One writer, one reader known; the record names only the writer.
    let mut tab = TabAbnormality::new();
    let rec = Abnormality {
        when: Timestamp { secs: 42, nanos: 0 },
        writer_id: Some("writer-1".to_string()),
        reader_id: None,
        topic_name: None,
        desc: "missed match".to_string(),
    };
    let table = tab.render(vec![rec]);
    assert_eq!(table.rows[0][1], "writer-1");
    assert_eq!(table.rows[0][2], "<none>");
    assert_eq!(table.rows[0][3], "<none>");
    assert_eq!(table.rows[0][4], "missed match");
}

#[test]
fn abnormality_headers_and_selection() {
    let mut tab = TabAbnormality::new();
    let table = tab.render(vec![record(7, "x")]);
    assert_eq!(table.headers, vec!["when", "writer", "reader", "topic", "desc"]);
    assert_eq!(table.selected, None);
    tab.next_item();
    let table2 = tab.render(vec![record(7, "x")]);
    assert_eq!(table2.selected, Some(0));
}

#[test]
fn empty_store_renders_header_only() {
    let mut tab = TabAbnormality::new();
    let table = tab.render(Vec::new());
    assert_eq!(table.rows.len(), 0);
    assert_eq!(tab.table_state.row_count, 0);
    assert_eq!(table.headers.len(), 5);
    // Widths fall back to the header lengths.
    assert_eq!(table.widths, vec![4, 6, 6, 5, 4]);
    // Any navigation key stays a no-op.
    tab.next_item();
    tab.previous_item();
    tab.first_item();
    tab.last_item();
    assert_eq!(tab.table_state.selected, None);
}

#[test]
fn column_width_is_max_of_header_and_cells() {
    let headers = vec!["topic".to_string()];
    let rows = vec![vec!["<none>".to_string()]];
    assert_eq!(column_widths(&headers, &rows), vec![6]);
    let no_rows: Vec<Vec<String>> = Vec::new();
    assert_eq!(column_widths(&headers, &no_rows), vec![5]);
}

#[test]
fn abnormality_widths_track_cells() {
    let mut tab = TabAbnormality::new();
    let table = tab.render(vec![record(0, "epoch")]);
    // when: the 25-character RFC 3339 text beats the 4-character header.
    assert_eq!(table.widths[0], 25);
    assert_eq!(table.widths[1], 8); // "writer-1"
    assert_eq!(table.widths[4], 5); // "epoch"
}

#[test]
fn entity_table_renders_opaque_cells() {
    let mut tab = EntityTable::new();
    let headers = vec!["guid".to_string(), "topic".to_string()];
    let rows = vec![
        vec!["0102".to_string(), "chat".to_string()],
        vec!["03".to_string(), "telemetry".to_string()],
    ];
    let table = tab.render(headers, rows);
    assert_eq!(table.rows.len(), 2);
    assert_eq!(table.widths, vec![4, 9]);
    assert_eq!(tab.table_state.row_count, 2);
}

#[test]
fn draw_renders_active_tab_from_snapshot() {
    let mut t = Tui::new();
    let snapshot = Snapshot {
        writer_headers: vec!["guid".to_string()],
        writer_rows: vec![vec!["w1".to_string()]],
        reader_headers: vec!["guid".to_string()],
        reader_rows: vec![vec!["r1".to_string()]],
        topic_headers: vec!["name".to_string()],
        topic_rows: Vec::new(),
        abnormalities: vec![record(5, "only the writer")],
    };
    let table = t.draw(snapshot);
    assert_eq!(table.headers, vec!["guid"]);
    assert_eq!(table.rows, vec![vec!["w1".to_string()]]);
    assert_eq!(t.tab_writer.table_state.row_count, 1);
    // The other views were not rendered and keep their counts.
    assert_eq!(t.tab_abnormality.table_state.row_count, 0);
}

#[test]
fn draw_on_abnormality_tab() {
    let mut t = Tui::new();
    for _ in 0..3 {
        t.process_key(KeyInput::Tab);
    }
    assert_eq!(t.tab_index, 3);
    let snapshot = Snapshot {
        writer_headers: Vec::new(),
        writer_rows: Vec::new(),
        reader_headers: Vec::new(),
        reader_rows: Vec::new(),
        topic_headers: Vec::new(),
        topic_rows: Vec::new(),
        abnormalities: vec![record(9, "b"), record(10, "a")],
    };
    let table = t.draw(snapshot);
    assert_eq!(table.rows.len(), 2);
    assert_eq!(table.rows[0][4], "a");
    assert_eq!(table.rows[1][4], "b");
    assert_eq!(t.tab_abnormality.table_state.row_count, 2);
}

#[test]
fn tab_strip_labels() {
    assert_eq!(tab_titles(), vec!["Writers", "Reader", "Topics", "Abnormalities"]);
}

#[test]
fn tick_budget_and_due() {
    assert_eq!(poll_budget(100, 30), 70);
    assert_eq!(poll_budget(100, 100), 0);
    assert_eq!(poll_budget(100, 150), 0);
    assert!(tick_due(100, 100));
    assert!(tick_due(100, 150));
    assert!(!tick_due(100, 99));
}
