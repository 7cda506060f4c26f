use hecto::{Document, Row};

fn text_of(row: &Row) -> String {
    row.render(0, usize::MAX)
}

#[test]
fn row_length_counts_columns() {
    assert_eq!(Row::new("").len(), 0);
    assert_eq!(Row::new("hello").len(), 5);
    assert_eq!(Row::new("a b\tc").len(), 5);
}

#[test]
fn row_length_counts_characters_not_bytes() {
    assert_eq!(Row::new("h\u{e9}llo").len(), 5);
}

#[test]
fn render_returns_the_window() {
    let row = Row::new("hello world");
    assert_eq!(row.render(0, 5), "hello");
    assert_eq!(row.render(6, 11), "world");
    assert_eq!(row.render(3, 8), "lo wo");
}

#[test]
fn render_clamps_the_end_to_the_row() {
    let row = Row::new("hello");
    assert_eq!(row.render(2, 100), "llo");
    assert_eq!(row.render(0, usize::MAX), "hello");
}

#[test]
fn render_beyond_the_row_is_empty() {
    let row = Row::new("hello");
    assert_eq!(row.len(), 5);
    assert_eq!(row.render(10, 20), "");
    assert_eq!(row.render(5, 20), "");
}

#[test]
fn render_with_start_after_end_is_empty() {
    let row = Row::new("hello");
    assert_eq!(row.render(3, 1), "");
    assert_eq!(row.render(4, 4), "");
}

#[test]
fn render_of_an_empty_row_is_empty() {
    assert_eq!(Row::new("").render(0, 80), "");
}

#[test]
fn render_windows_by_character() {
    let row = Row::new("h\u{e9}llo");
    assert_eq!(row.render(1, 3), "\u{e9}l");
}

#[test]
fn default_document_is_empty() {
    let document = Document::default();
    assert!(document.is_empty());
    assert_eq!(document.len(), 0);
    assert!(document.row(0).is_none());
}

#[test]
fn document_keeps_rows_in_order() {
    let document = Document::new(vec![Row::new("one"), Row::new("two"), Row::new("three")]);
    assert!(!document.is_empty());
    assert_eq!(document.len(), 3);
    assert_eq!(text_of(document.row(0).unwrap()), "one");
    assert_eq!(text_of(document.row(1).unwrap()), "two");
    assert_eq!(text_of(document.row(2).unwrap()), "three");
}

#[test]
fn document_row_out_of_range_is_absent() {
    let document = Document::new(vec![Row::new("one"), Row::new("two")]);
    assert!(document.row(2).is_none());
    assert!(document.row(usize::MAX).is_none());
}

#[test]
fn document_of_no_rows_is_empty() {
    let document = Document::new(Vec::new());
    assert!(document.is_empty());
    assert_eq!(document.len(), 0);
}
