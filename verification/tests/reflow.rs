use tuifeed::text::make_summary_rows;

#[test]
fn hello_world_blank_lines() {
    let rows = make_summary_rows("Hello\n\n\n\nWorld");
    assert_eq!(rows, vec!["Hello".to_string(), "World".to_string()]);
}

#[test]
fn surrounding_whitespace_trimmed() {
    let rows = make_summary_rows("  \nPara one\nPara two\n  ");
    assert_eq!(rows, vec!["Para one".to_string(), "Para two".to_string()]);
}

#[test]
fn empty_body_yields_zero_rows() {
    let rows = make_summary_rows("");
    assert!(rows.is_empty());
}

#[test]
fn whitespace_only_body_yields_zero_rows() {
    let rows = make_summary_rows(" \t\n \r\n  ");
    assert!(rows.is_empty());
}

#[test]
fn single_line_is_one_row() {
    let rows = make_summary_rows("a lone paragraph");
    assert_eq!(rows, vec!["a lone paragraph".to_string()]);
}

#[test]
fn newline_runs_collapse_to_single_breaks() {
    let rows = make_summary_rows("a\n\nb\n\n\n\nc\nd");
    assert_eq!(
        rows,
        vec!["a".to_string(), "b".to_string(), "c".to_string(), "d".to_string()]
    );
}

#[test]
fn no_empty_rows_from_newline_runs() {
    let rows = make_summary_rows("one\n\n\ntwo\n\n\n\n\nthree");
    for row in &rows {
        assert!(!row.is_empty());
    }
    assert_eq!(rows.len(), 3);
}

#[test]
fn inner_spaces_are_kept() {
    let rows = make_summary_rows("a \n b");
    assert_eq!(rows, vec!["a ".to_string(), " b".to_string()]);
}

#[test]
fn blank_line_of_spaces_stays_a_row() {
    let rows = make_summary_rows("a\n \nb");
    assert_eq!(rows, vec!["a".to_string(), " ".to_string(), "b".to_string()]);
}

#[test]
fn multibyte_text_reflows() {
    let rows = make_summary_rows("héllo wörld\n\n\u{2014} dash");
    assert_eq!(rows, vec!["héllo wörld".to_string(), "\u{2014} dash".to_string()]);
}

#[test]
fn unicode_whitespace_trimmed() {
    let rows = make_summary_rows("\u{a0}\u{2003}padded\u{3000}");
    assert_eq!(rows, vec!["padded".to_string()]);
}
