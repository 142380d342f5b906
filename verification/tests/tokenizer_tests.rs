use grm::tokenizer::{escape_cell, parse_config_cell, parse_config_line, ConfigLineIterator, GrammarError};

#[test]
fn cell_basic() {
    let (cell, rest) = parse_config_cell("hello").unwrap();
    assert_eq!(cell, "hello");
    assert_eq!(rest, "");
}

#[test]
fn cell_skips_leading_and_trims_trailing_whitespace() {
    let (cell, rest) = parse_config_cell("   hello  \t * rest").unwrap();
    assert_eq!(cell, "hello");
    assert_eq!(rest, "* rest");
}

#[test]
fn cell_stops_at_separator() {
    let (cell, rest) = parse_config_cell("a*b").unwrap();
    assert_eq!(cell, "a");
    assert_eq!(rest, "*b");
}

#[test]
fn cell_escaped_separator_does_not_split() {
    let (cell, rest) = parse_config_cell("a\\*b").unwrap();
    assert_eq!(cell, "a*b");
    assert_eq!(rest, "");
}

#[test]
fn cell_escaped_whitespace_is_never_trimmed() {
    let (cell, rest) = parse_config_cell("hi\\ ").unwrap();
    assert_eq!(cell, "hi ");
    assert_eq!(rest, "");
}

#[test]
fn cell_trailing_backslash_is_an_error() {
    assert_eq!(parse_config_cell("abc\\").unwrap_err(), GrammarError::TrailingBackslash);
}

#[test]
fn cell_stops_at_line_ending() {
    let (cell, rest) = parse_config_cell("abc\ndef").unwrap();
    assert_eq!(cell, "abc");
    assert_eq!(rest, "\ndef");
}

#[test]
fn escape_round_trips_special_characters() {
    let original = "a*b\\c#d  e";
    let escaped = escape_cell(original);
    let (cell, rest) = parse_config_cell(&escaped).unwrap();
    assert_eq!(cell, original);
    assert_eq!(rest, "");
}

#[test]
fn escape_round_trips_whitespace_and_line_breaks() {
    let original = "  spaced\nout\r\n";
    let escaped = escape_cell(original);
    let (cell, rest) = parse_config_cell(&escaped).unwrap();
    assert_eq!(cell, original);
    assert_eq!(rest, "");
}

#[test]
fn escape_round_trips_empty() {
    let escaped = escape_cell("");
    let (cell, rest) = parse_config_cell(&escaped).unwrap();
    assert_eq!(cell, "");
    assert_eq!(rest, "");
}

#[test]
fn line_splits_on_separators() {
    let (cells, rest) = parse_config_line("a * b * c\nnext").unwrap();
    assert_eq!(cells, vec!["a", "b", "c"]);
    assert_eq!(rest, "next");
}

#[test]
fn line_with_escaped_separator_is_one_cell() {
    let (cells, rest) = parse_config_line("a/b.git\\*c").unwrap();
    assert_eq!(cells, vec!["a/b.git*c"]);
    assert_eq!(rest, "");
}

#[test]
fn line_leading_separator_gives_empty_first_cell() {
    let (cells, _) = parse_config_line("* KEY * VALUE\n").unwrap();
    assert_eq!(cells, vec!["", "KEY", "VALUE"]);
}

#[test]
fn line_comment_yields_no_cells_and_consumes_line() {
    let (cells, rest) = parse_config_line("# a comment * with separators\nnext").unwrap();
    assert!(cells.is_empty());
    assert_eq!(rest, "next");
}

#[test]
fn line_later_comment_cell_truncates_line() {
    let (cells, rest) = parse_config_line("a * # rest ignored * x\nnext").unwrap();
    assert_eq!(cells, vec!["a"]);
    assert_eq!(rest, "next");
}

#[test]
fn line_consumes_crlf_as_one_terminator() {
    let (cells, rest) = parse_config_line("a * b\r\nnext").unwrap();
    assert_eq!(cells, vec!["a", "b"]);
    assert_eq!(rest, "next");
}

#[test]
fn line_consumes_lone_cr_as_terminator() {
    let (cells, rest) = parse_config_line("a\rnext").unwrap();
    assert_eq!(cells, vec!["a"]);
    assert_eq!(rest, "next");
}

#[test]
fn line_consecutive_separators_give_empty_cells() {
    let (cells, rest) = parse_config_line("a**b\n").unwrap();
    assert_eq!(cells, vec!["a", "", "b"]);
    assert_eq!(rest, "");
}

#[test]
fn iterator_skips_blank_and_comment_lines() {
    let text = "\n   \n# comment\nfirst * x\n\n# more\nsecond\n";
    let mut it = ConfigLineIterator::from_string(text.to_string());
    let a = it.next_line().unwrap().unwrap();
    assert_eq!(a, vec!["first", "x"]);
    let b = it.next_line().unwrap().unwrap();
    assert_eq!(b, vec!["second"]);
    assert!(it.next_line().is_none());
}

#[test]
fn iterator_reports_grammar_error() {
    let mut it = ConfigLineIterator::from_string("bad\\".to_string());
    let r = it.next_line().unwrap();
    assert_eq!(r.unwrap_err(), GrammarError::TrailingBackslash);
}

#[test]
fn iterator_handles_input_without_final_newline() {
    let mut it = ConfigLineIterator::from_string("only * line".to_string());
    let a = it.next_line().unwrap().unwrap();
    assert_eq!(a, vec!["only", "line"]);
    assert!(it.next_line().is_none());
}
