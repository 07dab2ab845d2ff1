use fido::line::{line_is_blank, read_line, LineRead, RowRead};

fn fields(values: &[&str]) -> LineRead {
    LineRead::Row(RowRead::Fields(values.iter().map(|v| v.to_string()).collect()))
}

#[test]
fn empty_and_whitespace_lines_are_blank() {
    assert!(line_is_blank(""));
    assert!(line_is_blank("   "));
    assert!(line_is_blank("\t"));
    assert!(line_is_blank(" \t \r"));
    assert!(line_is_blank("\u{a0}\u{3000}"));
    assert!(!line_is_blank("a"));
    assert!(!line_is_blank("  a  "));
    assert!(!line_is_blank("\ta"));
}

#[test]
fn blank_line_is_not_handed_to_the_reader() {
    assert_eq!(read_line(""), LineRead::Blank);
    assert_eq!(read_line(" \t "), LineRead::Blank);
}

#[test]
fn line_is_split_at_tabs() {
    assert_eq!(read_line("https://good.example\thello"), fields(&["https://good.example", "hello"]));
    assert_eq!(read_line("a\tb\tc"), fields(&["a", "b", "c"]));
    assert_eq!(read_line("only"), fields(&["only"]));
    assert_eq!(read_line("a\t"), fields(&["a", ""]));
    assert_eq!(read_line("\tb"), fields(&["", "b"]));
}

#[test]
fn commas_and_spaces_stay_inside_a_field() {
    assert_eq!(read_line("https://x.example/a,b\thello, world"), fields(&["https://x.example/a,b", "hello, world"]));
    assert_eq!(read_line(" a \t b "), fields(&[" a ", " b "]));
}

#[test]
fn quoted_field_may_hold_a_tab() {
    assert_eq!(read_line("\"a\tb\"\tc"), fields(&["a\tb", "c"]));
    assert_eq!(read_line("\"say \"\"hi\"\"\"\tc"), fields(&["say \"hi\"", "c"]));
}

#[test]
fn only_the_first_record_of_a_line_is_read() {
    assert_eq!(read_line("a\tb\rc\td"), fields(&["a", "b"]));
}

#[test]
fn text_beyond_ascii_is_kept() {
    assert_eq!(read_line("https://例え.example\tこんにちは"), fields(&["https://例え.example", "こんにちは"]));
}

#[test]
fn byte_order_mark_alone_holds_no_record() {
    assert_eq!(read_line("\u{feff}"), LineRead::Row(RowRead::NoRecord));
    assert_eq!(read_line("\u{feff}a\tb"), fields(&["a", "b"]));
}

#[test]
fn empty_quotes_are_one_empty_field() {
    assert_eq!(read_line("\"\""), fields(&[""]));
}
