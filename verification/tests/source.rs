use fido::line::{LineRead, RowRead};
use fido::record::InputRecord;
use fido::source::{
    item_from_row, ParseFailure, ReadFailure, RecordSource, SourceError, SourceItem, SourceStep,
};

fn record(url: &str, text: &str) -> SourceItem {
    SourceItem::Record(InputRecord { url: url.to_string(), text: text.to_string() })
}

fn row(values: &[&str]) -> RowRead {
    RowRead::Fields(values.iter().map(|v| v.to_string()).collect())
}

#[test]
fn two_fields_make_a_record() {
    assert_eq!(item_from_row(row(&["https://good.example", "hello"])), record("https://good.example", "hello"));
    assert_eq!(item_from_row(row(&["", ""])), record("", ""));
}

#[test]
fn any_other_number_of_fields_is_malformed() {
    assert_eq!(item_from_row(row(&[])), SourceItem::Malformed(ParseFailure::FieldCount(0)));
    assert_eq!(item_from_row(row(&["only"])), SourceItem::Malformed(ParseFailure::FieldCount(1)));
    assert_eq!(item_from_row(row(&["a", "b", "c"])), SourceItem::Malformed(ParseFailure::FieldCount(3)));
}

#[test]
fn reader_error_is_malformed_and_no_record_is_no_data() {
    assert_eq!(
        item_from_row(RowRead::Failed("bad bytes".to_string())),
        SourceItem::Malformed(ParseFailure::Reader("bad bytes".to_string()))
    );
    assert_eq!(item_from_row(RowRead::NoRecord), SourceItem::NoData);
}

#[test]
fn new_source_stands_at_the_start() {
    let source = RecordSource::new(true);
    assert_eq!(source.bytes_processed(), 0);
    assert_eq!(source.line_number(), 0);
    assert!(source.awaiting_header());
    let source = RecordSource::new(false);
    assert_eq!(source.bytes_processed(), 0);
    assert!(!source.awaiting_header());
}

#[test]
fn header_is_counted_and_yields_nothing() {
    let mut source = RecordSource::new(true);
    let step = source.feed_line("url\ttext");
    assert_eq!(step, SourceStep { line_number: 1, offset: 9, item: SourceItem::Header });
    assert!(!source.awaiting_header());
    assert_eq!(source.bytes_processed(), 9);
    let step = source.feed_line("https://good.example\thello");
    assert_eq!(step, SourceStep { line_number: 2, offset: 36, item: record("https://good.example", "hello") });
}

#[test]
fn without_header_the_first_line_is_a_record_and_the_offset_starts_at_zero() {
    let mut source = RecordSource::new(false);
    let step = source.feed_line("https://good.example\thello");
    assert_eq!(step, SourceStep { line_number: 1, offset: 27, item: record("https://good.example", "hello") });
}

#[test]
fn header_is_not_parsed() {
    let mut source = RecordSource::new(true);
    assert_eq!(source.feed_line("").item, SourceItem::Header);
    let mut source = RecordSource::new(true);
    assert_eq!(source.feed_line("one\ttwo\tthree").item, SourceItem::Header);
    let mut source = RecordSource::new(true);
    let step = source.accept(3, LineRead::Row(row(&["a", "b"])));
    assert_eq!(step, SourceStep { line_number: 1, offset: 4, item: SourceItem::Header });
}

#[test]
fn offset_counts_bytes_not_characters() {
    let mut source = RecordSource::new(false);
    let step = source.feed_line("https://例え.example\tこんにちは");
    assert_eq!(step.offset, "https://例え.example\tこんにちは".len() as u64 + 1);
    assert_eq!(step.offset, 8 + 6 + 8 + 1 + 15 + 1);
}

#[test]
fn cumulative_offset_equals_file_size() {
    let file = "url\ttext\nhttps://good.example\thello\n\n   \nbroken line\nhttps://bad.example\tworld\n";
    let mut source = RecordSource::new(true);
    let mut records = 0;
    for line in file.lines() {
        if let SourceItem::Record(_) = source.feed_line(line).item {
            records += 1;
        }
    }
    assert_eq!(source.bytes_processed(), file.len() as u64);
    assert_eq!(source.line_number(), 6);
    assert_eq!(records, 2);
}

#[test]
fn blank_line_between_two_records_counts_and_yields_nothing() {
    let mut source = RecordSource::new(false);
    assert_eq!(source.feed_line("https://a.example\tone").item, record("https://a.example", "one"));
    let blank = source.feed_line("");
    assert_eq!(blank, SourceStep { line_number: 2, offset: 23, item: SourceItem::Blank });
    let spaces = source.feed_line("  \t ");
    assert_eq!(spaces, SourceStep { line_number: 3, offset: 28, item: SourceItem::Blank });
    let last = source.feed_line("https://b.example\ttwo");
    assert_eq!(last, SourceStep { line_number: 4, offset: 50, item: record("https://b.example", "two") });
}

#[test]
fn line_of_three_fields_is_malformed_and_names_its_line() {
    let mut source = RecordSource::new(true);
    source.feed_line("url\ttext");
    source.feed_line("https://a.example\tone");
    let bad = source.feed_line("https://b.example\ttwo\tthree");
    assert_eq!(
        bad,
        SourceStep {
            line_number: 3,
            offset: 9 + 22 + 28,
            item: SourceItem::Malformed(ParseFailure::FieldCount(3)),
        }
    );
    let next = source.feed_line("https://c.example\tfour");
    assert_eq!(next.line_number, 4);
    assert_eq!(next.item, record("https://c.example", "four"));
}

#[test]
fn line_of_one_field_is_malformed() {
    let mut source = RecordSource::new(false);
    let bad = source.feed_line("https://a.example");
    assert_eq!(bad.item, SourceItem::Malformed(ParseFailure::FieldCount(1)));
    assert_eq!(bad.offset, 18);
}

#[test]
fn accept_takes_what_was_read() {
    let mut source = RecordSource::new(false);
    let step = source.accept(10, LineRead::Blank);
    assert_eq!(step, SourceStep { line_number: 1, offset: 11, item: SourceItem::Blank });
    let step = source.accept(0, LineRead::Row(RowRead::NoRecord));
    assert_eq!(step, SourceStep { line_number: 2, offset: 12, item: SourceItem::NoData });
    let step = source.accept(5, LineRead::Row(row(&["u", "t"])));
    assert_eq!(step, SourceStep { line_number: 3, offset: 18, item: record("u", "t") });
    let step = source.accept(1, LineRead::Row(RowRead::Failed("m".to_string())));
    assert_eq!(
        step,
        SourceStep { line_number: 4, offset: 20, item: SourceItem::Malformed(ParseFailure::Reader("m".to_string())) }
    );
}

#[test]
fn unreadable_line_is_numbered_and_moves_no_offset() {
    let mut source = RecordSource::new(false);
    source.feed_line("https://a.example\tone");
    let failure = source.feed_failure("stream did not contain valid UTF-8".to_string());
    assert_eq!(
        failure,
        Ok(ReadFailure { line_number: 2, message: "stream did not contain valid UTF-8".to_string() })
    );
    assert_eq!(source.bytes_processed(), 22);
    assert_eq!(source.line_number(), 2);
    assert_eq!(source.feed_line("https://b.example\ttwo").line_number, 3);
}

#[test]
fn unreadable_header_ends_the_run() {
    let mut source = RecordSource::new(true);
    assert_eq!(
        source.feed_failure("broken".to_string()),
        Err(SourceError::HeaderUnreadable("broken".to_string()))
    );
    assert!(source.awaiting_header());
    assert_eq!(source.line_number(), 0);
}

#[test]
fn empty_input_with_header_expected_ends_the_run() {
    assert_eq!(RecordSource::new(true).end_of_input(), Err(SourceError::EmptyInput));
    assert_eq!(RecordSource::new(false).end_of_input(), Ok(()));
    let mut source = RecordSource::new(true);
    source.feed_line("url\ttext");
    assert_eq!(source.end_of_input(), Ok(()));
}

#[test]
fn room_is_what_fits_in_64_bits() {
    let mut source = RecordSource::new(false);
    assert!(source.has_room(0));
    assert!(source.has_room(usize::MAX - 1));
    assert!(!source.has_room(usize::MAX));
    source.accept(usize::MAX - 10, LineRead::Blank);
    assert_eq!(source.bytes_processed(), u64::MAX - 9);
    assert!(source.has_room(8));
    assert!(!source.has_room(9));
    source.accept(8, LineRead::Blank);
    assert_eq!(source.bytes_processed(), u64::MAX);
    assert!(!source.has_room(0));
}

#[test]
fn line_without_a_record_yields_no_data() {
    let mut source = RecordSource::new(false);
    let step = source.feed_line("\u{feff}");
    assert_eq!(step, SourceStep { line_number: 1, offset: 4, item: SourceItem::NoData });
}
