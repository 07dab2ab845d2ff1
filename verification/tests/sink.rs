use fido::record::{InputRecord, OutputRecord};
use fido::sink::{
    encode_row, percent, ProgressReport, ResultSink, SinkAction, OUTPUT_HEADER, PROGRESS_INTERVAL,
    QUEUE_CAPACITY,
};

fn output(url: &str, text: &str, id: u64, download_successful: bool) -> OutputRecord {
    OutputRecord { url: url.to_string(), text: text.to_string(), id, download_successful }
}

#[test]
fn output_header_names_the_four_columns() {
    assert_eq!(OUTPUT_HEADER, "url,text,id,download_successful\n");
    assert_eq!(PROGRESS_INTERVAL, 100);
    assert_eq!(QUEUE_CAPACITY, 100);
}

#[test]
fn row_holds_the_four_values_in_order() {
    let row = encode_row(&output("https://good.example", "hello", 42, true));
    assert_eq!(row, Ok(b"https://good.example,hello,42,true\n".to_vec()));
    let row = encode_row(&output("https://bad.example", "world", u64::MAX, false));
    assert_eq!(row, Ok(b"https://bad.example,world,18446744073709551615,false\n".to_vec()));
}

#[test]
fn row_quotes_what_holds_a_comma_or_a_quote() {
    let row = encode_row(&output("https://x.example/a,b", "say \"hi\"", 7, true));
    assert_eq!(row, Ok(b"\"https://x.example/a,b\",\"say \"\"hi\"\"\",7,true\n".to_vec()));
}

#[test]
fn row_is_not_the_url_alone() {
    let row = encode_row(&output("u", "t", 1, false)).unwrap();
    assert_ne!(row, b"u".to_vec());
    assert_eq!(row, b"u,t,1,false\n".to_vec());
}

#[test]
fn sink_counts_every_record_and_every_success() {
    let mut sink = ResultSink::new();
    assert_eq!((sink.total(), sink.successful(), sink.dropped()), (0, 0, 0));
    let first = sink.receive(&output("https://good.example", "hello", 1, true));
    assert_eq!(first, SinkAction::Write(b"https://good.example,hello,1,true\n".to_vec()));
    let second = sink.receive(&output("https://bad.example", "world", 2, false));
    assert_eq!(second, SinkAction::Write(b"https://bad.example,world,2,false\n".to_vec()));
    assert_eq!((sink.total(), sink.successful(), sink.dropped()), (2, 1, 0));
    let summary = sink.finish();
    assert_eq!((summary.total(), summary.successful()), (2, 1));
}

#[test]
fn record_without_a_row_is_counted_and_dropped() {
    let mut sink = ResultSink::new();
    let action = sink.receive_encoded(true, Err("no row".to_string()));
    assert_eq!(action, SinkAction::Drop("no row".to_string()));
    assert_eq!((sink.total(), sink.successful(), sink.dropped()), (1, 1, 1));
    let action = sink.receive_encoded(false, Ok(b"a,b,1,false\n".to_vec()));
    assert_eq!(action, SinkAction::Write(b"a,b,1,false\n".to_vec()));
    assert_eq!((sink.total(), sink.successful(), sink.dropped()), (2, 1, 1));
}

#[test]
fn progress_is_due_after_every_hundredth_record() {
    let mut sink = ResultSink::new();
    assert_eq!(sink.progress_after_write(true), None);
    for i in 0..99u64 {
        sink.receive_encoded(i % 2 == 0, Ok(Vec::new()));
        assert_eq!(sink.progress_after_write(true), None);
    }
    sink.receive_encoded(false, Ok(Vec::new()));
    assert_eq!(
        sink.progress_after_write(true),
        Some(ProgressReport { processed: 100, successful: 50, success_rate: 50 })
    );
    assert_eq!(sink.progress_after_write(false), None);
    sink.receive_encoded(true, Ok(Vec::new()));
    assert_eq!(sink.progress_after_write(true), None);
}

#[test]
fn percent_rounds_down() {
    assert_eq!(percent(0, 0), 0);
    assert_eq!(percent(0, 3), 0);
    assert_eq!(percent(1, 3), 33);
    assert_eq!(percent(2, 3), 66);
    assert_eq!(percent(3, 3), 100);
    assert_eq!(percent(u64::MAX, u64::MAX), 100);
    assert_eq!(percent(u64::MAX - 1, u64::MAX), 99);
}

#[test]
fn report_gives_counts_and_rates() {
    let mut sink = ResultSink::new();
    sink.receive_encoded(true, Ok(Vec::new()));
    sink.receive_encoded(false, Ok(Vec::new()));
    sink.receive_encoded(false, Err("lost".to_string()));
    let report = sink.finish().report();
    assert_eq!(report.total_urls, 3);
    assert_eq!(report.successful, 1);
    assert_eq!(report.failed, 2);
    assert_eq!(report.success_rate, 33);
    assert_eq!(report.failure_rate, 66);
}

#[test]
fn report_of_an_empty_run_is_all_zero() {
    let report = ResultSink::new().finish().report();
    assert_eq!(
        (report.total_urls, report.successful, report.failed, report.success_rate, report.failure_rate),
        (0, 0, 0, 0, 0)
    );
}

#[test]
fn recorded_identifier_is_the_one_of_the_url() {
    let record = InputRecord { url: "https://good.example".to_string(), text: "hello".to_string() };
    let out = OutputRecord::assemble(record, true);
    assert_eq!(out.id, fido::identifier::generate_url_hash(&out.url));
    assert_eq!(out.url, "https://good.example");
    assert_eq!(out.text, "hello");
    assert!(out.download_successful);
}
