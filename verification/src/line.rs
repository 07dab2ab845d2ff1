//! Reading one input line: is it blank, and if not, which fields does it
//! hold. The tabular encoding itself (tab as the delimiter, quoting) is the
//! csv crate's; whitespace is std's.

use vstd::prelude::*;

verus! {

/// What the tabular reader made of one line.
#[derive(Debug, PartialEq, Eq)]
pub enum RowRead {
    /// It found no record in the line.
    NoRecord,
    /// The fields of the first record in the line, in order.
    Fields(Vec<String>),
    /// It gave up on the line, with this message.
    Failed(String),
}

/// What a [`RowRead`] holds.
pub enum RowReadView {
    NoRecord,
    Fields(Seq<Seq<char>>),
    Failed(Seq<char>),
}

impl View for RowRead {
    type V = RowReadView;

    open spec fn view(&self) -> RowReadView {
        match self {
            RowRead::NoRecord => RowReadView::NoRecord,
            RowRead::Fields(fields) => RowReadView::Fields(fields.deep_view()),
            RowRead::Failed(message) => RowReadView::Failed(message@),
        }
    }
}

/// What the csv crate reads from `line` as a tab-separated row.
pub uninterp spec fn spec_tsv_row(line: Seq<char>) -> RowReadView;

/// Trusted: a `csv::Reader` built by `csv::ReaderBuilder` with a tab as the
/// delimiter and without a header row, reading the bytes of `line`; the
/// first item of its `records()`. What comes back depends on the line
/// alone: no record, the fields of the first record, or the reader's error
/// as its message.
#[verifier::external_body]
fn tsv_row(line: &str) -> (row: RowRead)
    ensures
        row@ == spec_tsv_row(line@),
{
    let mut reader =
        csv::ReaderBuilder::new().delimiter(b'\t').has_headers(false).from_reader(line.as_bytes());
    match reader.records().next() {
        None => RowRead::NoRecord,
        Some(Ok(record)) => RowRead::Fields(record.iter().map(String::from).collect()),
        Some(Err(error)) => RowRead::Failed(error.to_string()),
    }
}

/// Whether `c` is whitespace, as Unicode defines it.
pub uninterp spec fn spec_is_whitespace(c: char) -> bool;

/// Trusted: `char::is_whitespace` of std. What it returns depends on `c`
/// alone.
#[verifier::external_body]
fn is_whitespace(c: char) -> (white: bool)
    ensures
        white == spec_is_whitespace(c),
{
    c.is_whitespace()
}

/// What reading one line of the input gave.
#[derive(Debug, PartialEq, Eq)]
pub enum LineRead {
    /// The line is empty or holds whitespace only; the tabular reader never
    /// saw it.
    Blank,
    /// The line is not blank, and this is what the tabular reader made of it.
    Row(RowRead),
}

/// What a [`LineRead`] holds.
pub enum LineReadView {
    Blank,
    Row(RowReadView),
}

impl View for LineRead {
    type V = LineReadView;

    open spec fn view(&self) -> LineReadView {
        match self {
            LineRead::Blank => LineReadView::Blank,
            LineRead::Row(row) => LineReadView::Row(row@),
        }
    }
}

/// A line is blank when it is empty or holds whitespace only.
pub open spec fn is_blank(line: Seq<char>) -> bool {
    forall|i: int| 0 <= i < line.len() ==> spec_is_whitespace(#[trigger] line[i])
}

/// What reading `line` gives: a blank line is never handed to the tabular
/// reader.
pub open spec fn spec_read_line(line: Seq<char>) -> LineReadView {
    if is_blank(line) {
        LineReadView::Blank
    } else {
        LineReadView::Row(spec_tsv_row(line))
    }
}

/// Whether `line` is empty or holds whitespace only.
pub fn line_is_blank(line: &str) -> (blank: bool)
    ensures
        blank == is_blank(line@),
{
    for c in it: line.chars()
        invariant
            it.seq() == line@,
            forall|i: int| 0 <= i < it.index() ==> spec_is_whitespace(#[trigger] line@[i]),
    {
        if !is_whitespace(c) {
            return false;
        }
    }
    true
}

/// Reads one line of the input.
pub fn read_line(line: &str) -> (read: LineRead)
    ensures
        read@ == spec_read_line(line@),
{
    if line_is_blank(line) {
        LineRead::Blank
    } else {
        LineRead::Row(tsv_row(line))
    }
}

} // verus!
