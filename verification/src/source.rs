//! The record source: what each line of the input yields, and how far it
//! moves the byte offset.
//!
//! The source does not read the file. Its caller reads the lines, one at a
//! time and in file order, and feeds each to the source, which keeps the
//! running byte offset and the line number and says what the line yields.
//! It cannot go back: a line that was fed is consumed.

use crate::line::{
    is_blank, read_line, spec_read_line, spec_tsv_row, LineRead, LineReadView, RowRead,
    RowReadView,
};
use crate::record::{InputRecord, InputRecordView};
use vstd::prelude::*;
use vstd::utf8::encode_utf8;

verus! {

/// Why a line that is not blank gave no record.
#[derive(Debug, PartialEq, Eq)]
pub enum ParseFailure {
    /// The line holds this many fields, not two.
    FieldCount(usize),
    /// The tabular reader gave up on the line, with this message.
    Reader(String),
}

/// What a [`ParseFailure`] holds.
pub enum ParseFailureView {
    FieldCount(nat),
    Reader(Seq<char>),
}

impl View for ParseFailure {
    type V = ParseFailureView;

    open spec fn view(&self) -> ParseFailureView {
        match self {
            ParseFailure::FieldCount(found) => ParseFailureView::FieldCount(*found as nat),
            ParseFailure::Reader(message) => ParseFailureView::Reader(message@),
        }
    }
}

/// What one line yields.
#[derive(Debug, PartialEq, Eq)]
pub enum SourceItem {
    /// The line is the header: it is counted and yields nothing.
    Header,
    /// The line is blank: it is counted and yields nothing.
    Blank,
    /// The reader found no record in a line that is not blank.
    NoData,
    /// The line is a record of two fields, URL and text.
    Record(InputRecord),
    /// The line is not a record of two fields.
    Malformed(ParseFailure),
}

/// What a [`SourceItem`] holds.
pub enum SourceItemView {
    Header,
    Blank,
    NoData,
    Record(InputRecordView),
    Malformed(ParseFailureView),
}

impl View for SourceItem {
    type V = SourceItemView;

    open spec fn view(&self) -> SourceItemView {
        match self {
            SourceItem::Header => SourceItemView::Header,
            SourceItem::Blank => SourceItemView::Blank,
            SourceItem::NoData => SourceItemView::NoData,
            SourceItem::Record(record) => SourceItemView::Record(record@),
            SourceItem::Malformed(failure) => SourceItemView::Malformed(failure@),
        }
    }
}

/// One consumed line: its number, counted from 1, the byte offset behind
/// it, and what it yields.
#[derive(Debug, PartialEq, Eq)]
pub struct SourceStep {
    pub line_number: u64,
    pub offset: u64,
    pub item: SourceItem,
}

/// What a [`SourceStep`] holds.
pub struct SourceStepView {
    pub line_number: nat,
    pub offset: nat,
    pub item: SourceItemView,
}

impl View for SourceStep {
    type V = SourceStepView;

    open spec fn view(&self) -> SourceStepView {
        SourceStepView {
            line_number: self.line_number as nat,
            offset: self.offset as nat,
            item: self.item@,
        }
    }
}

/// A line that could not be read: its number and the reader's message. It
/// moves the line number and leaves the byte offset where it was.
#[derive(Debug, PartialEq, Eq)]
pub struct ReadFailure {
    pub line_number: u64,
    pub message: String,
}

/// Why the source yields nothing at all.
#[derive(Debug, PartialEq, Eq)]
pub enum SourceError {
    /// A header was expected and the input holds no line.
    EmptyInput,
    /// A header was expected and could not be read.
    HeaderUnreadable(String),
}

/// What a non-blank line's fields make: a record where there are exactly
/// two of them.
pub open spec fn item_of_row(row: RowReadView) -> SourceItemView {
    match row {
        RowReadView::NoRecord => SourceItemView::NoData,
        RowReadView::Fields(fields) => if fields.len() == 2 {
            SourceItemView::Record(InputRecordView { url: fields[0], text: fields[1] })
        } else {
            SourceItemView::Malformed(ParseFailureView::FieldCount(fields.len()))
        },
        RowReadView::Failed(message) => SourceItemView::Malformed(
            ParseFailureView::Reader(message),
        ),
    }
}

/// What a line that is not the header yields.
pub open spec fn item_of_read(read: LineReadView) -> SourceItemView {
    match read {
        LineReadView::Blank => SourceItemView::Blank,
        LineReadView::Row(row) => item_of_row(row),
    }
}

/// The state of a record source.
pub struct SourceState {
    /// The next line is the header.
    pub awaiting_header: bool,
    /// The bytes consumed so far, line terminators included.
    pub offset: nat,
    /// The lines consumed so far.
    pub lines: nat,
}

impl SourceState {
    /// The state before the first line.
    pub open spec fn start(has_header: bool) -> SourceState {
        SourceState { awaiting_header: has_header, offset: 0, lines: 0 }
    }

    /// Whether a line of `len` bytes can still be counted in 64 bits.
    pub open spec fn has_room(self, len: nat) -> bool {
        self.offset + len + 1 <= u64::MAX && self.lines < u64::MAX
    }

    /// The state after a line of `len` bytes: the line and one terminator
    /// byte are added to the offset, whatever the line holds.
    pub open spec fn after_line(self, len: nat) -> SourceState {
        SourceState {
            awaiting_header: false,
            offset: self.offset + len + 1,
            lines: self.lines + 1,
        }
    }

    /// What a line yields that was read as `read`.
    pub open spec fn item_of(self, read: LineReadView) -> SourceItemView {
        if self.awaiting_header {
            SourceItemView::Header
        } else {
            item_of_read(read)
        }
    }

    /// The step that a line of `len` bytes, read as `read`, makes.
    pub open spec fn step_of(self, len: nat, read: LineReadView) -> SourceStepView {
        SourceStepView {
            line_number: self.lines + 1,
            offset: self.offset + len + 1,
            item: self.item_of(read),
        }
    }

    /// The state after a line that could not be read.
    pub open spec fn after_failure(self) -> SourceState {
        SourceState { lines: self.lines + 1, ..self }
    }
}

/// The bytes of an input file that holds the lines `lines`, each followed
/// by one terminator byte.
pub open spec fn file_bytes(lines: Seq<Seq<char>>) -> Seq<u8>
    decreases lines.len(),
{
    if lines.len() == 0 {
        Seq::empty()
    } else {
        file_bytes(lines.drop_last()) + encode_utf8(lines.last()) + seq![0x0au8]
    }
}

/// Whether a line that is not the header yields a record: it is not blank
/// and holds exactly two fields.
pub open spec fn is_record_line(line: Seq<char>) -> bool {
    &&& !is_blank(line)
    &&& spec_tsv_row(line) matches RowReadView::Fields(fields)
    &&& fields.len() == 2
}

/// How many of `lines` yield a record where none of them is the header.
pub open spec fn record_lines(lines: Seq<Seq<char>>) -> nat
    decreases lines.len(),
{
    if lines.len() == 0 {
        0
    } else if is_record_line(lines.last()) {
        record_lines(lines.drop_last()) + 1
    } else {
        record_lines(lines.drop_last())
    }
}

/// The lines of an input without its header, where it has one.
pub open spec fn data_lines(has_header: bool, lines: Seq<Seq<char>>) -> Seq<Seq<char>> {
    if has_header && lines.len() > 0 {
        lines.drop_first()
    } else {
        lines
    }
}

/// How many of `steps` yield a record.
pub open spec fn count_records(steps: Seq<SourceStepView>) -> nat
    decreases steps.len(),
{
    if steps.len() == 0 {
        0
    } else if steps.last().item is Record {
        count_records(steps.drop_last()) + 1
    } else {
        count_records(steps.drop_last())
    }
}

impl SourceState {
    /// The state after the lines `lines`, fed in this order.
    pub open spec fn after_lines(self, lines: Seq<Seq<char>>) -> SourceState
        decreases lines.len(),
    {
        if lines.len() == 0 {
            self
        } else {
            self.after_lines(lines.drop_last()).after_line(encode_utf8(lines.last()).len())
        }
    }

    /// The steps that the lines `lines` make, fed in this order: one step
    /// for each line.
    pub open spec fn steps_of(self, lines: Seq<Seq<char>>) -> Seq<SourceStepView>
        decreases lines.len(),
    {
        if lines.len() == 0 {
            Seq::empty()
        } else {
            self.steps_of(lines.drop_last()).push(
                self.after_lines(lines.drop_last()).step_of(
                    encode_utf8(lines.last()).len(),
                    spec_read_line(lines.last()),
                ),
            )
        }
    }
}

/// Once the whole input has been fed, the byte offset is the size of the
/// input: every line counts with its terminator, the header and the blank
/// lines as much as any other. Every line was numbered, and the header is
/// no longer awaited once a line has been fed.
pub proof fn lemma_offset_is_file_size(state: SourceState, lines: Seq<Seq<char>>)
    ensures
        state.after_lines(lines).offset == state.offset + file_bytes(lines).len(),
        state.after_lines(lines).lines == state.lines + lines.len(),
        state.after_lines(lines).awaiting_header == (state.awaiting_header && lines.len() == 0),
    decreases lines.len(),
{
    if lines.len() > 0 {
        lemma_offset_is_file_size(state, lines.drop_last());
    }
}

/// The first `k` lines of an input take no more bytes than the input, and
/// fewer where a line is left.
pub proof fn lemma_file_bytes_of_prefix(lines: Seq<Seq<char>>, k: int)
    requires
        0 <= k <= lines.len(),
    ensures
        file_bytes(lines.take(k)).len() <= file_bytes(lines).len(),
        k < lines.len() ==> file_bytes(lines.take(k)).len() < file_bytes(lines).len(),
    decreases lines.len(),
{
    if k == lines.len() {
        assert(lines.take(k) == lines);
    } else {
        assert(lines.take(k) == lines.drop_last().take(k));
        lemma_file_bytes_of_prefix(lines.drop_last(), k);
    }
}

/// The source yields one step for each line, in the order of the lines.
/// The steps are numbered from 1; the offset of each is the size of the
/// input up to the end of its line, so the offsets grow from step to step;
/// and each step yields the header, for the first line where one is
/// expected, or what the text of its own line makes. So the source yields
/// as many records as there are lines, the header apart, that are not
/// blank and hold two fields.
pub proof fn lemma_one_step_per_line(has_header: bool, lines: Seq<Seq<char>>)
    ensures
        SourceState::start(has_header).steps_of(lines).len() == lines.len(),
        forall|i: int|
            0 <= i < lines.len() ==> (#[trigger] SourceState::start(has_header).steps_of(
                lines,
            )[i]).line_number == i + 1,
        forall|i: int|
            0 <= i < lines.len() ==> (#[trigger] SourceState::start(has_header).steps_of(
                lines,
            )[i]).offset == file_bytes(lines.take(i + 1)).len(),
        forall|i: int|
            0 <= i < lines.len() ==> (#[trigger] SourceState::start(has_header).steps_of(
                lines,
            )[i]).item == if has_header && i == 0 {
                SourceItemView::Header
            } else {
                item_of_read(spec_read_line(lines[i]))
            },
        forall|i: int, j: int|
            0 <= i < j < lines.len() ==> (#[trigger] SourceState::start(has_header).steps_of(
                lines,
            )[i]).offset < (#[trigger] SourceState::start(has_header).steps_of(lines)[j]).offset,
        count_records(SourceState::start(has_header).steps_of(lines)) == record_lines(
            data_lines(has_header, lines),
        ),
    decreases lines.len(),
{
    let start = SourceState::start(has_header);
    let steps = start.steps_of(lines);
    if lines.len() > 0 {
        let front = lines.drop_last();
        let last = lines.len() - 1;
        lemma_one_step_per_line(has_header, front);
        lemma_offset_is_file_size(start, front);
        assert(steps.drop_last() == start.steps_of(front));
        assert(lines.take(last + 1) == lines);
        assert forall|i: int| 0 <= i < lines.len() implies (#[trigger] steps[i]).offset
            == file_bytes(lines.take(i + 1)).len() by {
            if i < last {
                assert(steps[i] == start.steps_of(front)[i]);
                assert(front.take(i + 1) == lines.take(i + 1));
            }
        }
        assert forall|i: int, j: int| 0 <= i < j < lines.len() implies (#[trigger] steps[i]).offset
            < (#[trigger] steps[j]).offset by {
            lemma_file_bytes_of_prefix(lines.take(j + 1), i + 1);
            assert(lines.take(j + 1).take(i + 1) == lines.take(i + 1));
        }
        if has_header && front.len() == 0 {
            assert(data_lines(has_header, lines).len() == 0);
        } else {
            assert(data_lines(has_header, lines).drop_last() == data_lines(has_header, front));
            assert(data_lines(has_header, lines).last() == lines.last());
        }
    }
}

/// The record source.
#[derive(Debug)]
pub struct RecordSource {
    awaiting_header: bool,
    offset: u64,
    lines: u64,
}

impl View for RecordSource {
    type V = SourceState;

    closed spec fn view(&self) -> SourceState {
        SourceState {
            awaiting_header: self.awaiting_header,
            offset: self.offset as nat,
            lines: self.lines as nat,
        }
    }
}

/// Turns the fields of a line into what the line yields.
pub fn item_from_row(row: RowRead) -> (item: SourceItem)
    ensures
        item@ == item_of_row(row@),
{
    match row {
        RowRead::NoRecord => SourceItem::NoData,
        RowRead::Fields(fields) => {
            let mut fields = fields;
            let found = fields.len();
            if found == 2 {
                let text = fields.pop().unwrap();
                let url = fields.pop().unwrap();
                SourceItem::Record(InputRecord { url, text })
            } else {
                SourceItem::Malformed(ParseFailure::FieldCount(found))
            }
        },
        RowRead::Failed(message) => SourceItem::Malformed(ParseFailure::Reader(message)),
    }
}

impl RecordSource {
    /// A source at the start of the input. With `has_header` the first line
    /// is a header: it counts towards the offset and yields no record.
    pub fn new(has_header: bool) -> (source: RecordSource)
        ensures
            source@ == SourceState::start(has_header),
    {
        RecordSource { awaiting_header: has_header, offset: 0, lines: 0 }
    }

    /// A source in the state of this one. The pipeline steps such a copy
    /// and puts it in the place of its source, so that its source changes
    /// at one stroke.
    pub(crate) fn duplicate(&self) -> (copy: RecordSource)
        ensures
            copy@ == self@,
    {
        RecordSource {
            awaiting_header: self.awaiting_header,
            offset: self.offset,
            lines: self.lines,
        }
    }

    /// The bytes consumed so far: every line that was fed and one
    /// terminator byte for each.
    pub fn bytes_processed(&self) -> (offset: u64)
        ensures
            offset == self@.offset,
    {
        self.offset
    }

    /// The number of the last line, counted from 1; 0 before the first.
    pub fn line_number(&self) -> (lines: u64)
        ensures
            lines == self@.lines,
    {
        self.lines
    }

    /// Whether the next line is the header.
    pub fn awaiting_header(&self) -> (awaiting: bool)
        ensures
            awaiting == self@.awaiting_header,
    {
        self.awaiting_header
    }

    /// Whether a line of `len` bytes can still be counted.
    pub fn has_room(&self, len: usize) -> (room: bool)
        ensures
            room == self@.has_room(len as nat),
    {
        self.lines < u64::MAX && len as u64 <= u64::MAX - 1 && self.offset <= u64::MAX - 1
            - len as u64
    }

    /// Consumes a line of `len` bytes that was read as `read`.
    pub fn accept(&mut self, len: usize, read: LineRead) -> (step: SourceStep)
        requires
            old(self)@.has_room(len as nat),
        ensures
            final(self)@ == old(self)@.after_line(len as nat),
            step@ == old(self)@.step_of(len as nat, read@),
    {
        let item = if self.awaiting_header {
            SourceItem::Header
        } else {
            match read {
                LineRead::Blank => SourceItem::Blank,
                LineRead::Row(row) => item_from_row(row),
            }
        };
        self.awaiting_header = false;
        self.offset = self.offset + len as u64 + 1;
        self.lines = self.lines + 1;
        SourceStep { line_number: self.lines, offset: self.offset, item }
    }

    /// Consumes the next line of the input. The line comes without its
    /// terminator; the offset moves by the line's bytes and one more.
    pub fn feed_line(&mut self, line: &str) -> (step: SourceStep)
        requires
            old(self)@.has_room(encode_utf8(line@).len()),
        ensures
            final(self)@ == old(self)@.after_line(encode_utf8(line@).len()),
            step@ == old(self)@.step_of(encode_utf8(line@).len(), spec_read_line(line@)),
    {
        let read = if self.awaiting_header {
            LineRead::Blank
        } else {
            read_line(line)
        };
        self.accept(line.as_bytes().len(), read)
    }

    /// Takes note of a line that could not be read. Where the header was
    /// expected that ends the run, and nothing changes; anywhere else the
    /// line is numbered and passed over.
    pub fn feed_failure(&mut self, message: String) -> (outcome: Result<ReadFailure, SourceError>)
        requires
            old(self)@.lines < u64::MAX,
        ensures
            old(self)@.awaiting_header ==> final(self)@ == old(self)@ && outcome == Err::<
                ReadFailure,
                SourceError,
            >(SourceError::HeaderUnreadable(message)),
            !old(self)@.awaiting_header ==> final(self)@ == old(self)@.after_failure() && outcome
                == Ok::<ReadFailure, SourceError>(
                ReadFailure { line_number: (old(self)@.lines + 1) as u64, message },
            ),
    {
        if self.awaiting_header {
            Err(SourceError::HeaderUnreadable(message))
        } else {
            self.lines = self.lines + 1;
            Ok(ReadFailure { line_number: self.lines, message })
        }
    }

    /// Takes note of the end of the input: an input that ends where the
    /// header was expected is empty, and that ends the run.
    pub fn end_of_input(&self) -> (outcome: Result<(), SourceError>)
        ensures
            self@.awaiting_header ==> outcome == Err::<(), SourceError>(SourceError::EmptyInput),
            !self@.awaiting_header ==> outcome == Ok::<(), SourceError>(()),
    {
        if self.awaiting_header {
            Err(SourceError::EmptyInput)
        } else {
            Ok(())
        }
    }
}

} // verus!
