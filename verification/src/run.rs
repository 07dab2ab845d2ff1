//! Whole runs: what holds of a pipeline after any sequence of events.
//!
//! Each method of the pipeline is one event. This module strings the events
//! together and proves, of every run that keeps to the methods' conditions,
//! that the number of tasks in flight never passes the concurrency bound,
//! that the byte offset follows the size of the input, and that no record
//! gets lost out of sight: every line that makes a record gives one task,
//! and every task ends with its row taken by the queue or counted as lost.

use crate::line::spec_read_line;
use crate::pipeline::PipelineState;
use crate::record::OutputRecordView;
use crate::sink::{lemma_sink_counts, rows_of, SinkState};
use crate::source::{data_lines, file_bytes, record_lines};
use vstd::prelude::*;
use vstd::utf8::encode_utf8;

verus! {

/// One event of a run.
pub enum Event {
    /// The setup came to its end: it succeeded or it failed.
    SetupFinished(bool),
    /// A line was read from the input: its text, without the terminator.
    Line(Seq<char>),
    /// A line of the input could not be read.
    ReadFailure,
    /// The input came to its end.
    EndOfInput,
    /// A task came to its end: the queue took its row or refused it.
    TaskFinished(bool),
    /// The sink came to its end.
    SinkFinished,
}

impl PipelineState {
    /// Whether `event` may come in this state: the condition of the method
    /// that takes it, the limits of the machine apart.
    pub open spec fn enabled(self, event: Event) -> bool {
        match event {
            Event::SetupFinished(_) => self.phase is Setup,
            Event::Line(_) => self.has_capacity(),
            Event::ReadFailure => self.has_capacity(),
            Event::EndOfInput => self.phase is Streaming,
            Event::TaskFinished(_) => self.in_flight > 0,
            Event::SinkFinished => self.is_drained(),
        }
    }

    /// The state after `event`.
    pub open spec fn after(self, event: Event) -> PipelineState {
        match event {
            Event::SetupFinished(ready) => self.after_setup(ready),
            Event::Line(line) => self.after_line(encode_utf8(line).len(), spec_read_line(line)),
            Event::ReadFailure => self.after_read_failure(),
            Event::EndOfInput => self.after_end_of_input(),
            Event::TaskFinished(enqueued) => self.after_task(enqueued),
            Event::SinkFinished => self.after_sink(),
        }
    }

    /// The state after the events `events`, in this order.
    pub open spec fn after_all(self, events: Seq<Event>) -> PipelineState
        decreases events.len(),
    {
        if events.len() == 0 {
            self
        } else {
            self.after_all(events.drop_last()).after(events.last())
        }
    }

    /// Whether each of `events` may come where it comes.
    pub open spec fn admits(self, events: Seq<Event>) -> bool
        decreases events.len(),
    {
        events.len() == 0 || (self.admits(events.drop_last()) && self.after_all(
            events.drop_last(),
        ).enabled(events.last()))
    }
}

/// The lines that were read in the course of `events`, in their order.
pub open spec fn lines_of(events: Seq<Event>) -> Seq<Seq<char>>
    decreases events.len(),
{
    if events.len() == 0 {
        Seq::empty()
    } else {
        match events.last() {
            Event::Line(line) => lines_of(events.drop_last()).push(line),
            _ => lines_of(events.drop_last()),
        }
    }
}

/// How many tasks ended in the course of `events` with their row taken by
/// the queue (`enqueued`) or refused by it (`!enqueued`).
pub open spec fn tasks_ended(events: Seq<Event>, enqueued: bool) -> nat
    decreases events.len(),
{
    if events.len() == 0 {
        0
    } else if events.last() == Event::TaskFinished(enqueued) {
        tasks_ended(events.drop_last(), enqueued) + 1
    } else {
        tasks_ended(events.drop_last(), enqueued)
    }
}

/// An event that may come keeps a well-formed state well formed.
pub proof fn lemma_event_keeps_well_formed(state: PipelineState, event: Event)
    requires
        state.well_formed(),
        state.enabled(event),
    ensures
        state.after(event).well_formed(),
{
}

/// In every state of every run, no more tasks are in flight than the
/// concurrency bound allows, whatever the bound and whatever the events.
pub proof fn lemma_bounded_concurrency(concurrency: nat, has_header: bool, events: Seq<Event>)
    requires
        concurrency >= 1,
        PipelineState::start(concurrency, has_header).admits(events),
    ensures
        PipelineState::start(concurrency, has_header).after_all(events).well_formed(),
        PipelineState::start(concurrency, has_header).after_all(events).in_flight <= concurrency,
        PipelineState::start(concurrency, has_header).after_all(events).concurrency == concurrency,
    decreases events.len(),
{
    if events.len() > 0 {
        lemma_bounded_concurrency(concurrency, has_header, events.drop_last());
        lemma_event_keeps_well_formed(
            PipelineState::start(concurrency, has_header).after_all(events.drop_last()),
            events.last(),
        );
    }
}

/// In every state of every run, the byte offset is the size of the input
/// read so far, each line with its terminator.
pub proof fn lemma_offset_follows_input(concurrency: nat, has_header: bool, events: Seq<Event>)
    requires
        PipelineState::start(concurrency, has_header).admits(events),
    ensures
        PipelineState::start(concurrency, has_header).after_all(events).source.offset
            == file_bytes(lines_of(events)).len(),
        PipelineState::start(concurrency, has_header).after_all(events).source.awaiting_header
            == (has_header && lines_of(events).len() == 0),
    decreases events.len(),
{
    if events.len() > 0 {
        lemma_offset_follows_input(concurrency, has_header, events.drop_last());
        match events.last() {
            Event::Line(line) => {
                let lines = lines_of(events);
                assert(lines.drop_last() == lines_of(events.drop_last()));
                assert(lines.last() == line);
            },
            _ => {},
        }
    }
}

/// In every state of every run, every record is accounted for. As many
/// records were admitted as lines were read that make a record, the
/// header apart; as many rows were taken by the queue, and as many
/// refused, as tasks ended so; and what was admitted is in flight, taken
/// or refused. So once the run is done, the rows that reached the queue are
/// the record lines less the rows that the queue refused.
pub proof fn lemma_every_record_accounted(
    concurrency: nat,
    has_header: bool,
    events: Seq<Event>,
)
    requires
        concurrency >= 1,
        PipelineState::start(concurrency, has_header).admits(events),
    ensures
        ({
            let end = PipelineState::start(concurrency, has_header).after_all(events);
            let records = record_lines(data_lines(has_header, lines_of(events)));
            &&& end.admitted == records
            &&& end.delivered == tasks_ended(events, true)
            &&& end.lost == tasks_ended(events, false)
            &&& end.in_flight + end.delivered + end.lost == records
            &&& (end.phase is Done ==> end.delivered == records - end.lost)
        }),
    decreases events.len(),
{
    let start = PipelineState::start(concurrency, has_header);
    lemma_bounded_concurrency(concurrency, has_header, events);
    if events.len() > 0 {
        let front = events.drop_last();
        lemma_every_record_accounted(concurrency, has_header, front);
        lemma_offset_follows_input(concurrency, has_header, front);
        match events.last() {
            Event::Line(line) => {
                let lines = lines_of(events);
                assert(lines.drop_last() == lines_of(front));
                assert(lines.last() == line);
                if has_header && lines_of(front).len() == 0 {
                    assert(data_lines(has_header, lines).len() == 0);
                } else {
                    assert(data_lines(has_header, lines).drop_last() == data_lines(
                        has_header,
                        lines_of(front),
                    ));
                    assert(data_lines(has_header, lines).last() == line);
                }
            },
            _ => {},
        }
    }
}

/// Nothing gets lost out of sight between the input and the output. Take a
/// run that is done, and a sink that received the records whose rows the
/// queue took. Then the rows that the sink hands to its writer are as many
/// as the lines that make a record, less the rows that the queue refused,
/// less the records that the sink dropped for want of a row.
pub proof fn lemma_no_silent_loss(
    concurrency: nat,
    has_header: bool,
    events: Seq<Event>,
    received: Seq<OutputRecordView>,
)
    requires
        concurrency >= 1,
        PipelineState::start(concurrency, has_header).admits(events),
        PipelineState::start(concurrency, has_header).after_all(events).phase is Done,
        received.len() == PipelineState::start(concurrency, has_header).after_all(
            events,
        ).delivered,
    ensures
        rows_of(received).len() == record_lines(data_lines(has_header, lines_of(events)))
            - tasks_ended(events, false) - SinkState::start().after_all(received).dropped,
        SinkState::start().after_all(received).total == record_lines(
            data_lines(has_header, lines_of(events)),
        ) - tasks_ended(events, false),
{
    lemma_every_record_accounted(concurrency, has_header, events);
    lemma_sink_counts(received);
}

} // verus!
