//! The orchestrator: which phase the run is in, how many tasks are in
//! flight, and what became of every record that the source yielded.
//!
//! A task is one record on its way: its fetch, then the handing of its
//! output row to the queue before the sink. The pipeline admits a record
//! only while fewer tasks are in flight than the concurrency bound allows,
//! and a task keeps its slot until the queue has taken its row or refused
//! it. The caller does the work (reads the lines, sends the requests, feeds
//! the queue) and tells the pipeline of each event.

use crate::config::Config;
use crate::line::{read_line, spec_read_line, LineRead, LineReadView};
use crate::sink::{report_of, FinalReport, RunSummary};
use crate::source::{
    ReadFailure, RecordSource, SourceError, SourceItem, SourceState, SourceStep,
};
use vstd::prelude::*;
use vstd::utf8::encode_utf8;

verus! {

/// The phases of a run, in their order.
#[derive(Debug, Clone, Copy, PartialEq, Eq)]
pub enum Phase {
    /// The input is looked for, the output opened, the queue and the client
    /// made, the sink started.
    Setup,
    /// Lines are read and records admitted.
    Streaming,
    /// The input is exhausted; the tasks still in flight come to their end.
    Draining,
    /// The run is over.
    Done,
}

/// What kept the setup from coming to its end.
#[derive(Debug, Clone, Copy, PartialEq, Eq)]
pub enum SetupFailure {
    /// There is no input at the given path.
    InputMissing,
    /// The input is there and cannot be opened or sized.
    InputUnreadable,
    /// The output cannot be created.
    OutputUncreatable,
    /// The output was created and its header cannot be written.
    OutputUnwritable,
    /// The client for the requests cannot be made.
    ClientUnavailable,
}

/// What ends a run before its summary.
#[derive(Debug, PartialEq, Eq)]
pub enum FatalError {
    /// The setup failed.
    Setup(SetupFailure),
    /// The source yields nothing at all.
    Source(SourceError),
    /// The sink came to no summary.
    SinkFailed,
}

/// The state of a pipeline.
pub struct PipelineState {
    pub phase: Phase,
    /// How many tasks may be in flight at once.
    pub concurrency: nat,
    /// The tasks in flight.
    pub in_flight: nat,
    /// The records admitted so far: one task each.
    pub admitted: nat,
    /// The tasks whose row the queue took.
    pub delivered: nat,
    /// The tasks whose row the queue refused.
    pub lost: nat,
    pub source: SourceState,
}

impl PipelineState {
    /// The state of a pipeline before its setup.
    pub open spec fn start(concurrency: nat, has_header: bool) -> PipelineState {
        PipelineState {
            phase: Phase::Setup,
            concurrency,
            in_flight: 0,
            admitted: 0,
            delivered: 0,
            lost: 0,
            source: SourceState::start(has_header),
        }
    }

    /// What holds of a pipeline in every state: no more tasks are in flight
    /// than the bound allows, and every admitted record is in flight,
    /// delivered or lost.
    pub open spec fn well_formed(self) -> bool {
        &&& self.concurrency >= 1
        &&& self.in_flight <= self.concurrency
        &&& self.admitted == self.in_flight + self.delivered + self.lost
        &&& self.admitted <= self.source.lines
        &&& (self.source.awaiting_header ==> self.source.lines == 0)
        &&& (self.phase is Setup ==> self.source.lines == 0)
        &&& (self.phase is Done ==> self.in_flight == 0)
    }

    /// Whether a line may be taken from the input: the run is streaming and
    /// a slot is free.
    pub open spec fn has_capacity(self) -> bool {
        self.phase is Streaming && self.in_flight < self.concurrency
    }

    /// Whether the queue may be closed: the input is exhausted and no task
    /// is left in flight.
    pub open spec fn is_drained(self) -> bool {
        self.phase is Draining && self.in_flight == 0
    }

    /// The state after the setup: streaming where it succeeded, done where
    /// it failed.
    pub open spec fn after_setup(self, ready: bool) -> PipelineState {
        PipelineState {
            phase: if ready {
                Phase::Streaming
            } else {
                Phase::Done
            },
            ..self
        }
    }

    /// The state after a line of `len` bytes that was read as `read`: the
    /// source has consumed it, and where it is a record, one more task is
    /// in flight. Nothing else takes a slot.
    pub open spec fn after_line(self, len: nat, read: LineReadView) -> PipelineState {
        let admits = self.source.item_of(read) is Record;
        PipelineState {
            in_flight: if admits {
                self.in_flight + 1
            } else {
                self.in_flight
            },
            admitted: if admits {
                self.admitted + 1
            } else {
                self.admitted
            },
            source: self.source.after_line(len),
            ..self
        }
    }

    /// The state after a line that could not be read: the end of the run
    /// where the header was expected, one more line passed over elsewhere.
    pub open spec fn after_read_failure(self) -> PipelineState {
        if self.source.awaiting_header {
            PipelineState { phase: Phase::Done, ..self }
        } else {
            PipelineState { source: self.source.after_failure(), ..self }
        }
    }

    /// The state after the end of the input: the end of the run where the
    /// header was expected, draining elsewhere.
    pub open spec fn after_end_of_input(self) -> PipelineState {
        PipelineState {
            phase: if self.source.awaiting_header {
                Phase::Done
            } else {
                Phase::Draining
            },
            ..self
        }
    }

    /// The state after a task has come to its end: its slot is free, and
    /// its row was taken by the queue (`enqueued`) or is lost.
    pub open spec fn after_task(self, enqueued: bool) -> PipelineState {
        PipelineState {
            in_flight: (self.in_flight - 1) as nat,
            delivered: if enqueued {
                self.delivered + 1
            } else {
                self.delivered
            },
            lost: if enqueued {
                self.lost
            } else {
                self.lost + 1
            },
            ..self
        }
    }

    /// The state after the sink has come to its end.
    pub open spec fn after_sink(self) -> PipelineState {
        PipelineState { phase: Phase::Done, ..self }
    }
}

/// The orchestrator of one run. It keeps three counts, of the records
/// admitted and of the tasks that ended one way or the other; what is in
/// flight is the difference.
#[derive(Debug)]
pub struct Pipeline {
    phase: Phase,
    concurrency: usize,
    admitted: u64,
    delivered: u64,
    lost: u64,
    source: RecordSource,
}

impl View for Pipeline {
    type V = PipelineState;

    closed spec fn view(&self) -> PipelineState {
        PipelineState {
            phase: self.phase,
            concurrency: self.concurrency as nat,
            in_flight: (self.admitted - self.delivered - self.lost) as nat,
            admitted: self.admitted as nat,
            delivered: self.delivered as nat,
            lost: self.lost as nat,
            source: self.source@,
        }
    }
}

impl Pipeline {
    #[verifier::type_invariant]
    spec fn well_formed(self) -> bool {
        self.delivered + self.lost <= self.admitted && self@.well_formed()
    }

    /// A pipeline before its setup, with the concurrency bound and the
    /// header flag of `config`.
    pub fn new(config: &Config) -> (pipeline: Pipeline)
        ensures
            pipeline@ == PipelineState::start(config@.concurrency, config@.has_header),
            pipeline@.well_formed(),
    {
        Pipeline {
            phase: Phase::Setup,
            concurrency: config.concurrency(),
            admitted: 0,
            delivered: 0,
            lost: 0,
            source: RecordSource::new(config.has_header()),
        }
    }

    /// The phase of the run.
    pub fn phase(&self) -> (phase: Phase)
        ensures
            phase == self@.phase,
    {
        self.phase
    }

    /// How many tasks may be in flight at once.
    pub fn concurrency(&self) -> (concurrency: usize)
        ensures
            concurrency == self@.concurrency,
            self@.well_formed(),
    {
        proof {
            use_type_invariant(self);
        }
        self.concurrency
    }

    /// The tasks in flight: never more than the concurrency bound.
    pub fn in_flight(&self) -> (in_flight: usize)
        ensures
            in_flight == self@.in_flight,
            in_flight <= self@.concurrency,
            self@.well_formed(),
    {
        proof {
            use_type_invariant(self);
        }
        (self.admitted - self.delivered - self.lost) as usize
    }

    /// The records admitted so far.
    pub fn admitted(&self) -> (admitted: u64)
        ensures
            admitted == self@.admitted,
            self@.well_formed(),
    {
        proof {
            use_type_invariant(self);
        }
        self.admitted
    }

    /// The tasks whose row the queue took.
    pub fn delivered(&self) -> (delivered: u64)
        ensures
            delivered == self@.delivered,
            self@.well_formed(),
    {
        proof {
            use_type_invariant(self);
        }
        self.delivered
    }

    /// The tasks whose row the queue refused.
    pub fn lost(&self) -> (lost: u64)
        ensures
            lost == self@.lost,
            self@.well_formed(),
    {
        proof {
            use_type_invariant(self);
        }
        self.lost
    }

    /// The bytes of the input consumed so far: the position of the
    /// progress indicator.
    pub fn bytes_processed(&self) -> (offset: u64)
        ensures
            offset == self@.source.offset,
    {
        self.source.bytes_processed()
    }

    /// The number of the last line, counted from 1; 0 before the first.
    pub fn line_number(&self) -> (lines: u64)
        ensures
            lines == self@.source.lines,
    {
        self.source.line_number()
    }

    /// Whether a line may be taken from the input.
    pub fn has_capacity(&self) -> (capacity: bool)
        ensures
            capacity == self@.has_capacity(),
    {
        matches!(self.phase, Phase::Streaming) && self.in_flight() < self.concurrency
    }

    /// Whether a line of `len` bytes can still be counted.
    pub fn has_room(&self, len: usize) -> (room: bool)
        ensures
            room == self@.source.has_room(len as nat),
    {
        self.source.has_room(len)
    }

    /// Whether the queue may be closed.
    pub fn is_drained(&self) -> (drained: bool)
        ensures
            drained == self@.is_drained(),
    {
        matches!(self.phase, Phase::Draining) && self.in_flight() == 0
    }

    /// Takes note of the end of the setup. A setup that failed ends the
    /// run before any line is read.
    pub fn setup_finished(&mut self, setup: Result<(), SetupFailure>) -> (outcome: Result<
        (),
        FatalError,
    >)
        requires
            old(self)@.phase is Setup,
        ensures
            final(self)@ == old(self)@.after_setup(setup is Ok),
            final(self)@.well_formed(),
            match setup {
                Ok(_) => outcome == Ok::<(), FatalError>(()),
                Err(failure) => outcome == Err::<(), FatalError>(FatalError::Setup(failure)),
            },
    {
        proof {
            use_type_invariant(&*self);
        }
        match setup {
            Ok(_) => {
                self.phase = Phase::Streaming;
                Ok(())
            },
            Err(failure) => {
                self.phase = Phase::Done;
                Err(FatalError::Setup(failure))
            },
        }
    }

    /// Takes a line of `len` bytes that was read as `read`. Where the line
    /// is a record, the record is admitted: its task takes a slot, and the
    /// caller starts its fetch. Any other line takes no slot.
    pub fn offer_read(&mut self, len: usize, read: LineRead) -> (step: SourceStep)
        requires
            old(self)@.has_capacity(),
            old(self)@.source.has_room(len as nat),
        ensures
            final(self)@ == old(self)@.after_line(len as nat, read@),
            final(self)@.well_formed(),
            step@ == old(self)@.source.step_of(len as nat, read@),
    {
        proof {
            use_type_invariant(&*self);
        }
        let mut source = self.source.duplicate();
        let step = source.accept(len, read);
        self.source = source;
        if matches!(step.item, SourceItem::Record(_)) {
            self.admitted = self.admitted + 1;
        }
        step
    }

    /// Takes the next line of the input, without its terminator.
    pub fn offer_line(&mut self, line: &str) -> (step: SourceStep)
        requires
            old(self)@.has_capacity(),
            old(self)@.source.has_room(encode_utf8(line@).len()),
        ensures
            final(self)@ == old(self)@.after_line(
                encode_utf8(line@).len(),
                spec_read_line(line@),
            ),
            final(self)@.well_formed(),
            step@ == old(self)@.source.step_of(encode_utf8(line@).len(), spec_read_line(line@)),
    {
        let read = if self.source.awaiting_header() {
            LineRead::Blank
        } else {
            read_line(line)
        };
        self.offer_read(line.as_bytes().len(), read)
    }

    /// Takes note of a line that could not be read. Where the header was
    /// expected that ends the run; anywhere else the line is numbered and
    /// passed over, and takes no slot.
    pub fn offer_failure(&mut self, message: String) -> (outcome: Result<ReadFailure, FatalError>)
        requires
            old(self)@.has_capacity(),
            old(self)@.source.lines < u64::MAX,
        ensures
            final(self)@ == old(self)@.after_read_failure(),
            final(self)@.well_formed(),
            old(self)@.source.awaiting_header ==> outcome == Err::<ReadFailure, FatalError>(
                FatalError::Source(SourceError::HeaderUnreadable(message)),
            ),
            !old(self)@.source.awaiting_header ==> outcome == Ok::<ReadFailure, FatalError>(
                ReadFailure { line_number: (old(self)@.source.lines + 1) as u64, message },
            ),
    {
        proof {
            use_type_invariant(&*self);
        }
        let mut source = self.source.duplicate();
        match source.feed_failure(message) {
            Ok(failure) => {
                self.source = source;
                Ok(failure)
            },
            Err(error) => {
                self.phase = Phase::Done;
                Err(FatalError::Source(error))
            },
        }
    }

    /// Takes note of the end of the input. An input that ends where the
    /// header was expected ends the run; any other leaves the tasks in
    /// flight to drain.
    pub fn input_exhausted(&mut self) -> (outcome: Result<(), FatalError>)
        requires
            old(self)@.phase is Streaming,
        ensures
            final(self)@ == old(self)@.after_end_of_input(),
            final(self)@.well_formed(),
            old(self)@.source.awaiting_header ==> outcome == Err::<(), FatalError>(
                FatalError::Source(SourceError::EmptyInput),
            ),
            !old(self)@.source.awaiting_header ==> outcome == Ok::<(), FatalError>(()),
    {
        proof {
            use_type_invariant(&*self);
        }
        match self.source.end_of_input() {
            Ok(_) => {
                self.phase = Phase::Draining;
                Ok(())
            },
            Err(error) => {
                self.phase = Phase::Done;
                Err(FatalError::Source(error))
            },
        }
    }

    /// Takes note of the end of a task: the queue took its row
    /// (`enqueued`), or refused it and the row is lost. Either way the slot
    /// of the task is free again.
    pub fn task_finished(&mut self, enqueued: bool)
        requires
            old(self)@.in_flight > 0,
        ensures
            final(self)@ == old(self)@.after_task(enqueued),
            final(self)@.well_formed(),
    {
        proof {
            use_type_invariant(&*self);
        }
        if enqueued {
            self.delivered = self.delivered + 1;
        } else {
            self.lost = self.lost + 1;
        }
    }

    /// Ends the run once the sink has come to its end: with the report of
    /// its summary, or without one where the sink failed.
    pub fn finish(&mut self, summary: Option<RunSummary>) -> (outcome: Result<
        FinalReport,
        FatalError,
    >)
        requires
            old(self)@.is_drained(),
        ensures
            final(self)@ == old(self)@.after_sink(),
            final(self)@.well_formed(),
            summary is None ==> outcome == Err::<FinalReport, FatalError>(FatalError::SinkFailed),
            summary is Some ==> outcome == Ok::<FinalReport, FatalError>(
                report_of(summary->Some_0.spec_total(), summary->Some_0.spec_successful()),
            ),
    {
        proof {
            use_type_invariant(&*self);
        }
        self.phase = Phase::Done;
        match summary {
            Some(summary) => Ok(summary.report()),
            None => Err(FatalError::SinkFailed),
        }
    }
}

} // verus!
