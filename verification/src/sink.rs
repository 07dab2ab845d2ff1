//! The result sink: the single consumer of finished records. It counts
//! them, turns each into one output row, and gives the summary at the end.
//!
//! The sink does not write. For each record it says what to do, write this
//! row or drop the record, and its caller, the only writer of the output,
//! does so in the order in which the records came.

use crate::record::{OutputRecord, OutputRecordView};
use vstd::prelude::*;

verus! {

/// The first line of the output.
pub const OUTPUT_HEADER: &'static str = "url,text,id,download_successful\n";

/// A progress report is due after every so many records.
pub const PROGRESS_INTERVAL: u64 = 100;

/// The slots of the queue between the fetches and the sink.
pub const QUEUE_CAPACITY: usize = 100;

/// The output row that the csv crate writes for a record, or the message of
/// its error.
pub uninterp spec fn spec_csv_row(
    url: Seq<char>,
    text: Seq<char>,
    id: u64,
    download_successful: bool,
) -> Result<Seq<u8>, Seq<char>>;

/// Trusted: a `csv::Writer` built by `csv::WriterBuilder` without a header
/// row over an empty `Vec<u8>`; `serialize` of the four values in this
/// order, then `into_inner`. What comes back depends on the four values
/// alone: the bytes of one row, terminator included, or the message of the
/// error of either call.
#[verifier::external_body]
fn csv_row(url: &str, text: &str, id: u64, download_successful: bool) -> (row: Result<
    Vec<u8>,
    String,
>)
    ensures
        match row {
            Ok(bytes) => spec_csv_row(url@, text@, id, download_successful) == Ok::<
                Seq<u8>,
                Seq<char>,
            >(bytes@),
            Err(message) => spec_csv_row(url@, text@, id, download_successful) == Err::<
                Seq<u8>,
                Seq<char>,
            >(message@),
        },
{
    let mut writer = csv::WriterBuilder::new().has_headers(false).from_writer(Vec::new());
    match writer.serialize((url, text, id, download_successful)) {
        Ok(()) => match writer.into_inner() {
            Ok(bytes) => Ok(bytes),
            Err(error) => Err(error.to_string()),
        },
        Err(error) => Err(error.to_string()),
    }
}

/// `part` in hundredths of `whole`, rounded down; 0 of nothing.
pub open spec fn percent_of(part: nat, whole: nat) -> nat {
    if whole > 0 {
        part * 100 / whole
    } else {
        0
    }
}

/// `part` in hundredths of `whole`, rounded down; 0 of nothing.
pub fn percent(part: u64, whole: u64) -> (rate: u64)
    requires
        part <= whole,
    ensures
        rate == percent_of(part as nat, whole as nat),
        rate <= 100,
{
    if whole > 0 {
        let scaled: u128 = part as u128 * 100;
        let rate: u128 = scaled / whole as u128;
        assert(rate <= 100) by (nonlinear_arith)
            requires
                rate == scaled / (whole as u128),
                scaled == part * 100,
                part <= whole,
                whole > 0,
        ;
        rate as u64
    } else {
        0
    }
}

/// What the sink counted in one run.
#[derive(Debug, Clone, Copy, PartialEq, Eq)]
pub struct RunSummary {
    total: u64,
    successful: u64,
}

/// The final report of one run.
#[derive(Debug, Clone, Copy, PartialEq, Eq)]
pub struct FinalReport {
    pub total_urls: u64,
    pub successful: u64,
    pub failed: u64,
    pub success_rate: u64,
    pub failure_rate: u64,
}

/// The final report of a run in which `total` records reached the sink,
/// `successful` of them with a successful fetch: the two counts, the
/// failures, and the two rates in hundredths.
pub open spec fn report_of(total: nat, successful: nat) -> FinalReport {
    FinalReport {
        total_urls: total as u64,
        successful: successful as u64,
        failed: (total - successful) as u64,
        success_rate: percent_of(successful, total) as u64,
        failure_rate: percent_of((total - successful) as nat, total) as u64,
    }
}

impl RunSummary {
    #[verifier::type_invariant]
    spec fn consistent(self) -> bool {
        self.successful <= self.total
    }

    /// The records that reached the sink.
    pub closed spec fn spec_total(self) -> nat {
        self.total as nat
    }

    /// Those of them whose fetch succeeded.
    pub closed spec fn spec_successful(self) -> nat {
        self.successful as nat
    }

    /// The records that reached the sink.
    pub fn total(&self) -> (total: u64)
        ensures
            total == self.spec_total(),
            self.spec_successful() <= self.spec_total(),
    {
        proof {
            use_type_invariant(self);
        }
        self.total
    }

    /// Those of them whose fetch succeeded.
    pub fn successful(&self) -> (successful: u64)
        ensures
            successful == self.spec_successful(),
            self.spec_successful() <= self.spec_total(),
    {
        proof {
            use_type_invariant(self);
        }
        self.successful
    }

    /// The final report: the counts, and the two rates in hundredths.
    pub fn report(&self) -> (report: FinalReport)
        ensures
            report == report_of(self.spec_total(), self.spec_successful()),
            self.spec_successful() <= self.spec_total(),
    {
        proof {
            use_type_invariant(self);
        }
        let failed = self.total - self.successful;
        FinalReport {
            total_urls: self.total,
            successful: self.successful,
            failed,
            success_rate: percent(self.successful, self.total),
            failure_rate: percent(failed, self.total),
        }
    }
}

/// A progress report of the sink.
#[derive(Debug, Clone, Copy, PartialEq, Eq)]
pub struct ProgressReport {
    pub processed: u64,
    pub successful: u64,
    pub success_rate: u64,
}

/// What the sink's caller is to do with a record.
#[derive(Debug, PartialEq, Eq)]
pub enum SinkAction {
    /// Append these bytes, one row, to the output.
    Write(Vec<u8>),
    /// Write nothing: the record could not be turned into a row, for the
    /// reason that the message gives.
    Drop(String),
}

/// What a [`SinkAction`] holds.
pub enum SinkActionView {
    Write(Seq<u8>),
    Drop(Seq<char>),
}

impl View for SinkAction {
    type V = SinkActionView;

    open spec fn view(&self) -> SinkActionView {
        match self {
            SinkAction::Write(row) => SinkActionView::Write(row@),
            SinkAction::Drop(message) => SinkActionView::Drop(message@),
        }
    }
}

/// The action that an encoding of a record calls for.
pub open spec fn action_of(encoded: Result<Seq<u8>, Seq<char>>) -> SinkActionView {
    match encoded {
        Ok(row) => SinkActionView::Write(row),
        Err(message) => SinkActionView::Drop(message),
    }
}

/// The output row of a record, or why there is none.
pub open spec fn row_of(record: OutputRecordView) -> Result<Seq<u8>, Seq<char>> {
    spec_csv_row(record.url, record.text, record.id, record.download_successful)
}

/// The state of a sink.
pub struct SinkState {
    /// The records received.
    pub total: nat,
    /// Those of them whose fetch succeeded.
    pub successful: nat,
    /// Those of them that gave no row.
    pub dropped: nat,
}

impl SinkState {
    /// The state of a sink that has received nothing.
    pub open spec fn start() -> SinkState {
        SinkState { total: 0, successful: 0, dropped: 0 }
    }

    /// The counts stand in the order that they must: no more successes
    /// than records, no more drops than records.
    pub open spec fn consistent(self) -> bool {
        self.successful <= self.total && self.dropped <= self.total
    }

    /// The state after one more record, whose fetch ended with
    /// `download_successful` and which gave a row or did not.
    pub open spec fn after(self, download_successful: bool, has_row: bool) -> SinkState {
        SinkState {
            total: self.total + 1,
            successful: if download_successful {
                self.successful + 1
            } else {
                self.successful
            },
            dropped: if has_row {
                self.dropped
            } else {
                self.dropped + 1
            },
        }
    }

    /// The progress report that is due once the row of the last record has
    /// been written or not: one after every [`PROGRESS_INTERVAL`] records,
    /// and none for a row that could not be written.
    pub open spec fn progress_due(self, written: bool) -> Option<ProgressReport> {
        if written && self.total > 0 && self.total % (PROGRESS_INTERVAL as nat) == 0 {
            Some(
                ProgressReport {
                    processed: self.total as u64,
                    successful: self.successful as u64,
                    success_rate: percent_of(self.successful, self.total) as u64,
                },
            )
        } else {
            None
        }
    }

    /// The state after the record `record`.
    pub open spec fn after_record(self, record: OutputRecordView) -> SinkState {
        self.after(record.download_successful, row_of(record) is Ok)
    }

    /// The state after the records `records`, received in this order.
    pub open spec fn after_all(self, records: Seq<OutputRecordView>) -> SinkState
        decreases records.len(),
    {
        if records.len() == 0 {
            self
        } else {
            self.after_all(records.drop_last()).after_record(records.last())
        }
    }
}

/// The rows that the sink hands to its writer for the records `records`:
/// one for each record that has a row, in the order of the records.
pub open spec fn rows_of(records: Seq<OutputRecordView>) -> Seq<Seq<u8>>
    decreases records.len(),
{
    if records.len() == 0 {
        Seq::empty()
    } else {
        match row_of(records.last()) {
            Ok(row) => rows_of(records.drop_last()).push(row),
            Err(_) => rows_of(records.drop_last()),
        }
    }
}

/// How many of `records` have a successful fetch.
pub open spec fn successes(records: Seq<OutputRecordView>) -> nat
    decreases records.len(),
{
    if records.len() == 0 {
        0
    } else if records.last().download_successful {
        successes(records.drop_last()) + 1
    } else {
        successes(records.drop_last())
    }
}

/// The rows keep the order in which the records came: the rows of two
/// batches of records, one after the other, are the rows of the first and
/// then the rows of the second.
pub proof fn lemma_rows_in_arrival_order(first: Seq<OutputRecordView>, second: Seq<OutputRecordView>)
    ensures
        rows_of(first + second) == rows_of(first) + rows_of(second),
    decreases second.len(),
{
    if second.len() == 0 {
        assert(first + second == first);
    } else {
        lemma_rows_in_arrival_order(first, second.drop_last());
        assert((first + second).drop_last() == first + second.drop_last());
        assert((first + second).last() == second.last());
    }
}

/// The sink counts every record that it receives, and every success among
/// them; and each record gives one row or is counted as dropped, so the
/// rows and the drops together are the records.
pub proof fn lemma_sink_counts(records: Seq<OutputRecordView>)
    ensures
        SinkState::start().after_all(records).total == records.len(),
        SinkState::start().after_all(records).successful == successes(records),
        SinkState::start().after_all(records).consistent(),
        rows_of(records).len() + SinkState::start().after_all(records).dropped == records.len(),
    decreases records.len(),
{
    if records.len() > 0 {
        lemma_sink_counts(records.drop_last());
    }
}

/// The result sink.
#[derive(Debug)]
pub struct ResultSink {
    total: u64,
    successful: u64,
    dropped: u64,
}

impl View for ResultSink {
    type V = SinkState;

    closed spec fn view(&self) -> SinkState {
        SinkState {
            total: self.total as nat,
            successful: self.successful as nat,
            dropped: self.dropped as nat,
        }
    }
}

/// Turns a record into its output row.
pub fn encode_row(record: &OutputRecord) -> (encoded: Result<Vec<u8>, String>)
    ensures
        match encoded {
            Ok(bytes) => row_of(record@) == Ok::<Seq<u8>, Seq<char>>(bytes@),
            Err(message) => row_of(record@) == Err::<Seq<u8>, Seq<char>>(message@),
        },
{
    csv_row(record.url.as_str(), record.text.as_str(), record.id, record.download_successful)
}

impl ResultSink {
    #[verifier::type_invariant]
    spec fn consistent(self) -> bool {
        self@.consistent()
    }

    /// A sink that has received nothing.
    pub fn new() -> (sink: ResultSink)
        ensures
            sink@ == SinkState::start(),
    {
        ResultSink { total: 0, successful: 0, dropped: 0 }
    }

    /// The records received so far.
    pub fn total(&self) -> (total: u64)
        ensures
            total == self@.total,
            self@.consistent(),
    {
        proof {
            use_type_invariant(self);
        }
        self.total
    }

    /// Those of them whose fetch succeeded.
    pub fn successful(&self) -> (successful: u64)
        ensures
            successful == self@.successful,
            self@.consistent(),
    {
        proof {
            use_type_invariant(self);
        }
        self.successful
    }

    /// Those of them that gave no row.
    pub fn dropped(&self) -> (dropped: u64)
        ensures
            dropped == self@.dropped,
            self@.consistent(),
    {
        proof {
            use_type_invariant(self);
        }
        self.dropped
    }

    /// Counts a record whose encoding is at hand, and says what to do with
    /// it. The record counts whether it gave a row or not.
    pub fn receive_encoded(
        &mut self,
        download_successful: bool,
        encoded: Result<Vec<u8>, String>,
    ) -> (action: SinkAction)
        requires
            old(self)@.total < u64::MAX,
        ensures
            final(self)@ == old(self)@.after(download_successful, encoded is Ok),
            final(self)@.consistent(),
            match encoded {
                Ok(row) => action == SinkAction::Write(row),
                Err(message) => action == SinkAction::Drop(message),
            },
    {
        proof {
            use_type_invariant(&*self);
        }
        self.total = self.total + 1;
        if download_successful {
            self.successful = self.successful + 1;
        }
        match encoded {
            Ok(row) => SinkAction::Write(row),
            Err(message) => {
                self.dropped = self.dropped + 1;
                SinkAction::Drop(message)
            },
        }
    }

    /// Counts a record and says what to do with it: write its row, or drop
    /// it where it has none.
    pub fn receive(&mut self, record: &OutputRecord) -> (action: SinkAction)
        requires
            old(self)@.total < u64::MAX,
        ensures
            final(self)@ == old(self)@.after(record@.download_successful, row_of(record@) is Ok),
            final(self)@.consistent(),
            action@ == action_of(row_of(record@)),
    {
        let encoded = encode_row(record);
        self.receive_encoded(record.download_successful, encoded)
    }

    /// The progress report that is due, if any, once the caller has written
    /// the row of the last record (`written`) or failed to.
    pub fn progress_after_write(&self, written: bool) -> (report: Option<ProgressReport>)
        ensures
            report == self@.progress_due(written),
    {
        proof {
            use_type_invariant(self);
        }
        if written && self.total > 0 && self.total % PROGRESS_INTERVAL == 0 {
            Some(
                ProgressReport {
                    processed: self.total,
                    successful: self.successful,
                    success_rate: percent(self.successful, self.total),
                },
            )
        } else {
            None
        }
    }

    /// The summary of the run, for when the queue is closed and drained.
    pub fn finish(&self) -> (summary: RunSummary)
        ensures
            summary.spec_total() == self@.total,
            summary.spec_successful() == self@.successful,
    {
        proof {
            use_type_invariant(self);
        }
        RunSummary { total: self.total, successful: self.successful }
    }
}

} // verus!
