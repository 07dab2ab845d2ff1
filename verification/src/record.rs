//! The records that run through the pipeline.

use crate::identifier::{generate_url_hash, url_identifier};
use vstd::prelude::*;

verus! {

/// One input row: a URL and the text that came with it.
#[derive(Debug, PartialEq, Eq)]
pub struct InputRecord {
    pub url: String,
    pub text: String,
}

/// What an [`InputRecord`] holds.
pub struct InputRecordView {
    pub url: Seq<char>,
    pub text: Seq<char>,
}

impl View for InputRecord {
    type V = InputRecordView;

    open spec fn view(&self) -> InputRecordView {
        InputRecordView { url: self.url@, text: self.text@ }
    }
}

/// One output row: the input row, the URL's identifier, and whether the
/// URL answered.
#[derive(Debug, PartialEq, Eq)]
pub struct OutputRecord {
    pub url: String,
    pub text: String,
    pub id: u64,
    pub download_successful: bool,
}

/// What an [`OutputRecord`] holds.
pub struct OutputRecordView {
    pub url: Seq<char>,
    pub text: Seq<char>,
    pub id: u64,
    pub download_successful: bool,
}

impl View for OutputRecord {
    type V = OutputRecordView;

    open spec fn view(&self) -> OutputRecordView {
        OutputRecordView {
            url: self.url@,
            text: self.text@,
            id: self.id,
            download_successful: self.download_successful,
        }
    }
}

/// The output row for `record` after a fetch that ended with
/// `download_successful`.
pub open spec fn assembled(record: InputRecordView, download_successful: bool) -> OutputRecordView {
    OutputRecordView {
        url: record.url,
        text: record.text,
        id: url_identifier(record.url),
        download_successful,
    }
}

impl OutputRecordView {
    /// The identifier is the one that the URL of this very row gives.
    pub open spec fn well_formed(self) -> bool {
        self.id == url_identifier(self.url)
    }
}

impl OutputRecord {
    /// Builds the output row for `record`: URL and text as they came, the
    /// identifier of the URL, and the outcome of the fetch. A failed fetch
    /// gives a row like any other.
    pub fn assemble(record: InputRecord, download_successful: bool) -> (out: OutputRecord)
        ensures
            out@ == assembled(record@, download_successful),
            out@.well_formed(),
    {
        let id = generate_url_hash(record.url.as_str());
        OutputRecord { url: record.url, text: record.text, id, download_successful }
    }
}

/// Running the URL of an assembled row through the identifier function
/// again gives the identifier that the row records.
pub proof fn lemma_identifier_round_trip(record: InputRecordView, download_successful: bool)
    ensures
        url_identifier(assembled(record, download_successful).url) == assembled(
            record,
            download_successful,
        ).id,
        assembled(record, download_successful).text == record.text,
{
}

} // verus!
