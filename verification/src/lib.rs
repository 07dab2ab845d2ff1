//! Bulk liveness checking of URLs: the decisions of a streaming pipeline with
//! bounded concurrency, stated and proved.
//!
//! The library holds everything the pipeline decides: how a URL gets its
//! identifier, what one input line yields and how far it moves the byte
//! offset, when a fetch counts as a success, what the sink does with a
//! finished record, and how many fetches the orchestrator lets run at once.
//! Reading lines, sending requests and writing rows is left to the caller,
//! who tells the library what happened and does what it answers.

pub mod config;
pub mod fetch;
pub mod identifier;
pub mod level;
pub mod line;
pub mod pipeline;
pub mod record;
pub mod run;
pub mod sink;
pub mod source;
