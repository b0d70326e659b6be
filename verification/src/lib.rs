//! Elapsed-time annotation of newline-delimited JSON log records.
//!
//! Each input line is one JSON record. The annotator reads a timestamp from a
//! configurable field, keeps the first and the most recent timestamp of the
//! stream, and reports how many milliseconds have passed since either: as
//! fields set on the record itself, as a separate record written just before
//! it, or both.

pub mod error;
pub mod timestamp;
pub mod state;
pub mod record;
pub mod annotate;
pub mod laws;

pub use crate::annotate::{
    annotate_record, annotate_timed, process_line, process_lines, Config, LineOutput, RunOutcome,
};
pub use crate::error::AnnotateError;
pub use crate::state::{DeltaPair, StreamState};
pub use crate::timestamp::Timestamp;
