use vstd::prelude::*;

verus! {

/// Why a run stops. Every failure ends the run; lines handed out before it stay
/// handed out.
#[derive(Clone, Copy, Debug, PartialEq, Eq, Structural)]
pub enum AnnotateError {
    /// The input could not be opened or read.
    IoFailure,
    /// A line is not well-formed JSON.
    InvalidJson,
    /// The time field holds a string that is no date-time with a UTC offset,
    /// or one that lies outside the supported range.
    InvalidTimestamp,
    /// A record could not be written out as text.
    SerializationFailure,
}

impl AnnotateError {
    /// The diagnostic shown to the user when the run stops.
    pub fn message(&self) -> (text: &'static str)
        ensures
            text@ == match *self {
                AnnotateError::IoFailure => "Unable to read line"@,
                AnnotateError::InvalidJson => "Invalid JSON"@,
                AnnotateError::InvalidTimestamp => "Invalid time format"@,
                AnnotateError::SerializationFailure => "Failed to serialize JSON"@,
            },
    {
        match self {
            AnnotateError::IoFailure => "Unable to read line",
            AnnotateError::InvalidJson => "Invalid JSON",
            AnnotateError::InvalidTimestamp => "Invalid time format",
            AnnotateError::SerializationFailure => "Failed to serialize JSON",
        }
    }
}

} // verus!
