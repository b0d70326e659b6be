use vstd::prelude::*;

verus! {

/// The largest distance from the Unix epoch, in milliseconds, that a
/// [`Timestamp`] may have: a little over 285,000 years either way. The
/// difference of two such instants always fits in an `i64`.
pub const MAX_MILLIS: i64 = 9_000_000_000_000_000;

#[verifier::external_type_specification]
#[verifier::external_body]
pub struct ExChronoParseError(chrono::ParseError);

/// What parsing `text` as a `chrono::DateTime<chrono::Utc>` and taking
/// `timestamp_millis` of the outcome gives: the milliseconds since the Unix
/// epoch, or `None` where chrono rejects the text.
pub uninterp spec fn parsed_millis(text: Seq<char>) -> Option<i64>;

/// Calls chrono's `FromStr` for `DateTime<Utc>` (a relaxed RFC 3339 reading:
/// date, time of day, UTC offset) and, on success, `DateTime::timestamp_millis`.
/// The contract only names the outcome as a function of the text.
#[verifier::external_body]
fn parse_millis(text: &str) -> (r: Result<i64, chrono::ParseError>)
    ensures
        match r {
            Ok(millis) => parsed_millis(text@) == Some(millis),
            Err(_) => parsed_millis(text@) is None,
        },
{
    match text.parse::<chrono::DateTime<chrono::Utc>>() {
        Ok(instant) => Ok(instant.timestamp_millis()),
        Err(e) => Err(e),
    }
}

/// A point in time, as whole milliseconds since the Unix epoch.
#[derive(Clone, Copy, Debug, PartialEq, Eq, Structural)]
pub struct Timestamp {
    pub millis: i64,
}

/// Whether `millis` lies in the range that a [`Timestamp`] may hold.
pub open spec fn in_range(millis: i64) -> bool {
    -MAX_MILLIS <= millis <= MAX_MILLIS
}

/// The timestamp that a text stands for, if it stands for one.
pub open spec fn timestamp_of(text: Seq<char>) -> Option<Timestamp> {
    match parsed_millis(text) {
        Some(millis) if in_range(millis) => Some(Timestamp { millis }),
        _ => None,
    }
}

impl Timestamp {
    /// A timestamp is well formed when it lies in the supported range.
    pub open spec fn wf(self) -> bool {
        in_range(self.millis)
    }

    /// The signed distance in milliseconds from `earlier` to `self`.
    pub open spec fn spec_millis_since(self, earlier: Timestamp) -> int {
        self.millis - earlier.millis
    }

    /// The timestamp `millis` milliseconds after the Unix epoch (before it,
    /// where negative); `None` outside the supported range.
    pub fn from_millis(millis: i64) -> (r: Option<Timestamp>)
        ensures
            r == if in_range(millis) { Some(Timestamp { millis }) } else { None },
            r matches Some(t) ==> t.wf(),
    {
        if -MAX_MILLIS <= millis && millis <= MAX_MILLIS {
            Some(Timestamp { millis })
        } else {
            None
        }
    }

    /// Whether the timestamp lies in the supported range, for callers that
    /// built one by hand.
    pub fn is_wf(&self) -> (ok: bool)
        ensures
            ok == self.wf(),
    {
        -MAX_MILLIS <= self.millis && self.millis <= MAX_MILLIS
    }

    /// Milliseconds since the Unix epoch.
    pub fn millis(&self) -> (m: i64)
        ensures
            m == self.millis,
    {
        self.millis
    }

    /// Reads a date-time with a UTC offset, such as `2024-01-01T00:00:01.500Z`.
    /// Fails with `InvalidTimestamp` exactly where the text stands for no
    /// timestamp.
    pub fn parse(text: &str) -> (r: Result<Timestamp, crate::error::AnnotateError>)
        ensures
            r == match timestamp_of(text@) {
                Some(t) => Ok::<Timestamp, crate::error::AnnotateError>(t),
                None => Err(crate::error::AnnotateError::InvalidTimestamp),
            },
            r matches Ok(t) ==> t.wf(),
    {
        match parse_millis(text) {
            Ok(millis) => match Timestamp::from_millis(millis) {
                Some(t) => Ok(t),
                None => Err(crate::error::AnnotateError::InvalidTimestamp),
            },
            Err(_) => Err(crate::error::AnnotateError::InvalidTimestamp),
        }
    }

    /// The signed distance in milliseconds from `earlier` to `self`; negative
    /// where `self` is the earlier of the two.
    pub fn millis_since(&self, earlier: &Timestamp) -> (d: i64)
        requires
            self.wf(),
            earlier.wf(),
        ensures
            d == self.spec_millis_since(*earlier),
    {
        self.millis - earlier.millis
    }
}

} // verus!
