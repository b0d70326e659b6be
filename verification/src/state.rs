use vstd::prelude::*;
use crate::timestamp::Timestamp;

verus! {

/// The two elapsed-time values computed for a timestamped record that is not
/// the first of its stream. Both are signed: a record that is older than the
/// one before it yields negative values.
#[derive(Clone, Copy, Debug, PartialEq, Eq, Structural)]
pub struct DeltaPair {
    /// Milliseconds since the previous timestamped record.
    pub since_previous: i64,
    /// Milliseconds since the first timestamped record.
    pub since_start: i64,
}

/// What the annotator remembers between lines.
#[derive(Clone, Copy, Debug, PartialEq, Eq, Structural)]
pub struct StreamState {
    /// The first timestamp seen; set once.
    pub start_time: Option<Timestamp>,
    /// The most recent timestamp seen.
    pub previous_time: Option<Timestamp>,
}

impl StreamState {
    /// Both timestamps are in range, and a previous timestamp is only known
    /// once a first one is.
    pub open spec fn wf(self) -> bool {
        &&& self.start_time matches Some(t) ==> t.wf()
        &&& self.previous_time matches Some(t) ==> t.wf()
        &&& self.previous_time is Some ==> self.start_time is Some
    }

    /// The state before any line.
    pub open spec fn initial() -> StreamState {
        StreamState { start_time: None, previous_time: None }
    }

    /// The state after a record with timestamp `now`.
    pub open spec fn observed(self, now: Timestamp) -> StreamState {
        StreamState {
            start_time: if self.start_time is Some { self.start_time } else { Some(now) },
            previous_time: Some(now),
        }
    }

    /// The deltas owed to a record with timestamp `now` that arrives in this
    /// state: none for the first timestamped record.
    pub open spec fn delta_at(self, now: Timestamp) -> Option<DeltaPair> {
        match (self.previous_time, self.start_time) {
            (Some(previous), Some(start)) => Some(
                DeltaPair {
                    since_previous: now.spec_millis_since(previous) as i64,
                    since_start: now.spec_millis_since(start) as i64,
                },
            ),
            _ => None,
        }
    }

    /// The state before any line.
    pub fn new() -> (s: StreamState)
        ensures
            s == StreamState::initial(),
            s.wf(),
    {
        StreamState { start_time: None, previous_time: None }
    }

    /// Whether the state is well formed, for callers that built or changed
    /// one by hand.
    pub fn is_wf(&self) -> (ok: bool)
        ensures
            ok == self.wf(),
    {
        let start_ok = match self.start_time {
            Some(t) => t.is_wf(),
            None => true,
        };
        let previous_ok = match self.previous_time {
            Some(t) => t.is_wf() && self.start_time.is_some(),
            None => true,
        };
        start_ok && previous_ok
    }

    /// Takes note of a record's timestamp and returns the deltas owed to that
    /// record.
    pub fn observe(&mut self, now: Timestamp) -> (delta: Option<DeltaPair>)
        requires
            old(self).wf(),
            now.wf(),
        ensures
            *final(self) == old(self).observed(now),
            final(self).wf(),
            delta == old(self).delta_at(now),
            delta matches Some(d) ==> d.since_previous == now.spec_millis_since(
                old(self).previous_time.unwrap(),
            ) && d.since_start == now.spec_millis_since(old(self).start_time.unwrap()),
    {
        let start: Timestamp = match self.start_time {
            Some(start) => start,
            None => now,
        };
        let delta = match self.previous_time {
            Some(previous) => Some(
                DeltaPair {
                    since_previous: now.millis_since(&previous),
                    since_start: now.millis_since(&start),
                },
            ),
            None => None,
        };
        self.start_time = Some(start);
        self.previous_time = Some(now);
        delta
    }
}

} // verus!
