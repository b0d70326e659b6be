//! What holds of the annotator on every input, stated over the model that the
//! contracts of [`crate::annotate`] use.

use vstd::prelude::*;
use crate::annotate::{emitted, line_step, record_step, run_of, timed_step, Config};
use crate::record::{rendered, string_member};
use crate::state::StreamState;
use crate::timestamp::{timestamp_of, Timestamp};

verus! {

/// A run writes at most one record per input line and, where nothing fails,
/// exactly one, in input order: the k-th output is what the k-th line gives
/// in the state that the lines before it have left.
pub proof fn law_one_record_per_line(state: StreamState, config: Config, lines: Seq<String>)
    ensures
        run_of(state, config, lines).outputs.len() <= lines.len(),
        run_of(state, config, lines).failure is None ==> run_of(state, config, lines).outputs.len()
            == lines.len(),
        run_of(state, config, lines).failure is Some ==> run_of(state, config, lines).outputs.len()
            < lines.len(),
        forall|k: int|
            0 <= k < run_of(state, config, lines).outputs.len() ==> {
                let before = #[trigger] run_of(state, config, lines.take(k));
                &&& before.failure is None
                &&& line_step(before.state, config, lines[k]@) matches Ok(step)
                &&& step.output == run_of(state, config, lines).outputs[k]
            },
    decreases lines.len(),
{
    if lines.len() > 0 {
        let front = lines.drop_last();
        law_one_record_per_line(state, config, front);
        let whole = run_of(state, config, lines);
        let before = run_of(state, config, front);
        assert forall|k: int| 0 <= k < whole.outputs.len() implies {
            let at = #[trigger] run_of(state, config, lines.take(k));
            &&& at.failure is None
            &&& line_step(at.state, config, lines[k]@) matches Ok(step)
            &&& step.output == whole.outputs[k]
        } by {
            if k < before.outputs.len() {
                assert(front.take(k) =~= lines.take(k));
                assert(front[k] == lines[k]);
            } else {
                assert(lines.take(k) =~= front);
            }
        }
    }
}

/// The first timestamped record of a stream is written as it is, with no
/// separate delta record, whatever the flags; its timestamp becomes both the
/// start and the previous time.
pub proof fn law_first_timestamp_unmarked(
    state: StreamState,
    config: Config,
    record: serde_json::Value,
    now: Timestamp,
)
    requires
        state.wf(),
        state.previous_time is None,
    ensures
        state.delta_at(now) is None,
        timed_step(state, config, record, Some(now)) == emitted(state.observed(now), None, record),
        timed_step(state, config, record, Some(now)) matches Ok(step) ==> {
            &&& step.output.synthetic is None
            &&& Some(step.output.record) == rendered(record)
            &&& step.state.previous_time == Some(now)
            &&& state.start_time is None ==> step.state.start_time == Some(now)
        },
{
}

/// Of two timestamped records in a row, the second is owed the exact
/// difference of the two timestamps as its milliseconds since the previous
/// record, negative where the second is the older one.
pub proof fn law_since_previous_exact(state: StreamState, first: Timestamp, second: Timestamp)
    requires
        state.wf(),
        first.wf(),
        second.wf(),
    ensures
        state.observed(first).delta_at(second) matches Some(delta) && delta.since_previous
            == second.millis - first.millis,
{
}

/// The start time is the first timestamp observed and never changes after
/// that, and every later timestamped record is owed the exact difference to it
/// as its milliseconds since the start.
pub proof fn law_since_start_exact(state: StreamState, now: Timestamp)
    requires
        state.wf(),
        state.previous_time is Some,
        now.wf(),
    ensures
        state.observed(now).start_time == state.start_time,
        state.delta_at(now) matches Some(delta) && delta.since_start == now.millis
            - state.start_time.unwrap().millis,
        StreamState::initial().observed(now).start_time == Some(now),
{
}

/// The milliseconds since the start grow exactly as the timestamps do: of two
/// records that may follow in the same stream, the one with the later
/// timestamp has the larger value, and equal timestamps have equal values.
pub proof fn law_since_start_monotonic(state: StreamState, a: Timestamp, b: Timestamp)
    requires
        state.wf(),
        state.previous_time is Some,
        a.wf(),
        b.wf(),
    ensures
        state.delta_at(a) is Some,
        state.observed(a).delta_at(b) is Some,
        a.millis <= b.millis <==> state.delta_at(a).unwrap().since_start <= state.observed(
            a,
        ).delta_at(b).unwrap().since_start,
{
}

/// The state only moves forward: whatever a line holds, a start time that is
/// known stays the same, and a previous time that is known stays known. A line
/// that fails leaves no step at all.
pub proof fn law_state_moves_forward(state: StreamState, config: Config, line: Seq<char>)
    requires
        state.wf(),
    ensures
        line_step(state, config, line) matches Ok(step) ==> {
            &&& state.start_time is Some ==> step.state.start_time == state.start_time
            &&& state.previous_time is Some ==> step.state.previous_time is Some
            &&& step.state.previous_time is Some ==> step.state.start_time is Some
        },
{
}

/// A record without the time field, or with something other than a string in
/// it, is written as it is: no separate delta record, no change of state.
pub proof fn law_untimed_record_passes(
    state: StreamState,
    config: Config,
    record: serde_json::Value,
)
    requires
        string_member(record, config.time_field@) is None,
    ensures
        record_step(state, config, record) == emitted(state, None, record),
        record_step(state, config, record) matches Ok(step) ==> {
            &&& step.state == state
            &&& step.output.synthetic is None
            &&& Some(step.output.record) == rendered(record)
        },
{
}

/// A time field that holds a string is always read: the record either fails
/// as a whole or is handled at the timestamp that the string stands for.
pub proof fn law_timed_record_reads_time(
    state: StreamState,
    config: Config,
    record: serde_json::Value,
    text: Seq<char>,
)
    requires
        string_member(record, config.time_field@) == Some(text),
    ensures
        timestamp_of(text) is None ==> record_step(state, config, record) == Err::<
            crate::annotate::Step,
            crate::error::AnnotateError,
        >(crate::error::AnnotateError::InvalidTimestamp),
        timestamp_of(text) matches Some(now) ==> record_step(state, config, record) == timed_step(
            state,
            config,
            record,
            Some(now),
        ),
{
}

} // verus!
