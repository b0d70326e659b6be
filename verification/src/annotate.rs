use vstd::prelude::*;
use crate::error::AnnotateError;
use crate::record::{
    empty_object, member, new_object, parse_record, parsed, render, rendered, set_integer_member,
    string_member, string_value, with_integer,
};
use crate::state::{DeltaPair, StreamState};
use crate::timestamp::{timestamp_of, Timestamp};

verus! {

/// The name of the member that holds the milliseconds since the previous
/// timestamped record.
pub open spec fn since_previous_name() -> Seq<char> {
    "millis_since_previous_line"@
}

/// The name of the member that holds the milliseconds since the first
/// timestamped record.
pub open spec fn since_start_name() -> Seq<char> {
    "millis_since_start"@
}

/// What to read and what to write. The four flags are independent.
pub struct Config {
    /// The member that holds a record's timestamp.
    pub time_field: String,
    /// Write a separate record with the milliseconds since the previous one.
    pub insert_since_previous: bool,
    /// Write a separate record with the milliseconds since the first one.
    pub insert_since_start: bool,
    /// Set the milliseconds since the previous record on the record itself.
    pub inject_since_previous: bool,
    /// Set the milliseconds since the first record on the record itself.
    pub inject_since_start: bool,
}

/// The text written for one input line.
pub struct LineOutput {
    /// The separate delta record, written before the record itself.
    pub synthetic: Option<String>,
    /// The record itself, with the injected members if any.
    pub record: String,
}

/// A [`LineOutput`] as plain text.
pub struct LineText {
    pub synthetic: Option<Seq<char>>,
    pub record: Seq<char>,
}

impl View for LineOutput {
    type V = LineText;

    open spec fn view(&self) -> LineText {
        LineText {
            synthetic: match self.synthetic {
                Some(text) => Some(text@),
                None => None,
            },
            record: self.record@,
        }
    }
}

/// What a run over several lines has produced: the output of every line
/// before the first failure, and that failure.
pub struct RunOutcome {
    pub outputs: Vec<LineOutput>,
    pub failure: Option<AnnotateError>,
}

/// The state and the output after one line.
pub struct Step {
    pub state: StreamState,
    pub output: LineText,
}

/// A run over several lines, as plain values.
pub struct Run {
    pub state: StreamState,
    pub outputs: Seq<LineText>,
    pub failure: Option<AnnotateError>,
}

/// The lines that an output stands for, in the order in which they are
/// written: the separate delta record, if any, comes first.
pub open spec fn lines_of(output: LineText) -> Seq<Seq<char>> {
    match output.synthetic {
        Some(text) => seq![text, output.record],
        None => seq![output.record],
    }
}

impl LineOutput {
    /// The lines to write, in order: the separate delta record, if there is
    /// one, and then the record itself.
    pub fn into_lines(self) -> (lines: Vec<String>)
        ensures
            lines@.len() == lines_of(self@).len(),
            forall|k: int| 0 <= k < lines@.len() ==> lines@[k]@ == lines_of(self@)[k],
    {
        let mut lines: Vec<String> = Vec::new();
        if let Some(text) = self.synthetic {
            lines.push(text);
        }
        lines.push(self.record);
        lines
    }
}

impl Default for Config {
    /// Reads timestamps from the member `time`, with no output mode switched
    /// on.
    fn default() -> (config: Config)
        ensures
            config.time_field@ == "time"@,
            !config.insert_since_previous,
            !config.insert_since_start,
            !config.inject_since_previous,
            !config.inject_since_start,
    {
        Config::new("time".to_owned())
    }
}

impl Config {
    /// Whether a separate delta record is written.
    pub open spec fn inserts(self) -> bool {
        self.insert_since_previous || self.insert_since_start
    }

    /// Reads timestamps from `time_field`, with no output mode switched on.
    pub fn new(time_field: String) -> (config: Config)
        ensures
            config.time_field@ == time_field@,
            !config.insert_since_previous,
            !config.insert_since_start,
            !config.inject_since_previous,
            !config.inject_since_start,
    {
        Config {
            time_field,
            insert_since_previous: false,
            insert_since_start: false,
            inject_since_previous: false,
            inject_since_start: false,
        }
    }
}

/// `record` with the members that the inject flags ask for.
pub open spec fn injected(record: serde_json::Value, config: Config, delta: DeltaPair)
    -> serde_json::Value {
    let first = if config.inject_since_previous {
        with_integer(record, since_previous_name(), delta.since_previous)
    } else {
        record
    };
    if config.inject_since_start {
        with_integer(first, since_start_name(), delta.since_start)
    } else {
        first
    }
}

/// `base` with the members that the insert flags ask for.
pub open spec fn inserted(base: serde_json::Value, config: Config, delta: DeltaPair)
    -> serde_json::Value {
    let first = if config.insert_since_previous {
        with_integer(base, since_previous_name(), delta.since_previous)
    } else {
        base
    };
    if config.insert_since_start {
        with_integer(first, since_start_name(), delta.since_start)
    } else {
        first
    }
}

/// Writing out the record, after `synthetic` if there is one.
pub open spec fn emitted(
    state: StreamState,
    synthetic: Option<Seq<char>>,
    record: serde_json::Value,
) -> Result<Step, AnnotateError> {
    match rendered(record) {
        Some(text) => Ok(Step { state, output: LineText { synthetic, record: text } }),
        None => Err(AnnotateError::SerializationFailure),
    }
}

/// One line whose record and timestamp are known. Without a timestamp, and
/// for the first timestamp of the stream, the record is written as it is.
/// After that the deltas are injected, inserted, or both.
pub open spec fn timed_step(
    state: StreamState,
    config: Config,
    record: serde_json::Value,
    time: Option<Timestamp>,
) -> Result<Step, AnnotateError> {
    match time {
        None => emitted(state, None, record),
        Some(now) => match state.delta_at(now) {
            None => emitted(state.observed(now), None, record),
            Some(delta) => {
                let marked = injected(record, config, delta);
                if config.inserts() {
                    match rendered(inserted(empty_object().unwrap(), config, delta)) {
                        Some(text) => emitted(state.observed(now), Some(text), marked),
                        None => Err(AnnotateError::SerializationFailure),
                    }
                } else {
                    emitted(state.observed(now), None, marked)
                }
            },
        },
    }
}

/// One line whose record is known: the time field is looked up and read.
pub open spec fn record_step(state: StreamState, config: Config, record: serde_json::Value)
    -> Result<Step, AnnotateError> {
    match string_member(record, config.time_field@) {
        None => timed_step(state, config, record, None),
        Some(text) => match timestamp_of(text) {
            None => Err(AnnotateError::InvalidTimestamp),
            Some(now) => timed_step(state, config, record, Some(now)),
        },
    }
}

/// One line of input.
pub open spec fn line_step(state: StreamState, config: Config, line: Seq<char>) -> Result<
    Step,
    AnnotateError,
> {
    match parsed(line) {
        None => Err(AnnotateError::InvalidJson),
        Some(record) => record_step(state, config, record),
    }
}

/// All of `lines` in order, up to the first failure.
pub open spec fn run_of(state: StreamState, config: Config, lines: Seq<String>) -> Run
    decreases lines.len(),
{
    if lines.len() == 0 {
        Run { state, outputs: Seq::empty(), failure: None }
    } else {
        let before = run_of(state, config, lines.drop_last());
        if before.failure is Some {
            before
        } else {
            match line_step(before.state, config, lines.last()@) {
                Ok(step) => Run {
                    state: step.state,
                    outputs: before.outputs.push(step.output),
                    failure: None,
                },
                Err(e) => Run { state: before.state, outputs: before.outputs, failure: Some(e) },
            }
        }
    }
}

/// Whether an exec result and the state it left agree with what a step of the
/// model says.
pub open spec fn agrees(
    result: Result<LineOutput, AnnotateError>,
    before: StreamState,
    after: StreamState,
    expected: Result<Step, AnnotateError>,
) -> bool {
    match expected {
        Ok(step) => result matches Ok(output) && output@ == step.output && after == step.state,
        Err(e) => result == Err::<LineOutput, AnnotateError>(e) && after == before,
    }
}

/// Writes out `record`, after the text `synthetic` if there is one.
fn emit(synthetic: Option<String>, record: &serde_json::Value) -> (r: Result<
    LineOutput,
    AnnotateError,
>)
    ensures
        match rendered(*record) {
            Some(text) => r matches Ok(output) && output.record@ == text && output.synthetic
                == synthetic,
            None => r == Err::<LineOutput, AnnotateError>(AnnotateError::SerializationFailure),
        },
{
    match render(record) {
        Ok(text) => Ok(LineOutput { synthetic, record: text }),
        Err(_) => Err(AnnotateError::SerializationFailure),
    }
}

/// Annotates a record whose timestamp the caller has read: `time` is `None`
/// where the record has no usable time field. On success the state has taken
/// note of the timestamp; on failure it is left as it was.
pub fn annotate_timed(
    state: &mut StreamState,
    config: &Config,
    record: serde_json::Value,
    time: Option<Timestamp>,
) -> (result: Result<LineOutput, AnnotateError>)
    requires
        old(state).wf(),
        time matches Some(now) ==> now.wf() && crate::record::takes_members(record),
    ensures
        agrees(result, *old(state), *final(state), timed_step(*old(state), *config, record, time)),
        final(state).wf(),
{
    let now = match time {
        Some(now) => now,
        None => {
            return emit(None, &record);
        },
    };
    let mut next = *state;
    let mut record = record;
    let mut synthetic: Option<String> = None;
    if let Some(delta) = next.observe(now) {
        if config.inject_since_previous {
            set_integer_member(&mut record, "millis_since_previous_line", delta.since_previous);
        }
        if config.inject_since_start {
            set_integer_member(&mut record, "millis_since_start", delta.since_start);
        }
        if config.insert_since_previous || config.insert_since_start {
            let mut extra = new_object();
            if config.insert_since_previous {
                set_integer_member(&mut extra, "millis_since_previous_line", delta.since_previous);
            }
            if config.insert_since_start {
                set_integer_member(&mut extra, "millis_since_start", delta.since_start);
            }
            match render(&extra) {
                Ok(text) => {
                    synthetic = Some(text);
                },
                Err(_) => {
                    return Err(AnnotateError::SerializationFailure);
                },
            }
        }
    }
    let result = emit(synthetic, &record);
    if result.is_ok() {
        *state = next;
    }
    result
}

/// Annotates a parsed record: looks up the time field, reads the timestamp
/// where the field holds a string, and goes on as [`annotate_timed`] does. A
/// string that is no timestamp fails with `InvalidTimestamp`; a missing field
/// or one that holds no string is no failure.
pub fn annotate_record(state: &mut StreamState, config: &Config, record: serde_json::Value) -> (result:
    Result<LineOutput, AnnotateError>)
    requires
        old(state).wf(),
    ensures
        agrees(result, *old(state), *final(state), record_step(*old(state), *config, record)),
        final(state).wf(),
{
    let text = match member(&record, config.time_field.as_str()) {
        Some(value) => string_value(value),
        None => None,
    };
    let time = match text {
        Some(text) => match Timestamp::parse(text) {
            Ok(now) => Some(now),
            Err(e) => {
                return Err(e);
            },
        },
        None => None,
    };
    annotate_timed(state, config, record, time)
}

/// Annotates one line of input. Fails with `InvalidJson` exactly where the
/// line is not well-formed JSON, and otherwise goes on as [`annotate_record`]
/// does.
pub fn process_line(state: &mut StreamState, config: &Config, line: &str) -> (result: Result<
    LineOutput,
    AnnotateError,
>)
    requires
        old(state).wf(),
    ensures
        agrees(result, *old(state), *final(state), line_step(*old(state), *config, line@)),
        final(state).wf(),
{
    match parse_record(line) {
        Ok(record) => annotate_record(state, config, record),
        Err(_) => Err(AnnotateError::InvalidJson),
    }
}

/// The outputs as plain text.
pub open spec fn texts(outputs: Seq<LineOutput>) -> Seq<LineText> {
    outputs.map_values(|output: LineOutput| output@)
}

/// Annotates a whole stream, line by line from a fresh state, and stops at the
/// first failure. Every line before the failure has its output, in input
/// order; a run without failure has exactly one output per line.
pub fn process_lines(config: &Config, lines: &Vec<String>) -> (outcome: RunOutcome)
    ensures
        texts(outcome.outputs@) == run_of(StreamState::initial(), *config, lines@).outputs,
        outcome.failure == run_of(StreamState::initial(), *config, lines@).failure,
        outcome.outputs@.len() <= lines@.len(),
        outcome.failure is None ==> outcome.outputs@.len() == lines@.len(),
{
    let mut state = StreamState::new();
    let mut outputs: Vec<LineOutput> = Vec::new();
    let mut i: usize = 0;
    assert(lines@.take(0) =~= Seq::<String>::empty());
    assert(texts(outputs@) =~= Seq::<LineText>::empty());
    while i < lines.len()
        invariant
            i <= lines@.len(),
            state.wf(),
            outputs@.len() == i,
            run_of(StreamState::initial(), *config, lines@.take(i as int)) == (Run {
                state,
                outputs: texts(outputs@),
                failure: None,
            }),
        decreases lines@.len() - i,
    {
        let ghost before = run_of(StreamState::initial(), *config, lines@.take(i as int));
        let ghost taken = lines@.take(i + 1);
        assert(taken.drop_last() =~= lines@.take(i as int));
        assert(taken.last() == lines@[i as int]);
        let ghost shown = texts(outputs@);
        match process_line(&mut state, config, lines[i].as_str()) {
            Ok(output) => {
                outputs.push(output);
                assert(texts(outputs@) =~= shown.push(output@));
                i = i + 1;
            },
            Err(e) => {
                proof {
                    lemma_failure_stays(StreamState::initial(), *config, lines@, i + 1);
                }
                return RunOutcome { outputs, failure: Some(e) };
            },
        }
    }
    assert(lines@.take(i as int) =~= lines@);
    RunOutcome { outputs, failure: None }
}

/// Once a prefix of the lines has failed, the whole run is that of the prefix.
pub proof fn lemma_failure_stays(state: StreamState, config: Config, lines: Seq<String>, n: int)
    requires
        0 <= n <= lines.len(),
        run_of(state, config, lines.take(n)).failure is Some,
    ensures
        run_of(state, config, lines) == run_of(state, config, lines.take(n)),
    decreases lines.len() - n,
{
    if n == lines.len() {
        assert(lines.take(n) =~= lines);
    } else {
        assert(lines.take(n + 1).drop_last() =~= lines.take(n));
        lemma_failure_stays(state, config, lines, n + 1);
    }
}

} // verus!
