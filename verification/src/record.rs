//! The JSON side of the annotator. A record is a `serde_json::Value`, which
//! stays opaque here: serde_json parses it, reads and sets its members and
//! writes it out, and the contracts below give each of those outcomes a name.

use vstd::prelude::*;

verus! {

#[verifier::external_type_specification]
#[verifier::external_body]
pub struct ExJsonValue(serde_json::Value);

#[verifier::external_type_specification]
#[verifier::external_body]
pub struct ExJsonError(serde_json::Error);

/// The record that `serde_json::from_str` reads from `text`; `None` where the
/// text is not well-formed JSON.
pub uninterp spec fn parsed(text: Seq<char>) -> Option<serde_json::Value>;

/// The member `name` of `record`, as `Value::get` finds it; `None` where
/// `record` is no object or has no such member.
pub uninterp spec fn member_of(record: serde_json::Value, name: Seq<char>) -> Option<
    serde_json::Value,
>;

/// The text that `value` holds where it is a JSON string, as `Value::as_str`
/// gives it; `None` for every other kind of value.
pub uninterp spec fn string_of(value: serde_json::Value) -> Option<Seq<char>>;

/// The text of the member `name` of `record`; `None` where `record` is no
/// object, has no such member, or holds something other than a string there.
pub open spec fn string_member(record: serde_json::Value, name: Seq<char>) -> Option<Seq<char>> {
    match member_of(record, name) {
        Some(value) => string_of(value),
        None => None,
    }
}

/// Whether members can be set on `record` by name: it is a JSON object or null.
pub uninterp spec fn takes_members(record: serde_json::Value) -> bool;

/// `record` after its member `name` has been set to the integer `n`: an
/// existing member of that name is replaced, otherwise one is added.
pub uninterp spec fn with_integer(record: serde_json::Value, name: Seq<char>, n: i64)
    -> serde_json::Value;

/// The one-line JSON text that `serde_json::to_string` writes for `record`,
/// where it succeeds.
pub uninterp spec fn rendered(record: serde_json::Value) -> Option<Seq<char>>;

/// The record without members, which is what the text `{}` parses to.
pub open spec fn empty_object() -> Option<serde_json::Value> {
    parsed("{}"@)
}

/// Calls `serde_json::from_str` at type `Value`. The contract names the
/// outcome as a function of the text and claims nothing of what it holds.
#[verifier::external_body]
pub(crate) fn parse_record(line: &str) -> (r: Result<serde_json::Value, serde_json::Error>)
    ensures
        match r {
            Ok(record) => parsed(line@) == Some(record),
            Err(_) => parsed(line@) is None,
        },
{
    serde_json::from_str::<serde_json::Value>(line)
}

/// Calls `Value::get` with a string index. serde_json finds a member only in
/// an object, so a hit also tells that members can be set on the record.
#[verifier::external_body]
pub(crate) fn member<'a>(record: &'a serde_json::Value, name: &str) -> (r: Option<
    &'a serde_json::Value,
>)
    ensures
        match r {
            Some(value) => member_of(*record, name@) == Some(*value),
            None => member_of(*record, name@) is None,
        },
        r is Some ==> takes_members(*record),
{
    record.get(name)
}

/// Calls `Value::as_str`: the text of a JSON string, nothing for any other
/// value.
#[verifier::external_body]
pub(crate) fn string_value<'a>(value: &'a serde_json::Value) -> (r: Option<&'a str>)
    ensures
        match r {
            Some(text) => string_of(*value) == Some(text@),
            None => string_of(*value) is None,
        },
{
    value.as_str()
}

/// Assigns through `IndexMut<&str>` of `Value`, with the integer turned into
/// a `Value` by `From<i64>`. serde_json panics here unless the value is an
/// object or null, which the precondition asks for; null becomes an object, so
/// the outcome is always an object.
#[verifier::external_body]
pub(crate) fn set_integer_member(record: &mut serde_json::Value, name: &str, n: i64)
    requires
        takes_members(*old(record)),
    ensures
        *final(record) == with_integer(*old(record), name@, n),
        takes_members(*final(record)),
{
    record[name] = serde_json::Value::from(n);
}

/// Builds `Value::Object` around `serde_json::Map::new()`: the object without
/// members, equal to the value that the text `{}` parses to.
#[verifier::external_body]
pub(crate) fn new_object() -> (record: serde_json::Value)
    ensures
        empty_object() == Some(record),
        takes_members(record),
{
    serde_json::Value::Object(serde_json::Map::new())
}

/// Calls `serde_json::to_string`. The contract names the text as a function of
/// the record.
#[verifier::external_body]
pub(crate) fn render(record: &serde_json::Value) -> (r: Result<String, serde_json::Error>)
    ensures
        match r {
            Ok(text) => rendered(*record) == Some(text@),
            Err(_) => rendered(*record) is None,
        },
{
    serde_json::to_string(record)
}

} // verus!
