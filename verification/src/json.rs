//! JSON documents, as `serde_json` builds and reads them.
//!
//! A document is carried as a `serde_json::Value`, which the verifier cannot
//! look into. Every function in this file is believed rather than proved:
//! each one makes a single call into `serde_json`, and its contract gives the
//! call's result a name so that callers can say exactly which document they
//! built or received.

use vstd::prelude::*;

verus! {

#[verifier::external_type_specification]
#[verifier::external_body]
pub struct ExJsonValue(serde_json::Value);

/// The JSON string with the given characters.
pub uninterp spec fn json_text(text: Seq<char>) -> serde_json::Value;

/// The JSON string with the given characters, or JSON `null` for `None`.
pub uninterp spec fn json_optional_text(text: Option<Seq<char>>) -> serde_json::Value;

/// The JSON document that stands for a span of time of `secs` whole seconds
/// and `nanos` further nanoseconds.
pub uninterp spec fn json_duration(secs: u64, nanos: u32) -> serde_json::Value;

/// The JSON object built from the given members, listed in insertion order.
pub uninterp spec fn json_object(members: Seq<(Seq<char>, serde_json::Value)>) -> serde_json::Value;

/// The elements of the JSON array that `body` spells out, or `None` where
/// `body` is not the text of one JSON array.
pub uninterp spec fn json_array(body: Seq<u8>) -> Option<Seq<serde_json::Value>>;

/// The members of an object under construction, keys taken by their view.
pub open spec fn members_view(members: Seq<(String, serde_json::Value)>) -> Seq<
    (Seq<char>, serde_json::Value),
> {
    members.map_values(|member: (String, serde_json::Value)| (member.0@, member.1))
}

/// Calls `serde_json::Value::from` on a string slice, which copies the text
/// into a `Value::String`. The result is believed to be a function of the
/// characters alone.
#[verifier::external_body]
pub(crate) fn text_value(text: &str) -> (value: serde_json::Value)
    ensures
        value == json_text(text@),
{
    serde_json::Value::from(text)
}

/// Calls `serde_json::Value::from` on an optional string: `Value::Null` for
/// `None`, else the `Value::String` of the text. The result is believed to
/// be a function of the optional characters alone.
#[verifier::external_body]
pub(crate) fn optional_text_value(text: &Option<String>) -> (value: serde_json::Value)
    ensures
        value == json_optional_text(
            match text {
                Some(t) => Some(t@),
                None => None,
            },
        ),
{
    serde_json::Value::from(text.clone())
}

/// Calls `serde_json::to_value` on the `std::time::Duration` of `secs`
/// seconds and `nanos` nanoseconds. serde writes a duration as a structure of
/// two unsigned numbers, which cannot fail; the result is believed to be a
/// function of the two numbers alone. `Duration::new` panics when the
/// nanoseconds carry over and the seconds overflow, so a full second or more
/// of nanoseconds is left out.
#[verifier::external_body]
pub(crate) fn duration_value(secs: u64, nanos: u32) -> (value: serde_json::Value)
    requires
        nanos < 1_000_000_000,
    ensures
        value == json_duration(secs, nanos),
{
    serde_json::to_value(std::time::Duration::new(secs, nanos)).unwrap_or_default()
}

/// Collects key-value pairs into a `serde_json::Value` through its
/// `FromIterator<(K, V)>` impl, which inserts the pairs in order into a fresh
/// map and wraps it in `Value::Object`. The result is believed to be a
/// function of the sequence of pairs alone.
#[verifier::external_body]
pub(crate) fn object_value(members: Vec<(String, serde_json::Value)>) -> (value: serde_json::Value)
    ensures
        value == json_object(members_view(members@)),
{
    members.into_iter().collect::<serde_json::Value>()
}

/// Calls `serde_json::from_slice` for a vector of values. It succeeds when
/// the whole of `body` is the text of one JSON array (nested at most 128
/// deep) and then returns the array's elements in order; every other input
/// is an error, which is dropped here. The result is believed to be a
/// function of the bytes alone.
#[verifier::external_body]
pub(crate) fn parse_array(body: &[u8]) -> (parsed: Option<Vec<serde_json::Value>>)
    ensures
        parsed matches Some(elements) ==> json_array(body@) == Some(elements@),
        parsed is None ==> json_array(body@) is None,
{
    serde_json::from_slice::<Vec<serde_json::Value>>(body).ok()
}

} // verus!
