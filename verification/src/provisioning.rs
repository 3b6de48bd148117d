use std::fmt::Write;
use vstd::prelude::*;

verus! {

/// The text that chrono's formatter gives for the instant `secs` seconds after
/// the Unix epoch, in UTC, under the strftime pattern `pattern`; `None` where
/// chrono cannot represent the instant or cannot format it under the pattern.
pub uninterp spec fn instant_text(secs: int, pattern: Seq<char>) -> Option<Seq<char>>;

/// The 128-bit value of the UUID that `text` spells, as the uuid crate parses
/// it; `None` where the crate rejects the text.
pub uninterp spec fn key_of_text(text: Seq<char>) -> Option<u128>;

/// The string found in the JSON document `body` under the member `inner` of
/// the member `outer`, as serde_json reads it; `None` where the document does
/// not parse or holds no string there.
pub uninterp spec fn json_text(body: Seq<char>, outer: Seq<char>, inner: Seq<char>) -> Option<
    Seq<char>,
>;

/// The integer found in the JSON document `body` under the member `inner` of
/// the element `index` of the member `outer`, as serde_json reads it; `None`
/// where the document does not parse or holds no integer of 64 bits there.
pub uninterp spec fn json_int(
    body: Seq<char>,
    outer: Seq<char>,
    index: int,
    inner: Seq<char>,
) -> Option<i64>;

/// Calls chrono's `DateTime::<Utc>::from_timestamp` with no nanoseconds and
/// writes the result of `DateTime::format` under `pattern`. Nothing is proved
/// of the text: it is taken to depend on the two arguments alone, and to be
/// absent where chrono reports the instant out of range or the formatter
/// reports an error.
#[verifier::external_body]
pub(crate) fn format_instant(secs: i64, pattern: &str) -> (r: Option<String>)
    ensures
        r.is_some() == instant_text(secs as int, pattern@).is_some(),
        r matches Some(text) ==> Some(text@) == instant_text(secs as int, pattern@),
{
    match chrono::DateTime::<chrono::Utc>::from_timestamp(secs, 0) {
        Some(instant) => {
            let mut text = String::new();
            match write!(text, "{}", instant.format(pattern)) {
                Ok(()) => Some(text),
                Err(_) => None,
            }
        },
        None => None,
    }
}

/// Calls uuid's `Uuid::parse_str` and takes the value with `Uuid::as_u128`.
/// Nothing is proved of the value: it is taken to depend on the text alone,
/// and to be absent where the crate returns an error.
#[verifier::external_body]
pub(crate) fn parse_key(text: &str) -> (r: Option<u128>)
    ensures
        r == key_of_text(text@),
{
    match uuid::Uuid::parse_str(text) {
        Ok(id) => Some(id.as_u128()),
        Err(_) => None,
    }
}

/// Parses `body` with serde_json's `from_str` into a `Value`, indexes it by
/// `outer` and then by `inner`, and reads the result with `Value::as_str`.
/// Nothing is proved of the string: it is taken to depend on the three
/// arguments alone, and to be absent where parsing fails or `as_str` gives
/// nothing.
#[verifier::external_body]
pub(crate) fn json_text_at(body: &str, outer: &str, inner: &str) -> (r: Option<String>)
    ensures
        r.is_some() == json_text(body@, outer@, inner@).is_some(),
        r matches Some(text) ==> Some(text@) == json_text(body@, outer@, inner@),
{
    match serde_json::from_str::<serde_json::Value>(body) {
        Ok(value) => match value[outer][inner].as_str() {
            Some(text) => Some(text.to_string()),
            None => None,
        },
        Err(_) => None,
    }
}

/// Parses `body` with serde_json's `from_str` into a `Value`, indexes it by
/// `outer`, by `index` and then by `inner`, and reads the result with
/// `Value::as_i64`. Nothing is proved of the integer: it is taken to depend on
/// the four arguments alone, and to be absent where parsing fails or `as_i64`
/// gives nothing.
#[verifier::external_body]
pub(crate) fn json_int_at(body: &str, outer: &str, index: usize, inner: &str) -> (r: Option<i64>)
    ensures
        r == json_int(body@, outer@, index as int, inner@),
{
    match serde_json::from_str::<serde_json::Value>(body) {
        Ok(value) => value[outer][index][inner].as_i64(),
        Err(_) => None,
    }
}

} // verus!
