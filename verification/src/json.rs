//! Reading the JSON text of EventSub messages with `serde_json`: whether it
//! parses, and the strings and numbers found at JSON pointers.
use vstd::prelude::*;

verus! {

/// Names whether `serde_json` accepts the text as a JSON document.
pub uninterp spec fn json_parses(text: Seq<char>) -> bool;

/// Names the text of the error `serde_json` reports for a text it rejects.
pub uninterp spec fn json_error_text(text: Seq<char>) -> Seq<char>;

/// Names the string found at a JSON pointer (RFC 6901) of the parsed text;
/// `None` when the text does not parse, nothing is there, or it is no string.
pub uninterp spec fn json_string_at(text: Seq<char>, path: Seq<char>) -> Option<Seq<char>>;

/// Names the unsigned number found at a JSON pointer of the parsed text;
/// `None` when the text does not parse, nothing is there, or it is no
/// number that fits in `u64`.
pub uninterp spec fn json_u64_at(text: Seq<char>, path: Seq<char>) -> Option<u64>;

/// `serde_json::from_str::<serde_json::Value>`: whether the text is a JSON
/// document, and the text of the error (`Display` of `serde_json::Error`) when
/// it is not. Both depend on the text alone; what they are is not stated.
#[verifier::external_body]
pub(crate) fn check_json(text: &str) -> (r: Result<(), String>)
    ensures
        r is Ok <==> json_parses(text@),
        r matches Err(e) ==> e@ == json_error_text(text@),
{
    match serde_json::from_str::<serde_json::Value>(text) {
        Ok(_) => Ok(()),
        Err(e) => Err(e.to_string()),
    }
}

/// `serde_json::from_str::<serde_json::Value>`, then `Value::pointer` and
/// `Value::as_str`: the string at the pointer `path`, owned. The result depends
/// on the text and the path alone; what it is is not stated.
#[verifier::external_body]
pub(crate) fn string_at(text: &str, path: &str) -> (r: Option<String>)
    ensures
        match r {
            Some(s) => json_string_at(text@, path@) == Some(s@),
            None => json_string_at(text@, path@) is None,
        },
{
    match serde_json::from_str::<serde_json::Value>(text) {
        Ok(v) => match v.pointer(path) {
            Some(x) => match x.as_str() {
                Some(s) => Some(s.to_owned()),
                None => None,
            },
            None => None,
        },
        Err(_) => None,
    }
}

/// `serde_json::from_str::<serde_json::Value>`, then `Value::pointer` and
/// `Value::as_u64`: the unsigned number at the pointer `path`. The result
/// depends on the text and the path alone; what it is is not stated.
#[verifier::external_body]
pub(crate) fn u64_at(text: &str, path: &str) -> (r: Option<u64>)
    ensures
        r == json_u64_at(text@, path@),
{
    match serde_json::from_str::<serde_json::Value>(text) {
        Ok(v) => match v.pointer(path) {
            Some(x) => x.as_u64(),
            None => None,
        },
        Err(_) => None,
    }
}

} // verus!
