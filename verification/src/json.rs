//! What the library asks of serde_json: whether a text is one JSON document,
//! and which string a JSON pointer reaches in it.
use vstd::prelude::*;

use crate::text::opt_view;

verus! {

/// Whether `serde_json::from_str::<serde_json::Value>` accepts `text`.
pub uninterp spec fn json_accepts(text: Seq<char>) -> bool;

/// The string that the JSON pointer `pointer` reaches in the document `text`:
/// serde_json parses `text` into a `Value`, `Value::pointer` follows `pointer`,
/// and `Value::as_str` reads a string there. `None` where any step gives nothing.
pub uninterp spec fn json_string_at(text: Seq<char>, pointer: Seq<char>) -> Option<Seq<char>>;

/// Calls `serde_json::from_str::<serde_json::Value>(text)` and reports whether it
/// succeeded. The contract claims only that the answer is `json_accepts(text)`,
/// which serde_json decides from the text alone.
#[verifier::external_body]
pub(crate) fn parses_as_json(text: &str) -> (r: bool)
    ensures
        r == json_accepts(text@),
{
    serde_json::from_str::<serde_json::Value>(text).is_ok()
}

/// Calls `serde_json::from_str::<serde_json::Value>(text)`, then
/// `Value::pointer(pointer)` and `Value::as_str` on what it reaches, and copies
/// the string out. The contract claims only that the result is
/// `json_string_at(text, pointer)`. For a key without `/` or `~`, the pointer
/// `/key` reaches what `Value::get(key)` gives.
#[verifier::external_body]
pub(crate) fn string_at(text: &str, pointer: &str) -> (r: Option<String>)
    ensures
        opt_view(r) == json_string_at(text@, pointer@),
{
    serde_json::from_str::<serde_json::Value>(text).ok().and_then(
        |v| v.pointer(pointer).and_then(serde_json::Value::as_str).map(str::to_owned),
    )
}

} // verus!
