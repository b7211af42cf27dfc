//! Trusted boundary to the JSON parser.
//!
//! Tool-call arguments arrive as raw text.  Whether that text is
//! well-formed structured data, and which string fields a loop-control
//! signal carries, are decided by the JSON parser; both are functions
//! of the text alone, so they are given names here and everything
//! downstream is verified against those names.

use vstd::prelude::*;

use crate::looper::opt_view;

verus! {

/// Whether the text is a well-formed JSON document.
pub uninterp spec fn json_parse_ok(s: Seq<char>) -> bool;

/// The string values under the `state` and `continue_reason` keys of
/// the text, read as a JSON object; `None` where the text does not
/// parse, the key is absent, or its value is not a string.
pub uninterp spec fn loop_signal_of(s: Seq<char>) -> (Option<Seq<char>>, Option<Seq<char>>);

/// Relies on `serde_json::from_str::<serde_json::Value>`: whether the
/// argument text parses is a function of the text alone.
#[verifier::external_body]
pub fn json_parses(s: &str) -> (r: bool)
    ensures
        r == json_parse_ok(s@),
{
    serde_json::from_str::<serde_json::Value>(s).is_ok()
}

/// Relies on `serde_json::from_str::<serde_json::Value>`,
/// `serde_json::Value::get` and `serde_json::Value::as_str`: which
/// string values sit under the two loop-control keys is a function of
/// the text alone.
#[verifier::external_body]
pub fn loop_signal_fields(s: &str) -> (r: (Option<String>, Option<String>))
    ensures
        (opt_view(r.0), opt_view(r.1)) == loop_signal_of(s@),
{
    match serde_json::from_str::<serde_json::Value>(s) {
        Ok(v) => (
            v.get("state").and_then(|f| f.as_str()).map(|f| f.to_owned()),
            v.get("continue_reason").and_then(|f| f.as_str()).map(|f| f.to_owned()),
        ),
        Err(_) => (None, None),
    }
}

} // verus!
