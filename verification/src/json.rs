//! Reading a room's JSON answer.
use vstd::prelude::*;

verus! {

/// Whether `serde_json::from_str::<serde_json::Value>` accepts the text.
pub uninterp spec fn json_accepts(text: Seq<char>) -> bool;

/// The compact JSON that the parsed value of the text serialises to
/// (`serde_json::Value`'s `to_string`).
pub uninterp spec fn json_compact(text: Seq<char>) -> Seq<char>;

/// The `Display` text of the error that `serde_json::from_str` reports.
pub uninterp spec fn json_error_text(text: Seq<char>) -> Seq<char>;

/// `serde_json::from_str::<serde_json::Value>`, with the value written
/// back as compact JSON and the error as its text.
///
/// Contract: it succeeds exactly when serde_json accepts the text; the
/// JSON and the error text are named results of the text alone. Nothing
/// more is stated of them.
#[verifier::external_body]
pub(crate) fn parse_json_value(text: &str) -> (r: Result<String, String>)
    ensures
        r is Ok <==> json_accepts(text@),
        r matches Ok(v) ==> v@ == json_compact(text@),
        r matches Err(e) ==> e@ == json_error_text(text@),
{
    match serde_json::from_str::<serde_json::Value>(text) {
        Ok(value) => Ok(value.to_string()),
        Err(err) => Err(err.to_string()),
    }
}

} // verus!
