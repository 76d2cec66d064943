//! The JSON values that travel through the library untouched, and the one
//! question the library asks of JSON text: is it well formed?
//!
//! Everything in this file is trusted: it states what `serde_json` does and
//! is not proved here.

use vstd::prelude::*;

verus! {

/// `serde_json::Value`, a parsed JSON document. The library only carries such
/// values (tool schemas, parsed tool arguments); it never looks inside.
#[verifier::external_type_specification]
#[verifier::external_body]
pub struct ExJsonValue(serde_json::Value);

/// `Clone` for `serde_json::Value` is derived: the copy is the same document.
pub assume_specification[ <serde_json::Value as Clone>::clone ](value: &serde_json::Value) -> (copy:
    serde_json::Value)
    ensures
        copy == *value,
;

/// What `serde_json::from_str::<serde_json::Value>` makes of a text: `None`
/// where it parses, otherwise the message of the error it reports, as the
/// error's `Display` renders it.
pub uninterp spec fn json_syntax_error(text: Seq<char>) -> Option<Seq<char>>;

/// Parses `text` with `serde_json::from_str::<serde_json::Value>`. The parser
/// reads nothing but `text`, so its verdict is a function of it: the call
/// succeeds exactly where [`json_syntax_error`] is `None`, and otherwise
/// returns the error's message.
#[verifier::external_body]
pub(crate) fn parse_json(text: &str) -> (parsed: Result<serde_json::Value, String>)
    ensures
        parsed is Ok <==> json_syntax_error(text@) is None,
        parsed matches Err(message) ==> json_syntax_error(text@) == Some(message@),
{
    match serde_json::from_str::<serde_json::Value>(text) {
        Ok(value) => Ok(value),
        Err(error) => Err(error.to_string()),
    }
}

} // verus!
