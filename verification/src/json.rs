//! The JSON string encoding, which is taken from `serde_json`.

use vstd::prelude::*;

verus! {

/// The error type of `serde_json`, carried through as an opaque value.
#[verifier::external_type_specification]
#[verifier::external_body]
pub struct ExJsonError(serde_json::Error);

/// The JSON string literal that `serde_json` writes for a text: the text in
/// double quotes, with its quotes, backslashes and control characters escaped;
/// or nothing, where `serde_json` refuses the text. It depends on the text
/// alone.
pub uninterp spec fn json_string_literal(text: Seq<char>) -> Option<Seq<char>>;

/// Calls `serde_json::to_string` on a string slice.
///
/// Trusted: whether the call succeeds and what it then returns depend on the
/// text alone. Nothing is claimed about which texts are accepted, nor about
/// what the literal of a given text is.
#[verifier::external_body]
pub(crate) fn quote_json(text: &str) -> (quoted: Result<String, serde_json::Error>)
    ensures
        match quoted {
            Ok(literal) => json_string_literal(text@) == Some(literal@),
            Err(_) => json_string_literal(text@) is None,
        },
{
    serde_json::to_string(text)
}

/// Calls `to_string` on a `serde_json::Error` to obtain its message.
///
/// Trusted: nothing is claimed about the message.
#[verifier::external_body]
pub(crate) fn json_error_text(error: &serde_json::Error) -> (text: String) {
    error.to_string()
}

} // verus!
