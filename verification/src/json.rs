//! The JSON body that carries an error message.

use vstd::prelude::*;
use vstd::string::StringExecFns;

verus! {

/// The JSON string literal for a text: the text between double quotes, with
/// the escapes that JSON asks for.
pub uninterp spec fn json_string_text(text: Seq<char>) -> Seq<char>;

/// The body `{"error":<literal>}` around an already encoded JSON literal.
pub open spec fn error_document(literal: Seq<char>) -> Seq<char> {
    "{\"error\":"@ + literal + "}"@
}

/// The body that reports `message`: a JSON object whose only member,
/// `error`, holds the message as a JSON string.
pub open spec fn error_body_text(message: Seq<char>) -> Seq<char> {
    error_document(json_string_text(message))
}

/// Calls `serde_json::to_string` on a string slice. The contract gives the
/// returned text a name and claims that the call succeeds: serialising a
/// string into memory writes to a byte vector, which is the only step that
/// could report an error and never does.
#[verifier::external_body]
fn json_string(text: &str) -> (literal: String)
    ensures
        literal@ == json_string_text(text@),
{
    serde_json::to_string(text).unwrap_or_default()
}

/// Puts an encoded JSON literal into the error object.
pub fn wrap_error(literal: &str) -> (body: String)
    ensures
        body@ == error_document(literal@),
{
    let mut body = String::from_str("{\"error\":");
    body.append(literal);
    body.append("}");
    body
}

/// Builds the JSON body that reports `message`.
pub fn error_body(message: &str) -> (body: String)
    ensures
        body@ == error_body_text(message@),
{
    let literal = json_string(message);
    wrap_error(literal.as_str())
}

} // verus!
