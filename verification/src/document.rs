//! The specification parser: raw text in, structured document out.

use vstd::prelude::*;
use crate::error::ConvertError;

verus! {

/// A parsed specification document. The gateway never looks inside one: it
/// carries the document from the parser to the engine.
#[verifier::external_type_specification]
#[verifier::external_body]
pub struct ExValue(serde_json::Value);

/// What `serde_json` reports when a text is not JSON.
#[verifier::external_type_specification]
#[verifier::external_body]
pub struct ExJsonError(serde_json::Error);

/// The document that `serde_json::from_str` reads from a text, or `None`
/// where it rejects the text.
pub uninterp spec fn json_document(text: Seq<char>) -> Option<serde_json::Value>;

/// Calls `serde_json::from_str` for a `serde_json::Value`. The outcome is a
/// function of the text alone: the same text always parses to the same
/// document or is always rejected.
#[verifier::external_body]
fn json_from_str(text: &str) -> (parsed: Result<serde_json::Value, serde_json::Error>)
    ensures
        match parsed {
            Ok(document) => json_document(text@) == Some(document),
            Err(_) => json_document(text@) is None,
        },
{
    serde_json::from_str(text)
}

/// The JSON text that `serde_json` writes for a document, in its compact
/// form.
pub uninterp spec fn document_text(document: serde_json::Value) -> Seq<char>;

/// Calls `to_string` on a `serde_json::Value`, which writes the document as
/// compact JSON. The text is a function of the document alone.
#[verifier::external_body]
pub(crate) fn json_to_string(document: &serde_json::Value) -> (text: String)
    ensures
        text@ == document_text(*document),
{
    document.to_string()
}

/// Turns the text of a specification into a document.
///
/// The text is either read as a whole or rejected as a whole. Only
/// well-formedness is checked here: what the fields mean is the engine's
/// business.
pub fn parse_spec(spec: String) -> (parsed: Result<serde_json::Value, ConvertError>)
    ensures
        match json_document(spec@) {
            Some(document) => parsed == Ok::<serde_json::Value, ConvertError>(document),
            None => parsed == Err::<serde_json::Value, ConvertError>(ConvertError::Parse),
        },
{
    match json_from_str(spec.as_str()) {
        Ok(document) => Ok(document),
        Err(_) => Err(ConvertError::Parse),
    }
}

} // verus!
