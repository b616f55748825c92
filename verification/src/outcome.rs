//! From what the engine hands back to what the caller gets.
//!
//! An artifact passes through as it is. A failure of the engine, whatever
//! its cause, becomes a [`ConvertError::Conversion`] that carries the
//! engine's description and nothing else: failures are not sorted into
//! kinds here.

use vstd::prelude::*;
use crate::dispatch::TargetForm;
use crate::document::{document_text, json_to_string};
use crate::error::{ConvertError, ConvertErrorView};

verus! {

/// A failure reported by the engine, reduced to its description.
#[derive(Debug, PartialEq, Eq)]
pub struct EngineFailure {
    pub description: String,
}

/// The caller-facing error for an engine failure.
pub open spec fn conversion_error(failure: EngineFailure) -> ConvertErrorView {
    ConvertErrorView::Conversion(failure.description@)
}

fn conversion_failed(failure: EngineFailure) -> (error: ConvertError)
    ensures
        error@ == conversion_error(failure),
{
    ConvertError::Conversion(failure.description)
}

/// The result of a capability that produces text: SVG markup or an HTML
/// document. The text is handed on verbatim.
pub fn encode_string_result(result: Result<String, EngineFailure>) -> (encoded: Result<
    String,
    ConvertError,
>)
    ensures
        match result {
            Ok(value) => encoded matches Ok(text) && text@ == value@,
            Err(failure) => encoded matches Err(error) && error@ == conversion_error(failure),
        },
{
    match result {
        Ok(value) => Ok(value),
        Err(failure) => Err(conversion_failed(failure)),
    }
}

/// The result of a capability that produces bytes: a PNG or JPEG image or a
/// PDF document. The bytes are handed on verbatim, not encoded again.
pub fn encode_vec_result(result: Result<Vec<u8>, EngineFailure>) -> (encoded: Result<
    Vec<u8>,
    ConvertError,
>)
    ensures
        match result {
            Ok(bytes) => encoded matches Ok(buffer) && buffer@ == bytes@,
            Err(failure) => encoded matches Err(error) && error@ == conversion_error(failure),
        },
{
    match result {
        Ok(bytes) => Ok(bytes),
        Err(failure) => Err(conversion_failed(failure)),
    }
}

/// The result of the transcoding capability: the Vega document is written
/// out as text.
pub fn encode_document_result(result: Result<serde_json::Value, EngineFailure>) -> (encoded:
    Result<String, ConvertError>)
    ensures
        match result {
            Ok(document) => encoded matches Ok(text) && text@ == document_text(document),
            Err(failure) => encoded matches Err(error) && error@ == conversion_error(failure),
        },
{
    match result {
        Ok(document) => Ok(json_to_string(&document)),
        Err(failure) => Err(conversion_failed(failure)),
    }
}

/// Error transparency. The message a caller reads for an engine failure is
/// the engine's description, letter for letter.
pub proof fn lemma_error_transparency(failure: EngineFailure)
    ensures
        conversion_error(failure).message() == failure.description@,
{
}

/// The bytes a binary artifact of each form begins with; empty for the
/// forms that are text.
pub open spec fn signature(form: TargetForm) -> Seq<u8> {
    match form {
        TargetForm::Png => seq![0x89u8, 0x50u8, 0x4eu8, 0x47u8, 0x0du8, 0x0au8, 0x1au8, 0x0au8],
        TargetForm::Jpeg => seq![0xffu8, 0xd8u8, 0xffu8],
        TargetForm::Pdf => seq![0x25u8, 0x50u8, 0x44u8, 0x46u8, 0x2du8],
        _ => Seq::empty(),
    }
}

/// Format fidelity, as far as the gateway decides it. A buffer that equals
/// the engine's artifact begins with the signature of its form whenever the
/// artifact does.
pub proof fn lemma_signature_survives(form: TargetForm, artifact: Seq<u8>, buffer: Seq<u8>)
    requires
        buffer == artifact,
        signature(form).is_prefix_of(artifact),
    ensures
        signature(form).is_prefix_of(buffer),
{
}

} // verus!
