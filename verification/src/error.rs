//! The failures a conversion request can end in.

use vstd::prelude::*;

verus! {

/// Why a conversion request did not yield an artifact.
#[derive(Debug, PartialEq, Eq)]
pub enum ConvertError {
    /// The specification text is not well-formed structured data.
    Parse,
    /// A caller-supplied parameter is outside the closed set of accepted
    /// values.
    InvalidParameter,
    /// The engine rejected the specification or failed while rendering. The
    /// text is the engine's own description, untouched.
    Conversion(String),
}

/// The mathematical value of a [`ConvertError`].
pub enum ConvertErrorView {
    Parse,
    InvalidParameter,
    Conversion(Seq<char>),
}

impl View for ConvertError {
    type V = ConvertErrorView;

    open spec fn view(&self) -> ConvertErrorView {
        match self {
            ConvertError::Parse => ConvertErrorView::Parse,
            ConvertError::InvalidParameter => ConvertErrorView::InvalidParameter,
            ConvertError::Conversion(description) => ConvertErrorView::Conversion(description@),
        }
    }
}

/// The fixed message of a parse failure.
pub open spec fn parse_error_text() -> Seq<char> {
    "spec is not valid structured data"@
}

/// The fixed message of a rejected parameter.
pub open spec fn invalid_parameter_text() -> Seq<char> {
    "Invalid renderer provided"@
}

impl ConvertErrorView {
    /// The one descriptive string a caller sees for this failure.
    pub open spec fn message(self) -> Seq<char> {
        match self {
            ConvertErrorView::Parse => parse_error_text(),
            ConvertErrorView::InvalidParameter => invalid_parameter_text(),
            ConvertErrorView::Conversion(description) => description,
        }
    }
}

impl Clone for ConvertError {
    fn clone(&self) -> (copy: Self)
        ensures
            copy@ == self@,
    {
        match self {
            ConvertError::Parse => ConvertError::Parse,
            ConvertError::InvalidParameter => ConvertError::InvalidParameter,
            ConvertError::Conversion(description) => ConvertError::Conversion(description.clone()),
        }
    }
}

impl ConvertError {
    /// The one descriptive string a caller sees for this failure. An engine
    /// failure is reported in the engine's words, letter for letter.
    pub fn message(&self) -> (text: String)
        ensures
            text@ == self@.message(),
    {
        match self {
            ConvertError::Parse => "spec is not valid structured data".to_owned(),
            ConvertError::InvalidParameter => "Invalid renderer provided".to_owned(),
            ConvertError::Conversion(description) => description.clone(),
        }
    }
}

} // verus!
