//! The operation dispatch matrix: from a caller's request to the one engine
//! capability that serves it.
//!
//! A request is validated in a fixed order. The specification text is parsed
//! first; then the parameters of the target form are validated; only a
//! request that passed both names an engine call. A request that fails
//! either step ends in an error and names none, so the engine is never
//! entered for it.

use vstd::prelude::*;
use crate::document::{json_document, parse_spec};
use crate::error::ConvertError;
use crate::options::{
    parse_renderer, pinned_vl_version, renderer_of, vg_opts, vl_opts, FloatBits, Renderer,
    VgOpts, VlOpts, VlVersion,
};

verus! {

/// The grammar a specification is written in.
#[derive(Clone, Copy, Debug, PartialEq, Eq)]
pub enum Dialect {
    /// The lower-level visualization grammar.
    Vega,
    /// The higher-level grammar that compiles down to Vega.
    VegaLite,
}

/// The encoding a caller asks for.
#[derive(Clone, Copy, Debug, PartialEq, Eq)]
pub enum TargetForm {
    Svg,
    Html,
    Png,
    Jpeg,
    Pdf,
    /// The specification itself, transcoded to Vega.
    Vega,
}

/// One of the eleven operations, with the parameters of its target form as
/// the caller gave them. An absent scale, pixel density or quality leaves
/// the choice to the engine.
#[derive(Debug, PartialEq, Eq)]
pub enum Operation {
    VegaToSvg,
    VegaToHtml { bundle: bool, renderer: String },
    VegaToPng { scale: Option<FloatBits>, ppi: Option<FloatBits> },
    VegaToJpeg { scale: Option<FloatBits>, quality: Option<u8> },
    VegaToPdf,
    VegaliteToSvg,
    VegaliteToHtml { bundle: bool, renderer: String },
    VegaliteToPng { scale: Option<FloatBits>, ppi: Option<FloatBits> },
    VegaliteToJpeg { scale: Option<FloatBits>, quality: Option<u8> },
    VegaliteToPdf,
    VegaliteToVega,
}

/// One call of an engine capability, ready to run: the parsed document, the
/// resolved options of its dialect and the validated parameters of its
/// target form.
#[derive(Debug, PartialEq)]
pub enum EngineCall {
    VegaToSvg { spec: serde_json::Value, vg_opts: VgOpts },
    VegaToHtml { spec: serde_json::Value, vg_opts: VgOpts, bundle: bool, renderer: Renderer },
    VegaToPng {
        spec: serde_json::Value,
        vg_opts: VgOpts,
        scale: Option<FloatBits>,
        ppi: Option<FloatBits>,
    },
    VegaToJpeg {
        spec: serde_json::Value,
        vg_opts: VgOpts,
        scale: Option<FloatBits>,
        quality: Option<u8>,
    },
    VegaToPdf { spec: serde_json::Value, vg_opts: VgOpts },
    VegaliteToSvg { spec: serde_json::Value, vl_opts: VlOpts },
    VegaliteToHtml { spec: serde_json::Value, vl_opts: VlOpts, bundle: bool, renderer: Renderer },
    VegaliteToPng {
        spec: serde_json::Value,
        vl_opts: VlOpts,
        scale: Option<FloatBits>,
        ppi: Option<FloatBits>,
    },
    VegaliteToJpeg {
        spec: serde_json::Value,
        vl_opts: VlOpts,
        scale: Option<FloatBits>,
        quality: Option<u8>,
    },
    VegaliteToPdf { spec: serde_json::Value, vl_opts: VlOpts },
    VegaliteToVega { spec: serde_json::Value, vl_opts: VlOpts },
}

impl Operation {
    /// The dialect of the specification this operation reads.
    pub open spec fn dialect(self) -> Dialect {
        match self {
            Operation::VegaToSvg
            | Operation::VegaToHtml { .. }
            | Operation::VegaToPng { .. }
            | Operation::VegaToJpeg { .. }
            | Operation::VegaToPdf => Dialect::Vega,
            _ => Dialect::VegaLite,
        }
    }

    /// The renderer identifier the caller gave, for the operations that
    /// take one.
    pub open spec fn renderer(self) -> Option<Seq<char>> {
        match self {
            Operation::VegaToHtml { renderer, .. } => Some(renderer@),
            Operation::VegaliteToHtml { renderer, .. } => Some(renderer@),
            _ => None,
        }
    }

    /// Whether the parameters are valid: a renderer identifier, where the
    /// operation takes one, is from the closed set.
    pub open spec fn accepted(self) -> bool {
        match self.renderer() {
            Some(identifier) => renderer_of(identifier) is Some,
            None => true,
        }
    }

    /// The form this operation produces.
    pub open spec fn form(self) -> TargetForm {
        match self {
            Operation::VegaToSvg | Operation::VegaliteToSvg => TargetForm::Svg,
            Operation::VegaToHtml { .. } | Operation::VegaliteToHtml { .. } => TargetForm::Html,
            Operation::VegaToPng { .. } | Operation::VegaliteToPng { .. } => TargetForm::Png,
            Operation::VegaToJpeg { .. } | Operation::VegaliteToJpeg { .. } => TargetForm::Jpeg,
            Operation::VegaToPdf | Operation::VegaliteToPdf => TargetForm::Pdf,
            Operation::VegaliteToVega => TargetForm::Vega,
        }
    }
}

impl EngineCall {
    /// The document handed to the engine.
    pub open spec fn document(self) -> serde_json::Value {
        match self {
            EngineCall::VegaToSvg { spec, .. } => spec,
            EngineCall::VegaToHtml { spec, .. } => spec,
            EngineCall::VegaToPng { spec, .. } => spec,
            EngineCall::VegaToJpeg { spec, .. } => spec,
            EngineCall::VegaToPdf { spec, .. } => spec,
            EngineCall::VegaliteToSvg { spec, .. } => spec,
            EngineCall::VegaliteToHtml { spec, .. } => spec,
            EngineCall::VegaliteToPng { spec, .. } => spec,
            EngineCall::VegaliteToJpeg { spec, .. } => spec,
            EngineCall::VegaliteToPdf { spec, .. } => spec,
            EngineCall::VegaliteToVega { spec, .. } => spec,
        }
    }

    /// The dialect of the capability that is called.
    pub open spec fn dialect(self) -> Dialect {
        match self {
            EngineCall::VegaToSvg { .. }
            | EngineCall::VegaToHtml { .. }
            | EngineCall::VegaToPng { .. }
            | EngineCall::VegaToJpeg { .. }
            | EngineCall::VegaToPdf { .. } => Dialect::Vega,
            _ => Dialect::VegaLite,
        }
    }

    /// The form the called capability produces.
    pub open spec fn form(self) -> TargetForm {
        match self {
            EngineCall::VegaToSvg { .. } | EngineCall::VegaliteToSvg { .. } => TargetForm::Svg,
            EngineCall::VegaToHtml { .. } | EngineCall::VegaliteToHtml { .. } => TargetForm::Html,
            EngineCall::VegaToPng { .. } | EngineCall::VegaliteToPng { .. } => TargetForm::Png,
            EngineCall::VegaToJpeg { .. } | EngineCall::VegaliteToJpeg { .. } => TargetForm::Jpeg,
            EngineCall::VegaToPdf { .. } | EngineCall::VegaliteToPdf { .. } => TargetForm::Pdf,
            EngineCall::VegaliteToVega { .. } => TargetForm::Vega,
        }
    }

    /// The grammar release the call supplies to the engine, if it supplies
    /// one.
    pub open spec fn vl_version(self) -> Option<VlVersion> {
        match self {
            EngineCall::VegaliteToSvg { vl_opts, .. } => Some(vl_opts.vl_version),
            EngineCall::VegaliteToHtml { vl_opts, .. } => Some(vl_opts.vl_version),
            EngineCall::VegaliteToPng { vl_opts, .. } => Some(vl_opts.vl_version),
            EngineCall::VegaliteToJpeg { vl_opts, .. } => Some(vl_opts.vl_version),
            EngineCall::VegaliteToPdf { vl_opts, .. } => Some(vl_opts.vl_version),
            EngineCall::VegaliteToVega { vl_opts, .. } => Some(vl_opts.vl_version),
            _ => None,
        }
    }
}

/// The engine call that serves `operation` on a parsed document, or the
/// error that the operation's parameters end in.
pub open spec fn dispatch_spec(operation: Operation, document: serde_json::Value) -> Result<
    EngineCall,
    ConvertError,
> {
    let vg = VgOpts {  };
    let vl = VlOpts { vl_version: pinned_vl_version() };
    match operation {
        Operation::VegaToSvg => Ok(EngineCall::VegaToSvg { spec: document, vg_opts: vg }),
        Operation::VegaToHtml { bundle, renderer } => match renderer_of(renderer@) {
            Some(renderer) => Ok(
                EngineCall::VegaToHtml { spec: document, vg_opts: vg, bundle, renderer },
            ),
            None => Err(ConvertError::InvalidParameter),
        },
        Operation::VegaToPng { scale, ppi } => Ok(
            EngineCall::VegaToPng { spec: document, vg_opts: vg, scale, ppi },
        ),
        Operation::VegaToJpeg { scale, quality } => Ok(
            EngineCall::VegaToJpeg { spec: document, vg_opts: vg, scale, quality },
        ),
        Operation::VegaToPdf => Ok(EngineCall::VegaToPdf { spec: document, vg_opts: vg }),
        Operation::VegaliteToSvg => Ok(EngineCall::VegaliteToSvg { spec: document, vl_opts: vl }),
        Operation::VegaliteToHtml { bundle, renderer } => match renderer_of(renderer@) {
            Some(renderer) => Ok(
                EngineCall::VegaliteToHtml { spec: document, vl_opts: vl, bundle, renderer },
            ),
            None => Err(ConvertError::InvalidParameter),
        },
        Operation::VegaliteToPng { scale, ppi } => Ok(
            EngineCall::VegaliteToPng { spec: document, vl_opts: vl, scale, ppi },
        ),
        Operation::VegaliteToJpeg { scale, quality } => Ok(
            EngineCall::VegaliteToJpeg { spec: document, vl_opts: vl, scale, quality },
        ),
        Operation::VegaliteToPdf => Ok(EngineCall::VegaliteToPdf { spec: document, vl_opts: vl }),
        Operation::VegaliteToVega => Ok(EngineCall::VegaliteToVega { spec: document, vl_opts: vl }),
    }
}

/// What a request comes to: a parse failure where the text is not
/// well-formed, else what [`dispatch_spec`] says of the parsed document.
pub open spec fn prepare_spec(operation: Operation, spec_text: Seq<char>) -> Result<
    EngineCall,
    ConvertError,
> {
    match json_document(spec_text) {
        Some(document) => dispatch_spec(operation, document),
        None => Err(ConvertError::Parse),
    }
}

/// Maps an operation on a parsed document to its engine call.
///
/// The document and the caller's parameters are forwarded as they are. The
/// options are those of the operation's dialect. The one parameter that is
/// validated is the renderer identifier of the HTML forms.
pub fn dispatch(operation: Operation, document: serde_json::Value) -> (call: Result<
    EngineCall,
    ConvertError,
>)
    ensures
        call == dispatch_spec(operation, document),
{
    match operation {
        Operation::VegaToSvg => Ok(EngineCall::VegaToSvg { spec: document, vg_opts: vg_opts() }),
        Operation::VegaToHtml { bundle, renderer } => {
            let renderer = parse_renderer(renderer.as_str())?;
            Ok(EngineCall::VegaToHtml { spec: document, vg_opts: vg_opts(), bundle, renderer })
        },
        Operation::VegaToPng { scale, ppi } => Ok(
            EngineCall::VegaToPng { spec: document, vg_opts: vg_opts(), scale, ppi },
        ),
        Operation::VegaToJpeg { scale, quality } => Ok(
            EngineCall::VegaToJpeg { spec: document, vg_opts: vg_opts(), scale, quality },
        ),
        Operation::VegaToPdf => Ok(EngineCall::VegaToPdf { spec: document, vg_opts: vg_opts() }),
        Operation::VegaliteToSvg => Ok(
            EngineCall::VegaliteToSvg { spec: document, vl_opts: vl_opts() },
        ),
        Operation::VegaliteToHtml { bundle, renderer } => {
            let renderer = parse_renderer(renderer.as_str())?;
            Ok(EngineCall::VegaliteToHtml { spec: document, vl_opts: vl_opts(), bundle, renderer })
        },
        Operation::VegaliteToPng { scale, ppi } => Ok(
            EngineCall::VegaliteToPng { spec: document, vl_opts: vl_opts(), scale, ppi },
        ),
        Operation::VegaliteToJpeg { scale, quality } => Ok(
            EngineCall::VegaliteToJpeg { spec: document, vl_opts: vl_opts(), scale, quality },
        ),
        Operation::VegaliteToPdf => Ok(
            EngineCall::VegaliteToPdf { spec: document, vl_opts: vl_opts() },
        ),
        Operation::VegaliteToVega => Ok(
            EngineCall::VegaliteToVega { spec: document, vl_opts: vl_opts() },
        ),
    }
}

/// Validates a request and names the engine call that serves it.
///
/// The text is parsed before anything else; a text that is not well-formed
/// ends the request in [`ConvertError::Parse`] whatever the parameters are.
pub fn prepare(operation: Operation, spec_text: String) -> (call: Result<EngineCall, ConvertError>)
    ensures
        call == prepare_spec(operation, spec_text@),
{
    let document = parse_spec(spec_text)?;
    dispatch(operation, document)
}

/// When a request succeeds. An engine call is named exactly for the requests
/// whose text is well-formed and whose parameters are valid; the text is
/// judged first, so a request that fails on both counts ends in
/// [`ConvertError::Parse`].
pub proof fn lemma_request_outcomes(operation: Operation, spec_text: Seq<char>)
    ensures
        prepare_spec(operation, spec_text) is Ok <==> json_document(spec_text) is Some
            && operation.accepted(),
        prepare_spec(operation, spec_text) == Err::<EngineCall, ConvertError>(ConvertError::Parse)
            <==> json_document(spec_text) is None,
        prepare_spec(operation, spec_text) == Err::<EngineCall, ConvertError>(
            ConvertError::InvalidParameter,
        ) <==> json_document(spec_text) is Some && !operation.accepted(),
{
}

/// Parse before engine. A text that is not well-formed never reaches the
/// engine: whatever the operation and its parameters, the request ends in
/// [`ConvertError::Parse`] and names no engine call.
pub proof fn lemma_parse_before_engine(operation: Operation, spec_text: Seq<char>)
    requires
        json_document(spec_text) is None,
    ensures
        prepare_spec(operation, spec_text) == Err::<EngineCall, ConvertError>(ConvertError::Parse),
{
}

/// Parameter validation. A renderer identifier outside the closed set never
/// reaches the engine: a request that carries one, with a text that is
/// well-formed, ends in [`ConvertError::InvalidParameter`] and names no
/// engine call.
pub proof fn lemma_unknown_renderer_is_refused(operation: Operation, spec_text: Seq<char>)
    requires
        operation.renderer() matches Some(identifier) && renderer_of(identifier) is None,
        json_document(spec_text) is Some,
    ensures
        prepare_spec(operation, spec_text) == Err::<EngineCall, ConvertError>(
            ConvertError::InvalidParameter,
        ),
{
}

/// Dialect correctness. Every engine call named for a Vega-Lite operation
/// supplies the pinned grammar release, and no engine call named for a Vega
/// operation supplies a release at all.
pub proof fn lemma_dialect_pin(operation: Operation, spec_text: Seq<char>)
    ensures
        prepare_spec(operation, spec_text) matches Ok(call) ==> call.vl_version() == (
        if operation.dialect() == Dialect::VegaLite {
            Some(pinned_vl_version())
        } else {
            None
        }),
{
}

/// Plain forwarding. The engine call named for a request is the capability
/// the operation stands for, on the document that was parsed from the text.
pub proof fn lemma_call_serves_the_request(operation: Operation, spec_text: Seq<char>)
    ensures
        prepare_spec(operation, spec_text) matches Ok(call) ==> {
            &&& call.dialect() == operation.dialect()
            &&& call.form() == operation.form()
            &&& json_document(spec_text) == Some(call.document())
        },
{
}

} // verus!
