//! The eleven boundary operations, each addressable on its own.
//!
//! Every one of them takes the text of a specification and the parameters
//! of its target form, and answers with the engine call to run or with the
//! error that ends the request. What they decide is written down once, in
//! [`prepare_spec`].

use vstd::prelude::*;
use crate::dispatch::{prepare, prepare_spec, EngineCall, Operation};
use crate::error::ConvertError;
use crate::options::FloatBits;

verus! {

/// Vega to SVG markup.
pub fn vega_to_svg(vega_spec: String) -> (call: Result<EngineCall, ConvertError>)
    ensures
        call == prepare_spec(Operation::VegaToSvg, vega_spec@),
{
    prepare(Operation::VegaToSvg, vega_spec)
}

/// Vega to an HTML document. `bundle` asks for a document that carries its
/// scripts with it; `renderer` names how the marks are drawn.
pub fn vega_to_html(vega_spec: String, bundle: bool, renderer: String) -> (call: Result<
    EngineCall,
    ConvertError,
>)
    ensures
        call == prepare_spec((Operation::VegaToHtml { bundle, renderer }), vega_spec@),
{
    prepare(Operation::VegaToHtml { bundle, renderer }, vega_spec)
}

/// Vega to a PNG image, at a scale factor and a pixel density.
pub fn vega_to_png(vega_spec: String, scale: Option<FloatBits>, ppi: Option<FloatBits>) -> (call:
    Result<EngineCall, ConvertError>)
    ensures
        call == prepare_spec((Operation::VegaToPng { scale, ppi }), vega_spec@),
{
    prepare(Operation::VegaToPng { scale, ppi }, vega_spec)
}

/// Vega to a JPEG image, at a scale factor and a quality from 0 to 100.
pub fn vega_to_jpeg(vega_spec: String, scale: Option<FloatBits>, quality: Option<u8>) -> (call:
    Result<EngineCall, ConvertError>)
    ensures
        call == prepare_spec((Operation::VegaToJpeg { scale, quality }), vega_spec@),
{
    prepare(Operation::VegaToJpeg { scale, quality }, vega_spec)
}

/// Vega to a PDF document.
pub fn vega_to_pdf(vega_spec: String) -> (call: Result<EngineCall, ConvertError>)
    ensures
        call == prepare_spec(Operation::VegaToPdf, vega_spec@),
{
    prepare(Operation::VegaToPdf, vega_spec)
}

/// Vega-Lite to SVG markup.
pub fn vegalite_to_svg(vega_lite_spec: String) -> (call: Result<EngineCall, ConvertError>)
    ensures
        call == prepare_spec(Operation::VegaliteToSvg, vega_lite_spec@),
{
    prepare(Operation::VegaliteToSvg, vega_lite_spec)
}

/// Vega-Lite to an HTML document. `bundle` asks for a document that carries
/// its scripts with it; `renderer` names how the marks are drawn.
pub fn vegalite_to_html(vega_lite_spec: String, bundle: bool, renderer: String) -> (call: Result<
    EngineCall,
    ConvertError,
>)
    ensures
        call == prepare_spec((Operation::VegaliteToHtml { bundle, renderer }), vega_lite_spec@),
{
    prepare(Operation::VegaliteToHtml { bundle, renderer }, vega_lite_spec)
}

/// Vega-Lite to a PNG image, at a scale factor and a pixel density.
pub fn vegalite_to_png(
    vega_lite_spec: String,
    scale: Option<FloatBits>,
    ppi: Option<FloatBits>,
) -> (call: Result<EngineCall, ConvertError>)
    ensures
        call == prepare_spec((Operation::VegaliteToPng { scale, ppi }), vega_lite_spec@),
{
    prepare(Operation::VegaliteToPng { scale, ppi }, vega_lite_spec)
}

/// Vega-Lite to a JPEG image, at a scale factor and a quality from 0 to 100.
pub fn vegalite_to_jpeg(
    vega_lite_spec: String,
    scale: Option<FloatBits>,
    quality: Option<u8>,
) -> (call: Result<EngineCall, ConvertError>)
    ensures
        call == prepare_spec((Operation::VegaliteToJpeg { scale, quality }), vega_lite_spec@),
{
    prepare(Operation::VegaliteToJpeg { scale, quality }, vega_lite_spec)
}

/// Vega-Lite to a PDF document.
pub fn vegalite_to_pdf(vega_lite_spec: String) -> (call: Result<EngineCall, ConvertError>)
    ensures
        call == prepare_spec(Operation::VegaliteToPdf, vega_lite_spec@),
{
    prepare(Operation::VegaliteToPdf, vega_lite_spec)
}

/// Vega-Lite to the text of the Vega specification it compiles to.
pub fn vegalite_to_vega(vega_lite_spec: String) -> (call: Result<EngineCall, ConvertError>)
    ensures
        call == prepare_spec(Operation::VegaliteToVega, vega_lite_spec@),
{
    prepare(Operation::VegaliteToVega, vega_lite_spec)
}

} // verus!
