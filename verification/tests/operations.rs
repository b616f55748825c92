use ex_vl_convert::dispatch::{dispatch, prepare, EngineCall, Operation};
use ex_vl_convert::error::ConvertError;
use ex_vl_convert::operations::{
    vega_to_html, vega_to_jpeg, vega_to_pdf, vega_to_png, vega_to_svg, vegalite_to_html,
    vegalite_to_jpeg, vegalite_to_pdf, vegalite_to_png, vegalite_to_svg, vegalite_to_vega,
};
use ex_vl_convert::options::{FloatBits, Renderer, VgOpts, VlOpts, VlVersion};
use ex_vl_convert::outcome::{encode_document_result, encode_string_result};
use serde_json::{Number, Value};

const TEXT: &str = "{\"mark\": \"bar\", \"width\": 200}";

fn document() -> Value {
    let mut document = serde_json::Map::new();
    document.insert("mark".to_string(), Value::String("bar".to_string()));
    document.insert("width".to_string(), Value::Number(Number::from(200)));
    Value::Object(document)
}

fn vg() -> VgOpts {
    VgOpts {}
}

fn vl() -> VlOpts {
    VlOpts { vl_version: VlVersion::V5_20 }
}

fn bits(value: f32) -> Option<FloatBits> {
    Some(FloatBits { bits: value.to_bits() })
}

fn pin_of(call: &EngineCall) -> Option<VlVersion> {
    match call {
        EngineCall::VegaToSvg { .. }
        | EngineCall::VegaToHtml { .. }
        | EngineCall::VegaToPng { .. }
        | EngineCall::VegaToJpeg { .. }
        | EngineCall::VegaToPdf { .. } => None,
        EngineCall::VegaliteToSvg { vl_opts, .. }
        | EngineCall::VegaliteToHtml { vl_opts, .. }
        | EngineCall::VegaliteToPng { vl_opts, .. }
        | EngineCall::VegaliteToJpeg { vl_opts, .. }
        | EngineCall::VegaliteToPdf { vl_opts, .. }
        | EngineCall::VegaliteToVega { vl_opts, .. } => Some(vl_opts.vl_version),
    }
}

fn all_requests(renderer: &str) -> Vec<(Operation, bool)> {
    vec![
        (Operation::VegaToSvg, false),
        (Operation::VegaToHtml { bundle: true, renderer: renderer.to_string() }, false),
        (Operation::VegaToPng { scale: bits(1.0), ppi: bits(72.0) }, false),
        (Operation::VegaToJpeg { scale: bits(1.0), quality: Some(90) }, false),
        (Operation::VegaToPdf, false),
        (Operation::VegaliteToSvg, true),
        (Operation::VegaliteToHtml { bundle: true, renderer: renderer.to_string() }, true),
        (Operation::VegaliteToPng { scale: bits(1.0), ppi: bits(72.0) }, true),
        (Operation::VegaliteToJpeg { scale: bits(1.0), quality: Some(90) }, true),
        (Operation::VegaliteToPdf, true),
        (Operation::VegaliteToVega, true),
    ]
}

#[test]
fn vega_to_svg_names_its_call() {
    assert_eq!(
        vega_to_svg(TEXT.to_string()),
        Ok(EngineCall::VegaToSvg { spec: document(), vg_opts: vg() })
    );
}

#[test]
fn vega_to_html_names_its_call() {
    assert_eq!(
        vega_to_html(TEXT.to_string(), true, "canvas".to_string()),
        Ok(EngineCall::VegaToHtml {
            spec: document(),
            vg_opts: vg(),
            bundle: true,
            renderer: Renderer::Canvas,
        })
    );
    assert_eq!(
        vega_to_html(TEXT.to_string(), false, "svg".to_string()),
        Ok(EngineCall::VegaToHtml {
            spec: document(),
            vg_opts: vg(),
            bundle: false,
            renderer: Renderer::Svg,
        })
    );
}

#[test]
fn vega_to_png_names_its_call() {
    assert_eq!(
        vega_to_png(TEXT.to_string(), bits(2.0), bits(144.0)),
        Ok(EngineCall::VegaToPng {
            spec: document(),
            vg_opts: vg(),
            scale: Some(FloatBits { bits: 0x4000_0000 }),
            ppi: Some(FloatBits { bits: 0x4310_0000 }),
        })
    );
}

#[test]
fn vega_to_jpeg_names_its_call() {
    assert_eq!(
        vega_to_jpeg(TEXT.to_string(), bits(1.5), Some(80)),
        Ok(EngineCall::VegaToJpeg {
            spec: document(),
            vg_opts: vg(),
            scale: Some(FloatBits { bits: 0x3fc0_0000 }),
            quality: Some(80),
        })
    );
}

#[test]
fn vega_to_pdf_names_its_call() {
    assert_eq!(
        vega_to_pdf(TEXT.to_string()),
        Ok(EngineCall::VegaToPdf { spec: document(), vg_opts: vg() })
    );
}

#[test]
fn vegalite_to_svg_names_its_call() {
    assert_eq!(
        vegalite_to_svg(TEXT.to_string()),
        Ok(EngineCall::VegaliteToSvg { spec: document(), vl_opts: vl() })
    );
}

#[test]
fn vegalite_to_html_names_its_call() {
    assert_eq!(
        vegalite_to_html(TEXT.to_string(), false, "hybrid".to_string()),
        Ok(EngineCall::VegaliteToHtml {
            spec: document(),
            vl_opts: vl(),
            bundle: false,
            renderer: Renderer::Hybrid,
        })
    );
}

#[test]
fn vegalite_to_png_names_its_call() {
    assert_eq!(
        vegalite_to_png(TEXT.to_string(), bits(0.5), bits(300.0)),
        Ok(EngineCall::VegaliteToPng {
            spec: document(),
            vl_opts: vl(),
            scale: Some(FloatBits { bits: 0x3f00_0000 }),
            ppi: Some(FloatBits { bits: 0x4396_0000 }),
        })
    );
}

#[test]
fn vegalite_to_jpeg_names_its_call() {
    assert_eq!(
        vegalite_to_jpeg(TEXT.to_string(), bits(1.0), Some(100)),
        Ok(EngineCall::VegaliteToJpeg {
            spec: document(),
            vl_opts: vl(),
            scale: Some(FloatBits { bits: 0x3f80_0000 }),
            quality: Some(100),
        })
    );
}

#[test]
fn vegalite_to_pdf_names_its_call() {
    assert_eq!(
        vegalite_to_pdf(TEXT.to_string()),
        Ok(EngineCall::VegaliteToPdf { spec: document(), vl_opts: vl() })
    );
}

#[test]
fn vegalite_to_vega_names_its_call() {
    assert_eq!(
        vegalite_to_vega(TEXT.to_string()),
        Ok(EngineCall::VegaliteToVega { spec: document(), vl_opts: vl() })
    );
}

#[test]
fn absent_parameters_are_left_to_the_engine() {
    assert_eq!(
        vega_to_png(TEXT.to_string(), None, None),
        Ok(EngineCall::VegaToPng { spec: document(), vg_opts: vg(), scale: None, ppi: None })
    );
    assert_eq!(
        vegalite_to_png(TEXT.to_string(), bits(3.0), None),
        Ok(EngineCall::VegaliteToPng {
            spec: document(),
            vl_opts: vl(),
            scale: Some(FloatBits { bits: 0x4040_0000 }),
            ppi: None,
        })
    );
    assert_eq!(
        vega_to_jpeg(TEXT.to_string(), None, None),
        Ok(EngineCall::VegaToJpeg { spec: document(), vg_opts: vg(), scale: None, quality: None })
    );
    assert_eq!(
        vegalite_to_jpeg(TEXT.to_string(), None, Some(0)),
        Ok(EngineCall::VegaliteToJpeg {
            spec: document(),
            vl_opts: vl(),
            scale: None,
            quality: Some(0),
        })
    );
}

#[test]
fn parameters_are_forwarded_unchanged() {
    let odd = Some(FloatBits { bits: 0x7fc0_0001 });
    let negative_zero = Some(FloatBits { bits: 0x8000_0000 });
    assert_eq!(
        vega_to_png(TEXT.to_string(), odd, negative_zero),
        Ok(EngineCall::VegaToPng { spec: document(), vg_opts: vg(), scale: odd, ppi: negative_zero })
    );
    assert_eq!(
        vega_to_jpeg(TEXT.to_string(), negative_zero, Some(255)),
        Ok(EngineCall::VegaToJpeg {
            spec: document(),
            vg_opts: vg(),
            scale: negative_zero,
            quality: Some(255),
        })
    );
}

#[test]
fn malformed_text_never_names_an_engine_call() {
    for text in ["{", "", "{\"mark\": }", "[1, 2", "mark: bar"] {
        assert_eq!(vega_to_svg(text.to_string()), Err(ConvertError::Parse));
        assert_eq!(
            vega_to_html(text.to_string(), true, "svg".to_string()),
            Err(ConvertError::Parse)
        );
        assert_eq!(vega_to_png(text.to_string(), bits(1.0), bits(72.0)), Err(ConvertError::Parse));
        assert_eq!(vega_to_jpeg(text.to_string(), bits(1.0), Some(90)), Err(ConvertError::Parse));
        assert_eq!(vega_to_pdf(text.to_string()), Err(ConvertError::Parse));
        assert_eq!(vegalite_to_svg(text.to_string()), Err(ConvertError::Parse));
        assert_eq!(
            vegalite_to_html(text.to_string(), true, "svg".to_string()),
            Err(ConvertError::Parse)
        );
        assert_eq!(
            vegalite_to_png(text.to_string(), bits(1.0), bits(72.0)),
            Err(ConvertError::Parse)
        );
        assert_eq!(
            vegalite_to_jpeg(text.to_string(), bits(1.0), Some(90)),
            Err(ConvertError::Parse)
        );
        assert_eq!(vegalite_to_pdf(text.to_string()), Err(ConvertError::Parse));
        assert_eq!(vegalite_to_vega(text.to_string()), Err(ConvertError::Parse));
    }
}

#[test]
fn every_operation_rejects_malformed_text_through_prepare() {
    for (operation, _) in all_requests("svg") {
        assert_eq!(prepare(operation, "{\"mark\"".to_string()), Err(ConvertError::Parse));
    }
}

#[test]
fn unknown_renderer_never_names_an_engine_call() {
    assert_eq!(
        vega_to_html(TEXT.to_string(), true, "webgl".to_string()),
        Err(ConvertError::InvalidParameter)
    );
    assert_eq!(
        vegalite_to_html(TEXT.to_string(), false, "".to_string()),
        Err(ConvertError::InvalidParameter)
    );
    let error = vega_to_html(TEXT.to_string(), true, "webgl".to_string()).unwrap_err();
    assert_eq!(error.message(), "Invalid renderer provided");
}

#[test]
fn the_text_is_checked_before_the_renderer() {
    assert_eq!(
        vega_to_html("{".to_string(), true, "webgl".to_string()),
        Err(ConvertError::Parse)
    );
    assert_eq!(
        vegalite_to_html("{".to_string(), true, "webgl".to_string()),
        Err(ConvertError::Parse)
    );
}

#[test]
fn renderer_identifiers_are_read_in_any_case() {
    assert_eq!(
        vega_to_html(TEXT.to_string(), true, "SVG".to_string()),
        Ok(EngineCall::VegaToHtml {
            spec: document(),
            vg_opts: vg(),
            bundle: true,
            renderer: Renderer::Svg,
        })
    );
}

#[test]
fn vega_lite_calls_carry_the_pin_and_vega_calls_carry_none() {
    for (operation, from_vega_lite) in all_requests("canvas") {
        let call = prepare(operation, TEXT.to_string()).unwrap();
        if from_vega_lite {
            assert_eq!(pin_of(&call), Some(VlVersion::V5_20));
        } else {
            assert_eq!(pin_of(&call), None);
        }
    }
}

#[test]
fn dispatch_forwards_the_document_it_is_given() {
    let given = Value::Array(vec![Value::Null, Value::Bool(true)]);
    assert_eq!(
        dispatch(Operation::VegaliteToVega, given.clone()),
        Ok(EngineCall::VegaliteToVega { spec: given.clone(), vl_opts: vl() })
    );
    assert_eq!(
        dispatch(Operation::VegaToPdf, given.clone()),
        Ok(EngineCall::VegaToPdf { spec: given.clone(), vg_opts: vg() })
    );
    assert_eq!(
        dispatch(
            Operation::VegaToHtml { bundle: true, renderer: "none".to_string() },
            given.clone()
        ),
        Err(ConvertError::InvalidParameter)
    );
    assert_eq!(
        dispatch(Operation::VegaliteToHtml { bundle: true, renderer: "Hybrid".to_string() }, given.clone()),
        Ok(EngineCall::VegaliteToHtml {
            spec: given,
            vl_opts: vl(),
            bundle: true,
            renderer: Renderer::Hybrid,
        })
    );
}

#[test]
fn prepare_agrees_with_the_named_operations() {
    assert_eq!(prepare(Operation::VegaToSvg, TEXT.to_string()), vega_to_svg(TEXT.to_string()));
    assert_eq!(
        prepare(
            Operation::VegaliteToJpeg { scale: bits(2.0), quality: Some(50) },
            TEXT.to_string()
        ),
        vegalite_to_jpeg(TEXT.to_string(), bits(2.0), Some(50))
    );
    assert_eq!(
        prepare(
            Operation::VegaToHtml { bundle: false, renderer: "bad".to_string() },
            TEXT.to_string()
        ),
        vega_to_html(TEXT.to_string(), false, "bad".to_string())
    );
}

#[test]
fn a_transcoded_document_is_accepted_as_a_vega_specification() {
    let request = vegalite_to_vega("{\"mark\": \"bar\"}".to_string());
    assert!(matches!(request, Ok(EngineCall::VegaliteToVega { .. })));

    let mut scale = serde_json::Map::new();
    scale.insert("name".to_string(), Value::String("x".to_string()));
    let mut vega = serde_json::Map::new();
    vega.insert(
        "$schema".to_string(),
        Value::String("https://vega.github.io/schema/vega/v5.json".to_string()),
    );
    vega.insert("scales".to_string(), Value::Array(vec![Value::Object(scale)]));
    vega.insert("padding".to_string(), Value::Number(Number::from(5)));
    let transcoded = Value::Object(vega);

    let vega_text = encode_document_result(Ok(transcoded.clone())).unwrap();
    assert!(!vega_text.is_empty());
    assert_eq!(
        vega_to_svg(vega_text),
        Ok(EngineCall::VegaToSvg { spec: transcoded, vg_opts: vg() })
    );

    let markup = encode_string_result(Ok("<svg></svg>".to_string())).unwrap();
    assert!(!markup.is_empty());
}
