//! The option resolvers: what every call of a dialect hands to the engine
//! besides the document, and the reading of the one parameter that comes
//! from a closed set.

use vstd::prelude::*;
use crate::error::ConvertError;

verus! {

/// A release of the Vega-Lite grammar that calls are pinned to.
#[derive(Clone, Copy, Debug, PartialEq, Eq)]
pub enum VlVersion {
    /// Vega-Lite 5.20.
    V5_20,
}

/// The options of a call whose source is a Vega specification: the engine's
/// defaults, with nothing overridden. There is no grammar version to pin.
#[derive(Clone, Copy, Debug, PartialEq, Eq)]
pub struct VgOpts {}

/// The options of a call whose source is a Vega-Lite specification: the
/// engine's defaults, and the grammar release that compiles the document.
#[derive(Clone, Copy, Debug, PartialEq, Eq)]
pub struct VlOpts {
    pub vl_version: VlVersion,
}

/// How the engine draws the marks of an HTML document.
#[derive(Clone, Copy, Debug, PartialEq, Eq)]
pub enum Renderer {
    Svg,
    Canvas,
    Hybrid,
}

/// A single-precision number, held as the 32 bits of its IEEE 754 encoding.
///
/// Scale factors and pixel densities pass through the gateway untouched, so
/// it keeps the exact bits the caller gave.
#[derive(Clone, Copy, Debug, PartialEq, Eq)]
pub struct FloatBits {
    pub bits: u32,
}

/// The grammar release every Vega-Lite call is pinned to.
pub open spec fn pinned_vl_version() -> VlVersion {
    VlVersion::V5_20
}

/// The options of every Vega-sourced call.
pub fn vg_opts() -> (opts: VgOpts)
    ensures
        opts == (VgOpts {  }),
{
    VgOpts {  }
}

/// The options of every Vega-Lite-sourced call: the defaults and the pinned
/// grammar release.
pub fn vl_opts() -> (opts: VlOpts)
    ensures
        opts == (VlOpts { vl_version: pinned_vl_version() }),
{
    VlOpts { vl_version: VlVersion::V5_20 }
}

/// A character with the upper-case ASCII letters mapped to lower case and
/// every other character left alone.
pub open spec fn ascii_lower(c: char) -> char {
    if 'A' <= c <= 'Z' {
        ((c as u32) + 32) as char
    } else {
        c
    }
}

/// A text with each of its characters mapped by [`ascii_lower`].
pub open spec fn ascii_lowercase(text: Seq<char>) -> Seq<char> {
    text.map_values(|c: char| ascii_lower(c))
}

/// The renderer an identifier stands for. The identifiers are `svg`,
/// `canvas` and `hybrid`, in any mix of upper and lower case; every other
/// text stands for none.
pub open spec fn renderer_of(identifier: Seq<char>) -> Option<Renderer> {
    let folded = ascii_lowercase(identifier);
    if folded == "svg"@ {
        Some(Renderer::Svg)
    } else if folded == "canvas"@ {
        Some(Renderer::Canvas)
    } else if folded == "hybrid"@ {
        Some(Renderer::Hybrid)
    } else {
        None
    }
}

fn to_ascii_lower(c: char) -> (lower: char)
    ensures
        lower == ascii_lower(c),
{
    if 'A' <= c && c <= 'Z' {
        ((c as u8) + 32) as char
    } else {
        c
    }
}

/// Whether `text`, with its ASCII letters in lower case, reads `word`.
fn reads_as(text: &str, word: &str) -> (same: bool)
    ensures
        same == (ascii_lowercase(text@) == word@),
{
    let n: usize = word.unicode_len();
    if text.unicode_len() != n {
        return false;
    }
    let mut i: usize = 0;
    while i < n
        invariant
            n == word@.len(),
            n == text@.len(),
            i <= n,
            forall|j: int| 0 <= j < i ==> ascii_lower(text@[j]) == word@[j],
        decreases n - i,
    {
        if to_ascii_lower(text.get_char(i)) != word.get_char(i) {
            assert(ascii_lowercase(text@)[i as int] != word@[i as int]);
            return false;
        }
        i += 1;
    }
    assert(ascii_lowercase(text@) =~= word@);
    true
}

/// Reads a renderer identifier. One outside the closed set is refused with
/// [`ConvertError::InvalidParameter`].
pub fn parse_renderer(identifier: &str) -> (parsed: Result<Renderer, ConvertError>)
    ensures
        match renderer_of(identifier@) {
            Some(renderer) => parsed == Ok::<Renderer, ConvertError>(renderer),
            None => parsed == Err::<Renderer, ConvertError>(ConvertError::InvalidParameter),
        },
{
    if reads_as(identifier, "svg") {
        Ok(Renderer::Svg)
    } else if reads_as(identifier, "canvas") {
        Ok(Renderer::Canvas)
    } else if reads_as(identifier, "hybrid") {
        Ok(Renderer::Hybrid)
    } else {
        Err(ConvertError::InvalidParameter)
    }
}

} // verus!
