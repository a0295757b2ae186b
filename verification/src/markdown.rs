//! Markdown conversion: a pure HTML-to-Markdown transform supplied by an
//! outside converter.

use vstd::prelude::*;

verus! {

/// The markdown rendering of an HTML document. The conversion is a pure
/// function of the input text; its full definition lives in the outside
/// converter and is not restated here.
pub uninterp spec fn markdown_of(html: Seq<char>) -> Seq<char>;

/// Relies on html2md::parse_html: a pure, deterministic HTML-to-Markdown
/// transform whose result depends on the input text alone, and which
/// turns the empty document into the empty string.
#[verifier::external_body]
pub fn to_markdown(html: &str) -> (r: String)
    ensures
        r@ == markdown_of(html@),
        html@.len() == 0 ==> r@.len() == 0,
{
    html2md::parse_html(html)
}

} // verus!
