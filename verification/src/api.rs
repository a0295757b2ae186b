//! The compute side of the request surface: building the response
//! values that callers receive, and deriving the safe file stem under
//! which a scraped page is saved.
//!
//! A title becomes a file stem by keeping only its alphanumeric
//! characters, spaces and dashes, trimming the remaining spaces at both
//! ends, and writing underscores for the spaces inside.

use vstd::prelude::*;
use vstd::string::StrSliceExecFns;
use vstd::string::StringExecFns;

use crate::types::{
    ErrorKind, ErrorResponse, ExtractionResult, ScrapeError, ScrapeRequest, ScrapeResponse,
};

verus! {

/// Whether a character counts as alphanumeric. The classification is a
/// pure function of the character; its definition (the Unicode
/// categories involved) lives in the standard library.
pub uninterp spec fn is_alnum_char(c: char) -> bool;

/// Relies on char::is_alphanumeric: whether the character is Unicode
/// alphabetic or numeric, a pure function of the character alone.
#[verifier::external_body]
fn char_is_alphanumeric(c: char) -> (r: bool)
    ensures
        r == is_alnum_char(c),
{
    c.is_alphanumeric()
}

/// Relies on String::push: appends exactly the given character.
#[verifier::external_body]
fn push_char(s: &mut String, c: char)
    ensures
        final(s)@ == old(s)@.push(c),
{
    s.push(c)
}

/// The characters a title keeps on its way to a file stem.
pub open spec fn spec_file_char_kept(c: char) -> bool {
    is_alnum_char(c) || c == ' ' || c == '-'
}

/// A title with everything but alphanumerics, spaces and dashes
/// removed.
pub open spec fn spec_kept_chars(s: Seq<char>) -> Seq<char> {
    s.filter(|c: char| spec_file_char_kept(c))
}

/// A sequence with its leading and trailing spaces removed.
pub open spec fn spec_trim_spaces(s: Seq<char>) -> Seq<char>
    decreases s.len(),
{
    if s.len() > 0 && s.first() == ' ' {
        spec_trim_spaces(s.drop_first())
    } else if s.len() > 0 && s.last() == ' ' {
        spec_trim_spaces(s.drop_last())
    } else {
        s
    }
}

/// A sequence with every space written as an underscore.
pub open spec fn spec_underscored(s: Seq<char>) -> Seq<char> {
    s.map_values(
        |c: char|
            if c == ' ' {
                '_'
            } else {
                c
            },
    )
}

/// The safe file stem of a title.
pub open spec fn spec_safe_stem(title: Seq<char>) -> Seq<char> {
    spec_underscored(spec_trim_spaces(spec_kept_chars(title)))
}

fn trim_spaces_vec(v: Vec<char>) -> (r: Vec<char>)
    ensures
        r@ == spec_trim_spaces(v@),
    decreases v@.len(),
{
    let ghost v0 = v@;
    if v.len() > 0 && v[0] == ' ' {
        let mut w = v;
        w.remove(0);
        proof {
            assert(w@ =~= v0.drop_first());
        }
        trim_spaces_vec(w)
    } else if v.len() > 0 && v[v.len() - 1] == ' ' {
        let mut w = v;
        w.pop();
        proof {
            assert(w@ =~= v0.drop_last());
        }
        trim_spaces_vec(w)
    } else {
        v
    }
}

/// The safe file stem of a title: only alphanumerics, spaces and dashes
/// are kept, the spaces at both ends go, and the spaces inside become
/// underscores.
pub fn safe_file_stem(title: &str) -> (r: String)
    ensures
        r@ == spec_safe_stem(title@),
{
    let n = title.unicode_len();
    let mut kept: Vec<char> = Vec::new();
    let mut i: usize = 0;
    proof {
        reveal(Seq::filter);
        assert(title@.subrange(0, 0) =~= Seq::<char>::empty());
        assert(kept@ =~= spec_kept_chars(title@.subrange(0, 0)));
    }
    while i < n
        invariant
            n == title@.len(),
            0 <= i <= n,
            kept@ == spec_kept_chars(title@.subrange(0, i as int)),
        decreases n - i,
    {
        let c = title.get_char(i);
        proof {
            reveal(Seq::filter);
            let prefix = title@.subrange(0, i as int);
            let next = title@.subrange(0, i as int + 1);
            assert(next.drop_last() =~= prefix);
            assert(next.last() == c);
        }
        if char_is_alphanumeric(c) || c == ' ' || c == '-' {
            kept.push(c);
        }
        i = i + 1;
    }
    proof {
        assert(title@.subrange(0, n as int) =~= title@);
    }
    let trimmed = trim_spaces_vec(kept);
    let m = trimmed.len();
    let mut out = String::new();
    let mut j: usize = 0;
    while j < m
        invariant
            m == trimmed@.len(),
            0 <= j <= m,
            out@ =~= spec_underscored(trimmed@.subrange(0, j as int)),
        decreases m - j,
    {
        let c = trimmed[j];
        if c == ' ' {
            push_char(&mut out, '_');
        } else {
            push_char(&mut out, c);
        }
        proof {
            let prefix = trimmed@.subrange(0, j as int);
            let next = trimmed@.subrange(0, j as int + 1);
            assert(out@ =~= spec_underscored(next));
        }
        j = j + 1;
    }
    proof {
        assert(trimmed@.subrange(0, m as int) =~= trimmed@);
    }
    out
}

/// The path under which a raw-mode result is saved.
pub fn raw_output_path(title: &str) -> (r: String)
    ensures
        r@ == "outputs/"@ + spec_safe_stem(title@) + ".md"@,
{
    let stem = safe_file_stem(title);
    String::from_str("outputs/").concat(stem.as_str()).concat(".md")
}

/// The markdown path under which a readable-mode result is saved.
pub fn readable_md_path(title: &str) -> (r: String)
    ensures
        r@ == "outputs/"@ + spec_safe_stem(title@) + "_readable.md"@,
{
    let stem = safe_file_stem(title);
    String::from_str("outputs/").concat(stem.as_str()).concat("_readable.md")
}

/// The HTML path under which a readable-mode result is saved.
pub fn readable_html_path(title: &str) -> (r: String)
    ensures
        r@ == "outputs/"@ + spec_safe_stem(title@) + "_readable.html"@,
{
    let stem = safe_file_stem(title);
    String::from_str("outputs/").concat(stem.as_str()).concat("_readable.html")
}

/// The human-readable prefix of each failure kind.
pub open spec fn spec_kind_prefix(kind: ErrorKind) -> Seq<char> {
    match kind {
        ErrorKind::EngineUnavailable => "engine unavailable: "@,
        ErrorKind::SessionCreationFailed => "session creation failed: "@,
        ErrorKind::NavigationFailed => "navigation failed: "@,
        ErrorKind::Timeout => "timed out: "@,
        ErrorKind::EvaluationFailed => "evaluation failed: "@,
    }
}

impl ScrapeError {
    /// The human-readable cause of this failure: its kind's prefix
    /// followed by the detail text.
    pub fn message(&self) -> (r: String)
        ensures
            r@ == spec_kind_prefix(self@.kind) + self@.detail,
    {
        let prefix = match self.kind {
            ErrorKind::EngineUnavailable => "engine unavailable: ",
            ErrorKind::SessionCreationFailed => "session creation failed: ",
            ErrorKind::NavigationFailed => "navigation failed: ",
            ErrorKind::Timeout => "timed out: ",
            ErrorKind::EvaluationFailed => "evaluation failed: ",
        };
        String::from_str(prefix).concat(self.detail.as_str())
    }
}

/// The response returned to a caller when the pipeline succeeded.
pub fn success_response(request: ScrapeRequest, result: ExtractionResult) -> (r: ScrapeResponse)
    ensures
        r.url@ == request.url@,
        r.title@ == result.title@,
        r.markdown@ == result.markdown@,
{
    ScrapeResponse { url: request.url, title: result.title, markdown: result.markdown }
}

/// The response returned to a caller when the pipeline failed.
pub fn error_response(error: &ScrapeError) -> (r: ErrorResponse)
    ensures
        r.error@ == spec_kind_prefix(error@.kind) + error@.detail,
{
    ErrorResponse { error: error.message() }
}

} // verus!
