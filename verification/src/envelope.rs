//! The extraction envelope: the structured result that the in-page
//! extraction script returns across the evaluation boundary, serialized
//! as JSON text, and the decoder that turns that text back into a value.

use vstd::prelude::*;

verus! {

/// The structured result of the extraction stage. `content` is the
/// article HTML and may be empty; by construction of the in-page script,
/// it is empty only when `error` is present or the page has no
/// extractable article.
pub struct ExtractionEnvelope {
    pub title: String,
    pub content: String,
    pub text_content: String,
    pub excerpt: String,
    pub error: Option<String>,
}

/// The mathematical model of an envelope.
pub struct EnvelopeModel {
    pub title: Seq<char>,
    pub content: Seq<char>,
    pub text_content: Seq<char>,
    pub excerpt: Seq<char>,
    pub error: Option<Seq<char>>,
}

impl View for ExtractionEnvelope {
    type V = EnvelopeModel;

    open spec fn view(&self) -> EnvelopeModel {
        EnvelopeModel {
            title: self.title@,
            content: self.content@,
            text_content: self.text_content@,
            excerpt: self.excerpt@,
            error: match self.error {
                Some(ref e) => Some(e@),
                None => None,
            },
        }
    }
}

/// The envelope that stands in for a missing or malformed serialization:
/// every text field empty and no diagnostic.
pub open spec fn spec_empty_envelope() -> EnvelopeModel {
    EnvelopeModel {
        title: Seq::<char>::empty(),
        content: Seq::<char>::empty(),
        text_content: Seq::<char>::empty(),
        excerpt: Seq::<char>::empty(),
        error: None,
    }
}

/// The five envelope fields as the JSON decoder reads them out of the
/// serialized text: `None` overall when the text is not valid JSON, and
/// `None` per field when the field is absent or not a JSON string, in
/// the order title, content, textContent, excerpt, error. The decoding
/// is a pure function of the text; its definition lives in the outside
/// JSON parser.
pub uninterp spec fn envelope_fields_of(s: Seq<char>) -> Option<
    (Option<Seq<char>>, Option<Seq<char>>, Option<Seq<char>>, Option<Seq<char>>, Option<Seq<char>>),
>;

/// Relies on serde_json::from_str together with serde_json::Value::get
/// and serde_json::Value::as_str: parsing is a pure function of the
/// input text, `get` returns the named member of a JSON object (None on
/// a non-object or a missing member), and `as_str` returns the text of a
/// JSON string (None on any other value).
#[verifier::external_body]
fn decode_envelope_fields(s: &str) -> (r: Option<
    (Option<String>, Option<String>, Option<String>, Option<String>, Option<String>),
>)
    ensures
        r.deep_view() == envelope_fields_of(s@),
{
    let v: serde_json::Value = match serde_json::from_str(s) {
        Ok(v) => v,
        Err(_) => return None,
    };
    let f = |k: &str| v.get(k).and_then(|x| x.as_str()).map(|x| x.to_string());
    Some((f("title"), f("content"), f("textContent"), f("excerpt"), f("error")))
}

/// A decoded field, defaulted to the empty string where absent.
pub open spec fn spec_or_empty(f: Option<Seq<char>>) -> Seq<char> {
    match f {
        Some(s) => s,
        None => Seq::<char>::empty(),
    }
}

/// What the decoder makes of the evaluation result: a missing value or
/// one the JSON parser rejects becomes the empty envelope; otherwise
/// each absent text field is defaulted to the empty string and the
/// diagnostic is kept as found.
pub open spec fn spec_parse_envelope(raw: Option<Seq<char>>) -> EnvelopeModel {
    match raw {
        None => spec_empty_envelope(),
        Some(s) => match envelope_fields_of(s) {
            None => spec_empty_envelope(),
            Some(f) => EnvelopeModel {
                title: spec_or_empty(f.0),
                content: spec_or_empty(f.1),
                text_content: spec_or_empty(f.2),
                excerpt: spec_or_empty(f.3),
                error: f.4,
            },
        },
    }
}

fn or_empty(f: Option<String>) -> (r: String)
    ensures
        r@ == spec_or_empty(match f {
            Some(ref s) => Some(s@),
            None => None,
        }),
{
    match f {
        Some(s) => s,
        None => String::new(),
    }
}

/// Decode the serialized envelope that came back over the evaluation
/// boundary. A missing or malformed serialization degrades to the empty
/// envelope; it is never a failure.
pub fn parse_envelope(raw: Option<String>) -> (env: ExtractionEnvelope)
    ensures
        env@ == spec_parse_envelope(raw.deep_view()),
{
    match raw {
        None => empty_envelope(),
        Some(s) => match decode_envelope_fields(s.as_str()) {
            None => empty_envelope(),
            Some(f) => ExtractionEnvelope {
                title: or_empty(f.0),
                content: or_empty(f.1),
                text_content: or_empty(f.2),
                excerpt: or_empty(f.3),
                error: f.4,
            },
        },
    }
}

/// The empty envelope as a value.
pub fn empty_envelope() -> (env: ExtractionEnvelope)
    ensures
        env@ == spec_empty_envelope(),
{
    ExtractionEnvelope {
        title: String::new(),
        content: String::new(),
        text_content: String::new(),
        excerpt: String::new(),
        error: None,
    }
}

} // verus!
