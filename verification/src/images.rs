//! Image attribute repair: the lazy-load stage's rewrite of deferred
//! image sources, modelled on one image element's attributes.
//!
//! A "real" source is resolved from a priority-ordered list of deferred
//! attributes, falling back to the current `src`; it is promoted into
//! the live `src` only when it is non-trivial (longer than ten
//! characters) and not an inline data URI. Responsive source sets are
//! stripped so they cannot override the repaired source.

use vstd::prelude::*;

verus! {

/// The attributes of one image element that the repair reads or writes.
/// `None` stands for an absent attribute.
pub struct ImgElement {
    pub src: Option<String>,
    pub data_src: Option<String>,
    pub data_lazy_src: Option<String>,
    pub data_original: Option<String>,
    pub data_lazy: Option<String>,
    pub srcset: Option<String>,
    pub data_srcset: Option<String>,
}

/// The mathematical model of an image element's attributes.
pub struct ImgModel {
    pub src: Option<Seq<char>>,
    pub data_src: Option<Seq<char>>,
    pub data_lazy_src: Option<Seq<char>>,
    pub data_original: Option<Seq<char>>,
    pub data_lazy: Option<Seq<char>>,
    pub srcset: Option<Seq<char>>,
    pub data_srcset: Option<Seq<char>>,
}

pub open spec fn view_attr(a: Option<String>) -> Option<Seq<char>> {
    match a {
        Some(ref s) => Some(s@),
        None => None,
    }
}

impl View for ImgElement {
    type V = ImgModel;

    open spec fn view(&self) -> ImgModel {
        ImgModel {
            src: view_attr(self.src),
            data_src: view_attr(self.data_src),
            data_lazy_src: view_attr(self.data_lazy_src),
            data_original: view_attr(self.data_original),
            data_lazy: view_attr(self.data_lazy),
            srcset: view_attr(self.srcset),
            data_srcset: view_attr(self.data_srcset),
        }
    }
}

/// An attribute counts as present only when it holds non-empty text.
pub open spec fn spec_present(a: Option<Seq<char>>) -> bool {
    match a {
        Some(s) => s.len() > 0,
        None => false,
    }
}

pub open spec fn spec_text(a: Option<Seq<char>>) -> Seq<char> {
    match a {
        Some(s) => s,
        None => Seq::<char>::empty(),
    }
}

/// The resolved "real" source: the first non-empty entry of the
/// priority-ordered deferred attributes, falling back to the current
/// `src` (empty when that is absent too).
pub open spec fn spec_resolve(m: ImgModel) -> Seq<char> {
    if spec_present(m.data_src) {
        spec_text(m.data_src)
    } else if spec_present(m.data_lazy_src) {
        spec_text(m.data_lazy_src)
    } else if spec_present(m.data_original) {
        spec_text(m.data_original)
    } else if spec_present(m.data_lazy) {
        spec_text(m.data_lazy)
    } else {
        spec_text(m.src)
    }
}

/// An inline data URI: text beginning with `data:`.
pub open spec fn spec_is_data_uri(s: Seq<char>) -> bool {
    s.len() >= 5 && s[0] == 'd' && s[1] == 'a' && s[2] == 't' && s[3] == 'a' && s[4] == ':'
}

/// A resolved source is promoted only when it is longer than ten
/// characters and is not an inline data URI.
pub open spec fn spec_promotable(s: Seq<char>) -> bool {
    s.len() > 10 && !spec_is_data_uri(s)
}

/// The repaired element: the resolved source promoted into `src` when
/// promotable (otherwise `src` is left as it was), responsive source
/// sets stripped, every other attribute untouched.
pub open spec fn spec_repair(m: ImgModel) -> ImgModel {
    ImgModel {
        src: if spec_promotable(spec_resolve(m)) {
            Some(spec_resolve(m))
        } else {
            m.src
        },
        data_src: m.data_src,
        data_lazy_src: m.data_lazy_src,
        data_original: m.data_original,
        data_lazy: m.data_lazy,
        srcset: None,
        data_srcset: None,
    }
}

/// Image attribute repair is idempotent: repairing a repaired element
/// changes nothing, so running the repair twice yields the same final
/// `src` (and every other attribute) as running it once.
pub proof fn lemma_repair_idempotent(m: ImgModel)
    ensures
        spec_repair(spec_repair(m)) == spec_repair(m),
{
    let once = spec_repair(m);
    if spec_present(m.data_src) || spec_present(m.data_lazy_src) || spec_present(m.data_original)
        || spec_present(m.data_lazy) {
        assert(spec_resolve(once) == spec_resolve(m));
    } else {
        if spec_promotable(spec_resolve(m)) {
            assert(spec_resolve(once) == spec_resolve(m));
        } else {
            assert(spec_resolve(once) == spec_resolve(m));
        }
    }
}

fn attr_present(a: &Option<String>) -> (r: bool)
    ensures
        r == spec_present(view_attr(*a)),
{
    match a {
        Some(s) => s.unicode_len() > 0,
        None => false,
    }
}

fn attr_text(a: &Option<String>) -> (r: String)
    ensures
        r@ == spec_text(view_attr(*a)),
{
    match a {
        Some(s) => s.clone(),
        None => String::new(),
    }
}

/// Resolve the "real" source of an image element.
pub fn resolve_source(img: &ImgElement) -> (r: String)
    ensures
        r@ == spec_resolve(img@),
{
    if attr_present(&img.data_src) {
        attr_text(&img.data_src)
    } else if attr_present(&img.data_lazy_src) {
        attr_text(&img.data_lazy_src)
    } else if attr_present(&img.data_original) {
        attr_text(&img.data_original)
    } else if attr_present(&img.data_lazy) {
        attr_text(&img.data_lazy)
    } else {
        attr_text(&img.src)
    }
}

/// Whether a resolved source may be promoted into the live `src`.
pub fn is_promotable(s: &str) -> (r: bool)
    ensures
        r == spec_promotable(s@),
{
    let n = s.unicode_len();
    if n <= 10 {
        return false;
    }
    let is_data = s.get_char(0) == 'd' && s.get_char(1) == 'a' && s.get_char(2) == 't'
        && s.get_char(3) == 'a' && s.get_char(4) == ':';
    !is_data
}

/// Repair one image element's attributes.
pub fn repair_image(img: ImgElement) -> (r: ImgElement)
    ensures
        r@ == spec_repair(img@),
{
    let resolved = resolve_source(&img);
    let src: Option<String> = if is_promotable(resolved.as_str()) {
        Some(resolved)
    } else {
        img.src
    };
    ImgElement {
        src,
        data_src: img.data_src,
        data_lazy_src: img.data_lazy_src,
        data_original: img.data_original,
        data_lazy: img.data_lazy,
        srcset: None,
        data_srcset: None,
    }
}

/// Repair every image element of a page, in order.
pub fn repair_images(imgs: Vec<ImgElement>) -> (r: Vec<ImgElement>)
    ensures
        r@.len() == imgs@.len(),
        forall|i: int| 0 <= i < imgs@.len() ==> r@[i]@ == spec_repair(imgs@[i]@),
{
    let mut out: Vec<ImgElement> = Vec::new();
    let n = imgs.len();
    let mut rest = imgs;
    let ghost orig = rest@;
    // Consume from the front to move each element out by value.
    while out.len() < n
        invariant
            rest@.len() + out@.len() == n,
            orig.len() == n,
            rest@ == orig.subrange(out@.len() as int, n as int),
            forall|i: int| 0 <= i < out@.len() ==> out@[i]@ == spec_repair(orig[i]@),
        decreases n - out@.len(),
    {
        let img = rest.remove(0);
        let repaired = repair_image(img);
        out.push(repaired);
    }
    assert(out@.len() == orig.len());
    out
}

} // verus!
