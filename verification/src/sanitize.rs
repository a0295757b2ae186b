//! DOM sanitization: the extraction stage's removal of hidden elements
//! and comment nodes, modelled on a tree of nodes.
//!
//! An element is classified hidden when its computed style hides it
//! (display none, visibility hidden, zero opacity) or its bounding box
//! has both dimensions at most one pixel. A hidden element is removed
//! together with its subtree — unless it contains an image anywhere
//! below it, because images may be intentionally offscreen carriers.
//! Comment nodes are stripped separately.

use vstd::prelude::*;

verus! {

/// The kind of a DOM node.
#[derive(Clone, Copy, PartialEq, Eq, Structural, Debug)]
pub enum NodeKind {
    Element,
    Comment,
    Text,
}

/// One DOM node as the sanitizer sees it: its kind, the computed style
/// facts the hidden classification reads, its bounding box in pixels,
/// whether it is an image element, and its children in document order.
pub struct Node {
    pub kind: NodeKind,
    pub display_none: bool,
    pub visibility_hidden: bool,
    pub opacity_zero: bool,
    pub width: u64,
    pub height: u64,
    pub is_image: bool,
    pub children: Vec<Node>,
}

/// The mathematical model of a DOM node.
#[verifier::ext_equal]
pub struct NodeModel {
    pub kind: NodeKind,
    pub display_none: bool,
    pub visibility_hidden: bool,
    pub opacity_zero: bool,
    pub width: u64,
    pub height: u64,
    pub is_image: bool,
    pub children: Seq<NodeModel>,
}

/// The model of a node.
pub open spec fn spec_model(n: Node) -> NodeModel
    decreases n,
{
    NodeModel {
        kind: n.kind,
        display_none: n.display_none,
        visibility_hidden: n.visibility_hidden,
        opacity_zero: n.opacity_zero,
        width: n.width,
        height: n.height,
        is_image: n.is_image,
        children: spec_models(n.children@),
    }
}

/// The models of a sequence of nodes.
pub open spec fn spec_models(s: Seq<Node>) -> Seq<NodeModel>
    decreases s,
{
    Seq::new(
        s.len(),
        |i: int|
            if 0 <= i < s.len() {
                spec_model(s[i])
            } else {
                arbitrary()
            },
    )
}

impl View for Node {
    type V = NodeModel;

    open spec fn view(&self) -> NodeModel {
        spec_model(*self)
    }
}

/// A well-formed DOM: only elements have children or can be images.
pub open spec fn spec_wf(m: NodeModel) -> bool
    decreases m,
{
    &&& (m.kind != NodeKind::Element ==> m.children.len() == 0 && !m.is_image)
    &&& (m.is_image ==> m.kind == NodeKind::Element)
    &&& (forall|i: int|
        0 <= i < m.children.len() ==> spec_wf(#[trigger] m.children[i]))
}

/// The hidden classification: computed display none, visibility hidden,
/// zero opacity, or a bounding box with both dimensions at most one
/// pixel.
pub open spec fn spec_is_hidden(m: NodeModel) -> bool {
    ||| m.display_none
    ||| m.visibility_hidden
    ||| m.opacity_zero
    ||| (m.width <= 1 && m.height <= 1)
}

/// Whether the subtree rooted here holds an image element anywhere,
/// this node included.
pub open spec fn spec_has_image(m: NodeModel) -> bool
    decreases m,
{
    ||| m.is_image
    ||| exists|i: int| 0 <= i < m.children.len() && spec_has_image(#[trigger] m.children[i])
}

/// Whether the hidden-element removal deletes this node (with its whole
/// subtree): it must be an element, classified hidden, with no image
/// anywhere below it.
pub open spec fn spec_removed(m: NodeModel) -> bool {
    &&& m.kind == NodeKind::Element
    &&& spec_is_hidden(m)
    &&& !spec_has_image(m)
}

/// The children that hidden-element removal keeps, each sanitized in
/// turn.
pub open spec fn spec_sanitize_children(s: Seq<NodeModel>) -> Seq<NodeModel>
    decreases s,
{
    if s.len() == 0 {
        Seq::<NodeModel>::empty()
    } else {
        let rest = spec_sanitize_children(s.drop_first());
        if spec_removed(s.first()) {
            rest
        } else {
            seq![spec_sanitize(s.first())] + rest
        }
    }
}

/// The node after hidden-element removal ran below it (the node itself
/// was kept).
pub open spec fn spec_sanitize(m: NodeModel) -> NodeModel
    decreases m,
{
    NodeModel { children: spec_sanitize_children(m.children), ..m }
}

/// How many image elements the subtree holds.
pub open spec fn spec_image_count(m: NodeModel) -> nat
    decreases m,
{
    (if m.is_image {
        1nat
    } else {
        0nat
    }) + spec_image_count_children(m.children)
}

pub open spec fn spec_image_count_children(s: Seq<NodeModel>) -> nat
    decreases s,
{
    if s.len() == 0 {
        0nat
    } else {
        spec_image_count(s.first()) + spec_image_count_children(s.drop_first())
    }
}

/// A subtree without images counts zero images.
proof fn lemma_no_image_count_zero(m: NodeModel)
    requires
        !spec_has_image(m),
    ensures
        spec_image_count(m) == 0,
    decreases m,
{
    lemma_no_image_count_zero_children(m.children);
}

proof fn lemma_no_image_count_zero_children(s: Seq<NodeModel>)
    requires
        forall|i: int| 0 <= i < s.len() ==> !spec_has_image(#[trigger] s[i]),
    ensures
        spec_image_count_children(s) == 0,
    decreases s,
{
    if s.len() > 0 {
        lemma_no_image_count_zero(s.first());
        lemma_no_image_count_zero_children(s.drop_first());
    }
}

/// Hidden-element removal never deletes an element that directly
/// contains an image element, even when every hidden criterion is met:
/// such an element holds an image below it and is therefore kept.
pub proof fn lemma_image_parent_never_removed(m: NodeModel)
    requires
        exists|i: int| 0 <= i < m.children.len() && (#[trigger] m.children[i]).is_image,
    ensures
        !spec_removed(m),
{
    let i = choose|i: int| 0 <= i < m.children.len() && (#[trigger] m.children[i]).is_image;
    assert(spec_has_image(m.children[i]));
}

/// Hidden-element removal deletes no image at any depth: the sanitized
/// tree holds exactly the images of the original, because a deleted
/// subtree never contains one.
pub proof fn lemma_sanitize_preserves_images(m: NodeModel)
    ensures
        spec_image_count(spec_sanitize(m)) == spec_image_count(m),
    decreases m,
{
    lemma_sanitize_preserves_images_children(m.children);
}

proof fn lemma_sanitize_preserves_images_children(s: Seq<NodeModel>)
    ensures
        spec_image_count_children(spec_sanitize_children(s)) == spec_image_count_children(s),
    decreases s,
{
    if s.len() > 0 {
        lemma_sanitize_preserves_images_children(s.drop_first());
        if spec_removed(s.first()) {
            lemma_no_image_count_zero(s.first());
        } else {
            lemma_sanitize_preserves_images(s.first());
            let rest = spec_sanitize_children(s.drop_first());
            let one = seq![spec_sanitize(s.first())];
            lemma_image_count_children_concat(one, rest);
            assert((one + rest).drop_first() =~= rest);
        }
    }
}

proof fn lemma_image_count_children_concat(a: Seq<NodeModel>, b: Seq<NodeModel>)
    ensures
        spec_image_count_children(a + b) == spec_image_count_children(a)
            + spec_image_count_children(b),
    decreases a,
{
    if a.len() == 0 {
        assert(a + b =~= b);
    } else {
        assert((a + b).first() == a.first());
        assert((a + b).drop_first() =~= a.drop_first() + b);
        lemma_image_count_children_concat(a.drop_first(), b);
    }
}

/// Keeping a kept child appends it to the sanitized prefix.
proof fn lemma_sanitize_children_snoc(s: Seq<NodeModel>, x: NodeModel)
    ensures
        spec_sanitize_children(s.push(x)) == spec_sanitize_children(s) + (if spec_removed(x) {
            Seq::<NodeModel>::empty()
        } else {
            seq![spec_sanitize(x)]
        }),
    decreases s,
{
    let tail = if spec_removed(x) {
        Seq::<NodeModel>::empty()
    } else {
        seq![spec_sanitize(x)]
    };
    if s.len() == 0 {
        assert(s.push(x).first() == x);
        assert(s.push(x).drop_first() =~= Seq::<NodeModel>::empty());
        assert(spec_sanitize_children(Seq::<NodeModel>::empty()) =~= Seq::<NodeModel>::empty());
        assert(spec_sanitize_children(s.push(x)) =~= tail);
        assert(spec_sanitize_children(s) + tail =~= tail);
    } else {
        assert(s.push(x).first() == s.first());
        assert(s.push(x).drop_first() =~= s.drop_first().push(x));
        lemma_sanitize_children_snoc(s.drop_first(), x);
        if spec_removed(s.first()) {
        } else {
            assert(seq![spec_sanitize(s.first())] + (spec_sanitize_children(s.drop_first())
                + tail) =~= (seq![spec_sanitize(s.first())] + spec_sanitize_children(
                s.drop_first(),
            )) + tail);
        }
    }
}

impl Node {
    /// The hidden classification of this node.
    pub fn is_hidden(&self) -> (r: bool)
        ensures
            r == spec_is_hidden(self@),
    {
        self.display_none || self.visibility_hidden || self.opacity_zero || (self.width <= 1
            && self.height <= 1)
    }

    /// Whether the subtree rooted here holds an image element anywhere.
    pub fn has_image(&self) -> (r: bool)
        ensures
            r == spec_has_image(self@),
        decreases *self,
    {
        if self.is_image {
            return true;
        }
        let n = self.children.len();
        proof {
            assert(self@.children.len() == self.children@.len());
        }
        let mut i: usize = 0;
        while i < n
            invariant
                n == self.children@.len(),
                0 <= i <= n,
                forall|j: int| 0 <= j < i ==> !spec_has_image(self@.children[j]),
            decreases n - i,
        {
            assert(self@.children[i as int] == self.children@[i as int]@);
            if self.children[i].has_image() {
                return true;
            }
            i = i + 1;
        }
        false
    }
}

/// Hidden-element removal: delete this node (with its whole subtree)
/// when it is a hidden, image-free element; otherwise keep it and
/// sanitize its children in order.
pub fn sanitize(node: &Node) -> (r: Option<Node>)
    ensures
        r is None <==> spec_removed(node@),
        r matches Some(out) ==> out@ == spec_sanitize(node@),
    decreases *node,
{
    if node.kind == NodeKind::Element && node.is_hidden() && !node.has_image() {
        return None;
    }
    let n = node.children.len();
    let mut out: Vec<Node> = Vec::new();
    let mut k: usize = 0;
    while k < n
        invariant
            n == node.children@.len(),
            0 <= k <= n,
            spec_models(out@) =~= spec_sanitize_children(
                spec_models(node.children@.subrange(0, k as int)),
            ),
        decreases n - k,
    {
        let child = &node.children[k];
        proof {
            assert(decreases_to!(node.children@ => node.children@[k as int]));
            assert(decreases_to!(*node => *child));
            let prefix = spec_models(node.children@.subrange(0, k as int));
            let next_prefix = spec_models(node.children@.subrange(0, k as int + 1));
            assert(next_prefix =~= prefix.push(child@));
            lemma_sanitize_children_snoc(prefix, child@);
        }
        match sanitize(child) {
            Some(clean) => {
                out.push(clean);
                proof {
                    let prefix = spec_models(node.children@.subrange(0, k as int));
                    assert(spec_models(out@) =~= spec_sanitize_children(prefix) + seq![
                        spec_sanitize(child@),
                    ]);
                }
            },
            None => {
                proof {
                    let prefix = spec_models(node.children@.subrange(0, k as int));
                    assert(spec_sanitize_children(prefix) + Seq::<NodeModel>::empty()
                        =~= spec_sanitize_children(prefix));
                }
            },
        }
        k = k + 1;
    }
    let result = Node {
        kind: node.kind,
        display_none: node.display_none,
        visibility_hidden: node.visibility_hidden,
        opacity_zero: node.opacity_zero,
        width: node.width,
        height: node.height,
        is_image: node.is_image,
        children: out,
    };
    proof {
        assert(node.children@.subrange(0, n as int) =~= node.children@);
        assert(result@.children =~= spec_models(result.children@));
        assert(result@ =~= spec_sanitize(node@));
    }
    Some(result)
}

/// The children that comment removal keeps, each stripped in turn:
/// comment nodes are deleted, every other node is kept.
pub open spec fn spec_strip_comments_children(s: Seq<NodeModel>) -> Seq<NodeModel>
    decreases s,
{
    if s.len() == 0 {
        Seq::<NodeModel>::empty()
    } else {
        let rest = spec_strip_comments_children(s.drop_first());
        if s.first().kind == NodeKind::Comment {
            rest
        } else {
            seq![spec_strip_comments(s.first())] + rest
        }
    }
}

/// The node after comment removal ran below it.
pub open spec fn spec_strip_comments(m: NodeModel) -> NodeModel
    decreases m,
{
    NodeModel { children: spec_strip_comments_children(m.children), ..m }
}

proof fn lemma_strip_comments_children_snoc(s: Seq<NodeModel>, x: NodeModel)
    ensures
        spec_strip_comments_children(s.push(x)) == spec_strip_comments_children(s) + (if x.kind
            == NodeKind::Comment {
            Seq::<NodeModel>::empty()
        } else {
            seq![spec_strip_comments(x)]
        }),
    decreases s,
{
    let tail = if x.kind == NodeKind::Comment {
        Seq::<NodeModel>::empty()
    } else {
        seq![spec_strip_comments(x)]
    };
    if s.len() == 0 {
        assert(s.push(x).first() == x);
        assert(s.push(x).drop_first() =~= Seq::<NodeModel>::empty());
        assert(spec_strip_comments_children(Seq::<NodeModel>::empty())
            =~= Seq::<NodeModel>::empty());
        assert(spec_strip_comments_children(s.push(x)) =~= tail);
        assert(spec_strip_comments_children(s) + tail =~= tail);
    } else {
        assert(s.push(x).first() == s.first());
        assert(s.push(x).drop_first() =~= s.drop_first().push(x));
        lemma_strip_comments_children_snoc(s.drop_first(), x);
        if s.first().kind == NodeKind::Comment {
        } else {
            assert(seq![spec_strip_comments(s.first())] + (spec_strip_comments_children(
                s.drop_first(),
            ) + tail) =~= (seq![spec_strip_comments(s.first())] + spec_strip_comments_children(
                s.drop_first(),
            )) + tail);
        }
    }
}

/// In a well-formed DOM comment nodes carry no images, so stripping
/// them deletes no image at any depth.
pub proof fn lemma_strip_comments_preserves_images(m: NodeModel)
    requires
        spec_wf(m),
    ensures
        spec_image_count(spec_strip_comments(m)) == spec_image_count(m),
    decreases m,
{
    lemma_strip_comments_preserves_images_children(m.children);
}

proof fn lemma_strip_comments_preserves_images_children(s: Seq<NodeModel>)
    requires
        forall|i: int| 0 <= i < s.len() ==> spec_wf(#[trigger] s[i]),
    ensures
        spec_image_count_children(spec_strip_comments_children(s)) == spec_image_count_children(
            s,
        ),
    decreases s,
{
    if s.len() > 0 {
        assert(spec_wf(s.first()));
        assert forall|i: int| 0 <= i < s.drop_first().len() implies spec_wf(
            #[trigger] s.drop_first()[i],
        ) by {
            assert(s.drop_first()[i] == s[i + 1]);
        }
        lemma_strip_comments_preserves_images_children(s.drop_first());
        if s.first().kind == NodeKind::Comment {
            assert(s.first().children.len() == 0);
            assert(spec_image_count_children(s.first().children) == 0);
            assert(spec_image_count(s.first()) == 0);
        } else {
            lemma_strip_comments_preserves_images(s.first());
            let rest = spec_strip_comments_children(s.drop_first());
            let one = seq![spec_strip_comments(s.first())];
            lemma_image_count_children_concat(one, rest);
            assert((one + rest).drop_first() =~= rest);
        }
    }
}

/// Comment removal: delete this node when it is a comment; otherwise
/// keep it and strip its children in order.
pub fn strip_comments(node: &Node) -> (r: Option<Node>)
    ensures
        r is None <==> node@.kind == NodeKind::Comment,
        r matches Some(out) ==> out@ == spec_strip_comments(node@),
    decreases *node,
{
    if node.kind == NodeKind::Comment {
        return None;
    }
    let n = node.children.len();
    let mut out: Vec<Node> = Vec::new();
    let mut k: usize = 0;
    while k < n
        invariant
            n == node.children@.len(),
            0 <= k <= n,
            spec_models(out@) =~= spec_strip_comments_children(
                spec_models(node.children@.subrange(0, k as int)),
            ),
        decreases n - k,
    {
        let child = &node.children[k];
        proof {
            assert(decreases_to!(node.children@ => node.children@[k as int]));
            assert(decreases_to!(*node => *child));
            let prefix = spec_models(node.children@.subrange(0, k as int));
            let next_prefix = spec_models(node.children@.subrange(0, k as int + 1));
            assert(next_prefix =~= prefix.push(child@));
            lemma_strip_comments_children_snoc(prefix, child@);
        }
        match strip_comments(child) {
            Some(clean) => {
                out.push(clean);
                proof {
                    let prefix = spec_models(node.children@.subrange(0, k as int));
                    assert(spec_models(out@) =~= spec_strip_comments_children(prefix) + seq![
                        spec_strip_comments(child@),
                    ]);
                }
            },
            None => {
                proof {
                    let prefix = spec_models(node.children@.subrange(0, k as int));
                    assert(spec_strip_comments_children(prefix) + Seq::<NodeModel>::empty()
                        =~= spec_strip_comments_children(prefix));
                }
            },
        }
        k = k + 1;
    }
    let result = Node {
        kind: node.kind,
        display_none: node.display_none,
        visibility_hidden: node.visibility_hidden,
        opacity_zero: node.opacity_zero,
        width: node.width,
        height: node.height,
        is_image: node.is_image,
        children: out,
    };
    proof {
        assert(node.children@.subrange(0, n as int) =~= node.children@);
        assert(result@.children =~= spec_models(result.children@));
        assert(result@ =~= spec_strip_comments(node@));
    }
    Some(result)
}

} // verus!
