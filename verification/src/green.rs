//! The green tree of the `rowan` crate and the builder that fills it.

use rowan::{Checkpoint, GreenNode, GreenNodeBuilder, GreenToken};
use vstd::prelude::*;
use vstd::utf8::encode_utf8;

verus! {

/// `rowan::GreenNodeBuilder`: it holds the elements finished so far and the
/// nodes that are open.
#[verifier::external_type_specification]
#[verifier::external_body]
pub struct ExGreenNodeBuilder<'cache>(GreenNodeBuilder<'cache>);

/// `rowan::Checkpoint`: a place among the finished elements of a builder.
#[verifier::external_type_specification]
#[verifier::external_body]
pub struct ExCheckpoint(Checkpoint);

/// `rowan::GreenNode`: an inner node of a finished tree.
#[verifier::external_type_specification]
#[verifier::external_body]
pub struct ExGreenNode(GreenNode);

/// `rowan::GreenToken`: a leaf of a finished tree.
#[verifier::external_type_specification]
#[verifier::external_body]
pub struct ExGreenToken(GreenToken);

/// A piece of a syntax tree: an inner node with its children, or a leaf
/// with its text. Kinds are held as raw numbers.
pub enum Element {
    Node { kind: u16, children: Seq<Element> },
    Token { kind: u16, text: Seq<char> },
}

/// A leaf of a tree: its raw kind and its text.
pub type Leaf = (u16, Seq<char>);

/// The raw kind of an element.
pub open spec fn kind_of(e: Element) -> u16 {
    match e {
        Element::Node { kind, children } => kind,
        Element::Token { kind, text } => kind,
    }
}

/// The children of an element; a leaf has none.
pub open spec fn children_of(e: Element) -> Seq<Element> {
    match e {
        Element::Node { kind, children } => children,
        Element::Token { kind, text } => Seq::empty(),
    }
}

/// The leaves of an element, from left to right.
pub open spec fn leaves(e: Element) -> Seq<Leaf>
    decreases e, 0nat,
{
    match e {
        Element::Token { kind, text } => seq![(kind, text)],
        Element::Node { kind, children } => leaves_upto(children, children.len() as int),
    }
}

/// The leaves of the first `n` of a sequence of elements, from left to
/// right.
pub open spec fn leaves_upto(elements: Seq<Element>, n: int) -> Seq<Leaf>
    decreases elements, n,
{
    if n <= 0 || n > elements.len() {
        Seq::empty()
    } else {
        leaves_upto(elements, n - 1) + leaves(elements[n - 1])
    }
}

/// The leaves of a sequence of elements, from left to right.
pub open spec fn all_leaves(elements: Seq<Element>) -> Seq<Leaf> {
    leaves_upto(elements, elements.len() as int)
}

/// The length in bytes of the text of some leaves.
pub open spec fn width(leaves: Seq<Leaf>) -> nat
    decreases leaves.len(),
{
    if leaves.len() == 0 {
        0
    } else {
        width(leaves.drop_last()) + encode_utf8(leaves.last().1).len()
    }
}

/// The leaves of the first `n` elements depend on those elements alone.
pub proof fn lemma_leaves_upto_prefix(a: Seq<Element>, b: Seq<Element>, n: int)
    requires
        0 <= n <= a.len(),
        n <= b.len(),
        forall|i: int| 0 <= i < n ==> a[i] == b[i],
    ensures
        leaves_upto(a, n) == leaves_upto(b, n),
    decreases n,
{
    if n > 0 {
        lemma_leaves_upto_prefix(a, b, n - 1);
    }
}

/// The leaves of a sequence with one more element at its end.
pub proof fn lemma_leaves_push(elements: Seq<Element>, e: Element)
    ensures
        all_leaves(elements.push(e)) == all_leaves(elements) + leaves(e),
{
    lemma_leaves_upto_prefix(elements.push(e), elements, elements.len() as int);
}

/// The leaves of two sequences of elements, one after the other.
pub proof fn lemma_leaves_concat(a: Seq<Element>, b: Seq<Element>)
    ensures
        all_leaves(a + b) == all_leaves(a) + all_leaves(b),
    decreases b.len(),
{
    if b.len() == 0 {
        assert(a + b =~= a);
        assert(all_leaves(a) + all_leaves(b) =~= all_leaves(a));
    } else {
        let front = b.drop_last();
        lemma_leaves_concat(a, front);
        assert(a + b =~= (a + front).push(b.last()));
        assert(b =~= front.push(b.last()));
        lemma_leaves_push(a + front, b.last());
        lemma_leaves_push(front, b.last());
        assert((all_leaves(a) + all_leaves(front)) + leaves(b.last()) =~= all_leaves(a) + (
        all_leaves(front) + leaves(b.last())));
    }
}

/// Wrapping the elements from `first` on in a node leaves the leaves as
/// they are.
pub proof fn lemma_leaves_wrap(elements: Seq<Element>, first: int, kind: u16)
    requires
        0 <= first <= elements.len(),
    ensures
        all_leaves(
            elements.take(first).push(Element::Node { kind, children: elements.skip(first) }),
        ) == all_leaves(elements),
{
    let node = Element::Node { kind, children: elements.skip(first) };
    lemma_leaves_push(elements.take(first), node);
    lemma_leaves_concat(elements.take(first), elements.skip(first));
    assert(elements.take(first) + elements.skip(first) =~= elements);
}

/// The width of two runs of leaves, one after the other.
pub proof fn lemma_width_concat(a: Seq<Leaf>, b: Seq<Leaf>)
    ensures
        width(a + b) == width(a) + width(b),
    decreases b.len(),
{
    if b.len() == 0 {
        assert(a + b =~= a);
    } else {
        lemma_width_concat(a, b.drop_last());
        assert((a + b).drop_last() =~= a + b.drop_last());
    }
}

/// The widths of the first `n` elements, added up.
pub open spec fn widths(elements: Seq<Element>, n: int) -> nat
    decreases n,
{
    if n <= 0 || n > elements.len() {
        0
    } else {
        widths(elements, n - 1) + width(leaves(elements[n - 1]))
    }
}

/// What the first `n` elements cover is as wide as their widths added up.
pub proof fn lemma_width_of_elements(elements: Seq<Element>, n: int)
    requires
        0 <= n <= elements.len(),
    ensures
        width(leaves_upto(elements, n)) == widths(elements, n),
    decreases n,
{
    if n > 0 {
        lemma_width_of_elements(elements, n - 1);
        lemma_width_concat(leaves_upto(elements, n - 1), leaves(elements[n - 1]));
    }
}

/// A node is as wide as the widths of its children added up.
pub proof fn lemma_width_of_node(kind: u16, children: Seq<Element>)
    ensures
        width(leaves(Element::Node { kind, children })) == widths(children, children.len() as int),
{
    lemma_width_of_elements(children, children.len() as int);
}

/// The elements that a builder has finished, oldest first.
pub uninterp spec fn builder_children(b: GreenNodeBuilder<'static>) -> Seq<Element>;

/// The nodes that a builder has open, outermost first: the raw kind of each
/// and the index, among the finished elements, of its first child.
pub uninterp spec fn builder_parents(b: GreenNodeBuilder<'static>) -> Seq<(u16, int)>;

/// The number of finished elements that a builder held when the checkpoint
/// was taken.
pub uninterp spec fn checkpoint_index(c: Checkpoint) -> int;

/// The tree that a green node holds.
pub uninterp spec fn green_tree(node: GreenNode) -> Element;

/// The raw kind and the text that a green token holds.
pub uninterp spec fn green_leaf(token: GreenToken) -> Leaf;

/// `GreenNodeBuilder::new`: a builder that holds nothing and has no node
/// open.
#[verifier::external_body]
pub(crate) fn builder_new() -> (b: GreenNodeBuilder<'static>)
    ensures
        builder_children(b) == Seq::<Element>::empty(),
        builder_parents(b) == Seq::<(u16, int)>::empty(),
{
    GreenNodeBuilder::new()
}

/// `GreenNodeBuilder::token`: adds a leaf with the given kind and text after
/// the finished elements.
#[verifier::external_body]
pub(crate) fn builder_token(b: &mut GreenNodeBuilder<'static>, kind: u16, text: &str)
    ensures
        builder_children(*final(b)) == builder_children(*old(b)).push(
            Element::Token { kind, text: text@ },
        ),
        builder_parents(*final(b)) == builder_parents(*old(b)),
{
    b.token(rowan::SyntaxKind(kind), text)
}

/// `GreenNodeBuilder::start_node`: opens a node whose children will be the
/// elements finished from now on.
#[verifier::external_body]
pub(crate) fn builder_start_node(b: &mut GreenNodeBuilder<'static>, kind: u16)
    ensures
        builder_children(*final(b)) == builder_children(*old(b)),
        builder_parents(*final(b)) == builder_parents(*old(b)).push(
            (kind, builder_children(*old(b)).len() as int),
        ),
{
    b.start_node(rowan::SyntaxKind(kind))
}

/// `GreenNodeBuilder::finish_node`: closes the innermost open node. The
/// elements from its first child on become its children, and the node takes
/// their place. It panics where no node is open; the length of a node's text
/// is kept in 32 bits.
#[verifier::external_body]
pub(crate) fn builder_finish_node(b: &mut GreenNodeBuilder<'static>)
    requires
        builder_parents(*old(b)).len() > 0,
        0 <= builder_parents(*old(b)).last().1 <= builder_children(*old(b)).len(),
        width(all_leaves(builder_children(*old(b)).skip(builder_parents(*old(b)).last().1)))
            <= u32::MAX,
    ensures
        builder_parents(*final(b)) == builder_parents(*old(b)).drop_last(),
        builder_children(*final(b)) == builder_children(*old(b)).take(
            builder_parents(*old(b)).last().1,
        ).push(
            Element::Node {
                kind: builder_parents(*old(b)).last().0,
                children: builder_children(*old(b)).skip(builder_parents(*old(b)).last().1),
            },
        ),
{
    b.finish_node()
}

/// `GreenNodeBuilder::checkpoint`: remembers how many elements are finished.
#[verifier::external_body]
pub(crate) fn builder_checkpoint(b: &GreenNodeBuilder<'static>) -> (c: Checkpoint)
    ensures
        checkpoint_index(c) == builder_children(*b).len(),
{
    b.checkpoint()
}

/// `GreenNodeBuilder::start_node_at`: opens a node whose first child is the
/// element that was finished first after the checkpoint. It panics where
/// the checkpoint lies beyond the finished elements or before the first
/// child of the innermost open node.
#[verifier::external_body]
pub(crate) fn builder_start_node_at(b: &mut GreenNodeBuilder<'static>, c: Checkpoint, kind: u16)
    requires
        0 <= checkpoint_index(c) <= builder_children(*old(b)).len(),
        builder_parents(*old(b)).len() > 0 ==> builder_parents(*old(b)).last().1
            <= checkpoint_index(c),
    ensures
        builder_children(*final(b)) == builder_children(*old(b)),
        builder_parents(*final(b)) == builder_parents(*old(b)).push((kind, checkpoint_index(c))),
{
    b.start_node_at(c, rowan::SyntaxKind(kind))
}

/// `GreenNodeBuilder::finish`: hands out the one finished element, which
/// must be a node. It panics where the builder holds anything else.
#[verifier::external_body]
pub(crate) fn builder_finish(b: GreenNodeBuilder<'static>) -> (node: GreenNode)
    requires
        builder_children(b).len() == 1,
        builder_children(b)[0] is Node,
    ensures
        green_tree(node) == builder_children(b)[0],
{
    b.finish()
}

/// A child of a green node, handed out of the tree.
pub enum GreenChild {
    Node(GreenNode),
    Token(GreenToken),
}

impl View for GreenChild {
    type V = Element;

    open spec fn view(&self) -> Element {
        match *self {
            GreenChild::Node(node) => green_tree(node),
            GreenChild::Token(token) => Element::Token {
                kind: green_leaf(token).0,
                text: green_leaf(token).1,
            },
        }
    }
}

/// `GreenNodeData::kind`: the raw kind of a green node, which is an inner
/// node of the tree.
#[verifier::external_body]
pub(crate) fn green_kind(node: &GreenNode) -> (kind: u16)
    ensures
        green_tree(*node) == (Element::Node { kind, children: children_of(green_tree(*node)) }),
{
    node.kind().0
}

/// `GreenNodeData::children`: the children of a green node, in order.
#[verifier::external_body]
pub(crate) fn green_children(node: &GreenNode) -> (children: Vec<GreenChild>)
    ensures
        green_tree(*node) == (Element::Node {
            kind: kind_of(green_tree(*node)),
            children: Seq::new(children@.len(), |i: int| children@[i]@),
        }),
{
    node.children().map(
        |child|
            match child {
                rowan::NodeOrToken::Node(n) => GreenChild::Node(n.to_owned()),
                rowan::NodeOrToken::Token(t) => GreenChild::Token(t.to_owned()),
            },
    ).collect()
}

/// `GreenTokenData::text`: the text of a green token.
#[verifier::external_body]
pub(crate) fn green_token_text(token: &GreenToken) -> (text: String)
    ensures
        text@ == green_leaf(*token).1,
{
    token.text().to_string()
}

/// `GreenNode::clone`: another handle on the same tree.
#[verifier::external_body]
pub(crate) fn green_clone(node: &GreenNode) -> (copy: GreenNode)
    ensures
        green_tree(copy) == green_tree(*node),
{
    node.clone()
}

} // verus!
