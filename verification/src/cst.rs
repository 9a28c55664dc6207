//! Reading a syntax tree: finding a child by its kind, and putting the text
//! of the leaves together again.

use crate::green::{
    children_of, green_children, green_clone, green_kind, green_token_text, green_tree, kind_of,
    leaves, leaves_upto, Element, GreenChild, Leaf,
};
use crate::syntax::SyntaxKind;
use rowan::GreenNode;
use vstd::prelude::*;
use vstd::string::StringExecFns;

verus! {

/// From which end the children of a node are looked through.
#[derive(Clone, Copy, Debug, PartialEq, Eq, Structural)]
pub enum TraverseOrder {
    Forward,
    Backward,
}

/// Whether an element is an inner node of the kind given.
pub open spec fn is_node_of(e: Element, kind: SyntaxKind) -> bool {
    e is Node && kind_of(e) == kind.raw_spec()
}

/// The index of the first inner node of the kind given among the elements
/// from `from` on, or the number of elements if there is none.
pub open spec fn first_of_kind(elements: Seq<Element>, kind: SyntaxKind, from: int) -> int
    decreases elements.len() - from,
{
    if from < 0 || from >= elements.len() {
        elements.len() as int
    } else if is_node_of(elements[from], kind) {
        from
    } else {
        first_of_kind(elements, kind, from + 1)
    }
}

/// The index of the last inner node of the kind given among the first `n`
/// elements, or -1 if there is none.
pub open spec fn last_of_kind(elements: Seq<Element>, kind: SyntaxKind, n: int) -> int
    decreases n,
{
    if n <= 0 || n > elements.len() {
        -1
    } else if is_node_of(elements[n - 1], kind) {
        n - 1
    } else {
        last_of_kind(elements, kind, n - 1)
    }
}

/// The index of the child that `get_child_of_kind` hands out, if there is
/// one: the first inner node of the kind when looking forward, the last
/// when looking backward.
pub open spec fn child_of_kind(tree: Element, kind: SyntaxKind, order: TraverseOrder) -> Option<int> {
    let children = children_of(tree);
    match order {
        TraverseOrder::Forward => if first_of_kind(children, kind, 0) < children.len() {
            Some(first_of_kind(children, kind, 0))
        } else {
            None
        },
        TraverseOrder::Backward => if last_of_kind(children, kind, children.len() as int) >= 0 {
            Some(last_of_kind(children, kind, children.len() as int))
        } else {
            None
        },
    }
}

/// What is found is an inner node of the kind, and no child before it
/// (looking forward) or after it (looking backward) is one.
pub proof fn lemma_child_of_kind(tree: Element, kind: SyntaxKind, order: TraverseOrder)
    ensures
        match child_of_kind(tree, kind, order) {
            Some(i) => 0 <= i < children_of(tree).len() && is_node_of(children_of(tree)[i], kind)
                && forall|j: int|
                0 <= j < children_of(tree).len() && is_node_of(
                    #[trigger] children_of(tree)[j],
                    kind,
                ) ==> (if order == TraverseOrder::Forward {
                    i <= j
                } else {
                    j <= i
                }),
            None => forall|j: int|
                0 <= j < children_of(tree).len() ==> !is_node_of(
                    #[trigger] children_of(tree)[j],
                    kind,
                ),
        },
{
    let children = children_of(tree);
    lemma_first_of_kind(children, kind, 0);
    lemma_last_of_kind(children, kind, children.len() as int);
}

/// What `first_of_kind` finds is the first inner node of the kind.
pub proof fn lemma_first_of_kind(elements: Seq<Element>, kind: SyntaxKind, from: int)
    requires
        0 <= from <= elements.len(),
    ensures
        from <= first_of_kind(elements, kind, from) <= elements.len(),
        first_of_kind(elements, kind, from) < elements.len() ==> is_node_of(
            elements[first_of_kind(elements, kind, from)],
            kind,
        ),
        forall|j: int|
            from <= j < first_of_kind(elements, kind, from) ==> !is_node_of(
                #[trigger] elements[j],
                kind,
            ),
    decreases elements.len() - from,
{
    if from < elements.len() && !is_node_of(elements[from], kind) {
        lemma_first_of_kind(elements, kind, from + 1);
    }
}

/// What `last_of_kind` finds is the last inner node of the kind.
pub proof fn lemma_last_of_kind(elements: Seq<Element>, kind: SyntaxKind, n: int)
    requires
        0 <= n <= elements.len(),
    ensures
        -1 <= last_of_kind(elements, kind, n) < n,
        last_of_kind(elements, kind, n) >= 0 ==> is_node_of(
            elements[last_of_kind(elements, kind, n)],
            kind,
        ),
        forall|j: int|
            last_of_kind(elements, kind, n) < j < n ==> !is_node_of(#[trigger] elements[j], kind),
    decreases n,
{
    if n > 0 && !is_node_of(elements[n - 1], kind) {
        lemma_last_of_kind(elements, kind, n - 1);
    }
}

/// Whether a child is an inner node of the kind given.
fn child_is(child: &GreenChild, kind: SyntaxKind) -> (r: bool)
    ensures
        r == is_node_of(child@, kind),
{
    match child {
        GreenChild::Node(node) => green_kind(node) == kind.raw(),
        GreenChild::Token(_) => false,
    }
}

/// A handle on a child that is an inner node.
fn child_node(child: &GreenChild) -> (r: Option<GreenNode>)
    ensures
        r is Some <==> child is Node,
        r matches Some(node) ==> green_tree(node) == child@,
{
    match child {
        GreenChild::Node(node) => Some(green_clone(node)),
        GreenChild::Token(_) => None,
    }
}

/// The views of some children.
pub open spec fn child_views(children: Seq<GreenChild>) -> Seq<Element> {
    Seq::new(children.len(), |i: int| children[i]@)
}

/// Looks through some children for an inner node of the kind given, from
/// the end that `order` says.
fn find_child(children: &Vec<GreenChild>, kind: SyntaxKind, order: TraverseOrder) -> (r: Option<
    usize,
>)
    ensures
        match order {
            TraverseOrder::Forward => match r {
                Some(i) => i < children@.len() && i == first_of_kind(
                    child_views(children@),
                    kind,
                    0,
                ),
                None => first_of_kind(child_views(children@), kind, 0) == children@.len(),
            },
            TraverseOrder::Backward => match r {
                Some(i) => i < children@.len() && i == last_of_kind(
                    child_views(children@),
                    kind,
                    children@.len() as int,
                ),
                None => last_of_kind(child_views(children@), kind, children@.len() as int) == -1,
            },
        },
{
    let ghost elements = child_views(children@);
    match order {
        TraverseOrder::Forward => {
            let mut i: usize = 0;
            while i < children.len()
                invariant
                    i <= children@.len(),
                    elements == child_views(children@),
                    first_of_kind(elements, kind, 0) == first_of_kind(elements, kind, i as int),
                    order == TraverseOrder::Forward,
                decreases children.len() - i,
            {
                assert(elements[i as int] == children@[i as int]@);
                if child_is(&children[i], kind) {
                    return Some(i);
                }
                i += 1;
            }
            None
        },
        TraverseOrder::Backward => {
            let mut i: usize = children.len();
            while i > 0
                invariant
                    i <= children@.len(),
                    elements == child_views(children@),
                    last_of_kind(elements, kind, elements.len() as int) == last_of_kind(
                        elements,
                        kind,
                        i as int,
                    ),
                    order == TraverseOrder::Backward,
                decreases i,
            {
                assert(elements[i - 1] == children@[i - 1]@);
                if child_is(&children[i - 1], kind) {
                    return Some(i - 1);
                }
                i -= 1;
            }
            None
        },
    }
}

/// The index, among the direct children of `node`, of the first inner node
/// of the kind given, or of the last one, as `order` says.
pub fn index_of_kind(node: &GreenNode, kind: SyntaxKind, order: TraverseOrder) -> (r: Option<usize>)
    ensures
        r is Some <==> child_of_kind(green_tree(*node), kind, order) is Some,
        r matches Some(i) ==> child_of_kind(green_tree(*node), kind, order) == Some(i as int),
{
    let children = green_children(node);
    assert(child_views(children@) =~= children_of(green_tree(*node)));
    find_child(&children, kind, order)
}

/// The first direct child of `node` that is an inner node of the kind
/// given, or the last one, as `order` says.
pub fn get_child_of_kind(node: &GreenNode, kind: SyntaxKind, order: TraverseOrder) -> (r: Option<
    GreenNode,
>)
    ensures
        r is Some <==> child_of_kind(green_tree(*node), kind, order) is Some,
        r matches Some(child) ==> green_tree(child) == children_of(green_tree(*node))[child_of_kind(
            green_tree(*node),
            kind,
            order,
        )->0],
{
    let children = green_children(node);
    assert(child_views(children@) =~= children_of(green_tree(*node)));
    match find_child(&children, kind, order) {
        Some(i) => {
            proof {
                lemma_child_of_kind(green_tree(*node), kind, order);
            }
            child_node(&children[i])
        },
        None => None,
    }
}

/// The texts of some leaves, put together.
pub open spec fn text_of(leaves: Seq<Leaf>) -> Seq<char> {
    leaves.map_values(|l: Leaf| l.1).flatten()
}

/// The text of the leaves of two runs, one after the other.
pub proof fn lemma_text_concat(a: Seq<Leaf>, b: Seq<Leaf>)
    ensures
        text_of(a + b) == text_of(a) + text_of(b),
{
    let f = |l: Leaf| l.1;
    assert((a + b).map_values(f) =~= a.map_values(f) + b.map_values(f));
    vstd::seq_lib::lemma_flatten_concat(a.map_values(f), b.map_values(f));
}

/// Adds the text of the leaves under `node` to `out`, from left to right.
pub fn push_text(node: &GreenNode, out: &mut String)
    ensures
        final(out)@ == old(out)@ + text_of(leaves(green_tree(*node))),
    decreases green_tree(*node),
{
    let children = green_children(node);
    let ghost tree = green_tree(*node);
    let ghost elements = children_of(tree);
    assert(elements.len() == children@.len());
    assert(forall|i: int| 0 <= i < children@.len() ==> (#[trigger] children@[i])@ == elements[i]);
    let mut i: usize = 0;
    proof {
        assert(leaves_upto(elements, 0) =~= Seq::empty());
        assert(text_of(Seq::<Leaf>::empty()) =~= Seq::empty()) by {
            assert(Seq::<Leaf>::empty().map_values(|l: Leaf| l.1) =~= Seq::<Seq<char>>::empty());
        }
        assert(old(out)@ + Seq::<char>::empty() =~= old(out)@);
    }
    while i < children.len()
        invariant
            i <= children@.len(),
            tree == green_tree(*node),
            tree is Node,
            elements == children_of(tree),
            elements.len() == children@.len(),
            forall|k: int| 0 <= k < children@.len() ==> (#[trigger] children@[k])@ == elements[k],
            out@ == old(out)@ + text_of(leaves_upto(elements, i as int)),
        decreases children.len() - i,
    {
        let ghost before = out@;
        match &children[i] {
            GreenChild::Node(child) => {
                assert(green_tree(*child) == elements[i as int]);
                push_text(child, out);
            },
            GreenChild::Token(token) => {
                let text = green_token_text(token);
                out.append(text.as_str());
                proof {
                    let leaf = (crate::green::green_leaf(*token).0, text@);
                    assert(leaves(elements[i as int]) =~= seq![leaf]);
                    assert(seq![leaf].map_values(|l: Leaf| l.1) =~= seq![text@]);
                    seq![text@].lemma_flatten_one_element();
                }
            },
        }
        proof {
            lemma_text_concat(leaves_upto(elements, i as int), leaves(elements[i as int]));
            assert(before + text_of(leaves(elements[i as int])) == (old(out)@ + text_of(
                leaves_upto(elements, i as int),
            )) + text_of(leaves(elements[i as int])));
            assert((old(out)@ + text_of(leaves_upto(elements, i as int))) + text_of(
                leaves(elements[i as int]),
            ) =~= old(out)@ + (text_of(leaves_upto(elements, i as int)) + text_of(
                leaves(elements[i as int]),
            )));
        }
        i += 1;
    }
}

/// The text that a tree covers: the texts of its leaves, from left to
/// right.
pub fn text(node: &GreenNode) -> (r: String)
    ensures
        r@ == text_of(leaves(green_tree(*node))),
{
    let mut out = String::new();
    push_text(node, &mut out);
    assert(Seq::<char>::empty() + text_of(leaves(green_tree(*node))) =~= text_of(
        leaves(green_tree(*node)),
    ));
    out
}

} // verus!
