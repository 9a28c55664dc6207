//! What the parser computes, step by step, as functions on a state: the
//! cursor, the elements finished, the nodes and blocks that are open, and
//! the diagnostics.

use crate::green::Element;
use crate::messages::kind_list_text;
use crate::parser::{after_ws, error_leaf_of, expression_end, leaf_of, Tag, Tok};
use crate::syntax::{SyntaxKind, TokenKind};
use vstd::prelude::*;

verus! {

/// The state of the parser, but for the tokens, which never change.
pub struct State {
    /// How many tokens have been moved into the tree.
    pub pos: int,
    /// The elements that are finished.
    pub children: Seq<Element>,
    /// The nodes that are open, each with the index of its first child.
    pub parents: Seq<(u16, int)>,
    /// The blocks that are open.
    pub tags: Seq<Tag>,
    /// The texts of the diagnostics.
    pub errors: Seq<Seq<char>>,
}

/// The number of tokens that are left.
pub open spec fn left(toks: Seq<Tok>, s: State) -> nat {
    if s.pos <= toks.len() {
        (toks.len() - s.pos) as nat
    } else {
        0
    }
}

/// The state that a step has led to, if the cursor has not moved back;
/// else the state before it. No step of the parser moves the cursor back.
pub open spec fn adv(s: State, r: State) -> State {
    if r.pos >= s.pos {
        r
    } else {
        s
    }
}

/// The kind of the token at the cursor.
pub open spec fn s_peek(toks: Seq<Tok>, s: State) -> Option<TokenKind> {
    if 0 <= s.pos < toks.len() {
        Some(toks[s.pos].0)
    } else {
        None
    }
}

/// Whether the token at the cursor is the name `name`.
pub open spec fn s_at_name(toks: Seq<Tok>, s: State, name: Seq<char>) -> bool {
    0 <= s.pos < toks.len() && toks[s.pos] == (TokenKind::Name, name)
}

/// Whether the token at the cursor has the kind `kind`.
pub open spec fn s_at(toks: Seq<Tok>, s: State, kind: TokenKind) -> bool {
    s_peek(toks, s) == Some(kind)
}

/// The elements, with the token at the cursor after them as a leaf.
#[verifier::opaque]
pub open spec fn with_leaf(toks: Seq<Tok>, s: State) -> Seq<Element> {
    s.children.push(leaf_of(toks[s.pos]))
}

/// The elements, with the token at the cursor after them as an error leaf.
#[verifier::opaque]
pub open spec fn with_error_leaf(toks: Seq<Tok>, s: State) -> Seq<Element> {
    s.children.push(error_leaf_of(toks[s.pos]))
}

/// The token at the cursor moves into the tree.
pub open spec fn s_bump(toks: Seq<Tok>, s: State) -> State {
    if 0 <= s.pos < toks.len() {
        State { pos: s.pos + 1, children: with_leaf(toks, s), ..s }
    } else {
        s
    }
}

/// The token at the cursor moves into the tree as an error.
pub open spec fn s_bump_error(toks: Seq<Tok>, s: State) -> State {
    if 0 <= s.pos < toks.len() {
        State { pos: s.pos + 1, children: with_error_leaf(toks, s), ..s }
    } else {
        s
    }
}

/// The whitespace at the cursor moves into the tree, token by token.
pub open spec fn s_skip_ws(toks: Seq<Tok>, s: State) -> State
    decreases left(toks, s),
{
    if s_at(toks, s, TokenKind::Whitespace) {
        s_skip_ws(toks, s_bump(toks, s))
    } else {
        s
    }
}

/// The whitespace at the cursor moves into the tree.
pub open spec fn s_ws(toks: Seq<Tok>, s: State) -> State {
    adv(s, s_skip_ws(toks, s))
}

/// The open nodes, with one more that starts at `at`.
#[verifier::opaque]
pub open spec fn with_parent(s: State, at: int, kind: SyntaxKind) -> Seq<(u16, int)> {
    s.parents.push((kind.raw_spec(), at))
}

/// The open nodes but the innermost.
#[verifier::opaque]
pub open spec fn outer_parents(s: State) -> Seq<(u16, int)> {
    s.parents.drop_last()
}

/// The elements, with those from the first child of the innermost open node
/// on wrapped in that node. A node must be open.
#[verifier::opaque]
pub open spec fn wrapped(s: State) -> Seq<Element> {
    s.children.take(s.parents.last().1).push(
        Element::Node {
            kind: s.parents.last().0,
            children: s.children.skip(s.parents.last().1),
        },
    )
}

/// A node opens.
pub open spec fn s_start(s: State, kind: SyntaxKind) -> State {
    s_start_at(s, s.children.len() as int, kind)
}

/// A node opens with the elements from `at` on as its first children.
pub open spec fn s_start_at(s: State, at: int, kind: SyntaxKind) -> State {
    State { parents: with_parent(s, at, kind), ..s }
}

/// The innermost open node closes: the elements from its first child on
/// become its children.
pub open spec fn s_finish(s: State) -> State {
    if s.parents.len() == 0 {
        s
    } else {
        State { parents: outer_parents(s), children: wrapped(s), ..s }
    }
}

/// The token at the cursor moves into the tree, in a node of its own.
pub open spec fn s_register(toks: Seq<Tok>, s: State, kind: SyntaxKind) -> State {
    s_finish(s_bump(toks, s_start(s, kind)))
}

/// The diagnostics, with one more.
#[verifier::opaque]
pub open spec fn with_error(s: State, message: Seq<char>) -> Seq<Seq<char>> {
    s.errors.push(message)
}

/// A diagnostic is added.
pub open spec fn s_error(s: State, message: Seq<char>) -> State {
    State { errors: with_error(s, message), ..s }
}

/// The diagnostic for a token that recovery passes over.
pub open spec fn unexpected_text(kinds: Seq<TokenKind>, found: TokenKind) -> Seq<char> {
    "expected one of "@ + kind_list_text(kinds) + ", not "@ + found.name_spec()
}

/// Recovery: tokens move into the tree as errors, with a diagnostic each,
/// until the token at the cursor has one of the kinds given or ends the
/// bracket.
pub open spec fn s_error_until(toks: Seq<Tok>, s: State, kinds: Seq<TokenKind>) -> State
    decreases left(toks, s),
{
    match s_peek(toks, s) {
        None => s,
        Some(kind) => if kinds.contains(kind) || expression_end(kind) {
            s
        } else {
            s_error_until(
                toks,
                s_bump_error(toks, s_error(s, unexpected_text(kinds, kind))),
                kinds,
            )
        },
    }
}

/// Recovery, as every caller sees it.
pub open spec fn s_sync(toks: Seq<Tok>, s: State, kinds: Seq<TokenKind>) -> State {
    adv(s, s_error_until(toks, s, kinds))
}

/// What recovery reports where it has stopped: the kind at the cursor if it
/// is one of those looked for.
pub open spec fn s_found(toks: Seq<Tok>, s: State, kinds: Seq<TokenKind>) -> Option<TokenKind> {
    match s_peek(toks, s) {
        Some(kind) => if kinds.contains(kind) {
            Some(kind)
        } else {
            None
        },
        None => None,
    }
}

/// The token after the next one, whitespace not counted.
pub open spec fn s_second(toks: Seq<Tok>, s: State) -> Option<Tok> {
    let second = after_ws(toks, after_ws(toks, s.pos) + 1);
    if 0 <= second < toks.len() {
        Some(toks[second])
    } else {
        None
    }
}

/// The kind of the token after the next one, whitespace not counted.
pub open spec fn s_second_kind(toks: Seq<Tok>, s: State) -> Option<TokenKind> {
    match s_second(toks, s) {
        Some(token) => Some(token.0),
        None => None,
    }
}

} // verus!
