//! The parser's state and the small steps that every part of the grammar
//! is built from: looking at the next token, moving it into the tree,
//! opening and closing nodes, and recovering from a token that does not fit.

use crate::green::{
    all_leaves, builder_checkpoint, builder_children, builder_finish_node, builder_parents,
    builder_start_node, builder_start_node_at, builder_token, checkpoint_index,
    lemma_leaves_concat, lemma_leaves_push, lemma_leaves_wrap, lemma_width_concat, width, Element,
    Leaf,
};
use crate::lexer::{token_views, Token};
use crate::messages::{join3, kind_list};
use crate::model::{
    outer_parents, s_at, s_at_name, with_error, with_error_leaf, with_leaf, with_parent, wrapped,
    s_bump, s_bump_error, s_error, s_error_until, s_finish, s_found, s_peek, s_register, s_second,
    s_second_kind, s_skip_ws, s_start, s_start_at, s_sync, s_ws, State,
};
use crate::syntax::{SyntaxKind, TokenKind};
use rowan::{Checkpoint, GreenNodeBuilder};
use vstd::prelude::*;
use vstd::string::StringExecFns;
use vstd::utf8::encode_utf8;

verus! {

/// A block that a statement has opened and that waits for its end tag.
#[derive(Clone, Copy, Debug, PartialEq, Eq, Structural)]
pub enum Tag {
    Root,
    For,
    ForElse,
    If,
    Elif,
    IfElse,
    SetBlock,
    Call,
    Filter,
    Macro,
    Materialization,
    Test,
    Docs,
    Snapshot,
}

impl Tag {
    /// The name of the tag, as diagnostics print it.
    pub open spec fn name_spec(self) -> Seq<char> {
        match self {
            Tag::Root => "Root"@,
            Tag::For => "For"@,
            Tag::ForElse => "ForElse"@,
            Tag::If => "If"@,
            Tag::Elif => "Elif"@,
            Tag::IfElse => "IfElse"@,
            Tag::SetBlock => "Set"@,
            Tag::Call => "Call"@,
            Tag::Filter => "Filter"@,
            Tag::Macro => "Macro"@,
            Tag::Materialization => "Materialization"@,
            Tag::Test => "Test"@,
            Tag::Docs => "Docs"@,
            Tag::Snapshot => "Snapshot"@,
        }
    }

    pub fn name(self) -> (r: &'static str)
        ensures
            r@ == self.name_spec(),
    {
        match self {
            Tag::Root => "Root",
            Tag::For => "For",
            Tag::ForElse => "ForElse",
            Tag::If => "If",
            Tag::Elif => "Elif",
            Tag::IfElse => "IfElse",
            Tag::SetBlock => "Set",
            Tag::Call => "Call",
            Tag::Filter => "Filter",
            Tag::Macro => "Macro",
            Tag::Materialization => "Materialization",
            Tag::Test => "Test",
            Tag::Docs => "Docs",
            Tag::Snapshot => "Snapshot",
        }
    }
}

/// A token as contracts speak of it: its kind and its text.
pub type Tok = (TokenKind, Seq<char>);

/// The leaf that a token becomes when it is moved into the tree unchanged.
pub open spec fn leaf_of(token: Tok) -> Element {
    Element::Token { kind: SyntaxKind::of_token(token.0).raw_spec(), text: token.1 }
}

/// The leaf that a token becomes when it is moved into the tree as an error.
pub open spec fn error_leaf_of(token: Tok) -> Element {
    Element::Token { kind: SyntaxKind::Error.raw_spec(), text: token.1 }
}

/// Whether a leaf holds a token: the token's text, under the token's kind
/// or under `Error`.
pub open spec fn leaf_holds(leaf: Leaf, token: Tok) -> bool {
    &&& leaf.1 == token.1
    &&& (leaf.0 == SyntaxKind::of_token(token.0).raw_spec() || leaf.0
        == SyntaxKind::Error.raw_spec())
}

/// Whether some leaves hold some tokens, one each, in order.
pub open spec fn lossless(leaves: Seq<Leaf>, tokens: Seq<Tok>) -> bool {
    &&& leaves.len() == tokens.len()
    &&& forall|i: int| 0 <= i < leaves.len() ==> leaf_holds(#[trigger] leaves[i], tokens[i])
}

/// The length in bytes of the text of the first `n` tokens.
pub open spec fn tokens_width(tokens: Seq<Tok>, n: int) -> nat
    decreases n,
{
    if n <= 0 || n > tokens.len() {
        0
    } else {
        tokens_width(tokens, n - 1) + encode_utf8(tokens[n - 1].1).len()
    }
}

/// More tokens have at least the width of fewer.
pub proof fn lemma_tokens_width_grows(tokens: Seq<Tok>, m: int, n: int)
    requires
        0 <= m <= n <= tokens.len(),
    ensures
        tokens_width(tokens, m) <= tokens_width(tokens, n),
    decreases n,
{
    if m < n {
        lemma_tokens_width_grows(tokens, m, n - 1);
    }
}

/// Whether the open nodes of a builder are in order: each starts among the
/// finished elements, and none before the one that encloses it.
pub open spec fn parents_ok(parents: Seq<(u16, int)>, children: int) -> bool {
    &&& forall|i: int| 0 <= i < parents.len() ==> 0 <= (#[trigger] parents[i]).1 <= children
    &&& forall|i: int, j: int|
        0 <= i < j < parents.len() ==> (#[trigger] parents[i]).1 <= (#[trigger] parents[j]).1
}

/// The index of the first token at or after `from` that is not whitespace;
/// the number of tokens if there is none.
pub open spec fn after_ws(tokens: Seq<Tok>, from: int) -> int
    decreases tokens.len() - from,
{
    if from < 0 || from >= tokens.len() {
        from
    } else if tokens[from].0 == TokenKind::Whitespace {
        after_ws(tokens, from + 1)
    } else {
        from
    }
}

/// Whether a kind ends the bracket that expressions are written in.
pub open spec fn expression_end(kind: TokenKind) -> bool {
    kind == TokenKind::VariableEnd || kind == TokenKind::BlockEnd
}

/// The index of the first token at or after `from` at which recovery
/// stops: one whose kind is among `kinds` or ends the bracket; the number
/// of tokens if there is none.
pub open spec fn sync_index(tokens: Seq<Tok>, from: int, kinds: Seq<TokenKind>) -> int
    decreases tokens.len() - from,
{
    if from < 0 || from >= tokens.len() {
        from
    } else if kinds.contains(tokens[from].0) || expression_end(tokens[from].0) {
        from
    } else {
        sync_index(tokens, from + 1, kinds)
    }
}

/// What the parser holds while it works: the tokens and how many of them
/// it has moved into the tree, the builder of the tree, the blocks that are
/// open, and the diagnostics so far.
pub(crate) struct Parser {
    pub(crate) tokens: Vec<Token>,
    pub(crate) pos: usize,
    pub(crate) builder: GreenNodeBuilder<'static>,
    pub(crate) tag_stack: Vec<Tag>,
    pub(crate) errors: Vec<String>,
}

impl Parser {
    /// The tokens as contracts speak of them.
    pub(crate) open spec fn toks(&self) -> Seq<Tok> {
        token_views(self.tokens@)
    }

    /// The elements that the builder has finished.
    pub(crate) open spec fn children(&self) -> Seq<Element> {
        builder_children(self.builder)
    }

    /// The nodes that the builder has open.
    pub(crate) open spec fn parents(&self) -> Seq<(u16, int)> {
        builder_parents(self.builder)
    }

    /// The texts of the diagnostics.
    pub(crate) open spec fn error_texts(&self) -> Seq<Seq<char>> {
        self.errors@.map_values(|e: String| e@)
    }

    /// The state, as the model of the parser sees it.
    pub(crate) open spec fn state(&self) -> State {
        State {
            pos: self.pos as int,
            children: self.children(),
            parents: self.parents(),
            tags: self.tag_stack@,
            errors: self.error_texts(),
        }
    }

    /// The number of tokens that are left.
    pub(crate) open spec fn left(&self) -> int {
        self.tokens@.len() - self.pos
    }

    /// The kind of the token at the cursor.
    pub(crate) open spec fn peek(&self) -> Option<TokenKind> {
        if self.pos < self.tokens@.len() {
            Some(self.toks()[self.pos as int].0)
        } else {
            None
        }
    }

    /// What holds of the parser between any two steps: the leaves of the
    /// tree hold the tokens before the cursor, one each and in order; the
    /// open nodes are in order; and the whole text fits a node.
    pub(crate) open spec fn inv(&self) -> bool {
        &&& self.pos <= self.tokens@.len()
        &&& lossless(all_leaves(self.children()), self.toks().take(self.pos as int))
        &&& width(all_leaves(self.children())) == tokens_width(self.toks(), self.pos as int)
        &&& tokens_width(self.toks(), self.toks().len() as int) <= u32::MAX
        &&& parents_ok(self.parents(), self.children().len() as int)
    }

    /// The floor below which the next step may not reach: the first child
    /// of the innermost open node.
    pub(crate) open spec fn floor(&self) -> int {
        if self.parents().len() > 0 {
            self.parents().last().1
        } else {
            0
        }
    }

    /// What every step keeps: the tokens, the elements before `from`, and
    /// the diagnostics made so far. The cursor does not move back.
    pub(crate) open spec fn keeps(&self, before: Parser, from: int) -> bool {
        &&& self.inv()
        &&& self.tokens == before.tokens
        &&& before.pos <= self.pos
        &&& from <= self.children().len()
        &&& forall|i: int| 0 <= i < from ==> #[trigger] self.children()[i] == before.children()[i]
        &&& before.errors@.len() <= self.errors@.len()
        &&& forall|i: int|
            0 <= i < before.errors@.len() ==> #[trigger] self.errors@[i] == before.errors@[i]
    }

    /// What holds while a node that was opened at `at` is being filled:
    /// all that `keeps` says, with that node as the innermost open one.
    pub(crate) open spec fn opened(&self, before: Parser, kind: SyntaxKind, at: int) -> bool {
        &&& self.keeps(before, at)
        &&& self.parents() == before.parents().push((kind.raw_spec(), at))
        &&& self.tag_stack@ == before.tag_stack@
    }

    /// Whether the stacks have the shape that they keep while a template is
    /// parsed: `Root` is the lowest open block and no other, and the
    /// template's node is the outermost open node.
    pub(crate) open spec fn template_open(&self) -> bool {
        &&& self.tag_stack@.len() >= 1
        &&& self.tag_stack@[0] == Tag::Root
        &&& forall|i: int| 1 <= i < self.tag_stack@.len() ==> self.tag_stack@[i] != Tag::Root
        &&& self.parents().len() >= 1
        &&& self.parents()[0] == (SyntaxKind::Template.raw_spec(), 0int)
    }

    /// What holds of the parser while a statement is parsed: beside the open
    /// blocks, each with its node, `extra` nodes are open.
    pub(crate) open spec fn pending(&self, extra: int) -> bool {
        &&& self.inv()
        &&& self.template_open()
        &&& self.parents().len() == self.tag_stack@.len() + extra
    }

    /// Whether the innermost open node starts with the token that was at the
    /// cursor of `before`: the opening delimiter of a statement.
    pub(crate) open spec fn holds_opening(&self, before: Parser) -> bool {
        &&& self.parents().len() > 0
        &&& 0 <= self.floor() < self.children().len()
        &&& self.children()[self.floor()] == leaf_of(before.toks()[before.pos as int])
    }

    /// What a step keeps that opens no node for good and closes none: all
    /// that `keeps` says, the open nodes and the open blocks.
    pub(crate) open spec fn follows(&self, before: Parser, from: int) -> bool {
        &&& self.keeps(before, from)
        &&& self.parents() == before.parents()
        &&& self.tag_stack@ == before.tag_stack@
    }

    /// The kind of the token at the cursor.
    pub(crate) fn current(&self) -> (r: Option<TokenKind>)
        requires
            self.pos <= self.tokens@.len(),
        ensures
            r == self.peek(),
            r == s_peek(self.toks(), self.state()),
    {
        if self.pos < self.tokens.len() {
            Some(self.tokens[self.pos].kind)
        } else {
            None
        }
    }

    /// Whether the token at the cursor has the given kind.
    pub(crate) fn at(&self, kind: TokenKind) -> (r: bool)
        requires
            self.pos <= self.tokens@.len(),
        ensures
            r == (self.peek() == Some(kind)),
            r == s_at(self.toks(), self.state(), kind),
    {
        self.pos < self.tokens.len() && self.tokens[self.pos].kind == kind
    }

    /// Whether the token at the cursor is the name `name`.
    pub(crate) fn at_name(&self, name: &str) -> (r: bool)
        requires
            self.pos <= self.tokens@.len(),
        ensures
            r == (self.pos < self.tokens@.len() && self.toks()[self.pos as int] == (
                TokenKind::Name,
                name@,
            )),
            r == s_at_name(self.toks(), self.state(), name@),
    {
        self.pos < self.tokens.len() && self.tokens[self.pos].is_name(name)
    }

    /// The index of the first token at or after `from` that is not
    /// whitespace.
    pub(crate) fn index_after_ws(&self, from: usize) -> (r: usize)
        requires
            from <= self.tokens@.len(),
        ensures
            r == after_ws(self.toks(), from as int),
            from <= r <= self.tokens@.len(),
    {
        let mut i = from;
        while i < self.tokens.len() && self.tokens[i].kind == TokenKind::Whitespace
            invariant
                from <= i <= self.tokens@.len(),
                after_ws(self.toks(), from as int) == after_ws(self.toks(), i as int),
            decreases self.tokens@.len() - i,
        {
            i += 1;
        }
        i
    }

    /// The index of the token after the next one, whitespace not counted.
    pub(crate) open spec fn second_index(&self) -> int {
        after_ws(self.toks(), after_ws(self.toks(), self.pos as int) + 1)
    }

    /// The token after the next one, whitespace not counted.
    pub(crate) fn next_nonws_tok(&self) -> (r: Option<&Token>)
        requires
            self.pos <= self.tokens@.len(),
        ensures
            r == (if self.second_index() < self.tokens@.len() {
                Some(&self.tokens@[self.second_index()])
            } else {
                None
            }),
            match r {
                Some(token) => s_second(self.toks(), self.state()) == Some(token@),
                None => s_second(self.toks(), self.state()) is None,
            },
    {
        let first = self.index_after_ws(self.pos);
        if first >= self.tokens.len() {
            return None;
        }
        let second = self.index_after_ws(first + 1);
        if second >= self.tokens.len() {
            return None;
        }
        assert(self.toks()[second as int] == self.tokens@[second as int]@);
        Some(&self.tokens[second])
    }

    /// The kind of the token after the next one, whitespace not counted.
    pub(crate) fn next_nonws_kind(&self) -> (r: Option<TokenKind>)
        requires
            self.pos <= self.tokens@.len(),
        ensures
            r == (if self.second_index() < self.tokens@.len() {
                Some(self.toks()[self.second_index()].0)
            } else {
                None
            }),
            r == s_second_kind(self.toks(), self.state()),
    {
        let first = self.index_after_ws(self.pos);
        if first >= self.tokens.len() {
            return None;
        }
        let second = self.index_after_ws(first + 1);
        if second >= self.tokens.len() {
            return None;
        }
        assert(self.toks()[second as int] == self.tokens@[second as int]@);
        Some(self.tokens[second].kind)
    }

    /// Adds a diagnostic.
    pub(crate) fn error(&mut self, message: String)
        ensures
            final(self).tokens == old(self).tokens,
            final(self).pos == old(self).pos,
            final(self).builder == old(self).builder,
            final(self).tag_stack == old(self).tag_stack,
            final(self).errors@ == old(self).errors@.push(message),
            final(self).state() == s_error(old(self).state(), message@),
    {
        self.errors.push(message);
        proof {
            reveal(with_error);
        }
        assert(self.error_texts() =~= old(self).error_texts().push(message@));
    }

    /// Adds a diagnostic with a fixed text.
    pub(crate) fn error_str(&mut self, message: &str)
        ensures
            final(self).tokens == old(self).tokens,
            final(self).pos == old(self).pos,
            final(self).builder == old(self).builder,
            final(self).tag_stack == old(self).tag_stack,
            final(self).errors@.len() == old(self).errors@.len() + 1,
            forall|i: int|
                0 <= i < old(self).errors@.len() ==> #[trigger] final(self).errors@[i] == old(
                    self,
                ).errors@[i],
            final(self).errors@.last()@ == message@,
            final(self).state() == s_error(old(self).state(), message@),
    {
        self.errors.push(message.to_owned());
        proof {
            reveal(with_error);
        }
        assert(self.error_texts() =~= old(self).error_texts().push(message@));
    }

    /// Moves the token at the cursor into the tree, under the kind given.
    fn emit(&mut self, error: bool)
        requires
            old(self).inv(),
            old(self).pos < old(self).tokens@.len(),
        ensures
            final(self).follows(*old(self), old(self).children().len() as int),
            final(self).pos == old(self).pos + 1,
            final(self).errors == old(self).errors,
            final(self).children() == old(self).children().push(
                if error {
                    error_leaf_of(old(self).toks()[old(self).pos as int])
                } else {
                    leaf_of(old(self).toks()[old(self).pos as int])
                },
            ),
            final(self).state() == (if error {
                s_bump_error(old(self).toks(), old(self).state())
            } else {
                s_bump(old(self).toks(), old(self).state())
            }),
    {
        let kind = if error {
            SyntaxKind::Error
        } else {
            SyntaxKind::from(self.tokens[self.pos].kind)
        };
        let ghost token = self.toks()[self.pos as int];
        let ghost leaf = if error {
            error_leaf_of(token)
        } else {
            leaf_of(token)
        };
        proof {
            reveal(with_leaf);
            reveal(with_error_leaf);
        }
        let count = self.tokens.len();
        builder_token(&mut self.builder, kind.raw(), self.tokens[self.pos].text.as_str());
        self.pos = self.pos + 1;
        proof {
            let before = old(self).children();
            lemma_leaves_push(before, leaf);
            let leaves = all_leaves(self.children());
            assert(leaves =~= all_leaves(before).push((kind.raw_spec(), token.1)));
            assert(self.toks().take(self.pos as int) =~= self.toks().take(old(self).pos as int).push(
                token,
            ));
            assert(leaves.drop_last() =~= all_leaves(before));
        }
    }

    /// Moves the token at the cursor into the tree.
    pub(crate) fn bump(&mut self)
        requires
            old(self).inv(),
            old(self).pos < old(self).tokens@.len(),
        ensures
            final(self).follows(*old(self), old(self).children().len() as int),
            final(self).pos == old(self).pos + 1,
            final(self).errors == old(self).errors,
            final(self).children() == old(self).children().push(
                leaf_of(old(self).toks()[old(self).pos as int]),
            ),
            final(self).state() == s_bump(old(self).toks(), old(self).state()),
    {
        self.emit(false)
    }

    /// Moves the token at the cursor into the tree as an error.
    pub(crate) fn bump_error(&mut self)
        requires
            old(self).inv(),
            old(self).pos < old(self).tokens@.len(),
        ensures
            final(self).follows(*old(self), old(self).children().len() as int),
            final(self).pos == old(self).pos + 1,
            final(self).errors == old(self).errors,
            final(self).children() == old(self).children().push(
                error_leaf_of(old(self).toks()[old(self).pos as int]),
            ),
            final(self).state() == s_bump_error(old(self).toks(), old(self).state()),
    {
        self.emit(true)
    }

    /// Moves the opening delimiter of a statement into the tree, and the
    /// tag name that follows it.
    pub(crate) fn bump_tag(&mut self)
        requires
            old(self).inv(),
            old(self).pos < old(self).tokens@.len(),
            after_ws(old(self).toks(), old(self).pos + 1) < old(self).tokens@.len(),
        ensures
            final(self).follows(*old(self), old(self).children().len() as int),
            final(self).pos == after_ws(old(self).toks(), old(self).pos + 1) + 1,
            final(self).pos >= old(self).pos + 2,
            final(self).errors == old(self).errors,
            final(self).children().len() > old(self).children().len(),
            final(self).children()[old(self).children().len() as int] == leaf_of(
                old(self).toks()[old(self).pos as int],
            ),
            final(self).state() == s_bump(
                old(self).toks(),
                s_ws(old(self).toks(), s_bump(old(self).toks(), old(self).state())),
            ),
    {
        self.bump();
        self.skip_ws();
        self.bump();
    }

    /// Moves the whitespace at the cursor into the tree.
    pub(crate) fn skip_ws(&mut self)
        requires
            old(self).inv(),
        ensures
            final(self).follows(*old(self), old(self).children().len() as int),
            final(self).pos == after_ws(old(self).toks(), old(self).pos as int),
            final(self).errors == old(self).errors,
            final(self).peek() != Some(TokenKind::Whitespace),
            final(self).state() == s_ws(old(self).toks(), old(self).state()),
    {
        while self.at(TokenKind::Whitespace)
            invariant
                self.follows(*old(self), old(self).children().len() as int),
                self.errors == old(self).errors,
                s_skip_ws(old(self).toks(), old(self).state()) == s_skip_ws(
                    self.toks(),
                    self.state(),
                ),
                after_ws(old(self).toks(), old(self).pos as int) == after_ws(
                    self.toks(),
                    self.pos as int,
                ),
            decreases self.left(),
        {
            self.bump();
        }
    }

    /// Opens a node.
    pub(crate) fn start_node(&mut self, kind: SyntaxKind)
        requires
            old(self).inv(),
        ensures
            final(self).keeps(*old(self), old(self).children().len() as int),
            final(self).pos == old(self).pos,
            final(self).errors == old(self).errors,
            final(self).tag_stack == old(self).tag_stack,
            final(self).children() == old(self).children(),
            final(self).parents() == old(self).parents().push(
                (kind.raw_spec(), old(self).children().len() as int),
            ),
            final(self).state() == s_start(old(self).state(), kind),
    {
        proof {
            reveal(with_parent);
        }
        builder_start_node(&mut self.builder, kind.raw());
    }

    /// Closes the innermost open node: the elements from its first child on
    /// become its children.
    pub(crate) fn finish_node(&mut self)
        requires
            old(self).inv(),
            old(self).parents().len() > 0,
        ensures
            final(self).keeps(*old(self), old(self).floor()),
            final(self).pos == old(self).pos,
            final(self).errors == old(self).errors,
            final(self).tag_stack == old(self).tag_stack,
            final(self).parents() == old(self).parents().drop_last(),
            forall|outer: Seq<(u16, int)>, inner: (u16, int)|
                old(self).parents() == #[trigger] outer.push(inner) ==> final(self).parents()
                    == outer,
            final(self).children() == old(self).children().take(old(self).floor()).push(
                Element::Node {
                    kind: old(self).parents().last().0,
                    children: old(self).children().skip(old(self).floor()),
                },
            ),
            final(self).state() == s_finish(old(self).state()),
    {
        proof {
            reveal(outer_parents);
            reveal(wrapped);
            let children = self.children();
            let first = self.floor();
            lemma_leaves_concat(children.take(first), children.skip(first));
            assert(children.take(first) + children.skip(first) =~= children);
            lemma_width_concat(all_leaves(children.take(first)), all_leaves(children.skip(first)));
            lemma_tokens_width_grows(self.toks(), self.pos as int, self.toks().len() as int);
            lemma_leaves_wrap(children, first, self.parents().last().0);
            assert forall|outer: Seq<(u16, int)>, inner: (u16, int)|
                self.parents() == #[trigger] outer.push(inner) implies self.parents().drop_last()
                == outer by {
                assert(outer.push(inner).drop_last() =~= outer);
            }
        }
        builder_finish_node(&mut self.builder);
    }

    /// Remembers the place in the tree where a node may yet be opened.
    pub(crate) fn checkpoint(&self) -> (c: Checkpoint)
        ensures
            checkpoint_index(c) == self.children().len(),
            checkpoint_index(c) == self.state().children.len(),
    {
        builder_checkpoint(&self.builder)
    }

    /// Opens a node at a place remembered earlier: the elements finished
    /// since then become its first children.
    pub(crate) fn start_node_at(&mut self, c: Checkpoint, kind: SyntaxKind)
        requires
            old(self).inv(),
            old(self).floor() <= checkpoint_index(c) <= old(self).children().len(),
        ensures
            final(self).keeps(*old(self), old(self).children().len() as int),
            final(self).pos == old(self).pos,
            final(self).errors == old(self).errors,
            final(self).tag_stack == old(self).tag_stack,
            final(self).children() == old(self).children(),
            final(self).parents() == old(self).parents().push(
                (kind.raw_spec(), checkpoint_index(c)),
            ),
            final(self).state() == s_start_at(old(self).state(), checkpoint_index(c), kind),
    {
        proof {
            reveal(with_parent);
        }
        builder_start_node_at(&mut self.builder, c, kind.raw());
    }

    /// Moves the token at the cursor into the tree, in a node of its own.
    pub(crate) fn register(&mut self, kind: SyntaxKind)
        requires
            old(self).inv(),
            old(self).pos < old(self).tokens@.len(),
        ensures
            final(self).follows(*old(self), old(self).children().len() as int),
            final(self).pos == old(self).pos + 1,
            final(self).errors == old(self).errors,
            final(self).children() == old(self).children().push(
                Element::Node {
                    kind: kind.raw_spec(),
                    children: seq![leaf_of(old(self).toks()[old(self).pos as int])],
                },
            ),
            final(self).state() == s_register(old(self).toks(), old(self).state(), kind),
    {
        self.start_node(kind);
        self.bump();
        self.finish_node();
        proof {
            let n = old(self).children().len() as int;
            let leaf = leaf_of(old(self).toks()[old(self).pos as int]);
            assert(old(self).children().push(leaf).take(n) =~= old(self).children());
            assert(old(self).children().push(leaf).skip(n) =~= seq![leaf]);
            assert(old(self).parents().push((kind.raw_spec(), n)).drop_last() =~= old(
                self,
            ).parents());
        }
    }

    /// Moves tokens into the tree as errors, with a diagnostic each, until
    /// the token at the cursor has one of the kinds given or ends the
    /// bracket. Returns the kind found if it is one of those given.
    pub(crate) fn error_until(&mut self, kinds: &[TokenKind]) -> (r: Option<TokenKind>)
        requires
            old(self).inv(),
        ensures
            final(self).follows(*old(self), old(self).children().len() as int),
            final(self).pos == sync_index(old(self).toks(), old(self).pos as int, kinds@),
            final(self).errors@.len() == old(self).errors@.len() + (final(self).pos - old(
                self,
            ).pos),
            final(self).children().len() == old(self).children().len() + (final(self).pos - old(
                self,
            ).pos),
            forall|i: int|
                old(self).pos <= i < final(self).pos ==> final(self).children()[old(
                    self,
                ).children().len() + i - old(self).pos] == error_leaf_of(
                    #[trigger] old(self).toks()[i],
                ),
            r == final(self).peek() || r is None,
            r is Some <==> final(self).peek() is Some && kinds@.contains(final(self).peek()->0),
            r is None && final(self).peek() is Some ==> expression_end(final(self).peek()->0),
            final(self).state() == s_sync(old(self).toks(), old(self).state(), kinds@),
            r == s_found(old(self).toks(), final(self).state(), kinds@),
    {
        loop
            invariant
                self.follows(*old(self), old(self).children().len() as int),
                s_error_until(old(self).toks(), old(self).state(), kinds@) == s_error_until(
                    self.toks(),
                    self.state(),
                    kinds@,
                ),
                sync_index(old(self).toks(), old(self).pos as int, kinds@) == sync_index(
                    self.toks(),
                    self.pos as int,
                    kinds@,
                ),
                self.errors@.len() == old(self).errors@.len() + (self.pos - old(self).pos),
                self.children().len() == old(self).children().len() + (self.pos - old(self).pos),
                forall|i: int|
                    old(self).pos <= i < self.pos ==> self.children()[old(self).children().len()
                        + i - old(self).pos] == error_leaf_of(#[trigger] old(self).toks()[i]),
            decreases self.left(),
        {
            match self.current() {
                None => {
                    return None;
                },
                Some(kind) => {
                    if kind_in(kinds, kind) {
                        return Some(kind);
                    }
                    if is_expression_end(kind) {
                        return None;
                    }
                    let mut message = join3("expected one of ", kind_list(kinds).as_str(), ", not ");
                    message.append(kind.name());
                    self.error(message);
                    self.bump_error();
                },
            }
        }
    }
}

impl Parser {
    /// Recovery up to the end of the bracket.
    pub(crate) fn sync0(&mut self) -> (r: Option<TokenKind>)
        requires
            old(self).inv(),
        ensures
            final(self).follows(*old(self), old(self).children().len() as int),
            final(self).state() == s_sync(old(self).toks(), old(self).state(), Seq::empty()),
            r == s_found(old(self).toks(), final(self).state(), Seq::empty()),
            r is None,
    {
        let kinds: [TokenKind; 0] = [];
        assert(kinds@ =~= Seq::empty());
        self.error_until(&kinds)
    }

    /// Recovery up to a token of the kind given.
    pub(crate) fn sync1(&mut self, a: TokenKind) -> (r: Option<TokenKind>)
        requires
            old(self).inv(),
        ensures
            final(self).follows(*old(self), old(self).children().len() as int),
            final(self).state() == s_sync(old(self).toks(), old(self).state(), seq![a]),
            r == s_found(old(self).toks(), final(self).state(), seq![a]),
            r is Some ==> r == Some(a) && final(self).peek() == Some(a),
    {
        let kinds = [a];
        assert(kinds@ =~= seq![a]);
        self.error_until(&kinds)
    }

    /// Recovery up to a token of one of the two kinds given.
    pub(crate) fn sync2(&mut self, a: TokenKind, b: TokenKind) -> (r: Option<TokenKind>)
        requires
            old(self).inv(),
        ensures
            final(self).follows(*old(self), old(self).children().len() as int),
            final(self).state() == s_sync(old(self).toks(), old(self).state(), seq![a, b]),
            r == s_found(old(self).toks(), final(self).state(), seq![a, b]),
            r is Some ==> (r == Some(a) || r == Some(b)) && final(self).peek() == r,
    {
        let kinds = [a, b];
        assert(kinds@ =~= seq![a, b]);
        self.error_until(&kinds)
    }
}

/// Whether a checkpoint marks the end of the elements that a parser has
/// finished.
pub(crate) open spec fn checkpoint_at(c: Checkpoint, parser: Parser) -> bool {
    checkpoint_index(c) == parser.children().len()
}

/// Whether a node can be opened at a checkpoint: it lies among the children
/// of the innermost open node, or at their end.
pub(crate) open spec fn checkpoint_within(c: Checkpoint, parser: Parser) -> bool {
    parser.floor() <= checkpoint_index(c) <= parser.children().len()
}

/// Where a chain of filters starts: at the checkpoint, or where none is
/// given, at the end of the elements finished so far.
pub(crate) open spec fn filter_floor(c: Option<Checkpoint>, parser: Parser) -> int {
    match c {
        Some(c) => checkpoint_index(c),
        None => parser.children().len() as int,
    }
}

/// Whether a tag is among those given.
pub(crate) fn tag_in(tags: &[Tag], tag: Tag) -> (r: bool)
    ensures
        r == tags@.contains(tag),
{
    let mut i: usize = 0;
    while i < tags.len()
        invariant
            i <= tags@.len(),
            forall|k: int| 0 <= k < i ==> tags@[k] != tag,
        decreases tags.len() - i,
    {
        if tags[i] == tag {
            return true;
        }
        i += 1;
    }
    false
}

/// Whether a kind is among those given.
pub(crate) fn kind_in(kinds: &[TokenKind], kind: TokenKind) -> (r: bool)
    ensures
        r == kinds@.contains(kind),
{
    let mut i: usize = 0;
    while i < kinds.len()
        invariant
            i <= kinds@.len(),
            forall|k: int| 0 <= k < i ==> kinds@[k] != kind,
        decreases kinds.len() - i,
    {
        if kinds[i] == kind {
            return true;
        }
        i += 1;
    }
    false
}

/// Whether a kind ends the bracket that expressions are written in.
pub(crate) fn is_expression_end(kind: TokenKind) -> (r: bool)
    ensures
        r == expression_end(kind),
{
    matches!(kind, TokenKind::VariableEnd | TokenKind::BlockEnd)
}

} // verus!
