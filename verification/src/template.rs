//! A whole template: text, raw blocks, comments, variables and statements,
//! with the blocks that statements open and close.

use crate::green::{
    all_leaves, builder_finish, builder_new, children_of, green_clone, green_tree, kind_of,
    leaves, Element, Leaf,
};
use crate::cst::text_of;
use crate::lexer::{
    lemma_tokens_round_trip, texts, token_views, tokenize, tokens_of, unlexed, Token,
};
use crate::messages::join2;
use crate::rules::{refused, table_rules};
use crate::template_grammar::{
    parsed_errors, parsed_tree, s_pop_tag, s_push_tag, sp_items, sp_template, start_state,
};
use crate::parser::{lossless, tokens_width, Parser, Tag, Tok};
use crate::syntax::{SyntaxKind, TokenKind};
use crate::text::{byte_len, str_eq};
use rowan::GreenNode;
use vstd::prelude::*;
use vstd::string::StringSliceAdditionalSpecFns;
use vstd::utf8::encode_utf8;

verus! {

/// What the name after `{%` asks for.
#[derive(Clone, Copy, Debug, PartialEq, Eq, Structural)]
pub enum Keyword {
    For,
    EndFor,
    If,
    Elif,
    Else,
    EndIf,
    Assign,
    EndAssign,
    Call,
    EndCall,
    Filter,
    EndFilter,
    Do,
    Macro,
    EndMacro,
    Materialization,
    EndMaterialization,
    Test,
    EndTest,
    Docs,
    EndDocs,
    Snapshot,
    EndSnapshot,
    /// A tag of the language that this parser leaves alone.
    Unsupported,
    Raw,
    EndRaw,
    Unknown,
}

/// The keyword that a tag name stands for.
pub open spec fn keyword_of(name: Seq<char>) -> Keyword {
    if name == "for"@ {
        Keyword::For
    } else if name == "endfor"@ {
        Keyword::EndFor
    } else if name == "if"@ {
        Keyword::If
    } else if name == "elif"@ {
        Keyword::Elif
    } else if name == "endif"@ {
        Keyword::EndIf
    } else if name == "else"@ {
        Keyword::Else
    } else if name == "set"@ {
        Keyword::Assign
    } else if name == "endset"@ {
        Keyword::EndAssign
    } else if name == "call"@ {
        Keyword::Call
    } else if name == "endcall"@ {
        Keyword::EndCall
    } else if name == "filter"@ {
        Keyword::Filter
    } else if name == "endfilter"@ {
        Keyword::EndFilter
    } else if name == "do"@ {
        Keyword::Do
    } else if name == "macro"@ {
        Keyword::Macro
    } else if name == "endmacro"@ {
        Keyword::EndMacro
    } else if name == "materialization"@ {
        Keyword::Materialization
    } else if name == "endmaterialization"@ {
        Keyword::EndMaterialization
    } else if name == "test"@ {
        Keyword::Test
    } else if name == "endtest"@ {
        Keyword::EndTest
    } else if name == "docs"@ {
        Keyword::Docs
    } else if name == "enddocs"@ {
        Keyword::EndDocs
    } else if name == "snapshot"@ {
        Keyword::Snapshot
    } else if name == "endsnapshot"@ {
        Keyword::EndSnapshot
    } else if name == "block"@ || name == "endblock"@ || name == "extends"@ || name == "include"@
        || name == "import"@ || name == "from"@ || name == "with"@ || name == "endwith"@ || name
        == "autoescape"@ || name == "endautoescape"@ {
        Keyword::Unsupported
    } else if name == "raw"@ {
        Keyword::Raw
    } else if name == "endraw"@ {
        Keyword::EndRaw
    } else {
        Keyword::Unknown
    }
}

/// Finds the keyword that a tag name stands for.
pub fn keyword(name: &str) -> (r: Keyword)
    ensures
        r == keyword_of(name@),
{
    if str_eq(name, "for") {
        Keyword::For
    } else if str_eq(name, "endfor") {
        Keyword::EndFor
    } else if str_eq(name, "if") {
        Keyword::If
    } else if str_eq(name, "elif") {
        Keyword::Elif
    } else if str_eq(name, "endif") {
        Keyword::EndIf
    } else if str_eq(name, "else") {
        Keyword::Else
    } else if str_eq(name, "set") {
        Keyword::Assign
    } else if str_eq(name, "endset") {
        Keyword::EndAssign
    } else if str_eq(name, "call") {
        Keyword::Call
    } else if str_eq(name, "endcall") {
        Keyword::EndCall
    } else if str_eq(name, "filter") {
        Keyword::Filter
    } else if str_eq(name, "endfilter") {
        Keyword::EndFilter
    } else if str_eq(name, "do") {
        Keyword::Do
    } else if str_eq(name, "macro") {
        Keyword::Macro
    } else if str_eq(name, "endmacro") {
        Keyword::EndMacro
    } else if str_eq(name, "materialization") {
        Keyword::Materialization
    } else if str_eq(name, "endmaterialization") {
        Keyword::EndMaterialization
    } else if str_eq(name, "test") {
        Keyword::Test
    } else if str_eq(name, "endtest") {
        Keyword::EndTest
    } else if str_eq(name, "docs") {
        Keyword::Docs
    } else if str_eq(name, "enddocs") {
        Keyword::EndDocs
    } else if str_eq(name, "snapshot") {
        Keyword::Snapshot
    } else if str_eq(name, "endsnapshot") {
        Keyword::EndSnapshot
    } else if str_eq(name, "block") || str_eq(name, "endblock") || str_eq(name, "extends")
        || str_eq(name, "include") || str_eq(name, "import") || str_eq(name, "from") || str_eq(
        name,
        "with",
    ) || str_eq(name, "endwith") || str_eq(name, "autoescape") || str_eq(name, "endautoescape") {
        Keyword::Unsupported
    } else if str_eq(name, "raw") {
        Keyword::Raw
    } else if str_eq(name, "endraw") {
        Keyword::EndRaw
    } else {
        Keyword::Unknown
    }
}

/// The number of blocks, from the lowest on, that stay open when the
/// blocks above the topmost one among `end_tags` are closed: one more than
/// that block's index among the first `n`; 0 if none of them is among
/// `end_tags`.
pub open spec fn kept_tags(tags: Seq<Tag>, end_tags: Seq<Tag>, n: int) -> int
    decreases n,
{
    if n <= 0 || n > tags.len() {
        0
    } else if end_tags.contains(tags[n - 1]) {
        n
    } else {
        kept_tags(tags, end_tags, n - 1)
    }
}

/// Where `Root` is the lowest block and no other, and `Root` alone is looked
/// for, one block stays open.
pub proof fn lemma_kept_root(tags: Seq<Tag>, end_tags: Seq<Tag>, n: int)
    requires
        1 <= n <= tags.len(),
        tags[0] == Tag::Root,
        forall|i: int| 1 <= i < tags.len() ==> tags[i] != Tag::Root,
        forall|tag: Tag| end_tags.contains(tag) <==> tag == Tag::Root,
    ensures
        kept_tags(tags, end_tags, n) == 1,
    decreases n,
{
    if n > 1 {
        lemma_kept_root(tags, end_tags, n - 1);
    }
}

/// What parsing gives: the syntax tree and the diagnostics, in the order in
/// which they were made.
pub struct Parse {
    green_node: GreenNode,
    errors: Vec<String>,
}

impl Parse {
    /// The tree.
    pub closed spec fn tree(&self) -> Element {
        green_tree(self.green_node)
    }

    /// The diagnostics.
    pub closed spec fn diagnostics(&self) -> Seq<String> {
        self.errors@
    }

    /// The texts of the diagnostics.
    pub open spec fn messages(&self) -> Seq<Seq<char>> {
        self.diagnostics().map_values(|e: String| e@)
    }

    /// A handle on the tree.
    pub fn green(&self) -> (node: GreenNode)
        ensures
            green_tree(node) == self.tree(),
    {
        green_clone(&self.green_node)
    }

    /// The diagnostics, in the order in which they were made.
    pub fn errors(&self) -> (errors: &Vec<String>)
        ensures
            errors@ == self.diagnostics(),
    {
        &self.errors
    }
}

/// Whether a tree holds some tokens: it is a `Template` node whose leaves
/// hold the tokens, one each and in order, each under its token's kind or
/// under `Error`.
pub open spec fn tree_of(tree: Element, tokens: Seq<Tok>) -> bool {
    &&& tree is Node
    &&& kind_of(tree) == SyntaxKind::Template.raw_spec()
    &&& lossless(leaves(tree), tokens)
}

/// Parses a sequence of tokens into a tree. Every token becomes a leaf;
/// where the tokens do not fit the grammar, diagnostics say so, and the
/// tree is built all the same. The text of all tokens together must fit a
/// node, which holds its length in 32 bits.
pub fn parse(tokens: Vec<Token>) -> (parsed: Parse)
    requires
        tokens_width(token_views(tokens@), tokens@.len() as int) <= u32::MAX,
    ensures
        parsed.tree() == parsed_tree(token_views(tokens@)),
        parsed.messages() == parsed_errors(token_views(tokens@)),
        tree_of(parsed.tree(), token_views(tokens@)),
        sp_template(token_views(tokens@)).parents.len() == 0,
        sp_template(token_views(tokens@)).children.len() == 1,
        tokens@.len() == 0 ==> children_of(parsed.tree()).len() == 0
            && parsed.diagnostics().len() == 0,
{
    let ghost toks = token_views(tokens@);
    let mut parser = Parser {
        tokens,
        pos: 0,
        builder: builder_new(),
        tag_stack: Vec::new(),
        errors: Vec::new(),
    };
    assert(all_leaves(parser.children()) =~= Seq::empty());
    assert(parser.toks().take(0) =~= Seq::empty());
    assert(parser.error_texts() =~= Seq::empty());
    assert(parser.state() == start_state());
    parser.start_node(SyntaxKind::Template);
    let ghost opened = parser.state();
    parser.tag_stack.push(Tag::Root);
    assert(parser.state() == s_push_tag(opened, Tag::Root));
    let ghost start = parser;
    let ghost target = sp_items(toks, parser.state());
    loop
        invariant_except_break
            sp_items(toks, parser.state()) == target,
        invariant
            parser.pending(0),
            parser.keeps(start, 0),
            parser.toks() == toks,
            parser.pos == 0 ==> parser.children().len() == 0 && parser.errors@.len() == 0
                && parser.tag_stack@.len() == 1,
        ensures
            parser.state() == target,
            parser.pos == parser.tokens@.len(),
        decreases parser.left(),
    {
        proof {
            reveal(sp_items);
        }
        match parser.current() {
            None => {
                break;
            },
            Some(TokenKind::Data) => {
                parser.register(SyntaxKind::ExprData);
            },
            Some(TokenKind::RawBegin) => {
                parser.parse_raw();
            },
            Some(TokenKind::CommentBegin) => {
                parser.parse_comment();
            },
            Some(TokenKind::VariableBegin) => {
                parser.parse_variable();
            },
            Some(TokenKind::BlockBegin) => {
                parser.parse_statement();
            },
            Some(kind) => {
                parser.error(join2("unexpected top-level token: ", kind.name()));
                parser.bump_error();
            },
        }
    }
    let root = [Tag::Root];
    proof {
        assert(root@ =~= seq![Tag::Root]);
        assert forall|tag: Tag| root@.contains(tag) <==> tag == Tag::Root by {}
        lemma_kept_root(parser.tag_stack@, root@, parser.tag_stack@.len() as int);
    }
    parser.empty_tag_stack_until(&root);
    assert(parser.tag_stack@.len() == 1);
    let ghost unwound = parser.state();
    parser.tag_stack.pop();
    assert(parser.state() == s_pop_tag(unwound));
    let ghost inner = parser.children();
    parser.finish_node();
    proof {
        let root = Element::Node { kind: SyntaxKind::Template.raw_spec(), children: inner };
        assert(inner.take(0) =~= Seq::empty());
        assert(inner.skip(0) =~= inner);
        assert(parser.children() =~= seq![root]);
        assert(all_leaves(parser.children()) =~= leaves(root));
        assert(parser.toks().take(parser.pos as int) =~= toks);
        assert(parser.state() == sp_template(toks));
    }
    Parse { green_node: builder_finish(parser.builder), errors: parser.errors }
}

/// The leaves that hold some tokens have the tokens' text.
pub proof fn lemma_lossless_text(held: Seq<Leaf>, tokens: Seq<Tok>)
    requires
        lossless(held, tokens),
    ensures
        text_of(held) == texts(tokens).flatten(),
{
    assert(held.map_values(|l: Leaf| l.1) =~= texts(tokens));
}

/// Parsing the text of a tree again gives the tree again, and the same
/// diagnostics: where `tree` is the tree of the tokens of `text`, and holds
/// them, as every tree that `parse` gives does, the tokens of the text of
/// its leaves are the tokens of `text`.
pub proof fn lemma_reparse(text: Seq<char>, tree: Element)
    requires
        tree == parsed_tree(tokens_of(text)),
        tree_of(tree, tokens_of(text)),
    ensures
        text_of(leaves(tree)) == text,
        tokens_of(text_of(leaves(tree))) == tokens_of(text),
        parsed_tree(tokens_of(text_of(leaves(tree)))) == tree,
        parsed_errors(tokens_of(text_of(leaves(tree)))) == parsed_errors(tokens_of(text)),
{
    lemma_lossless_text(leaves(tree), tokens_of(text));
    lemma_tokens_round_trip(text);
}

/// Whether a parse is that of some tokens: its tree is their tree and holds
/// them, and its diagnostics are theirs.
pub open spec fn parse_of(parsed: Parse, tokens: Seq<Tok>) -> bool {
    &&& parsed.tree() == parsed_tree(tokens)
    &&& parsed.messages() == parsed_errors(tokens)
    &&& tree_of(parsed.tree(), tokens)
}

/// Tokenizes and parses a text. The text of the tree's leaves is the text
/// given, so that parsing the text of the tree again gives the same tree
/// and the same diagnostics. A text of more than `u32::MAX` bytes does not
/// fit a tree and gives `None`.
pub fn parse_text(input: &str) -> (parsed: Option<Parse>)
    ensures
        parsed is Some <==> input.spec_bytes().len() <= u32::MAX,
        parsed matches Some(p) ==> text_of(leaves(p.tree())) == input@ && parse_of(
            p,
            if refused(table_rules()) is None {
                tokens_of(input@)
            } else {
                unlexed(input@)
            },
        ),
        parsed matches Some(p) ==> (parse_of(p, tokens_of(input@)) ==> parse_of(
            p,
            tokens_of(text_of(leaves(p.tree()))),
        )),
{
    if byte_len(input) > u32::MAX as usize {
        return None;
    }
    let tokens = tokenize(input);
    let ghost toks = token_views(tokens@);
    proof {
        lemma_width_of_texts(toks, tokens@.len() as int);
        assert(toks.take(tokens@.len() as int) =~= toks);
    }
    let parsed = parse(tokens);
    proof {
        lemma_lossless_text(leaves(parsed.tree()), toks);
    }
    Some(parsed)
}

/// The width of the first `n` tokens is the length in bytes of their texts
/// put together.
pub proof fn lemma_width_of_texts(tokens: Seq<Tok>, n: int)
    requires
        0 <= n <= tokens.len(),
    ensures
        tokens_width(tokens, n) == encode_utf8(texts(tokens.take(n)).flatten()).len(),
    decreases n,
{
    if n == 0 {
        assert(texts(tokens.take(0)) =~= Seq::<Seq<char>>::empty());
    } else {
        lemma_width_of_texts(tokens, n - 1);
        let before = texts(tokens.take(n - 1));
        assert(texts(tokens.take(n)) =~= before.push(tokens[n - 1].1));
        before.lemma_flatten_push(tokens[n - 1].1);
        crate::text::lemma_encode_concat(before.flatten(), tokens[n - 1].1);
    }
}

} // verus!
