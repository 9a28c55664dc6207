//! A whole template, as functions on the parser's state: the statements
//! with the blocks that they open and close, and what stands between them.

use crate::expressions::TupleParseMode;
use crate::grammar::sp_tuple;
use crate::green::{children_of, Element};
use crate::messages::debug_text;
use crate::model::{
    left, s_at, s_bump, s_bump_error, s_error, s_finish, s_found, s_peek, s_register, s_second,
    s_start, s_sync, s_ws, State,
};
use crate::parser::{expression_end, leaf_of, Tag, Tok};
use crate::statement_grammar::{
    s_bump_tag, set_opens_block, sp_call_block, sp_do, sp_elif, sp_filter_block, sp_for, sp_if,
    sp_materialization, sp_named, sp_named_signature, sp_set,
};
use crate::syntax::{SyntaxKind, TokenKind};
use crate::template::{kept_tags, Keyword};
use vstd::prelude::*;

verus! {

/// The topmost open block closes.
pub open spec fn s_pop_tag(s: State) -> State {
    State { tags: s.tags.drop_last(), ..s }
}

/// A block opens.
pub open spec fn s_push_tag(s: State, tag: Tag) -> State {
    State { tags: s.tags.push(tag), ..s }
}

/// The diagnostic for a block that is closed before its end tag was read.
pub open spec fn unclosed_text(tag: Tag) -> Seq<char> {
    "expected tag "@ + tag.name_spec() + " to be closed"@
}

/// The blocks above the lowest `keep` close, from the top down: the node
/// of each closes, and a diagnostic is made.
#[verifier::opaque]
pub open spec fn sp_unwind(s: State, keep: int) -> State
    decreases s.tags.len(),
{
    if s.tags.len() > keep && s.tags.len() > 0 {
        sp_unwind(s_error(s_finish(s_pop_tag(s)), unclosed_text(s.tags.last())), keep)
    } else {
        s
    }
}

/// The blocks above the topmost open block that is among `end_tags` close;
/// where no open block is among them, nothing closes.
pub open spec fn sp_empty_until(s: State, end_tags: Seq<Tag>) -> State {
    let keep = kept_tags(s.tags, end_tags, s.tags.len() as int);
    if keep > 0 {
        sp_unwind(s, keep)
    } else {
        s
    }
}

/// Whether a block among `end_tags` is open.
pub open spec fn tag_open(s: State, end_tags: Seq<Tag>) -> bool {
    kept_tags(s.tags, end_tags, s.tags.len() as int) > 0
}

/// The diagnostic for a tag that has no block to belong to.
pub open spec fn unmatched_text(tag: Seq<char>) -> Seq<char> {
    "found unmatched \""@ + tag + "\" statement"@
}

/// In a statement whose tag has no block to belong to, the part up to the
/// tag's name.
pub open spec fn sp_unmatched(toks: Seq<Tok>, s: State, tag: Seq<char>) -> State {
    s_ws(toks, s_bump(toks, s_start(s_error(s, unmatched_text(tag)), SyntaxKind::StmtUnknown)))
}

/// The tag that ends a block.
#[verifier::opaque]
pub open spec fn sp_endtag(
    toks: Seq<Tok>,
    s: State,
    endtag: Seq<char>,
    kind: SyntaxKind,
    tags_to_end: Seq<Tag>,
) -> State {
    if tag_open(s, tags_to_end) {
        s_bump_tag(toks, s_start(s_pop_tag(sp_empty_until(s, tags_to_end)), kind))
    } else {
        sp_unmatched(toks, s, endtag)
    }
}

/// Every block but `Root` closes, and a block that stands at the top level
/// only opens.
pub open spec fn sp_root_block(s: State, tag: Tag) -> State {
    s_push_tag(sp_empty_until(s, seq![Tag::Root]), tag)
}

/// The tag of another branch of a condition.
pub open spec fn sp_elif_tag(toks: Seq<Tok>, s: State) -> State {
    if tag_open(s, seq![Tag::If, Tag::Elif]) {
        sp_elif(
            toks,
            s_push_tag(s_pop_tag(sp_empty_until(s, seq![Tag::If, Tag::Elif])), Tag::Elif),
        )
    } else {
        sp_unmatched(toks, s, "elif"@)
    }
}

/// The tag of the last branch of a condition, or of what a loop does when
/// there was nothing to walk through.
pub open spec fn sp_else_tag(toks: Seq<Tok>, s: State) -> State {
    if tag_open(s, seq![Tag::For, Tag::If, Tag::Elif]) {
        let s1 = sp_empty_until(s, seq![Tag::For, Tag::If, Tag::Elif]);
        if s1.tags.len() > 0 && s1.tags.last() == Tag::For {
            s_bump_tag(
                toks,
                s_start(s_push_tag(s_pop_tag(s1), Tag::ForElse), SyntaxKind::ForElse),
            )
        } else {
            s_bump_tag(toks, s_start(s_push_tag(s_pop_tag(s1), Tag::IfElse), SyntaxKind::IfElse))
        }
    } else {
        sp_unmatched(toks, s, "else"@)
    }
}

/// A statement that is not parsed: its node opens, and a diagnostic says
/// why it is left alone.
pub open spec fn sp_unparsed(toks: Seq<Tok>, s: State, message: Seq<char>) -> State {
    s_error(s_bump(toks, s_start(s, SyntaxKind::StmtUnknown)), message)
}

/// The part of a statement that its tag decides.
#[verifier::opaque]
pub open spec fn sp_tag(toks: Seq<Tok>, s: State, word: Keyword, name: Seq<char>) -> State {
    match word {
        Keyword::For => sp_for(toks, s_push_tag(s, Tag::For)),
        Keyword::EndFor => sp_endtag(
            toks,
            s,
            "endfor"@,
            SyntaxKind::ForEnd,
            seq![Tag::For, Tag::ForElse],
        ),
        Keyword::If => sp_if(toks, s_push_tag(s, Tag::If)),
        Keyword::Elif => sp_elif_tag(toks, s),
        Keyword::EndIf => sp_endtag(
            toks,
            s,
            "endif"@,
            SyntaxKind::IfEnd,
            seq![Tag::If, Tag::Elif, Tag::IfElse],
        ),
        Keyword::Else => sp_else_tag(toks, s),
        Keyword::Assign => if set_opens_block(toks, s) {
            s_push_tag(sp_set(toks, s), Tag::SetBlock)
        } else {
            sp_set(toks, s)
        },
        Keyword::EndAssign => sp_endtag(
            toks,
            s,
            "endset"@,
            SyntaxKind::AssignBlockEnd,
            seq![Tag::SetBlock],
        ),
        Keyword::Call => sp_call_block(toks, s_push_tag(s, Tag::Call)),
        Keyword::EndCall => sp_endtag(
            toks,
            s,
            "endcall"@,
            SyntaxKind::CallBlockEnd,
            seq![Tag::Call],
        ),
        Keyword::Filter => sp_filter_block(toks, s_push_tag(s, Tag::Filter)),
        Keyword::EndFilter => sp_endtag(
            toks,
            s,
            "endfilter"@,
            SyntaxKind::FilterBlockEnd,
            seq![Tag::Filter],
        ),
        Keyword::Do => sp_do(toks, s),
        Keyword::Macro => sp_named_signature(
            toks,
            sp_root_block(s, Tag::Macro),
            SyntaxKind::StmtMacro,
            SyntaxKind::MacroBlockStart,
        ),
        Keyword::EndMacro => sp_endtag(
            toks,
            s,
            "endmacro"@,
            SyntaxKind::MacroBlockEnd,
            seq![Tag::Macro],
        ),
        Keyword::Materialization => sp_materialization(
            toks,
            sp_root_block(s, Tag::Materialization),
        ),
        Keyword::EndMaterialization => sp_endtag(
            toks,
            s,
            "endmaterialization"@,
            SyntaxKind::MaterializationBlockEnd,
            seq![Tag::Materialization],
        ),
        Keyword::Test => sp_named_signature(
            toks,
            sp_root_block(s, Tag::Test),
            SyntaxKind::StmtTest,
            SyntaxKind::TestBlockStart,
        ),
        Keyword::EndTest => sp_endtag(
            toks,
            s,
            "endtest"@,
            SyntaxKind::TestBlockEnd,
            seq![Tag::Test],
        ),
        Keyword::Docs => sp_named(
            toks,
            sp_root_block(s, Tag::Docs),
            SyntaxKind::StmtDocs,
            SyntaxKind::DocsBlockStart,
        ),
        Keyword::EndDocs => sp_endtag(
            toks,
            s,
            "enddocs"@,
            SyntaxKind::DocsBlockEnd,
            seq![Tag::Docs],
        ),
        Keyword::Snapshot => sp_named(
            toks,
            sp_root_block(s, Tag::Snapshot),
            SyntaxKind::StmtSnapshot,
            SyntaxKind::SnapshotBlockStart,
        ),
        Keyword::EndSnapshot => sp_endtag(
            toks,
            s,
            "endsnapshot"@,
            SyntaxKind::SnapshotBlockEnd,
            seq![Tag::Snapshot],
        ),
        Keyword::Unsupported => sp_unparsed(
            toks,
            s,
            "not parsing tag "@ + debug_text(name) + "; currently unsupported"@,
        ),
        Keyword::Raw => sp_unparsed(toks, s, "raw tag can't have any arguments"@),
        Keyword::EndRaw => sp_unparsed(toks, s, "found unmatched endraw tag"@),
        Keyword::Unknown => sp_unparsed(toks, s, "found unknown tag "@ + debug_text(name)),
    }
}

/// Whether a statement ends a block: its tag is an end tag, and the block
/// that it ends is open.
pub open spec fn tag_finishes(s: State, word: Keyword) -> bool {
    match word {
        Keyword::EndFor => tag_open(s, seq![Tag::For, Tag::ForElse]),
        Keyword::EndIf => tag_open(s, seq![Tag::If, Tag::Elif, Tag::IfElse]),
        Keyword::EndAssign => tag_open(s, seq![Tag::SetBlock]),
        Keyword::EndCall => tag_open(s, seq![Tag::Call]),
        Keyword::EndFilter => tag_open(s, seq![Tag::Filter]),
        Keyword::EndMacro => tag_open(s, seq![Tag::Macro]),
        Keyword::EndMaterialization => tag_open(s, seq![Tag::Materialization]),
        Keyword::EndTest => tag_open(s, seq![Tag::Test]),
        Keyword::EndDocs => tag_open(s, seq![Tag::Docs]),
        Keyword::EndSnapshot => tag_open(s, seq![Tag::Snapshot]),
        _ => false,
    }
}

/// The end of a statement: an optional colon and the closing delimiter,
/// with recovery before each; then the statement's node closes, and the
/// node of the block too if the statement ends one.
pub open spec fn sp_statement_end(toks: Seq<Tok>, s: State, finished_block: bool) -> State {
    let s1 = s_sync(toks, s_ws(toks, s), seq![TokenKind::Colon, TokenKind::BlockEnd]);
    let s2 = match s_found(toks, s1, seq![TokenKind::Colon, TokenKind::BlockEnd]) {
        None => s_error(s1, "expected ':' or '%}', but found EOF"@),
        Some(TokenKind::Colon) => {
            let s3 = s_sync(toks, s_ws(toks, s_bump(toks, s1)), seq![TokenKind::BlockEnd]);
            if s_found(toks, s3, seq![TokenKind::BlockEnd]) is Some {
                s_bump(toks, s3)
            } else {
                s_error(s3, "expected '%}', but found EOF"@)
            }
        },
        Some(_) => s_bump(toks, s1),
    };
    if finished_block {
        s_finish(s_finish(s2))
    } else {
        s_finish(s2)
    }
}

/// Whether the closing delimiter is read at the end of a statement.
pub open spec fn statement_end_found(toks: Seq<Tok>, s: State) -> bool {
    let s1 = s_sync(toks, s_ws(toks, s), seq![TokenKind::Colon, TokenKind::BlockEnd]);
    match s_found(toks, s1, seq![TokenKind::Colon, TokenKind::BlockEnd]) {
        None => false,
        Some(TokenKind::Colon) => s_found(
            toks,
            s_sync(toks, s_ws(toks, s_bump(toks, s1)), seq![TokenKind::BlockEnd]),
            seq![TokenKind::BlockEnd],
        ) is Some,
        Some(_) => true,
    }
}

/// Whether a statement is read up to its closing delimiter.
pub open spec fn statement_closed(toks: Seq<Tok>, s: State) -> bool {
    match s_second(toks, s) {
        None => false,
        Some(token) => if expression_end(token.0) {
            token.0 == TokenKind::BlockEnd
        } else if token.0 != TokenKind::Name {
            statement_end_found(
                toks,
                sp_unparsed(
                    toks,
                    s,
                    "expected tag token at the beginning of statement, not "@
                        + token.0.name_spec(),
                ),
            )
        } else {
            statement_end_found(
                toks,
                sp_tag(toks, s, crate::template::keyword_of(token.1), token.1),
            )
        },
    }
}

/// Whether a statement ends a block.
pub open spec fn statement_finishes(toks: Seq<Tok>, s: State) -> bool {
    match s_second(toks, s) {
        None => false,
        Some(token) => token.0 == TokenKind::Name && tag_finishes(
            s,
            crate::template::keyword_of(token.1),
        ),
    }
}

/// The node that holds the delimiters of the statement read last: the last
/// element, or, where the statement has ended a block, the last child of
/// that block's node.
pub open spec fn wrapper_of(last: Element, finishes: bool) -> Element {
    if finishes {
        children_of(last).last()
    } else {
        last
    }
}

/// Whether a node holds a bracket: its first child is the opening
/// delimiter, and where the closing delimiter was read, that is its last
/// child.
pub open spec fn bracketed(node: Element, opening: Tok, closing: Option<Tok>) -> bool {
    &&& node is Node
    &&& children_of(node).len() > 0
    &&& children_of(node)[0] == leaf_of(opening)
    &&& closing matches Some(token) ==> children_of(node).last() == leaf_of(token)
}

/// Whether a variable is read up to its closing delimiter.
pub open spec fn variable_closed(toks: Seq<Tok>, s: State) -> bool {
    s_found(
        toks,
        s_sync(
            toks,
            sp_tuple(
                toks,
                s_bump(toks, s_start(s, SyntaxKind::Variable)),
                TupleParseMode::WithCondExpr,
                None,
                false,
            ),
            seq![TokenKind::VariableEnd],
        ),
        seq![TokenKind::VariableEnd],
    ) is Some
}

/// A statement, from `{%` to `%}`.
#[verifier::opaque]
pub open spec fn sp_statement(toks: Seq<Tok>, s: State) -> State {
    match s_second(toks, s) {
        None => s_finish(
            s_sync(
                toks,
                s_bump(
                    toks,
                    s_start(
                        s_error(s, "expected tag name, but found EOF"@),
                        SyntaxKind::StmtUnknown,
                    ),
                ),
                Seq::empty(),
            ),
        ),
        Some(token) => if expression_end(token.0) {
            s_finish(
                s_bump(
                    toks,
                    s_ws(
                        toks,
                        s_bump(
                            toks,
                            s_start(
                                s_error(s, "expected tag name, but end of block"@),
                                SyntaxKind::StmtUnknown,
                            ),
                        ),
                    ),
                ),
            )
        } else if token.0 != TokenKind::Name {
            sp_statement_end(
                toks,
                sp_unparsed(
                    toks,
                    s,
                    "expected tag token at the beginning of statement, not "@
                        + token.0.name_spec(),
                ),
                false,
            )
        } else {
            sp_statement_end(
                toks,
                sp_tag(toks, s, crate::template::keyword_of(token.1), token.1),
                tag_finishes(s, crate::template::keyword_of(token.1)),
            )
        },
    }
}

/// A variable, from `{{` to `}}`.
#[verifier::opaque]
pub open spec fn sp_variable(toks: Seq<Tok>, s: State) -> State {
    let s1 = s_sync(
        toks,
        sp_tuple(
            toks,
            s_bump(toks, s_start(s, SyntaxKind::Variable)),
            TupleParseMode::WithCondExpr,
            None,
            false,
        ),
        seq![TokenKind::VariableEnd],
    );
    s_finish(
        if s_found(toks, s1, seq![TokenKind::VariableEnd]) is Some {
            s_bump(toks, s1)
        } else {
            s_error(s1, "incomplete variable, expected \"}}\""@)
        },
    )
}

/// A bracket that the tokenizer has cut into its opening delimiter, what it
/// holds, and its closing delimiter: a comment or a raw block.
pub open spec fn sp_plain(
    toks: Seq<Tok>,
    s: State,
    node: SyntaxKind,
    data: TokenKind,
    end: TokenKind,
    cut_short: Seq<char>,
    no_end: Seq<char>,
) -> State {
    let s1 = s_bump(toks, s_start(s, node));
    let s2 = match s_peek(toks, s1) {
        None => s_error(s1, cut_short),
        Some(kind) => if kind == data {
            s_bump(toks, s1)
        } else {
            s1
        },
    };
    s_finish(
        if s_at(toks, s2, end) {
            s_bump(toks, s2)
        } else {
            s_error(s2, no_end)
        },
    )
}

/// A comment, from `{#` to `#}`.
pub open spec fn sp_comment(toks: Seq<Tok>, s: State) -> State {
    sp_plain(
        toks,
        s,
        SyntaxKind::Comment,
        TokenKind::CommentData,
        TokenKind::CommentEnd,
        "incomplete comment"@,
        "incomplete comment, expected \"#}\""@,
    )
}

/// A raw block, from `{% raw %}` to `{% endraw %}`.
pub open spec fn sp_raw(toks: Seq<Tok>, s: State) -> State {
    sp_plain(
        toks,
        s,
        SyntaxKind::StmtRaw,
        TokenKind::Data,
        TokenKind::RawEnd,
        "incomplete raw block"@,
        "incomplete raw block, expected \"{% endraw %}\""@,
    )
}

/// One piece of a template at the top level.
pub open spec fn sp_item(toks: Seq<Tok>, s: State) -> State {
    match s_peek(toks, s) {
        None => s,
        Some(TokenKind::Data) => s_register(toks, s, SyntaxKind::ExprData),
        Some(TokenKind::RawBegin) => sp_raw(toks, s),
        Some(TokenKind::CommentBegin) => sp_comment(toks, s),
        Some(TokenKind::VariableBegin) => sp_variable(toks, s),
        Some(TokenKind::BlockBegin) => sp_statement(toks, s),
        Some(kind) => s_bump_error(
            toks,
            s_error(s, "unexpected top-level token: "@ + kind.name_spec()),
        ),
    }
}

/// The pieces of a template, up to its end.
#[verifier::opaque]
pub open spec fn sp_items(toks: Seq<Tok>, s: State) -> State
    decreases left(toks, s),
{
    if s_peek(toks, s) is None {
        s
    } else {
        let s1 = sp_item(toks, s);
        if s1.pos > s.pos {
            sp_items(toks, s1)
        } else {
            s1
        }
    }
}

/// The state in which parsing starts.
pub open spec fn start_state() -> State {
    State {
        pos: 0,
        children: Seq::empty(),
        parents: Seq::empty(),
        tags: Seq::empty(),
        errors: Seq::empty(),
    }
}

/// The state in which parsing ends: the template's node is the one element.
pub open spec fn sp_template(toks: Seq<Tok>) -> State {
    s_finish(
        s_pop_tag(
            sp_empty_until(
                sp_items(toks, s_push_tag(s_start(start_state(), SyntaxKind::Template), Tag::Root)),
                seq![Tag::Root],
            ),
        ),
    )
}

/// The syntax tree of a sequence of tokens.
pub open spec fn parsed_tree(toks: Seq<Tok>) -> Element {
    sp_template(toks).children[0]
}

/// The diagnostics for a sequence of tokens, in the order in which they are
/// made.
pub open spec fn parsed_errors(toks: Seq<Tok>) -> Seq<Seq<char>> {
    sp_template(toks).errors
}

} // verus!
