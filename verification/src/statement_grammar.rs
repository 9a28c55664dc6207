//! The grammar of statements, as functions on the parser's state: what each
//! tag is followed by, up to the point where the closing delimiter is
//! expected.

use crate::expressions::{name_text, TupleParseMode};
use crate::grammar::{sp_expression, sp_filter, sp_primary, sp_string_literal, sp_tuple};
use crate::messages::{debug_text, optional_kind_text};
use crate::model::{
    adv, left, s_at, s_at_name, s_bump, s_error, s_finish, s_found, s_peek, s_second_kind,
    s_start, s_start_at, s_sync, s_ws, State,
};
use crate::parser::{expression_end, Tok};
use crate::statements::{AssignTargetNameMode, AssignTargetTuple};
use crate::syntax::{SyntaxKind, TokenKind};
use vstd::prelude::*;

verus! {

/// The opening delimiter of a statement moves into the tree, and the tag
/// name that follows it.
pub open spec fn s_bump_tag(toks: Seq<Tok>, s: State) -> State {
    s_bump(toks, s_ws(toks, s_bump(toks, s)))
}

/// Whether a kind that may be missing ends the bracket.
pub open spec fn ends_bracket(kind: Option<TokenKind>) -> bool {
    match kind {
        Some(kind) => expression_end(kind),
        None => false,
    }
}

/// A token as debug formatting shows it.
pub open spec fn token_debug_text(token: Tok) -> Seq<char> {
    "Token { kind: "@ + token.0.name_spec() + ", text: "@ + debug_text(token.1) + " }"@
}

/// The diagnostic for a name that is missing: what was expected, and what
/// was found in its place.
pub open spec fn missing_name(what: Seq<char>, found: Option<TokenKind>) -> Seq<char> {
    if ends_bracket(found) {
        what + "end of context"@
    } else {
        what + optional_kind_text(found)
    }
}

/// A name of a namespace: a name, a dot, a name.
#[verifier::opaque]
pub open spec fn sp_namespace_ref(toks: Seq<Tok>, s: State) -> State {
    let s1 = s_ws(toks, s_start(s, SyntaxKind::ExprNamespaceRef));
    match s_peek(toks, s1) {
        Some(TokenKind::Name) => {
            let s2 = s_bump(toks, s_ws(toks, s_bump(toks, s1)));
            s_finish(
                if s_at(toks, s2, TokenKind::Name) {
                    s_bump(toks, s2)
                } else {
                    s_error(
                        s2,
                        missing_name(
                            "expected name for 2nd part of namespace ref, but found "@,
                            s_peek(toks, s2),
                        ),
                    )
                },
            )
        },
        Some(kind) => s_finish(
            s_error(
                s1,
                if expression_end(kind) {
                    "expected name for 1st part of namespace ref, but found end of context"@
                } else {
                    "expected name for 1st part of namespace ref, but found "@ + kind.name_spec()
                },
            ),
        ),
        None => s_finish(s1),
    }
}

/// The target of an assignment.
#[verifier::opaque]
pub open spec fn sp_assign_target(toks: Seq<Tok>, s: State, mode: AssignTargetNameMode) -> State {
    let s1 = s_ws(toks, s);
    match mode {
        AssignTargetNameMode::NameOnly => if s_at(toks, s1, TokenKind::Name) {
            s_bump(toks, s1)
        } else {
            s_error(
                s1,
                missing_name("expected name for assign target, but found "@, s_peek(toks, s1)),
            )
        },
        AssignTargetNameMode::NotNameOnly(with_namespace, with_tuple) => if with_namespace
            && s_second_kind(toks, s1) == Some(TokenKind::Dot) {
            sp_namespace_ref(toks, s1)
        } else {
            match with_tuple {
                AssignTargetTuple::WithTuple(end) => sp_tuple(
                    toks,
                    s1,
                    TupleParseMode::Simplified,
                    name_text(end),
                    false,
                ),
                AssignTargetTuple::NoTuple => sp_primary(toks, s1),
            }
        },
    }
}

/// What follows the target of a loop: `in`, what is walked through, a test,
/// and `recursive`.
pub open spec fn sp_for_rest(toks: Seq<Tok>, s: State) -> State {
    match s_peek(toks, s) {
        None => s_error(s, "expected \"in\" for for-loop, but found EOF"@),
        Some(kind) => if expression_end(kind) {
            s_error(s, "expected \"in\" for for-loop, but found end of context"@)
        } else if s_at_name(toks, s, "in"@) {
            let s1 = s_ws(
                toks,
                sp_tuple(
                    toks,
                    s_ws(toks, s_bump(toks, s)),
                    TupleParseMode::NoCondExpr,
                    Some("recursive"@),
                    false,
                ),
            );
            let s2 = s_ws(
                toks,
                if s_at_name(toks, s1, "if"@) {
                    sp_expression(toks, s_bump(toks, s1), true)
                } else {
                    s1
                },
            );
            if s_at_name(toks, s2, "recursive"@) {
                s_bump(toks, s2)
            } else {
                s2
            }
        } else if kind == TokenKind::Name {
            s_error(
                s,
                "expected \"in\" for for-loop, but found unexpected \""@ + debug_text(
                    toks[s.pos].1,
                ) + "\""@,
            )
        } else {
            s_error(
                s,
                "expected name \"in\" for for-loop, but found unexpected \""@ + kind.name_spec()
                    + "\""@,
            )
        },
    }
}

/// The opening tag of a loop.
#[verifier::opaque]
pub open spec fn sp_for(toks: Seq<Tok>, s: State) -> State {
    sp_for_rest(
        toks,
        s_ws(
            toks,
            sp_assign_target(
                toks,
                s_bump_tag(toks, s_start(s_start(s, SyntaxKind::StmtFor), SyntaxKind::ForStart)),
                AssignTargetNameMode::NotNameOnly(false, AssignTargetTuple::WithTuple(Some("in"))),
            ),
        ),
    )
}

/// The opening tag of a condition.
#[verifier::opaque]
pub open spec fn sp_if(toks: Seq<Tok>, s: State) -> State {
    sp_tuple(
        toks,
        s_bump_tag(toks, s_start(s_start(s, SyntaxKind::StmtIf), SyntaxKind::IfStart)),
        TupleParseMode::NoCondExpr,
        None,
        false,
    )
}

/// The tag of another branch of a condition.
#[verifier::opaque]
pub open spec fn sp_elif(toks: Seq<Tok>, s: State) -> State {
    sp_tuple(
        toks,
        s_bump_tag(toks, s_start(s, SyntaxKind::IfElif)),
        TupleParseMode::NoCondExpr,
        None,
        false,
    )
}

/// An assignment, up to the end of its target.
pub open spec fn sp_set_target(toks: Seq<Tok>, s: State) -> State {
    s_ws(
        toks,
        sp_assign_target(
            toks,
            s_ws(toks, s_bump_tag(toks, s)),
            AssignTargetNameMode::NotNameOnly(true, AssignTargetTuple::WithTuple(None)),
        ),
    )
}

/// Whether an assignment opens a block: no `=` follows its target.
pub open spec fn set_opens_block(toks: Seq<Tok>, s: State) -> bool {
    !s_at(toks, sp_set_target(toks, s), TokenKind::Assign)
}

/// An assignment.
#[verifier::opaque]
pub open spec fn sp_set(toks: Seq<Tok>, s: State) -> State {
    let at = s.children.len() as int;
    let s1 = sp_set_target(toks, s);
    if s_at(toks, s1, TokenKind::Assign) {
        sp_tuple(
            toks,
            s_bump(toks, s_start_at(s1, at, SyntaxKind::StmtAssign)),
            TupleParseMode::WithCondExpr,
            None,
            false,
        )
    } else {
        let s2 = s_start_at(
            s_start_at(s1, at, SyntaxKind::StmtAssignBlock),
            at,
            SyntaxKind::AssignBlockStart,
        );
        sp_filter(toks, s2, s2.children.len() as int, false)
    }
}

/// The parameters of a signature, up to the closing parenthesis. The flag
/// says whether a parameter with a default has been read.
#[verifier::opaque]
pub open spec fn sp_signature_items(toks: Seq<Tok>, s: State, seen_kwarg: bool) -> State
    decreases left(toks, s),
{
    match s_peek(toks, s) {
        None => s_error(s, "found EOF while parsing signature"@),
        Some(TokenKind::RightParen) => s_bump(toks, s),
        Some(kind) => if expression_end(kind) {
            s_error(s, "found end of context while parsing signature"@)
        } else {
            let at = s.children.len() as int;
            let s1 = s_ws(
                toks,
                adv(s, sp_assign_target(toks, s, AssignTargetNameMode::NameOnly)),
            );
            let default = s_at(toks, s1, TokenKind::Assign);
            let s2 = if default {
                let b = s_bump(toks, s_start_at(s1, at, SyntaxKind::SignatureDefaultArg));
                s_finish(adv(b, sp_expression(toks, b, true)))
            } else {
                s_finish(
                    s_start_at(
                        if seen_kwarg {
                            s_error(s1, "non-default argument following a default argument"@)
                        } else {
                            s1
                        },
                        at,
                        SyntaxKind::SignatureArg,
                    ),
                )
            };
            let s3 = s_sync(toks, s2, seq![TokenKind::Comma, TokenKind::RightParen]);
            match s_found(toks, s3, seq![TokenKind::Comma, TokenKind::RightParen]) {
                None => s_error(s3, "expected ',' or ')', not end of context"@),
                Some(TokenKind::Comma) => sp_signature_items(
                    toks,
                    s_bump(toks, s3),
                    seen_kwarg || default,
                ),
                Some(_) => s_bump(toks, s3),
            }
        },
    }
}

/// The parameters of a macro or of a call block, in parentheses.
#[verifier::opaque]
pub open spec fn sp_signature(toks: Seq<Tok>, s: State) -> State {
    if s_at(toks, s, TokenKind::LeftParen) {
        s_finish(sp_signature_items(toks, s_bump(toks, s_start(s, SyntaxKind::Signature)), false))
    } else {
        s
    }
}

/// The opening tag of a call block.
#[verifier::opaque]
pub open spec fn sp_call_block(toks: Seq<Tok>, s: State) -> State {
    let s1 = s_ws(
        toks,
        s_bump_tag(
            toks,
            s_start(s_start(s, SyntaxKind::StmtCallBlock), SyntaxKind::CallBlockStart),
        ),
    );
    sp_expression(
        toks,
        if s_at(toks, s1, TokenKind::LeftParen) {
            sp_signature(toks, s1)
        } else {
            s1
        },
        true,
    )
}

/// The opening tag of a filter block.
#[verifier::opaque]
pub open spec fn sp_filter_block(toks: Seq<Tok>, s: State) -> State {
    let s1 = s_bump_tag(
        toks,
        s_start(s_start(s, SyntaxKind::StmtFilterBlock), SyntaxKind::FilterBlockStart),
    );
    sp_filter(toks, s1, s1.children.len() as int, true)
}

/// A `do` statement.
#[verifier::opaque]
pub open spec fn sp_do(toks: Seq<Tok>, s: State) -> State {
    sp_tuple(
        toks,
        s_ws(toks, s_bump_tag(toks, s_start(s, SyntaxKind::StmtDo))),
        TupleParseMode::WithCondExpr,
        None,
        false,
    )
}

/// After the tag of a macro or of a test: its name and its signature.
#[verifier::opaque]
pub open spec fn sp_signature_after_name(toks: Seq<Tok>, s: State) -> State {
    let s1 = s_sync(
        toks,
        s_ws(toks, sp_assign_target(toks, s_ws(toks, s), AssignTargetNameMode::NameOnly)),
        seq![TokenKind::LeftParen],
    );
    if s_found(toks, s1, seq![TokenKind::LeftParen]) is Some {
        sp_signature(toks, s1)
    } else {
        s_error(s1, "expected function signature after macro name but found end of context"@)
    }
}

/// The opening tag of a block that has a name and a signature.
pub open spec fn sp_named_signature(
    toks: Seq<Tok>,
    s: State,
    outer: SyntaxKind,
    inner: SyntaxKind,
) -> State {
    sp_signature_after_name(toks, s_bump_tag(toks, s_start(s_start(s, outer), inner)))
}

/// The opening tag of a block that has a name.
pub open spec fn sp_named(toks: Seq<Tok>, s: State, outer: SyntaxKind, inner: SyntaxKind) -> State {
    sp_assign_target(
        toks,
        s_ws(toks, s_bump_tag(toks, s_start(s_start(s, outer), inner))),
        AssignTargetNameMode::NameOnly,
    )
}

/// The adapter of a materialization, after the word `adapter`: `=` and a
/// string. The result says whether more may follow.
pub open spec fn sp_adapter(toks: Seq<Tok>, s: State) -> (State, bool) {
    let s1 = s_sync(
        toks,
        s_ws(toks, s_bump(toks, s_start(s, SyntaxKind::MaterializationAdapter))),
        seq![TokenKind::Assign],
    );
    if s_found(toks, s1, seq![TokenKind::Assign]) is Some {
        let s2 = s_ws(toks, s_bump(toks, s1));
        if s_at(toks, s2, TokenKind::StringLiteral) {
            (s_finish(sp_string_literal(toks, s2)), true)
        } else {
            (
                s_finish(
                    s_error(
                        s2,
                        "expected string literal specifying adapter, but found "@
                            + optional_kind_text(s_peek(toks, s2)),
                    ),
                ),
                false,
            )
        }
    } else {
        (
            s_finish(
                s_error(
                    s1,
                    "expected '= <adapter>' after adapter specification in custom materialization, but found end of context"@,
                ),
            ),
            false,
        )
    }
}

/// What follows the name of a materialization: `default` or an adapter,
/// after a comma each.
#[verifier::opaque]
pub open spec fn sp_materialization_items(toks: Seq<Tok>, s: State) -> State
    decreases left(toks, s),
{
    let s1 = s_ws(toks, s);
    if s_at(toks, s1, TokenKind::Comma) {
        let s2 = s_ws(toks, s_bump(toks, s1));
        match s_peek(toks, s2) {
            None => s_error(
                s2,
                "expected adapter specification for custom materialization but found EOF"@,
            ),
            Some(kind) => if expression_end(kind) {
                s_error(
                    s2,
                    "expected adapter specification for custom materialization but found end of context"@,
                )
            } else if s_at_name(toks, s2, "default"@) {
                sp_materialization_items(
                    toks,
                    s_finish(s_bump(toks, s_start(s2, SyntaxKind::MaterializationDefault))),
                )
            } else if s_at_name(toks, s2, "adapter"@) {
                let (s3, more) = sp_adapter(toks, s2);
                if more && s3.pos > s.pos {
                    sp_materialization_items(toks, s3)
                } else {
                    s3
                }
            } else {
                s_error(
                    s2,
                    "expected either \"default\" or \"adapter=<adapter>\" for custom materialization but found "@
                        + token_debug_text(toks[s2.pos]),
                )
            },
        }
    } else {
        s1
    }
}

/// The opening tag of a materialization.
#[verifier::opaque]
pub open spec fn sp_materialization(toks: Seq<Tok>, s: State) -> State {
    sp_materialization_items(
        toks,
        sp_named(
            toks,
            s,
            SyntaxKind::StmtMaterialization,
            SyntaxKind::MaterializationBlockStart,
        ),
    )
}

} // verus!
