//! The grammar of expressions, as functions on the parser's state. Each
//! says what state the parser is in after it has read the construct.

use crate::expressions::TupleParseMode;
use crate::messages::optional_kind_text;
use crate::model::{
    adv, left, s_at, s_at_name, s_bump, s_bump_error, s_error, s_finish, s_found, s_peek,
    s_register, s_second, s_second_kind, s_start, s_start_at, s_sync, s_ws, State,
};
use crate::parser::{expression_end, Tok};
use crate::syntax::{SyntaxKind, TokenKind};
use vstd::prelude::*;

verus! {

/// The innermost open node closes, if `open` says that one was opened.
pub open spec fn close_if(open: bool, s: State) -> State {
    if open {
        s_finish(s)
    } else {
        s
    }
}

/// The token at the cursor moves into the tree, if `ended` says so.
pub open spec fn bump_if(ended: bool, toks: Seq<Tok>, s: State) -> State {
    if ended {
        s_bump(toks, s)
    } else {
        s
    }
}

/// A diagnostic is added, if `wrong` says so.
pub open spec fn error_if(wrong: bool, s: State, message: Seq<char>) -> State {
    if wrong {
        s_error(s, message)
    } else {
        s
    }
}

/// A node opens at `at`, unless `open` says that it is open already.
pub open spec fn start_once(open: bool, s: State, at: int, kind: SyntaxKind) -> State {
    if open {
        s
    } else {
        s_start_at(s, at, kind)
    }
}

/// The string literals that follow one another, with the whitespace
/// between and after them.
#[verifier::opaque]
pub open spec fn sp_strings(toks: Seq<Tok>, s: State) -> State
    decreases left(toks, s),
{
    let s1 = s_ws(toks, s);
    if s_at(toks, s1, TokenKind::StringLiteral) {
        sp_strings(toks, s_bump(toks, s1))
    } else {
        s1
    }
}

/// One string constant.
#[verifier::opaque]
pub open spec fn sp_string_literal(toks: Seq<Tok>, s: State) -> State {
    adv(s, s_finish(sp_strings(toks, s_bump(toks, s_start(s, SyntaxKind::ExprConstantString)))))
}

/// The diagnostic for a name that is missing.
pub open spec fn name_expected(found: Option<TokenKind>) -> Seq<char> {
    "expected name, not "@ + optional_kind_text(found)
}

/// The dots and names after the first name of a nested name.
#[verifier::opaque]
pub open spec fn sp_nested_parts(toks: Seq<Tok>, s: State, at: int, nested: bool) -> State
    decreases left(toks, s),
{
    let s1 = s_ws(toks, s);
    if s_at(toks, s1, TokenKind::Dot) {
        let s2 = s_ws(toks, s_bump(toks, start_once(nested, s1, at, SyntaxKind::ExprNestedName)));
        if s_at(toks, s2, TokenKind::Name) {
            sp_nested_parts(toks, s_bump(toks, s2), at, true)
        } else {
            s_finish(s_error(s2, name_expected(s_peek(toks, s2))))
        }
    } else {
        close_if(nested, s1)
    }
}

/// A name with dots in it.
#[verifier::opaque]
pub open spec fn sp_nested_name(toks: Seq<Tok>, s: State) -> State {
    let s1 = s_ws(toks, s);
    adv(
        s,
        if s_at(toks, s1, TokenKind::Name) {
            sp_nested_parts(toks, s_bump(toks, s1), s.children.len() as int, false)
        } else {
            s_error(s1, name_expected(s_peek(toks, s1)))
        },
    )
}

/// The kind of node that a name is given where a primary is expected.
pub open spec fn primary_name_kind(name: Seq<char>) -> SyntaxKind {
    if name == "true"@ || name == "false"@ || name == "True"@ || name == "False"@ {
        SyntaxKind::ExprConstantBool
    } else if name == "none"@ || name == "None"@ {
        SyntaxKind::ExprConstantNone
    } else {
        SyntaxKind::ExprName
    }
}

/// Whether the token at the cursor ends a tuple: the end of the bracket, a
/// closing parenthesis, or the name given.
pub open spec fn s_tuple_end(toks: Seq<Tok>, s: State, end: Option<Seq<char>>) -> bool {
    match s_peek(toks, s) {
        None => false,
        Some(kind) => expression_end(kind) || kind == TokenKind::RightParen || (kind
            == TokenKind::Name && end == Some(toks[s.pos].1)),
    }
}

/// The end of a tuple: a tuple that was opened closes; where nothing was
/// read, an empty tuple is made between parentheses, and a diagnostic
/// elsewhere.
pub open spec fn tuple_close(
    toks: Seq<Tok>,
    s: State,
    explicit: bool,
    is_tuple: bool,
    is_empty: bool,
) -> State {
    if is_tuple {
        s_finish(s)
    } else if is_empty {
        if explicit {
            s_finish(s_ws(toks, s_start(s, SyntaxKind::ExprTuple)))
        } else {
            s_error(s, "expression cannot be empty here"@)
        }
    } else {
        s
    }
}

/// The end of a subscript in square brackets: the tuple of subscripts
/// closes if there is one, then the subscript; the closing bracket is read
/// if it was found; and what stands from `at` on becomes an item access.
pub open spec fn subscript_close(
    toks: Seq<Tok>,
    s: State,
    at: int,
    is_tuple: bool,
    ended: bool,
) -> State {
    s_finish(
        s_start_at(
            bump_if(ended, toks, s_finish(close_if(is_tuple, s))),
            at,
            SyntaxKind::ExprGetItem,
        ),
    )
}

/// The node that a binary operator of products makes, if the kind is one.
pub open spec fn product_kind(kind: Option<TokenKind>) -> Option<SyntaxKind> {
    match kind {
        Some(TokenKind::Multiply) => Some(SyntaxKind::ExprMultiply),
        Some(TokenKind::Div) => Some(SyntaxKind::ExprDivide),
        Some(TokenKind::FloorDiv) => Some(SyntaxKind::ExprFloorDivide),
        Some(TokenKind::Modulo) => Some(SyntaxKind::ExprModulo),
        _ => None,
    }
}

/// The node that a binary operator of sums makes, if the kind is one.
pub open spec fn sum_kind(kind: Option<TokenKind>) -> Option<SyntaxKind> {
    match kind {
        Some(TokenKind::Add) => Some(SyntaxKind::ExprAdd),
        Some(TokenKind::Subtract) => Some(SyntaxKind::ExprSubtract),
        _ => None,
    }
}

/// Whether the token at the cursor is an operator of comparison.
pub open spec fn s_at_compare(toks: Seq<Tok>, s: State) -> bool {
    match s_peek(toks, s) {
        Some(kind) => kind.is_compare_operator_spec(),
        None => false,
    }
}

/// Whether `not` is at the cursor and `in` follows it.
pub open spec fn s_at_not_in(toks: Seq<Tok>, s: State) -> bool {
    s_at_name(toks, s, "not"@) && s_second(toks, s) == Some((TokenKind::Name, "in"@))
}

/// Whether a primary can start with a token of this kind.
pub open spec fn starts_primary(kind: Option<TokenKind>) -> bool {
    matches!(
        kind,
        Some(
            TokenKind::Name
            | TokenKind::StringLiteral
            | TokenKind::IntegerLiteral
            | TokenKind::FloatLiteral
            | TokenKind::LeftBracket
            | TokenKind::LeftBrace,
        )
    )
}

/// The diagnostics for an argument that stands where it may not.
pub open spec fn argument_errors(s: State, kwarg: bool, dyn_args: bool, dyn_kwargs: bool) -> State {
    error_if(
        dyn_kwargs,
        error_if(
            dyn_args,
            error_if(kwarg, s, "arg found after kwarg"@),
            "arg found after dynamic args"@,
        ),
        "arg found after dynamic kwargs"@,
    )
}

/// A name, a literal, or an expression in brackets.
#[verifier::opaque]
pub open spec fn sp_primary(toks: Seq<Tok>, s: State) -> State
    decreases left(toks, s), 5nat, 0nat,
{
    let s1 = s_ws(toks, s);
    match s_peek(toks, s1) {
        Some(TokenKind::Name) => s_register(toks, s1, primary_name_kind(toks[s1.pos].1)),
        Some(TokenKind::StringLiteral) => sp_string_literal(toks, s1),
        Some(TokenKind::IntegerLiteral) => s_bump(toks, s1),
        Some(TokenKind::FloatLiteral) => s_bump(toks, s1),
        Some(TokenKind::LeftParen) => {
            let s2 = s_bump(toks, s_start(s1, SyntaxKind::ExprWrapped));
            let s3 = adv(s2, sp_tuple(toks, s2, TupleParseMode::WithCondExpr, None, true));
            let s4 = s_sync(toks, s3, seq![TokenKind::RightParen]);
            s_finish(
                if s_found(toks, s4, seq![TokenKind::RightParen]) is Some {
                    s_bump(toks, s4)
                } else {
                    s_error(s4, "expected ')' before end of context"@)
                },
            )
        },
        Some(TokenKind::LeftBracket) => sp_list(toks, s1),
        Some(TokenKind::LeftBrace) => sp_dict(toks, s1),
        _ => s_error(s1, "invalid primary expression"@),
    }
}

/// A list in square brackets.
#[verifier::opaque]
pub open spec fn sp_list(toks: Seq<Tok>, s: State) -> State
    decreases left(toks, s), 4nat, 0nat,
{
    if s_at(toks, s, TokenKind::LeftBracket) {
        let s1 = s_bump(toks, s_start(s, SyntaxKind::ExprList));
        s_finish(adv(s1, sp_list_items(toks, s1)))
    } else {
        s
    }
}

/// The items of a list, up to its end.
#[verifier::opaque]
pub open spec fn sp_list_items(toks: Seq<Tok>, s: State) -> State
    decreases left(toks, s), 30nat, 0nat,
{
    let s1 = s_ws(toks, s);
    if s_at(toks, s1, TokenKind::RightBracket) {
        s_bump(toks, s1)
    } else {
        let s2 = s_ws(toks, adv(s1, sp_expression(toks, s1, true)));
        let s3 = s_sync(toks, s2, seq![TokenKind::Comma, TokenKind::RightBracket]);
        match s_found(toks, s3, seq![TokenKind::Comma, TokenKind::RightBracket]) {
            None => s_error(s3, "expected ',' or ']', but found end of context"@),
            Some(TokenKind::Comma) => sp_list_items(toks, s_bump(toks, s3)),
            Some(_) => s_bump(toks, s3),
        }
    }
}

/// A dict in braces.
#[verifier::opaque]
pub open spec fn sp_dict(toks: Seq<Tok>, s: State) -> State
    decreases left(toks, s), 4nat, 0nat,
{
    if s_at(toks, s, TokenKind::LeftBrace) {
        let s1 = s_bump(toks, s_start(s, SyntaxKind::ExprDict));
        s_finish(adv(s1, sp_dict_items(toks, s1)))
    } else {
        s
    }
}

/// The pairs of a dict, up to its end.
#[verifier::opaque]
pub open spec fn sp_dict_items(toks: Seq<Tok>, s: State) -> State
    decreases left(toks, s), 30nat, 0nat,
{
    let s1 = s_ws(toks, s);
    if s_at(toks, s1, TokenKind::RightBrace) {
        s_bump(toks, s1)
    } else {
        let p = s_start(s1, SyntaxKind::Pair);
        let s2 = s_ws(toks, adv(p, sp_expression(toks, p, true)));
        match s_peek(toks, s2) {
            None => s_error(s_finish(s2), "expected ':', but found EOF"@),
            Some(TokenKind::RightBrace) => s_error(
                s_bump(toks, s_finish(s2)),
                "dict key requires \": value\" to complete"@,
            ),
            Some(kind) => if expression_end(kind) {
                s_error(
                    s_finish(s2),
                    "expected end of dict, but found end of context "@ + kind.name_spec(),
                )
            } else {
                let s3 = if kind == TokenKind::Colon {
                    s_bump(toks, s2)
                } else {
                    s_bump_error(
                        toks,
                        s_error(s2, "expected ':', but found "@ + kind.name_spec()),
                    )
                };
                let s4 = s_ws(toks, s3);
                let s5 = s_ws(toks, s_finish(adv(s4, sp_expression(toks, s4, true))));
                let s6 = s_sync(toks, s5, seq![TokenKind::Comma, TokenKind::RightBrace]);
                match s_found(toks, s6, seq![TokenKind::Comma, TokenKind::RightBrace]) {
                    None => s_error(s6, "expected ',' or '}', but found end of context"@),
                    Some(TokenKind::Comma) => sp_dict_items(toks, s_bump(toks, s6)),
                    Some(_) => s_bump(toks, s6),
                }
            },
        }
    }
}

/// The arguments of a call, in parentheses.
#[verifier::opaque]
pub open spec fn sp_call_args(toks: Seq<Tok>, s: State) -> State
    decreases left(toks, s), 6nat, 0nat,
{
    if s_at(toks, s, TokenKind::LeftParen) {
        let s1 = s_bump(toks, s_start(s, SyntaxKind::CallArguments));
        s_finish(adv(s1, sp_call_items(toks, s1, false, false, false)))
    } else {
        s
    }
}

/// Whether a named argument is at the cursor: a name with `=` after it.
pub open spec fn s_at_kwarg(toks: Seq<Tok>, s: State) -> bool {
    s_at(toks, s, TokenKind::Name) && s_second_kind(toks, s) == Some(TokenKind::Assign)
}

/// One argument of a call, which is known to start with a token that is
/// neither a closing parenthesis nor the end of the bracket.
#[verifier::opaque]
pub open spec fn sp_call_arg(
    toks: Seq<Tok>,
    s: State,
    kwarg: bool,
    dyn_args: bool,
    dyn_kwargs: bool,
) -> State
    decreases left(toks, s), 29nat, 0nat,
{
    if s_at(toks, s, TokenKind::Multiply) {
        let e = error_if(
            dyn_kwargs,
            error_if(dyn_args, s, "multiple dynamic args found"@),
            "dynamic args found after dynamic kwargs"@,
        );
        let b = s_ws(toks, s_bump(toks, s_start(e, SyntaxKind::CallDynamicArgs)));
        s_finish(adv(b, sp_expression(toks, b, true)))
    } else if s_at(toks, s, TokenKind::Power) {
        let e = error_if(dyn_kwargs, s, "multiple dynamic kwargs found"@);
        let b = s_ws(toks, s_bump(toks, s_start(e, SyntaxKind::CallDynamicKwargs)));
        s_finish(adv(b, sp_expression(toks, b, true)))
    } else if s_at_kwarg(toks, s) {
        let e = error_if(dyn_kwargs, s, "kwarg found after dynamic kwargs"@);
        let b = s_bump(
            toks,
            s_ws(toks, s_bump(toks, s_start(e, SyntaxKind::CallStaticKwarg))),
        );
        s_finish(adv(b, sp_expression(toks, b, true)))
    } else {
        let b = s_start(argument_errors(s, kwarg, dyn_args, dyn_kwargs), SyntaxKind::CallStaticArg);
        s_finish(adv(b, sp_expression(toks, b, true)))
    }
}

/// The arguments of a call, up to the closing parenthesis. The flags say
/// which kinds of argument have been read.
#[verifier::opaque]
pub open spec fn sp_call_items(
    toks: Seq<Tok>,
    s: State,
    kwarg: bool,
    dyn_args: bool,
    dyn_kwargs: bool,
) -> State
    decreases left(toks, s), 30nat, 0nat,
{
    let s1 = s_ws(toks, s);
    match s_peek(toks, s1) {
        None => s1,
        Some(TokenKind::RightParen) => s_bump(toks, s1),
        Some(kind) => if expression_end(kind) {
            s_error(s1, "incomplete call args before context end "@ + kind.name_spec())
        } else {
            let s2 = adv(s1, sp_call_arg(toks, s1, kwarg, dyn_args, dyn_kwargs));
            let s3 = s_sync(toks, s2, seq![TokenKind::Comma, TokenKind::RightParen]);
            match s_found(toks, s3, seq![TokenKind::Comma, TokenKind::RightParen]) {
                None => s_error(s3, "expected ',' or ')', not end of context"@),
                Some(TokenKind::Comma) => sp_call_items(
                    toks,
                    s_bump(toks, s3),
                    kwarg || s_at_kwarg(toks, s1),
                    dyn_args || kind == TokenKind::Multiply,
                    dyn_kwargs || kind == TokenKind::Power,
                ),
                Some(_) => s_bump(toks, s3),
            }
        },
    }
}

/// A call: what stands from `at` on, with its arguments.
#[verifier::opaque]
pub open spec fn sp_call(toks: Seq<Tok>, s: State, at: int) -> State
    decreases left(toks, s), 7nat, 0nat,
{
    if s_at(toks, s, TokenKind::LeftParen) {
        let s1 = s_start_at(s, at, SyntaxKind::ExprCall);
        s_finish(adv(s1, sp_call_args(toks, s1)))
    } else {
        s
    }
}

/// Whether an expression may start a part of a slice at a token of this
/// kind, after the first colon and after the second.
pub open spec fn slice_part(kind: Option<TokenKind>, second: bool) -> bool {
    match kind {
        Some(kind) => kind != TokenKind::RightBracket && kind != TokenKind::Comma && (second
            || kind != TokenKind::Colon),
        None => false,
    }
}

/// The parts of a slice after its first colon.
#[verifier::opaque]
pub open spec fn sp_slice_rest(toks: Seq<Tok>, s: State) -> State
    decreases left(toks, s), 22nat, 5nat,
{
    let s1 = s_ws(toks, s);
    let s2 = s_ws(
        toks,
        if slice_part(s_peek(toks, s1), false) {
            adv(s1, sp_expression(toks, s1, true))
        } else {
            s1
        },
    );
    if s_at(toks, s2, TokenKind::Colon) {
        let s3 = s_ws(toks, s_bump(toks, s2));
        s_finish(
            if slice_part(s_peek(toks, s3), true) {
                adv(s3, sp_expression(toks, s3, true))
            } else {
                s3
            },
        )
    } else {
        s_finish(s2)
    }
}

/// One subscript between square brackets: an expression or a slice.
#[verifier::opaque]
pub open spec fn sp_subscribed(toks: Seq<Tok>, s: State) -> State
    decreases left(toks, s), 23nat, 0nat,
{
    let at = s.children.len() as int;
    let s1 = s_ws(toks, s);
    if s_at(toks, s1, TokenKind::Colon) {
        let s2 = s_bump(toks, s_start_at(s1, at, SyntaxKind::ExprSlice));
        adv(s2, sp_slice_rest(toks, s2))
    } else {
        let s2 = s_ws(toks, adv(s1, sp_expression(toks, s1, true)));
        if s_at(toks, s2, TokenKind::Colon) {
            let s3 = s_start_at(s2, at, SyntaxKind::ExprSlice);
            adv(s3, sp_slice_rest(toks, s3))
        } else {
            s2
        }
    }
}

/// The subscripts after the first one, up to the closing bracket, and the
/// end of the subscript.
#[verifier::opaque]
pub open spec fn sp_subscripts(toks: Seq<Tok>, s: State, at: int, tuple_at: int, is_tuple: bool) -> State
    decreases left(toks, s), 30nat, 0nat,
{
    let s1 = s_sync(toks, s_ws(toks, s), seq![TokenKind::RightBracket, TokenKind::Comma]);
    match s_found(toks, s1, seq![TokenKind::RightBracket, TokenKind::Comma]) {
        None => subscript_close(
            toks,
            s_error(s1, "expected ']' for subscript, but found end of context"@),
            at,
            is_tuple,
            false,
        ),
        Some(TokenKind::Comma) => {
            let s2 = start_once(is_tuple, s_bump(toks, s1), tuple_at, SyntaxKind::ExprTuple);
            sp_subscripts(toks, adv(s2, sp_subscribed(toks, s2)), at, tuple_at, true)
        },
        Some(_) => subscript_close(toks, s1, at, is_tuple, true),
    }
}

/// A subscript in square brackets, after what stands from `at` on.
#[verifier::opaque]
pub open spec fn sp_bracket(toks: Seq<Tok>, s: State, at: int) -> State
    decreases left(toks, s), 7nat, 1nat,
{
    if s_at(toks, s, TokenKind::LeftBracket) {
        let s2 = s_start(s_ws(toks, s_bump(toks, s)), SyntaxKind::Subscript);
        let s3 = adv(s2, sp_subscribed(toks, s2));
        sp_subscripts(toks, s3, at, s2.children.len() as int, false)
    } else {
        s
    }
}

/// What may follow a primary: attributes, subscripts and calls.
#[verifier::opaque]
pub open spec fn sp_postfix(toks: Seq<Tok>, s: State, at: int) -> State
    decreases left(toks, s), 8nat, 0nat,
{
    let s1 = s_ws(toks, s);
    match s_peek(toks, s1) {
        Some(TokenKind::Dot) => {
            let s2 = s_ws(toks, s_bump(toks, s1));
            sp_postfix(
                toks,
                match s_peek(toks, s2) {
                    Some(TokenKind::Name) => s_finish(
                        s_register(
                            toks,
                            s_start_at(s2, at, SyntaxKind::ExprGetAttr),
                            SyntaxKind::Subscript,
                        ),
                    ),
                    Some(TokenKind::IntegerLiteral) => s_finish(
                        s_register(
                            toks,
                            s_start_at(s2, at, SyntaxKind::ExprGetItem),
                            SyntaxKind::Subscript,
                        ),
                    ),
                    kind => s_error(
                        s2,
                        "expected name or integer as subscript, not "@ + optional_kind_text(kind),
                    ),
                },
                at,
            )
        },
        Some(TokenKind::LeftBracket) => {
            let s2 = adv(s1, sp_bracket(toks, s1, at));
            if s2.pos > s.pos {
                sp_postfix(toks, s2, at)
            } else {
                s2
            }
        },
        Some(TokenKind::LeftParen) => {
            let s2 = adv(s1, sp_call(toks, s1, at));
            if s2.pos > s.pos {
                sp_postfix(toks, s2, at)
            } else {
                s2
            }
        },
        _ => s1,
    }
}

/// Filters: each wraps what stands from `at` on. With `inline`, the first
/// filter stands without `|` before it.
#[verifier::opaque]
pub open spec fn sp_filter(toks: Seq<Tok>, s: State, at: int, inline: bool) -> State
    decreases left(toks, s), 9nat, (if inline { 1nat } else { 0nat }),
{
    if !inline && !s_at(toks, s, TokenKind::Pipe) {
        s
    } else {
        let s1 = s_ws(toks, bump_if(!inline, toks, s));
        let n = s_start(s1, SyntaxKind::ExprFilterName);
        let s2 = adv(n, sp_nested_name(toks, n));
        let s3 = if s_at(toks, s2, TokenKind::LeftParen) {
            adv(s2, sp_call_args(toks, s2))
        } else {
            s2
        };
        sp_filter(toks, s_finish(s_start_at(s_finish(s3), at, SyntaxKind::ExprFilter)), at, false)
    }
}

/// A test, after `is`: the name of the test and what it is given.
#[verifier::opaque]
pub open spec fn sp_test(toks: Seq<Tok>, s: State, at: int) -> State
    decreases left(toks, s), 24nat, 0nat,
{
    let s1 = s_ws(toks, s);
    let negated = s_at_name(toks, s1, "not"@);
    let s2 = if negated {
        s_start(s_bump(toks, s_start_at(s1, at, SyntaxKind::ExprNot)), SyntaxKind::ExprTest)
    } else {
        s_start_at(s1, at, SyntaxKind::ExprTest)
    };
    let s3 = adv(s2, sp_nested_name(toks, s2));
    let s4 = if s_at(toks, s3, TokenKind::LeftParen) {
        adv(s3, sp_call_args(toks, s3))
    } else if starts_primary(s_peek(toks, s3)) {
        if s_at_name(toks, s3, "else"@) || s_at_name(toks, s3, "or"@) || s_at_name(
            toks,
            s3,
            "and"@,
        ) {
            s3
        } else if s_at_name(toks, s3, "is"@) {
            s_error(s3, "Chaining multiple tests is prohibited"@)
        } else {
            let s5 = s_start(s3, SyntaxKind::TestArguments);
            let s6 = adv(s5, sp_primary(toks, s5));
            s_finish(adv(s6, sp_postfix(toks, s6, s5.children.len() as int)))
        }
    } else {
        s3
    };
    s_finish(close_if(negated, s4))
}

/// Filters, tests and calls after a unary expression.
#[verifier::opaque]
pub open spec fn sp_filter_expr(toks: Seq<Tok>, s: State, at: int) -> State
    decreases left(toks, s), 10nat, 0nat,
{
    let s1 = s_ws(toks, s);
    if s_at(toks, s1, TokenKind::Pipe) {
        let s2 = adv(s1, sp_filter(toks, s1, at, false));
        if s2.pos > s.pos {
            sp_filter_expr(toks, s2, at)
        } else {
            s2
        }
    } else if s_at_name(toks, s1, "is"@) {
        let s2 = s_bump(toks, s1);
        sp_filter_expr(toks, adv(s2, sp_test(toks, s2, at)), at)
    } else if s_at(toks, s1, TokenKind::LeftParen) {
        let s2 = adv(s1, sp_call(toks, s1, at));
        if s2.pos > s.pos {
            sp_filter_expr(toks, s2, at)
        } else {
            s2
        }
    } else {
        s1
    }
}

/// A primary with a sign before it and attributes, subscripts, calls,
/// filters and tests after it.
#[verifier::opaque]
pub open spec fn sp_unary(toks: Seq<Tok>, s: State, with_filter: bool) -> State
    decreases left(toks, s), 11nat, 0nat,
{
    let at = s.children.len() as int;
    let s1 = s_ws(toks, s);
    let s2 = if s_at(toks, s1, TokenKind::Subtract) {
        let b = s_bump(toks, s_start_at(s1, at, SyntaxKind::ExprNegative));
        s_finish(adv(b, sp_unary(toks, b, false)))
    } else if s_at(toks, s1, TokenKind::Add) {
        let b = s_bump(toks, s_start_at(s1, at, SyntaxKind::ExprPositive));
        s_finish(adv(b, sp_unary(toks, b, false)))
    } else {
        adv(s1, sp_primary(toks, s1))
    };
    let s3 = adv(s2, sp_postfix(toks, s2, at));
    if with_filter {
        sp_filter_expr(toks, s3, at)
    } else {
        s3
    }
}

/// Powers. A power binds to the right: the exponent is a power itself.
#[verifier::opaque]
pub open spec fn sp_pow(toks: Seq<Tok>, s: State) -> State
    decreases left(toks, s), 12nat, 0nat,
{
    let at = s.children.len() as int;
    let s1 = s_ws(toks, s);
    let s2 = s_ws(toks, adv(s1, sp_unary(toks, s1, true)));
    if s_at(toks, s2, TokenKind::Power) {
        let b = s_bump(toks, s_start_at(s2, at, SyntaxKind::ExprPower));
        s_finish(adv(b, sp_pow(toks, b)))
    } else {
        s2
    }
}

/// The operators of products and their right-hand sides, from left to
/// right.
#[verifier::opaque]
pub open spec fn sp_math2_rest(toks: Seq<Tok>, s: State, at: int) -> State
    decreases left(toks, s), 13nat, 0nat,
{
    let s1 = s_ws(toks, s);
    match product_kind(s_peek(toks, s1)) {
        Some(kind) => {
            let b = s_bump(toks, s_start_at(s1, at, kind));
            sp_math2_rest(toks, s_finish(adv(b, sp_pow(toks, b))), at)
        },
        None => s1,
    }
}

/// Products, quotients and remainders.
#[verifier::opaque]
pub open spec fn sp_math2(toks: Seq<Tok>, s: State) -> State
    decreases left(toks, s), 13nat, 1nat,
{
    let s1 = s_ws(toks, s);
    sp_math2_rest(toks, adv(s1, sp_pow(toks, s1)), s.children.len() as int)
}

/// The `~` operators and their right-hand sides.
#[verifier::opaque]
pub open spec fn sp_concat_rest(toks: Seq<Tok>, s: State, at: int, is_concat: bool) -> State
    decreases left(toks, s), 14nat, 0nat,
{
    let s1 = s_ws(toks, s);
    if s_at(toks, s1, TokenKind::Tilde) {
        let b = s_bump(toks, start_once(is_concat, s1, at, SyntaxKind::ExprConcat));
        sp_concat_rest(toks, adv(b, sp_math2(toks, b)), at, true)
    } else {
        close_if(is_concat, s1)
    }
}

/// Strings put together with `~`.
#[verifier::opaque]
pub open spec fn sp_concat(toks: Seq<Tok>, s: State) -> State
    decreases left(toks, s), 14nat, 1nat,
{
    let s1 = s_ws(toks, s);
    sp_concat_rest(toks, adv(s1, sp_math2(toks, s1)), s.children.len() as int, false)
}

/// The operators of sums and their right-hand sides, from left to right.
#[verifier::opaque]
pub open spec fn sp_math1_rest(toks: Seq<Tok>, s: State, at: int) -> State
    decreases left(toks, s), 15nat, 0nat,
{
    let s1 = s_ws(toks, s);
    match sum_kind(s_peek(toks, s1)) {
        Some(kind) => {
            let b = s_bump(toks, s_start_at(s1, at, kind));
            sp_math1_rest(toks, s_finish(adv(b, sp_concat(toks, b))), at)
        },
        None => s1,
    }
}

/// Sums and differences.
#[verifier::opaque]
pub open spec fn sp_math1(toks: Seq<Tok>, s: State) -> State
    decreases left(toks, s), 15nat, 1nat,
{
    let s1 = s_ws(toks, s);
    sp_math1_rest(toks, adv(s1, sp_concat(toks, s1)), s.children.len() as int)
}

/// The operators of a compare chain, each with its operand.
#[verifier::opaque]
pub open spec fn sp_compare_rest(toks: Seq<Tok>, s: State, at: int, is_compare: bool) -> State
    decreases left(toks, s), 16nat, 0nat,
{
    let s1 = s_ws(toks, s);
    if s_at_compare(toks, s1) || s_at_name(toks, s1, "in"@) || s_at_not_in(toks, s1) {
        let o = s_start(
            start_once(is_compare, s1, at, SyntaxKind::ExprCompare),
            SyntaxKind::Operand,
        );
        let b = if s_at_compare(toks, s1) {
            s_ws(toks, s_bump(toks, o))
        } else if s_at_name(toks, s1, "in"@) {
            s_ws(toks, s_register(toks, o, SyntaxKind::NameOperatorIn))
        } else {
            s_finish(
                s_bump(
                    toks,
                    s_ws(toks, s_bump(toks, s_start(o, SyntaxKind::NameOperatorNotIn))),
                ),
            )
        };
        if b.pos > s.pos {
            sp_compare_rest(toks, s_finish(adv(b, sp_math1(toks, b))), at, true)
        } else {
            b
        }
    } else {
        close_if(is_compare, s1)
    }
}

/// A chain of comparisons.
#[verifier::opaque]
pub open spec fn sp_compare(toks: Seq<Tok>, s: State) -> State
    decreases left(toks, s), 16nat, 1nat,
{
    let s1 = s_ws(toks, s);
    sp_compare_rest(toks, adv(s1, sp_math1(toks, s1)), s.children.len() as int, false)
}

/// Negations. A negation binds to the right.
#[verifier::opaque]
pub open spec fn sp_not(toks: Seq<Tok>, s: State) -> State
    decreases left(toks, s), 17nat, 0nat,
{
    let at = s.children.len() as int;
    let s1 = s_ws(toks, s);
    if s_at_name(toks, s1, "not"@) {
        let b = s_register(
            toks,
            s_start_at(s1, at, SyntaxKind::ExprNot),
            SyntaxKind::NameOperatorNot,
        );
        s_finish(adv(b, sp_not(toks, b)))
    } else {
        sp_compare(toks, s1)
    }
}

/// `and` and what follows it, from left to right.
#[verifier::opaque]
pub open spec fn sp_and_rest(toks: Seq<Tok>, s: State, at: int) -> State
    decreases left(toks, s), 18nat, 0nat,
{
    let s1 = s_ws(toks, s);
    if s_at_name(toks, s1, "and"@) {
        let b = s_register(
            toks,
            s_start_at(s1, at, SyntaxKind::ExprAnd),
            SyntaxKind::NameOperatorAnd,
        );
        sp_and_rest(toks, s_finish(adv(b, sp_not(toks, b))), at)
    } else {
        s1
    }
}

/// Conjunctions.
#[verifier::opaque]
pub open spec fn sp_and(toks: Seq<Tok>, s: State) -> State
    decreases left(toks, s), 18nat, 1nat,
{
    sp_and_rest(toks, adv(s, sp_not(toks, s)), s.children.len() as int)
}

/// `or` and what follows it, from left to right.
#[verifier::opaque]
pub open spec fn sp_or_rest(toks: Seq<Tok>, s: State, at: int) -> State
    decreases left(toks, s), 19nat, 0nat,
{
    let s1 = s_ws(toks, s);
    if s_at_name(toks, s1, "or"@) {
        let b = s_register(toks, s_start_at(s1, at, SyntaxKind::ExprOr), SyntaxKind::NameOperatorOr);
        sp_or_rest(toks, s_finish(adv(b, sp_and(toks, b))), at)
    } else {
        s1
    }
}

/// Disjunctions.
#[verifier::opaque]
pub open spec fn sp_or(toks: Seq<Tok>, s: State) -> State
    decreases left(toks, s), 19nat, 1nat,
{
    sp_or_rest(toks, adv(s, sp_and(toks, s)), s.children.len() as int)
}

/// `if`, a condition and, after `else`, another conditional expression,
/// as often as `if` follows.
#[verifier::opaque]
pub open spec fn sp_ternary_rest(toks: Seq<Tok>, s: State, at: int) -> State
    decreases left(toks, s), 20nat, 0nat,
{
    let s1 = s_ws(toks, s);
    if s_at_name(toks, s1, "if"@) {
        let b = s_register(
            toks,
            s_start_at(s1, at, SyntaxKind::ExprTernary),
            SyntaxKind::NameOperatorIf,
        );
        let s2 = s_ws(toks, adv(b, sp_or(toks, b)));
        let s3 = if s_at_name(toks, s2, "else"@) {
            let e = s_register(toks, s2, SyntaxKind::NameOperatorElse);
            adv(e, sp_ternary(toks, e))
        } else {
            s2
        };
        sp_ternary_rest(toks, s_finish(s3), at)
    } else {
        s1
    }
}

/// Conditional expressions.
#[verifier::opaque]
pub open spec fn sp_ternary(toks: Seq<Tok>, s: State) -> State
    decreases left(toks, s), 20nat, 1nat,
{
    sp_ternary_rest(toks, adv(s, sp_or(toks, s)), s.children.len() as int)
}

/// An expression, with or without conditional expressions.
#[verifier::opaque]
pub open spec fn sp_expression(toks: Seq<Tok>, s: State, with_condexpr: bool) -> State
    decreases left(toks, s), 21nat, 0nat,
{
    if with_condexpr {
        sp_ternary(toks, s)
    } else {
        sp_or(toks, s)
    }
}

/// The elements of a tuple and its end. The flags say whether a comma has
/// been read and whether nothing has been read yet.
#[verifier::opaque]
pub open spec fn sp_tuple_items(
    toks: Seq<Tok>,
    s: State,
    mode: TupleParseMode,
    end: Option<Seq<char>>,
    explicit: bool,
    at: int,
    is_tuple: bool,
    is_empty: bool,
) -> State
    decreases left(toks, s), 22nat, 0nat,
{
    let s1 = s_ws(toks, s);
    if s_peek(toks, s1) is None {
        tuple_close(
            toks,
            s_error(s1, "unexpected EOF while parsing possible tuple"@),
            explicit,
            is_tuple,
            is_empty,
        )
    } else if s_tuple_end(toks, s1, end) {
        tuple_close(toks, s1, explicit, is_tuple, is_empty)
    } else {
        let s2 = s_ws(
            toks,
            adv(
                s1,
                match mode {
                    TupleParseMode::Simplified => sp_primary(toks, s1),
                    TupleParseMode::WithCondExpr => sp_expression(toks, s1, true),
                    TupleParseMode::NoCondExpr => sp_expression(toks, s1, false),
                },
            ),
        );
        if s_at(toks, s2, TokenKind::Comma) {
            sp_tuple_items(
                toks,
                s_bump(toks, start_once(is_tuple, s2, at, SyntaxKind::ExprTuple)),
                mode,
                end,
                explicit,
                at,
                true,
                false,
            )
        } else {
            tuple_close(toks, s2, explicit, is_tuple, false)
        }
    }
}

/// Expressions with commas between them.
#[verifier::opaque]
pub open spec fn sp_tuple(
    toks: Seq<Tok>,
    s: State,
    mode: TupleParseMode,
    end: Option<Seq<char>>,
    explicit: bool,
) -> State
    decreases left(toks, s), 22nat, 1nat,
{
    sp_tuple_items(toks, s, mode, end, explicit, s.children.len() as int, false, true)
}

} // verus!
