//! Tuples of expressions, and what ends them.

use crate::grammar::{s_tuple_end, sp_expression, sp_primary, sp_tuple, sp_tuple_items, tuple_close};
use crate::parser::{checkpoint_at, is_expression_end, Parser};
use crate::syntax::{SyntaxKind, TokenKind};
use crate::text::str_eq;
use vstd::prelude::*;

verus! {

/// What may stand as an element of a tuple.
#[derive(Clone, Copy, Debug, PartialEq, Eq, Structural)]
pub enum TupleParseMode {
    /// Names and literals only, as in the target of an assignment.
    Simplified,
    /// Any expression.
    WithCondExpr,
    /// Any expression but a conditional one.
    NoCondExpr,
}

/// The characters of a name that may be missing.
pub open spec fn name_text(name: Option<&str>) -> Option<Seq<char>> {
    match name {
        Some(name) => Some(name@),
        None => None,
    }
}

impl Parser {
    /// Whether the token at the cursor ends a tuple: the end of the
    /// bracket, a closing parenthesis, or the name given.
    pub(crate) fn at_tuple_end(&self, extra_end_rule: Option<&str>) -> (r: bool)
        requires
            self.pos <= self.tokens@.len(),
        ensures
            r == s_tuple_end(self.toks(), self.state(), name_text(extra_end_rule)),
    {
        if self.pos >= self.tokens.len() {
            return false;
        }
        let token = &self.tokens[self.pos];
        if is_expression_end(token.kind) || token.kind == TokenKind::RightParen {
            true
        } else if token.kind == TokenKind::Name {
            match extra_end_rule {
                Some(name) => str_eq(token.text.as_str(), name),
                None => false,
            }
        } else {
            false
        }
    }

    /// Expressions with commas between them. One expression alone stands
    /// for itself; a comma makes a tuple; nothing at all is a tuple only
    /// between parentheses.
    pub(crate) fn parse_tuple(
        &mut self,
        mode: TupleParseMode,
        extra_end_rule: Option<&str>,
        explicit_parentheses: bool,
    )
        requires
            old(self).inv(),
        ensures
            final(self).follows(*old(self), old(self).children().len() as int),
            final(self).state() == sp_tuple(
                old(self).toks(),
                old(self).state(),
                mode,
                name_text(extra_end_rule),
                explicit_parentheses,
            ),
        decreases old(self).left(), 22nat,
    {
        proof {
            reveal(sp_tuple);
            reveal(sp_tuple_items);
        }
        let checkpoint = self.checkpoint();
        let ghost at = old(self).children().len() as int;
        let ghost end = name_text(extra_end_rule);
        let mut is_tuple = false;
        let mut is_empty = true;
        let ghost target = sp_tuple_items(
            self.toks(),
            self.state(),
            mode,
            end,
            explicit_parentheses,
            at,
            false,
            true,
        );
        loop
            invariant_except_break
                sp_tuple_items(
                    self.toks(),
                    self.state(),
                    mode,
                    end,
                    explicit_parentheses,
                    at,
                    is_tuple,
                    is_empty,
                ) == target,
            invariant
                old(self).inv(),
                at == old(self).children().len(),
                self.keeps(*old(self), at),
                self.tag_stack@ == old(self).tag_stack@,
                checkpoint_at(checkpoint, *old(self)),
                end == name_text(extra_end_rule),
                is_tuple ==> !is_empty,
                if is_tuple {
                    self.parents() == old(self).parents().push(
                        (SyntaxKind::ExprTuple.raw_spec(), at),
                    )
                } else {
                    self.parents() == old(self).parents()
                },
            ensures
                tuple_close(self.toks(), self.state(), explicit_parentheses, is_tuple, is_empty)
                    == target,
            decreases self.left(),
        {
            proof {
                reveal(sp_tuple_items);
                reveal(sp_expression);
                reveal(sp_primary);
            }
            self.skip_ws();
            if self.pos >= self.tokens.len() {
                self.error_str("unexpected EOF while parsing possible tuple");
                break;
            }
            if self.at_tuple_end(extra_end_rule) {
                break;
            }
            match mode {
                TupleParseMode::Simplified => self.parse_primary(),
                TupleParseMode::WithCondExpr => self.parse_expression(true),
                TupleParseMode::NoCondExpr => self.parse_expression(false),
            }
            is_empty = false;
            self.skip_ws();
            if !self.at(TokenKind::Comma) {
                break;
            }
            if !is_tuple {
                is_tuple = true;
                self.start_node_at(checkpoint, SyntaxKind::ExprTuple);
            }
            self.bump();
        }
        if is_tuple {
            self.finish_node();
        } else if is_empty {
            if !explicit_parentheses {
                self.error_str("expression cannot be empty here");
                return;
            }
            self.start_node(SyntaxKind::ExprTuple);
            self.skip_ws();
            self.finish_node();
        }
    }
}

} // verus!
