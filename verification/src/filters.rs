//! Filters and tests.

use crate::grammar::{
    sp_call, sp_call_args, sp_filter, sp_filter_expr, sp_nested_name, sp_postfix, sp_primary,
    sp_test,
};
use crate::green::checkpoint_index;
use crate::parser::{checkpoint_within, filter_floor, Parser};
use crate::syntax::{SyntaxKind, TokenKind};
use rowan::Checkpoint;
use vstd::prelude::*;

verus! {

impl Parser {
    /// Filters: each wraps what stands from the checkpoint on.
    pub(crate) fn parse_filter(&mut self, checkpoint: Option<Checkpoint>, start_inline: bool)
        requires
            old(self).inv(),
            checkpoint matches Some(c) ==> checkpoint_within(c, *old(self)),
        ensures
            final(self).follows(*old(self), filter_floor(checkpoint, *old(self))),
            !start_inline && old(self).peek() == Some(TokenKind::Pipe) ==> final(self).pos > old(
                self,
            ).pos,
            final(self).state() == sp_filter(
                old(self).toks(),
                old(self).state(),
                filter_floor(checkpoint, *old(self)),
                start_inline,
            ),
        decreases old(self).left(), 9nat,
    {
        let filter_checkpoint = match checkpoint {
            Some(c) => c,
            None => self.checkpoint(),
        };
        let ghost at = filter_floor(checkpoint, *old(self));
        let ghost target = sp_filter(self.toks(), self.state(), at, start_inline);
        let inline0 = start_inline;
        let mut start_inline = start_inline;
        loop
            invariant_except_break
                sp_filter(self.toks(), self.state(), at, start_inline) == target,
            invariant
                old(self).inv(),
                self.follows(*old(self), at),
                checkpoint_index(filter_checkpoint) == at,
                old(self).floor() <= at,
                self.pos == old(self).pos ==> self.peek() == old(self).peek() && (start_inline
                    == inline0 || inline0),
            ensures
                self.state() == target,
                !inline0 && old(self).peek() == Some(TokenKind::Pipe) ==> self.pos > old(self).pos,
            decreases self.left(), (if start_inline { 1nat } else { 0nat }),
        {
            proof {
                reveal(sp_filter);
                reveal(sp_call_args);
                reveal(sp_nested_name);
            }
            if !start_inline && !self.at(TokenKind::Pipe) {
                break;
            }
            if !start_inline {
                self.bump();
            }
            self.skip_ws();
            self.start_node(SyntaxKind::ExprFilterName);
            self.parse_nested_name();
            if self.at(TokenKind::LeftParen) {
                self.parse_call_args();
            }
            self.finish_node();
            self.start_node_at(filter_checkpoint, SyntaxKind::ExprFilter);
            self.finish_node();
            start_inline = false;
        }
    }

    /// A test: `is`, which has been read, then the test's name and what it
    /// is given.
    pub(crate) fn parse_test(&mut self, checkpoint: Checkpoint)
        requires
            old(self).inv(),
            checkpoint_within(checkpoint, *old(self)),
        ensures
            final(self).follows(*old(self), checkpoint_index(checkpoint)),
            final(self).state() == sp_test(
                old(self).toks(),
                old(self).state(),
                checkpoint_index(checkpoint),
            ),
        decreases old(self).left(), 24nat,
    {
        proof {
            reveal(sp_test);
            reveal(sp_call_args);
            reveal(sp_nested_name);
            reveal(sp_postfix);
            reveal(sp_primary);
        }
        self.skip_ws();
        let negated = self.at_name("not");
        if negated {
            self.start_node_at(checkpoint, SyntaxKind::ExprNot);
            self.bump();
            self.start_node(SyntaxKind::ExprTest);
        } else {
            self.start_node_at(checkpoint, SyntaxKind::ExprTest);
        }
        self.parse_nested_name();
        match self.current() {
            Some(TokenKind::LeftParen) => {
                self.parse_call_args();
            },
            Some(
                TokenKind::Name
                | TokenKind::StringLiteral
                | TokenKind::IntegerLiteral
                | TokenKind::FloatLiteral
                | TokenKind::LeftBracket
                | TokenKind::LeftBrace,
            ) => {
                if self.at_name("else") || self.at_name("or") || self.at_name("and") {
                } else if self.at_name("is") {
                    self.error_str("Chaining multiple tests is prohibited");
                } else {
                    self.start_node(SyntaxKind::TestArguments);
                    let arg_checkpoint = self.checkpoint();
                    self.parse_primary();
                    self.parse_postfix(arg_checkpoint);
                    self.finish_node();
                }
            },
            _ => {},
        }
        if negated {
            self.finish_node();
        }
        self.finish_node();
    }

    /// Filters, tests and calls after a unary expression.
    pub(crate) fn parse_filter_expr(&mut self, checkpoint: Checkpoint)
        requires
            old(self).inv(),
            checkpoint_within(checkpoint, *old(self)),
        ensures
            final(self).follows(*old(self), checkpoint_index(checkpoint)),
            final(self).state() == sp_filter_expr(
                old(self).toks(),
                old(self).state(),
                checkpoint_index(checkpoint),
            ),
        decreases old(self).left(), 10nat,
    {
        let ghost at = checkpoint_index(checkpoint);
        let ghost target = sp_filter_expr(self.toks(), self.state(), at);
        loop
            invariant_except_break
                sp_filter_expr(self.toks(), self.state(), at) == target,
            invariant
                old(self).inv(),
                at == checkpoint_index(checkpoint),
                self.follows(*old(self), at),
                checkpoint_within(checkpoint, *old(self)),
            ensures
                self.state() == target,
            decreases self.left(),
        {
            proof {
                reveal(sp_filter_expr);
                reveal(sp_call);
                reveal(sp_filter);
                reveal(sp_test);
            }
            self.skip_ws();
            if self.at(TokenKind::Pipe) {
                self.parse_filter(Some(checkpoint), false);
            } else if self.at_name("is") {
                self.bump();
                self.parse_test(checkpoint);
            } else if self.at(TokenKind::LeftParen) {
                self.parse_call(checkpoint);
            } else {
                break;
            }
        }
    }
}

} // verus!
