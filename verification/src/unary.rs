//! Signs and powers.

use crate::grammar::{sp_filter_expr, sp_postfix, sp_pow, sp_primary, sp_unary};
use crate::parser::Parser;
use crate::syntax::{SyntaxKind, TokenKind};
use vstd::prelude::*;

verus! {

impl Parser {
    /// A primary with a sign before it and attributes, subscripts, calls,
    /// filters and tests after it.
    pub(crate) fn parse_unary(&mut self, with_filter: bool)
        requires
            old(self).inv(),
        ensures
            final(self).follows(*old(self), old(self).children().len() as int),
            final(self).state() == sp_unary(old(self).toks(), old(self).state(), with_filter),
        decreases old(self).left(), 11nat,
    {
        proof {
            reveal(sp_unary);
            reveal(sp_filter_expr);
            reveal(sp_postfix);
            reveal(sp_primary);
        }
        let checkpoint = self.checkpoint();
        self.skip_ws();
        match self.current() {
            Some(TokenKind::Subtract) => {
                self.start_node_at(checkpoint, SyntaxKind::ExprNegative);
                self.bump();
                self.parse_unary(false);
                self.finish_node();
            },
            Some(TokenKind::Add) => {
                self.start_node_at(checkpoint, SyntaxKind::ExprPositive);
                self.bump();
                self.parse_unary(false);
                self.finish_node();
            },
            _ => {
                self.parse_primary();
            },
        }
        self.parse_postfix(checkpoint);
        if with_filter {
            self.parse_filter_expr(checkpoint);
        }
    }

    /// Powers. A power binds to the right: the exponent is a power itself.
    pub(crate) fn parse_pow(&mut self)
        requires
            old(self).inv(),
        ensures
            final(self).follows(*old(self), old(self).children().len() as int),
            final(self).state() == sp_pow(old(self).toks(), old(self).state()),
        decreases old(self).left(), 12nat,
    {
        proof {
            reveal(sp_pow);
            reveal(sp_unary);
        }
        let checkpoint = self.checkpoint();
        self.skip_ws();
        self.parse_unary(true);
        self.skip_ws();
        if self.at(TokenKind::Power) {
            self.start_node_at(checkpoint, SyntaxKind::ExprPower);
            self.bump();
            self.parse_pow();
            self.finish_node();
        }
    }
}

} // verus!
