//! Conditional expressions, and expressions as a whole.

use crate::grammar::{sp_expression, sp_or, sp_ternary, sp_ternary_rest};
use crate::parser::{checkpoint_at, Parser};
use crate::syntax::SyntaxKind;
use vstd::prelude::*;

verus! {

impl Parser {
    /// Conditional expressions: a value, `if`, a condition, and after
    /// `else`, where it is there, another conditional expression.
    pub(crate) fn parse_ternary(&mut self)
        requires
            old(self).inv(),
        ensures
            final(self).follows(*old(self), old(self).children().len() as int),
            final(self).state() == sp_ternary(old(self).toks(), old(self).state()),
        decreases old(self).left(), 20nat,
    {
        proof {
            reveal(sp_ternary);
            reveal(sp_or);
            reveal(sp_ternary_rest);
        }
        let checkpoint = self.checkpoint();
        let ghost at = old(self).children().len() as int;
        self.parse_or();
        let ghost target = sp_ternary_rest(self.toks(), self.state(), at);
        loop
            invariant_except_break
                sp_ternary_rest(self.toks(), self.state(), at) == target,
            invariant
                old(self).inv(),
                at == old(self).children().len(),
                self.follows(*old(self), at),
                checkpoint_at(checkpoint, *old(self)),
            ensures
                self.state() == target,
            decreases self.left(),
        {
            proof {
                reveal(sp_ternary_rest);
                reveal(sp_or);
                reveal(sp_ternary);
            }
            self.skip_ws();
            if self.at_name("if") {
                self.start_node_at(checkpoint, SyntaxKind::ExprTernary);
                self.register(SyntaxKind::NameOperatorIf);
                self.parse_or();
                self.skip_ws();
                if self.at_name("else") {
                    self.register(SyntaxKind::NameOperatorElse);
                    self.parse_ternary();
                }
                self.finish_node();
            } else {
                break;
            }
        }
    }

    /// An expression, with or without conditional expressions.
    pub(crate) fn parse_expression(&mut self, with_condexpr: bool)
        requires
            old(self).inv(),
        ensures
            final(self).follows(*old(self), old(self).children().len() as int),
            final(self).state() == sp_expression(old(self).toks(), old(self).state(), with_condexpr),
        decreases old(self).left(), 21nat,
    {
        proof {
            reveal(sp_expression);
            reveal(sp_or);
            reveal(sp_ternary);
        }
        if with_condexpr {
            self.parse_ternary();
        } else {
            self.parse_or();
        }
    }
}

} // verus!
