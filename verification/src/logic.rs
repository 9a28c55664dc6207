//! Conjunctions and disjunctions.

use crate::grammar::{sp_and, sp_and_rest, sp_not, sp_or, sp_or_rest};
use crate::parser::{checkpoint_at, Parser};
use crate::syntax::SyntaxKind;
use vstd::prelude::*;

verus! {

impl Parser {
    /// Conjunctions, from left to right.
    pub(crate) fn parse_and(&mut self)
        requires
            old(self).inv(),
        ensures
            final(self).follows(*old(self), old(self).children().len() as int),
            final(self).state() == sp_and(old(self).toks(), old(self).state()),
        decreases old(self).left(), 18nat,
    {
        proof {
            reveal(sp_and);
            reveal(sp_and_rest);
            reveal(sp_not);
        }
        let checkpoint = self.checkpoint();
        let ghost at = old(self).children().len() as int;
        self.parse_not();
        let ghost target = sp_and_rest(self.toks(), self.state(), at);
        loop
            invariant_except_break
                sp_and_rest(self.toks(), self.state(), at) == target,
            invariant
                old(self).inv(),
                at == old(self).children().len(),
                self.follows(*old(self), at),
                checkpoint_at(checkpoint, *old(self)),
            ensures
                self.state() == target,
            decreases self.left(),
        {
            proof {
                reveal(sp_and_rest);
                reveal(sp_not);
            }
            self.skip_ws();
            if self.at_name("and") {
                self.start_node_at(checkpoint, SyntaxKind::ExprAnd);
                self.register(SyntaxKind::NameOperatorAnd);
                self.parse_not();
                self.finish_node();
            } else {
                break;
            }
        }
    }

    /// Disjunctions, from left to right.
    pub(crate) fn parse_or(&mut self)
        requires
            old(self).inv(),
        ensures
            final(self).follows(*old(self), old(self).children().len() as int),
            final(self).state() == sp_or(old(self).toks(), old(self).state()),
        decreases old(self).left(), 19nat,
    {
        proof {
            reveal(sp_or);
            reveal(sp_and);
            reveal(sp_or_rest);
        }
        let checkpoint = self.checkpoint();
        let ghost at = old(self).children().len() as int;
        self.parse_and();
        let ghost target = sp_or_rest(self.toks(), self.state(), at);
        loop
            invariant_except_break
                sp_or_rest(self.toks(), self.state(), at) == target,
            invariant
                old(self).inv(),
                at == old(self).children().len(),
                self.follows(*old(self), at),
                checkpoint_at(checkpoint, *old(self)),
            ensures
                self.state() == target,
            decreases self.left(),
        {
            proof {
                reveal(sp_or_rest);
                reveal(sp_and);
            }
            self.skip_ws();
            if self.at_name("or") {
                self.start_node_at(checkpoint, SyntaxKind::ExprOr);
                self.register(SyntaxKind::NameOperatorOr);
                self.parse_and();
                self.finish_node();
            } else {
                break;
            }
        }
    }
}

} // verus!
