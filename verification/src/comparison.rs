//! Compare chains and negations.

use crate::grammar::{close_if, sp_compare, sp_compare_rest, sp_math1, sp_not};
use crate::parser::{checkpoint_at, Parser};
use crate::syntax::SyntaxKind;
use vstd::prelude::*;

verus! {

impl Parser {
    /// A chain of comparisons: one node, with an operand for each
    /// right-hand side.
    pub(crate) fn parse_compare(&mut self)
        requires
            old(self).inv(),
        ensures
            final(self).follows(*old(self), old(self).children().len() as int),
            final(self).state() == sp_compare(old(self).toks(), old(self).state()),
        decreases old(self).left(), 16nat,
    {
        proof {
            reveal(sp_compare);
            reveal(sp_compare_rest);
            reveal(sp_math1);
        }
        let checkpoint = self.checkpoint();
        let ghost at = old(self).children().len() as int;
        let mut is_compare = false;
        self.skip_ws();
        self.parse_math1();
        let ghost target = sp_compare_rest(self.toks(), self.state(), at, false);
        loop
            invariant_except_break
                sp_compare_rest(self.toks(), self.state(), at, is_compare) == target,
            invariant
                old(self).inv(),
                at == old(self).children().len(),
                self.keeps(*old(self), at),
                self.tag_stack@ == old(self).tag_stack@,
                checkpoint_at(checkpoint, *old(self)),
                if is_compare {
                    self.parents() == old(self).parents().push(
                        (SyntaxKind::ExprCompare.raw_spec(), at),
                    )
                } else {
                    self.parents() == old(self).parents()
                },
            ensures
                close_if(is_compare, self.state()) == target,
            decreases self.left(),
        {
            proof {
                reveal(sp_compare_rest);
                reveal(sp_math1);
            }
            self.skip_ws();
            let operator = match self.current() {
                Some(kind) => kind.is_compare_operator(),
                None => false,
            };
            let is_in = self.at_name("in");
            let is_not_in = self.at_name("not") && match self.next_nonws_tok() {
                Some(token) => token.is_name("in"),
                None => false,
            };
            if !(operator || is_in || is_not_in) {
                break;
            }
            let ghost second = self.second_index();
            if !is_compare {
                is_compare = true;
                self.start_node_at(checkpoint, SyntaxKind::ExprCompare);
            }
            self.start_node(SyntaxKind::Operand);
            if operator {
                self.bump();
                self.skip_ws();
            } else if is_in {
                self.register(SyntaxKind::NameOperatorIn);
                self.skip_ws();
            } else {
                self.start_node(SyntaxKind::NameOperatorNotIn);
                self.bump();
                self.skip_ws();
                assert(self.pos == second);
                self.bump();
                self.finish_node();
            }
            self.parse_math1();
            self.finish_node();
        }
        if is_compare {
            self.finish_node();
        }
    }

    /// Negations. A negation binds to the right.
    pub(crate) fn parse_not(&mut self)
        requires
            old(self).inv(),
        ensures
            final(self).follows(*old(self), old(self).children().len() as int),
            final(self).state() == sp_not(old(self).toks(), old(self).state()),
        decreases old(self).left(), 17nat,
    {
        proof {
            reveal(sp_not);
            reveal(sp_compare);
        }
        let checkpoint = self.checkpoint();
        self.skip_ws();
        if self.at_name("not") {
            self.start_node_at(checkpoint, SyntaxKind::ExprNot);
            self.register(SyntaxKind::NameOperatorNot);
            self.parse_not();
            self.finish_node();
        } else {
            self.parse_compare();
        }
    }
}

} // verus!
