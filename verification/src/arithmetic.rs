//! Products, concatenations and sums.

use crate::grammar::{
    close_if, sp_concat, sp_concat_rest, sp_math1, sp_math1_rest, sp_math2, sp_math2_rest, sp_pow,
};
use crate::parser::{checkpoint_at, Parser};
use crate::syntax::{SyntaxKind, TokenKind};
use vstd::prelude::*;

verus! {

impl Parser {
    /// Products, quotients and remainders, from left to right.
    pub(crate) fn parse_math2(&mut self)
        requires
            old(self).inv(),
        ensures
            final(self).follows(*old(self), old(self).children().len() as int),
            final(self).state() == sp_math2(old(self).toks(), old(self).state()),
        decreases old(self).left(), 13nat,
    {
        proof {
            reveal(sp_math2);
            reveal(sp_math2_rest);
            reveal(sp_pow);
        }
        let checkpoint = self.checkpoint();
        let ghost at = old(self).children().len() as int;
        self.skip_ws();
        self.parse_pow();
        let ghost target = sp_math2_rest(self.toks(), self.state(), at);
        loop
            invariant_except_break
                sp_math2_rest(self.toks(), self.state(), at) == target,
            invariant
                old(self).inv(),
                at == old(self).children().len(),
                self.follows(*old(self), at),
                checkpoint_at(checkpoint, *old(self)),
            ensures
                self.state() == target,
            decreases self.left(),
        {
            proof {
                reveal(sp_math2_rest);
                reveal(sp_pow);
            }
            self.skip_ws();
            let kind = match self.current() {
                Some(TokenKind::Multiply) => SyntaxKind::ExprMultiply,
                Some(TokenKind::Div) => SyntaxKind::ExprDivide,
                Some(TokenKind::FloorDiv) => SyntaxKind::ExprFloorDivide,
                Some(TokenKind::Modulo) => SyntaxKind::ExprModulo,
                _ => {
                    break;
                },
            };
            self.start_node_at(checkpoint, kind);
            self.bump();
            self.parse_pow();
            self.finish_node();
        }
    }

    /// Strings put together with `~`.
    pub(crate) fn parse_concat(&mut self)
        requires
            old(self).inv(),
        ensures
            final(self).follows(*old(self), old(self).children().len() as int),
            final(self).state() == sp_concat(old(self).toks(), old(self).state()),
        decreases old(self).left(), 14nat,
    {
        proof {
            reveal(sp_concat);
            reveal(sp_concat_rest);
            reveal(sp_math2);
        }
        let checkpoint = self.checkpoint();
        let ghost at = old(self).children().len() as int;
        let mut is_concat = false;
        self.skip_ws();
        self.parse_math2();
        let ghost target = sp_concat_rest(self.toks(), self.state(), at, false);
        loop
            invariant_except_break
                sp_concat_rest(self.toks(), self.state(), at, is_concat) == target,
            invariant
                old(self).inv(),
                at == old(self).children().len(),
                self.keeps(*old(self), at),
                self.tag_stack@ == old(self).tag_stack@,
                checkpoint_at(checkpoint, *old(self)),
                if is_concat {
                    self.parents() == old(self).parents().push(
                        (SyntaxKind::ExprConcat.raw_spec(), at),
                    )
                } else {
                    self.parents() == old(self).parents()
                },
            ensures
                close_if(is_concat, self.state()) == target,
            decreases self.left(),
        {
            proof {
                reveal(sp_concat_rest);
                reveal(sp_math2);
            }
            self.skip_ws();
            if self.at(TokenKind::Tilde) {
                if !is_concat {
                    is_concat = true;
                    self.start_node_at(checkpoint, SyntaxKind::ExprConcat);
                }
                self.bump();
                self.parse_math2();
            } else {
                break;
            }
        }
        if is_concat {
            self.finish_node();
        }
    }

    /// Sums and differences, from left to right.
    pub(crate) fn parse_math1(&mut self)
        requires
            old(self).inv(),
        ensures
            final(self).follows(*old(self), old(self).children().len() as int),
            final(self).state() == sp_math1(old(self).toks(), old(self).state()),
        decreases old(self).left(), 15nat,
    {
        proof {
            reveal(sp_math1);
            reveal(sp_concat);
            reveal(sp_math1_rest);
        }
        let checkpoint = self.checkpoint();
        let ghost at = old(self).children().len() as int;
        self.skip_ws();
        self.parse_concat();
        let ghost target = sp_math1_rest(self.toks(), self.state(), at);
        loop
            invariant_except_break
                sp_math1_rest(self.toks(), self.state(), at) == target,
            invariant
                old(self).inv(),
                at == old(self).children().len(),
                self.follows(*old(self), at),
                checkpoint_at(checkpoint, *old(self)),
            ensures
                self.state() == target,
            decreases self.left(),
        {
            proof {
                reveal(sp_math1_rest);
                reveal(sp_concat);
            }
            self.skip_ws();
            let kind = match self.current() {
                Some(TokenKind::Add) => SyntaxKind::ExprAdd,
                Some(TokenKind::Subtract) => SyntaxKind::ExprSubtract,
                _ => {
                    break;
                },
            };
            self.start_node_at(checkpoint, kind);
            self.bump();
            self.parse_concat();
            self.finish_node();
        }
    }
}

} // verus!
