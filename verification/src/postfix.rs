//! What may follow a primary: attributes, subscripts and calls.

use crate::grammar::{sp_bracket, sp_call, sp_postfix};
use crate::green::checkpoint_index;
use crate::messages::{join2, optional_kind};
use crate::parser::{checkpoint_within, Parser};
use crate::syntax::{SyntaxKind, TokenKind};
use rowan::Checkpoint;
use vstd::prelude::*;

verus! {

impl Parser {
    /// What may follow a primary: attributes, subscripts and calls.
    pub(crate) fn parse_postfix(&mut self, checkpoint: Checkpoint)
        requires
            old(self).inv(),
            checkpoint_within(checkpoint, *old(self)),
        ensures
            final(self).follows(*old(self), checkpoint_index(checkpoint)),
            final(self).state() == sp_postfix(
                old(self).toks(),
                old(self).state(),
                checkpoint_index(checkpoint),
            ),
        decreases old(self).left(), 8nat,
    {
        let ghost at = checkpoint_index(checkpoint);
        let ghost target = sp_postfix(self.toks(), self.state(), at);
        loop
            invariant_except_break
                sp_postfix(self.toks(), self.state(), at) == target,
            invariant
                old(self).inv(),
                at == checkpoint_index(checkpoint),
                self.follows(*old(self), at),
                checkpoint_within(checkpoint, *old(self)),
            ensures
                self.state() == target,
            decreases self.left(),
        {
            proof {
                reveal(sp_postfix);
                reveal(sp_bracket);
                reveal(sp_call);
            }
            self.skip_ws();
            match self.current() {
                Some(TokenKind::Dot) => {
                    self.bump();
                    self.skip_ws();
                    match self.current() {
                        Some(TokenKind::Name) => {
                            self.start_node_at(checkpoint, SyntaxKind::ExprGetAttr);
                            self.register(SyntaxKind::Subscript);
                            self.finish_node();
                        },
                        Some(TokenKind::IntegerLiteral) => {
                            self.start_node_at(checkpoint, SyntaxKind::ExprGetItem);
                            self.register(SyntaxKind::Subscript);
                            self.finish_node();
                        },
                        kind => {
                            let found = optional_kind(kind);
                            self.error(
                                join2("expected name or integer as subscript, not ", found.as_str()),
                            );
                        },
                    }
                },
                Some(TokenKind::LeftBracket) => {
                    self.parse_bracket(checkpoint);
                },
                Some(TokenKind::LeftParen) => {
                    self.parse_call(checkpoint);
                },
                _ => {
                    break;
                },
            }
        }
    }
}

} // verus!
