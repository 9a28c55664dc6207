//! Subscripts and slices in square brackets.

use crate::grammar::{
    sp_bracket, sp_expression, sp_slice_rest, sp_subscribed, sp_subscripts, subscript_close,
};
use crate::green::checkpoint_index;
use crate::parser::{checkpoint_within, Parser};
use crate::syntax::{SyntaxKind, TokenKind};
use rowan::Checkpoint;
use vstd::prelude::*;

verus! {

impl Parser {
    /// The parts of a slice after its first colon, and its end.
    fn parse_slice_rest(&mut self)
        requires
            old(self).inv(),
            old(self).parents().len() > 0,
        ensures
            final(self).keeps(*old(self), old(self).floor()),
            final(self).tag_stack@ == old(self).tag_stack@,
            final(self).parents() == old(self).parents().drop_last(),
            forall|outer: Seq<(u16, int)>, inner: (u16, int)|
                old(self).parents() == #[trigger] outer.push(inner) ==> final(self).parents()
                    == outer,
            final(self).state() == sp_slice_rest(old(self).toks(), old(self).state()),
        decreases old(self).left(), 22nat,
    {
        proof {
            reveal(sp_slice_rest);
            reveal(sp_expression);
        }
        self.skip_ws();
        match self.current() {
            Some(kind) => {
                if !matches!(
                    kind,
                    TokenKind::RightBracket | TokenKind::Comma | TokenKind::Colon
                ) {
                    self.parse_expression(true);
                }
            },
            None => {},
        }
        self.skip_ws();
        if self.at(TokenKind::Colon) {
            self.bump();
            self.skip_ws();
            match self.current() {
                Some(kind) => {
                    if !matches!(kind, TokenKind::RightBracket | TokenKind::Comma) {
                        self.parse_expression(true);
                    }
                },
                None => {},
            }
        }
        self.finish_node();
    }

    /// One subscript between square brackets: an expression or a slice.
    pub(crate) fn parse_subscribed(&mut self)
        requires
            old(self).inv(),
        ensures
            final(self).follows(*old(self), old(self).children().len() as int),
            final(self).state() == sp_subscribed(old(self).toks(), old(self).state()),
        decreases old(self).left(), 23nat,
    {
        proof {
            reveal(sp_subscribed);
            reveal(sp_expression);
            reveal(sp_slice_rest);
        }
        let slice_checkpoint = self.checkpoint();
        self.skip_ws();
        if self.at(TokenKind::Colon) {
            self.start_node_at(slice_checkpoint, SyntaxKind::ExprSlice);
            self.bump();
        } else {
            self.parse_expression(true);
            self.skip_ws();
            if self.at(TokenKind::Colon) {
                self.start_node_at(slice_checkpoint, SyntaxKind::ExprSlice);
            } else {
                return;
            }
        }
        self.parse_slice_rest();
    }

    /// A subscript in square brackets, after what stands from the
    /// checkpoint on.
    pub(crate) fn parse_bracket(&mut self, checkpoint: Checkpoint)
        requires
            old(self).inv(),
            checkpoint_within(checkpoint, *old(self)),
            old(self).peek() == Some(TokenKind::LeftBracket),
        ensures
            final(self).follows(*old(self), checkpoint_index(checkpoint)),
            final(self).pos > old(self).pos,
            final(self).state() == sp_bracket(
                old(self).toks(),
                old(self).state(),
                checkpoint_index(checkpoint),
            ),
        decreases old(self).left(), 7nat,
    {
        proof {
            reveal(sp_bracket);
            reveal(sp_subscribed);
            reveal(sp_subscripts);
        }
        let ghost at = checkpoint_index(checkpoint);
        self.bump();
        self.skip_ws();
        self.start_node(SyntaxKind::Subscript);
        let ghost inner = *self;
        let ghost tuple_at = inner.children().len() as int;
        let mut ended_correctly = false;
        let tuple_checkpoint = self.checkpoint();
        let mut is_tuple = false;
        self.parse_subscribed();
        let ghost target = sp_subscripts(self.toks(), self.state(), at, tuple_at, false);
        loop
            invariant_except_break
                sp_subscripts(self.toks(), self.state(), at, tuple_at, is_tuple) == target,
                !ended_correctly,
            invariant
                old(self).inv(),
                at == checkpoint_index(checkpoint),
                inner.inv(),
                inner.tokens == old(self).tokens,
                inner.pos > old(self).pos,
                inner.parents().len() > 0,
                inner.floor() == tuple_at,
                tuple_at == inner.children().len(),
                self.keeps(inner, tuple_at),
                self.tag_stack@ == inner.tag_stack@,
                checkpoint_index(tuple_checkpoint) == tuple_at,
                if is_tuple {
                    self.parents() == inner.parents().push(
                        (SyntaxKind::ExprTuple.raw_spec(), tuple_at),
                    )
                } else {
                    self.parents() == inner.parents()
                },
                ended_correctly ==> self.pos < self.tokens@.len(),
            ensures
                subscript_close(self.toks(), self.state(), at, is_tuple, ended_correctly)
                    == target,
            decreases self.left(),
        {
            proof {
                reveal(sp_subscripts);
                reveal(sp_subscribed);
            }
            self.skip_ws();
            match self.sync2(TokenKind::RightBracket, TokenKind::Comma) {
                None => {
                    self.error_str("expected ']' for subscript, but found end of context");
                    break;
                },
                Some(TokenKind::Comma) => {
                    self.bump();
                    if !is_tuple {
                        self.start_node_at(tuple_checkpoint, SyntaxKind::ExprTuple);
                        is_tuple = true;
                    }
                    self.parse_subscribed();
                },
                Some(_) => {
                    ended_correctly = true;
                    break;
                },
            }
        }
        if is_tuple {
            self.finish_node();
        }
        self.finish_node();
        if ended_correctly {
            self.bump();
        }
        self.start_node_at(checkpoint, SyntaxKind::ExprGetItem);
        self.finish_node();
    }
}

} // verus!
