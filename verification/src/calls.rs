//! Calls and their arguments.

use crate::grammar::{sp_call, sp_call_arg, sp_call_args, sp_call_items, sp_expression};
use crate::green::checkpoint_index;
use crate::messages::join2;
use crate::parser::{checkpoint_within, is_expression_end, Parser};
use crate::syntax::{SyntaxKind, TokenKind};
use rowan::Checkpoint;
use vstd::prelude::*;

verus! {

impl Parser {
    /// One argument of a call. The flags say which kinds of argument stand
    /// before it.
    pub(crate) fn parse_call_arg(
        &mut self,
        seen_kwarg: bool,
        seen_dyn_args: bool,
        seen_dyn_kwargs: bool,
    )
        requires
            old(self).inv(),
            old(self).pos < old(self).tokens@.len(),
            old(self).peek() != Some(TokenKind::Whitespace),
        ensures
            final(self).follows(*old(self), old(self).children().len() as int),
            final(self).state() == sp_call_arg(
                old(self).toks(),
                old(self).state(),
                seen_kwarg,
                seen_dyn_args,
                seen_dyn_kwargs,
            ),
        decreases old(self).left(), 29nat,
    {
        proof {
            reveal(sp_call_arg);
            reveal(sp_expression);
        }
        if self.at(TokenKind::Multiply) {
            if seen_dyn_args {
                self.error_str("multiple dynamic args found");
            }
            if seen_dyn_kwargs {
                self.error_str("dynamic args found after dynamic kwargs");
            }
            self.start_node(SyntaxKind::CallDynamicArgs);
            self.bump();
            self.skip_ws();
            self.parse_expression(true);
            self.finish_node();
        } else if self.at(TokenKind::Power) {
            if seen_dyn_kwargs {
                self.error_str("multiple dynamic kwargs found");
            }
            self.start_node(SyntaxKind::CallDynamicKwargs);
            self.bump();
            self.skip_ws();
            self.parse_expression(true);
            self.finish_node();
        } else if self.at(TokenKind::Name) && matches!(
            self.next_nonws_kind(),
            Some(TokenKind::Assign)
        ) {
            if seen_dyn_kwargs {
                self.error_str("kwarg found after dynamic kwargs");
            }
            let ghost second = self.second_index();
            self.start_node(SyntaxKind::CallStaticKwarg);
            self.bump();
            self.skip_ws();
            assert(self.pos == second);
            self.bump();
            self.parse_expression(true);
            self.finish_node();
        } else {
            if seen_kwarg {
                self.error_str("arg found after kwarg");
            }
            if seen_dyn_args {
                self.error_str("arg found after dynamic args");
            }
            if seen_dyn_kwargs {
                self.error_str("arg found after dynamic kwargs");
            }
            self.start_node(SyntaxKind::CallStaticArg);
            self.parse_expression(true);
            self.finish_node();
        }
    }

    /// The arguments of a call, in parentheses: plain ones, named ones, and
    /// those that stand for many.
    pub(crate) fn parse_call_args(&mut self)
        requires
            old(self).inv(),
            old(self).peek() == Some(TokenKind::LeftParen),
        ensures
            final(self).follows(*old(self), old(self).children().len() as int),
            final(self).pos > old(self).pos,
            final(self).state() == sp_call_args(old(self).toks(), old(self).state()),
        decreases old(self).left(), 6nat,
    {
        proof {
            reveal(sp_call_args);
            reveal(sp_call_items);
        }
        self.start_node(SyntaxKind::CallArguments);
        self.bump();
        let mut seen_kwarg = false;
        let mut seen_dyn_args = false;
        let mut seen_dyn_kwargs = false;
        let ghost target = sp_call_items(self.toks(), self.state(), false, false, false);
        loop
            invariant_except_break
                sp_call_items(
                    self.toks(),
                    self.state(),
                    seen_kwarg,
                    seen_dyn_args,
                    seen_dyn_kwargs,
                ) == target,
            invariant
                old(self).inv(),
                self.opened(
                    *old(self),
                    SyntaxKind::CallArguments,
                    old(self).children().len() as int,
                ),
                self.pos > old(self).pos,
            ensures
                self.state() == target,
            decreases self.left(),
        {
            proof {
                reveal(sp_call_items);
                reveal(sp_call_arg);
            }
            self.skip_ws();
            let kind = match self.current() {
                None => {
                    break;
                },
                Some(TokenKind::RightParen) => {
                    self.bump();
                    break;
                },
                Some(kind) => kind,
            };
            if is_expression_end(kind) {
                self.error(join2("incomplete call args before context end ", kind.name()));
                break;
            }
            let is_kwarg = matches!(kind, TokenKind::Name) && matches!(
                self.next_nonws_kind(),
                Some(TokenKind::Assign)
            );
            self.parse_call_arg(seen_kwarg, seen_dyn_args, seen_dyn_kwargs);
            seen_kwarg = seen_kwarg || is_kwarg;
            seen_dyn_args = seen_dyn_args || matches!(kind, TokenKind::Multiply);
            seen_dyn_kwargs = seen_dyn_kwargs || matches!(kind, TokenKind::Power);
            match self.sync2(TokenKind::Comma, TokenKind::RightParen) {
                None => {
                    self.error_str("expected ',' or ')', not end of context");
                    break;
                },
                Some(TokenKind::Comma) => {
                    self.bump();
                },
                Some(_) => {
                    self.bump();
                    break;
                },
            }
        }
        self.finish_node();
    }

    /// A call: what stands from the checkpoint on, with its arguments.
    pub(crate) fn parse_call(&mut self, checkpoint: Checkpoint)
        requires
            old(self).inv(),
            checkpoint_within(checkpoint, *old(self)),
            old(self).peek() == Some(TokenKind::LeftParen),
        ensures
            final(self).follows(*old(self), checkpoint_index(checkpoint)),
            final(self).pos > old(self).pos,
            final(self).state() == sp_call(
                old(self).toks(),
                old(self).state(),
                checkpoint_index(checkpoint),
            ),
        decreases old(self).left(), 7nat,
    {
        proof {
            reveal(sp_call);
            reveal(sp_call_args);
        }
        self.start_node_at(checkpoint, SyntaxKind::ExprCall);
        self.parse_call_args();
        self.finish_node();
    }
}

} // verus!
