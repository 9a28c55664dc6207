//! The opening tags of loops, conditions and assignments.

use crate::expressions::TupleParseMode;
use crate::messages::{debug_string, join3};
use crate::parser::{is_expression_end, Parser};
use crate::statement_grammar::{set_opens_block, sp_elif, sp_for, sp_if, sp_set};
use crate::statements::{AssignTargetNameMode, AssignTargetTuple};
use crate::syntax::{SyntaxKind, TokenKind};
use vstd::prelude::*;
use vstd::string::StringExecFns;

verus! {

impl Parser {
    /// The opening tag of a loop: the target, `in`, what is walked through,
    /// a test, and `recursive`.
    pub(crate) fn parse_for(&mut self)
        requires
            old(self).inv(),
            old(self).at_tag(),
        ensures
            final(self).opened_two(*old(self), SyntaxKind::StmtFor, SyntaxKind::ForStart),
            final(self).state() == sp_for(old(self).toks(), old(self).state()),
    {
        proof {
            reveal(sp_for);
        }
        self.start_node(SyntaxKind::StmtFor);
        self.start_node(SyntaxKind::ForStart);
        self.bump_tag();
        self.parse_assign_target(
            AssignTargetNameMode::NotNameOnly(false, AssignTargetTuple::WithTuple(Some("in"))),
        );
        self.skip_ws();
        if self.pos >= self.tokens.len() {
            self.error_str("expected \"in\" for for-loop, but found EOF");
            return;
        }
        let kind = self.tokens[self.pos].kind;
        if is_expression_end(kind) {
            self.error_str("expected \"in\" for for-loop, but found end of context");
            return;
        }
        if self.at_name("in") {
            self.bump();
        } else if matches!(kind, TokenKind::Name) {
            let text = debug_string(self.tokens[self.pos].text.as_str());
            self.error(
                join3("expected \"in\" for for-loop, but found unexpected \"", text.as_str(), "\""),
            );
            return;
        } else {
            self.error(
                join3(
                    "expected name \"in\" for for-loop, but found unexpected \"",
                    kind.name(),
                    "\"",
                ),
            );
            return;
        }
        self.skip_ws();
        self.parse_tuple(TupleParseMode::NoCondExpr, Some("recursive"), false);
        self.skip_ws();
        if self.at_name("if") {
            self.bump();
            self.parse_expression(true);
        }
        self.skip_ws();
        if self.at_name("recursive") {
            self.bump();
        }
    }

    /// The opening tag of a condition.
    pub(crate) fn parse_if(&mut self)
        requires
            old(self).inv(),
            old(self).at_tag(),
        ensures
            final(self).opened_two(*old(self), SyntaxKind::StmtIf, SyntaxKind::IfStart),
            final(self).state() == sp_if(old(self).toks(), old(self).state()),
    {
        proof {
            reveal(sp_if);
        }
        self.start_node(SyntaxKind::StmtIf);
        self.start_node(SyntaxKind::IfStart);
        self.bump_tag();
        self.parse_tuple(TupleParseMode::NoCondExpr, None, false);
    }

    /// The tag of another branch of a condition.
    pub(crate) fn parse_elif(&mut self)
        requires
            old(self).inv(),
            old(self).at_tag(),
        ensures
            final(self).opened_one(*old(self), SyntaxKind::IfElif),
            final(self).state() == sp_elif(old(self).toks(), old(self).state()),
    {
        proof {
            reveal(sp_elif);
        }
        self.start_node(SyntaxKind::IfElif);
        self.bump_tag();
        self.parse_tuple(TupleParseMode::NoCondExpr, None, false);
    }

    /// An assignment. With `=` after the target it is complete in its tag;
    /// without, the tag opens a block, and `true` is returned.
    pub(crate) fn parse_set(&mut self) -> (block: bool)
        requires
            old(self).inv(),
            old(self).at_tag(),
        ensures
            block ==> final(self).opened_two(
                *old(self),
                SyntaxKind::StmtAssignBlock,
                SyntaxKind::AssignBlockStart,
            ),
            !block ==> final(self).opened_one(*old(self), SyntaxKind::StmtAssign),
            final(self).state() == sp_set(old(self).toks(), old(self).state()),
            block == set_opens_block(old(self).toks(), old(self).state()),
    {
        proof {
            reveal(sp_set);
        }
        let block_checkpoint = self.checkpoint();
        let start_checkpoint = self.checkpoint();
        self.bump_tag();
        self.skip_ws();
        self.parse_assign_target(
            AssignTargetNameMode::NotNameOnly(true, AssignTargetTuple::WithTuple(None)),
        );
        self.skip_ws();
        if self.at(TokenKind::Assign) {
            self.start_node_at(block_checkpoint, SyntaxKind::StmtAssign);
            self.bump();
            self.parse_tuple(TupleParseMode::WithCondExpr, None, false);
            return false;
        }
        self.start_node_at(block_checkpoint, SyntaxKind::StmtAssignBlock);
        self.start_node_at(start_checkpoint, SyntaxKind::AssignBlockStart);
        self.parse_filter(None, false);
        true
    }
}

} // verus!
