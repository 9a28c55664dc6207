//! Signatures, and the opening tags that hold a name, a signature or a call.

use crate::expressions::TupleParseMode;
use crate::parser::{is_expression_end, Parser};
use crate::statement_grammar::{
    sp_call_block, sp_do, sp_filter_block, sp_named, sp_named_signature, sp_signature,
    sp_signature_after_name, sp_signature_items,
};
use crate::statements::AssignTargetNameMode;
use crate::syntax::{SyntaxKind, TokenKind};
use vstd::prelude::*;
use vstd::string::StringExecFns;

verus! {

impl Parser {
    /// The parameters of a macro or of a call block, in parentheses.
    pub(crate) fn parse_signature(&mut self)
        requires
            old(self).inv(),
            old(self).peek() == Some(TokenKind::LeftParen),
        ensures
            final(self).follows(*old(self), old(self).children().len() as int),
            final(self).pos > old(self).pos,
            final(self).state() == sp_signature(old(self).toks(), old(self).state()),
    {
        proof {
            reveal(sp_signature);
        }
        self.start_node(SyntaxKind::Signature);
        self.bump();
        let mut seen_kwarg = false;
        let ghost target = sp_signature_items(self.toks(), self.state(), false);
        loop
            invariant_except_break
                sp_signature_items(self.toks(), self.state(), seen_kwarg) == target,
            invariant
                old(self).inv(),
                self.opened(*old(self), SyntaxKind::Signature, old(self).children().len() as int),
                self.pos > old(self).pos,
            ensures
                self.state() == target,
            decreases self.left(),
        {
            proof {
                reveal(sp_signature_items);
            }
            match self.current() {
                None => {
                    self.error_str("found EOF while parsing signature");
                    break;
                },
                Some(TokenKind::RightParen) => {
                    self.bump();
                    break;
                },
                Some(kind) => {
                    if is_expression_end(kind) {
                        self.error_str("found end of context while parsing signature");
                        break;
                    }
                    let checkpoint = self.checkpoint();
                    self.parse_assign_target(AssignTargetNameMode::NameOnly);
                    self.skip_ws();
                    if self.at(TokenKind::Assign) {
                        seen_kwarg = true;
                        self.start_node_at(checkpoint, SyntaxKind::SignatureDefaultArg);
                        self.bump();
                        self.parse_expression(true);
                        self.finish_node();
                    } else {
                        if seen_kwarg {
                            self.error_str("non-default argument following a default argument");
                        }
                        self.start_node_at(checkpoint, SyntaxKind::SignatureArg);
                        self.finish_node();
                    }
                },
            }
            match self.sync2(TokenKind::Comma, TokenKind::RightParen) {
                None => {
                    self.error_str("expected ',' or ')', not end of context");
                    break;
                },
                Some(TokenKind::Comma) => {
                    self.bump();
                },
                Some(_) => {
                    self.bump();
                    break;
                },
            }
        }
        self.finish_node();
    }

    /// The opening tag of a call block: a signature, where there is one, and
    /// the call.
    pub(crate) fn parse_call_block(&mut self)
        requires
            old(self).inv(),
            old(self).at_tag(),
        ensures
            final(self).opened_two(
                *old(self),
                SyntaxKind::StmtCallBlock,
                SyntaxKind::CallBlockStart,
            ),
            final(self).state() == sp_call_block(old(self).toks(), old(self).state()),
    {
        proof {
            reveal(sp_call_block);
        }
        self.start_node(SyntaxKind::StmtCallBlock);
        self.start_node(SyntaxKind::CallBlockStart);
        self.bump_tag();
        self.skip_ws();
        if self.at(TokenKind::LeftParen) {
            self.parse_signature();
        }
        self.parse_expression(true);
    }

    /// The opening tag of a filter block: the filters.
    pub(crate) fn parse_filter_block(&mut self)
        requires
            old(self).inv(),
            old(self).at_tag(),
        ensures
            final(self).opened_two(
                *old(self),
                SyntaxKind::StmtFilterBlock,
                SyntaxKind::FilterBlockStart,
            ),
            final(self).state() == sp_filter_block(old(self).toks(), old(self).state()),
    {
        proof {
            reveal(sp_filter_block);
        }
        self.start_node(SyntaxKind::StmtFilterBlock);
        self.start_node(SyntaxKind::FilterBlockStart);
        self.bump_tag();
        self.parse_filter(None, true);
    }

    /// A `do` statement: an expression that is evaluated for what it does.
    pub(crate) fn parse_do(&mut self)
        requires
            old(self).inv(),
            old(self).at_tag(),
        ensures
            final(self).opened_one(*old(self), SyntaxKind::StmtDo),
            final(self).state() == sp_do(old(self).toks(), old(self).state()),
    {
        proof {
            reveal(sp_do);
        }
        self.start_node(SyntaxKind::StmtDo);
        self.bump_tag();
        self.skip_ws();
        self.parse_tuple(TupleParseMode::WithCondExpr, None, false);
    }

    /// After the name of a macro or of a test: its signature.
    fn parse_signature_after_name(&mut self)
        requires
            old(self).inv(),
        ensures
            final(self).follows(*old(self), old(self).children().len() as int),
            final(self).state() == sp_signature_after_name(old(self).toks(), old(self).state()),
    {
        proof {
            reveal(sp_signature_after_name);
        }
        self.skip_ws();
        self.parse_assign_target(AssignTargetNameMode::NameOnly);
        self.skip_ws();
        match self.sync1(TokenKind::LeftParen) {
            None => {
                self.error_str(
                    "expected function signature after macro name but found end of context",
                );
            },
            Some(_) => {
                self.parse_signature();
            },
        }
    }

    /// The opening tag of a macro: its name and its signature.
    pub(crate) fn parse_macro(&mut self)
        requires
            old(self).inv(),
            old(self).at_tag(),
        ensures
            final(self).opened_two(*old(self), SyntaxKind::StmtMacro, SyntaxKind::MacroBlockStart),
            final(self).state() == sp_named_signature(
                old(self).toks(),
                old(self).state(),
                SyntaxKind::StmtMacro,
                SyntaxKind::MacroBlockStart,
            ),
    {
        self.start_node(SyntaxKind::StmtMacro);
        self.start_node(SyntaxKind::MacroBlockStart);
        self.bump_tag();
        self.parse_signature_after_name();
    }

    /// The opening tag of a generic test: its name and its signature.
    pub(crate) fn parse_dbt_test(&mut self)
        requires
            old(self).inv(),
            old(self).at_tag(),
        ensures
            final(self).opened_two(*old(self), SyntaxKind::StmtTest, SyntaxKind::TestBlockStart),
            final(self).state() == sp_named_signature(
                old(self).toks(),
                old(self).state(),
                SyntaxKind::StmtTest,
                SyntaxKind::TestBlockStart,
            ),
    {
        self.start_node(SyntaxKind::StmtTest);
        self.start_node(SyntaxKind::TestBlockStart);
        self.bump_tag();
        self.parse_signature_after_name();
    }

    /// The opening tag of a docs block: its name.
    pub(crate) fn parse_dbt_docs(&mut self)
        requires
            old(self).inv(),
            old(self).at_tag(),
        ensures
            final(self).opened_two(*old(self), SyntaxKind::StmtDocs, SyntaxKind::DocsBlockStart),
            final(self).state() == sp_named(
                old(self).toks(),
                old(self).state(),
                SyntaxKind::StmtDocs,
                SyntaxKind::DocsBlockStart,
            ),
    {
        self.start_node(SyntaxKind::StmtDocs);
        self.start_node(SyntaxKind::DocsBlockStart);
        self.bump_tag();
        self.skip_ws();
        self.parse_assign_target(AssignTargetNameMode::NameOnly);
    }

    /// The opening tag of a snapshot: its name.
    pub(crate) fn parse_dbt_snapshot(&mut self)
        requires
            old(self).inv(),
            old(self).at_tag(),
        ensures
            final(self).opened_two(
                *old(self),
                SyntaxKind::StmtSnapshot,
                SyntaxKind::SnapshotBlockStart,
            ),
            final(self).state() == sp_named(
                old(self).toks(),
                old(self).state(),
                SyntaxKind::StmtSnapshot,
                SyntaxKind::SnapshotBlockStart,
            ),
    {
        self.start_node(SyntaxKind::StmtSnapshot);
        self.start_node(SyntaxKind::SnapshotBlockStart);
        self.bump_tag();
        self.skip_ws();
        self.parse_assign_target(AssignTargetNameMode::NameOnly);
    }
}

} // verus!
