//! The opening tag of a materialization.

use crate::messages::{join2, optional_kind};
use crate::parser::{is_expression_end, Parser};
use crate::statement_grammar::{sp_materialization, sp_materialization_items};
use crate::statements::{token_debug, AssignTargetNameMode};
use crate::syntax::{SyntaxKind, TokenKind};
use vstd::prelude::*;
use vstd::string::StringExecFns;

verus! {

impl Parser {
    /// The opening tag of a materialization: its name, then `default` or an
    /// adapter, after a comma each.
    pub(crate) fn parse_dbt_materialization(&mut self)
        requires
            old(self).inv(),
            old(self).at_tag(),
        ensures
            final(self).opened_two(
                *old(self),
                SyntaxKind::StmtMaterialization,
                SyntaxKind::MaterializationBlockStart,
            ),
            final(self).state() == sp_materialization(old(self).toks(), old(self).state()),
    {
        proof {
            reveal(sp_materialization);
        }
        self.start_node(SyntaxKind::StmtMaterialization);
        self.start_node(SyntaxKind::MaterializationBlockStart);
        self.bump_tag();
        self.skip_ws();
        self.parse_assign_target(AssignTargetNameMode::NameOnly);
        let ghost target = sp_materialization_items(self.toks(), self.state());
        loop
            invariant_except_break
                sp_materialization_items(self.toks(), self.state()) == target,
            invariant
                old(self).inv(),
                self.opened_two(
                    *old(self),
                    SyntaxKind::StmtMaterialization,
                    SyntaxKind::MaterializationBlockStart,
                ),
            ensures
                self.state() == target,
            decreases self.left(),
        {
            proof {
                reveal(sp_materialization_items);
            }
            self.skip_ws();
            if !self.at(TokenKind::Comma) {
                break;
            }
            self.bump();
            self.skip_ws();
            if self.pos >= self.tokens.len() {
                self.error_str(
                    "expected adapter specification for custom materialization but found EOF",
                );
                break;
            }
            if is_expression_end(self.tokens[self.pos].kind) {
                self.error_str(
                    "expected adapter specification for custom materialization but found end of context",
                );
                break;
            }
            if self.at_name("default") {
                self.start_node(SyntaxKind::MaterializationDefault);
                self.bump();
                self.finish_node();
            } else if self.at_name("adapter") {
                self.start_node(SyntaxKind::MaterializationAdapter);
                self.bump();
                self.skip_ws();
                match self.sync1(TokenKind::Assign) {
                    None => {
                        self.error_str(
                            "expected '= <adapter>' after adapter specification in custom materialization, but found end of context",
                        );
                        self.finish_node();
                        break;
                    },
                    Some(_) => {
                        self.bump();
                        self.skip_ws();
                        if self.at(TokenKind::StringLiteral) {
                            self.parse_string_literal();
                        } else {
                            let found = optional_kind(self.current());
                            self.error(
                                join2(
                                    "expected string literal specifying adapter, but found ",
                                    found.as_str(),
                                ),
                            );
                            self.finish_node();
                            break;
                        }
                    },
                }
                self.finish_node();
            } else {
                let found = token_debug(&self.tokens[self.pos]);
                self.error(
                    join2(
                        "expected either \"default\" or \"adapter=<adapter>\" for custom materialization but found ",
                        found.as_str(),
                    ),
                );
                break;
            }
        }
    }
}

} // verus!
