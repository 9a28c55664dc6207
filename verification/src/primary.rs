//! Names, literals and what stands in brackets.

use crate::expressions::TupleParseMode;
use crate::grammar::{
    close_if, primary_name_kind, sp_dict, sp_list, sp_nested_name, sp_nested_parts, sp_primary,
    sp_string_literal, sp_strings, sp_tuple,
};
use crate::messages::{join2, optional_kind};
use crate::parser::{checkpoint_at, Parser};
use crate::syntax::{SyntaxKind, TokenKind};
use vstd::prelude::*;

verus! {

impl Parser {
    /// One string constant: the string literals that follow one another.
    pub(crate) fn parse_string_literal(&mut self)
        requires
            old(self).inv(),
            old(self).peek() == Some(TokenKind::StringLiteral),
        ensures
            final(self).follows(*old(self), old(self).children().len() as int),
            final(self).pos > old(self).pos,
            final(self).state() == sp_string_literal(old(self).toks(), old(self).state()),
    {
        proof {
            reveal(sp_string_literal);
            reveal(sp_strings);
        }
        self.start_node(SyntaxKind::ExprConstantString);
        self.bump();
        let ghost target = sp_strings(self.toks(), self.state());
        loop
            invariant_except_break
                sp_strings(self.toks(), self.state()) == target,
            invariant
                old(self).inv(),
                self.opened(
                    *old(self),
                    SyntaxKind::ExprConstantString,
                    old(self).children().len() as int,
                ),
                self.pos > old(self).pos,
            ensures
                self.state() == target,
            decreases self.left(),
        {
            proof {
                reveal(sp_strings);
            }
            self.skip_ws();
            if self.at(TokenKind::StringLiteral) {
                self.bump();
            } else {
                break;
            }
        }
        self.finish_node();
    }

    /// A name with dots in it.
    pub(crate) fn parse_nested_name(&mut self)
        requires
            old(self).inv(),
        ensures
            final(self).follows(*old(self), old(self).children().len() as int),
            final(self).state() == sp_nested_name(old(self).toks(), old(self).state()),
    {
        proof {
            reveal(sp_nested_name);
            reveal(sp_nested_parts);
        }
        let checkpoint = self.checkpoint();
        let ghost at = old(self).children().len() as int;
        let mut is_nested = false;
        self.skip_ws();
        if self.at(TokenKind::Name) {
            self.bump();
        } else {
            let found = optional_kind(self.current());
            self.error(join2("expected name, not ", found.as_str()));
            return;
        }
        let ghost target = sp_nested_parts(self.toks(), self.state(), at, false);
        loop
            invariant_except_break
                sp_nested_parts(self.toks(), self.state(), at, is_nested) == target,
            invariant
                old(self).inv(),
                at == old(self).children().len(),
                self.keeps(*old(self), at),
                self.tag_stack@ == old(self).tag_stack@,
                checkpoint_at(checkpoint, *old(self)),
                if is_nested {
                    self.parents() == old(self).parents().push(
                        (SyntaxKind::ExprNestedName.raw_spec(), at),
                    )
                } else {
                    self.parents() == old(self).parents()
                },
            ensures
                close_if(is_nested, self.state()) == target,
            decreases self.left(),
        {
            proof {
                reveal(sp_nested_parts);
            }
            self.skip_ws();
            if self.at(TokenKind::Dot) {
                if !is_nested {
                    self.start_node_at(checkpoint, SyntaxKind::ExprNestedName);
                    is_nested = true;
                }
                self.bump();
                self.skip_ws();
                if self.at(TokenKind::Name) {
                    self.bump();
                } else {
                    let found = optional_kind(self.current());
                    self.error(join2("expected name, not ", found.as_str()));
                    break;
                }
            } else {
                break;
            }
        }
        if is_nested {
            self.finish_node();
        }
    }

    /// A name, a literal, or an expression in brackets.
    pub(crate) fn parse_primary(&mut self)
        requires
            old(self).inv(),
        ensures
            final(self).follows(*old(self), old(self).children().len() as int),
            final(self).state() == sp_primary(old(self).toks(), old(self).state()),
        decreases old(self).left(), 5nat,
    {
        proof {
            reveal(sp_primary);
            reveal(sp_dict);
            reveal(sp_list);
            reveal(sp_string_literal);
            reveal(sp_tuple);
        }
        self.skip_ws();
        match self.current() {
            Some(TokenKind::Name) => {
                let kind = if self.at_name("true") || self.at_name("false") || self.at_name("True")
                    || self.at_name("False") {
                    SyntaxKind::ExprConstantBool
                } else if self.at_name("none") || self.at_name("None") {
                    SyntaxKind::ExprConstantNone
                } else {
                    SyntaxKind::ExprName
                };
                assert(kind == primary_name_kind(self.toks()[self.pos as int].1));
                self.register(kind);
            },
            Some(TokenKind::StringLiteral) => {
                self.parse_string_literal();
            },
            Some(TokenKind::IntegerLiteral) => {
                self.bump();
            },
            Some(TokenKind::FloatLiteral) => {
                self.bump();
            },
            Some(TokenKind::LeftParen) => {
                self.start_node(SyntaxKind::ExprWrapped);
                self.bump();
                self.parse_tuple(TupleParseMode::WithCondExpr, None, true);
                if self.sync1(TokenKind::RightParen).is_some() {
                    self.bump();
                } else {
                    self.error_str("expected ')' before end of context");
                }
                self.finish_node();
            },
            Some(TokenKind::LeftBracket) => {
                self.parse_list();
            },
            Some(TokenKind::LeftBrace) => {
                self.parse_dict();
            },
            _ => {
                self.error_str("invalid primary expression");
            },
        }
    }
}

} // verus!
