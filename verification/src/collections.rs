//! Lists and dicts.

use crate::grammar::{sp_dict, sp_dict_items, sp_expression, sp_list, sp_list_items};
use crate::messages::join2;
use crate::parser::{is_expression_end, Parser};
use crate::syntax::{SyntaxKind, TokenKind};
use vstd::prelude::*;

verus! {

impl Parser {
    /// A list in square brackets.
    pub(crate) fn parse_list(&mut self)
        requires
            old(self).inv(),
            old(self).peek() == Some(TokenKind::LeftBracket),
        ensures
            final(self).follows(*old(self), old(self).children().len() as int),
            final(self).pos > old(self).pos,
            final(self).state() == sp_list(old(self).toks(), old(self).state()),
        decreases old(self).left(), 4nat,
    {
        proof {
            reveal(sp_list);
            reveal(sp_list_items);
        }
        self.start_node(SyntaxKind::ExprList);
        self.bump();
        let ghost target = sp_list_items(self.toks(), self.state());
        loop
            invariant_except_break
                sp_list_items(self.toks(), self.state()) == target,
            invariant
                old(self).inv(),
                self.opened(*old(self), SyntaxKind::ExprList, old(self).children().len() as int),
                self.pos > old(self).pos,
            ensures
                self.state() == target,
            decreases self.left(),
        {
            proof {
                reveal(sp_list_items);
                reveal(sp_expression);
            }
            self.skip_ws();
            if self.at(TokenKind::RightBracket) {
                self.bump();
                break;
            }
            self.parse_expression(true);
            self.skip_ws();
            match self.sync2(TokenKind::Comma, TokenKind::RightBracket) {
                None => {
                    self.error_str("expected ',' or ']', but found end of context");
                    break;
                },
                Some(TokenKind::Comma) => {
                    self.bump();
                },
                Some(_) => {
                    self.bump();
                    break;
                },
            }
        }
        self.finish_node();
    }

    /// A dict in braces: pairs of a key and a value.
    pub(crate) fn parse_dict(&mut self)
        requires
            old(self).inv(),
            old(self).peek() == Some(TokenKind::LeftBrace),
        ensures
            final(self).follows(*old(self), old(self).children().len() as int),
            final(self).pos > old(self).pos,
            final(self).state() == sp_dict(old(self).toks(), old(self).state()),
        decreases old(self).left(), 4nat,
    {
        proof {
            reveal(sp_dict);
            reveal(sp_dict_items);
        }
        self.start_node(SyntaxKind::ExprDict);
        self.bump();
        let ghost target = sp_dict_items(self.toks(), self.state());
        loop
            invariant_except_break
                sp_dict_items(self.toks(), self.state()) == target,
            invariant
                old(self).inv(),
                self.opened(*old(self), SyntaxKind::ExprDict, old(self).children().len() as int),
                self.pos > old(self).pos,
            ensures
                self.state() == target,
            decreases self.left(),
        {
            proof {
                reveal(sp_dict_items);
                reveal(sp_expression);
            }
            self.skip_ws();
            if self.at(TokenKind::RightBrace) {
                self.bump();
                break;
            }
            self.start_node(SyntaxKind::Pair);
            self.parse_expression(true);
            self.skip_ws();
            match self.current() {
                Some(TokenKind::Colon) => {
                    self.bump();
                },
                Some(TokenKind::RightBrace) => {
                    self.finish_node();
                    self.bump();
                    self.error_str("dict key requires \": value\" to complete");
                    break;
                },
                Some(kind) => {
                    if is_expression_end(kind) {
                        self.finish_node();
                        self.error(
                            join2("expected end of dict, but found end of context ", kind.name()),
                        );
                        break;
                    }
                    self.error(join2("expected ':', but found ", kind.name()));
                    self.bump_error();
                },
                None => {
                    self.finish_node();
                    self.error_str("expected ':', but found EOF");
                    break;
                },
            }
            self.skip_ws();
            self.parse_expression(true);
            self.finish_node();
            self.skip_ws();
            match self.sync2(TokenKind::Comma, TokenKind::RightBrace) {
                None => {
                    self.error_str("expected ',' or '}', but found end of context");
                    break;
                },
                Some(TokenKind::Comma) => {
                    self.bump();
                },
                Some(_) => {
                    self.bump();
                    break;
                },
            }
        }
        self.finish_node();
    }
}

} // verus!
