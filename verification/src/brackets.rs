//! Statements, variables, comments and raw blocks, each from its opening
//! delimiter to its closing one.

use crate::expressions::TupleParseMode;
use crate::messages::join2;
use crate::model::s_second;
use crate::parser::{is_expression_end, Parser};
use crate::syntax::{SyntaxKind, TokenKind};
use crate::template::keyword;
use crate::template_grammar::{
    sp_comment, sp_raw, sp_statement, sp_variable, bracketed, statement_closed, statement_finishes,
    variable_closed, wrapper_of,
};
use crate::green::{children_of, kind_of, Element};
use crate::parser::leaf_of;
use crate::template_grammar::{sp_statement_end, statement_end_found};
use vstd::prelude::*;

verus! {

impl Parser {
    /// A statement, from `{%` to `%}`.
    pub(crate) fn parse_statement(&mut self)
        requires
            old(self).pending(0),
            old(self).peek() == Some(TokenKind::BlockBegin),
        ensures
            final(self).pending(0),
            final(self).keeps(*old(self), 0),
            final(self).pos > old(self).pos,
            final(self).state() == sp_statement(old(self).toks(), old(self).state()),
            final(self).children().len() > 0,
            bracketed(
                wrapper_of(
                    final(self).children().last(),
                    statement_finishes(old(self).toks(), old(self).state()),
                ),
                old(self).toks()[old(self).pos as int],
                if statement_closed(old(self).toks(), old(self).state()) {
                    Some(old(self).toks()[final(self).pos - 1])
                } else {
                    None
                },
            ),
            statement_closed(old(self).toks(), old(self).state()) ==> old(self).toks()[final(self).pos
                - 1].0 == TokenKind::BlockEnd,
    {
        proof {
            reveal(sp_statement);
        }
        let ghost second = self.second_index();
        assert(self.toks()[self.pos as int].0 != TokenKind::Whitespace);
        let next = match self.next_nonws_tok() {
            Some(token) => Some((token.kind, token.text.clone())),
            None => None,
        };
        assert(match next {
            Some((kind, name)) => s_second(self.toks(), self.state()) == Some((kind, name@)),
            None => s_second(self.toks(), self.state()) is None,
        });
        let finished_block = match next {
            None => {
                self.error_str("expected tag name, but found EOF");
                self.start_node(SyntaxKind::StmtUnknown);
                self.bump();
                self.sync0();
                self.finish_node();
                return;
            },
            Some((kind, name)) => {
                if is_expression_end(kind) {
                    self.error_str("expected tag name, but end of block");
                    self.start_node(SyntaxKind::StmtUnknown);
                    self.bump();
                    self.skip_ws();
                    assert(self.pos == second);
                    self.bump();
                    self.finish_node();
                    return;
                }
                if !matches!(kind, TokenKind::Name) {
                    self.start_node(SyntaxKind::StmtUnknown);
                    self.bump();
                    self.error(
                        join2(
                            "expected tag token at the beginning of statement, not ",
                            kind.name(),
                        ),
                    );
                    false
                } else {
                    self.parse_tag(keyword(name.as_str()), name.as_str())
                }
            },
        };
        self.parse_statement_end(finished_block);
    }

    /// The end of a statement: an optional colon and the closing delimiter,
    /// with recovery before each. Then the statement's node closes, and the
    /// node of the block too if the statement ends one.
    pub(crate) fn parse_statement_end(&mut self, finished_block: bool)
        requires
            old(self).inv(),
            old(self).template_open(),
            old(self).parents().len() == old(self).tag_stack@.len() + (if finished_block {
                2int
            } else {
                1int
            }),
            0 <= old(self).floor() < old(self).children().len(),
        ensures
            final(self).pending(0),
            final(self).keeps(*old(self), 0),
            final(self).state() == sp_statement_end(
                old(self).toks(),
                old(self).state(),
                finished_block,
            ),
            final(self).children().len() > 0,
            wrapper_of(final(self).children().last(), finished_block) is Node,
            children_of(wrapper_of(final(self).children().last(), finished_block)).len() > 0,
            children_of(wrapper_of(final(self).children().last(), finished_block))[0] == old(
                self,
            ).children()[old(self).floor()],
            statement_end_found(old(self).toks(), old(self).state()) ==> final(self).pos > 0
                && old(self).toks()[final(self).pos - 1].0 == TokenKind::BlockEnd && children_of(
                wrapper_of(final(self).children().last(), finished_block),
            ).last() == leaf_of(old(self).toks()[final(self).pos - 1]),
    {
        let ghost first = self.floor();
        let ghost opening = self.children()[first];
        self.skip_ws();
        match self.sync2(TokenKind::Colon, TokenKind::BlockEnd) {
            None => {
                self.error_str("expected ':' or '%}', but found EOF");
            },
            Some(TokenKind::Colon) => {
                self.bump();
                self.skip_ws();
                match self.sync1(TokenKind::BlockEnd) {
                    None => {
                        self.error_str("expected '%}', but found EOF");
                    },
                    Some(_) => {
                        self.bump();
                    },
                }
            },
            Some(_) => {
                self.bump();
            },
        }
        let ghost filled = self.children();
        assert(filled[first] == opening);
        self.finish_node();
        assert(self.children().last() == (Element::Node {
            kind: old(self).parents().last().0,
            children: filled.skip(first),
        }));
        assert(filled.skip(first)[0] == opening);
        assert(filled.skip(first).last() == filled.last());
        if finished_block {
            let ghost marker = self.children().last();
            let ghost wrapped = self.children();
            let ghost outer = self.floor();
            self.finish_node();
            assert(wrapped.skip(outer).last() == marker);
        }
    }

    /// A variable, from `{{` to `}}`.
    pub(crate) fn parse_variable(&mut self)
        requires
            old(self).inv(),
            old(self).peek() == Some(TokenKind::VariableBegin),
        ensures
            final(self).follows(*old(self), old(self).children().len() as int),
            final(self).pos > old(self).pos,
            final(self).state() == sp_variable(old(self).toks(), old(self).state()),
            final(self).children().len() > 0,
            bracketed(
                final(self).children().last(),
                old(self).toks()[old(self).pos as int],
                if variable_closed(old(self).toks(), old(self).state()) {
                    Some(old(self).toks()[final(self).pos - 1])
                } else {
                    None
                },
            ),
            variable_closed(old(self).toks(), old(self).state()) ==> old(self).toks()[final(self).pos
                - 1].0 == TokenKind::VariableEnd,
            kind_of(final(self).children().last()) == SyntaxKind::Variable.raw_spec(),
    {
        proof {
            reveal(sp_variable);
        }
        self.start_node(SyntaxKind::Variable);
        self.bump();
        self.parse_tuple(TupleParseMode::WithCondExpr, None, false);
        if self.sync1(TokenKind::VariableEnd).is_some() {
            self.bump();
        } else {
            self.error_str("incomplete variable, expected \"}}\"");
        }
        self.finish_node();
    }

    /// A comment, from `{#` to `#}`.
    pub(crate) fn parse_comment(&mut self)
        requires
            old(self).inv(),
            old(self).peek() == Some(TokenKind::CommentBegin),
        ensures
            final(self).follows(*old(self), old(self).children().len() as int),
            final(self).pos > old(self).pos,
            final(self).state() == sp_comment(old(self).toks(), old(self).state()),
    {
        self.start_node(SyntaxKind::Comment);
        self.bump();
        match self.current() {
            None => {
                self.error_str("incomplete comment");
            },
            Some(TokenKind::CommentData) => {
                self.bump();
            },
            _ => {},
        }
        if self.at(TokenKind::CommentEnd) {
            self.bump();
        } else {
            self.error_str("incomplete comment, expected \"#}\"");
        }
        self.finish_node();
    }

    /// A raw block, from `{% raw %}` to `{% endraw %}`.
    pub(crate) fn parse_raw(&mut self)
        requires
            old(self).inv(),
            old(self).peek() == Some(TokenKind::RawBegin),
        ensures
            final(self).follows(*old(self), old(self).children().len() as int),
            final(self).pos > old(self).pos,
            final(self).state() == sp_raw(old(self).toks(), old(self).state()),
    {
        self.start_node(SyntaxKind::StmtRaw);
        self.bump();
        match self.current() {
            None => {
                self.error_str("incomplete raw block");
            },
            Some(TokenKind::Data) => {
                self.bump();
            },
            _ => {},
        }
        if self.at(TokenKind::RawEnd) {
            self.bump();
        } else {
            self.error_str("incomplete raw block, expected \"{% endraw %}\"");
        }
        self.finish_node();
    }
}

} // verus!
