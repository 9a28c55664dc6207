//! The statements between `{%` and `%}`: what the parts of each tag have in
//! common, and the targets of assignments.

use crate::expressions::TupleParseMode;
use crate::lexer::Token;
use crate::messages::{debug_string, join2, join3, optional_kind};
use crate::parser::{after_ws, is_expression_end, Parser};
use crate::statement_grammar::{sp_assign_target, sp_namespace_ref, token_debug_text};
use crate::syntax::{SyntaxKind, TokenKind};
use vstd::prelude::*;
use vstd::string::StringExecFns;

verus! {

/// Whether the target of an assignment may be a tuple, and if so, which
/// names end it.
#[derive(Clone, Copy)]
pub enum AssignTargetTuple<'a> {
    WithTuple(Option<&'a str>),
    NoTuple,
}

/// What may stand as the target of an assignment.
#[derive(Clone, Copy)]
pub enum AssignTargetNameMode<'a> {
    /// A name and nothing else.
    NameOnly,
    /// A primary or a tuple; with `true`, a name of a namespace too.
    NotNameOnly(bool, AssignTargetTuple<'a>),
}

/// A token as Rust's debug formatting shows it.
pub(crate) fn token_debug(token: &Token) -> (r: String)
    ensures
        r@ == token_debug_text(token@),
{
    let mut r = join3("Token { kind: ", token.kind.name(), ", text: ");
    r.append(debug_string(token.text.as_str()).as_str());
    r.append(" }");
    r
}

impl Parser {
    /// What holds once a statement has opened its node and, inside it, the
    /// node of its opening tag: both start where the statement starts.
    pub(crate) open spec fn opened_two(
        &self,
        before: Parser,
        outer: SyntaxKind,
        inner: SyntaxKind,
    ) -> bool {
        let n = before.children().len() as int;
        &&& self.keeps(before, n)
        &&& self.tag_stack@ == before.tag_stack@
        &&& self.parents() == before.parents().push((outer.raw_spec(), n)).push(
            (inner.raw_spec(), n),
        )
        &&& self.pos > before.pos
        &&& self.holds_opening(before)
    }

    /// What holds once a statement has opened its one node.
    pub(crate) open spec fn opened_one(&self, before: Parser, kind: SyntaxKind) -> bool {
        &&& self.opened(before, kind, before.children().len() as int)
        &&& self.pos > before.pos
        &&& self.holds_opening(before)
    }

    /// Whether the cursor is at the opening delimiter of a statement that
    /// has a token after it, whitespace not counted.
    pub(crate) open spec fn at_tag(&self) -> bool {
        &&& self.pos < self.tokens@.len()
        &&& after_ws(self.toks(), self.pos + 1) < self.tokens@.len()
    }

    /// A name of a namespace: a name, a dot, a name. The dot is known to be
    /// there.
    pub(crate) fn parse_namespace_ref(&mut self)
        requires
            old(self).inv(),
            old(self).peek() != Some(TokenKind::Whitespace),
            old(self).second_index() < old(self).tokens@.len(),
        ensures
            final(self).follows(*old(self), old(self).children().len() as int),
            final(self).state() == sp_namespace_ref(old(self).toks(), old(self).state()),
    {
        proof {
            reveal(sp_namespace_ref);
        }
        let ghost second = self.second_index();
        self.start_node(SyntaxKind::ExprNamespaceRef);
        self.skip_ws();
        match self.current() {
            Some(TokenKind::Name) => {
                self.bump();
            },
            Some(kind) => {
                if is_expression_end(kind) {
                    self.error_str(
                        "expected name for 1st part of namespace ref, but found end of context",
                    );
                } else {
                    self.error(
                        join2(
                            "expected name for 1st part of namespace ref, but found ",
                            kind.name(),
                        ),
                    );
                }
                self.finish_node();
                return;
            },
            None => {
                self.finish_node();
                return;
            },
        }
        self.skip_ws();
        assert(self.pos == second);
        self.bump();
        match self.current() {
            Some(TokenKind::Name) => {
                self.bump();
            },
            kind => {
                let at_end = match kind {
                    Some(k) => is_expression_end(k),
                    None => false,
                };
                if at_end {
                    self.error(
                        join2(
                            "expected name for 2nd part of namespace ref, but found ",
                            "end of context",
                        ),
                    );
                } else {
                    let found = optional_kind(kind);
                    self.error(
                        join2(
                            "expected name for 2nd part of namespace ref, but found ",
                            found.as_str(),
                        ),
                    );
                }
            },
        }
        self.finish_node();
    }

    /// The target of an assignment.
    pub(crate) fn parse_assign_target(&mut self, name_mode: AssignTargetNameMode)
        requires
            old(self).inv(),
        ensures
            final(self).follows(*old(self), old(self).children().len() as int),
            final(self).state() == sp_assign_target(old(self).toks(), old(self).state(), name_mode),
    {
        proof {
            reveal(sp_assign_target);
        }
        self.skip_ws();
        match name_mode {
            AssignTargetNameMode::NameOnly => {
                match self.current() {
                    Some(TokenKind::Name) => {
                        self.bump();
                    },
                    kind => {
                        let at_end = match kind {
                            Some(k) => is_expression_end(k),
                            None => false,
                        };
                        if at_end {
                            self.error(
                                join2(
                                    "expected name for assign target, but found ",
                                    "end of context",
                                ),
                            );
                        } else {
                            let found = optional_kind(kind);
                            self.error(
                                join2(
                                    "expected name for assign target, but found ",
                                    found.as_str(),
                                ),
                            );
                        }
                    },
                }
            },
            AssignTargetNameMode::NotNameOnly(with_namespace, with_tuple) => {
                if with_namespace && matches!(self.next_nonws_kind(), Some(TokenKind::Dot)) {
                    self.parse_namespace_ref();
                    return;
                }
                match with_tuple {
                    AssignTargetTuple::WithTuple(extra_end_rules) => {
                        self.parse_tuple(TupleParseMode::Simplified, extra_end_rules, false);
                    },
                    AssignTargetTuple::NoTuple => {
                        self.parse_primary();
                    },
                }
            },
        }
    }
}

} // verus!
