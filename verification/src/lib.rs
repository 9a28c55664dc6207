//! A context-aware tokenizer and an error-tolerant parser for the Jinja
//! dialect used by dbt, building a lossless syntax tree.
//!
//! A text is cut into tokens (`lexer`), the tokens are parsed into a tree
//! (`template`), and the tree is read (`cst`). What the parser computes is
//! written down as functions on its state (`model`, `grammar`,
//! `statement_grammar`, `template_grammar`); the parser is proved to compute
//! exactly that.

// The catalog of kinds, and strings.
pub mod syntax;
pub mod text;

// The tokenizer.
pub mod lexer;
pub mod patterns;
pub mod regex;
pub mod rules;

// The tree and its builder.
pub mod cst;
pub mod green;

// What the parser computes.
pub mod grammar;
pub mod model;
pub mod precedence;
pub mod statement_grammar;
pub mod template_grammar;

// The parser: its state and its small steps.
pub mod messages;
pub mod parser;

// The parser: expressions.
pub mod arithmetic;
pub mod calls;
pub mod collections;
pub mod comparison;
pub mod conditional;
pub mod expressions;
pub mod filters;
pub mod logic;
pub mod postfix;
pub mod primary;
pub mod subscripts;
pub mod unary;

// The parser: statements and templates.
pub mod blocks;
pub mod brackets;
pub mod dispatch;
pub mod materialization;
pub mod signatures;
pub mod statements;
pub mod tags;
pub mod template;

// What a language server keeps of a project.
pub mod macros;
pub mod position_finder;
pub mod project_spec;
