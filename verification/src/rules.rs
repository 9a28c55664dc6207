//! The tokenizer's rule tables: for each context, how matches are chosen and
//! which patterns are tried, in order.

use crate::patterns::{
    BLOCK_END_PATTERN, BLOCK_START_PATTERN, COMMENT_END_PATTERN, COMMENT_START_PATTERN,
    FLOAT_PATTERN, INTEGER_PATTERN, NAME_PATTERN, OPERATOR_PATTERN, RAW_END_PATTERN,
    RAW_START_PATTERN, STRING_PATTERN, UNKNOWN_PATTERN, VARIABLE_END_PATTERN,
    VARIABLE_START_PATTERN, WHITESPACE_PATTERN,
};
use crate::regex::{compile, regex_accepts, regex_source};
use crate::syntax::TokenKind;
use fancy_regex::Regex;
use vstd::prelude::*;

verus! {

/// A lexical mode of the tokenizer.
#[derive(Clone, Copy, Debug, PartialEq, Eq, Hash, Structural)]
pub enum Context {
    Root,
    Block,
    Comment,
    Variable,
    Raw,
}

impl Context {
    /// Every context, once.
    pub const VALUES: [Context; 5] = [
        Context::Root,
        Context::Block,
        Context::Comment,
        Context::Variable,
        Context::Raw,
    ];
}

/// What a match does to the stack of contexts.
#[derive(Clone, Copy, Debug, PartialEq, Eq, Structural)]
pub enum Action {
    AddContext(Context),
    PopContext,
}

/// How a context chooses among the matches of its rules.
#[derive(Clone, Copy, Debug, PartialEq, Eq, Structural)]
pub enum MatchType {
    /// The patterns are searched for; the earliest match wins, and the text
    /// before it becomes a token of the kind held here.
    Search(TokenKind),
    /// The patterns must match at the cursor; the longest match wins.
    MatchFromStart,
}

/// One rule as contracts speak of it: the pattern's text, the kind of
/// the token it makes, and what it does to the context stack.
pub struct RuleSpec {
    pub source: Seq<char>,
    pub kind: TokenKind,
    pub action: Option<Action>,
}

/// One rule, with its pattern compiled.
pub struct Rule {
    pub pattern: Regex,
    pub kind: TokenKind,
    pub action: Option<Action>,
}

impl View for Rule {
    type V = RuleSpec;

    open spec fn view(&self) -> RuleSpec {
        RuleSpec { source: regex_source(self.pattern), kind: self.kind, action: self.action }
    }
}

/// The rules of one context.
pub struct ContextRules {
    pub policy: MatchType,
    pub rules: Vec<Rule>,
}

impl ContextRules {
    /// The rules as contracts speak of them.
    pub open spec fn specs(&self) -> Seq<RuleSpec> {
        Seq::new(self.rules@.len(), |i: int| self.rules@[i]@)
    }
}

/// A pattern that the expression engine refused to compile.
#[derive(Debug)]
pub struct PatternError {
    pub pattern: String,
}

/// The rules that Block and Variable share, after their closing delimiter
/// and before the rule that catches everything else.
pub open spec fn expression_rules() -> Seq<RuleSpec> {
    seq![
        RuleSpec { source: WHITESPACE_PATTERN@, kind: TokenKind::Whitespace, action: None },
        RuleSpec { source: FLOAT_PATTERN@, kind: TokenKind::FloatLiteral, action: None },
        RuleSpec { source: INTEGER_PATTERN@, kind: TokenKind::IntegerLiteral, action: None },
        RuleSpec { source: NAME_PATTERN@, kind: TokenKind::Name, action: None },
        RuleSpec { source: STRING_PATTERN@, kind: TokenKind::StringLiteral, action: None },
        RuleSpec { source: OPERATOR_PATTERN@, kind: TokenKind::Operator, action: None },
    ]
}

/// The rules of a bracket in which expressions are written: the closing
/// delimiter, the expression rules, and one character of anything else.
pub open spec fn bracket_rules(end: Seq<char>, end_kind: TokenKind) -> Seq<RuleSpec> {
    seq![RuleSpec { source: end, kind: end_kind, action: Some(Action::PopContext) }]
        + expression_rules() + seq![
        RuleSpec { source: UNKNOWN_PATTERN@, kind: TokenKind::Error, action: None },
    ]
}

/// The rules of each context, in the order in which they are tried.
pub open spec fn rules_of(context: Context) -> Seq<RuleSpec> {
    match context {
        Context::Root => seq![
            RuleSpec {
                source: RAW_START_PATTERN@,
                kind: TokenKind::RawBegin,
                action: Some(Action::AddContext(Context::Raw)),
            },
            RuleSpec {
                source: COMMENT_START_PATTERN@,
                kind: TokenKind::CommentBegin,
                action: Some(Action::AddContext(Context::Comment)),
            },
            RuleSpec {
                source: BLOCK_START_PATTERN@,
                kind: TokenKind::BlockBegin,
                action: Some(Action::AddContext(Context::Block)),
            },
            RuleSpec {
                source: VARIABLE_START_PATTERN@,
                kind: TokenKind::VariableBegin,
                action: Some(Action::AddContext(Context::Variable)),
            },
        ],
        Context::Raw => seq![
            RuleSpec {
                source: RAW_END_PATTERN@,
                kind: TokenKind::RawEnd,
                action: Some(Action::PopContext),
            },
        ],
        Context::Comment => seq![
            RuleSpec {
                source: COMMENT_END_PATTERN@,
                kind: TokenKind::CommentEnd,
                action: Some(Action::PopContext),
            },
        ],
        Context::Block => bracket_rules(BLOCK_END_PATTERN@, TokenKind::BlockEnd),
        Context::Variable => bracket_rules(VARIABLE_END_PATTERN@, TokenKind::VariableEnd),
    }
}

/// How each context chooses among its matches.
pub open spec fn policy_of(context: Context) -> MatchType {
    match context {
        Context::Root | Context::Raw => MatchType::Search(TokenKind::Data),
        Context::Comment => MatchType::Search(TokenKind::CommentData),
        Context::Block | Context::Variable => MatchType::MatchFromStart,
    }
}

/// Every rule of Root opens a context, and no rule of another context
/// does: so the stack of contexts never runs empty.
pub proof fn lemma_actions_by_context(context: Context, i: int)
    requires
        0 <= i < rules_of(context).len(),
    ensures
        context == Context::Root ==> rules_of(context)[i].action matches Some(
            Action::AddContext(_),
        ),
        context != Context::Root ==> rules_of(context)[i].action is None || rules_of(
            context,
        )[i].action == Some(Action::PopContext),
{
}

/// The rules of every context, in the order in which a table is built:
/// Root, Raw, Comment, Block, Variable.
pub open spec fn table_rules() -> Seq<RuleSpec> {
    rules_of(Context::Root) + rules_of(Context::Raw) + rules_of(Context::Comment) + rules_of(
        Context::Block,
    ) + rules_of(Context::Variable)
}

/// The first pattern, from index `from` on, that the expression engine does
/// not compile, if there is one.
pub open spec fn refused_from(rules: Seq<RuleSpec>, from: int) -> Option<Seq<char>>
    decreases rules.len() - from,
{
    if from < 0 || from >= rules.len() {
        None
    } else if !regex_accepts(rules[from].source) {
        Some(rules[from].source)
    } else {
        refused_from(rules, from + 1)
    }
}

/// The first pattern among some rules that the expression engine does not
/// compile, if there is one.
pub open spec fn refused(rules: Seq<RuleSpec>) -> Option<Seq<char>> {
    refused_from(rules, 0)
}

/// In rules put one after the other, the first refused pattern is that of
/// the first part, or, where that has none, that of the second.
pub proof fn lemma_refused_concat(a: Seq<RuleSpec>, b: Seq<RuleSpec>)
    ensures
        refused(a + b) == if refused(a) is Some {
            refused(a)
        } else {
            refused(b)
        },
{
    lemma_refused_concat_from(a, b, 0);
}

proof fn lemma_refused_concat_from(a: Seq<RuleSpec>, b: Seq<RuleSpec>, from: int)
    requires
        0 <= from <= a.len() + b.len(),
    ensures
        refused_from(a + b, from) == if from >= a.len() {
            refused_from(b, from - a.len())
        } else if refused_from(a, from) is Some {
            refused_from(a, from)
        } else {
            refused(b)
        },
    decreases a.len() + b.len() - from,
{
    if from < a.len() + b.len() {
        lemma_refused_concat_from(a, b, from + 1);
        if from < a.len() {
            assert((a + b)[from] == a[from]);
        } else {
            assert((a + b)[from] == b[from - a.len()]);
        }
    }
}

/// Compiles one rule. Where the engine refuses the pattern, the error holds
/// the pattern.
fn rule(pattern: &'static str, kind: TokenKind, action: Option<Action>) -> (r: Result<
    Rule,
    PatternError,
>)
    ensures
        match r {
            Ok(rule) => regex_accepts(pattern@) && rule@ == (RuleSpec {
                source: pattern@,
                kind,
                action,
            }),
            Err(e) => !regex_accepts(pattern@) && e.pattern@ == pattern@,
        },
{
    match compile(pattern) {
        Ok(re) => Ok(Rule { pattern: re, kind, action }),
        Err(_) => Err(PatternError { pattern: pattern.to_owned() }),
    }
}

/// Compiles the rules of a bracket in which expressions are written, in
/// their order. Where the engine refuses a pattern, the error holds the
/// first that it refused.
fn bracket(end: &'static str, end_kind: TokenKind) -> (r: Result<ContextRules, PatternError>)
    ensures
        match refused(bracket_rules(end@, end_kind)) {
            None => r matches Ok(c) && c.policy == MatchType::MatchFromStart && c.specs()
                == bracket_rules(end@, end_kind),
            Some(pattern) => r matches Err(e) && e.pattern@ == pattern,
        },
{
    proof {
        reveal_with_fuel(refused_from, 9);
    }
    let mut rules: Vec<Rule> = Vec::new();
    rules.push(rule(end, end_kind, Some(Action::PopContext))?);
    rules.push(rule(WHITESPACE_PATTERN, TokenKind::Whitespace, None)?);
    rules.push(rule(FLOAT_PATTERN, TokenKind::FloatLiteral, None)?);
    rules.push(rule(INTEGER_PATTERN, TokenKind::IntegerLiteral, None)?);
    rules.push(rule(NAME_PATTERN, TokenKind::Name, None)?);
    rules.push(rule(STRING_PATTERN, TokenKind::StringLiteral, None)?);
    rules.push(rule(OPERATOR_PATTERN, TokenKind::Operator, None)?);
    rules.push(rule(UNKNOWN_PATTERN, TokenKind::Error, None)?);
    let c = ContextRules { policy: MatchType::MatchFromStart, rules };
    assert(c.specs() =~= bracket_rules(end@, end_kind));
    Ok(c)
}

/// The compiled rules of every context.
pub struct RuleTable {
    pub root: ContextRules,
    pub raw: ContextRules,
    pub comment: ContextRules,
    pub block: ContextRules,
    pub variable: ContextRules,
}

impl RuleTable {
    /// The rules that the table holds for a context.
    pub open spec fn of(&self, context: Context) -> ContextRules {
        match context {
            Context::Root => self.root,
            Context::Raw => self.raw,
            Context::Comment => self.comment,
            Context::Block => self.block,
            Context::Variable => self.variable,
        }
    }

    /// The table holds, for each context, the rules and the policy that the
    /// tokenizer is specified with.
    pub open spec fn wf(&self) -> bool {
        forall|context: Context|
            (#[trigger] self.of(context)).policy == policy_of(context) && self.of(context).specs()
                == rules_of(context)
    }

    /// Compiles every pattern, context by context, and lays out the table.
    /// Where the engine refuses a pattern, the error holds the first that it
    /// refused.
    pub fn new() -> (r: Result<RuleTable, PatternError>)
        ensures
            match refused(table_rules()) {
                None => r matches Ok(table) && table.wf(),
                Some(pattern) => r matches Err(e) && e.pattern@ == pattern,
            },
    {
        proof {
            reveal_with_fuel(refused_from, 5);
            let root = rules_of(Context::Root);
            let raw = rules_of(Context::Raw);
            let comment = rules_of(Context::Comment);
            let block = rules_of(Context::Block);
            lemma_refused_concat(root, raw);
            lemma_refused_concat(root + raw, comment);
            lemma_refused_concat(root + raw + comment, block);
            lemma_refused_concat(root + raw + comment + block, rules_of(Context::Variable));
        }
        let mut root: Vec<Rule> = Vec::new();
        root.push(
            rule(RAW_START_PATTERN, TokenKind::RawBegin, Some(Action::AddContext(Context::Raw)))?,
        );
        root.push(
            rule(
                COMMENT_START_PATTERN,
                TokenKind::CommentBegin,
                Some(Action::AddContext(Context::Comment)),
            )?,
        );
        root.push(
            rule(
                BLOCK_START_PATTERN,
                TokenKind::BlockBegin,
                Some(Action::AddContext(Context::Block)),
            )?,
        );
        root.push(
            rule(
                VARIABLE_START_PATTERN,
                TokenKind::VariableBegin,
                Some(Action::AddContext(Context::Variable)),
            )?,
        );
        let mut raw: Vec<Rule> = Vec::new();
        raw.push(rule(RAW_END_PATTERN, TokenKind::RawEnd, Some(Action::PopContext))?);
        let mut comment: Vec<Rule> = Vec::new();
        comment.push(rule(COMMENT_END_PATTERN, TokenKind::CommentEnd, Some(Action::PopContext))?);
        let table = RuleTable {
            root: ContextRules { policy: MatchType::Search(TokenKind::Data), rules: root },
            raw: ContextRules { policy: MatchType::Search(TokenKind::Data), rules: raw },
            comment: ContextRules {
                policy: MatchType::Search(TokenKind::CommentData),
                rules: comment,
            },
            block: bracket(BLOCK_END_PATTERN, TokenKind::BlockEnd)?,
            variable: bracket(VARIABLE_END_PATTERN, TokenKind::VariableEnd)?,
        };
        assert(table.root.specs() =~= rules_of(Context::Root));
        assert(table.raw.specs() =~= rules_of(Context::Raw));
        assert(table.comment.specs() =~= rules_of(Context::Comment));
        assert forall|context: Context|
            (#[trigger] table.of(context)).policy == policy_of(context) && table.of(
                context,
            ).specs() == rules_of(context) by {}
        Ok(table)
    }

    /// The rules of a context. Every context has some.
    pub fn get(&self, context: Context) -> (r: Option<&ContextRules>)
        ensures
            r == Some(&self.of(context)),
    {
        match context {
            Context::Root => Some(&self.root),
            Context::Raw => Some(&self.raw),
            Context::Comment => Some(&self.comment),
            Context::Block => Some(&self.block),
            Context::Variable => Some(&self.variable),
        }
    }
}

} // verus!
