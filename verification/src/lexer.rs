//! The tokenizer: a stack of contexts, and in each context a table of
//! patterns that decides where the next token ends.

use crate::regex::{find_from, regex_find, Found};
use crate::rules::{
    policy_of, refused, rules_of, table_rules, Action, Context, ContextRules, MatchType, Rule,
    RuleSpec, RuleTable,
};
use crate::syntax::{operator_kind, operator_of, TokenKind};
use crate::text::{byte_len, lemma_decode_extend, lemma_piece_not_empty, str_eq, substring};
use vstd::prelude::*;
use vstd::string::StringSliceAdditionalSpecFns;
use vstd::utf8::{
    decode_utf8, encode_utf8, encode_utf8_decode_utf8, encode_utf8_valid_utf8, is_char_boundary,
    is_char_boundary_start_end_of_seq, valid_utf8,
};

verus! {

/// A piece of the input with the kind that the tokenizer gave it.
#[derive(Debug)]
pub struct Token {
    pub kind: TokenKind,
    pub text: String,
}

impl View for Token {
    type V = (TokenKind, Seq<char>);

    open spec fn view(&self) -> (TokenKind, Seq<char>) {
        (self.kind, self.text@)
    }
}

impl Token {
    /// Whether the token is the name `name`.
    pub fn is_name(&self, name: &str) -> (r: bool)
        ensures
            r == (self.kind == TokenKind::Name && self.text@ == name@),
    {
        matches!(self.kind, TokenKind::Name) && str_eq(self.text.as_str(), name)
    }
}

/// The views of a sequence of tokens.
pub open spec fn token_views(tokens: Seq<Token>) -> Seq<(TokenKind, Seq<char>)> {
    tokens.map_values(|t: Token| t@)
}

/// The texts of a sequence of tokens.
pub open spec fn texts(tokens: Seq<(TokenKind, Seq<char>)>) -> Seq<Seq<char>> {
    tokens.map_values(|t: (TokenKind, Seq<char>)| t.1)
}

/// Where a token lies in the input, in bytes, and its kind.
pub struct Lexeme {
    pub kind: TokenKind,
    pub start: int,
    pub end: int,
}

/// The characters of `text` between two byte offsets.
pub open spec fn piece(text: Seq<char>, start: int, end: int) -> Seq<char> {
    decode_utf8(encode_utf8(text).subrange(start, end))
}

/// The kind that a token is given in the end: an operator is known by its
/// spelling, every other kind stays.
pub open spec fn final_kind(kind: TokenKind, text: Seq<char>) -> TokenKind {
    if kind == TokenKind::Operator {
        match operator_of(text) {
            Some(k) => k,
            None => TokenKind::Error,
        }
    } else {
        kind
    }
}

/// Makes the token for a piece of input that a rule of kind `kind` matched.
pub fn process_token(kind: TokenKind, input: &str) -> (token: Token)
    ensures
        token@ == (final_kind(kind, input@), input@),
{
    match kind {
        TokenKind::Operator => {
            let kind = match operator_kind(input) {
                Some(k) => k,
                None => TokenKind::Error,
            };
            Token { kind, text: input.to_owned() }
        },
        _ => Token { kind, text: input.to_owned() },
    }
}

/// Whether a span that a search reported can become a token: it lies at or
/// after the cursor, is not empty, and is cut at character boundaries.
pub open spec fn usable(text: Seq<char>, pos: int, start: int, end: int) -> bool {
    &&& pos <= start < end <= encode_utf8(text).len()
    &&& is_char_boundary(encode_utf8(text), start)
    &&& is_char_boundary(encode_utf8(text), end)
}

/// The span that a rule matches from the cursor on, if the search reports
/// one that can become a token.
pub open spec fn span_of(rule: RuleSpec, text: Seq<char>, pos: int) -> Option<(int, int)> {
    match regex_find(rule.source, text, pos) {
        Found::Span(start, end) => if usable(text, pos, start as int, end as int) {
            Some((start as int, end as int))
        } else {
            None
        },
        _ => None,
    }
}

/// A rule's index with the span that it matches.
pub struct Choice {
    pub rule: int,
    pub start: int,
    pub end: int,
}

/// Among the first `n` rules, the one whose match starts first; of two that
/// start together, the earlier rule.
pub open spec fn earliest(rules: Seq<RuleSpec>, text: Seq<char>, pos: int, n: int) -> Option<
    Choice,
>
    decreases n,
{
    if n <= 0 {
        None
    } else {
        let before = earliest(rules, text, pos, n - 1);
        match span_of(rules[n - 1], text, pos) {
            Some((start, end)) => if before is Some && before->0.start <= start {
                before
            } else {
                Some(Choice { rule: n - 1, start, end })
            },
            None => before,
        }
    }
}

/// Among the first `n` rules, the one whose match at the cursor ends last;
/// of two that end together, the earlier rule.
pub open spec fn longest(rules: Seq<RuleSpec>, text: Seq<char>, pos: int, n: int) -> Option<
    Choice,
>
    decreases n,
{
    if n <= 0 {
        None
    } else {
        let before = longest(rules, text, pos, n - 1);
        match span_of(rules[n - 1], text, pos) {
            Some((start, end)) => if start != pos || (before is Some && before->0.end >= end) {
                before
            } else {
                Some(Choice { rule: n - 1, start, end })
            },
            None => before,
        }
    }
}

/// The first character boundary at or after `from`; the end of the text if
/// there is none before it.
pub open spec fn boundary_from(bytes: Seq<u8>, from: int) -> int
    decreases bytes.len() - from,
{
    if from >= bytes.len() {
        bytes.len() as int
    } else if is_char_boundary(bytes, from) {
        from
    } else {
        boundary_from(bytes, from + 1)
    }
}

/// One step of the tokenizer: the token it makes, the token of skipped text
/// that may come before it, and what becomes of the context stack.
pub struct Step {
    pub skipped: Option<Lexeme>,
    pub lexeme: Lexeme,
    pub action: Option<Action>,
}

/// The step that the tokenizer takes at `pos` in a context.
pub open spec fn step(text: Seq<char>, pos: int, context: Context) -> Step {
    let rules = rules_of(context);
    let len = encode_utf8(text).len() as int;
    match policy_of(context) {
        MatchType::Search(default) => match earliest(rules, text, pos, rules.len() as int) {
            Some(choice) => Step {
                skipped: if choice.start > pos {
                    Some(Lexeme { kind: default, start: pos, end: choice.start })
                } else {
                    None
                },
                lexeme: Lexeme {
                    kind: final_kind(rules[choice.rule].kind, piece(text, choice.start, choice.end)),
                    start: choice.start,
                    end: choice.end,
                },
                action: rules[choice.rule].action,
            },
            None => Step {
                skipped: None,
                lexeme: Lexeme { kind: default, start: pos, end: len },
                action: None,
            },
        },
        MatchType::MatchFromStart => match longest(rules, text, pos, rules.len() as int) {
            Some(choice) => Step {
                skipped: None,
                lexeme: Lexeme {
                    kind: final_kind(rules[choice.rule].kind, piece(text, pos, choice.end)),
                    start: pos,
                    end: choice.end,
                },
                action: rules[choice.rule].action,
            },
            None => Step {
                skipped: None,
                lexeme: Lexeme {
                    kind: TokenKind::Error,
                    start: pos,
                    end: boundary_from(encode_utf8(text), pos + 1),
                },
                action: None,
            },
        },
    }
}

/// The context on top of the stack.
pub open spec fn top(stack: Seq<Context>) -> Context {
    if stack.len() > 0 {
        stack.last()
    } else {
        Context::Root
    }
}

/// The stack after an action.
pub open spec fn apply(stack: Seq<Context>, action: Option<Action>) -> Seq<Context> {
    match action {
        Some(Action::AddContext(context)) => stack.push(context),
        Some(Action::PopContext) => if stack.len() > 0 {
            stack.drop_last()
        } else {
            stack
        },
        None => stack,
    }
}

/// The lexemes that a step contributes.
pub open spec fn step_lexemes(st: Step) -> Seq<Lexeme> {
    match st.skipped {
        Some(skipped) => seq![skipped, st.lexeme],
        None => seq![st.lexeme],
    }
}

/// The lexemes from `pos` to the end of the text, with the given stack of
/// contexts. Every step moves the cursor forward.
pub open spec fn lex_from(text: Seq<char>, pos: int, stack: Seq<Context>) -> Seq<Lexeme>
    decreases encode_utf8(text).len() - pos,
{
    let st = step(text, pos, top(stack));
    if pos < 0 || pos >= encode_utf8(text).len() || !(pos < st.lexeme.end <= encode_utf8(
        text,
    ).len()) {
        Seq::empty()
    } else {
        step_lexemes(st) + lex_from(text, st.lexeme.end, apply(stack, st.action))
    }
}

/// The lexemes of a text: the tokenizer starts at its beginning, in Root.
pub open spec fn lexemes(text: Seq<char>) -> Seq<Lexeme> {
    lex_from(text, 0, seq![Context::Root])
}

/// The token that a lexeme stands for.
pub open spec fn token_of(text: Seq<char>, lexeme: Lexeme) -> (TokenKind, Seq<char>) {
    (lexeme.kind, piece(text, lexeme.start, lexeme.end))
}

/// The tokens that a sequence of lexemes stands for.
pub open spec fn tokens_at(text: Seq<char>, lexemes: Seq<Lexeme>) -> Seq<(TokenKind, Seq<char>)> {
    lexemes.map_values(|l: Lexeme| token_of(text, l))
}

/// The tokens of a text.
pub open spec fn tokens_of(text: Seq<char>) -> Seq<(TokenKind, Seq<char>)> {
    tokens_at(text, lexemes(text))
}

/// What stands for a text that no rule table could be built for: nothing
/// for the empty text, else the whole text as one token of kind `Error`.
pub open spec fn unlexed(text: Seq<char>) -> Seq<(TokenKind, Seq<char>)> {
    if text.len() == 0 {
        Seq::empty()
    } else {
        seq![(TokenKind::Error, text)]
    }
}

/// The rule that is chosen is one of those considered, and its span can
/// become a token.
pub proof fn lemma_earliest(rules: Seq<RuleSpec>, text: Seq<char>, pos: int, n: int)
    requires
        0 <= n <= rules.len(),
    ensures
        earliest(rules, text, pos, n) matches Some(c) ==> 0 <= c.rule < n && span_of(
            rules[c.rule],
            text,
            pos,
        ) == Some((c.start, c.end)) && usable(text, pos, c.start, c.end),
    decreases n,
{
    if n > 0 {
        lemma_earliest(rules, text, pos, n - 1);
    }
}

/// The rule that is chosen is one of those considered, and its span starts
/// at the cursor and can become a token.
pub proof fn lemma_longest(rules: Seq<RuleSpec>, text: Seq<char>, pos: int, n: int)
    requires
        0 <= n <= rules.len(),
    ensures
        longest(rules, text, pos, n) matches Some(c) ==> 0 <= c.rule < n && c.start == pos
            && span_of(rules[c.rule], text, pos) == Some((c.start, c.end)) && usable(
            text,
            pos,
            c.start,
            c.end,
        ),
    decreases n,
{
    if n > 0 {
        lemma_longest(rules, text, pos, n - 1);
    }
}

/// The boundary found lies between the starting point and the end of the
/// text.
pub proof fn lemma_boundary_from(bytes: Seq<u8>, from: int)
    requires
        valid_utf8(bytes),
        0 <= from <= bytes.len(),
    ensures
        from <= boundary_from(bytes, from) <= bytes.len(),
        is_char_boundary(bytes, boundary_from(bytes, from)),
    decreases bytes.len() - from,
{
    if from >= bytes.len() {
        is_char_boundary_start_end_of_seq(bytes);
    } else if !is_char_boundary(bytes, from) {
        lemma_boundary_from(bytes, from + 1);
    }
}

/// Whether a step is sound at `pos`: its tokens are not empty, lie one
/// after the other from `pos` on, and are cut at character boundaries.
pub open spec fn step_sound(text: Seq<char>, pos: int, st: Step) -> bool {
    let bytes = encode_utf8(text);
    &&& st.lexeme.start < st.lexeme.end <= bytes.len()
    &&& is_char_boundary(bytes, st.lexeme.start)
    &&& is_char_boundary(bytes, st.lexeme.end)
    &&& match st.skipped {
        Some(skipped) => skipped.start == pos && pos < skipped.end && skipped.end
            == st.lexeme.start,
        None => st.lexeme.start == pos,
    }
}

/// Every step is sound, whatever the searches report. Root never closes a
/// context, and no other context opens one.
pub proof fn lemma_step(text: Seq<char>, pos: int, context: Context)
    requires
        0 <= pos < encode_utf8(text).len(),
        is_char_boundary(encode_utf8(text), pos),
    ensures
        step_sound(text, pos, step(text, pos, context)),
        context == Context::Root ==> step(text, pos, context).action != Some(Action::PopContext),
        context != Context::Root ==> !(step(text, pos, context).action matches Some(
            Action::AddContext(_),
        )),
{
    let rules = rules_of(context);
    let bytes = encode_utf8(text);
    encode_utf8_valid_utf8(text);
    is_char_boundary_start_end_of_seq(bytes);
    lemma_earliest(rules, text, pos, rules.len() as int);
    lemma_longest(rules, text, pos, rules.len() as int);
    lemma_boundary_from(bytes, pos + 1);
}

/// The text that a sequence of lexemes covers, piece after piece.
pub open spec fn covered(text: Seq<char>, lexemes: Seq<Lexeme>) -> Seq<char> {
    texts(tokens_at(text, lexemes)).flatten()
}

/// The text covered by two runs of lexemes, one after the other.
pub proof fn lemma_covered_concat(text: Seq<char>, a: Seq<Lexeme>, b: Seq<Lexeme>)
    ensures
        covered(text, a + b) == covered(text, a) + covered(text, b),
{
    let f = |l: Lexeme| token_of(text, l);
    let g = |t: (TokenKind, Seq<char>)| t.1;
    assert((a + b).map_values(f) =~= a.map_values(f) + b.map_values(f));
    assert((a.map_values(f) + b.map_values(f)).map_values(g) =~= a.map_values(f).map_values(g)
        + b.map_values(f).map_values(g));
    vstd::seq_lib::lemma_flatten_concat(
        a.map_values(f).map_values(g),
        b.map_values(f).map_values(g),
    );
}

/// The text covered by one lexeme.
pub proof fn lemma_covered_one(text: Seq<char>, l: Lexeme)
    ensures
        covered(text, seq![l]) == piece(text, l.start, l.end),
{
    let f = |l: Lexeme| token_of(text, l);
    let g = |t: (TokenKind, Seq<char>)| t.1;
    let parts = seq![l].map_values(f).map_values(g);
    assert(parts =~= seq![piece(text, l.start, l.end)]);
    parts.lemma_flatten_one_element();
}

/// The text covered by the lexemes of one sound step is the text that the
/// step passes over.
pub proof fn lemma_step_covers(text: Seq<char>, pos: int, st: Step)
    requires
        0 <= pos < encode_utf8(text).len(),
        is_char_boundary(encode_utf8(text), pos),
        step_sound(text, pos, st),
    ensures
        piece(text, 0, pos) + covered(text, step_lexemes(st)) == piece(text, 0, st.lexeme.end),
{
    let bytes = encode_utf8(text);
    encode_utf8_valid_utf8(text);
    lemma_covered_one(text, st.lexeme);
    match st.skipped {
        Some(skipped) => {
            lemma_covered_one(text, skipped);
            assert(step_lexemes(st) =~= seq![skipped] + seq![st.lexeme]);
            lemma_covered_concat(text, seq![skipped], seq![st.lexeme]);
            lemma_decode_extend(bytes, pos, st.lexeme.start);
            lemma_decode_extend(bytes, st.lexeme.start, st.lexeme.end);
            assert(piece(text, 0, pos) + (piece(text, pos, st.lexeme.start) + piece(
                text,
                st.lexeme.start,
                st.lexeme.end,
            )) =~= piece(text, 0, st.lexeme.end));
        },
        None => {
            lemma_decode_extend(bytes, pos, st.lexeme.end);
        },
    }
}

/// Whether a lexeme is a piece of the text that is not empty and is cut at
/// character boundaries.
pub open spec fn lexeme_sound(text: Seq<char>, l: Lexeme) -> bool {
    &&& 0 <= l.start < l.end <= encode_utf8(text).len()
    &&& is_char_boundary(encode_utf8(text), l.start)
    &&& is_char_boundary(encode_utf8(text), l.end)
}

/// From any point that the tokenizer reaches, the lexemes still to come
/// cover the rest of the text, and none of them is empty.
pub proof fn lemma_lex_covers(text: Seq<char>, pos: int, stack: Seq<Context>)
    requires
        0 <= pos <= encode_utf8(text).len(),
        is_char_boundary(encode_utf8(text), pos),
    ensures
        piece(text, 0, pos) + covered(text, lex_from(text, pos, stack)) == text,
        pos < encode_utf8(text).len() ==> lex_from(text, pos, stack).len() > 0,
        forall|i: int|
            0 <= i < lex_from(text, pos, stack).len() ==> lexeme_sound(
                text,
                #[trigger] lex_from(text, pos, stack)[i],
            ),
    decreases encode_utf8(text).len() - pos,
{
    let bytes = encode_utf8(text);
    encode_utf8_valid_utf8(text);
    if pos >= bytes.len() {
        assert(bytes.subrange(0, pos) =~= bytes);
        encode_utf8_decode_utf8(text);
        assert(covered(text, Seq::<Lexeme>::empty()) =~= Seq::<char>::empty()) by {
            let f = |l: Lexeme| token_of(text, l);
            let g = |t: (TokenKind, Seq<char>)| t.1;
            assert(Seq::<Lexeme>::empty().map_values(f).map_values(g) =~= Seq::<
                Seq<char>,
            >::empty());
        }
        assert(piece(text, 0, pos) + Seq::<char>::empty() =~= text);
    } else {
        let st = step(text, pos, top(stack));
        lemma_step(text, pos, top(stack));
        let rest = lex_from(text, st.lexeme.end, apply(stack, st.action));
        lemma_lex_covers(text, st.lexeme.end, apply(stack, st.action));
        lemma_step_covers(text, pos, st);
        lemma_covered_concat(text, step_lexemes(st), rest);
        assert(piece(text, 0, pos) + (covered(text, step_lexemes(st)) + covered(text, rest))
            =~= (piece(text, 0, pos) + covered(text, step_lexemes(st))) + covered(text, rest));
    }
}

/// A rule's index with the span that it matches, as the tokenizer holds it.
#[derive(Clone, Copy)]
pub struct Match {
    pub rule: usize,
    pub start: usize,
    pub end: usize,
}

impl View for Match {
    type V = Choice;

    open spec fn view(&self) -> Choice {
        Choice { rule: self.rule as int, start: self.start as int, end: self.end as int }
    }
}

/// The view of a match that may be missing.
pub open spec fn choice_of(m: Option<Match>) -> Option<Choice> {
    match m {
        Some(m) => Some(m@),
        None => None,
    }
}

/// Searches for one rule's pattern from the cursor on and keeps the span if
/// it can become a token.
fn find_span(rule: &Rule, input: &str, pos: usize) -> (r: Option<(usize, usize)>)
    requires
        pos <= input.spec_bytes().len(),
        is_char_boundary(input.spec_bytes(), pos as int),
    ensures
        match r {
            Some((start, end)) => span_of(rule@, input@, pos as int) == Some(
                (start as int, end as int),
            ),
            None => span_of(rule@, input@, pos as int) is None,
        },
{
    match find_from(&rule.pattern, input, pos) {
        Found::Span(start, end) => {
            if pos <= start && start < end && end <= byte_len(input) && input.is_char_boundary(start)
                && input.is_char_boundary(end) {
                Some((start, end))
            } else {
                None
            }
        },
        _ => None,
    }
}

/// The rule whose match starts first.
fn earliest_match(rules: &ContextRules, input: &str, pos: usize) -> (r: Option<Match>)
    requires
        pos <= input.spec_bytes().len(),
        is_char_boundary(input.spec_bytes(), pos as int),
    ensures
        choice_of(r) == earliest(rules.specs(), input@, pos as int, rules.rules@.len() as int),
{
    let mut best: Option<Match> = None;
    let mut i: usize = 0;
    while i < rules.rules.len()
        invariant
            i <= rules.rules@.len(),
            pos <= input.spec_bytes().len(),
            is_char_boundary(input.spec_bytes(), pos as int),
            choice_of(best) == earliest(rules.specs(), input@, pos as int, i as int),
        decreases rules.rules.len() - i,
    {
        if let Some((start, end)) = find_span(&rules.rules[i], input, pos) {
            let keep = match best {
                Some(b) => b.start <= start,
                None => false,
            };
            if !keep {
                best = Some(Match { rule: i, start, end });
            }
        }
        i += 1;
    }
    best
}

/// The rule whose match at the cursor ends last.
fn longest_match(rules: &ContextRules, input: &str, pos: usize) -> (r: Option<Match>)
    requires
        pos <= input.spec_bytes().len(),
        is_char_boundary(input.spec_bytes(), pos as int),
    ensures
        choice_of(r) == longest(rules.specs(), input@, pos as int, rules.rules@.len() as int),
{
    let mut best: Option<Match> = None;
    let mut i: usize = 0;
    while i < rules.rules.len()
        invariant
            i <= rules.rules@.len(),
            pos <= input.spec_bytes().len(),
            is_char_boundary(input.spec_bytes(), pos as int),
            choice_of(best) == longest(rules.specs(), input@, pos as int, i as int),
        decreases rules.rules.len() - i,
    {
        if let Some((start, end)) = find_span(&rules.rules[i], input, pos) {
            let keep = start != pos || match best {
                Some(b) => b.end >= end,
                None => false,
            };
            if !keep {
                best = Some(Match { rule: i, start, end });
            }
        }
        i += 1;
    }
    best
}

/// The end of the character that starts at `pos`.
fn next_boundary(input: &str, pos: usize) -> (r: usize)
    requires
        pos < input.spec_bytes().len(),
    ensures
        r as int == boundary_from(input.spec_bytes(), pos + 1),
        pos < r <= input.spec_bytes().len(),
        is_char_boundary(input.spec_bytes(), r as int),
{
    let len = byte_len(input);
    let mut k: usize = pos + 1;
    proof {
        encode_utf8_valid_utf8(input@);
        lemma_boundary_from(input.spec_bytes(), pos + 1);
    }
    while k < len && !input.is_char_boundary(k)
        invariant
            len == input.spec_bytes().len(),
            valid_utf8(input.spec_bytes()),
            pos < k <= len,
            boundary_from(input.spec_bytes(), pos + 1) == boundary_from(
                input.spec_bytes(),
                k as int,
            ),
        decreases input.spec_bytes().len() - k,
    {
        k += 1;
    }
    proof {
        is_char_boundary_start_end_of_seq(input.spec_bytes());
    }
    k
}

/// Tokenizes `input` with a rule table that holds the tokenizer's rules.
pub fn tokenize_with(table: &RuleTable, input: &str) -> (tokens: Vec<Token>)
    requires
        table.wf(),
    ensures
        token_views(tokens@) == tokens_of(input@),
{
    let mut stack: Vec<Context> = Vec::new();
    stack.push(Context::Root);
    let len = byte_len(input);
    let mut pos: usize = 0;
    let mut tokens: Vec<Token> = Vec::new();
    let ghost mut done: Seq<Lexeme> = Seq::empty();
    proof {
        encode_utf8_valid_utf8(input@);
        is_char_boundary_start_end_of_seq(input.spec_bytes());
        assert(token_views(tokens@) =~= tokens_at(input@, done));
    }
    while pos < len
        invariant
            table.wf(),
            len == input.spec_bytes().len(),
            valid_utf8(input.spec_bytes()),
            pos <= len,
            is_char_boundary(input.spec_bytes(), pos as int),
            stack@.len() >= 1,
            stack@[0] == Context::Root,
            forall|i: int| 1 <= i < stack@.len() ==> stack@[i] != Context::Root,
            lexemes(input@) == done + lex_from(input@, pos as int, stack@),
            token_views(tokens@) == tokens_at(input@, done),
        decreases input.spec_bytes().len() - pos,
    {
        let context = stack[stack.len() - 1];
        let ghost st = step(input@, pos as int, context);
        let ghost old_stack = stack@;
        let ghost before = tokens@;
        let ghost done_before = done;
        proof {
            lemma_step(input@, pos as int, context);
            is_char_boundary_start_end_of_seq(input.spec_bytes());
            assert(top(stack@) == context);
        }
        let rules = match context {
            Context::Root => &table.root,
            Context::Raw => &table.raw,
            Context::Comment => &table.comment,
            Context::Block => &table.block,
            Context::Variable => &table.variable,
        };
        assert(*rules == table.of(context));
        proof {
            lemma_earliest(rules_of(context), input@, pos as int, rules_of(context).len() as int);
            lemma_longest(rules_of(context), input@, pos as int, rules_of(context).len() as int);
        }
        let (end, action) = match rules.policy {
            MatchType::Search(default) => match earliest_match(rules, input, pos) {
                Some(m) => {
                    if m.start != pos {
                        tokens.push(process_token(default, substring(input, pos, m.start)));
                    }
                    tokens.push(
                        process_token(rules.rules[m.rule].kind, substring(input, m.start, m.end)),
                    );
                    (m.end, rules.rules[m.rule].action)
                },
                None => {
                    tokens.push(process_token(default, substring(input, pos, len)));
                    (len, None)
                },
            },
            MatchType::MatchFromStart => match longest_match(rules, input, pos) {
                Some(m) => {
                    tokens.push(
                        process_token(rules.rules[m.rule].kind, substring(input, pos, m.end)),
                    );
                    (m.end, rules.rules[m.rule].action)
                },
                None => {
                    let end = next_boundary(input, pos);
                    tokens.push(process_token(TokenKind::Error, substring(input, pos, end)));
                    (end, None)
                },
            },
        };
        proof {
            assert(end as int == st.lexeme.end);
            assert(action == st.action);
            done = done + step_lexemes(st);
            assert(lex_from(input@, pos as int, stack@) == step_lexemes(st) + lex_from(
                input@,
                st.lexeme.end,
                apply(stack@, st.action),
            ));
            assert(tokens_at(input@, done_before).len() == done_before.len());
            assert forall|i: int| 0 <= i < tokens@.len() implies token_views(tokens@)[i]
                == tokens_at(input@, done)[i] by {
                if i < before.len() {
                    assert(token_views(before)[i] == tokens_at(input@, done_before)[i]);
                    assert(done[i] == done_before[i]);
                } else {
                    assert(done[i] == step_lexemes(st)[i - before.len()]);
                }
            }
            assert(token_views(tokens@) =~= tokens_at(input@, done));
        }
        match action {
            Some(Action::AddContext(next)) => {
                stack.push(next);
            },
            Some(Action::PopContext) => {
                stack.pop();
            },
            None => {},
        }
        assert(stack@ =~= apply(old_stack, st.action));
        pos = end;
    }
    proof {
        assert(lex_from(input@, pos as int, stack@) =~= Seq::<Lexeme>::empty());
        assert(done + Seq::<Lexeme>::empty() =~= done);
    }
    tokens
}

/// The kinds of a sequence of tokens.
pub open spec fn kinds(tokens: Seq<(TokenKind, Seq<char>)>) -> Seq<TokenKind> {
    tokens.map_values(|t: (TokenKind, Seq<char>)| t.0)
}

/// The texts of the tokens of a text, put together, are the text.
pub proof fn lemma_tokens_round_trip(text: Seq<char>)
    ensures
        texts(tokens_of(text)).flatten() == text,
{
    encode_utf8_valid_utf8(text);
    is_char_boundary_start_end_of_seq(encode_utf8(text));
    lemma_lex_covers(text, 0, seq![Context::Root]);
    assert(encode_utf8(text).subrange(0, 0) =~= Seq::<u8>::empty());
    assert(piece(text, 0, 0) + covered(text, lexemes(text)) =~= covered(text, lexemes(text)));
}

/// No token of a text is empty, and a text that is not empty has a token.
pub proof fn lemma_tokens_not_empty(text: Seq<char>)
    ensures
        forall|i: int| 0 <= i < tokens_of(text).len() ==> (#[trigger] tokens_of(text)[i]).1.len() > 0,
        text.len() > 0 ==> tokens_of(text).len() > 0,
{
    let bytes = encode_utf8(text);
    encode_utf8_valid_utf8(text);
    is_char_boundary_start_end_of_seq(bytes);
    lemma_lex_covers(text, 0, seq![Context::Root]);
    assert forall|i: int| 0 <= i < tokens_of(text).len() implies (#[trigger] tokens_of(
        text,
    )[i]).1.len() > 0 by {
        let l = lexemes(text)[i];
        assert(lexeme_sound(text, l));
        lemma_piece_not_empty(bytes, l.start, l.end);
    }
    if text.len() > 0 {
        encode_utf8_decode_utf8(text);
        assert(bytes.len() > 0);
    }
}

/// Tokenizing the texts of a text's tokens, put together, gives the same
/// tokens again, and so the same kinds.
pub proof fn lemma_kind_stability(text: Seq<char>)
    ensures
        tokens_of(texts(tokens_of(text)).flatten()) == tokens_of(text),
        kinds(tokens_of(texts(tokens_of(text)).flatten())) == kinds(tokens_of(text)),
{
    lemma_tokens_round_trip(text);
}

/// Tokenizes `input`. The tokens are those that the rules give. Only where
/// the expression engine refuses one of the patterns is the input handed
/// back whole, as one token of kind `Error`.
pub fn tokenize(input: &str) -> (tokens: Vec<Token>)
    ensures
        token_views(tokens@) == if refused(table_rules()) is None {
            tokens_of(input@)
        } else {
            unlexed(input@)
        },
        texts(token_views(tokens@)).flatten() == input@,
        forall|i: int| 0 <= i < tokens@.len() ==> (#[trigger] tokens@[i]).text@.len() > 0,
        input@.len() > 0 ==> tokens@.len() > 0,
{
    let tokens = match RuleTable::new() {
        Ok(table) => tokenize_with(&table, input),
        Err(_) => {
            let mut tokens: Vec<Token> = Vec::new();
            if byte_len(input) > 0 {
                tokens.push(process_token(TokenKind::Error, input));
            }
            proof {
                if input@.len() == 0 {
                    assert(encode_utf8(input@).len() == 0);
                } else {
                    encode_utf8_decode_utf8(input@);
                }
                assert(token_views(tokens@) =~= unlexed(input@));
            }
            tokens
        },
    };
    proof {
        let views = token_views(tokens@);
        if views == tokens_of(input@) {
            lemma_tokens_round_trip(input@);
            lemma_tokens_not_empty(input@);
        } else {
            if input@.len() > 0 {
                assert(texts(views) =~= seq![input@]);
                texts(views).lemma_flatten_one_element();
            } else {
                assert(texts(views) =~= Seq::<Seq<char>>::empty());
            }
        }
        assert(views.len() == tokens@.len());
        assert forall|i: int| 0 <= i < tokens@.len() implies (#[trigger] tokens@[i]).text@.len()
            > 0 by {
            assert(views[i] == tokens@[i]@);
        }
    }
    tokens
}

} // verus!
