use dbt_jinja_parser::lexer::{tokenize, Token};
use dbt_jinja_parser::patterns::{
    BLOCK_END_PATTERN, BLOCK_START_PATTERN, COMMENT_END_PATTERN, COMMENT_START_PATTERN,
    FLOAT_PATTERN, INTEGER_PATTERN, NAME_PATTERN, OPERATOR_PATTERN, RAW_END_PATTERN,
    RAW_START_PATTERN, STRING_PATTERN, UNKNOWN_PATTERN, VARIABLE_END_PATTERN,
    VARIABLE_START_PATTERN, WHITESPACE_PATTERN,
};
use dbt_jinja_parser::rules::{Action, Context, MatchType, Rule, RuleTable};
use dbt_jinja_parser::syntax::TokenKind;
use dbt_jinja_parser::syntax::TokenKind::{
    Assign, BlockBegin, BlockEnd, Colon, Comma, CommentData, Data, Dot, FloatLiteral, IntegerLiteral,
    LeftBrace, LeftParen, Multiply, Name, RawBegin, RawEnd, RightBrace, RightParen,
    StringLiteral, Tilde, VariableBegin, VariableEnd, Whitespace,
};
use fancy_regex::Regex;

fn re_bounds(pattern: &str, input: &str, from: usize) -> Option<(usize, usize)> {
    Regex::new(pattern)
        .unwrap()
        .find_from_pos(input, from)
        .unwrap()
        .map(|m| (m.start(), m.end()))
}

#[test]
fn test_float_regex() {
    // regular floats
    assert_eq!(re_bounds(FLOAT_PATTERN, "1.2", 0), Some((0, 3)));
    assert_eq!(re_bounds(FLOAT_PATTERN, "3_4.5_6", 0), Some((0, 7)));
    assert_eq!(re_bounds(FLOAT_PATTERN, "30_4.50_6e-7_80_9", 0), Some((0, 17)));

    // need leading zero
    assert_eq!(re_bounds(FLOAT_PATTERN, ".1", 0), None);
    assert_eq!(re_bounds(FLOAT_PATTERN, "0.1", 0), Some((0, 3)));

    // tuple ("foo.0.0") evaluation skip
    assert_eq!(re_bounds(FLOAT_PATTERN, ".0.2", 0), None);
    assert_eq!(re_bounds(FLOAT_PATTERN, ".0.2", 1), None);

    // weird padding cases
    assert_eq!(re_bounds(FLOAT_PATTERN, " 0.2", 1), Some((1, 4)));
    assert_eq!(re_bounds(FLOAT_PATTERN, "0_0.2", 0), Some((0, 5)));
    assert_eq!(re_bounds(FLOAT_PATTERN, "0__0.2", 0), Some((3, 6)));
    assert_eq!(re_bounds(FLOAT_PATTERN, "0.2 test", 0), Some((0, 3)));
}

#[test]
fn test_raw_start_regex_search() {
    assert_eq!(re_bounds(RAW_START_PATTERN, "{% raw %}", 0), Some((0, 9)));
    assert_eq!(re_bounds(RAW_START_PATTERN, "{%- raw %}", 0), Some((0, 10)));
    assert_eq!(re_bounds(RAW_START_PATTERN, "{%+ raw %}", 0), Some((0, 10)));
    assert_eq!(re_bounds(RAW_START_PATTERN, "{% raw -%}", 0), Some((0, 10)));
    assert_eq!(re_bounds(RAW_START_PATTERN, "{% raw +%}", 0), None);
    assert_eq!(
        re_bounds(RAW_START_PATTERN, "{% \n raw \n %}", 0),
        Some((0, 13))
    );
    assert_eq!(
        re_bounds(RAW_START_PATTERN, "blank {% raw %}", 0),
        Some((6, 15))
    );
}

#[test]
fn test_raw_end_regex() {
    assert_eq!(
        re_bounds(RAW_END_PATTERN, "{% \n endraw \n %}", 0),
        Some((0, 16))
    );
    assert_eq!(
        re_bounds(RAW_END_PATTERN, "blank {%+ endraw -%}", 0),
        Some((6, 20))
    );
}

#[test]
fn test_rules_by_context_complete() {
    let table = RuleTable::new().expect("the patterns compile");
    Context::VALUES.iter().for_each(|c| {
        table
            .get(*c)
            .expect(&format!("Failed to find rules for context {:?}", c));
    })
}

#[test]
fn test_rule_table_layout() {
    let table = RuleTable::new().expect("the patterns compile");
    assert_eq!(table.root.policy, MatchType::Search(Data));
    assert_eq!(table.raw.policy, MatchType::Search(Data));
    assert_eq!(table.comment.policy, MatchType::Search(CommentData));
    assert_eq!(table.block.policy, MatchType::MatchFromStart);
    assert_eq!(table.variable.policy, MatchType::MatchFromStart);
    let sources = |rules: &[Rule]| -> Vec<String> {
        rules.iter().map(|r| r.pattern.as_str().to_string()).collect()
    };
    assert_eq!(
        sources(&table.root.rules),
        vec![
            RAW_START_PATTERN,
            COMMENT_START_PATTERN,
            BLOCK_START_PATTERN,
            VARIABLE_START_PATTERN
        ]
    );
    assert_eq!(sources(&table.raw.rules), vec![RAW_END_PATTERN]);
    assert_eq!(sources(&table.comment.rules), vec![COMMENT_END_PATTERN]);
    assert_eq!(
        sources(&table.block.rules),
        vec![
            BLOCK_END_PATTERN,
            WHITESPACE_PATTERN,
            FLOAT_PATTERN,
            INTEGER_PATTERN,
            NAME_PATTERN,
            STRING_PATTERN,
            OPERATOR_PATTERN,
            UNKNOWN_PATTERN
        ]
    );
    assert_eq!(table.variable.rules.len(), 8);
    assert_eq!(table.variable.rules[0].pattern.as_str(), VARIABLE_END_PATTERN);
    assert_eq!(table.variable.rules[0].kind, VariableEnd);
    assert_eq!(table.variable.rules[0].action, Some(Action::PopContext));
    assert_eq!(
        table.root.rules[0].action,
        Some(Action::AddContext(Context::Raw))
    );
}

struct TokenizeTestCase {
    input: &'static str,
    tokens: Vec<TokenKind>,
}

fn filter_important_tokens(tokens: Vec<Token>) -> Vec<TokenKind> {
    tokens
        .into_iter()
        .filter_map(|t| match t.kind {
            Whitespace => None,
            _ => Some(t.kind),
        })
        .collect()
}

#[test]
fn test_tokenize() {
    let test_cases = [
        TokenizeTestCase {
            input: "{%+\n set something = 1 * 2 %}\n{{ something }}",
            tokens: Vec::from([
                BlockBegin,
                Name,
                Name,
                Assign,
                IntegerLiteral,
                Multiply,
                IntegerLiteral,
                BlockEnd,
                Data,
                VariableBegin,
                Name,
                VariableEnd,
            ]),
        },
        TokenizeTestCase {
            input: "{% raw %}\n{{ something }}",
            tokens: Vec::from([RawBegin, Data]),
        },
        TokenizeTestCase {
            input: "{% raw %}\n{{ something }} {% endraw %}",
            tokens: Vec::from([RawBegin, Data, RawEnd]),
        },
        TokenizeTestCase {
            input: "{% ( %} {% ) %}",
            tokens: Vec::from([
                BlockBegin, LeftParen, BlockEnd, Data, BlockBegin, RightParen, BlockEnd,
            ]),
        },
        TokenizeTestCase {
            input: "{{ 000if 111if 222if else else 333}}",
            // the longest match wins: a name may start with digits
            tokens: Vec::from([
                VariableBegin,
                Name,
                Name,
                Name,
                Name,
                Name,
                IntegerLiteral,
                VariableEnd,
            ]),
        },
        TokenizeTestCase {
            input: "{% { %} {% } %}",
            tokens: Vec::from([
                BlockBegin, LeftBrace, BlockEnd, Data, BlockBegin, RightBrace, BlockEnd,
            ]),
        },
        TokenizeTestCase {
            input: "{{ foo.0.0 ",
            tokens: Vec::from([
                VariableBegin,
                Name,
                Dot,
                IntegerLiteral,
                Dot,
                IntegerLiteral,
            ]),
        },
        TokenizeTestCase {
            input: "{{ 'test' ~ something ",
            tokens: Vec::from([VariableBegin, StringLiteral, Tilde, Name]),
        },
        TokenizeTestCase {
            input: r#"{{
                    config(
                        materialized="table",
                        meta={
                            "something": 1.0, 
                        }
                    ) 
                }}"#,
            tokens: Vec::from([
                VariableBegin,
                Name,
                LeftParen,
                Name,
                Assign,
                StringLiteral,
                Comma,
                Name,
                Assign,
                LeftBrace,
                StringLiteral,
                Colon,
                FloatLiteral,
                Comma,
                RightBrace,
                RightParen,
                VariableEnd,
            ]),
        },
    ];
    for test_case in test_cases {
        let tokens = tokenize(test_case.input);
        assert_eq!(
            tokens
                .iter()
                .map(|tok| tok.text.clone())
                .collect::<Vec<_>>()
                .join(""),
            test_case.input
        );
        assert_eq!(filter_important_tokens(tokens), test_case.tokens);
    }
}
