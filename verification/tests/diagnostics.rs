use dbt_jinja_parser::cst::text;
use dbt_jinja_parser::lexer::{tokenize, Token};
use dbt_jinja_parser::syntax::TokenKind;
use dbt_jinja_parser::template::parse;

fn errors_of(input: &str) -> Vec<String> {
    let parsed = parse(tokenize(input));
    assert_eq!(text(&parsed.green()), input);
    parsed.errors().clone()
}

fn has(errors: &[String], message: &str) -> bool {
    errors.iter().any(|e| e == message)
}

#[test]
fn test_colon_without_block_end() {
    let errors = errors_of("{% do x :");
    assert_eq!(errors, vec!["expected '%}', but found EOF".to_string()]);
}

#[test]
fn test_dict_key_at_end_of_input() {
    let errors = errors_of("{{ {a");
    assert_eq!(
        errors,
        vec![
            "expected ':', but found EOF".to_string(),
            "incomplete variable, expected \"}}\"".to_string(),
        ]
    );
}

#[test]
fn test_adapter_without_value() {
    let errors = errors_of("{% materialization m, adapter %}");
    assert_eq!(
        errors[0],
        "expected '= <adapter>' after adapter specification in custom materialization, but found end of context"
    );
}

#[test]
fn test_materialization_cut_after_comma() {
    let at_end = errors_of("{% materialization m,");
    assert_eq!(
        at_end[0],
        "expected adapter specification for custom materialization but found EOF"
    );
    let closed = errors_of("{% materialization m, %}");
    assert_eq!(
        closed[0],
        "expected adapter specification for custom materialization but found end of context"
    );
}

#[test]
fn test_for_cut_short() {
    let at_end = errors_of("{% for a");
    assert_eq!(at_end[0], "expected \"in\" for for-loop, but found EOF");
    let closed = errors_of("{% for a %}");
    assert_eq!(closed[0], "expected \"in\" for for-loop, but found end of context");
}

#[test]
fn test_for_with_literal_in_place_of_in() {
    let errors = errors_of("{% for a 1 %}");
    assert_eq!(
        errors[0],
        "expected name \"in\" for for-loop, but found unexpected \"IntegerLiteral\""
    );
}

#[test]
fn test_namespace_ref_without_first_name() {
    let errors = errors_of("{% set 1.x = 2 %}");
    assert_eq!(
        errors[0],
        "expected name for 1st part of namespace ref, but found IntegerLiteral"
    );
}

#[test]
fn test_namespace_ref_at_bracket_end() {
    let tokens = vec![
        Token { kind: TokenKind::BlockBegin, text: "{%".to_string() },
        Token { kind: TokenKind::Name, text: "set".to_string() },
        Token { kind: TokenKind::BlockEnd, text: "%}".to_string() },
        Token { kind: TokenKind::Dot, text: ".".to_string() },
    ];
    let parsed = parse(tokens);
    assert_eq!(text(&parsed.green()), "{%set%}.");
    assert_eq!(
        parsed.errors()[0],
        "expected name for 1st part of namespace ref, but found end of context"
    );
}

#[test]
fn test_namespace_ref_without_second_name() {
    let errors = errors_of("{% set ns.1 = 2 %}");
    assert_eq!(
        errors[0],
        "expected name for 2nd part of namespace ref, but found Some(IntegerLiteral)"
    );
    let closed = errors_of("{% set ns.%}");
    assert_eq!(
        closed[0],
        "expected name for 2nd part of namespace ref, but found end of context"
    );
}

#[test]
fn test_signature_cut_short() {
    let at_end = errors_of("{% macro m(");
    assert!(has(&at_end, "found EOF while parsing signature"));
    let closed = errors_of("{% macro m(%}");
    assert!(has(&closed, "found end of context while parsing signature"));
}

#[test]
fn test_signature_without_name() {
    let errors = errors_of("{% macro m( %}");
    assert_eq!(
        errors,
        vec![
            "expected name for assign target, but found end of context".to_string(),
            "expected ',' or ')', not end of context".to_string(),
            "expected tag Macro to be closed".to_string(),
        ]
    );
}

#[test]
fn test_quoted_text_in_diagnostics() {
    let errors = errors_of("{% \u{e9}t\u{e9} %}");
    assert_eq!(errors[0], "found unknown tag \"\u{e9}t\u{e9}\"");
}
