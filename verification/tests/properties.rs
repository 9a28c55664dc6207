use dbt_jinja_parser::cst::{get_child_of_kind, text, TraverseOrder};
use dbt_jinja_parser::lexer::{tokenize, tokenize_with, Token};
use dbt_jinja_parser::rules::RuleTable;
use dbt_jinja_parser::syntax::{SyntaxKind, TokenKind};
use dbt_jinja_parser::template::{parse, parse_text};
use rowan::{GreenNode, GreenNodeData, NodeOrToken};

const INPUTS: [&str; 14] = [
    "",
    "plain text",
    "{{ 1,2, 3}} test",
    "{{ foo.0.0 ",
    "{% for i in 1, 2 %} {{ i }} {% endfor %}",
    "{% for assign in expr %} blah {% endfor %} {% else %}",
    "{{ call(arg1, **kwargs, *args, kwarg=kw, arg2, arg3) ",
    "{% raw %}raw data{% endraw %}",
    "{# a comment #}{{ x | upper }}{% set y = [1, {'a': 2}] %}",
    "{{{{)",
    "={{,",
    "{{ blah [::a b c] }}",
    "{{ \u{e9}t\u{e9} ~ '\u{4e2d}\u{6587}' }} \u{1f600} {% if \u{3b1} %}\u{3b2}{% endif %}",
    "{{ 1 $ 2 }}",
];

fn kinds(tokens: &[Token]) -> Vec<TokenKind> {
    tokens.iter().map(|t| t.kind).collect()
}

fn joined(tokens: &[Token]) -> String {
    tokens.iter().map(|t| t.text.as_str()).collect()
}

#[test]
fn test_tokens_round_trip() {
    for input in INPUTS {
        let tokens = tokenize(input);
        assert_eq!(joined(&tokens), input);
        assert!(tokens.iter().all(|t| !t.text.is_empty()));
        assert_eq!(tokens.is_empty(), input.is_empty());
    }
}

#[test]
fn test_kind_stability() {
    for input in INPUTS {
        let tokens = tokenize(input);
        let again = tokenize(&joined(&tokens));
        assert_eq!(kinds(&again), kinds(&tokens));
    }
}

#[test]
fn test_tokenize_with_table_is_tokenize() {
    let table = RuleTable::new().expect("the patterns compile");
    for input in INPUTS {
        let with = tokenize_with(&table, input);
        let plain = tokenize(input);
        assert_eq!(kinds(&with), kinds(&plain));
        assert_eq!(joined(&with), joined(&plain));
    }
}

#[test]
fn test_tree_round_trip() {
    for input in INPUTS {
        let parsed = parse(tokenize(input));
        assert_eq!(text(&parsed.green()), input);
    }
}

fn leaf_kinds(node: &GreenNodeData, out: &mut Vec<u16>) {
    for child in node.children() {
        match child {
            NodeOrToken::Node(n) => leaf_kinds(n, out),
            NodeOrToken::Token(t) => out.push(t.kind().0),
        }
    }
}

#[test]
fn test_leaves_hold_the_tokens() {
    for input in INPUTS {
        let tokens = tokenize(input);
        let expected: Vec<TokenKind> = kinds(&tokens);
        let parsed = parse(tokens);
        let mut found = Vec::new();
        leaf_kinds(&parsed.green(), &mut found);
        assert_eq!(found.len(), expected.len());
        for (raw, kind) in found.iter().zip(expected.iter()) {
            let same = *raw == SyntaxKind::from(*kind).raw();
            let error = *raw == SyntaxKind::Error.raw();
            assert!(same || error);
        }
    }
}

#[test]
fn test_idempotent_reparse() {
    for input in INPUTS {
        let first = parse(tokenize(input));
        let second = parse(tokenize(&text(&first.green())));
        assert_eq!(first.green(), second.green());
        assert_eq!(first.errors(), second.errors());
    }
}

fn check_widths(node: &GreenNodeData) {
    let mut sum: u32 = 0;
    for child in node.children() {
        match child {
            NodeOrToken::Node(n) => {
                check_widths(n);
                sum += u32::from(n.text_len());
            }
            NodeOrToken::Token(t) => {
                assert_eq!(u32::from(t.text_len()) as usize, t.text().len());
                sum += u32::from(t.text_len());
            }
        }
    }
    assert_eq!(u32::from(node.text_len()), sum);
}

#[test]
fn test_widths_add_up() {
    for input in INPUTS {
        let parsed = parse(tokenize(input));
        let green = parsed.green();
        check_widths(&green);
        assert_eq!(u32::from(green.text_len()) as usize, input.len());
        assert_eq!(green.kind().0, SyntaxKind::Template.raw());
    }
}

fn first_and_last(node: &GreenNodeData) -> (Option<u16>, Option<u16>) {
    let first = node.children().next().map(|c| c.kind().0);
    let last = node.children().last().map(|c| c.kind().0);
    (first, last)
}

fn check_brackets(node: &GreenNodeData, closed: &mut usize) {
    let kind = SyntaxKind::from_raw(node.kind().0).expect("a kind of the catalog");
    let (first, last) = first_and_last(node);
    if kind == SyntaxKind::Variable {
        assert_eq!(first, Some(SyntaxKind::VariableBegin.raw()));
        if last == Some(SyntaxKind::VariableEnd.raw()) {
            *closed += 1;
        }
    }
    if first == Some(SyntaxKind::BlockBegin.raw()) && last == Some(SyntaxKind::BlockEnd.raw()) {
        *closed += 1;
    }
    for child in node.children() {
        if let NodeOrToken::Node(n) = child {
            check_brackets(n, closed);
        }
    }
}

fn count(tokens: &[Token], kind: TokenKind) -> usize {
    tokens.iter().filter(|t| t.kind == kind).count()
}

#[test]
fn test_context_balance() {
    for input in INPUTS {
        let tokens = tokenize(input);
        let closing = count(&tokens, TokenKind::VariableEnd) + count(&tokens, TokenKind::BlockEnd);
        let parsed = parse(tokens);
        let mut closed = 0;
        check_brackets(&parsed.green(), &mut closed);
        assert_eq!(closed, closing);
    }
}

#[test]
fn test_parse_text_round_trip() {
    for input in INPUTS {
        let parsed = parse_text(input).expect("the text fits a tree");
        assert_eq!(text(&parsed.green()), input);
        let direct = parse(tokenize(input));
        assert_eq!(parsed.green(), direct.green());
        assert_eq!(parsed.errors(), direct.errors());
    }
}

#[test]
fn test_error_token_for_unknown_character() {
    let tokens = tokenize("{{ 1 $ 2 }}");
    assert_eq!(
        kinds(&tokens),
        vec![
            TokenKind::VariableBegin,
            TokenKind::Whitespace,
            TokenKind::IntegerLiteral,
            TokenKind::Whitespace,
            TokenKind::Error,
            TokenKind::Whitespace,
            TokenKind::IntegerLiteral,
            TokenKind::Whitespace,
            TokenKind::VariableEnd,
        ]
    );
    assert_eq!(tokens[4].text, "$");
}

#[test]
fn test_whitespace_control_markers() {
    let tokens = tokenize("a {%- if x -%} b {{- y +}} c {#- z -#}");
    let texts: Vec<&str> = tokens.iter().map(|t| t.text.as_str()).collect();
    assert_eq!(
        texts,
        vec![
            "a ", "{%-", " ", "if", " ", "x", " ", "-%}", " b ", "{{-", " ", "y", " ", "+}}", " c ",
            "{#-", " z ", "-#}"
        ]
    );
    assert_eq!(tokens[7].kind, TokenKind::BlockEnd);
    assert_eq!(tokens[13].kind, TokenKind::VariableEnd);
    assert_eq!(tokens[16].kind, TokenKind::CommentData);
    assert_eq!(tokens[17].kind, TokenKind::CommentEnd);
}

#[test]
fn test_operators_longest_first() {
    let tokens = tokenize("{{ a**b//c<=d!=e }}");
    assert_eq!(
        kinds(&tokens),
        vec![
            TokenKind::VariableBegin,
            TokenKind::Whitespace,
            TokenKind::Name,
            TokenKind::Power,
            TokenKind::Name,
            TokenKind::FloorDiv,
            TokenKind::Name,
            TokenKind::LessThanEqual,
            TokenKind::Name,
            TokenKind::NotEqual,
            TokenKind::Name,
            TokenKind::Whitespace,
            TokenKind::VariableEnd,
        ]
    );
}

fn child(node: &GreenNode, kind: SyntaxKind, order: TraverseOrder) -> GreenNode {
    get_child_of_kind(node, kind, order).expect("a child of the kind")
}

#[test]
fn test_get_child_of_kind() {
    let parsed = parse(tokenize("{{ a }}x{{ b }}{# c #}"));
    let root = parsed.green();
    let first = child(&root, SyntaxKind::Variable, TraverseOrder::Forward);
    let last = child(&root, SyntaxKind::Variable, TraverseOrder::Backward);
    assert_eq!(text(&first), "{{ a }}");
    assert_eq!(text(&last), "{{ b }}");
    let comment = child(&root, SyntaxKind::Comment, TraverseOrder::Backward);
    assert_eq!(text(&comment), "{# c #}");
    assert!(get_child_of_kind(&root, SyntaxKind::StmtFor, TraverseOrder::Forward).is_none());
    // a leaf is no child node, whatever its kind
    assert!(get_child_of_kind(&first, SyntaxKind::VariableBegin, TraverseOrder::Forward).is_none());
    let name = child(&first, SyntaxKind::ExprName, TraverseOrder::Forward);
    assert_eq!(text(&name), "a");
}
