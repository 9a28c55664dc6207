use dbt_jinja_parser::macros::{build_args_snippet, builtin_macros, decimal};
use dbt_jinja_parser::parser::Tag;
use dbt_jinja_parser::position_finder::PositionFinder;
use dbt_jinja_parser::project_spec::{default_macro_paths, default_model_paths, DbtProjectSpec};
use dbt_jinja_parser::syntax::{
    operator_kind, operators, SyntaxKind, TokenKind, OPERATOR_COUNT, SYNTAX_KIND_COUNT,
};
use dbt_jinja_parser::template::{keyword, Keyword};
use dbt_jinja_parser::lexer::{process_token, Token};

#[test]
fn test_raw_kinds_round_trip() {
    for raw in 0..SYNTAX_KIND_COUNT {
        let kind = SyntaxKind::from_raw(raw).expect("a kind below the count");
        assert_eq!(kind.raw(), raw);
    }
    assert_eq!(SyntaxKind::from_raw(SYNTAX_KIND_COUNT), None);
    assert_eq!(SyntaxKind::from_raw(u16::MAX), None);
    assert_eq!(SyntaxKind::Power.raw(), 0);
    assert_eq!(SyntaxKind::Template.raw(), 43);
    assert_eq!(SyntaxKind::NameOperatorElse.raw(), SYNTAX_KIND_COUNT - 1);
}

#[test]
fn test_token_kinds_are_syntax_kinds() {
    for (_, kind) in operators() {
        let syntax = SyntaxKind::from(kind);
        assert_eq!(syntax.as_token(), Some(kind));
        assert_eq!(syntax.name(), kind.name());
    }
    assert_eq!(SyntaxKind::from(TokenKind::Data), SyntaxKind::Data);
    assert_eq!(SyntaxKind::Template.as_token(), None);
    assert_eq!(SyntaxKind::ExprAdd.name(), "ExprAdd");
}

#[test]
fn test_operator_table() {
    let table = operators();
    assert_eq!(table.len(), OPERATOR_COUNT);
    for window in table.windows(2) {
        assert!(window[0].0.len() >= window[1].0.len());
    }
    for (spelling, kind) in table {
        assert_eq!(operator_kind(spelling), Some(kind));
        assert_eq!(kind.spelling(), Some(spelling));
    }
    assert_eq!(operator_kind("**"), Some(TokenKind::Power));
    assert_eq!(operator_kind("//"), Some(TokenKind::FloorDiv));
    assert_eq!(operator_kind("~"), Some(TokenKind::Tilde));
    assert_eq!(operator_kind("=>"), None);
    assert_eq!(operator_kind(""), None);
    assert_eq!(TokenKind::Name.spelling(), None);
}

#[test]
fn test_compare_operators() {
    let compare = [
        TokenKind::Equal,
        TokenKind::NotEqual,
        TokenKind::LessThan,
        TokenKind::LessThanEqual,
        TokenKind::GreaterThan,
        TokenKind::GreaterThanEqual,
    ];
    for (_, kind) in operators() {
        assert_eq!(kind.is_compare_operator(), compare.contains(&kind));
    }
    assert!(!TokenKind::Name.is_compare_operator());
}

#[test]
fn test_process_token() {
    let power = process_token(TokenKind::Operator, "**");
    assert_eq!(power.kind, TokenKind::Power);
    assert_eq!(power.text, "**");
    let name = process_token(TokenKind::Name, "**");
    assert_eq!(name.kind, TokenKind::Name);
    let unknown = process_token(TokenKind::Operator, "?");
    assert_eq!(unknown.kind, TokenKind::Error);
    assert_eq!(unknown.text, "?");
}

#[test]
fn test_is_name() {
    let token = Token { kind: TokenKind::Name, text: "in".to_string() };
    assert!(token.is_name("in"));
    assert!(!token.is_name("not"));
    let literal = Token { kind: TokenKind::StringLiteral, text: "in".to_string() };
    assert!(!literal.is_name("in"));
}

#[test]
fn test_keywords() {
    assert_eq!(keyword("for"), Keyword::For);
    assert_eq!(keyword("endfor"), Keyword::EndFor);
    assert_eq!(keyword("set"), Keyword::Assign);
    assert_eq!(keyword("endset"), Keyword::EndAssign);
    assert_eq!(keyword("materialization"), Keyword::Materialization);
    assert_eq!(keyword("include"), Keyword::Unsupported);
    assert_eq!(keyword("endautoescape"), Keyword::Unsupported);
    assert_eq!(keyword("raw"), Keyword::Raw);
    assert_eq!(keyword("endraw"), Keyword::EndRaw);
    assert_eq!(keyword("For"), Keyword::Unknown);
    assert_eq!(keyword(""), Keyword::Unknown);
}

#[test]
fn test_tag_names() {
    assert_eq!(Tag::Root.name(), "Root");
    assert_eq!(Tag::SetBlock.name(), "Set");
    assert_eq!(Tag::Materialization.name(), "Materialization");
}

#[test]
fn test_position_finder() {
    let finder = PositionFinder::from_text("ab\ncd\r\nef");
    // line breaks at 2, 5 and 6
    assert_eq!(finder.breaks_before(0), 0);
    assert_eq!(finder.breaks_before(2), 0);
    assert_eq!(finder.breaks_before(3), 1);
    assert_eq!(finder.breaks_before(6), 2);
    assert_eq!(finder.breaks_before(7), 3);
    assert_eq!(finder.breaks_before(u32::MAX), 3);
    assert_eq!(finder.get_lineno(0), 0);
    assert_eq!(finder.get_lineno(2), 0);
    assert_eq!(finder.get_lineno(3), 0);
    assert_eq!(finder.get_lineno(5), 0);
    assert_eq!(finder.get_lineno(6), 1);
    assert_eq!(finder.get_lineno(7), 2);
    assert_eq!(finder.get_lineno(100), 2);
    assert_eq!(finder.offset_of_break(0), Some(2));
    assert_eq!(finder.offset_of_break(2), Some(6));
    assert_eq!(finder.offset_of_break(3), None);
}

#[test]
fn test_position_finder_without_breaks() {
    let finder = PositionFinder::from_text("no break here");
    assert_eq!(finder.get_lineno(0), 0);
    assert_eq!(finder.get_lineno(5), 0);
    assert_eq!(finder.offset_of_break(0), None);
    let empty = PositionFinder::from_text("");
    assert_eq!(empty.get_lineno(7), 0);
}

#[test]
fn test_position_finder_counts_bytes() {
    let finder = PositionFinder::from_text("\u{e9}\n\u{4e2d}\n");
    assert_eq!(finder.offset_of_break(0), Some(2));
    assert_eq!(finder.offset_of_break(1), Some(6));
}

#[test]
fn test_decimal() {
    assert_eq!(decimal(0), "0");
    assert_eq!(decimal(7), "7");
    assert_eq!(decimal(10), "10");
    assert_eq!(decimal(4096), "4096");
    assert_eq!(decimal(usize::MAX), usize::MAX.to_string());
}

#[test]
fn test_build_args_snippet() {
    assert_eq!(build_args_snippet("f".to_string(), &vec![]), "f()");
    assert_eq!(build_args_snippet("var".to_string(), &vec!["variable"]), "var(${1:variable})");
    assert_eq!(
        build_args_snippet("source".to_string(), &vec!["source_name", "table_name"]),
        "source(${1:source_name}, ${2:table_name})"
    );
}

#[test]
fn test_builtin_macros() {
    let macros = builtin_macros();
    assert_eq!(macros.len(), 9);
    let names: Vec<&str> = macros.iter().map(|m| m.name).collect();
    assert_eq!(
        names,
        vec![
            "source", "env_var", "var", "fromjson", "fromyaml", "tojson", "toyaml", "ref",
            "config"
        ]
    );
    let source = macros[0].get_completion_items();
    assert_eq!(source.label, "source");
    assert_eq!(source.insert_text, "source(${1:source_name}, ${2:table_name})");
    assert_eq!(source.detail, "Builtin macro");
    let reference = macros[7].get_completion_items();
    assert_eq!(reference.insert_text, "ref");
    assert_eq!(
        macros[1].docs_url,
        "https://docs.getdbt.com/reference/dbt-jinja-functions/env_var"
    );
}

#[test]
fn test_project_spec_defaults() {
    assert_eq!(default_model_paths(), vec!["models".to_string()]);
    assert_eq!(default_macro_paths(), vec!["macros".to_string()]);
    let spec = DbtProjectSpec::from_parts("shop".to_string(), None, Some(vec!["m".to_string()]));
    assert_eq!(spec.name, "shop");
    assert_eq!(spec.model_paths, vec!["models".to_string()]);
    assert_eq!(spec.macro_paths, vec!["m".to_string()]);
}

#[test]
fn test_project_spec_refresh() {
    let mut spec = DbtProjectSpec::from_parts("old".to_string(), None, None);
    let next = DbtProjectSpec::from_parts("new".to_string(), Some(vec![]), None);
    assert_eq!(spec.refresh(Ok(next)), Ok(()));
    assert_eq!(spec.name, "new");
    assert!(spec.model_paths.is_empty());
    assert_eq!(spec.refresh(Err("bad yaml parse".to_string())), Err("bad yaml parse".to_string()));
    assert_eq!(spec.name, "new");
}

#[test]
fn test_macro_completion() {
    let found = dbt_jinja_parser::macros::Macro {
        declaration_selection: (9, 13),
        declaration: (0, 40),
        name: Some("cents".to_string()),
        args: vec![Some("column".to_string()), None],
        default_args: vec![(Some("scale".to_string()), Some("2".to_string()))],
    };
    let item = found.get_completion_items(Some("shop")).expect("a macro with a name");
    assert_eq!(item.label, "shop.cents");
    assert_eq!(item.insert_text, "shop.cents(${1:column}, ${2:})");
    assert_eq!(item.detail, "Macro");
    let plain = dbt_jinja_parser::macros::Macro {
        declaration_selection: (0, 0),
        declaration: (0, 0),
        name: Some("m".to_string()),
        args: vec![],
        default_args: vec![],
    };
    assert_eq!(plain.get_completion_items(None).expect("a macro with a name").insert_text, "m()");
    let nameless = dbt_jinja_parser::macros::Macro {
        declaration_selection: (0, 0),
        declaration: (0, 0),
        name: None,
        args: vec![],
        default_args: vec![],
    };
    assert!(nameless.get_completion_items(None).is_none());
}
