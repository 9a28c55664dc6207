use dbt_jinja_parser::cst::text;
use dbt_jinja_parser::lexer::{tokenize, Token};
use dbt_jinja_parser::syntax::{SyntaxKind, TokenKind};
use dbt_jinja_parser::template::parse;
use rowan::{GreenNodeData, NodeOrToken};

fn kind_name(raw: u16) -> &'static str {
    SyntaxKind::from_raw(raw).expect("a kind of the catalog").name()
}

fn outline_node(node: &GreenNodeData, out: &mut String) {
    out.push_str(kind_name(node.kind().0));
    out.push('(');
    let mut first = true;
    for child in node.children() {
        match child {
            NodeOrToken::Node(n) => {
                if !first {
                    out.push(' ');
                }
                first = false;
                outline_node(n, out);
            }
            NodeOrToken::Token(t) => {
                let name = kind_name(t.kind().0);
                if name != "Whitespace" {
                    if !first {
                        out.push(' ');
                    }
                    first = false;
                    out.push_str(name);
                }
            }
        }
    }
    out.push(')');
}

/// The tree without its texts and its whitespace, and the diagnostics.
fn outline(input: &str) -> (String, Vec<String>) {
    let parsed = parse(tokenize(input));
    assert_eq!(text(&parsed.green()), input);
    let mut out = String::new();
    outline_node(&parsed.green(), &mut out);
    (out, parsed.errors().clone())
}

fn no_errors() -> Vec<String> {
    Vec::new()
}

#[test]
fn test_if_else() {
    let (tree, errors) = outline("{% if true %} blah {% else %} uwu {% endif %}");
    assert_eq!(
        tree,
        "Template(StmtIf(IfStart(BlockBegin Name ExprConstantBool(Name) BlockEnd) ExprData(Data) IfElse(BlockBegin Name BlockEnd) ExprData(Data) IfEnd(BlockBegin Name BlockEnd)))"
    );
    assert_eq!(errors, no_errors());
}

#[test]
fn test_if_multiple_elif() {
    let (tree, errors) =
        outline("{% if true %} blah {% elif false %} owo {% elif 1, %} uwu {% endif %}");
    assert_eq!(
        tree,
        "Template(StmtIf(IfStart(BlockBegin Name ExprConstantBool(Name) BlockEnd) ExprData(Data) IfElif(BlockBegin Name ExprConstantBool(Name) BlockEnd) ExprData(Data) IfElif(BlockBegin Name ExprTuple(IntegerLiteral Comma) BlockEnd) ExprData(Data) IfEnd(BlockBegin Name BlockEnd)))"
    );
    assert_eq!(errors, no_errors());
}

#[test]
fn test_for_else() {
    let (tree, errors) = outline("{% for assign in expr %} blah {% else %} else {% endfor %}");
    assert_eq!(
        tree,
        "Template(StmtFor(ForStart(BlockBegin Name ExprName(Name) Name ExprName(Name) BlockEnd) ExprData(Data) ForElse(BlockBegin Name BlockEnd) ExprData(Data) ForEnd(BlockBegin Name BlockEnd)))"
    );
    assert_eq!(errors, no_errors());
}

#[test]
fn test_open_for() {
    let (tree, errors) = outline("{% for one in 1, 2 %} {{ one }}");
    assert_eq!(
        tree,
        "Template(StmtFor(ForStart(BlockBegin Name ExprName(Name) Name ExprTuple(IntegerLiteral Comma IntegerLiteral) BlockEnd) ExprData(Data) Variable(VariableBegin ExprName(Name) VariableEnd)))"
    );
    assert_eq!(errors, vec!["expected tag For to be closed".to_string()]);
}

#[test]
fn test_extra_endfor() {
    let (tree, errors) = outline("{% for one in 1 %}{% endfor %}{%endfor%}");
    assert_eq!(
        tree,
        "Template(StmtFor(ForStart(BlockBegin Name ExprName(Name) Name IntegerLiteral BlockEnd) ForEnd(BlockBegin Name BlockEnd)) StmtUnknown(BlockBegin Error BlockEnd))"
    );
    assert_eq!(
        errors,
        vec![
            "found unmatched \"endfor\" statement".to_string(),
            "expected one of [Colon, BlockEnd], not Name".to_string(),
        ]
    );
}

#[test]
fn test_unclosed_if_inside_for() {
    let (tree, errors) = outline("{% for a in b %}{% if a %}{% endfor %}");
    assert_eq!(
        tree,
        "Template(StmtFor(ForStart(BlockBegin Name ExprName(Name) Name ExprName(Name) BlockEnd) StmtIf(IfStart(BlockBegin Name ExprName(Name) BlockEnd)) ForEnd(BlockBegin Name BlockEnd)))"
    );
    assert_eq!(errors, vec!["expected tag If to be closed".to_string()]);
}

#[test]
fn test_set_basic() {
    let (tree, errors) = outline("{% set blah = true %}");
    assert_eq!(
        tree,
        "Template(StmtAssign(BlockBegin Name ExprName(Name) Assign ExprConstantBool(Name) BlockEnd))"
    );
    assert_eq!(errors, no_errors());
}

#[test]
fn test_set_namespace() {
    let (tree, errors) = outline("{% set ns.value = 1 %}");
    assert_eq!(
        tree,
        "Template(StmtAssign(BlockBegin Name ExprNamespaceRef(Name Dot Name) Assign IntegerLiteral BlockEnd))"
    );
    assert_eq!(errors, no_errors());
}

#[test]
fn test_set_block_filter() {
    let (tree, errors) = outline("{% set blah | filter %} owo {% endset %}");
    assert_eq!(
        tree,
        "Template(StmtAssignBlock(AssignBlockStart(BlockBegin Name ExprName(Name) ExprFilter(Pipe ExprFilterName(Name)) BlockEnd) ExprData(Data) AssignBlockEnd(BlockBegin Name BlockEnd)))"
    );
    assert_eq!(errors, no_errors());
}

#[test]
fn test_set_unmatched_block() {
    let (_, errors) = outline("{% set blah = true %} something {% endset %}");
    assert_eq!(
        errors,
        vec![
            "found unmatched \"endset\" statement".to_string(),
            "expected one of [Colon, BlockEnd], not Name".to_string(),
            "expected one of [Colon, BlockEnd], not Whitespace".to_string(),
        ]
    );
}

#[test]
fn test_call_block_with_default_args() {
    let (tree, errors) =
        outline("{% call (user, def='test') dump_users (list_of_user) %}{{ def }}{% endcall %}");
    assert_eq!(
        tree,
        "Template(StmtCallBlock(CallBlockStart(BlockBegin Name Signature(LeftParen SignatureArg(Name) Comma SignatureDefaultArg(Name Assign ExprConstantString(StringLiteral)) RightParen) ExprCall(ExprName(Name) CallArguments(LeftParen CallStaticArg(ExprName(Name)) RightParen)) BlockEnd) Variable(VariableBegin ExprName(Name) VariableEnd) CallBlockEnd(BlockBegin Name BlockEnd)))"
    );
    assert_eq!(errors, no_errors());
}

#[test]
fn test_call_block_with_incorrect_args_order() {
    let (_, errors) =
        outline("{% call (def='test', user) dump_users (list_of_user) %}{% endcall %}");
    assert_eq!(
        errors,
        vec!["non-default argument following a default argument".to_string()]
    );
}

#[test]
fn test_filter_block_multiple_filters() {
    let (tree, errors) = outline("{% filter upper | lower %} blah {% endfilter %}");
    assert_eq!(
        tree,
        "Template(StmtFilterBlock(FilterBlockStart(BlockBegin Name ExprFilter(ExprFilter(ExprFilterName(Name)) Pipe ExprFilterName(Name)) BlockEnd) ExprData(Data) FilterBlockEnd(BlockBegin Name BlockEnd)))"
    );
    assert_eq!(errors, no_errors());
}

#[test]
fn test_do_append() {
    let (tree, errors) = outline("{% do meta_columns.append(column|upper) %}");
    assert_eq!(
        tree,
        "Template(StmtDo(BlockBegin Name ExprCall(ExprGetAttr(ExprName(Name) Dot Subscript(Name)) CallArguments(LeftParen CallStaticArg(ExprFilter(ExprName(Name) Pipe ExprFilterName(Name))) RightParen)) BlockEnd))"
    );
    assert_eq!(errors, no_errors());
}

#[test]
fn test_macro_signature() {
    let (tree, errors) = outline("{% macro something(arg, def=1234) %}x{% endmacro %}");
    assert_eq!(
        tree,
        "Template(StmtMacro(MacroBlockStart(BlockBegin Name Name Signature(LeftParen SignatureArg(Name) Comma SignatureDefaultArg(Name Assign IntegerLiteral) RightParen) BlockEnd) ExprData(Data) MacroBlockEnd(BlockBegin Name BlockEnd)))"
    );
    assert_eq!(errors, no_errors());
}

#[test]
fn test_macro_closes_open_blocks() {
    let (tree, errors) = outline("{% for a in b %}{% macro m() %}{% endmacro %}");
    assert_eq!(
        tree,
        "Template(StmtFor(ForStart(BlockBegin Name ExprName(Name) Name ExprName(Name) BlockEnd)) StmtMacro(MacroBlockStart(BlockBegin Name Name Signature(LeftParen RightParen) BlockEnd) MacroBlockEnd(BlockBegin Name BlockEnd)))"
    );
    assert_eq!(errors, vec!["expected tag For to be closed".to_string()]);
}

#[test]
fn test_materialization_adapter() {
    let (tree, errors) = outline(
        "{% materialization something, adapter = 'uwu' 'owo' %}x{% endmaterialization %}",
    );
    assert_eq!(
        tree,
        "Template(StmtMaterialization(MaterializationBlockStart(BlockBegin Name Name Comma MaterializationAdapter(Name Assign ExprConstantString(StringLiteral StringLiteral)) BlockEnd) ExprData(Data) MaterializationBlockEnd(BlockBegin Name BlockEnd)))"
    );
    assert_eq!(errors, no_errors());
}

#[test]
fn test_materialization_multiple_default() {
    let (tree, errors) = outline(
        "{% materialization something, default, adapter='uwu', default %}x{% endmaterialization %}",
    );
    assert_eq!(
        tree,
        "Template(StmtMaterialization(MaterializationBlockStart(BlockBegin Name Name Comma MaterializationDefault(Name) Comma MaterializationAdapter(Name Assign ExprConstantString(StringLiteral)) Comma MaterializationDefault(Name) BlockEnd) ExprData(Data) MaterializationBlockEnd(BlockBegin Name BlockEnd)))"
    );
    assert_eq!(errors, no_errors());
}

#[test]
fn test_materialization_extra_end() {
    let (_, errors) = outline("{% materialization something, blah %}x{% endmaterialization %}");
    assert_eq!(
        errors,
        vec![
            "expected either \"default\" or \"adapter=<adapter>\" for custom materialization but found Token { kind: Name, text: \"blah\" }".to_string(),
            "expected one of [Colon, BlockEnd], not Name".to_string(),
            "expected one of [Colon, BlockEnd], not Whitespace".to_string(),
        ]
    );
}

#[test]
fn test_materialization_adapter_without_string() {
    let (_, errors) = outline("{% materialization m, adapter = 3 %}");
    assert_eq!(
        errors,
        vec![
            "expected string literal specifying adapter, but found Some(IntegerLiteral)"
                .to_string(),
            "expected one of [Colon, BlockEnd], not IntegerLiteral".to_string(),
            "expected one of [Colon, BlockEnd], not Whitespace".to_string(),
            "expected tag Materialization to be closed".to_string(),
        ]
    );
}

#[test]
fn test_dbt_test_basic() {
    let (tree, errors) = outline("{% test not_null(model, column_name) %}x{% endtest %}");
    assert_eq!(
        tree,
        "Template(StmtTest(TestBlockStart(BlockBegin Name Name Signature(LeftParen SignatureArg(Name) Comma SignatureArg(Name) RightParen) BlockEnd) ExprData(Data) TestBlockEnd(BlockBegin Name BlockEnd)))"
    );
    assert_eq!(errors, no_errors());
}

#[test]
fn test_dbt_test_incomplete() {
    let (tree, errors) = outline("{% test");
    assert_eq!(
        tree,
        "Template(StmtTest(TestBlockStart(BlockBegin Name)))"
    );
    assert_eq!(
        errors,
        vec![
            "expected name for assign target, but found None".to_string(),
            "expected function signature after macro name but found end of context".to_string(),
            "expected ':' or '%}', but found EOF".to_string(),
            "expected tag Test to be closed".to_string(),
        ]
    );
}

#[test]
fn test_dbt_docs_basic() {
    let (tree, errors) = outline("{% docs table_events %}\nThis table.\n{% enddocs %}");
    assert_eq!(
        tree,
        "Template(StmtDocs(DocsBlockStart(BlockBegin Name Name BlockEnd) ExprData(Data) DocsBlockEnd(BlockBegin Name BlockEnd)))"
    );
    assert_eq!(errors, no_errors());
}

#[test]
fn test_dbt_snapshot_basic() {
    let (tree, errors) = outline("{% snapshot orders_snapshot %}select 1{% endsnapshot %}");
    assert_eq!(
        tree,
        "Template(StmtSnapshot(SnapshotBlockStart(BlockBegin Name Name BlockEnd) ExprData(Data) SnapshotBlockEnd(BlockBegin Name BlockEnd)))"
    );
    assert_eq!(errors, no_errors());
}

#[test]
fn test_block() {
    let (tree, errors) = outline("{% %}");
    assert_eq!(tree, "Template(StmtUnknown(BlockBegin BlockEnd))");
    assert_eq!(errors, vec!["expected tag name, but end of block".to_string()]);
}

#[test]
fn test_block_at_end_of_input() {
    let (tree, errors) = outline("{%");
    assert_eq!(tree, "Template(StmtUnknown(BlockBegin))");
    assert_eq!(errors, vec!["expected tag name, but found EOF".to_string()]);
}

#[test]
fn test_statement_without_tag_name() {
    let (tree, errors) = outline("{% 1 %}");
    assert_eq!(tree, "Template(StmtUnknown(BlockBegin Error Error BlockEnd))");
    assert_eq!(
        errors,
        vec![
            "expected tag token at the beginning of statement, not IntegerLiteral".to_string(),
            "expected one of [Colon, BlockEnd], not IntegerLiteral".to_string(),
            "expected one of [Colon, BlockEnd], not Whitespace".to_string(),
        ]
    );
}

#[test]
fn test_unknown_tag() {
    let (tree, errors) = outline("{% unk %}");
    assert_eq!(tree, "Template(StmtUnknown(BlockBegin Error Error BlockEnd))");
    assert_eq!(
        errors,
        vec![
            "found unknown tag \"unk\"".to_string(),
            "expected one of [Colon, BlockEnd], not Name".to_string(),
            "expected one of [Colon, BlockEnd], not Whitespace".to_string(),
        ]
    );
}

#[test]
fn test_unsupported_tag() {
    let (_, errors) = outline("{% include 'header.html' %}");
    assert_eq!(
        errors[0],
        "not parsing tag \"include\"; currently unsupported"
    );
}

#[test]
fn test_raw_extra() {
    let (_, errors) = outline("{% raw something : %}x{% endraw %}");
    assert_eq!(errors[0], "raw tag can't have any arguments");
    assert!(errors.contains(&"found unmatched endraw tag".to_string()));
}

#[test]
fn test_extra_colon() {
    let (tree, errors) = outline("{% for one in 1, 2 : %} loop {% endfor %}");
    assert_eq!(
        tree,
        "Template(StmtFor(ForStart(BlockBegin Name ExprName(Name) Name ExprTuple(IntegerLiteral Comma IntegerLiteral) Colon BlockEnd) ExprData(Data) ForEnd(BlockBegin Name BlockEnd)))"
    );
    assert_eq!(errors, no_errors());
}

#[test]
fn test_for_without_in() {
    let (_, errors) = outline("{% for a of b %}{% endfor %}");
    assert_eq!(
        errors[0],
        "expected \"in\" for for-loop, but found unexpected \"\"of\"\""
    );
}

#[test]
fn test_for_recursive_with_test() {
    let (tree, errors) = outline("{% for a in b if a recursive %}{% endfor %}");
    assert_eq!(
        tree,
        "Template(StmtFor(ForStart(BlockBegin Name ExprName(Name) Name ExprName(Name) Name ExprName(Name) Name BlockEnd) ForEnd(BlockBegin Name BlockEnd)))"
    );
    assert_eq!(errors, no_errors());
}

#[test]
fn test_unexpected_top_level_token() {
    let tokens = vec![
        Token { kind: TokenKind::Name, text: "stray".to_string() },
        Token { kind: TokenKind::Data, text: " text".to_string() },
    ];
    let parsed = parse(tokens);
    assert_eq!(text(&parsed.green()), "stray text");
    let mut out = String::new();
    outline_node(&parsed.green(), &mut out);
    assert_eq!(out, "Template(Error ExprData(Data))");
    assert_eq!(
        parsed.errors().clone(),
        vec!["unexpected top-level token: Name".to_string()]
    );
}
