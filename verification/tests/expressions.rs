use dbt_jinja_parser::cst::text;
use dbt_jinja_parser::lexer::tokenize;
use dbt_jinja_parser::syntax::SyntaxKind;
use dbt_jinja_parser::template::parse;
use rowan::{GreenNodeData, NodeOrToken};

fn kind_name(raw: u16) -> &'static str {
    SyntaxKind::from_raw(raw).expect("a kind of the catalog").name()
}

fn outline_node(node: &GreenNodeData, out: &mut String) {
    out.push_str(kind_name(node.kind().0));
    out.push('(');
    let mut first = true;
    for child in node.children() {
        match child {
            NodeOrToken::Node(n) => {
                if !first {
                    out.push(' ');
                }
                first = false;
                outline_node(n, out);
            }
            NodeOrToken::Token(t) => {
                let name = kind_name(t.kind().0);
                if name != "Whitespace" {
                    if !first {
                        out.push(' ');
                    }
                    first = false;
                    out.push_str(name);
                }
            }
        }
    }
    out.push(')');
}

/// What stands between `{{` and `}}`, without texts and whitespace, and the
/// diagnostics.
fn expression(input: &str) -> (String, Vec<String>) {
    let parsed = parse(tokenize(input));
    assert_eq!(text(&parsed.green()), input);
    let mut out = String::new();
    outline_node(&parsed.green(), &mut out);
    let inner = out
        .strip_prefix("Template(Variable(VariableBegin ")
        .and_then(|rest| rest.strip_suffix("))"))
        .expect("one variable")
        .to_string();
    (inner, parsed.errors().clone())
}

fn clean(input: &str) -> String {
    let (tree, errors) = expression(input);
    assert_eq!(errors, Vec::<String>::new());
    tree.strip_suffix(" VariableEnd").expect("a closed variable").to_string()
}

#[test]
fn test_nested_ternary() {
    assert_eq!(
        clean("{{ a if b or c if d else e }}"),
        "ExprTernary(ExprTernary(ExprName(Name) NameOperatorIf(Name) ExprOr(ExprName(Name) NameOperatorOr(Name) ExprName(Name))) NameOperatorIf(Name) ExprName(Name) NameOperatorElse(Name) ExprName(Name))"
    );
}

#[test]
fn test_ternary_without_else() {
    assert_eq!(
        clean("{{ a if c }}"),
        "ExprTernary(ExprName(Name) NameOperatorIf(Name) ExprName(Name))"
    );
}

#[test]
fn test_boolean() {
    assert_eq!(
        clean("{{ 111 and 222 or not not not 333 }}"),
        "ExprOr(ExprAnd(IntegerLiteral NameOperatorAnd(Name) IntegerLiteral) NameOperatorOr(Name) ExprNot(NameOperatorNot(Name) ExprNot(NameOperatorNot(Name) ExprNot(NameOperatorNot(Name) IntegerLiteral))))"
    );
}

#[test]
fn test_compare() {
    assert_eq!(
        clean("{{ 11 > 9 < 12 not in 13 }}"),
        "ExprCompare(IntegerLiteral Operand(GreaterThan IntegerLiteral) Operand(LessThan IntegerLiteral) Operand(NameOperatorNotIn(Name Name) IntegerLiteral))"
    );
}

#[test]
fn test_compare_in() {
    assert_eq!(
        clean("{{ 1 in [1,2] == true }}"),
        "ExprCompare(IntegerLiteral Operand(NameOperatorIn(Name) ExprList(LeftBracket IntegerLiteral Comma IntegerLiteral RightBracket)) Operand(Equal ExprConstantBool(Name)))"
    );
}

#[test]
fn test_math1() {
    assert_eq!(
        clean("{{ 1 + 2 - 3 }}"),
        "ExprSubtract(ExprAdd(IntegerLiteral Add IntegerLiteral) Subtract IntegerLiteral)"
    );
}

#[test]
fn test_concat() {
    assert_eq!(
        clean("{{ 1 ~ 'test' 'something' ~ blah }}"),
        "ExprConcat(IntegerLiteral Tilde ExprConstantString(StringLiteral StringLiteral) Tilde ExprName(Name))"
    );
}

#[test]
fn test_math2() {
    assert_eq!(
        clean("{{ 1 * -2 / 3 + +3 // 5 ** -3 ** 4 }}"),
        "ExprAdd(ExprDivide(ExprMultiply(IntegerLiteral Multiply ExprNegative(Subtract IntegerLiteral)) Div IntegerLiteral) Add ExprFloorDivide(ExprPositive(Add IntegerLiteral) FloorDiv ExprPower(IntegerLiteral Power ExprPower(ExprNegative(Subtract IntegerLiteral) Power IntegerLiteral))))"
    );
}

#[test]
fn test_primary() {
    assert_eq!(
        clean("{{ (1, 'a', 2.5, none, None, true) }}"),
        "ExprWrapped(LeftParen ExprTuple(IntegerLiteral Comma ExprConstantString(StringLiteral) Comma FloatLiteral Comma ExprConstantNone(Name) Comma ExprConstantNone(Name) Comma ExprConstantBool(Name)) RightParen)"
    );
}

#[test]
fn test_variable_tuple_paren() {
    assert_eq!(clean("{{()}}"), "ExprWrapped(LeftParen ExprTuple() RightParen)");
}

#[test]
fn test_empty_variable() {
    let (tree, errors) = expression("{{ }}");
    assert_eq!(tree, "VariableEnd");
    assert_eq!(errors, vec!["expression cannot be empty here".to_string()]);
}

#[test]
fn test_subscript() {
    assert_eq!(
        clean("{{ foo . 0 .blah [0] [:(1,):3, 2] }}"),
        "ExprGetItem(ExprGetItem(ExprGetAttr(ExprGetItem(ExprName(Name) Dot Subscript(IntegerLiteral)) Dot Subscript(Name)) LeftBracket Subscript(IntegerLiteral) RightBracket) LeftBracket Subscript(ExprTuple(ExprSlice(Colon ExprWrapped(LeftParen ExprTuple(IntegerLiteral Comma) RightParen) Colon IntegerLiteral) Comma IntegerLiteral)) RightBracket)"
    );
}

#[test]
fn test_slice() {
    assert_eq!(
        clean("{{ blah [::] }}"),
        "ExprGetItem(ExprName(Name) LeftBracket Subscript(ExprSlice(Colon Colon)) RightBracket)"
    );
}

#[test]
fn test_subscript_without_end() {
    let (_, errors) = expression("{{ a[1 }}");
    assert_eq!(
        errors,
        vec!["expected ']' for subscript, but found end of context".to_string()]
    );
}

#[test]
fn test_attribute_without_name() {
    let (_, errors) = expression("{{ a. }}");
    assert_eq!(
        errors,
        vec!["expected name or integer as subscript, not Some(VariableEnd)".to_string()]
    );
}

#[test]
fn test_filter() {
    assert_eq!(
        clean("{{ foo | filter | filt.er3 }}"),
        "ExprFilter(ExprFilter(ExprName(Name) Pipe ExprFilterName(Name)) Pipe ExprFilterName(ExprNestedName(Name Dot Name)))"
    );
}

#[test]
fn test_filter_call() {
    assert_eq!(
        clean("{{ foo | filter (call) }}"),
        "ExprFilter(ExprName(Name) Pipe ExprFilterName(Name CallArguments(LeftParen CallStaticArg(ExprName(Name)) RightParen)))"
    );
}

#[test]
fn test_filter_bad_nestedname() {
    let (_, errors) = expression("{{ foo | filter.3 }}");
    assert_eq!(errors[0], "expected name, not Some(IntegerLiteral)");
}

#[test]
fn test_filter_without_name() {
    let (_, errors) = expression("{{ foo | }}");
    assert_eq!(errors, vec!["expected name, not Some(VariableEnd)".to_string()]);
}

#[test]
fn test_test() {
    assert_eq!(
        clean("{{ foo is divisibleby 3 }}"),
        "ExprTest(ExprName(Name) Name Name TestArguments(IntegerLiteral))"
    );
}

#[test]
fn test_test_negated_with_call() {
    assert_eq!(
        clean("{{ foo is not sameas(bar) }}"),
        "ExprNot(ExprName(Name) Name Name ExprTest(Name CallArguments(LeftParen CallStaticArg(ExprName(Name)) RightParen)))"
    );
}

#[test]
fn test_test_bad_nested_is() {
    let (_, errors) = expression("{{ foo is test1 is test2 }}");
    assert_eq!(errors, vec!["Chaining multiple tests is prohibited".to_string()]);
}

#[test]
fn test_list_trailing_comma() {
    assert_eq!(
        clean("{{ [1, 3, abc, ] }}"),
        "ExprList(LeftBracket IntegerLiteral Comma IntegerLiteral Comma ExprName(Name) Comma RightBracket)"
    );
}

#[test]
fn test_list_no_end() {
    let (_, errors) = expression("{{ [1, 3, abc, }}");
    assert_eq!(
        errors,
        vec![
            "invalid primary expression".to_string(),
            "expected ',' or ']', but found end of context".to_string(),
        ]
    );
}

#[test]
fn test_list_extra_tok() {
    let (tree, errors) = expression("{{ [1, abc def, test ] }}");
    assert_eq!(
        tree,
        "ExprList(LeftBracket IntegerLiteral Comma ExprName(Name) Error Comma ExprName(Name) RightBracket) VariableEnd"
    );
    assert_eq!(
        errors,
        vec!["expected one of [Comma, RightBracket], not Name".to_string()]
    );
}

#[test]
fn test_nested_dict() {
    assert_eq!(
        clean("{{ {a: {1: 2}, {2: 3}: blah} }}"),
        "ExprDict(LeftBrace Pair(ExprName(Name) Colon ExprDict(LeftBrace Pair(IntegerLiteral Colon IntegerLiteral) RightBrace)) Comma Pair(ExprDict(LeftBrace Pair(IntegerLiteral Colon IntegerLiteral) RightBrace) Colon ExprName(Name)) RightBrace)"
    );
}

#[test]
fn test_dict_no_value() {
    let (_, errors) = expression("{{ {a: 1, 2 } }}");
    assert_eq!(
        errors,
        vec!["dict key requires \": value\" to complete".to_string()]
    );
}

#[test]
fn test_dict_wrong_separator() {
    let (_, errors) = expression("{{ {a = 1} }}");
    assert_eq!(errors, vec!["expected ':', but found Assign".to_string()]);
}

#[test]
fn test_dict_no_end() {
    let (_, errors) = expression("{{ {a: 1, 2: ");
    assert_eq!(
        errors,
        vec![
            "invalid primary expression".to_string(),
            "expected ',' or '}', but found end of context".to_string(),
            "incomplete variable, expected \"}}\"".to_string(),
        ]
    );
}

#[test]
fn test_dict_ends_with_bracket() {
    let (_, errors) = expression("{{ {a }}");
    assert_eq!(
        errors,
        vec!["expected end of dict, but found end of context VariableEnd".to_string()]
    );
}

#[test]
fn test_call_extra_toks() {
    let (_, errors) = expression("{{ call(arg1 a, *args c) }}");
    assert_eq!(
        errors,
        vec![
            "expected one of [Comma, RightParen], not Name".to_string(),
            "expected one of [Comma, RightParen], not Name".to_string(),
        ]
    );
}

#[test]
fn test_call_multiple_dynamic() {
    let (_, errors) = expression("{{ call(*a, *b, **c, **d) }}");
    assert_eq!(
        errors,
        vec![
            "multiple dynamic args found".to_string(),
            "multiple dynamic kwargs found".to_string(),
        ]
    );
}

#[test]
fn test_call_without_end() {
    let (_, errors) = expression("{{ call(a }}");
    assert_eq!(
        errors,
        vec!["expected ',' or ')', not end of context".to_string()]
    );
}

#[test]
fn test_call_args_cut_by_bracket_end() {
    let (_, errors) = expression("{{ call( }}");
    assert_eq!(
        errors,
        vec!["incomplete call args before context end VariableEnd".to_string()]
    );
}

#[test]
fn test_wrapped_without_end() {
    let (_, errors) = expression("{{ (1 }}");
    assert_eq!(errors, vec!["expected ')' before end of context".to_string()]);
}

#[test]
fn test_variable_at_end_of_input() {
    let parsed = parse(tokenize("{{"));
    let mut tree = String::new();
    outline_node(&parsed.green(), &mut tree);
    assert_eq!(tree, "Template(Variable(VariableBegin))");
    assert_eq!(
        parsed.errors().clone(),
        vec![
            "unexpected EOF while parsing possible tuple".to_string(),
            "expression cannot be empty here".to_string(),
            "incomplete variable, expected \"}}\"".to_string(),
        ]
    );
}

#[test]
fn test_comment_without_end() {
    let parsed = parse(tokenize("{# open"));
    assert_eq!(
        parsed.errors().clone(),
        vec!["incomplete comment, expected \"#}\"".to_string()]
    );
    let cut = parse(tokenize("{#"));
    assert_eq!(
        cut.errors().clone(),
        vec![
            "incomplete comment".to_string(),
            "incomplete comment, expected \"#}\"".to_string(),
        ]
    );
}

#[test]
fn test_raw_without_data() {
    let parsed = parse(tokenize("{% raw %}"));
    assert_eq!(
        parsed.errors().clone(),
        vec![
            "incomplete raw block".to_string(),
            "incomplete raw block, expected \"{% endraw %}\"".to_string(),
        ]
    );
}
