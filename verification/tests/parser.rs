use dbt_jinja_parser::lexer::tokenize;
use dbt_jinja_parser::syntax::SyntaxKind;
use dbt_jinja_parser::template::{parse, parse_text, Parse};
use rowan::{GreenNodeData, NodeOrToken};

fn kind_name(raw: u16) -> &'static str {
    SyntaxKind::from_raw(raw).expect("a kind of the catalog").name()
}

fn dump_node(node: &GreenNodeData, out: &mut String) {
    out.push_str(kind_name(node.kind().0));
    out.push('[');
    let mut first = true;
    for child in node.children() {
        if !first {
            out.push(' ');
        }
        first = false;
        match child {
            NodeOrToken::Node(n) => dump_node(n, out),
            NodeOrToken::Token(t) => {
                out.push_str(kind_name(t.kind().0));
                out.push_str(&format!("{:?}", t.text()));
            }
        }
    }
    out.push(']');
}

fn dump(parsed: &Parse) -> String {
    let mut out = String::new();
    dump_node(&parsed.green(), &mut out);
    out
}

fn leaf_text(node: &GreenNodeData, out: &mut String) {
    for child in node.children() {
        match child {
            NodeOrToken::Node(n) => leaf_text(n, out),
            NodeOrToken::Token(t) => out.push_str(t.text()),
        }
    }
}

fn run(input: &str) -> (String, Vec<String>) {
    let parsed = parse(tokenize(input));
    let mut text = String::new();
    leaf_text(&parsed.green(), &mut text);
    assert_eq!(text, input);
    (dump(&parsed), parsed.errors().clone())
}

#[test]
fn test_empty_input() {
    let (tree, errors) = run("");
    assert_eq!(tree, "Template[]");
    assert!(errors.is_empty());
}

#[test]
fn test_whitespace_only() {
    let (tree, errors) = run(" \n\t ");
    assert_eq!(tree, r#"Template[ExprData[Data" \n\t "]]"#);
    assert!(errors.is_empty());
}

#[test]
fn test_basic_raw() {
    let (tree, errors) = run("{% raw %}raw data{% endraw %}");
    assert_eq!(
        tree,
        r#"Template[StmtRaw[RawBegin"{% raw %}" Data"raw data" RawEnd"{% endraw %}"]]"#
    );
    assert!(errors.is_empty());
}

#[test]
fn test_tuple() {
    let (tree, errors) = run("{{ 1,2, 3}} test");
    assert_eq!(
        tree,
        r#"Template[Variable[VariableBegin"{{" ExprTuple[Whitespace" " IntegerLiteral"1" Comma"," IntegerLiteral"2" Comma"," Whitespace" " IntegerLiteral"3"] VariableEnd"}}"] ExprData[Data" test"]]"#
    );
    assert!(errors.is_empty());
}

#[test]
fn test_unterminated_variable() {
    let (tree, errors) = run("{{ foo.0.0 ");
    assert_eq!(
        tree,
        r#"Template[Variable[VariableBegin"{{" Whitespace" " ExprGetItem[ExprGetItem[ExprName[Name"foo"] Dot"." Subscript[IntegerLiteral"0"]] Dot"." Subscript[IntegerLiteral"0"]] Whitespace" "]]"#
    );
    assert_eq!(errors, vec!["incomplete variable, expected \"}}\"".to_string()]);
}

#[test]
fn test_unterminated_raw() {
    let (tree, errors) = run("{% raw %}tail {{ x }}");
    assert_eq!(
        tree,
        r#"Template[StmtRaw[RawBegin"{% raw %}" Data"tail {{ x }}"]]"#
    );
    assert_eq!(
        errors,
        vec!["incomplete raw block, expected \"{% endraw %}\"".to_string()]
    );
}

#[test]
fn test_comment_with_brackets() {
    let (tree, errors) = run("{# {{ a }} {% b %} #}");
    assert_eq!(
        tree,
        "Template[Comment[CommentBegin\"{#\" CommentData\" {{ a }} {% b %} \" CommentEnd\"#}\"]]"
    );
    assert!(errors.is_empty());
}

#[test]
fn test_for_basic() {
    let (tree, errors) = run("{% for i in 1, 2 %} {{ i }} {% endfor %}");
    assert_eq!(
        tree,
        r#"Template[StmtFor[ForStart[BlockBegin"{%" Whitespace" " Name"for" Whitespace" " ExprName[Name"i"] Whitespace" " Name"in" Whitespace" " ExprTuple[IntegerLiteral"1" Comma"," Whitespace" " IntegerLiteral"2" Whitespace" "] BlockEnd"%}"] ExprData[Data" "] Variable[VariableBegin"{{" Whitespace" " ExprName[Name"i"] Whitespace" " VariableEnd"}}"] ExprData[Data" "] ForEnd[BlockBegin"{%" Whitespace" " Name"endfor" Whitespace" " BlockEnd"%}"]]]"#
    );
    assert!(errors.is_empty());
}

#[test]
fn test_extra_else() {
    let (tree, errors) = run("{% for assign in expr %} blah {% endfor %} {% else %}");
    assert_eq!(
        tree,
        r#"Template[StmtFor[ForStart[BlockBegin"{%" Whitespace" " Name"for" Whitespace" " ExprName[Name"assign"] Whitespace" " Name"in" Whitespace" " ExprName[Name"expr"] Whitespace" " BlockEnd"%}"] ExprData[Data" blah "] ForEnd[BlockBegin"{%" Whitespace" " Name"endfor" Whitespace" " BlockEnd"%}"]] ExprData[Data" "] StmtUnknown[BlockBegin"{%" Whitespace" " Error"else" Error" " BlockEnd"%}"]]"#
    );
    assert_eq!(
        errors,
        vec![
            "found unmatched \"else\" statement".to_string(),
            "expected one of [Colon, BlockEnd], not Name".to_string(),
            "expected one of [Colon, BlockEnd], not Whitespace".to_string(),
        ]
    );
}

#[test]
fn test_call_arg_ordering() {
    let (tree, errors) = run("{{ call(arg1, **kwargs, *args, kwarg=kw, arg2, arg3) ");
    assert_eq!(
        tree,
        r#"Template[Variable[VariableBegin"{{" Whitespace" " ExprCall[ExprName[Name"call"] CallArguments[LeftParen"(" CallStaticArg[ExprName[Name"arg1"]] Comma"," Whitespace" " CallDynamicKwargs[Power"**" ExprName[Name"kwargs"]] Comma"," Whitespace" " CallDynamicArgs[Multiply"*" ExprName[Name"args"]] Comma"," Whitespace" " CallStaticKwarg[Name"kwarg" Assign"=" ExprName[Name"kw"]] Comma"," Whitespace" " CallStaticArg[ExprName[Name"arg2"]] Comma"," Whitespace" " CallStaticArg[ExprName[Name"arg3"]] RightParen")"]] Whitespace" "]]"#
    );
    assert_eq!(
        errors,
        vec![
            "dynamic args found after dynamic kwargs".to_string(),
            "kwarg found after dynamic kwargs".to_string(),
            "arg found after kwarg".to_string(),
            "arg found after dynamic args".to_string(),
            "arg found after dynamic kwargs".to_string(),
            "arg found after kwarg".to_string(),
            "arg found after dynamic args".to_string(),
            "arg found after dynamic kwargs".to_string(),
            "incomplete variable, expected \"}}\"".to_string(),
        ]
    );
}

#[test]
fn test_precedence_add_multiply() {
    let (tree, errors) = run("{{ a + b * c }}");
    assert_eq!(
        tree,
        r#"Template[Variable[VariableBegin"{{" Whitespace" " ExprAdd[ExprName[Name"a"] Whitespace" " Add"+" Whitespace" " ExprMultiply[ExprName[Name"b"] Whitespace" " Multiply"*" Whitespace" " ExprName[Name"c"] Whitespace" "]] VariableEnd"}}"]]"#
    );
    assert!(errors.is_empty());
}

#[test]
fn test_precedence_power_binds_right() {
    let (tree, errors) = run("{{ a ** b ** c }}");
    assert_eq!(
        tree,
        r#"Template[Variable[VariableBegin"{{" Whitespace" " ExprPower[ExprName[Name"a"] Whitespace" " Power"**" ExprPower[Whitespace" " ExprName[Name"b"] Whitespace" " Power"**" Whitespace" " ExprName[Name"c"] Whitespace" "]] VariableEnd"}}"]]"#
    );
    assert!(errors.is_empty());
}

#[test]
fn test_precedence_not_not() {
    let (tree, errors) = run("{{ not not x }}");
    assert_eq!(
        tree,
        r#"Template[Variable[VariableBegin"{{" Whitespace" " ExprNot[NameOperatorNot[Name"not"] ExprNot[Whitespace" " NameOperatorNot[Name"not"] Whitespace" " ExprName[Name"x"] Whitespace" "]] VariableEnd"}}"]]"#
    );
    assert!(errors.is_empty());
}

#[test]
fn test_precedence_ternary() {
    let (tree, errors) = run("{{ a if c else b }}");
    assert_eq!(
        tree,
        r#"Template[Variable[VariableBegin"{{" Whitespace" " ExprTernary[ExprName[Name"a"] Whitespace" " NameOperatorIf[Name"if"] Whitespace" " ExprName[Name"c"] Whitespace" " NameOperatorElse[Name"else"] Whitespace" " ExprName[Name"b"] Whitespace" "] VariableEnd"}}"]]"#
    );
    assert!(errors.is_empty());
}

#[test]
fn test_parse_text_is_parse_of_tokens() {
    let input = "{% if true %} blah {% else %} uwu {% endif %}";
    let direct = parse(tokenize(input));
    let whole = parse_text(input).expect("the text fits a tree");
    assert_eq!(dump(&direct), dump(&whole));
    assert_eq!(direct.errors(), whole.errors());
}
