//! The catalog of kinds: what a token can be, what a tree node can be, and
//! the fixed tables of operator spellings.

use crate::text::str_eq;
use vstd::prelude::*;
use vstd::std_specs::convert::FromSpecImpl;

verus! {

/// What the tokenizer can make of a piece of text.
#[derive(Clone, Copy, Debug, PartialEq, Eq, PartialOrd, Ord, Hash, Structural)]
pub enum TokenKind {
    Power,
    FloorDiv,
    Equal,
    NotEqual,
    LessThanEqual,
    GreaterThanEqual,
    Add,
    Subtract,
    Multiply,
    Div,
    Modulo,
    Tilde,
    LessThan,
    GreaterThan,
    Assign,
    Dot,
    Colon,
    Pipe,
    Comma,
    Semicolon,
    LeftParen,
    RightParen,
    LeftBracket,
    RightBracket,
    LeftBrace,
    RightBrace,
    Whitespace,
    Name,
    IntegerLiteral,
    FloatLiteral,
    StringLiteral,
    Operator,
    BlockBegin,
    BlockEnd,
    VariableBegin,
    VariableEnd,
    CommentBegin,
    CommentEnd,
    RawBegin,
    RawEnd,
    Data,
    CommentData,
    Error,
}

impl TokenKind {
    /// The name of the kind, as diagnostics print it.
    pub open spec fn name_spec(self) -> Seq<char> {
        match self {
            TokenKind::Power => "Power"@,
            TokenKind::FloorDiv => "FloorDiv"@,
            TokenKind::Equal => "Equal"@,
            TokenKind::NotEqual => "NotEqual"@,
            TokenKind::LessThanEqual => "LessThanEqual"@,
            TokenKind::GreaterThanEqual => "GreaterThanEqual"@,
            TokenKind::Add => "Add"@,
            TokenKind::Subtract => "Subtract"@,
            TokenKind::Multiply => "Multiply"@,
            TokenKind::Div => "Div"@,
            TokenKind::Modulo => "Modulo"@,
            TokenKind::Tilde => "Tilde"@,
            TokenKind::LessThan => "LessThan"@,
            TokenKind::GreaterThan => "GreaterThan"@,
            TokenKind::Assign => "Assign"@,
            TokenKind::Dot => "Dot"@,
            TokenKind::Colon => "Colon"@,
            TokenKind::Pipe => "Pipe"@,
            TokenKind::Comma => "Comma"@,
            TokenKind::Semicolon => "Semicolon"@,
            TokenKind::LeftParen => "LeftParen"@,
            TokenKind::RightParen => "RightParen"@,
            TokenKind::LeftBracket => "LeftBracket"@,
            TokenKind::RightBracket => "RightBracket"@,
            TokenKind::LeftBrace => "LeftBrace"@,
            TokenKind::RightBrace => "RightBrace"@,
            TokenKind::Whitespace => "Whitespace"@,
            TokenKind::Name => "Name"@,
            TokenKind::IntegerLiteral => "IntegerLiteral"@,
            TokenKind::FloatLiteral => "FloatLiteral"@,
            TokenKind::StringLiteral => "StringLiteral"@,
            TokenKind::Operator => "Operator"@,
            TokenKind::BlockBegin => "BlockBegin"@,
            TokenKind::BlockEnd => "BlockEnd"@,
            TokenKind::VariableBegin => "VariableBegin"@,
            TokenKind::VariableEnd => "VariableEnd"@,
            TokenKind::CommentBegin => "CommentBegin"@,
            TokenKind::CommentEnd => "CommentEnd"@,
            TokenKind::RawBegin => "RawBegin"@,
            TokenKind::RawEnd => "RawEnd"@,
            TokenKind::Data => "Data"@,
            TokenKind::CommentData => "CommentData"@,
            TokenKind::Error => "Error"@,
        }
    }

    pub fn name(self) -> (r: &'static str)
        ensures
            r@ == self.name_spec(),
    {
        match self {
            TokenKind::Power => "Power",
            TokenKind::FloorDiv => "FloorDiv",
            TokenKind::Equal => "Equal",
            TokenKind::NotEqual => "NotEqual",
            TokenKind::LessThanEqual => "LessThanEqual",
            TokenKind::GreaterThanEqual => "GreaterThanEqual",
            TokenKind::Add => "Add",
            TokenKind::Subtract => "Subtract",
            TokenKind::Multiply => "Multiply",
            TokenKind::Div => "Div",
            TokenKind::Modulo => "Modulo",
            TokenKind::Tilde => "Tilde",
            TokenKind::LessThan => "LessThan",
            TokenKind::GreaterThan => "GreaterThan",
            TokenKind::Assign => "Assign",
            TokenKind::Dot => "Dot",
            TokenKind::Colon => "Colon",
            TokenKind::Pipe => "Pipe",
            TokenKind::Comma => "Comma",
            TokenKind::Semicolon => "Semicolon",
            TokenKind::LeftParen => "LeftParen",
            TokenKind::RightParen => "RightParen",
            TokenKind::LeftBracket => "LeftBracket",
            TokenKind::RightBracket => "RightBracket",
            TokenKind::LeftBrace => "LeftBrace",
            TokenKind::RightBrace => "RightBrace",
            TokenKind::Whitespace => "Whitespace",
            TokenKind::Name => "Name",
            TokenKind::IntegerLiteral => "IntegerLiteral",
            TokenKind::FloatLiteral => "FloatLiteral",
            TokenKind::StringLiteral => "StringLiteral",
            TokenKind::Operator => "Operator",
            TokenKind::BlockBegin => "BlockBegin",
            TokenKind::BlockEnd => "BlockEnd",
            TokenKind::VariableBegin => "VariableBegin",
            TokenKind::VariableEnd => "VariableEnd",
            TokenKind::CommentBegin => "CommentBegin",
            TokenKind::CommentEnd => "CommentEnd",
            TokenKind::RawBegin => "RawBegin",
            TokenKind::RawEnd => "RawEnd",
            TokenKind::Data => "Data",
            TokenKind::CommentData => "CommentData",
            TokenKind::Error => "Error",
        }
    }

    /// Whether the kind is one of the operators that link a compare chain.
    pub open spec fn is_compare_operator_spec(self) -> bool {
        matches!(
            self,
            TokenKind::Equal
                | TokenKind::NotEqual
                | TokenKind::LessThan
                | TokenKind::LessThanEqual
                | TokenKind::GreaterThan
                | TokenKind::GreaterThanEqual,
        )
    }

    pub fn is_compare_operator(self) -> (r: bool)
        ensures
            r == self.is_compare_operator_spec(),
    {
        matches!(
            self,
            TokenKind::Equal
                | TokenKind::NotEqual
                | TokenKind::LessThan
                | TokenKind::LessThanEqual
                | TokenKind::GreaterThan
                | TokenKind::GreaterThanEqual,
        )
    }

    /// How an operator kind is spelled; `None` for every other kind.
    pub open spec fn spelling_spec(self) -> Option<Seq<char>> {
        match self {
            TokenKind::Power => Some("**"@),
            TokenKind::FloorDiv => Some("//"@),
            TokenKind::Equal => Some("=="@),
            TokenKind::NotEqual => Some("!="@),
            TokenKind::LessThanEqual => Some("<="@),
            TokenKind::GreaterThanEqual => Some(">="@),
            TokenKind::Add => Some("+"@),
            TokenKind::Subtract => Some("-"@),
            TokenKind::Multiply => Some("*"@),
            TokenKind::Div => Some("/"@),
            TokenKind::Modulo => Some("%"@),
            TokenKind::Tilde => Some("~"@),
            TokenKind::LessThan => Some("<"@),
            TokenKind::GreaterThan => Some(">"@),
            TokenKind::Assign => Some("="@),
            TokenKind::Dot => Some("."@),
            TokenKind::Colon => Some(":"@),
            TokenKind::Pipe => Some("|"@),
            TokenKind::Comma => Some(","@),
            TokenKind::Semicolon => Some(";"@),
            TokenKind::LeftParen => Some("("@),
            TokenKind::RightParen => Some(")"@),
            TokenKind::LeftBracket => Some("["@),
            TokenKind::RightBracket => Some("]"@),
            TokenKind::LeftBrace => Some("{"@),
            TokenKind::RightBrace => Some("}"@),
            _ => None,
        }
    }

    pub fn spelling(self) -> (r: Option<&'static str>)
        ensures
            r is Some == self.spelling_spec() is Some,
            r matches Some(s) ==> self.spelling_spec() == Some(s@),
    {
        match self {
            TokenKind::Power => Some("**"),
            TokenKind::FloorDiv => Some("//"),
            TokenKind::Equal => Some("=="),
            TokenKind::NotEqual => Some("!="),
            TokenKind::LessThanEqual => Some("<="),
            TokenKind::GreaterThanEqual => Some(">="),
            TokenKind::Add => Some("+"),
            TokenKind::Subtract => Some("-"),
            TokenKind::Multiply => Some("*"),
            TokenKind::Div => Some("/"),
            TokenKind::Modulo => Some("%"),
            TokenKind::Tilde => Some("~"),
            TokenKind::LessThan => Some("<"),
            TokenKind::GreaterThan => Some(">"),
            TokenKind::Assign => Some("="),
            TokenKind::Dot => Some("."),
            TokenKind::Colon => Some(":"),
            TokenKind::Pipe => Some("|"),
            TokenKind::Comma => Some(","),
            TokenKind::Semicolon => Some(";"),
            TokenKind::LeftParen => Some("("),
            TokenKind::RightParen => Some(")"),
            TokenKind::LeftBracket => Some("["),
            TokenKind::RightBracket => Some("]"),
            TokenKind::LeftBrace => Some("{"),
            TokenKind::RightBrace => Some("}"),
            _ => None,
        }
    }
}

/// The number of operator spellings.
pub const OPERATOR_COUNT: usize = 26;

/// The operator table: each spelling with its kind, longer spellings first.
pub open spec fn operator_table() -> Seq<(Seq<char>, TokenKind)> {
    seq![
        ("**"@, TokenKind::Power),
        ("//"@, TokenKind::FloorDiv),
        ("=="@, TokenKind::Equal),
        ("!="@, TokenKind::NotEqual),
        ("<="@, TokenKind::LessThanEqual),
        (">="@, TokenKind::GreaterThanEqual),
        ("+"@, TokenKind::Add),
        ("-"@, TokenKind::Subtract),
        ("*"@, TokenKind::Multiply),
        ("/"@, TokenKind::Div),
        ("%"@, TokenKind::Modulo),
        ("~"@, TokenKind::Tilde),
        ("<"@, TokenKind::LessThan),
        (">"@, TokenKind::GreaterThan),
        ("="@, TokenKind::Assign),
        ("."@, TokenKind::Dot),
        (":"@, TokenKind::Colon),
        ("|"@, TokenKind::Pipe),
        (","@, TokenKind::Comma),
        (";"@, TokenKind::Semicolon),
        ("("@, TokenKind::LeftParen),
        (")"@, TokenKind::RightParen),
        ("["@, TokenKind::LeftBracket),
        ("]"@, TokenKind::RightBracket),
        ("{"@, TokenKind::LeftBrace),
        ("}"@, TokenKind::RightBrace),
    ]
}

/// The kind of the first entry of `table`, from index `from` on, that is
/// spelled `text`.
pub open spec fn lookup_from(table: Seq<(Seq<char>, TokenKind)>, text: Seq<char>, from: int) -> Option<
    TokenKind,
>
    decreases table.len() - from,
{
    if from < 0 || from >= table.len() {
        None
    } else if table[from].0 == text {
        Some(table[from].1)
    } else {
        lookup_from(table, text, from + 1)
    }
}

/// The operator kind that `text` spells, if it spells one.
pub open spec fn operator_of(text: Seq<char>) -> Option<TokenKind> {
    lookup_from(operator_table(), text, 0)
}

/// The operator table as a value.
pub fn operators() -> (r: Vec<(&'static str, TokenKind)>)
    ensures
        r@.len() == operator_table().len(),
        forall|i: int|
            0 <= i < r@.len() ==> (#[trigger] r@[i]).0@ == operator_table()[i].0 && r@[i].1
                == operator_table()[i].1,
{
    let r = vec![
        ("**", TokenKind::Power),
        ("//", TokenKind::FloorDiv),
        ("==", TokenKind::Equal),
        ("!=", TokenKind::NotEqual),
        ("<=", TokenKind::LessThanEqual),
        (">=", TokenKind::GreaterThanEqual),
        ("+", TokenKind::Add),
        ("-", TokenKind::Subtract),
        ("*", TokenKind::Multiply),
        ("/", TokenKind::Div),
        ("%", TokenKind::Modulo),
        ("~", TokenKind::Tilde),
        ("<", TokenKind::LessThan),
        (">", TokenKind::GreaterThan),
        ("=", TokenKind::Assign),
        (".", TokenKind::Dot),
        (":", TokenKind::Colon),
        ("|", TokenKind::Pipe),
        (",", TokenKind::Comma),
        (";", TokenKind::Semicolon),
        ("(", TokenKind::LeftParen),
        (")", TokenKind::RightParen),
        ("[", TokenKind::LeftBracket),
        ("]", TokenKind::RightBracket),
        ("{", TokenKind::LeftBrace),
        ("}", TokenKind::RightBrace),
    ];
    r
}

/// Looks `text` up in the operator table.
pub fn operator_kind(text: &str) -> (r: Option<TokenKind>)
    ensures
        r == operator_of(text@),
{
    let table = operators();
    let mut i: usize = 0;
    while i < table.len()
        invariant
            i <= table@.len(),
            table@.len() == operator_table().len(),
            forall|k: int|
                0 <= k < table@.len() ==> (#[trigger] table@[k]).0@ == operator_table()[k].0
                    && table@[k].1 == operator_table()[k].1,
            operator_of(text@) == lookup_from(operator_table(), text@, i as int),
        decreases table.len() - i,
    {
        if str_eq(table[i].0, text) {
            return Some(table[i].1);
        }
        i += 1;
    }
    None
}

/// What a node or a leaf of the syntax tree can be: every token kind, and a
/// kind for each construct of the grammar.
#[derive(Clone, Copy, Debug, PartialEq, Eq, PartialOrd, Ord, Hash, Structural)]
pub enum SyntaxKind {
    Power,
    FloorDiv,
    Equal,
    NotEqual,
    LessThanEqual,
    GreaterThanEqual,
    Add,
    Subtract,
    Multiply,
    Div,
    Modulo,
    Tilde,
    LessThan,
    GreaterThan,
    Assign,
    Dot,
    Colon,
    Pipe,
    Comma,
    Semicolon,
    LeftParen,
    RightParen,
    LeftBracket,
    RightBracket,
    LeftBrace,
    RightBrace,
    Whitespace,
    Name,
    IntegerLiteral,
    FloatLiteral,
    StringLiteral,
    Operator,
    BlockBegin,
    BlockEnd,
    VariableBegin,
    VariableEnd,
    CommentBegin,
    CommentEnd,
    RawBegin,
    RawEnd,
    Data,
    CommentData,
    Error,
    Template,
    StmtFor,
    StmtIf,
    StmtAssign,
    StmtAssignBlock,
    StmtCallBlock,
    StmtFilterBlock,
    StmtDo,
    StmtMacro,
    StmtMaterialization,
    StmtTest,
    StmtDocs,
    StmtSnapshot,
    StmtRaw,
    StmtUnknown,
    ForStart,
    ForElse,
    ForEnd,
    IfStart,
    IfElif,
    IfElse,
    IfEnd,
    AssignBlockStart,
    AssignBlockEnd,
    CallBlockStart,
    CallBlockEnd,
    FilterBlockStart,
    FilterBlockEnd,
    MacroBlockStart,
    MacroBlockEnd,
    MaterializationBlockStart,
    MaterializationBlockEnd,
    MaterializationDefault,
    MaterializationAdapter,
    TestBlockStart,
    TestBlockEnd,
    DocsBlockStart,
    DocsBlockEnd,
    SnapshotBlockStart,
    SnapshotBlockEnd,
    ExprData,
    ExprName,
    ExprConstantBool,
    ExprConstantNone,
    ExprConstantString,
    ExprList,
    ExprDict,
    ExprTuple,
    ExprWrapped,
    ExprGetAttr,
    ExprGetItem,
    ExprSlice,
    ExprCall,
    ExprFilter,
    ExprFilterName,
    ExprTest,
    ExprNegative,
    ExprPositive,
    ExprPower,
    ExprMultiply,
    ExprDivide,
    ExprFloorDivide,
    ExprModulo,
    ExprAdd,
    ExprSubtract,
    ExprConcat,
    ExprCompare,
    ExprAnd,
    ExprOr,
    ExprNot,
    ExprTernary,
    ExprNamespaceRef,
    ExprNestedName,
    Variable,
    Comment,
    Pair,
    Subscript,
    Signature,
    SignatureArg,
    SignatureDefaultArg,
    CallArguments,
    CallStaticArg,
    CallStaticKwarg,
    CallDynamicArgs,
    CallDynamicKwargs,
    TestArguments,
    Operand,
    NameOperatorIn,
    NameOperatorNotIn,
    NameOperatorNot,
    NameOperatorAnd,
    NameOperatorOr,
    NameOperatorIf,
    NameOperatorElse,
}

/// The number of syntax kinds; their raw numbers are the numbers below it.
pub const SYNTAX_KIND_COUNT: u16 = 137;

impl SyntaxKind {
    /// The number that stands for the kind in a tree.
    pub open spec fn raw_spec(self) -> u16 {
        match self {
            SyntaxKind::Power => 0u16,
            SyntaxKind::FloorDiv => 1u16,
            SyntaxKind::Equal => 2u16,
            SyntaxKind::NotEqual => 3u16,
            SyntaxKind::LessThanEqual => 4u16,
            SyntaxKind::GreaterThanEqual => 5u16,
            SyntaxKind::Add => 6u16,
            SyntaxKind::Subtract => 7u16,
            SyntaxKind::Multiply => 8u16,
            SyntaxKind::Div => 9u16,
            SyntaxKind::Modulo => 10u16,
            SyntaxKind::Tilde => 11u16,
            SyntaxKind::LessThan => 12u16,
            SyntaxKind::GreaterThan => 13u16,
            SyntaxKind::Assign => 14u16,
            SyntaxKind::Dot => 15u16,
            SyntaxKind::Colon => 16u16,
            SyntaxKind::Pipe => 17u16,
            SyntaxKind::Comma => 18u16,
            SyntaxKind::Semicolon => 19u16,
            SyntaxKind::LeftParen => 20u16,
            SyntaxKind::RightParen => 21u16,
            SyntaxKind::LeftBracket => 22u16,
            SyntaxKind::RightBracket => 23u16,
            SyntaxKind::LeftBrace => 24u16,
            SyntaxKind::RightBrace => 25u16,
            SyntaxKind::Whitespace => 26u16,
            SyntaxKind::Name => 27u16,
            SyntaxKind::IntegerLiteral => 28u16,
            SyntaxKind::FloatLiteral => 29u16,
            SyntaxKind::StringLiteral => 30u16,
            SyntaxKind::Operator => 31u16,
            SyntaxKind::BlockBegin => 32u16,
            SyntaxKind::BlockEnd => 33u16,
            SyntaxKind::VariableBegin => 34u16,
            SyntaxKind::VariableEnd => 35u16,
            SyntaxKind::CommentBegin => 36u16,
            SyntaxKind::CommentEnd => 37u16,
            SyntaxKind::RawBegin => 38u16,
            SyntaxKind::RawEnd => 39u16,
            SyntaxKind::Data => 40u16,
            SyntaxKind::CommentData => 41u16,
            SyntaxKind::Error => 42u16,
            SyntaxKind::Template => 43u16,
            SyntaxKind::StmtFor => 44u16,
            SyntaxKind::StmtIf => 45u16,
            SyntaxKind::StmtAssign => 46u16,
            SyntaxKind::StmtAssignBlock => 47u16,
            SyntaxKind::StmtCallBlock => 48u16,
            SyntaxKind::StmtFilterBlock => 49u16,
            SyntaxKind::StmtDo => 50u16,
            SyntaxKind::StmtMacro => 51u16,
            SyntaxKind::StmtMaterialization => 52u16,
            SyntaxKind::StmtTest => 53u16,
            SyntaxKind::StmtDocs => 54u16,
            SyntaxKind::StmtSnapshot => 55u16,
            SyntaxKind::StmtRaw => 56u16,
            SyntaxKind::StmtUnknown => 57u16,
            SyntaxKind::ForStart => 58u16,
            SyntaxKind::ForElse => 59u16,
            SyntaxKind::ForEnd => 60u16,
            SyntaxKind::IfStart => 61u16,
            SyntaxKind::IfElif => 62u16,
            SyntaxKind::IfElse => 63u16,
            SyntaxKind::IfEnd => 64u16,
            SyntaxKind::AssignBlockStart => 65u16,
            SyntaxKind::AssignBlockEnd => 66u16,
            SyntaxKind::CallBlockStart => 67u16,
            SyntaxKind::CallBlockEnd => 68u16,
            SyntaxKind::FilterBlockStart => 69u16,
            SyntaxKind::FilterBlockEnd => 70u16,
            SyntaxKind::MacroBlockStart => 71u16,
            SyntaxKind::MacroBlockEnd => 72u16,
            SyntaxKind::MaterializationBlockStart => 73u16,
            SyntaxKind::MaterializationBlockEnd => 74u16,
            SyntaxKind::MaterializationDefault => 75u16,
            SyntaxKind::MaterializationAdapter => 76u16,
            SyntaxKind::TestBlockStart => 77u16,
            SyntaxKind::TestBlockEnd => 78u16,
            SyntaxKind::DocsBlockStart => 79u16,
            SyntaxKind::DocsBlockEnd => 80u16,
            SyntaxKind::SnapshotBlockStart => 81u16,
            SyntaxKind::SnapshotBlockEnd => 82u16,
            SyntaxKind::ExprData => 83u16,
            SyntaxKind::ExprName => 84u16,
            SyntaxKind::ExprConstantBool => 85u16,
            SyntaxKind::ExprConstantNone => 86u16,
            SyntaxKind::ExprConstantString => 87u16,
            SyntaxKind::ExprList => 88u16,
            SyntaxKind::ExprDict => 89u16,
            SyntaxKind::ExprTuple => 90u16,
            SyntaxKind::ExprWrapped => 91u16,
            SyntaxKind::ExprGetAttr => 92u16,
            SyntaxKind::ExprGetItem => 93u16,
            SyntaxKind::ExprSlice => 94u16,
            SyntaxKind::ExprCall => 95u16,
            SyntaxKind::ExprFilter => 96u16,
            SyntaxKind::ExprFilterName => 97u16,
            SyntaxKind::ExprTest => 98u16,
            SyntaxKind::ExprNegative => 99u16,
            SyntaxKind::ExprPositive => 100u16,
            SyntaxKind::ExprPower => 101u16,
            SyntaxKind::ExprMultiply => 102u16,
            SyntaxKind::ExprDivide => 103u16,
            SyntaxKind::ExprFloorDivide => 104u16,
            SyntaxKind::ExprModulo => 105u16,
            SyntaxKind::ExprAdd => 106u16,
            SyntaxKind::ExprSubtract => 107u16,
            SyntaxKind::ExprConcat => 108u16,
            SyntaxKind::ExprCompare => 109u16,
            SyntaxKind::ExprAnd => 110u16,
            SyntaxKind::ExprOr => 111u16,
            SyntaxKind::ExprNot => 112u16,
            SyntaxKind::ExprTernary => 113u16,
            SyntaxKind::ExprNamespaceRef => 114u16,
            SyntaxKind::ExprNestedName => 115u16,
            SyntaxKind::Variable => 116u16,
            SyntaxKind::Comment => 117u16,
            SyntaxKind::Pair => 118u16,
            SyntaxKind::Subscript => 119u16,
            SyntaxKind::Signature => 120u16,
            SyntaxKind::SignatureArg => 121u16,
            SyntaxKind::SignatureDefaultArg => 122u16,
            SyntaxKind::CallArguments => 123u16,
            SyntaxKind::CallStaticArg => 124u16,
            SyntaxKind::CallStaticKwarg => 125u16,
            SyntaxKind::CallDynamicArgs => 126u16,
            SyntaxKind::CallDynamicKwargs => 127u16,
            SyntaxKind::TestArguments => 128u16,
            SyntaxKind::Operand => 129u16,
            SyntaxKind::NameOperatorIn => 130u16,
            SyntaxKind::NameOperatorNotIn => 131u16,
            SyntaxKind::NameOperatorNot => 132u16,
            SyntaxKind::NameOperatorAnd => 133u16,
            SyntaxKind::NameOperatorOr => 134u16,
            SyntaxKind::NameOperatorIf => 135u16,
            SyntaxKind::NameOperatorElse => 136u16,
        }
    }

    #[verifier::when_used_as_spec(raw_spec)]
    pub fn raw(self) -> (r: u16)
        ensures
            r == self.raw_spec(),
            r < SYNTAX_KIND_COUNT,
    {
        match self {
            SyntaxKind::Power => 0u16,
            SyntaxKind::FloorDiv => 1u16,
            SyntaxKind::Equal => 2u16,
            SyntaxKind::NotEqual => 3u16,
            SyntaxKind::LessThanEqual => 4u16,
            SyntaxKind::GreaterThanEqual => 5u16,
            SyntaxKind::Add => 6u16,
            SyntaxKind::Subtract => 7u16,
            SyntaxKind::Multiply => 8u16,
            SyntaxKind::Div => 9u16,
            SyntaxKind::Modulo => 10u16,
            SyntaxKind::Tilde => 11u16,
            SyntaxKind::LessThan => 12u16,
            SyntaxKind::GreaterThan => 13u16,
            SyntaxKind::Assign => 14u16,
            SyntaxKind::Dot => 15u16,
            SyntaxKind::Colon => 16u16,
            SyntaxKind::Pipe => 17u16,
            SyntaxKind::Comma => 18u16,
            SyntaxKind::Semicolon => 19u16,
            SyntaxKind::LeftParen => 20u16,
            SyntaxKind::RightParen => 21u16,
            SyntaxKind::LeftBracket => 22u16,
            SyntaxKind::RightBracket => 23u16,
            SyntaxKind::LeftBrace => 24u16,
            SyntaxKind::RightBrace => 25u16,
            SyntaxKind::Whitespace => 26u16,
            SyntaxKind::Name => 27u16,
            SyntaxKind::IntegerLiteral => 28u16,
            SyntaxKind::FloatLiteral => 29u16,
            SyntaxKind::StringLiteral => 30u16,
            SyntaxKind::Operator => 31u16,
            SyntaxKind::BlockBegin => 32u16,
            SyntaxKind::BlockEnd => 33u16,
            SyntaxKind::VariableBegin => 34u16,
            SyntaxKind::VariableEnd => 35u16,
            SyntaxKind::CommentBegin => 36u16,
            SyntaxKind::CommentEnd => 37u16,
            SyntaxKind::RawBegin => 38u16,
            SyntaxKind::RawEnd => 39u16,
            SyntaxKind::Data => 40u16,
            SyntaxKind::CommentData => 41u16,
            SyntaxKind::Error => 42u16,
            SyntaxKind::Template => 43u16,
            SyntaxKind::StmtFor => 44u16,
            SyntaxKind::StmtIf => 45u16,
            SyntaxKind::StmtAssign => 46u16,
            SyntaxKind::StmtAssignBlock => 47u16,
            SyntaxKind::StmtCallBlock => 48u16,
            SyntaxKind::StmtFilterBlock => 49u16,
            SyntaxKind::StmtDo => 50u16,
            SyntaxKind::StmtMacro => 51u16,
            SyntaxKind::StmtMaterialization => 52u16,
            SyntaxKind::StmtTest => 53u16,
            SyntaxKind::StmtDocs => 54u16,
            SyntaxKind::StmtSnapshot => 55u16,
            SyntaxKind::StmtRaw => 56u16,
            SyntaxKind::StmtUnknown => 57u16,
            SyntaxKind::ForStart => 58u16,
            SyntaxKind::ForElse => 59u16,
            SyntaxKind::ForEnd => 60u16,
            SyntaxKind::IfStart => 61u16,
            SyntaxKind::IfElif => 62u16,
            SyntaxKind::IfElse => 63u16,
            SyntaxKind::IfEnd => 64u16,
            SyntaxKind::AssignBlockStart => 65u16,
            SyntaxKind::AssignBlockEnd => 66u16,
            SyntaxKind::CallBlockStart => 67u16,
            SyntaxKind::CallBlockEnd => 68u16,
            SyntaxKind::FilterBlockStart => 69u16,
            SyntaxKind::FilterBlockEnd => 70u16,
            SyntaxKind::MacroBlockStart => 71u16,
            SyntaxKind::MacroBlockEnd => 72u16,
            SyntaxKind::MaterializationBlockStart => 73u16,
            SyntaxKind::MaterializationBlockEnd => 74u16,
            SyntaxKind::MaterializationDefault => 75u16,
            SyntaxKind::MaterializationAdapter => 76u16,
            SyntaxKind::TestBlockStart => 77u16,
            SyntaxKind::TestBlockEnd => 78u16,
            SyntaxKind::DocsBlockStart => 79u16,
            SyntaxKind::DocsBlockEnd => 80u16,
            SyntaxKind::SnapshotBlockStart => 81u16,
            SyntaxKind::SnapshotBlockEnd => 82u16,
            SyntaxKind::ExprData => 83u16,
            SyntaxKind::ExprName => 84u16,
            SyntaxKind::ExprConstantBool => 85u16,
            SyntaxKind::ExprConstantNone => 86u16,
            SyntaxKind::ExprConstantString => 87u16,
            SyntaxKind::ExprList => 88u16,
            SyntaxKind::ExprDict => 89u16,
            SyntaxKind::ExprTuple => 90u16,
            SyntaxKind::ExprWrapped => 91u16,
            SyntaxKind::ExprGetAttr => 92u16,
            SyntaxKind::ExprGetItem => 93u16,
            SyntaxKind::ExprSlice => 94u16,
            SyntaxKind::ExprCall => 95u16,
            SyntaxKind::ExprFilter => 96u16,
            SyntaxKind::ExprFilterName => 97u16,
            SyntaxKind::ExprTest => 98u16,
            SyntaxKind::ExprNegative => 99u16,
            SyntaxKind::ExprPositive => 100u16,
            SyntaxKind::ExprPower => 101u16,
            SyntaxKind::ExprMultiply => 102u16,
            SyntaxKind::ExprDivide => 103u16,
            SyntaxKind::ExprFloorDivide => 104u16,
            SyntaxKind::ExprModulo => 105u16,
            SyntaxKind::ExprAdd => 106u16,
            SyntaxKind::ExprSubtract => 107u16,
            SyntaxKind::ExprConcat => 108u16,
            SyntaxKind::ExprCompare => 109u16,
            SyntaxKind::ExprAnd => 110u16,
            SyntaxKind::ExprOr => 111u16,
            SyntaxKind::ExprNot => 112u16,
            SyntaxKind::ExprTernary => 113u16,
            SyntaxKind::ExprNamespaceRef => 114u16,
            SyntaxKind::ExprNestedName => 115u16,
            SyntaxKind::Variable => 116u16,
            SyntaxKind::Comment => 117u16,
            SyntaxKind::Pair => 118u16,
            SyntaxKind::Subscript => 119u16,
            SyntaxKind::Signature => 120u16,
            SyntaxKind::SignatureArg => 121u16,
            SyntaxKind::SignatureDefaultArg => 122u16,
            SyntaxKind::CallArguments => 123u16,
            SyntaxKind::CallStaticArg => 124u16,
            SyntaxKind::CallStaticKwarg => 125u16,
            SyntaxKind::CallDynamicArgs => 126u16,
            SyntaxKind::CallDynamicKwargs => 127u16,
            SyntaxKind::TestArguments => 128u16,
            SyntaxKind::Operand => 129u16,
            SyntaxKind::NameOperatorIn => 130u16,
            SyntaxKind::NameOperatorNotIn => 131u16,
            SyntaxKind::NameOperatorNot => 132u16,
            SyntaxKind::NameOperatorAnd => 133u16,
            SyntaxKind::NameOperatorOr => 134u16,
            SyntaxKind::NameOperatorIf => 135u16,
            SyntaxKind::NameOperatorElse => 136u16,
        }
    }

    /// The kind that a raw number stands for.
    pub open spec fn from_raw_spec(raw: u16) -> Option<SyntaxKind> {
        match raw {
            0u16 => Some(SyntaxKind::Power),
            1u16 => Some(SyntaxKind::FloorDiv),
            2u16 => Some(SyntaxKind::Equal),
            3u16 => Some(SyntaxKind::NotEqual),
            4u16 => Some(SyntaxKind::LessThanEqual),
            5u16 => Some(SyntaxKind::GreaterThanEqual),
            6u16 => Some(SyntaxKind::Add),
            7u16 => Some(SyntaxKind::Subtract),
            8u16 => Some(SyntaxKind::Multiply),
            9u16 => Some(SyntaxKind::Div),
            10u16 => Some(SyntaxKind::Modulo),
            11u16 => Some(SyntaxKind::Tilde),
            12u16 => Some(SyntaxKind::LessThan),
            13u16 => Some(SyntaxKind::GreaterThan),
            14u16 => Some(SyntaxKind::Assign),
            15u16 => Some(SyntaxKind::Dot),
            16u16 => Some(SyntaxKind::Colon),
            17u16 => Some(SyntaxKind::Pipe),
            18u16 => Some(SyntaxKind::Comma),
            19u16 => Some(SyntaxKind::Semicolon),
            20u16 => Some(SyntaxKind::LeftParen),
            21u16 => Some(SyntaxKind::RightParen),
            22u16 => Some(SyntaxKind::LeftBracket),
            23u16 => Some(SyntaxKind::RightBracket),
            24u16 => Some(SyntaxKind::LeftBrace),
            25u16 => Some(SyntaxKind::RightBrace),
            26u16 => Some(SyntaxKind::Whitespace),
            27u16 => Some(SyntaxKind::Name),
            28u16 => Some(SyntaxKind::IntegerLiteral),
            29u16 => Some(SyntaxKind::FloatLiteral),
            30u16 => Some(SyntaxKind::StringLiteral),
            31u16 => Some(SyntaxKind::Operator),
            32u16 => Some(SyntaxKind::BlockBegin),
            33u16 => Some(SyntaxKind::BlockEnd),
            34u16 => Some(SyntaxKind::VariableBegin),
            35u16 => Some(SyntaxKind::VariableEnd),
            36u16 => Some(SyntaxKind::CommentBegin),
            37u16 => Some(SyntaxKind::CommentEnd),
            38u16 => Some(SyntaxKind::RawBegin),
            39u16 => Some(SyntaxKind::RawEnd),
            40u16 => Some(SyntaxKind::Data),
            41u16 => Some(SyntaxKind::CommentData),
            42u16 => Some(SyntaxKind::Error),
            43u16 => Some(SyntaxKind::Template),
            44u16 => Some(SyntaxKind::StmtFor),
            45u16 => Some(SyntaxKind::StmtIf),
            46u16 => Some(SyntaxKind::StmtAssign),
            47u16 => Some(SyntaxKind::StmtAssignBlock),
            48u16 => Some(SyntaxKind::StmtCallBlock),
            49u16 => Some(SyntaxKind::StmtFilterBlock),
            50u16 => Some(SyntaxKind::StmtDo),
            51u16 => Some(SyntaxKind::StmtMacro),
            52u16 => Some(SyntaxKind::StmtMaterialization),
            53u16 => Some(SyntaxKind::StmtTest),
            54u16 => Some(SyntaxKind::StmtDocs),
            55u16 => Some(SyntaxKind::StmtSnapshot),
            56u16 => Some(SyntaxKind::StmtRaw),
            57u16 => Some(SyntaxKind::StmtUnknown),
            58u16 => Some(SyntaxKind::ForStart),
            59u16 => Some(SyntaxKind::ForElse),
            60u16 => Some(SyntaxKind::ForEnd),
            61u16 => Some(SyntaxKind::IfStart),
            62u16 => Some(SyntaxKind::IfElif),
            63u16 => Some(SyntaxKind::IfElse),
            64u16 => Some(SyntaxKind::IfEnd),
            65u16 => Some(SyntaxKind::AssignBlockStart),
            66u16 => Some(SyntaxKind::AssignBlockEnd),
            67u16 => Some(SyntaxKind::CallBlockStart),
            68u16 => Some(SyntaxKind::CallBlockEnd),
            69u16 => Some(SyntaxKind::FilterBlockStart),
            70u16 => Some(SyntaxKind::FilterBlockEnd),
            71u16 => Some(SyntaxKind::MacroBlockStart),
            72u16 => Some(SyntaxKind::MacroBlockEnd),
            73u16 => Some(SyntaxKind::MaterializationBlockStart),
            74u16 => Some(SyntaxKind::MaterializationBlockEnd),
            75u16 => Some(SyntaxKind::MaterializationDefault),
            76u16 => Some(SyntaxKind::MaterializationAdapter),
            77u16 => Some(SyntaxKind::TestBlockStart),
            78u16 => Some(SyntaxKind::TestBlockEnd),
            79u16 => Some(SyntaxKind::DocsBlockStart),
            80u16 => Some(SyntaxKind::DocsBlockEnd),
            81u16 => Some(SyntaxKind::SnapshotBlockStart),
            82u16 => Some(SyntaxKind::SnapshotBlockEnd),
            83u16 => Some(SyntaxKind::ExprData),
            84u16 => Some(SyntaxKind::ExprName),
            85u16 => Some(SyntaxKind::ExprConstantBool),
            86u16 => Some(SyntaxKind::ExprConstantNone),
            87u16 => Some(SyntaxKind::ExprConstantString),
            88u16 => Some(SyntaxKind::ExprList),
            89u16 => Some(SyntaxKind::ExprDict),
            90u16 => Some(SyntaxKind::ExprTuple),
            91u16 => Some(SyntaxKind::ExprWrapped),
            92u16 => Some(SyntaxKind::ExprGetAttr),
            93u16 => Some(SyntaxKind::ExprGetItem),
            94u16 => Some(SyntaxKind::ExprSlice),
            95u16 => Some(SyntaxKind::ExprCall),
            96u16 => Some(SyntaxKind::ExprFilter),
            97u16 => Some(SyntaxKind::ExprFilterName),
            98u16 => Some(SyntaxKind::ExprTest),
            99u16 => Some(SyntaxKind::ExprNegative),
            100u16 => Some(SyntaxKind::ExprPositive),
            101u16 => Some(SyntaxKind::ExprPower),
            102u16 => Some(SyntaxKind::ExprMultiply),
            103u16 => Some(SyntaxKind::ExprDivide),
            104u16 => Some(SyntaxKind::ExprFloorDivide),
            105u16 => Some(SyntaxKind::ExprModulo),
            106u16 => Some(SyntaxKind::ExprAdd),
            107u16 => Some(SyntaxKind::ExprSubtract),
            108u16 => Some(SyntaxKind::ExprConcat),
            109u16 => Some(SyntaxKind::ExprCompare),
            110u16 => Some(SyntaxKind::ExprAnd),
            111u16 => Some(SyntaxKind::ExprOr),
            112u16 => Some(SyntaxKind::ExprNot),
            113u16 => Some(SyntaxKind::ExprTernary),
            114u16 => Some(SyntaxKind::ExprNamespaceRef),
            115u16 => Some(SyntaxKind::ExprNestedName),
            116u16 => Some(SyntaxKind::Variable),
            117u16 => Some(SyntaxKind::Comment),
            118u16 => Some(SyntaxKind::Pair),
            119u16 => Some(SyntaxKind::Subscript),
            120u16 => Some(SyntaxKind::Signature),
            121u16 => Some(SyntaxKind::SignatureArg),
            122u16 => Some(SyntaxKind::SignatureDefaultArg),
            123u16 => Some(SyntaxKind::CallArguments),
            124u16 => Some(SyntaxKind::CallStaticArg),
            125u16 => Some(SyntaxKind::CallStaticKwarg),
            126u16 => Some(SyntaxKind::CallDynamicArgs),
            127u16 => Some(SyntaxKind::CallDynamicKwargs),
            128u16 => Some(SyntaxKind::TestArguments),
            129u16 => Some(SyntaxKind::Operand),
            130u16 => Some(SyntaxKind::NameOperatorIn),
            131u16 => Some(SyntaxKind::NameOperatorNotIn),
            132u16 => Some(SyntaxKind::NameOperatorNot),
            133u16 => Some(SyntaxKind::NameOperatorAnd),
            134u16 => Some(SyntaxKind::NameOperatorOr),
            135u16 => Some(SyntaxKind::NameOperatorIf),
            136u16 => Some(SyntaxKind::NameOperatorElse),
            _ => None,
        }
    }

    pub fn from_raw(raw: u16) -> (r: Option<SyntaxKind>)
        ensures
            r == Self::from_raw_spec(raw),
            r is Some <==> raw < SYNTAX_KIND_COUNT,
            r matches Some(k) ==> k.raw_spec() == raw,
    {
        match raw {
            0u16 => Some(SyntaxKind::Power),
            1u16 => Some(SyntaxKind::FloorDiv),
            2u16 => Some(SyntaxKind::Equal),
            3u16 => Some(SyntaxKind::NotEqual),
            4u16 => Some(SyntaxKind::LessThanEqual),
            5u16 => Some(SyntaxKind::GreaterThanEqual),
            6u16 => Some(SyntaxKind::Add),
            7u16 => Some(SyntaxKind::Subtract),
            8u16 => Some(SyntaxKind::Multiply),
            9u16 => Some(SyntaxKind::Div),
            10u16 => Some(SyntaxKind::Modulo),
            11u16 => Some(SyntaxKind::Tilde),
            12u16 => Some(SyntaxKind::LessThan),
            13u16 => Some(SyntaxKind::GreaterThan),
            14u16 => Some(SyntaxKind::Assign),
            15u16 => Some(SyntaxKind::Dot),
            16u16 => Some(SyntaxKind::Colon),
            17u16 => Some(SyntaxKind::Pipe),
            18u16 => Some(SyntaxKind::Comma),
            19u16 => Some(SyntaxKind::Semicolon),
            20u16 => Some(SyntaxKind::LeftParen),
            21u16 => Some(SyntaxKind::RightParen),
            22u16 => Some(SyntaxKind::LeftBracket),
            23u16 => Some(SyntaxKind::RightBracket),
            24u16 => Some(SyntaxKind::LeftBrace),
            25u16 => Some(SyntaxKind::RightBrace),
            26u16 => Some(SyntaxKind::Whitespace),
            27u16 => Some(SyntaxKind::Name),
            28u16 => Some(SyntaxKind::IntegerLiteral),
            29u16 => Some(SyntaxKind::FloatLiteral),
            30u16 => Some(SyntaxKind::StringLiteral),
            31u16 => Some(SyntaxKind::Operator),
            32u16 => Some(SyntaxKind::BlockBegin),
            33u16 => Some(SyntaxKind::BlockEnd),
            34u16 => Some(SyntaxKind::VariableBegin),
            35u16 => Some(SyntaxKind::VariableEnd),
            36u16 => Some(SyntaxKind::CommentBegin),
            37u16 => Some(SyntaxKind::CommentEnd),
            38u16 => Some(SyntaxKind::RawBegin),
            39u16 => Some(SyntaxKind::RawEnd),
            40u16 => Some(SyntaxKind::Data),
            41u16 => Some(SyntaxKind::CommentData),
            42u16 => Some(SyntaxKind::Error),
            43u16 => Some(SyntaxKind::Template),
            44u16 => Some(SyntaxKind::StmtFor),
            45u16 => Some(SyntaxKind::StmtIf),
            46u16 => Some(SyntaxKind::StmtAssign),
            47u16 => Some(SyntaxKind::StmtAssignBlock),
            48u16 => Some(SyntaxKind::StmtCallBlock),
            49u16 => Some(SyntaxKind::StmtFilterBlock),
            50u16 => Some(SyntaxKind::StmtDo),
            51u16 => Some(SyntaxKind::StmtMacro),
            52u16 => Some(SyntaxKind::StmtMaterialization),
            53u16 => Some(SyntaxKind::StmtTest),
            54u16 => Some(SyntaxKind::StmtDocs),
            55u16 => Some(SyntaxKind::StmtSnapshot),
            56u16 => Some(SyntaxKind::StmtRaw),
            57u16 => Some(SyntaxKind::StmtUnknown),
            58u16 => Some(SyntaxKind::ForStart),
            59u16 => Some(SyntaxKind::ForElse),
            60u16 => Some(SyntaxKind::ForEnd),
            61u16 => Some(SyntaxKind::IfStart),
            62u16 => Some(SyntaxKind::IfElif),
            63u16 => Some(SyntaxKind::IfElse),
            64u16 => Some(SyntaxKind::IfEnd),
            65u16 => Some(SyntaxKind::AssignBlockStart),
            66u16 => Some(SyntaxKind::AssignBlockEnd),
            67u16 => Some(SyntaxKind::CallBlockStart),
            68u16 => Some(SyntaxKind::CallBlockEnd),
            69u16 => Some(SyntaxKind::FilterBlockStart),
            70u16 => Some(SyntaxKind::FilterBlockEnd),
            71u16 => Some(SyntaxKind::MacroBlockStart),
            72u16 => Some(SyntaxKind::MacroBlockEnd),
            73u16 => Some(SyntaxKind::MaterializationBlockStart),
            74u16 => Some(SyntaxKind::MaterializationBlockEnd),
            75u16 => Some(SyntaxKind::MaterializationDefault),
            76u16 => Some(SyntaxKind::MaterializationAdapter),
            77u16 => Some(SyntaxKind::TestBlockStart),
            78u16 => Some(SyntaxKind::TestBlockEnd),
            79u16 => Some(SyntaxKind::DocsBlockStart),
            80u16 => Some(SyntaxKind::DocsBlockEnd),
            81u16 => Some(SyntaxKind::SnapshotBlockStart),
            82u16 => Some(SyntaxKind::SnapshotBlockEnd),
            83u16 => Some(SyntaxKind::ExprData),
            84u16 => Some(SyntaxKind::ExprName),
            85u16 => Some(SyntaxKind::ExprConstantBool),
            86u16 => Some(SyntaxKind::ExprConstantNone),
            87u16 => Some(SyntaxKind::ExprConstantString),
            88u16 => Some(SyntaxKind::ExprList),
            89u16 => Some(SyntaxKind::ExprDict),
            90u16 => Some(SyntaxKind::ExprTuple),
            91u16 => Some(SyntaxKind::ExprWrapped),
            92u16 => Some(SyntaxKind::ExprGetAttr),
            93u16 => Some(SyntaxKind::ExprGetItem),
            94u16 => Some(SyntaxKind::ExprSlice),
            95u16 => Some(SyntaxKind::ExprCall),
            96u16 => Some(SyntaxKind::ExprFilter),
            97u16 => Some(SyntaxKind::ExprFilterName),
            98u16 => Some(SyntaxKind::ExprTest),
            99u16 => Some(SyntaxKind::ExprNegative),
            100u16 => Some(SyntaxKind::ExprPositive),
            101u16 => Some(SyntaxKind::ExprPower),
            102u16 => Some(SyntaxKind::ExprMultiply),
            103u16 => Some(SyntaxKind::ExprDivide),
            104u16 => Some(SyntaxKind::ExprFloorDivide),
            105u16 => Some(SyntaxKind::ExprModulo),
            106u16 => Some(SyntaxKind::ExprAdd),
            107u16 => Some(SyntaxKind::ExprSubtract),
            108u16 => Some(SyntaxKind::ExprConcat),
            109u16 => Some(SyntaxKind::ExprCompare),
            110u16 => Some(SyntaxKind::ExprAnd),
            111u16 => Some(SyntaxKind::ExprOr),
            112u16 => Some(SyntaxKind::ExprNot),
            113u16 => Some(SyntaxKind::ExprTernary),
            114u16 => Some(SyntaxKind::ExprNamespaceRef),
            115u16 => Some(SyntaxKind::ExprNestedName),
            116u16 => Some(SyntaxKind::Variable),
            117u16 => Some(SyntaxKind::Comment),
            118u16 => Some(SyntaxKind::Pair),
            119u16 => Some(SyntaxKind::Subscript),
            120u16 => Some(SyntaxKind::Signature),
            121u16 => Some(SyntaxKind::SignatureArg),
            122u16 => Some(SyntaxKind::SignatureDefaultArg),
            123u16 => Some(SyntaxKind::CallArguments),
            124u16 => Some(SyntaxKind::CallStaticArg),
            125u16 => Some(SyntaxKind::CallStaticKwarg),
            126u16 => Some(SyntaxKind::CallDynamicArgs),
            127u16 => Some(SyntaxKind::CallDynamicKwargs),
            128u16 => Some(SyntaxKind::TestArguments),
            129u16 => Some(SyntaxKind::Operand),
            130u16 => Some(SyntaxKind::NameOperatorIn),
            131u16 => Some(SyntaxKind::NameOperatorNotIn),
            132u16 => Some(SyntaxKind::NameOperatorNot),
            133u16 => Some(SyntaxKind::NameOperatorAnd),
            134u16 => Some(SyntaxKind::NameOperatorOr),
            135u16 => Some(SyntaxKind::NameOperatorIf),
            136u16 => Some(SyntaxKind::NameOperatorElse),
            _ => None,
        }
    }

    /// The kind of the leaf that holds a token of kind `kind`.
    pub open spec fn of_token(kind: TokenKind) -> SyntaxKind {
        match kind {
            TokenKind::Power => SyntaxKind::Power,
            TokenKind::FloorDiv => SyntaxKind::FloorDiv,
            TokenKind::Equal => SyntaxKind::Equal,
            TokenKind::NotEqual => SyntaxKind::NotEqual,
            TokenKind::LessThanEqual => SyntaxKind::LessThanEqual,
            TokenKind::GreaterThanEqual => SyntaxKind::GreaterThanEqual,
            TokenKind::Add => SyntaxKind::Add,
            TokenKind::Subtract => SyntaxKind::Subtract,
            TokenKind::Multiply => SyntaxKind::Multiply,
            TokenKind::Div => SyntaxKind::Div,
            TokenKind::Modulo => SyntaxKind::Modulo,
            TokenKind::Tilde => SyntaxKind::Tilde,
            TokenKind::LessThan => SyntaxKind::LessThan,
            TokenKind::GreaterThan => SyntaxKind::GreaterThan,
            TokenKind::Assign => SyntaxKind::Assign,
            TokenKind::Dot => SyntaxKind::Dot,
            TokenKind::Colon => SyntaxKind::Colon,
            TokenKind::Pipe => SyntaxKind::Pipe,
            TokenKind::Comma => SyntaxKind::Comma,
            TokenKind::Semicolon => SyntaxKind::Semicolon,
            TokenKind::LeftParen => SyntaxKind::LeftParen,
            TokenKind::RightParen => SyntaxKind::RightParen,
            TokenKind::LeftBracket => SyntaxKind::LeftBracket,
            TokenKind::RightBracket => SyntaxKind::RightBracket,
            TokenKind::LeftBrace => SyntaxKind::LeftBrace,
            TokenKind::RightBrace => SyntaxKind::RightBrace,
            TokenKind::Whitespace => SyntaxKind::Whitespace,
            TokenKind::Name => SyntaxKind::Name,
            TokenKind::IntegerLiteral => SyntaxKind::IntegerLiteral,
            TokenKind::FloatLiteral => SyntaxKind::FloatLiteral,
            TokenKind::StringLiteral => SyntaxKind::StringLiteral,
            TokenKind::Operator => SyntaxKind::Operator,
            TokenKind::BlockBegin => SyntaxKind::BlockBegin,
            TokenKind::BlockEnd => SyntaxKind::BlockEnd,
            TokenKind::VariableBegin => SyntaxKind::VariableBegin,
            TokenKind::VariableEnd => SyntaxKind::VariableEnd,
            TokenKind::CommentBegin => SyntaxKind::CommentBegin,
            TokenKind::CommentEnd => SyntaxKind::CommentEnd,
            TokenKind::RawBegin => SyntaxKind::RawBegin,
            TokenKind::RawEnd => SyntaxKind::RawEnd,
            TokenKind::Data => SyntaxKind::Data,
            TokenKind::CommentData => SyntaxKind::CommentData,
            TokenKind::Error => SyntaxKind::Error,
        }
    }

    /// The token kind that the kind takes over unchanged, if it is one.
    pub open spec fn as_token_spec(self) -> Option<TokenKind> {
        match self {
            SyntaxKind::Power => Some(TokenKind::Power),
            SyntaxKind::FloorDiv => Some(TokenKind::FloorDiv),
            SyntaxKind::Equal => Some(TokenKind::Equal),
            SyntaxKind::NotEqual => Some(TokenKind::NotEqual),
            SyntaxKind::LessThanEqual => Some(TokenKind::LessThanEqual),
            SyntaxKind::GreaterThanEqual => Some(TokenKind::GreaterThanEqual),
            SyntaxKind::Add => Some(TokenKind::Add),
            SyntaxKind::Subtract => Some(TokenKind::Subtract),
            SyntaxKind::Multiply => Some(TokenKind::Multiply),
            SyntaxKind::Div => Some(TokenKind::Div),
            SyntaxKind::Modulo => Some(TokenKind::Modulo),
            SyntaxKind::Tilde => Some(TokenKind::Tilde),
            SyntaxKind::LessThan => Some(TokenKind::LessThan),
            SyntaxKind::GreaterThan => Some(TokenKind::GreaterThan),
            SyntaxKind::Assign => Some(TokenKind::Assign),
            SyntaxKind::Dot => Some(TokenKind::Dot),
            SyntaxKind::Colon => Some(TokenKind::Colon),
            SyntaxKind::Pipe => Some(TokenKind::Pipe),
            SyntaxKind::Comma => Some(TokenKind::Comma),
            SyntaxKind::Semicolon => Some(TokenKind::Semicolon),
            SyntaxKind::LeftParen => Some(TokenKind::LeftParen),
            SyntaxKind::RightParen => Some(TokenKind::RightParen),
            SyntaxKind::LeftBracket => Some(TokenKind::LeftBracket),
            SyntaxKind::RightBracket => Some(TokenKind::RightBracket),
            SyntaxKind::LeftBrace => Some(TokenKind::LeftBrace),
            SyntaxKind::RightBrace => Some(TokenKind::RightBrace),
            SyntaxKind::Whitespace => Some(TokenKind::Whitespace),
            SyntaxKind::Name => Some(TokenKind::Name),
            SyntaxKind::IntegerLiteral => Some(TokenKind::IntegerLiteral),
            SyntaxKind::FloatLiteral => Some(TokenKind::FloatLiteral),
            SyntaxKind::StringLiteral => Some(TokenKind::StringLiteral),
            SyntaxKind::Operator => Some(TokenKind::Operator),
            SyntaxKind::BlockBegin => Some(TokenKind::BlockBegin),
            SyntaxKind::BlockEnd => Some(TokenKind::BlockEnd),
            SyntaxKind::VariableBegin => Some(TokenKind::VariableBegin),
            SyntaxKind::VariableEnd => Some(TokenKind::VariableEnd),
            SyntaxKind::CommentBegin => Some(TokenKind::CommentBegin),
            SyntaxKind::CommentEnd => Some(TokenKind::CommentEnd),
            SyntaxKind::RawBegin => Some(TokenKind::RawBegin),
            SyntaxKind::RawEnd => Some(TokenKind::RawEnd),
            SyntaxKind::Data => Some(TokenKind::Data),
            SyntaxKind::CommentData => Some(TokenKind::CommentData),
            SyntaxKind::Error => Some(TokenKind::Error),
            _ => None,
        }
    }

    pub fn as_token(self) -> (r: Option<TokenKind>)
        ensures
            r == self.as_token_spec(),
    {
        match self {
            SyntaxKind::Power => Some(TokenKind::Power),
            SyntaxKind::FloorDiv => Some(TokenKind::FloorDiv),
            SyntaxKind::Equal => Some(TokenKind::Equal),
            SyntaxKind::NotEqual => Some(TokenKind::NotEqual),
            SyntaxKind::LessThanEqual => Some(TokenKind::LessThanEqual),
            SyntaxKind::GreaterThanEqual => Some(TokenKind::GreaterThanEqual),
            SyntaxKind::Add => Some(TokenKind::Add),
            SyntaxKind::Subtract => Some(TokenKind::Subtract),
            SyntaxKind::Multiply => Some(TokenKind::Multiply),
            SyntaxKind::Div => Some(TokenKind::Div),
            SyntaxKind::Modulo => Some(TokenKind::Modulo),
            SyntaxKind::Tilde => Some(TokenKind::Tilde),
            SyntaxKind::LessThan => Some(TokenKind::LessThan),
            SyntaxKind::GreaterThan => Some(TokenKind::GreaterThan),
            SyntaxKind::Assign => Some(TokenKind::Assign),
            SyntaxKind::Dot => Some(TokenKind::Dot),
            SyntaxKind::Colon => Some(TokenKind::Colon),
            SyntaxKind::Pipe => Some(TokenKind::Pipe),
            SyntaxKind::Comma => Some(TokenKind::Comma),
            SyntaxKind::Semicolon => Some(TokenKind::Semicolon),
            SyntaxKind::LeftParen => Some(TokenKind::LeftParen),
            SyntaxKind::RightParen => Some(TokenKind::RightParen),
            SyntaxKind::LeftBracket => Some(TokenKind::LeftBracket),
            SyntaxKind::RightBracket => Some(TokenKind::RightBracket),
            SyntaxKind::LeftBrace => Some(TokenKind::LeftBrace),
            SyntaxKind::RightBrace => Some(TokenKind::RightBrace),
            SyntaxKind::Whitespace => Some(TokenKind::Whitespace),
            SyntaxKind::Name => Some(TokenKind::Name),
            SyntaxKind::IntegerLiteral => Some(TokenKind::IntegerLiteral),
            SyntaxKind::FloatLiteral => Some(TokenKind::FloatLiteral),
            SyntaxKind::StringLiteral => Some(TokenKind::StringLiteral),
            SyntaxKind::Operator => Some(TokenKind::Operator),
            SyntaxKind::BlockBegin => Some(TokenKind::BlockBegin),
            SyntaxKind::BlockEnd => Some(TokenKind::BlockEnd),
            SyntaxKind::VariableBegin => Some(TokenKind::VariableBegin),
            SyntaxKind::VariableEnd => Some(TokenKind::VariableEnd),
            SyntaxKind::CommentBegin => Some(TokenKind::CommentBegin),
            SyntaxKind::CommentEnd => Some(TokenKind::CommentEnd),
            SyntaxKind::RawBegin => Some(TokenKind::RawBegin),
            SyntaxKind::RawEnd => Some(TokenKind::RawEnd),
            SyntaxKind::Data => Some(TokenKind::Data),
            SyntaxKind::CommentData => Some(TokenKind::CommentData),
            SyntaxKind::Error => Some(TokenKind::Error),
            _ => None,
        }
    }

    /// The name of the kind.
    pub open spec fn name_spec(self) -> Seq<char> {
        match self {
            SyntaxKind::Power => "Power"@,
            SyntaxKind::FloorDiv => "FloorDiv"@,
            SyntaxKind::Equal => "Equal"@,
            SyntaxKind::NotEqual => "NotEqual"@,
            SyntaxKind::LessThanEqual => "LessThanEqual"@,
            SyntaxKind::GreaterThanEqual => "GreaterThanEqual"@,
            SyntaxKind::Add => "Add"@,
            SyntaxKind::Subtract => "Subtract"@,
            SyntaxKind::Multiply => "Multiply"@,
            SyntaxKind::Div => "Div"@,
            SyntaxKind::Modulo => "Modulo"@,
            SyntaxKind::Tilde => "Tilde"@,
            SyntaxKind::LessThan => "LessThan"@,
            SyntaxKind::GreaterThan => "GreaterThan"@,
            SyntaxKind::Assign => "Assign"@,
            SyntaxKind::Dot => "Dot"@,
            SyntaxKind::Colon => "Colon"@,
            SyntaxKind::Pipe => "Pipe"@,
            SyntaxKind::Comma => "Comma"@,
            SyntaxKind::Semicolon => "Semicolon"@,
            SyntaxKind::LeftParen => "LeftParen"@,
            SyntaxKind::RightParen => "RightParen"@,
            SyntaxKind::LeftBracket => "LeftBracket"@,
            SyntaxKind::RightBracket => "RightBracket"@,
            SyntaxKind::LeftBrace => "LeftBrace"@,
            SyntaxKind::RightBrace => "RightBrace"@,
            SyntaxKind::Whitespace => "Whitespace"@,
            SyntaxKind::Name => "Name"@,
            SyntaxKind::IntegerLiteral => "IntegerLiteral"@,
            SyntaxKind::FloatLiteral => "FloatLiteral"@,
            SyntaxKind::StringLiteral => "StringLiteral"@,
            SyntaxKind::Operator => "Operator"@,
            SyntaxKind::BlockBegin => "BlockBegin"@,
            SyntaxKind::BlockEnd => "BlockEnd"@,
            SyntaxKind::VariableBegin => "VariableBegin"@,
            SyntaxKind::VariableEnd => "VariableEnd"@,
            SyntaxKind::CommentBegin => "CommentBegin"@,
            SyntaxKind::CommentEnd => "CommentEnd"@,
            SyntaxKind::RawBegin => "RawBegin"@,
            SyntaxKind::RawEnd => "RawEnd"@,
            SyntaxKind::Data => "Data"@,
            SyntaxKind::CommentData => "CommentData"@,
            SyntaxKind::Error => "Error"@,
            SyntaxKind::Template => "Template"@,
            SyntaxKind::StmtFor => "StmtFor"@,
            SyntaxKind::StmtIf => "StmtIf"@,
            SyntaxKind::StmtAssign => "StmtAssign"@,
            SyntaxKind::StmtAssignBlock => "StmtAssignBlock"@,
            SyntaxKind::StmtCallBlock => "StmtCallBlock"@,
            SyntaxKind::StmtFilterBlock => "StmtFilterBlock"@,
            SyntaxKind::StmtDo => "StmtDo"@,
            SyntaxKind::StmtMacro => "StmtMacro"@,
            SyntaxKind::StmtMaterialization => "StmtMaterialization"@,
            SyntaxKind::StmtTest => "StmtTest"@,
            SyntaxKind::StmtDocs => "StmtDocs"@,
            SyntaxKind::StmtSnapshot => "StmtSnapshot"@,
            SyntaxKind::StmtRaw => "StmtRaw"@,
            SyntaxKind::StmtUnknown => "StmtUnknown"@,
            SyntaxKind::ForStart => "ForStart"@,
            SyntaxKind::ForElse => "ForElse"@,
            SyntaxKind::ForEnd => "ForEnd"@,
            SyntaxKind::IfStart => "IfStart"@,
            SyntaxKind::IfElif => "IfElif"@,
            SyntaxKind::IfElse => "IfElse"@,
            SyntaxKind::IfEnd => "IfEnd"@,
            SyntaxKind::AssignBlockStart => "AssignBlockStart"@,
            SyntaxKind::AssignBlockEnd => "AssignBlockEnd"@,
            SyntaxKind::CallBlockStart => "CallBlockStart"@,
            SyntaxKind::CallBlockEnd => "CallBlockEnd"@,
            SyntaxKind::FilterBlockStart => "FilterBlockStart"@,
            SyntaxKind::FilterBlockEnd => "FilterBlockEnd"@,
            SyntaxKind::MacroBlockStart => "MacroBlockStart"@,
            SyntaxKind::MacroBlockEnd => "MacroBlockEnd"@,
            SyntaxKind::MaterializationBlockStart => "MaterializationBlockStart"@,
            SyntaxKind::MaterializationBlockEnd => "MaterializationBlockEnd"@,
            SyntaxKind::MaterializationDefault => "MaterializationDefault"@,
            SyntaxKind::MaterializationAdapter => "MaterializationAdapter"@,
            SyntaxKind::TestBlockStart => "TestBlockStart"@,
            SyntaxKind::TestBlockEnd => "TestBlockEnd"@,
            SyntaxKind::DocsBlockStart => "DocsBlockStart"@,
            SyntaxKind::DocsBlockEnd => "DocsBlockEnd"@,
            SyntaxKind::SnapshotBlockStart => "SnapshotBlockStart"@,
            SyntaxKind::SnapshotBlockEnd => "SnapshotBlockEnd"@,
            SyntaxKind::ExprData => "ExprData"@,
            SyntaxKind::ExprName => "ExprName"@,
            SyntaxKind::ExprConstantBool => "ExprConstantBool"@,
            SyntaxKind::ExprConstantNone => "ExprConstantNone"@,
            SyntaxKind::ExprConstantString => "ExprConstantString"@,
            SyntaxKind::ExprList => "ExprList"@,
            SyntaxKind::ExprDict => "ExprDict"@,
            SyntaxKind::ExprTuple => "ExprTuple"@,
            SyntaxKind::ExprWrapped => "ExprWrapped"@,
            SyntaxKind::ExprGetAttr => "ExprGetAttr"@,
            SyntaxKind::ExprGetItem => "ExprGetItem"@,
            SyntaxKind::ExprSlice => "ExprSlice"@,
            SyntaxKind::ExprCall => "ExprCall"@,
            SyntaxKind::ExprFilter => "ExprFilter"@,
            SyntaxKind::ExprFilterName => "ExprFilterName"@,
            SyntaxKind::ExprTest => "ExprTest"@,
            SyntaxKind::ExprNegative => "ExprNegative"@,
            SyntaxKind::ExprPositive => "ExprPositive"@,
            SyntaxKind::ExprPower => "ExprPower"@,
            SyntaxKind::ExprMultiply => "ExprMultiply"@,
            SyntaxKind::ExprDivide => "ExprDivide"@,
            SyntaxKind::ExprFloorDivide => "ExprFloorDivide"@,
            SyntaxKind::ExprModulo => "ExprModulo"@,
            SyntaxKind::ExprAdd => "ExprAdd"@,
            SyntaxKind::ExprSubtract => "ExprSubtract"@,
            SyntaxKind::ExprConcat => "ExprConcat"@,
            SyntaxKind::ExprCompare => "ExprCompare"@,
            SyntaxKind::ExprAnd => "ExprAnd"@,
            SyntaxKind::ExprOr => "ExprOr"@,
            SyntaxKind::ExprNot => "ExprNot"@,
            SyntaxKind::ExprTernary => "ExprTernary"@,
            SyntaxKind::ExprNamespaceRef => "ExprNamespaceRef"@,
            SyntaxKind::ExprNestedName => "ExprNestedName"@,
            SyntaxKind::Variable => "Variable"@,
            SyntaxKind::Comment => "Comment"@,
            SyntaxKind::Pair => "Pair"@,
            SyntaxKind::Subscript => "Subscript"@,
            SyntaxKind::Signature => "Signature"@,
            SyntaxKind::SignatureArg => "SignatureArg"@,
            SyntaxKind::SignatureDefaultArg => "SignatureDefaultArg"@,
            SyntaxKind::CallArguments => "CallArguments"@,
            SyntaxKind::CallStaticArg => "CallStaticArg"@,
            SyntaxKind::CallStaticKwarg => "CallStaticKwarg"@,
            SyntaxKind::CallDynamicArgs => "CallDynamicArgs"@,
            SyntaxKind::CallDynamicKwargs => "CallDynamicKwargs"@,
            SyntaxKind::TestArguments => "TestArguments"@,
            SyntaxKind::Operand => "Operand"@,
            SyntaxKind::NameOperatorIn => "NameOperatorIn"@,
            SyntaxKind::NameOperatorNotIn => "NameOperatorNotIn"@,
            SyntaxKind::NameOperatorNot => "NameOperatorNot"@,
            SyntaxKind::NameOperatorAnd => "NameOperatorAnd"@,
            SyntaxKind::NameOperatorOr => "NameOperatorOr"@,
            SyntaxKind::NameOperatorIf => "NameOperatorIf"@,
            SyntaxKind::NameOperatorElse => "NameOperatorElse"@,
        }
    }

    pub fn name(self) -> (r: &'static str)
        ensures
            r@ == self.name_spec(),
    {
        match self {
            SyntaxKind::Power => "Power",
            SyntaxKind::FloorDiv => "FloorDiv",
            SyntaxKind::Equal => "Equal",
            SyntaxKind::NotEqual => "NotEqual",
            SyntaxKind::LessThanEqual => "LessThanEqual",
            SyntaxKind::GreaterThanEqual => "GreaterThanEqual",
            SyntaxKind::Add => "Add",
            SyntaxKind::Subtract => "Subtract",
            SyntaxKind::Multiply => "Multiply",
            SyntaxKind::Div => "Div",
            SyntaxKind::Modulo => "Modulo",
            SyntaxKind::Tilde => "Tilde",
            SyntaxKind::LessThan => "LessThan",
            SyntaxKind::GreaterThan => "GreaterThan",
            SyntaxKind::Assign => "Assign",
            SyntaxKind::Dot => "Dot",
            SyntaxKind::Colon => "Colon",
            SyntaxKind::Pipe => "Pipe",
            SyntaxKind::Comma => "Comma",
            SyntaxKind::Semicolon => "Semicolon",
            SyntaxKind::LeftParen => "LeftParen",
            SyntaxKind::RightParen => "RightParen",
            SyntaxKind::LeftBracket => "LeftBracket",
            SyntaxKind::RightBracket => "RightBracket",
            SyntaxKind::LeftBrace => "LeftBrace",
            SyntaxKind::RightBrace => "RightBrace",
            SyntaxKind::Whitespace => "Whitespace",
            SyntaxKind::Name => "Name",
            SyntaxKind::IntegerLiteral => "IntegerLiteral",
            SyntaxKind::FloatLiteral => "FloatLiteral",
            SyntaxKind::StringLiteral => "StringLiteral",
            SyntaxKind::Operator => "Operator",
            SyntaxKind::BlockBegin => "BlockBegin",
            SyntaxKind::BlockEnd => "BlockEnd",
            SyntaxKind::VariableBegin => "VariableBegin",
            SyntaxKind::VariableEnd => "VariableEnd",
            SyntaxKind::CommentBegin => "CommentBegin",
            SyntaxKind::CommentEnd => "CommentEnd",
            SyntaxKind::RawBegin => "RawBegin",
            SyntaxKind::RawEnd => "RawEnd",
            SyntaxKind::Data => "Data",
            SyntaxKind::CommentData => "CommentData",
            SyntaxKind::Error => "Error",
            SyntaxKind::Template => "Template",
            SyntaxKind::StmtFor => "StmtFor",
            SyntaxKind::StmtIf => "StmtIf",
            SyntaxKind::StmtAssign => "StmtAssign",
            SyntaxKind::StmtAssignBlock => "StmtAssignBlock",
            SyntaxKind::StmtCallBlock => "StmtCallBlock",
            SyntaxKind::StmtFilterBlock => "StmtFilterBlock",
            SyntaxKind::StmtDo => "StmtDo",
            SyntaxKind::StmtMacro => "StmtMacro",
            SyntaxKind::StmtMaterialization => "StmtMaterialization",
            SyntaxKind::StmtTest => "StmtTest",
            SyntaxKind::StmtDocs => "StmtDocs",
            SyntaxKind::StmtSnapshot => "StmtSnapshot",
            SyntaxKind::StmtRaw => "StmtRaw",
            SyntaxKind::StmtUnknown => "StmtUnknown",
            SyntaxKind::ForStart => "ForStart",
            SyntaxKind::ForElse => "ForElse",
            SyntaxKind::ForEnd => "ForEnd",
            SyntaxKind::IfStart => "IfStart",
            SyntaxKind::IfElif => "IfElif",
            SyntaxKind::IfElse => "IfElse",
            SyntaxKind::IfEnd => "IfEnd",
            SyntaxKind::AssignBlockStart => "AssignBlockStart",
            SyntaxKind::AssignBlockEnd => "AssignBlockEnd",
            SyntaxKind::CallBlockStart => "CallBlockStart",
            SyntaxKind::CallBlockEnd => "CallBlockEnd",
            SyntaxKind::FilterBlockStart => "FilterBlockStart",
            SyntaxKind::FilterBlockEnd => "FilterBlockEnd",
            SyntaxKind::MacroBlockStart => "MacroBlockStart",
            SyntaxKind::MacroBlockEnd => "MacroBlockEnd",
            SyntaxKind::MaterializationBlockStart => "MaterializationBlockStart",
            SyntaxKind::MaterializationBlockEnd => "MaterializationBlockEnd",
            SyntaxKind::MaterializationDefault => "MaterializationDefault",
            SyntaxKind::MaterializationAdapter => "MaterializationAdapter",
            SyntaxKind::TestBlockStart => "TestBlockStart",
            SyntaxKind::TestBlockEnd => "TestBlockEnd",
            SyntaxKind::DocsBlockStart => "DocsBlockStart",
            SyntaxKind::DocsBlockEnd => "DocsBlockEnd",
            SyntaxKind::SnapshotBlockStart => "SnapshotBlockStart",
            SyntaxKind::SnapshotBlockEnd => "SnapshotBlockEnd",
            SyntaxKind::ExprData => "ExprData",
            SyntaxKind::ExprName => "ExprName",
            SyntaxKind::ExprConstantBool => "ExprConstantBool",
            SyntaxKind::ExprConstantNone => "ExprConstantNone",
            SyntaxKind::ExprConstantString => "ExprConstantString",
            SyntaxKind::ExprList => "ExprList",
            SyntaxKind::ExprDict => "ExprDict",
            SyntaxKind::ExprTuple => "ExprTuple",
            SyntaxKind::ExprWrapped => "ExprWrapped",
            SyntaxKind::ExprGetAttr => "ExprGetAttr",
            SyntaxKind::ExprGetItem => "ExprGetItem",
            SyntaxKind::ExprSlice => "ExprSlice",
            SyntaxKind::ExprCall => "ExprCall",
            SyntaxKind::ExprFilter => "ExprFilter",
            SyntaxKind::ExprFilterName => "ExprFilterName",
            SyntaxKind::ExprTest => "ExprTest",
            SyntaxKind::ExprNegative => "ExprNegative",
            SyntaxKind::ExprPositive => "ExprPositive",
            SyntaxKind::ExprPower => "ExprPower",
            SyntaxKind::ExprMultiply => "ExprMultiply",
            SyntaxKind::ExprDivide => "ExprDivide",
            SyntaxKind::ExprFloorDivide => "ExprFloorDivide",
            SyntaxKind::ExprModulo => "ExprModulo",
            SyntaxKind::ExprAdd => "ExprAdd",
            SyntaxKind::ExprSubtract => "ExprSubtract",
            SyntaxKind::ExprConcat => "ExprConcat",
            SyntaxKind::ExprCompare => "ExprCompare",
            SyntaxKind::ExprAnd => "ExprAnd",
            SyntaxKind::ExprOr => "ExprOr",
            SyntaxKind::ExprNot => "ExprNot",
            SyntaxKind::ExprTernary => "ExprTernary",
            SyntaxKind::ExprNamespaceRef => "ExprNamespaceRef",
            SyntaxKind::ExprNestedName => "ExprNestedName",
            SyntaxKind::Variable => "Variable",
            SyntaxKind::Comment => "Comment",
            SyntaxKind::Pair => "Pair",
            SyntaxKind::Subscript => "Subscript",
            SyntaxKind::Signature => "Signature",
            SyntaxKind::SignatureArg => "SignatureArg",
            SyntaxKind::SignatureDefaultArg => "SignatureDefaultArg",
            SyntaxKind::CallArguments => "CallArguments",
            SyntaxKind::CallStaticArg => "CallStaticArg",
            SyntaxKind::CallStaticKwarg => "CallStaticKwarg",
            SyntaxKind::CallDynamicArgs => "CallDynamicArgs",
            SyntaxKind::CallDynamicKwargs => "CallDynamicKwargs",
            SyntaxKind::TestArguments => "TestArguments",
            SyntaxKind::Operand => "Operand",
            SyntaxKind::NameOperatorIn => "NameOperatorIn",
            SyntaxKind::NameOperatorNotIn => "NameOperatorNotIn",
            SyntaxKind::NameOperatorNot => "NameOperatorNot",
            SyntaxKind::NameOperatorAnd => "NameOperatorAnd",
            SyntaxKind::NameOperatorOr => "NameOperatorOr",
            SyntaxKind::NameOperatorIf => "NameOperatorIf",
            SyntaxKind::NameOperatorElse => "NameOperatorElse",
        }
    }
}

impl From<TokenKind> for SyntaxKind {
    fn from(kind: TokenKind) -> (r: SyntaxKind) {
        match kind {
            TokenKind::Power => SyntaxKind::Power,
            TokenKind::FloorDiv => SyntaxKind::FloorDiv,
            TokenKind::Equal => SyntaxKind::Equal,
            TokenKind::NotEqual => SyntaxKind::NotEqual,
            TokenKind::LessThanEqual => SyntaxKind::LessThanEqual,
            TokenKind::GreaterThanEqual => SyntaxKind::GreaterThanEqual,
            TokenKind::Add => SyntaxKind::Add,
            TokenKind::Subtract => SyntaxKind::Subtract,
            TokenKind::Multiply => SyntaxKind::Multiply,
            TokenKind::Div => SyntaxKind::Div,
            TokenKind::Modulo => SyntaxKind::Modulo,
            TokenKind::Tilde => SyntaxKind::Tilde,
            TokenKind::LessThan => SyntaxKind::LessThan,
            TokenKind::GreaterThan => SyntaxKind::GreaterThan,
            TokenKind::Assign => SyntaxKind::Assign,
            TokenKind::Dot => SyntaxKind::Dot,
            TokenKind::Colon => SyntaxKind::Colon,
            TokenKind::Pipe => SyntaxKind::Pipe,
            TokenKind::Comma => SyntaxKind::Comma,
            TokenKind::Semicolon => SyntaxKind::Semicolon,
            TokenKind::LeftParen => SyntaxKind::LeftParen,
            TokenKind::RightParen => SyntaxKind::RightParen,
            TokenKind::LeftBracket => SyntaxKind::LeftBracket,
            TokenKind::RightBracket => SyntaxKind::RightBracket,
            TokenKind::LeftBrace => SyntaxKind::LeftBrace,
            TokenKind::RightBrace => SyntaxKind::RightBrace,
            TokenKind::Whitespace => SyntaxKind::Whitespace,
            TokenKind::Name => SyntaxKind::Name,
            TokenKind::IntegerLiteral => SyntaxKind::IntegerLiteral,
            TokenKind::FloatLiteral => SyntaxKind::FloatLiteral,
            TokenKind::StringLiteral => SyntaxKind::StringLiteral,
            TokenKind::Operator => SyntaxKind::Operator,
            TokenKind::BlockBegin => SyntaxKind::BlockBegin,
            TokenKind::BlockEnd => SyntaxKind::BlockEnd,
            TokenKind::VariableBegin => SyntaxKind::VariableBegin,
            TokenKind::VariableEnd => SyntaxKind::VariableEnd,
            TokenKind::CommentBegin => SyntaxKind::CommentBegin,
            TokenKind::CommentEnd => SyntaxKind::CommentEnd,
            TokenKind::RawBegin => SyntaxKind::RawBegin,
            TokenKind::RawEnd => SyntaxKind::RawEnd,
            TokenKind::Data => SyntaxKind::Data,
            TokenKind::CommentData => SyntaxKind::CommentData,
            TokenKind::Error => SyntaxKind::Error,
        }
    }
}

impl FromSpecImpl<TokenKind> for SyntaxKind {
    open spec fn obeys_from_spec() -> bool {
        true
    }

    open spec fn from_spec(kind: TokenKind) -> SyntaxKind {
        SyntaxKind::of_token(kind)
    }
}

/// Every kind is found again from its raw number.
pub proof fn lemma_raw_round_trip(kind: SyntaxKind)
    ensures
        SyntaxKind::from_raw_spec(kind.raw_spec()) == Some(kind),
        kind.raw_spec() < SYNTAX_KIND_COUNT,
{
}

/// Two kinds with the same raw number are the same kind.
pub proof fn lemma_raw_injective(a: SyntaxKind, b: SyntaxKind)
    requires
        a.raw_spec() == b.raw_spec(),
    ensures
        a == b,
{
    lemma_raw_round_trip(a);
    lemma_raw_round_trip(b);
}

/// A token kind keeps its place among the syntax kinds: embedding it and
/// reading it back gives the same kind.
pub proof fn lemma_token_embedding(kind: TokenKind)
    ensures
        SyntaxKind::of_token(kind).as_token_spec() == Some(kind),
{
}

/// Every spelling of the operator table is revealed: one or two characters.
proof fn lemma_operator_spellings()
    ensures
        operator_table().len() == OPERATOR_COUNT,
        forall|i: int| 0 <= i < 6 ==> (#[trigger] operator_table()[i]).0.len() == 2,
        forall|i: int| 6 <= i < operator_table().len() ==> (#[trigger] operator_table()[i]).0.len() == 1,
{
    reveal_strlit("**");
    reveal_strlit("//");
    reveal_strlit("==");
    reveal_strlit("!=");
    reveal_strlit("<=");
    reveal_strlit(">=");
    reveal_strlit("+");
    reveal_strlit("-");
    reveal_strlit("*");
    reveal_strlit("/");
    reveal_strlit("%");
    reveal_strlit("~");
    reveal_strlit("<");
    reveal_strlit(">");
    reveal_strlit("=");
    reveal_strlit(".");
    reveal_strlit(":");
    reveal_strlit("|");
    reveal_strlit(",");
    reveal_strlit(";");
    reveal_strlit("(");
    reveal_strlit(")");
    reveal_strlit("[");
    reveal_strlit("]");
    reveal_strlit("{");
    reveal_strlit("}");
}

/// In the operator table a longer spelling stands before a shorter one, so
/// that the longest operator is found first.
pub proof fn lemma_operators_longest_first(i: int, j: int)
    requires
        0 <= i < j < operator_table().len(),
    ensures
        operator_table()[i].0.len() >= operator_table()[j].0.len(),
{
    lemma_operator_spellings();
}

} // verus!
