//! How operators group: laws of the grammar of expressions, shown on the
//! shortest expressions that tell the groupings apart.

use crate::grammar::{
    primary_name_kind, sp_and, sp_and_rest, sp_compare, sp_compare_rest, sp_concat,
    sp_concat_rest, sp_expression, sp_filter_expr, sp_math1, sp_math1_rest, sp_math2,
    sp_math2_rest, sp_not, sp_or, sp_or_rest, sp_postfix, sp_pow, sp_primary, sp_ternary,
    sp_ternary_rest, sp_unary,
};
use crate::green::Element;
use crate::model::{
    outer_parents, s_at, s_at_name, s_bump, s_finish, s_register, s_start_at, s_ws, with_leaf,
    with_parent, wrapped, State,
};
use crate::parser::{leaf_of, Tok};
use crate::syntax::{SyntaxKind, TokenKind};
use vstd::prelude::*;

verus! {

/// Whether a token is a name that the grammar of expressions gives no
/// meaning of its own.
pub open spec fn plain_name(token: Tok) -> bool {
    &&& token.0 == TokenKind::Name
    &&& token.1 != "true"@ && token.1 != "false"@ && token.1 != "True"@ && token.1 != "False"@
    &&& token.1 != "none"@ && token.1 != "None"@
    &&& token.1 != "not"@ && token.1 != "and"@ && token.1 != "or"@
    &&& token.1 != "if"@ && token.1 != "else"@ && token.1 != "is"@ && token.1 != "in"@
}

/// The node of a plain name.
pub open spec fn name_node(token: Tok) -> Element {
    Element::Node { kind: SyntaxKind::ExprName.raw_spec(), children: seq![leaf_of(token)] }
}

/// Whether the token at `i`, if there is one, is the given operator.
pub open spec fn operator_at(toks: Seq<Tok>, i: int, kind: TokenKind) -> bool {
    0 <= i < toks.len() && toks[i].0 == kind
}

/// Whether the expression ends before the token at `i`: there is none, or
/// it closes the bracket.
pub open spec fn ends_at(toks: Seq<Tok>, i: int) -> bool {
    i >= toks.len() || (0 <= i && (toks[i].0 == TokenKind::VariableEnd || toks[i].0
        == TokenKind::BlockEnd))
}

/// Whether the token at `i` is the name given.
pub open spec fn name_at(toks: Seq<Tok>, i: int, name: Seq<char>) -> bool {
    0 <= i < toks.len() && toks[i] == (TokenKind::Name, name)
}

/// Whether no operator of arithmetic or logic stands at `i`: the
/// expression ends there, or `if` or `else` stands there.
pub open spec fn boundary(toks: Seq<Tok>, i: int) -> bool {
    ends_at(toks, i) || name_at(toks, i, "if"@) || name_at(toks, i, "else"@)
}

/// Whether nothing that belongs to an operand stands at `i`: a boundary,
/// or one of the binary operators `+`, `*` or `**`.
pub open spec fn after_operand(toks: Seq<Tok>, i: int) -> bool {
    boundary(toks, i) || operator_at(toks, i, TokenKind::Add) || operator_at(
        toks,
        i,
        TokenKind::Multiply,
    ) || operator_at(toks, i, TokenKind::Power)
}

/// The state with one more element, `n` tokens further.
pub open spec fn grown(s: State, n: int, element: Element) -> State {
    State { pos: s.pos + n, children: s.children.push(element), ..s }
}

/// `if` and `else` are none of the words that link or start an operand.
pub proof fn lemma_boundary_words()
    ensures
        "if"@ != "is"@ && "if"@ != "in"@ && "if"@ != "not"@ && "if"@ != "and"@ && "if"@ != "or"@,
        "else"@ != "is"@ && "else"@ != "in"@ && "else"@ != "not"@ && "else"@ != "and"@ && "else"@
            != "or"@,
        "if"@ != "else"@,
{
    reveal_strlit("if");
    reveal_strlit("else");
    reveal_strlit("is");
    reveal_strlit("in");
    reveal_strlit("not");
    reveal_strlit("and");
    reveal_strlit("or");
    assert("if"@[1] != "is"@[1]);
    assert("if"@[1] != "in"@[1]);
    assert("if"@[0] != "or"@[0]);
    assert("if"@.len() != "not"@.len());
    assert("if"@.len() != "and"@.len());
    assert("else"@.len() != "is"@.len());
    assert("else"@.len() != "in"@.len());
    assert("else"@.len() != "not"@.len());
    assert("else"@.len() != "and"@.len());
    assert("else"@.len() != "or"@.len());
    assert("if"@.len() != "else"@.len());
}

/// Where no whitespace is at the cursor, skipping whitespace changes
/// nothing.
pub proof fn lemma_no_ws(toks: Seq<Tok>, s: State)
    requires
        !s_at(toks, s, TokenKind::Whitespace),
    ensures
        s_ws(toks, s) == s,
{
}

/// A token in a node of its own: the state grows by that node.
pub proof fn lemma_register(toks: Seq<Tok>, s: State, kind: SyntaxKind)
    requires
        0 <= s.pos < toks.len(),
    ensures
        s_register(toks, s, kind) == grown(
            s,
            1,
            Element::Node { kind: kind.raw_spec(), children: seq![leaf_of(toks[s.pos])] },
        ),
{
    reveal(with_parent);
    reveal(with_leaf);
    reveal(wrapped);
    reveal(outer_parents);
    let n = s.children.len() as int;
    let leaf = leaf_of(toks[s.pos]);
    assert(s.children.push(leaf).take(n) =~= s.children);
    assert(s.children.push(leaf).skip(n) =~= seq![leaf]);
    assert(s.parents.push((kind.raw_spec(), n)).drop_last() =~= s.parents);
}

/// A plain name with nothing after it that could belong to it is an operand
/// by itself, whether a filter may follow or not, and is no power.
pub proof fn lemma_operand(toks: Seq<Tok>, s: State)
    requires
        0 <= s.pos < toks.len(),
        plain_name(toks[s.pos]),
        after_operand(toks, s.pos + 1),
    ensures
        sp_unary(toks, s, true) == grown(s, 1, name_node(toks[s.pos])),
        sp_unary(toks, s, false) == grown(s, 1, name_node(toks[s.pos])),
{
    reveal(sp_unary);
    reveal(sp_primary);
    reveal(sp_postfix);
    reveal(sp_filter_expr);
    lemma_boundary_words();
    lemma_register(toks, s, SyntaxKind::ExprName);
    let r = grown(s, 1, name_node(toks[s.pos]));
    lemma_no_ws(toks, s);
    lemma_no_ws(toks, r);
    assert(primary_name_kind(toks[s.pos].1) == SyntaxKind::ExprName);
    assert(sp_primary(toks, s) == r);
    assert(sp_postfix(toks, r, s.children.len() as int) == r);
    assert(sp_filter_expr(toks, r, s.children.len() as int) == r);
}

/// A node that is opened before an element, takes a token and whatever
/// comes after, and is closed: the element, the token's leaf and what came
/// after are its children.
pub proof fn lemma_binary(
    toks: Seq<Tok>,
    s: State,
    n: int,
    left: Element,
    kind: SyntaxKind,
    m: int,
    right: Element,
)
    requires
        0 <= s.pos + n < toks.len(),
    ensures
        s_finish(
            grown(
                s_bump(
                    toks,
                    s_start_at(grown(s, n, left), s.children.len() as int, kind),
                ),
                m,
                right,
            ),
        ) == grown(
            s,
            n + 1 + m,
            Element::Node {
                kind: kind.raw_spec(),
                children: seq![left, leaf_of(toks[s.pos + n]), right],
            },
        ),
{
    reveal(with_parent);
    reveal(with_leaf);
    reveal(wrapped);
    reveal(outer_parents);
    let at = s.children.len() as int;
    let leaf = leaf_of(toks[s.pos + n]);
    let filled = s.children.push(left).push(leaf).push(right);
    assert(filled.take(at) =~= s.children);
    assert(filled.skip(at) =~= seq![left, leaf, right]);
    assert(s.parents.push((kind.raw_spec(), at)).drop_last() =~= s.parents);
}

/// An operand that no `**` follows is a power by itself.
pub proof fn lemma_pow_operand(toks: Seq<Tok>, s: State)
    requires
        0 <= s.pos < toks.len(),
        plain_name(toks[s.pos]),
        after_operand(toks, s.pos + 1),
        !operator_at(toks, s.pos + 1, TokenKind::Power),
    ensures
        sp_pow(toks, s) == grown(s, 1, name_node(toks[s.pos])),
{
    reveal(sp_pow);
    reveal(sp_unary);
    lemma_operand(toks, s);
    lemma_no_ws(toks, s);
    lemma_no_ws(toks, grown(s, 1, name_node(toks[s.pos])));
}

/// The node of a binary operator between two elements.
pub open spec fn binary_node(kind: SyntaxKind, left: Element, op: Tok, right: Element) -> Element {
    Element::Node { kind: kind.raw_spec(), children: seq![left, leaf_of(op), right] }
}

/// A power binds to the right: in `a ** b ** c` the exponent of `a` is
/// `b ** c`.
pub proof fn lemma_power_binds_right(toks: Seq<Tok>, s: State)
    requires
        0 <= s.pos,
        s.pos + 5 <= toks.len(),
        plain_name(toks[s.pos]),
        toks[s.pos + 1].0 == TokenKind::Power,
        plain_name(toks[s.pos + 2]),
        toks[s.pos + 3].0 == TokenKind::Power,
        plain_name(toks[s.pos + 4]),
        ends_at(toks, s.pos + 5),
    ensures
        sp_pow(toks, s) == grown(
            s,
            5,
            binary_node(
                SyntaxKind::ExprPower,
                name_node(toks[s.pos]),
                toks[s.pos + 1],
                binary_node(
                    SyntaxKind::ExprPower,
                    name_node(toks[s.pos + 2]),
                    toks[s.pos + 3],
                    name_node(toks[s.pos + 4]),
                ),
            ),
        ),
{
    reveal(sp_pow);
    reveal(sp_unary);
    let a = name_node(toks[s.pos]);
    let b = name_node(toks[s.pos + 2]);
    let c = name_node(toks[s.pos + 4]);
    // the outer power: `a`, the operator, and the inner power
    lemma_operand(toks, s);
    let sa = grown(s, 1, a);
    lemma_no_ws(toks, s);
    lemma_no_ws(toks, sa);
    let ba = s_bump(toks, s_start_at(sa, s.children.len() as int, SyntaxKind::ExprPower));
    // the inner power: `b`, the operator, and `c`
    lemma_operand(toks, ba);
    let sb = grown(ba, 1, b);
    lemma_no_ws(toks, ba);
    lemma_no_ws(toks, sb);
    let bb = s_bump(toks, s_start_at(sb, ba.children.len() as int, SyntaxKind::ExprPower));
    lemma_pow_operand(toks, bb);
    lemma_binary(toks, ba, 1, b, SyntaxKind::ExprPower, 1, c);
    let inner = binary_node(SyntaxKind::ExprPower, b, toks[s.pos + 3], c);
    assert(sp_pow(toks, bb) == grown(bb, 1, c));
    assert(sp_pow(toks, ba) == grown(ba, 3, inner));
    lemma_binary(toks, s, 1, a, SyntaxKind::ExprPower, 3, inner);
}

/// At a boundary, nothing more is added to a product, a concatenation, a
/// sum, a compare chain, a conjunction or a disjunction.
pub proof fn lemma_rest_stops(toks: Seq<Tok>, r: State, at: int)
    requires
        boundary(toks, r.pos),
    ensures
        sp_math2_rest(toks, r, at) == r,
        sp_concat_rest(toks, r, at, false) == r,
        sp_math1_rest(toks, r, at) == r,
        sp_compare_rest(toks, r, at, false) == r,
        sp_and_rest(toks, r, at) == r,
        sp_or_rest(toks, r, at) == r,
{
    reveal(sp_math2_rest);
    reveal(sp_concat_rest);
    reveal(sp_math1_rest);
    reveal(sp_compare_rest);
    reveal(sp_and_rest);
    reveal(sp_or_rest);
    lemma_boundary_words();
    lemma_no_ws(toks, r);
}

/// Where the expression ends, nothing more is added to a conditional
/// expression either.
pub proof fn lemma_ternary_stops(toks: Seq<Tok>, r: State, at: int)
    requires
        ends_at(toks, r.pos),
    ensures
        sp_ternary_rest(toks, r, at) == r,
{
    reveal(sp_ternary_rest);
    lemma_no_ws(toks, r);
}

/// What is a power up to a boundary is a sum up to that boundary.
pub proof fn lemma_pow_is_sum(toks: Seq<Tok>, s: State, r: State)
    requires
        sp_pow(toks, s) == r,
        r.pos >= s.pos,
        !s_at(toks, s, TokenKind::Whitespace),
        boundary(toks, r.pos),
    ensures
        sp_math2(toks, s) == r,
        sp_concat(toks, s) == r,
        sp_math1(toks, s) == r,
{
    reveal(sp_math2);
    reveal(sp_math2_rest);
    reveal(sp_concat);
    reveal(sp_concat_rest);
    reveal(sp_math1);
    reveal(sp_math1_rest);
    reveal(sp_pow);
    lemma_no_ws(toks, s);
    lemma_rest_stops(toks, r, s.children.len() as int);
}

/// What is a sum up to a boundary, and does not start with `not`, is a
/// disjunction up to that boundary.
pub proof fn lemma_sum_is_or(toks: Seq<Tok>, s: State, r: State)
    requires
        sp_math1(toks, s) == r,
        r.pos >= s.pos,
        !s_at(toks, s, TokenKind::Whitespace),
        !s_at_name(toks, s, "not"@),
        boundary(toks, r.pos),
    ensures
        sp_compare(toks, s) == r,
        sp_not(toks, s) == r,
        sp_and(toks, s) == r,
        sp_or(toks, s) == r,
{
    reveal(sp_compare);
    reveal(sp_compare_rest);
    reveal(sp_math1);
    reveal(sp_not);
    reveal(sp_and);
    reveal(sp_and_rest);
    reveal(sp_or);
    reveal(sp_or_rest);
    lemma_no_ws(toks, s);
    lemma_rest_stops(toks, r, s.children.len() as int);
}

/// What is a disjunction up to the end of the expression is the whole
/// expression.
pub proof fn lemma_or_is_expression(toks: Seq<Tok>, s: State, r: State)
    requires
        sp_or(toks, s) == r,
        r.pos >= s.pos,
        ends_at(toks, r.pos),
    ensures
        sp_ternary(toks, s) == r,
        sp_expression(toks, s, true) == r,
        sp_expression(toks, s, false) == r,
{
    reveal(sp_ternary);
    reveal(sp_ternary_rest);
    reveal(sp_or);
    reveal(sp_expression);
    lemma_ternary_stops(toks, r, s.children.len() as int);
}

/// In `a ** b ** c` the exponent of `a` is `b ** c`.
pub proof fn lemma_power_groups_right(toks: Seq<Tok>, s: State)
    requires
        0 <= s.pos,
        s.pos + 5 <= toks.len(),
        plain_name(toks[s.pos]),
        toks[s.pos + 1].0 == TokenKind::Power,
        plain_name(toks[s.pos + 2]),
        toks[s.pos + 3].0 == TokenKind::Power,
        plain_name(toks[s.pos + 4]),
        ends_at(toks, s.pos + 5),
    ensures
        sp_expression(toks, s, true) == grown(
            s,
            5,
            binary_node(
                SyntaxKind::ExprPower,
                name_node(toks[s.pos]),
                toks[s.pos + 1],
                binary_node(
                    SyntaxKind::ExprPower,
                    name_node(toks[s.pos + 2]),
                    toks[s.pos + 3],
                    name_node(toks[s.pos + 4]),
                ),
            ),
        ),
{
    lemma_power_binds_right(toks, s);
    let r = sp_pow(toks, s);
    lemma_pow_is_sum(toks, s, r);
    lemma_sum_is_or(toks, s, r);
    lemma_or_is_expression(toks, s, r);
}

/// A product before the end of the expression: `b * c`.
pub proof fn lemma_product(toks: Seq<Tok>, s: State)
    requires
        0 <= s.pos,
        s.pos + 3 <= toks.len(),
        plain_name(toks[s.pos]),
        toks[s.pos + 1].0 == TokenKind::Multiply,
        plain_name(toks[s.pos + 2]),
        boundary(toks, s.pos + 3),
    ensures
        sp_math2(toks, s) == grown(
            s,
            3,
            binary_node(
                SyntaxKind::ExprMultiply,
                name_node(toks[s.pos]),
                toks[s.pos + 1],
                name_node(toks[s.pos + 2]),
            ),
        ),
        sp_concat(toks, s) == sp_math2(toks, s),
{
    reveal(sp_math2);
    reveal(sp_math2_rest);
    reveal(sp_pow);
    reveal(sp_concat);
    reveal(sp_concat_rest);
    let b = name_node(toks[s.pos]);
    let c = name_node(toks[s.pos + 2]);
    lemma_no_ws(toks, s);
    lemma_pow_operand(toks, s);
    let sb = grown(s, 1, b);
    lemma_no_ws(toks, sb);
    let opened = s_bump(toks, s_start_at(sb, s.children.len() as int, SyntaxKind::ExprMultiply));
    lemma_pow_operand(toks, opened);
    lemma_binary(toks, s, 1, b, SyntaxKind::ExprMultiply, 1, c);
    let r = grown(s, 3, binary_node(SyntaxKind::ExprMultiply, b, toks[s.pos + 1], c));
    lemma_rest_stops(toks, r, s.children.len() as int);
}

/// In `a + b * c` the right-hand side of the sum is `b * c`.
pub proof fn lemma_product_binds_tighter(toks: Seq<Tok>, s: State)
    requires
        0 <= s.pos,
        s.pos + 5 <= toks.len(),
        plain_name(toks[s.pos]),
        toks[s.pos + 1].0 == TokenKind::Add,
        plain_name(toks[s.pos + 2]),
        toks[s.pos + 3].0 == TokenKind::Multiply,
        plain_name(toks[s.pos + 4]),
        ends_at(toks, s.pos + 5),
    ensures
        sp_expression(toks, s, true) == grown(
            s,
            5,
            binary_node(
                SyntaxKind::ExprAdd,
                name_node(toks[s.pos]),
                toks[s.pos + 1],
                binary_node(
                    SyntaxKind::ExprMultiply,
                    name_node(toks[s.pos + 2]),
                    toks[s.pos + 3],
                    name_node(toks[s.pos + 4]),
                ),
            ),
        ),
{
    reveal(sp_math1);
    reveal(sp_math1_rest);
    reveal(sp_concat);
    reveal(sp_concat_rest);
    reveal(sp_math2);
    reveal(sp_math2_rest);
    reveal(sp_pow);
    let a = name_node(toks[s.pos]);
    let product = binary_node(
        SyntaxKind::ExprMultiply,
        name_node(toks[s.pos + 2]),
        toks[s.pos + 3],
        name_node(toks[s.pos + 4]),
    );
    // the left-hand side: `a` alone
    lemma_no_ws(toks, s);
    lemma_pow_operand(toks, s);
    let sa = grown(s, 1, a);
    lemma_no_ws(toks, sa);
    assert(sp_math2(toks, s) == sa);
    assert(sp_concat(toks, s) == sa);
    // the right-hand side: the product
    let opened = s_bump(toks, s_start_at(sa, s.children.len() as int, SyntaxKind::ExprAdd));
    lemma_product(toks, opened);
    lemma_binary(toks, s, 1, a, SyntaxKind::ExprAdd, 3, product);
    let r = grown(s, 5, binary_node(SyntaxKind::ExprAdd, a, toks[s.pos + 1], product));
    lemma_rest_stops(toks, r, s.children.len() as int);
    assert(sp_math1(toks, s) == r);
    lemma_sum_is_or(toks, s, r);
    lemma_or_is_expression(toks, s, r);
}

/// The node of a word that is an operator.
pub open spec fn word_node(kind: SyntaxKind, word: Tok) -> Element {
    Element::Node { kind: kind.raw_spec(), children: seq![leaf_of(word)] }
}

/// A plain name before a boundary is a disjunction by itself.
pub proof fn lemma_name_is_or(toks: Seq<Tok>, s: State)
    requires
        0 <= s.pos < toks.len(),
        plain_name(toks[s.pos]),
        boundary(toks, s.pos + 1),
    ensures
        sp_compare(toks, s) == grown(s, 1, name_node(toks[s.pos])),
        sp_not(toks, s) == grown(s, 1, name_node(toks[s.pos])),
        sp_or(toks, s) == grown(s, 1, name_node(toks[s.pos])),
{
    let r = grown(s, 1, name_node(toks[s.pos]));
    lemma_pow_operand(toks, s);
    lemma_pow_is_sum(toks, s, r);
    lemma_sum_is_or(toks, s, r);
}

/// A node that opens at `at` is the innermost open node, and nothing else
/// changes.
pub proof fn lemma_open(s: State, at: int, kind: SyntaxKind)
    ensures
        s_start_at(s, at, kind) == (State {
            parents: s.parents.push((kind.raw_spec(), at)),
            ..s
        }),
{
    reveal(with_parent);
}

/// The innermost open node closes over the elements that were finished
/// since it was opened: they become its children.
pub proof fn lemma_close(
    filled: State,
    outer: Seq<(u16, int)>,
    before: Seq<Element>,
    kind: SyntaxKind,
    kids: Seq<Element>,
)
    requires
        filled.parents == outer.push((kind.raw_spec(), before.len() as int)),
        filled.children == before + kids,
    ensures
        s_finish(filled) == (State {
            parents: outer,
            children: before.push(Element::Node { kind: kind.raw_spec(), children: kids }),
            ..filled
        }),
{
    reveal(wrapped);
    reveal(outer_parents);
    let at = before.len() as int;
    assert((before + kids).take(at) =~= before);
    assert((before + kids).skip(at) =~= kids);
    assert(outer.push((kind.raw_spec(), at)).drop_last() =~= outer);
}

/// What is a negation up to a boundary is a disjunction up to that
/// boundary.
pub proof fn lemma_not_is_or(toks: Seq<Tok>, s: State, r: State)
    requires
        sp_not(toks, s) == r,
        r.pos >= s.pos,
        boundary(toks, r.pos),
    ensures
        sp_and(toks, s) == r,
        sp_or(toks, s) == r,
{
    reveal(sp_not);
    reveal(sp_and);
    reveal(sp_and_rest);
    reveal(sp_or);
    reveal(sp_or_rest);
    lemma_rest_stops(toks, r, s.children.len() as int);
}

/// The negation of a plain name before the end of the expression: `not x`,
/// inside whatever is open.
pub proof fn lemma_negation(toks: Seq<Tok>, s: State)
    requires
        0 <= s.pos,
        s.pos + 2 <= toks.len(),
        toks[s.pos] == (TokenKind::Name, "not"@),
        plain_name(toks[s.pos + 1]),
        ends_at(toks, s.pos + 2),
    ensures
        sp_not(toks, s) == grown(
            s,
            2,
            Element::Node {
                kind: SyntaxKind::ExprNot.raw_spec(),
                children: seq![
                    word_node(SyntaxKind::NameOperatorNot, toks[s.pos]),
                    name_node(toks[s.pos + 1]),
                ],
            },
        ),
{
    reveal(sp_not);
    let word = word_node(SyntaxKind::NameOperatorNot, toks[s.pos]);
    let x = name_node(toks[s.pos + 1]);
    let at = s.children.len() as int;
    lemma_no_ws(toks, s);
    let o = s_start_at(s, at, SyntaxKind::ExprNot);
    lemma_open(s, at, SyntaxKind::ExprNot);
    lemma_register(toks, o, SyntaxKind::NameOperatorNot);
    let b = grown(o, 1, word);
    lemma_name_is_or(toks, b);
    let filled = grown(b, 1, x);
    assert(filled.children =~= s.children + seq![word, x]);
    lemma_close(filled, s.parents, s.children, SyntaxKind::ExprNot, seq![word, x]);
}

/// A negation binds to the right: in `not not x` what the first `not`
/// negates is `not x`.
pub proof fn lemma_negation_groups_right(toks: Seq<Tok>, s: State)
    requires
        0 <= s.pos,
        s.pos + 3 <= toks.len(),
        toks[s.pos] == (TokenKind::Name, "not"@),
        toks[s.pos + 1] == (TokenKind::Name, "not"@),
        plain_name(toks[s.pos + 2]),
        ends_at(toks, s.pos + 3),
    ensures
        sp_expression(toks, s, true) == grown(
            s,
            3,
            Element::Node {
                kind: SyntaxKind::ExprNot.raw_spec(),
                children: seq![
                    word_node(SyntaxKind::NameOperatorNot, toks[s.pos]),
                    Element::Node {
                        kind: SyntaxKind::ExprNot.raw_spec(),
                        children: seq![
                            word_node(SyntaxKind::NameOperatorNot, toks[s.pos + 1]),
                            name_node(toks[s.pos + 2]),
                        ],
                    },
                ],
            },
        ),
{
    reveal(sp_not);
    let first = word_node(SyntaxKind::NameOperatorNot, toks[s.pos]);
    let inner = Element::Node {
        kind: SyntaxKind::ExprNot.raw_spec(),
        children: seq![
            word_node(SyntaxKind::NameOperatorNot, toks[s.pos + 1]),
            name_node(toks[s.pos + 2]),
        ],
    };
    let at = s.children.len() as int;
    lemma_no_ws(toks, s);
    let o = s_start_at(s, at, SyntaxKind::ExprNot);
    lemma_open(s, at, SyntaxKind::ExprNot);
    lemma_register(toks, o, SyntaxKind::NameOperatorNot);
    let b = grown(o, 1, first);
    lemma_negation(toks, b);
    let filled = grown(b, 2, inner);
    assert(filled.children =~= s.children + seq![first, inner]);
    lemma_close(filled, s.parents, s.children, SyntaxKind::ExprNot, seq![first, inner]);
    let r = sp_not(toks, s);
    lemma_not_is_or(toks, s, r);
    lemma_or_is_expression(toks, s, r);
}

/// A plain name before the end of the expression is a conditional
/// expression by itself.
pub proof fn lemma_name_is_ternary(toks: Seq<Tok>, s: State)
    requires
        0 <= s.pos < toks.len(),
        plain_name(toks[s.pos]),
        ends_at(toks, s.pos + 1),
    ensures
        sp_ternary(toks, s) == grown(s, 1, name_node(toks[s.pos])),
{
    lemma_name_is_or(toks, s);
    lemma_or_is_expression(toks, s, grown(s, 1, name_node(toks[s.pos])));
}

/// The state after `if c else b`, when the value before `if` has been read
/// into `sa` and the node of the conditional expression is to open at `at`.
pub open spec fn after_branches(toks: Seq<Tok>, sa: State, at: int) -> State {
    grown(
        grown(
            grown(
                grown(
                    s_start_at(sa, at, SyntaxKind::ExprTernary),
                    1,
                    word_node(SyntaxKind::NameOperatorIf, toks[sa.pos]),
                ),
                1,
                name_node(toks[sa.pos + 1]),
            ),
            1,
            word_node(SyntaxKind::NameOperatorElse, toks[sa.pos + 2]),
        ),
        1,
        name_node(toks[sa.pos + 3]),
    )
}

/// After a value, `if c else b` is read into the node that opens around the
/// value, and then the node closes.
pub proof fn lemma_branches(toks: Seq<Tok>, sa: State, at: int)
    requires
        0 <= sa.pos,
        sa.pos + 4 <= toks.len(),
        toks[sa.pos] == (TokenKind::Name, "if"@),
        plain_name(toks[sa.pos + 1]),
        toks[sa.pos + 2] == (TokenKind::Name, "else"@),
        plain_name(toks[sa.pos + 3]),
        ends_at(toks, sa.pos + 4),
    ensures
        sp_ternary_rest(toks, sa, at) == s_finish(after_branches(toks, sa, at)),
{
    reveal(sp_ternary_rest);
    reveal(sp_or);
    reveal(sp_ternary);
    lemma_no_ws(toks, sa);
    let o = s_start_at(sa, at, SyntaxKind::ExprTernary);
    lemma_register(toks, o, SyntaxKind::NameOperatorIf);
    let s_if = grown(o, 1, word_node(SyntaxKind::NameOperatorIf, toks[sa.pos]));
    lemma_name_is_or(toks, s_if);
    let s_c = grown(s_if, 1, name_node(toks[sa.pos + 1]));
    assert(sp_or(toks, s_if) == s_c);
    lemma_no_ws(toks, s_c);
    lemma_register(toks, s_c, SyntaxKind::NameOperatorElse);
    let s_else = grown(s_c, 1, word_node(SyntaxKind::NameOperatorElse, toks[sa.pos + 2]));
    lemma_name_is_ternary(toks, s_else);
    let filled = grown(s_else, 1, name_node(toks[sa.pos + 3]));
    assert(sp_ternary(toks, s_else) == filled);
    assert(filled == after_branches(toks, sa, at));
    lemma_ternary_stops(toks, s_finish(filled), at);
}

/// A conditional expression is the value before `if` and what follows
/// it.
pub proof fn lemma_ternary_parts(toks: Seq<Tok>, s: State, sa: State, r: State)
    requires
        sp_or(toks, s) == sa,
        sa.pos >= s.pos,
        sp_ternary_rest(toks, sa, s.children.len() as int) == r,
    ensures
        sp_ternary(toks, s) == r,
        sp_expression(toks, s, true) == r,
{
    reveal(sp_ternary);
    reveal(sp_ternary_rest);
    reveal(sp_or);
    reveal(sp_expression);
}

/// In `a if c else b` the values `a` and `b` stand on the two sides of the
/// condition `c`, all three under one node.
pub proof fn lemma_conditional_groups(toks: Seq<Tok>, s: State)
    requires
        0 <= s.pos,
        s.pos + 5 <= toks.len(),
        plain_name(toks[s.pos]),
        toks[s.pos + 1] == (TokenKind::Name, "if"@),
        plain_name(toks[s.pos + 2]),
        toks[s.pos + 3] == (TokenKind::Name, "else"@),
        plain_name(toks[s.pos + 4]),
        ends_at(toks, s.pos + 5),
    ensures
        sp_expression(toks, s, true) == grown(
            s,
            5,
            Element::Node {
                kind: SyntaxKind::ExprTernary.raw_spec(),
                children: seq![
                    name_node(toks[s.pos]),
                    word_node(SyntaxKind::NameOperatorIf, toks[s.pos + 1]),
                    name_node(toks[s.pos + 2]),
                    word_node(SyntaxKind::NameOperatorElse, toks[s.pos + 3]),
                    name_node(toks[s.pos + 4]),
                ],
            },
        ),
{
    let a = name_node(toks[s.pos]);
    let kids = seq![
        a,
        word_node(SyntaxKind::NameOperatorIf, toks[s.pos + 1]),
        name_node(toks[s.pos + 2]),
        word_node(SyntaxKind::NameOperatorElse, toks[s.pos + 3]),
        name_node(toks[s.pos + 4]),
    ];
    let at = s.children.len() as int;
    lemma_name_is_or(toks, s);
    let sa = grown(s, 1, a);
    let filled = after_branches(toks, sa, at);
    lemma_open(sa, at, SyntaxKind::ExprTernary);
    assert(filled.children =~= s.children + kids);
    lemma_close(filled, s.parents, s.children, SyntaxKind::ExprTernary, kids);
    lemma_branches(toks, sa, at);
    lemma_ternary_parts(toks, s, sa, s_finish(filled));
}

} // verus!
