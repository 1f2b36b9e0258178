//! What the operator and unit words of conditions, assignments, queries
//! and delays mean: each comparison and assignment token stands for its
//! own operation, and a condition or assignment written with one reads as
//! that operation; each sort word names its own order; each time unit has
//! its own number of ticks.

use vstd::prelude::*;
use super::cursor::{Token, TokenKind, Span, word_at, stream_ok, MacroType};
use super::components::{Trace, no_trace, followed_by, moved};
use super::arithmetic::{ExprResult, unary_spec};
use super::expressions::{ExprNode, ExprView};
use super::cursor::merged;
use super::arithmetic::{continues_term, score_node, lemma_lone_score};
use super::conditions::{
    Comparison, CondView, CondResult, comparison_of, comparison_spec, not_spec, and_spec, and_rest_spec, or_spec, or_rest_spec,
};
use crate::parser::keywords::values::{word_matches_spec, entity_sort_spec};
use crate::parser::keywords::actions::time_unit_spec;
use crate::parser::keywords::spellings::{lemma_entity_sort_spellings, lemma_time_unit_spellings};
use super::query::{EntitySort, sort_value};
use super::statements::delay_spec;
use super::nbt::signed_decimal;
use super::statements::{
    AssignOp, StmtKindView, assign_op_of, word_statement_spec, statement_spec, command_root, action_root, world_root,
};

verus! {

/// Each comparison token names its own comparison, and no other token is
/// one: the six comparison tokens give six different comparisons.
pub proof fn lemma_comparison_tokens(k: TokenKind)
    ensures
        comparison_of(k) == Some(Comparison::Equal) <==> k is EqualEqual,
        comparison_of(k) == Some(Comparison::NotEqual) <==> k is BangEqual,
        comparison_of(k) == Some(Comparison::Less) <==> k is Less,
        comparison_of(k) == Some(Comparison::LessEqual) <==> k is LessEqual,
        comparison_of(k) == Some(Comparison::Greater) <==> k is Greater,
        comparison_of(k) == Some(Comparison::GreaterEqual) <==> k is GreaterEqual,
        comparison_of(k) is None <==> !(k is EqualEqual || k is BangEqual || k is Less || k is LessEqual || k is Greater
            || k is GreaterEqual),
{
}

/// Two score variables joined by a comparison token are a condition that
/// compares them with the comparison the token spells (`==`, `!=`, `<`,
/// `<=`, `>`, `>=`); it ends after the second variable.
pub proof fn lemma_compare_scores(t: Seq<Token>, c: int, params: Seq<(Seq<char>, MacroType)>, x: String, y: String)
    requires
        0 <= c,
        stream_ok(t, c + 3),
        t[c].kind == TokenKind::Ident(x),
        !word_matches_spec(x@, "predicate"@),
        t[c + 1].kind is EqualEqual || t[c + 1].kind is BangEqual || t[c + 1].kind is Less || t[c + 1].kind is LessEqual
            || t[c + 1].kind is Greater || t[c + 1].kind is GreaterEqual,
        t[c + 2].kind == TokenKind::Ident(y),
        !continues_term(t[c + 3].kind),
        !(t[c + 3].kind is AndAnd),
        !(t[c + 3].kind is OrOr),
    ensures
        ({
            let r = or_spec(t, c, params);
            &&& r is Ok
            &&& r->Ok_0.2 == c + 3
            &&& match r->Ok_0.0 {
                CondView::Compare(left, cmp, right) => {
                    &&& left == score_node(t, c, x)
                    &&& right == score_node(t, c + 2, y)
                    &&& (t[c + 1].kind is EqualEqual ==> cmp == Comparison::Equal)
                    &&& (t[c + 1].kind is BangEqual ==> cmp == Comparison::NotEqual)
                    &&& (t[c + 1].kind is Less ==> cmp == Comparison::Less)
                    &&& (t[c + 1].kind is LessEqual ==> cmp == Comparison::LessEqual)
                    &&& (t[c + 1].kind is Greater ==> cmp == Comparison::Greater)
                    &&& (t[c + 1].kind is GreaterEqual ==> cmp == Comparison::GreaterEqual)
                },
                _ => false,
            }
        }),
{
    lemma_lone_score(t, c, params, x);
    lemma_lone_score(t, c + 2, params, y);
    let cmp = comparison_of(t[c + 1].kind)->0;
    let v = CondView::Compare(score_node(t, c, x), cmp, score_node(t, c + 2, y));
    let tr = followed_by(no_trace(), no_trace());
    assert(comparison_spec(t, c, params) == Ok::<(CondView, Trace, int), (Seq<char>, Span)>((v, tr, c + 3)));
    assert(!word_at(t, c, "predicate"@));
    assert(not_spec(t, c, params) == Ok::<(CondView, Trace, int), (Seq<char>, Span)>((v, tr, c + 3)));
    assert(and_rest_spec(t, c + 3, params, v, tr) == Ok::<(CondView, Trace, int), (Seq<char>, Span)>((v, tr, c + 3)));
    assert(and_spec(t, c, params) == Ok::<(CondView, Trace, int), (Seq<char>, Span)>((v, tr, c + 3)));
    assert(or_rest_spec(t, c + 3, params, v, tr) == Ok::<(CondView, Trace, int), (Seq<char>, Span)>((v, tr, c + 3)));
}



/// Each assignment token names its own assignment, and no other token is
/// one: `=`, `+=`, `-=`, `*=`, `/=` and `%=` give six different operations.
pub proof fn lemma_assignment_tokens(k: TokenKind)
    ensures
        assign_op_of(k) == Some(AssignOp::Store) <==> k is Equal,
        assign_op_of(k) == Some(AssignOp::Add) <==> k is PlusEqual,
        assign_op_of(k) == Some(AssignOp::Subtract) <==> k is MinusEqual,
        assign_op_of(k) == Some(AssignOp::Multiply) <==> k is StarEqual,
        assign_op_of(k) == Some(AssignOp::Divide) <==> k is SlashEqual,
        assign_op_of(k) == Some(AssignOp::Modulo) <==> k is PercentEqual,
        assign_op_of(k) is None <==> !(k is Equal || k is PlusEqual || k is MinusEqual || k is StarEqual || k is SlashEqual
            || k is PercentEqual),
{
}

/// Whether `k` is one of the six assignment tokens.
pub open spec fn assignment_token(k: TokenKind) -> bool {
    k is Equal || k is PlusEqual || k is MinusEqual || k is StarEqual || k is SlashEqual || k is PercentEqual
}

/// What `x op y;` reads as: an assignment to `x` of the score `y` with the
/// operation the token spells.
pub open spec fn assigns_with_token(r: Result<(super::statements::StmtView, Trace, int), (Seq<char>, Span)>, t: Seq<Token>, c: int, x: String, y: String) -> bool {
    &&& r is Ok
    &&& r->Ok_0.2 == c + 4
    &&& match r->Ok_0.0.kind {
        StmtKindView::Assign(name, op, value) => {
            &&& name == x@
            &&& value == score_node(t, c + 2, y)
            &&& (t[c + 1].kind is Equal ==> op == AssignOp::Store)
            &&& (t[c + 1].kind is PlusEqual ==> op == AssignOp::Add)
            &&& (t[c + 1].kind is MinusEqual ==> op == AssignOp::Subtract)
            &&& (t[c + 1].kind is StarEqual ==> op == AssignOp::Multiply)
            &&& (t[c + 1].kind is SlashEqual ==> op == AssignOp::Divide)
            &&& (t[c + 1].kind is PercentEqual ==> op == AssignOp::Modulo)
        },
        _ => false,
    }
}

/// `x op y;`, with `op` an assignment token and `y` a score variable, is an
/// assignment to `x` with the operation `op` spells, ending after the `;`.
pub proof fn lemma_assign_score(t: Seq<Token>, c: int, params: Seq<(Seq<char>, MacroType)>, x: String, y: String)
    requires
        0 <= c,
        stream_ok(t, c + 3),
        t[c].kind == TokenKind::Ident(x),
        assignment_token(t[c + 1].kind),
        t[c + 2].kind == TokenKind::Ident(y),
        t[c + 3].kind is Semicolon,
    ensures
        assigns_with_token(word_statement_spec(t, c, params), t, c, x, y),
{
    lemma_lone_score(t, c + 2, params, y);
}

/// A statement `x op y;` whose first word is no statement keyword is that
/// assignment.
pub proof fn lemma_assign_statement(t: Seq<Token>, c: int, params: Seq<(Seq<char>, MacroType)>, x: String, y: String)
    requires
        0 <= c,
        stream_ok(t, c + 3),
        t[c].kind == TokenKind::Ident(x),
        assignment_token(t[c + 1].kind),
        t[c + 2].kind == TokenKind::Ident(y),
        t[c + 3].kind is Semicolon,
        !command_root(t, c),
        !action_root(t, c),
        !world_root(t, c),
        !word_at(t, c, "each"@),
        !word_at(t, c, "give"@),
        !word_at(t, c, "in_dimension"@),
        !word_at(t, c, "self"@),
        !word_at(t, c, "message"@),
        !word_at(t, c, "sound"@),
        !word_at(t, c, "run"@),
        !word_at(t, c, "call"@),
        !word_at(t, c, "schedule"@),
        !word_at(t, c, "if"@),
        !word_at(t, c, "while"@),
        !word_at(t, c, "execute"@),
        !word_at(t, c, "return"@),
        !word_at(t, c, "let"@),
    ensures
        assigns_with_token(statement_spec(t, c, params), t, c, x, y),
{
    lemma_assign_score(t, c, params, x, y);
    assert(statement_spec(t, c, params) == word_statement_spec(t, c, params));
}


/// Each sort word names its own order: `nearest`/`最近`, `furthest`/`最远`,
/// `random`/`随机` and `arbitrary`/`任意` give four different orders, and
/// no other word gives one.
pub proof fn lemma_sort_words(s: Seq<char>)
    ensures
        sort_value(s) == Some(EntitySort::Nearest) <==> (s == "nearest"@ || s == "最近"@),
        sort_value(s) == Some(EntitySort::Furthest) <==> (s == "furthest"@ || s == "最远"@),
        sort_value(s) == Some(EntitySort::Random) <==> (s == "random"@ || s == "随机"@),
        sort_value(s) == Some(EntitySort::Arbitrary) <==> (s == "arbitrary"@ || s == "任意"@),
        sort_value(s) is None <==> !(s == "nearest"@ || s == "最近"@ || s == "furthest"@ || s == "最远"@ || s
            == "random"@ || s == "随机"@ || s == "arbitrary"@ || s == "任意"@),
{
    lemma_entity_sort_spellings(s);
    reveal_strlit("nearest");
    reveal_strlit("furthest");
    reveal_strlit("random");
    reveal_strlit("arbitrary");
    assert("nearest"@.len() == 7 && "random"@.len() == 6 && "furthest"@.len() == 8 && "arbitrary"@.len() == 9);
}

/// A whole-number delay `n <unit>`: a tick (`t`/`刻`) is one game tick, a
/// second (`s`/`秒`) twenty and a day (`d`/`天`) 24000; the delay is
/// accepted exactly when it is at least one and its ticks fit in 32 bits,
/// and its text is the number followed by the unit's English letter.
pub proof fn lemma_delay_units(t: Seq<Token>, c: int, label: Seq<char>, v: i64, u: String)
    requires
        0 <= c,
        stream_ok(t, c + 1),
        t[c].kind == TokenKind::Number(v),
        t[c + 1].kind == TokenKind::Ident(u),
    ensures
        (u@ == "t"@ || u@ == "刻"@) ==> (delay_spec(t, c, label) is Ok <==> 1 <= v <= i32::MAX),
        (u@ == "s"@ || u@ == "秒"@) ==> (delay_spec(t, c, label) is Ok <==> 1 <= v && v * 20 <= i32::MAX),
        (u@ == "d"@ || u@ == "天"@) ==> (delay_spec(t, c, label) is Ok <==> 1 <= v && v * 24000 <= i32::MAX),
        (u@ == "t"@ || u@ == "刻"@) && delay_spec(t, c, label) is Ok ==> delay_spec(t, c, label)->Ok_0.0
            == signed_decimal(v as int) + "t"@,
        (u@ == "s"@ || u@ == "秒"@) && delay_spec(t, c, label) is Ok ==> delay_spec(t, c, label)->Ok_0.0
            == signed_decimal(v as int) + "s"@,
        (u@ == "d"@ || u@ == "天"@) && delay_spec(t, c, label) is Ok ==> delay_spec(t, c, label)->Ok_0.0
            == signed_decimal(v as int) + "d"@,
{
    lemma_time_unit_spellings(u@);
    reveal_strlit("t");
    reveal_strlit("s");
    reveal_strlit("d");
    assert("t"@[0] == 't' && "s"@[0] == 's' && "d"@[0] == 'd');
}


/// `!` negates the condition after it.
pub proof fn lemma_bang_negates(t: Seq<Token>, c: int, params: Seq<(Seq<char>, MacroType)>)
    requires
        stream_ok(t, c),
        t[c].kind is Bang,
        not_spec(t, c + 1, params) is Ok,
    ensures
        not_spec(t, c, params) == Ok::<(CondView, Trace, int), (Seq<char>, Span)>(
            (
                CondView::Not(Box::new(not_spec(t, c + 1, params)->Ok_0.0)),
                not_spec(t, c + 1, params)->Ok_0.1,
                not_spec(t, c + 1, params)->Ok_0.2,
            ),
        ),
{
}

/// `&&` joins the condition before it and the one after it as both
/// holding.
pub proof fn lemma_and_joins(t: Seq<Token>, c: int, params: Seq<(Seq<char>, MacroType)>, left: CondView, tr: Trace)
    requires
        stream_ok(t, c),
        t[c].kind is AndAnd,
        not_spec(t, c + 1, params) is Ok,
        moved(t, c, not_spec(t, c + 1, params)->Ok_0.2),
        !(t[not_spec(t, c + 1, params)->Ok_0.2].kind is AndAnd),
    ensures
        ({
            let (right, tr2, q) = not_spec(t, c + 1, params)->Ok_0;
            and_rest_spec(t, c, params, left, tr) == Ok::<(CondView, Trace, int), (Seq<char>, Span)>(
                (CondView::And(Box::new(left), Box::new(right)), followed_by(tr, tr2), q),
            )
        }),
{
    let (right, tr2, q) = not_spec(t, c + 1, params)->Ok_0;
    let joined = CondView::And(Box::new(left), Box::new(right));
    assert(stream_ok(t, q));
    assert(and_rest_spec(t, q, params, joined, followed_by(tr, tr2)) == Ok::<(CondView, Trace, int), (Seq<char>, Span)>(
        (joined, followed_by(tr, tr2), q),
    ));
}

/// `||` joins the condition before it and the one after it as either
/// holding.
pub proof fn lemma_or_joins(t: Seq<Token>, c: int, params: Seq<(Seq<char>, MacroType)>, left: CondView, tr: Trace)
    requires
        stream_ok(t, c),
        t[c].kind is OrOr,
        and_spec(t, c + 1, params) is Ok,
        moved(t, c, and_spec(t, c + 1, params)->Ok_0.2),
        !(t[and_spec(t, c + 1, params)->Ok_0.2].kind is OrOr),
    ensures
        ({
            let (right, tr2, q) = and_spec(t, c + 1, params)->Ok_0;
            or_rest_spec(t, c, params, left, tr) == Ok::<(CondView, Trace, int), (Seq<char>, Span)>(
                (CondView::Or(Box::new(left), Box::new(right)), followed_by(tr, tr2), q),
            )
        }),
{
    let (right, tr2, q) = and_spec(t, c + 1, params)->Ok_0;
    let joined = CondView::Or(Box::new(left), Box::new(right));
    assert(stream_ok(t, q));
    assert(or_rest_spec(t, q, params, joined, followed_by(tr, tr2)) == Ok::<(CondView, Trace, int), (Seq<char>, Span)>(
        (joined, followed_by(tr, tr2), q),
    ));
}

/// A `-` before a number is that number negated, and before anything else
/// the negation of what follows.
pub proof fn lemma_minus_negates(t: Seq<Token>, c: int, params: Seq<(Seq<char>, MacroType)>)
    requires
        stream_ok(t, c + 1),
        0 <= c,
        t[c].kind is Minus,
    ensures
        (t[c + 1].kind is Number && i32::MIN <= -(t[c + 1].kind->Number_0) <= i32::MAX) ==> unary_spec(t, c, params)
            == Ok::<(ExprNode, Trace, int), (Seq<char>, Span)>(
            (
                ExprNode {
                    kind: ExprView::Integer((-(t[c + 1].kind->Number_0)) as i32),
                    span: merged(t[c].span, t[c + 1].span),
                },
                no_trace(),
                c + 2,
            ),
        ),
        (!(t[c + 1].kind is Number) && unary_spec(t, c + 1, params) is Ok) ==> ({
            let (v, tr, q) = unary_spec(t, c + 1, params)->Ok_0;
            unary_spec(t, c, params) == Ok::<(ExprNode, Trace, int), (Seq<char>, Span)>(
                (ExprNode { kind: ExprView::Negate(Box::new(v)), span: merged(t[c].span, v.span) }, tr, q),
            )
        }),
{
}

} // verus!
