//! What the words of statements mean: message targets, `give` targets,
//! the forms of `return`, schedule modes and the number type of `compute`
//! each give their own result.

use vstd::prelude::*;
use super::cursor::{Token, TokenKind, Span, word_at, stream_ok, MacroType};
use super::components::{Trace, no_trace};
use super::statements::{
    StmtKindView, StmtResult, MessageTargetView, ScheduleMode, message_head_spec, give_spec, return_spec, schedule_spec,
    delay_spec,
};
use super::arithmetic::compute_payload_spec;
use super::expressions::ComputeKind;
use crate::parser::keywords::actions::{message_target_spec, compute_source_spec, compute_kind_spec};
use crate::parser::keywords::values::word_matches_spec;
use crate::parser::keywords::spellings::{lemma_message_target_spellings, lemma_compute_kind_spellings};

verus! {

broadcast use vstd::string::group_string_axioms;

/// `message.all(…)` speaks to every player and `message.self(…)` to the
/// entity running the function, in either spelling; neither reads more
/// before the content.
pub proof fn lemma_message_words(t: Seq<Token>, c: int, m: Seq<char>)
    requires
        m == "all"@ || m == "全部"@ || m == "self"@ || m == "自身"@,
    ensures
        (m == "all"@ || m == "全部"@) ==> message_head_spec(t, c, message_target_spec(m)->0) == Ok::<
            (MessageTargetView, int),
            (Seq<char>, Span),
        >((MessageTargetView::All, c + 4)),
        (m == "self"@ || m == "自身"@) ==> message_head_spec(t, c, message_target_spec(m)->0) == Ok::<
            (MessageTargetView, int),
            (Seq<char>, Span),
        >((MessageTargetView::SelfEntity, c + 4)),
{
    lemma_message_target_spellings(m);
    reveal_strlit("all");
    reveal_strlit("self");
    reveal_strlit("nearest");
    assert("all"@.len() == 3 && "self"@.len() == 4 && "nearest"@.len() == 7);
}

/// The kind of a statement result.
pub open spec fn result_kind(r: StmtResult) -> StmtKindView {
    r->Ok_0.0.kind
}

/// `give(origin, …)` gives to the player who ran the function (in either
/// spelling of `origin`), and `give(q, …)` to the players of the query
/// `q`.
pub proof fn lemma_give_target(t: Seq<Token>, c: int, g: String, item: String)
    requires
        0 <= c,
        c + 6 < t.len(),
        t[c + 1].kind is LeftParen,
        t[c + 2].kind == TokenKind::Ident(g),
        t[c + 3].kind is Comma,
        t[c + 4].kind == TokenKind::Ident(item),
        !word_at(t, c + 4, "self"@),
        t[c + 5].kind is RightParen,
        t[c + 6].kind is Semicolon,
    ensures
        give_spec(t, c) is Ok,
        give_spec(t, c)->Ok_0.2 == c + 7,
        result_kind(give_spec(t, c)) == StmtKindView::Give(
            if word_matches_spec(g@, "origin"@) {
                None
            } else {
                Some(g@)
            },
            Some(item@),
            None,
            None,
        ),
{
}

/// `return;` returns nothing and `return fail;` fails the function.
pub proof fn lemma_return_forms(t: Seq<Token>, c: int, params: Seq<(Seq<char>, MacroType)>)
    requires
        0 <= c,
        c + 2 < t.len(),
    ensures
        t[c + 1].kind is Semicolon ==> return_spec(t, c, params) is Ok && result_kind(return_spec(t, c, params))
            == StmtKindView::ReturnVoid && return_spec(t, c, params)->Ok_0.2 == c + 2,
        word_at(t, c + 1, "fail"@) && t[c + 2].kind is Semicolon ==> return_spec(t, c, params) is Ok && result_kind(
            return_spec(t, c, params),
        ) == StmtKindView::ReturnFail && return_spec(t, c, params)->Ok_0.2 == c + 3,
{
}

/// A schedule with `append` after its delay adds to the function's pending
/// runs; with `replace`, or with nothing, it replaces them.
pub proof fn lemma_schedule_mode(t: Seq<Token>, c: int, f: String)
    requires
        0 <= c,
        c + 5 < t.len(),
        t[c + 1].kind == TokenKind::Ident(f),
        t[c + 2].kind is LeftParen,
        t[c + 3].kind is RightParen,
        word_at(t, c + 4, "after"@),
        delay_spec(t, c + 5, "调度延迟"@) is Ok,
        ({
            let q = delay_spec(t, c + 5, "调度延迟"@)->Ok_0.1;
            &&& 0 <= q
            &&& q + 1 < t.len()
            &&& if word_at(t, q, "append"@) || word_at(t, q, "replace"@) {
                t[q + 1].kind is Semicolon
            } else {
                t[q].kind is Semicolon
            }
        }),
    ensures
        schedule_spec(t, c) is Ok,
        ({
            let q = delay_spec(t, c + 5, "调度延迟"@)->Ok_0.1;
            match result_kind(schedule_spec(t, c)) {
                StmtKindView::Schedule(target, delay, mode) => target == (false, f@) && delay == delay_spec(
                    t,
                    c + 5,
                    "调度延迟"@,
                )->Ok_0.0 && (mode == ScheduleMode::Append <==> word_at(t, q, "append"@)),
                _ => false,
            }
        }),
{
}

/// The number type of `compute` is a float for `float`/`浮点` and an
/// integer for `integer`/`整数`.
pub proof fn lemma_compute_kind_words(t: Seq<Token>, c: int, params: Seq<(Seq<char>, MacroType)>, src: String, k: String, p: String)
    requires
        0 <= c,
        c + 5 < t.len(),
        t[c].kind == TokenKind::Ident(src),
        compute_source_spec(src@) == Some("default"@),
        t[c + 1].kind is Comma,
        t[c + 2].kind == TokenKind::Ident(k),
        compute_kind_spec(k@) is Some,
        t[c + 3].kind is Comma,
        t[c + 4].kind == TokenKind::String(p),
        !(t[c + 5].kind is Comma),
    ensures
        compute_payload_spec(t, c, params) is Ok,
        (compute_payload_spec(t, c, params)->Ok_0.0.1 == ComputeKind::Float) <==> (k@ == "float"@ || k@ == "浮点"@),
        (compute_payload_spec(t, c, params)->Ok_0.0.1 == ComputeKind::Integer) <==> (k@ == "integer"@ || k@ == "整数"@),
{
    lemma_compute_kind_spellings(k@);
    reveal_strlit("float");
    reveal_strlit("integer");
    reveal_strlit("浮点");
    reveal_strlit("整数");
    assert("float"@.len() == 5 && "integer"@.len() == 7 && "浮点"@.len() == 2 && "整数"@.len() == 2);
    assert("浮点"@[0] != "整数"@[0]);
}

} // verus!
