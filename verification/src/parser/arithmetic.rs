//! Arithmetic expressions: `+ -` over `* / %` over unary minus over
//! primaries (integers, score variables, calls, `count(…)`, `random(…)`,
//! `compute(…)`, named expressions and parenthesised groups), and call
//! arguments.

use vstd::prelude::*;
use crate::chars::str_eq;
use crate::parser::keywords::actions::{compute_source, compute_source_spec, compute_kind, compute_kind_spec};
use crate::parser::keywords::values::{word_matches, word_matches_spec};
use super::cursor::{
    macro_state, Parser, Token, TokenKind, Span, Diagnostic, diag, advanced, kind_at, ident_at, merged, stream_ok,
    lemma_not_last, MacroType,
};
use super::arguments::{holder_spec};
use super::numbers::{signed_spec, after_minus};
use super::positions::{block_position_spec, signed_number_text_spec};
use super::expressions::{
    Expr, ExprKind, ExprView, ExprNode, BinaryOp, ComputeSource, ComputeSourceView, ComputeKind, node_view,
    nodes_view, string_at, named_expression_spec,
};
use super::components::{
    Trace, MacroState, no_trace, followed_by, extends, moved, stuck, lemma_extends_none, lemma_extends_then,
};

verus! {

broadcast use vstd::string::group_string_axioms;

/// An expression result: the expression, what it records of macro
/// parameters, and the position after it.
pub type ExprResult = Result<(ExprNode, Trace, int), (Seq<char>, Span)>;

/// The operator of `+` or `-` at `c`.
pub open spec fn additive_op(t: Seq<Token>, c: int) -> Option<BinaryOp> {
    if kind_at(t, c, TokenKind::Plus) {
        Some(BinaryOp::Add)
    } else if kind_at(t, c, TokenKind::Minus) {
        Some(BinaryOp::Subtract)
    } else {
        None
    }
}

/// The operator of `*`, `/` or `%` at `c`.
pub open spec fn multiplicative_op(t: Seq<Token>, c: int) -> Option<BinaryOp> {
    if kind_at(t, c, TokenKind::Star) {
        Some(BinaryOp::Multiply)
    } else if kind_at(t, c, TokenKind::Slash) {
        Some(BinaryOp::Divide)
    } else if kind_at(t, c, TokenKind::Percent) {
        Some(BinaryOp::Modulo)
    } else {
        None
    }
}

pub open spec fn binary(left: ExprNode, op: BinaryOp, right: ExprNode) -> ExprNode {
    ExprNode {
        kind: ExprView::Binary(Box::new(left), op, Box::new(right)),
        span: merged(left.span, right.span),
    }
}

/// An expression at `c`: sums of products.
pub open spec fn additive_spec(t: Seq<Token>, c: int, params: Seq<(Seq<char>, MacroType)>) -> ExprResult
    decreases t.len() - c, 3int,
{
    if !stream_ok(t, c) {
        Err(stuck())
    } else {
        match multiplicative_spec(t, c, params) {
            Err(e) => Err(e),
            Ok((e, tr, q)) => if !moved(t, c, q) {
                Err(stuck())
            } else {
                additive_rest_spec(t, q, params, e, tr)
            },
        }
    }
}

/// The `+ …` and `- …` that follow `left` from `c` on.
pub open spec fn additive_rest_spec(
    t: Seq<Token>,
    c: int,
    params: Seq<(Seq<char>, MacroType)>,
    left: ExprNode,
    tr: Trace,
) -> ExprResult
    decreases t.len() - c, 0int,
{
    if !stream_ok(t, c) {
        Err(stuck())
    } else {
        match additive_op(t, c) {
            None => Ok((left, tr, c)),
            Some(op) => match multiplicative_spec(t, c + 1, params) {
                Err(e) => Err(e),
                Ok((right, tr2, q)) => if !moved(t, c, q) {
                    Err(stuck())
                } else {
                    additive_rest_spec(t, q, params, binary(left, op, right), followed_by(tr, tr2))
                },
            },
        }
    }
}

/// A product at `c`.
pub open spec fn multiplicative_spec(t: Seq<Token>, c: int, params: Seq<(Seq<char>, MacroType)>) -> ExprResult
    decreases t.len() - c, 2int,
{
    if !stream_ok(t, c) {
        Err(stuck())
    } else {
        match unary_spec(t, c, params) {
            Err(e) => Err(e),
            Ok((e, tr, q)) => if !moved(t, c, q) {
                Err(stuck())
            } else {
                multiplicative_rest_spec(t, q, params, e, tr)
            },
        }
    }
}

/// The `* …`, `/ …` and `% …` that follow `left` from `c` on.
pub open spec fn multiplicative_rest_spec(
    t: Seq<Token>,
    c: int,
    params: Seq<(Seq<char>, MacroType)>,
    left: ExprNode,
    tr: Trace,
) -> ExprResult
    decreases t.len() - c, 0int,
{
    if !stream_ok(t, c) {
        Err(stuck())
    } else {
        match multiplicative_op(t, c) {
            None => Ok((left, tr, c)),
            Some(op) => match unary_spec(t, c + 1, params) {
                Err(e) => Err(e),
                Ok((right, tr2, q)) => if !moved(t, c, q) {
                    Err(stuck())
                } else {
                    multiplicative_rest_spec(t, q, params, binary(left, op, right), followed_by(tr, tr2))
                },
            },
        }
    }
}

/// A unary expression at `c`: a `-` before a number gives the negative
/// integer; before anything else, its negation.
pub open spec fn unary_spec(t: Seq<Token>, c: int, params: Seq<(Seq<char>, MacroType)>) -> ExprResult
    decreases t.len() - c, 1int,
{
    if !stream_ok(t, c) {
        Err(stuck())
    } else if kind_at(t, c, TokenKind::Minus) {
        match t[c + 1].kind {
            TokenKind::Number(n) => if i32::MIN <= -n <= i32::MAX {
                Ok(
                    (
                        ExprNode { kind: ExprView::Integer((-n) as i32), span: merged(t[c].span, t[c + 1].span) },
                        no_trace(),
                        c + 2,
                    ),
                )
            } else {
                Err(("整数超出 32 位范围"@, t[c + 1].span))
            },
            _ => match unary_spec(t, c + 1, params) {
                Err(e) => Err(e),
                Ok((v, tr, q)) => Ok(
                    (
                        ExprNode { kind: ExprView::Negate(Box::new(v)), span: merged(t[c].span, v.span) },
                        tr,
                        q,
                    ),
                ),
            },
        }
    } else {
        primary_spec(t, c, params)
    }
}

/// `count(查询)` from its `(` at `c`, after the word spanning `start`.
pub open spec fn count_spec(t: Seq<Token>, c: int, start: Span) -> ExprResult {
    if !kind_at(t, c, TokenKind::LeftParen) {
        Err(("count 后需要 `(`"@, t[c].span))
    } else {
        match ident_at(t, c + 1, "count 需要已声明的实体查询名称"@) {
            Err(e) => Err(e),
            Ok((query, query_span)) => if !kind_at(t, c + 2, TokenKind::RightParen) {
                Err(("count 调用缺少 `)`"@, t[c + 2].span))
            } else {
                Ok(
                    (
                        ExprNode { kind: ExprView::Count(query, query_span), span: merged(start, t[c + 2].span) },
                        no_trace(),
                        c + 3,
                    ),
                )
            },
        }
    }
}

/// `random(最小值, 最大值)` from its `(` at `c`.
pub open spec fn random_spec(t: Seq<Token>, c: int, start: Span) -> ExprResult {
    if !kind_at(t, c, TokenKind::LeftParen) {
        Err(("random 后需要 `(`"@, t[c].span))
    } else {
        match signed_spec(t, c + 1, "random 最小值"@) {
            Err(e) => Err(e),
            Ok(min) => {
                let p1 = advanced(t, after_minus(t, c + 1).1);
                if !kind_at(t, p1, TokenKind::Comma) {
                    Err(("random 最小值后需要 `,`"@, t[p1].span))
                } else {
                    match signed_spec(t, p1 + 1, "random 最大值"@) {
                        Err(e) => Err(e),
                        Ok(max) => {
                            let p2 = advanced(t, after_minus(t, p1 + 1).1);
                            if !kind_at(t, p2, TokenKind::RightParen) {
                                Err(("random 调用缺少 `)`"@, t[p2].span))
                            } else {
                                Ok(
                                    (
                                        ExprNode { kind: ExprView::Random(min, max), span: merged(start, t[p2].span) },
                                        no_trace(),
                                        p2 + 1,
                                    ),
                                )
                            }
                        },
                    }
                }
            },
        }
    }
}

/// The source of `compute` at `c`: the source, what it records, and the
/// position after it.
pub open spec fn compute_source_part_spec(t: Seq<Token>, c: int, params: Seq<(Seq<char>, MacroType)>) -> Result<
    (ComputeSourceView, Trace, int),
    (Seq<char>, Span),
> {
    match ident_at(t, c, "compute 来源 default/block/entity"@) {
        Err(e) => Err(e),
        Ok((name, name_span)) => match compute_source_spec(name) {
            None => Err(
                ("未知 compute 来源 `"@ + name + "`，可用 default（默认）、block（方块）或 entity（实体）"@, name_span),
            ),
            Some(k) => if k == "default"@ {
                Ok((ComputeSourceView::Default, no_trace(), c + 1))
            } else if k == "block"@ {
                if !kind_at(t, c + 1, TokenKind::Comma) {
                    Err(("compute block 来源后需要 `,`"@, t[c + 1].span))
                } else {
                    match block_position_spec(t, c + 2, "compute 方块坐标"@, params) {
                        Err(e) => Err(e),
                        Ok((p, used, recorded, after)) => Ok((ComputeSourceView::Block(p), (used, recorded), after)),
                    }
                }
            } else if !kind_at(t, c + 1, TokenKind::Comma) {
                Err(("compute entity 来源后需要 `,`"@, t[c + 1].span))
            } else {
                match holder_spec(t, c + 2, "计分持有者"@) {
                    Err(e) => Err(e),
                    Ok(h) => Ok((ComputeSourceView::Entity(h), no_trace(), advanced(t, c + 2))),
                }
            },
        },
    }
}

/// The arguments of `compute` at `c`: source, number type, provider and
/// its span, optional scale; what the source records; and the position
/// after them.
pub open spec fn compute_payload_spec(t: Seq<Token>, c: int, params: Seq<(Seq<char>, MacroType)>) -> Result<
    ((ComputeSourceView, ComputeKind, Seq<char>, Span, Option<Seq<char>>), Trace, int),
    (Seq<char>, Span),
> {
    match compute_source_part_spec(t, c, params) {
        Err(e) => Err(e),
        Ok((src, tr, q)) => if !kind_at(t, q, TokenKind::Comma) {
            Err(("compute 来源后需要 `,`"@, t[q].span))
        } else {
            match ident_at(t, q + 1, "compute 类型 float 或 integer"@) {
                Err(e) => Err(e),
                Ok((kind_name, kind_span)) => match compute_kind_spec(kind_name) {
                    None => Err(
                        ("compute 类型只能是 float/浮点 或 integer/整数，实际为 `"@ + kind_name + "`"@, kind_span),
                    ),
                    Some(kn) => {
                        let kind = if kn == "float"@ {
                            ComputeKind::Float
                        } else {
                            ComputeKind::Integer
                        };
                        if !kind_at(t, q + 2, TokenKind::Comma) {
                            Err(("compute 类型后需要 `,`"@, t[q + 2].span))
                        } else {
                            match string_at(t, q + 3, "compute 需要 provider 资源位置字符串"@) {
                                Err(e) => Err(e),
                                Ok((provider, provider_span)) => if kind_at(t, q + 4, TokenKind::Comma) {
                                    match signed_number_text_spec(t, q + 5, "compute 缩放"@) {
                                        Err(e) => Err(e),
                                        Ok((scale, after)) => Ok(
                                            ((src, kind, provider, provider_span, Some(scale)), tr, after),
                                        ),
                                    }
                                } else {
                                    Ok(((src, kind, provider, provider_span, None), tr, q + 4))
                                },
                            }
                        }
                    },
                },
            }
        },
    }
}

/// `compute(…)` from its `(` at `c`.
pub open spec fn compute_spec(t: Seq<Token>, c: int, start: Span, params: Seq<(Seq<char>, MacroType)>) -> ExprResult {
    if !kind_at(t, c, TokenKind::LeftParen) {
        Err(("compute 后需要 `(`"@, t[c].span))
    } else {
        match compute_payload_spec(t, c + 1, params) {
            Err(e) => Err(e),
            Ok(((src, kind, provider, provider_span, scale), tr, q)) => if !kind_at(t, q, TokenKind::RightParen) {
                Err(("compute 调用缺少 `)`"@, t[q].span))
            } else {
                Ok(
                    (
                        ExprNode {
                            kind: ExprView::Compute(src, kind, provider, provider_span, scale),
                            span: merged(start, t[q].span),
                        },
                        tr,
                        q + 1,
                    ),
                )
            },
        }
    }
}

/// The arguments of a call from its `(` at `c`: the arguments, what they
/// record, and the position after the `)`.
pub open spec fn call_arguments_spec(t: Seq<Token>, c: int, params: Seq<(Seq<char>, MacroType)>) -> Result<
    (Seq<ExprNode>, Trace, int),
    (Seq<char>, Span),
>
    decreases t.len() - c, 0int,
{
    if !stream_ok(t, c) {
        Err(stuck())
    } else if !kind_at(t, c, TokenKind::LeftParen) {
        Err(("函数名称后需要 `(`"@, t[c].span))
    } else if kind_at(t, c + 1, TokenKind::RightParen) {
        Ok((seq![], no_trace(), c + 2))
    } else {
        match argument_list_spec(t, c + 1, params, seq![], no_trace()) {
            Err(e) => Err(e),
            Ok((args, tr, q)) => if !moved(t, c, q) {
                Err(stuck())
            } else if !kind_at(t, q, TokenKind::RightParen) {
                Err(("实参列表缺少 `)`"@, t[q].span))
            } else {
                Ok((args, tr, q + 1))
            },
        }
    }
}

/// The arguments from `c` on, after `done`, separated by `,`.
pub open spec fn argument_list_spec(
    t: Seq<Token>,
    c: int,
    params: Seq<(Seq<char>, MacroType)>,
    done: Seq<ExprNode>,
    tr: Trace,
) -> Result<(Seq<ExprNode>, Trace, int), (Seq<char>, Span)>
    decreases t.len() - c, 4int,
{
    if !stream_ok(t, c) {
        Err(stuck())
    } else {
        match additive_spec(t, c, params) {
            Err(e) => Err(e),
            Ok((e, tr2, q)) => if !moved(t, c, q) {
                Err(stuck())
            } else if kind_at(t, q, TokenKind::Comma) {
                argument_list_spec(t, q + 1, params, done.push(e), followed_by(tr, tr2))
            } else {
                Ok((done.push(e), followed_by(tr, tr2), q))
            },
        }
    }
}

/// A primary at `c`.
pub open spec fn primary_spec(t: Seq<Token>, c: int, params: Seq<(Seq<char>, MacroType)>) -> ExprResult
    decreases t.len() - c, 0int,
{
    if !stream_ok(t, c) {
        Err(stuck())
    } else {
        match t[c].kind {
            TokenKind::Number(n) => if i32::MIN <= n <= i32::MAX {
                Ok((ExprNode { kind: ExprView::Integer(n as i32), span: t[c].span }, no_trace(), c + 1))
            } else {
                Err(("整数超出 32 位范围"@, t[c].span))
            },
            TokenKind::Ident(name) => if kind_at(t, c + 1, TokenKind::LeftParen) {
                if word_matches_spec(name@, "count"@) {
                    count_spec(t, c + 1, t[c].span)
                } else if word_matches_spec(name@, "random"@) {
                    random_spec(t, c + 1, t[c].span)
                } else if word_matches_spec(name@, "compute"@) {
                    compute_spec(t, c + 1, t[c].span, params)
                } else {
                    match call_arguments_spec(t, c + 1, params) {
                        Err(e) => Err(e),
                        Ok((args, tr, q)) => Ok(
                            (
                                ExprNode { kind: ExprView::Call(name@, args), span: merged(t[c].span, t[q - 1].span) },
                                tr,
                                q,
                            ),
                        ),
                    }
                }
            } else if kind_at(t, c + 1, TokenKind::Dot) {
                match named_expression_spec(t, c + 1, name@, t[c].span, params) {
                    Err(e) => Err(e),
                    Ok((v, span, used, recorded, after)) => Ok(
                        (ExprNode { kind: v, span }, (used, recorded), after),
                    ),
                }
            } else {
                Ok((ExprNode { kind: ExprView::Score(name@), span: t[c].span }, no_trace(), c + 1))
            },
            TokenKind::LeftParen => match additive_spec(t, c + 1, params) {
                Err(e) => Err(e),
                Ok((e, tr, q)) => if !moved(t, c, q) {
                    Err(stuck())
                } else if !kind_at(t, q, TokenKind::RightParen) {
                    Err(("表达式缺少 `)`"@, t[q].span))
                } else {
                    Ok((ExprNode { kind: e.kind, span: merged(t[c].span, t[q].span) }, tr, q + 1))
                },
            },
            _ => Err(("这里需要整数、计分变量或括号表达式"@, t[c].span)),
        }
    }
}


/// The trace of an expression result.
pub open spec fn expr_trace(r: ExprResult) -> Trace {
    match r {
        Ok((_, tr, _)) => tr,
        Err(_) => no_trace(),
    }
}

/// `r` is the outcome that `s` describes, for a parser that went from
/// `before` to `after`; a success moved past at least one token.
pub open spec fn expr_outcome(r: Result<Expr, Diagnostic>, s: ExprResult, before: MacroState, start: int, after: MacroState, cursor: int) -> bool {
    match (r, s) {
        (Ok(e), Ok((v, tr, q))) => node_view(e) == v && cursor == q && q > start && extends(after, before, tr),
        (Err(d), Err(e)) => diag(d) == e,
        _ => false,
    }
}

/// The compute arguments as the contracts speak of them.
pub open spec fn payload_view(p: (ComputeSource, ComputeKind, String, Span, Option<String>)) -> (
    ComputeSourceView,
    ComputeKind,
    Seq<char>,
    Span,
    Option<Seq<char>>,
) {
    (
        super::expressions::compute_source_view(p.0),
        p.1,
        p.2@,
        p.3,
        match p.4 {
            Some(s) => Some(s@),
            None => None,
        },
    )
}

proof fn lemma_push_nodes(s: Seq<Expr>, e: Expr)
    ensures
        nodes_view(s.push(e)) == nodes_view(s).push(node_view(e)),
{
    assert(s.push(e).subrange(0, s.len() as int) =~= s);
}


/// Whether the token kind `k` may continue an operand: an operator of a
/// sum or a product, or the `(` or `.` that makes a word a call or a named
/// expression.
pub open spec fn continues_term(k: TokenKind) -> bool {
    k is Plus || k is Minus || k is Star || k is Slash || k is Percent || k is LeftParen || k is Dot
}

/// The node of a score variable `x` written at `c`.
pub open spec fn score_node(t: Seq<Token>, c: int, x: String) -> ExprNode {
    ExprNode { kind: ExprView::Score(x@), span: t[c].span }
}

/// A word that neither a `(` nor a `.` follows is the score variable it
/// names.
pub proof fn lemma_word_is_score(t: Seq<Token>, c: int, params: Seq<(Seq<char>, MacroType)>, x: String)
    requires
        0 <= c,
        stream_ok(t, c + 1),
        t[c].kind == TokenKind::Ident(x),
        !(t[c + 1].kind is LeftParen),
        !(t[c + 1].kind is Dot),
    ensures
        unary_spec(t, c, params) == Ok::<(ExprNode, Trace, int), (Seq<char>, Span)>((score_node(t, c, x), no_trace(), c + 1)),
{
    assert(primary_spec(t, c, params) == Ok::<(ExprNode, Trace, int), (Seq<char>, Span)>((score_node(t, c, x), no_trace(), c + 1)));
}

/// A score variable that nothing continues is a whole expression.
pub proof fn lemma_lone_score(t: Seq<Token>, c: int, params: Seq<(Seq<char>, MacroType)>, x: String)
    requires
        0 <= c,
        stream_ok(t, c + 1),
        t[c].kind == TokenKind::Ident(x),
        !continues_term(t[c + 1].kind),
    ensures
        additive_spec(t, c, params) == Ok::<(ExprNode, Trace, int), (Seq<char>, Span)>((score_node(t, c, x), no_trace(), c + 1)),
{
    lemma_word_is_score(t, c, params, x);
    assert(multiplicative_rest_spec(t, c + 1, params, score_node(t, c, x), no_trace()) == Ok::<
        (ExprNode, Trace, int),
        (Seq<char>, Span),
    >((score_node(t, c, x), no_trace(), c + 1)));
    assert(multiplicative_spec(t, c, params) == Ok::<(ExprNode, Trace, int), (Seq<char>, Span)>((score_node(t, c, x), no_trace(), c + 1)));
    assert(additive_rest_spec(t, c + 1, params, score_node(t, c, x), no_trace()) == Ok::<
        (ExprNode, Trace, int),
        (Seq<char>, Span),
    >((score_node(t, c, x), no_trace(), c + 1)));
}

/// Two score variables joined by one operator token read as that
/// operation: `*` multiplies, `/` divides, `%` takes the remainder, `+`
/// adds and `-` subtracts; the expression spans both operands and ends
/// after the second.
pub proof fn lemma_two_scores(t: Seq<Token>, c: int, params: Seq<(Seq<char>, MacroType)>, x: String, y: String)
    requires
        0 <= c,
        stream_ok(t, c + 3),
        t[c].kind == TokenKind::Ident(x),
        t[c + 1].kind is Star || t[c + 1].kind is Slash || t[c + 1].kind is Percent || t[c + 1].kind is Plus
            || t[c + 1].kind is Minus,
        t[c + 2].kind == TokenKind::Ident(y),
        !continues_term(t[c + 3].kind),
    ensures
        ({
            let r = additive_spec(t, c, params);
            &&& r is Ok
            &&& r->Ok_0.2 == c + 3
            &&& r->Ok_0.0.span == merged(t[c].span, t[c + 2].span)
            &&& match r->Ok_0.0.kind {
                ExprView::Binary(left, op, right) => {
                    &&& *left == score_node(t, c, x)
                    &&& *right == score_node(t, c + 2, y)
                    &&& (t[c + 1].kind is Star ==> op == BinaryOp::Multiply)
                    &&& (t[c + 1].kind is Slash ==> op == BinaryOp::Divide)
                    &&& (t[c + 1].kind is Percent ==> op == BinaryOp::Modulo)
                    &&& (t[c + 1].kind is Plus ==> op == BinaryOp::Add)
                    &&& (t[c + 1].kind is Minus ==> op == BinaryOp::Subtract)
                },
                _ => false,
            }
        }),
{
    let a = score_node(t, c, x);
    let b = score_node(t, c + 2, y);
    lemma_word_is_score(t, c, params, x);
    lemma_word_is_score(t, c + 2, params, y);
    if t[c + 1].kind is Star || t[c + 1].kind is Slash || t[c + 1].kind is Percent {
        let op = multiplicative_op(t, c + 1)->0;
        let tr = followed_by(no_trace(), no_trace());
        assert(multiplicative_rest_spec(t, c + 3, params, binary(a, op, b), tr) == Ok::<
            (ExprNode, Trace, int),
            (Seq<char>, Span),
        >((binary(a, op, b), tr, c + 3)));
        assert(multiplicative_rest_spec(t, c + 1, params, a, no_trace()) == Ok::<
            (ExprNode, Trace, int),
            (Seq<char>, Span),
        >((binary(a, op, b), tr, c + 3)));
        assert(multiplicative_spec(t, c, params) == Ok::<(ExprNode, Trace, int), (Seq<char>, Span)>((binary(a, op, b), tr, c + 3)));
        assert(additive_rest_spec(t, c + 3, params, binary(a, op, b), tr) == Ok::<
            (ExprNode, Trace, int),
            (Seq<char>, Span),
        >((binary(a, op, b), tr, c + 3)));
    } else {
        let op = additive_op(t, c + 1)->0;
        let tr = followed_by(no_trace(), no_trace());
        assert(multiplicative_rest_spec(t, c + 1, params, a, no_trace()) == Ok::<
            (ExprNode, Trace, int),
            (Seq<char>, Span),
        >((a, no_trace(), c + 1)));
        assert(multiplicative_spec(t, c, params) == Ok::<(ExprNode, Trace, int), (Seq<char>, Span)>((a, no_trace(), c + 1)));
        assert(multiplicative_rest_spec(t, c + 3, params, b, no_trace()) == Ok::<
            (ExprNode, Trace, int),
            (Seq<char>, Span),
        >((b, no_trace(), c + 3)));
        assert(multiplicative_spec(t, c + 2, params) == Ok::<(ExprNode, Trace, int), (Seq<char>, Span)>((b, no_trace(), c + 3)));
        assert(additive_rest_spec(t, c + 3, params, binary(a, op, b), tr) == Ok::<
            (ExprNode, Trace, int),
            (Seq<char>, Span),
        >((binary(a, op, b), tr, c + 3)));
        assert(additive_rest_spec(t, c + 1, params, a, no_trace()) == Ok::<
            (ExprNode, Trace, int),
            (Seq<char>, Span),
        >((binary(a, op, b), tr, c + 3)));
    }
}

/// Each operator token names its own operation, and no other token is an
/// operator: the five operator tokens give five different operations.
pub proof fn lemma_operator_tokens(t: Seq<Token>, c: int)
    ensures
        multiplicative_op(t, c) == Some(BinaryOp::Multiply) <==> t[c].kind is Star,
        multiplicative_op(t, c) == Some(BinaryOp::Divide) <==> t[c].kind is Slash,
        multiplicative_op(t, c) == Some(BinaryOp::Modulo) <==> t[c].kind is Percent,
        multiplicative_op(t, c) is None <==> !(t[c].kind is Star || t[c].kind is Slash || t[c].kind is Percent),
        additive_op(t, c) == Some(BinaryOp::Add) <==> t[c].kind is Plus,
        additive_op(t, c) == Some(BinaryOp::Subtract) <==> t[c].kind is Minus,
        additive_op(t, c) is None <==> !(t[c].kind is Plus || t[c].kind is Minus),
{
}

impl Parser {
    /// An arithmetic expression.
    pub fn expression(&mut self) -> (r: Result<Expr, Diagnostic>)
        requires
            old(self).wf(),
        ensures
            final(self).wf(),
            final(self).tokens@ == old(self).tokens@,
            expr_outcome(r, additive_spec(old(self).tokens@, old(self).cursor as int, macro_state(&*old(self)).0), macro_state(&*old(self)), old(self).cursor as int, macro_state(&*final(self)), final(self).cursor as int),
        decreases old(self).tokens@.len() - old(self).cursor, 3int,
    {
        let ghost start = macro_state(&*self);
        let ghost c = self.cursor as int;
        let left = match self.multiplicative() {
            Ok(e) => e,
            Err(d) => return Err(d),
        };
        let ghost tr = expr_trace(multiplicative_spec(self.tokens@, c, start.0));
        self.additive_rest(left, Ghost(start), Ghost(tr))
    }

    fn additive_rest(&mut self, left: Expr, Ghost(base): Ghost<MacroState>, Ghost(tr): Ghost<Trace>) -> (r: Result<
        Expr,
        Diagnostic,
    >)
        requires
            old(self).wf(),
            extends(macro_state(&*old(self)), base, tr),
        ensures
            final(self).wf(),
            final(self).tokens@ == old(self).tokens@,
            match (r, additive_rest_spec(old(self).tokens@, old(self).cursor as int, base.0, node_view(left), tr)) {
                (Ok(e), Ok((v, tr2, q))) => node_view(e) == v && final(self).cursor == q && q >= old(self).cursor
                    && extends(macro_state(&*final(self)), base, tr2),
                (Err(d), Err(e)) => diag(d) == e,
                _ => false,
            },
        decreases old(self).tokens@.len() - old(self).cursor, 0int,
    {
        let ghost t = self.tokens@;
        let ghost c = self.cursor as int;
        let operation = if self.take(&TokenKind::Plus).is_some() {
            BinaryOp::Add
        } else if self.take(&TokenKind::Minus).is_some() {
            BinaryOp::Subtract
        } else {
            return Ok(left);
        };
        proof {
            lemma_not_last(t, c);
        }
        let ghost before = macro_state(&*self);
        let ghost tr2 = expr_trace(multiplicative_spec(t, c + 1, base.0));
        let right = match self.multiplicative() {
            Ok(e) => e,
            Err(d) => return Err(d),
        };
        proof {
            lemma_extends_then(base, before, macro_state(&*self), tr, tr2);
        }
        let span = left.span.merge(right.span);
        let e = Expr { kind: ExprKind::Binary { left: Box::new(left), operation, right: Box::new(right) }, span };
        self.additive_rest(e, Ghost(base), Ghost(followed_by(tr, tr2)))
    }

    fn multiplicative(&mut self) -> (r: Result<Expr, Diagnostic>)
        requires
            old(self).wf(),
        ensures
            final(self).wf(),
            final(self).tokens@ == old(self).tokens@,
            expr_outcome(r, multiplicative_spec(old(self).tokens@, old(self).cursor as int, macro_state(&*old(self)).0), macro_state(&*old(self)), old(self).cursor as int, macro_state(&*final(self)), final(self).cursor as int),
        decreases old(self).tokens@.len() - old(self).cursor, 2int,
    {
        let ghost start = macro_state(&*self);
        let ghost c = self.cursor as int;
        let left = match self.unary() {
            Ok(e) => e,
            Err(d) => return Err(d),
        };
        let ghost tr = expr_trace(unary_spec(self.tokens@, c, start.0));
        self.multiplicative_rest(left, Ghost(start), Ghost(tr))
    }

    fn multiplicative_rest(&mut self, left: Expr, Ghost(base): Ghost<MacroState>, Ghost(tr): Ghost<Trace>) -> (r: Result<
        Expr,
        Diagnostic,
    >)
        requires
            old(self).wf(),
            extends(macro_state(&*old(self)), base, tr),
        ensures
            final(self).wf(),
            final(self).tokens@ == old(self).tokens@,
            match (r, multiplicative_rest_spec(old(self).tokens@, old(self).cursor as int, base.0, node_view(left), tr)) {
                (Ok(e), Ok((v, tr2, q))) => node_view(e) == v && final(self).cursor == q && q >= old(self).cursor
                    && extends(macro_state(&*final(self)), base, tr2),
                (Err(d), Err(e)) => diag(d) == e,
                _ => false,
            },
        decreases old(self).tokens@.len() - old(self).cursor, 0int,
    {
        let ghost t = self.tokens@;
        let ghost c = self.cursor as int;
        let operation = if self.take(&TokenKind::Star).is_some() {
            BinaryOp::Multiply
        } else if self.take(&TokenKind::Slash).is_some() {
            BinaryOp::Divide
        } else if self.take(&TokenKind::Percent).is_some() {
            BinaryOp::Modulo
        } else {
            return Ok(left);
        };
        proof {
            lemma_not_last(t, c);
        }
        let ghost before = macro_state(&*self);
        let ghost tr2 = expr_trace(unary_spec(t, c + 1, base.0));
        let right = match self.unary() {
            Ok(e) => e,
            Err(d) => return Err(d),
        };
        proof {
            lemma_extends_then(base, before, macro_state(&*self), tr, tr2);
        }
        let span = left.span.merge(right.span);
        let e = Expr { kind: ExprKind::Binary { left: Box::new(left), operation, right: Box::new(right) }, span };
        self.multiplicative_rest(e, Ghost(base), Ghost(followed_by(tr, tr2)))
    }

    fn unary(&mut self) -> (r: Result<Expr, Diagnostic>)
        requires
            old(self).wf(),
        ensures
            final(self).wf(),
            final(self).tokens@ == old(self).tokens@,
            expr_outcome(r, unary_spec(old(self).tokens@, old(self).cursor as int, macro_state(&*old(self)).0), macro_state(&*old(self)), old(self).cursor as int, macro_state(&*final(self)), final(self).cursor as int),
        decreases old(self).tokens@.len() - old(self).cursor, 1int,
    {
        let ghost t = self.tokens@;
        let ghost c = self.cursor as int;
        let ghost start = macro_state(&*self);
        proof {
            lemma_extends_none(start);
        }
        if let Some(minus) = self.take(&TokenKind::Minus) {
            proof {
                lemma_not_last(t, c);
            }
            let number = match &self.tokens[self.cursor].kind {
                TokenKind::Number(n) => Some(*n),
                _ => None,
            };
            if let Some(n) = number {
                let number_span = self.advance().span;
                proof {
                    lemma_not_last(t, c + 1);
                }
                if n == i64::MIN || -n < i32::MIN as i64 || -n > i32::MAX as i64 {
                    return Err(Diagnostic { message: "整数超出 32 位范围".to_owned(), span: number_span });
                }
                return Ok(Expr { kind: ExprKind::Integer((-n) as i32), span: minus.span.merge(number_span) });
            }
            let value = match self.unary() {
                Ok(e) => e,
                Err(d) => return Err(d),
            };
            let span = minus.span.merge(value.span);
            return Ok(Expr { kind: ExprKind::Negate(Box::new(value)), span });
        }
        self.primary()
    }

    /// `count(查询)` from its `(`.
    fn count_expression(&mut self, start_span: Span) -> (r: Result<Expr, Diagnostic>)
        requires
            old(self).wf(),
        ensures
            final(self).wf(),
            final(self).tokens@ == old(self).tokens@,
            expr_outcome(r, count_spec(old(self).tokens@, old(self).cursor as int, start_span), macro_state(&*old(self)), old(self).cursor as int, macro_state(&*final(self)), final(self).cursor as int),
    {
        let ghost t = self.tokens@;
        let ghost c = self.cursor as int;
        proof {
            lemma_extends_none(macro_state(&*self));
        }
        match self.expect(TokenKind::LeftParen, "count 后需要 `(`") {
            Ok(_) => {},
            Err(d) => return Err(d),
        }
        proof {
            lemma_not_last(t, c);
        }
        let (query, query_span) = match self.ident("count 需要已声明的实体查询名称") {
            Ok(found) => found,
            Err(d) => return Err(d),
        };
        proof {
            lemma_not_last(t, c + 1);
        }
        let end = match self.expect(TokenKind::RightParen, "count 调用缺少 `)`") {
            Ok(token) => token.span,
            Err(d) => return Err(d),
        };
        proof {
            lemma_not_last(t, c + 2);
        }
        Ok(Expr { kind: ExprKind::Count { query, query_span }, span: start_span.merge(end) })
    }

    /// `random(最小值, 最大值)` from its `(`.
    fn random_expression(&mut self, start_span: Span) -> (r: Result<Expr, Diagnostic>)
        requires
            old(self).wf(),
        ensures
            final(self).wf(),
            final(self).tokens@ == old(self).tokens@,
            expr_outcome(r, random_spec(old(self).tokens@, old(self).cursor as int, start_span), macro_state(&*old(self)), old(self).cursor as int, macro_state(&*final(self)), final(self).cursor as int),
    {
        let ghost t = self.tokens@;
        let ghost c = self.cursor as int;
        proof {
            lemma_extends_none(macro_state(&*self));
        }
        match self.expect(TokenKind::LeftParen, "random 后需要 `(`") {
            Ok(_) => {},
            Err(d) => return Err(d),
        }
        proof {
            lemma_not_last(t, c);
        }
        let min = match self.signed("random 最小值") {
            Ok(n) => n,
            Err(d) => return Err(d),
        };
        let ghost p1 = self.cursor as int;
        match self.expect(TokenKind::Comma, "random 最小值后需要 `,`") {
            Ok(_) => {},
            Err(d) => return Err(d),
        }
        proof {
            lemma_not_last(t, p1);
        }
        let max = match self.signed("random 最大值") {
            Ok(n) => n,
            Err(d) => return Err(d),
        };
        let ghost p2 = self.cursor as int;
        let end = match self.expect(TokenKind::RightParen, "random 调用缺少 `)`") {
            Ok(token) => token.span,
            Err(d) => return Err(d),
        };
        proof {
            lemma_not_last(t, p2);
        }
        Ok(Expr { kind: ExprKind::Random { min, max }, span: start_span.merge(end) })
    }

    /// The source of `compute`: `default`, `block, pos(…)` or
    /// `entity, 持有者`.
    fn compute_source_part(&mut self) -> (r: Result<ComputeSource, Diagnostic>)
        requires
            old(self).wf(),
        ensures
            final(self).wf(),
            final(self).tokens@ == old(self).tokens@,
            match (r, compute_source_part_spec(old(self).tokens@, old(self).cursor as int, macro_state(&*old(self)).0)) {
                (Ok(x), Ok((v, tr, q))) => super::expressions::compute_source_view(x) == v && final(self).cursor == q
                    && q > old(self).cursor && extends(macro_state(&*final(self)), macro_state(&*old(self)), tr),
                (Err(d), Err(e)) => diag(d) == e,
                _ => false,
            },
    {
        let ghost t = self.tokens@;
        let ghost c = self.cursor as int;
        let ghost start = macro_state(&*self);
        proof {
            lemma_extends_none(start);
        }
        let (name, name_span) = match self.ident("compute 来源 default/block/entity") {
            Ok(found) => found,
            Err(d) => return Err(d),
        };
        proof {
            lemma_not_last(t, c);
        }
        let kind = match compute_source(name.as_str()) {
            Some(k) => k,
            None => {
                let mut m = "未知 compute 来源 `".to_owned();
                m.append(name.as_str());
                m.append("`，可用 default（默认）、block（方块）或 entity（实体）");
                return Err(Diagnostic { message: m, span: name_span });
            },
        };
        let source = if str_eq(kind, "default") {
            ComputeSource::Default
        } else if str_eq(kind, "block") {
            match self.expect(TokenKind::Comma, "compute block 来源后需要 `,`") {
                Ok(_) => {},
                Err(d) => return Err(d),
            }
            proof {
                lemma_not_last(t, c + 1);
            }
            match self.block_position("compute 方块坐标") {
                Ok(p) => ComputeSource::Block(p),
                Err(d) => return Err(d),
            }
        } else {
            match self.expect(TokenKind::Comma, "compute entity 来源后需要 `,`") {
                Ok(_) => {},
                Err(d) => return Err(d),
            }
            proof {
                lemma_not_last(t, c + 1);
            }
            match self.score_holder() {
                Ok(h) => {
                    proof {
                        lemma_not_last(t, c + 2);
                    }
                    ComputeSource::Entity(h)
                },
                Err(d) => return Err(d),
            }
        };
        Ok(source)
    }

    /// The arguments of `compute`: source, number type, provider, scale.
    #[verifier::rlimit(60)]
    pub fn compute_payload(&mut self) -> (r: Result<(ComputeSource, ComputeKind, String, Span, Option<String>), Diagnostic>)
        requires
            old(self).wf(),
        ensures
            final(self).wf(),
            final(self).tokens@ == old(self).tokens@,
            match (r, compute_payload_spec(old(self).tokens@, old(self).cursor as int, macro_state(&*old(self)).0)) {
                (Ok(p), Ok((v, tr, q))) => payload_view(p) == v && final(self).cursor == q && q > old(self).cursor
                    && extends(macro_state(&*final(self)), macro_state(&*old(self)), tr),
                (Err(d), Err(e)) => diag(d) == e,
                _ => false,
            },
    {
        let ghost t = self.tokens@;
        let ghost c = self.cursor as int;
        let ghost start = macro_state(&*self);
        proof {
            lemma_extends_none(start);
        }
        let source = match self.compute_source_part() {
            Ok(x) => x,
            Err(d) => return Err(d),
        };
        let ghost q = self.cursor as int;
        match self.expect(TokenKind::Comma, "compute 来源后需要 `,`") {
            Ok(_) => {},
            Err(d) => return Err(d),
        }
        proof {
            lemma_not_last(t, q);
        }
        let (kind_name, kind_span) = match self.ident("compute 类型 float 或 integer") {
            Ok(found) => found,
            Err(d) => return Err(d),
        };
        proof {
            lemma_not_last(t, q + 1);
        }
        let number_kind = match compute_kind(kind_name.as_str()) {
            Some(k) => if str_eq(k, "float") {
                ComputeKind::Float
            } else {
                ComputeKind::Integer
            },
            None => {
                let mut m = "compute 类型只能是 float/浮点 或 integer/整数，实际为 `".to_owned();
                m.append(kind_name.as_str());
                m.append("`");
                return Err(Diagnostic { message: m, span: kind_span });
            },
        };
        match self.expect(TokenKind::Comma, "compute 类型后需要 `,`") {
            Ok(_) => {},
            Err(d) => return Err(d),
        }
        proof {
            lemma_not_last(t, q + 2);
        }
        let (provider, provider_span) = match self.string("compute 需要 provider 资源位置字符串") {
            Ok(found) => found,
            Err(d) => return Err(d),
        };
        proof {
            lemma_not_last(t, q + 3);
        }
        let scale = if self.take(&TokenKind::Comma).is_some() {
            proof {
                lemma_not_last(t, q + 4);
            }
            match self.signed_number_text("compute 缩放") {
                Ok(s) => Some(s),
                Err(d) => return Err(d),
            }
        } else {
            None
        };
        Ok((source, number_kind, provider, provider_span, scale))
    }

    /// `compute(…)` from its `(`.
    fn compute_expression(&mut self, start_span: Span) -> (r: Result<Expr, Diagnostic>)
        requires
            old(self).wf(),
        ensures
            final(self).wf(),
            final(self).tokens@ == old(self).tokens@,
            expr_outcome(r, compute_spec(old(self).tokens@, old(self).cursor as int, start_span, macro_state(&*old(self)).0), macro_state(&*old(self)), old(self).cursor as int, macro_state(&*final(self)), final(self).cursor as int),
    {
        let ghost t = self.tokens@;
        let ghost c = self.cursor as int;
        match self.expect(TokenKind::LeftParen, "compute 后需要 `(`") {
            Ok(_) => {},
            Err(d) => return Err(d),
        }
        proof {
            lemma_not_last(t, c);
        }
        let (source, kind, provider, provider_span, scale) = match self.compute_payload() {
            Ok(p) => p,
            Err(d) => return Err(d),
        };
        let ghost q = self.cursor as int;
        let end = match self.expect(TokenKind::RightParen, "compute 调用缺少 `)`") {
            Ok(token) => token.span,
            Err(d) => return Err(d),
        };
        proof {
            lemma_not_last(t, q);
        }
        Ok(
            Expr {
                kind: ExprKind::Compute { source, kind, provider, provider_span, scale },
                span: start_span.merge(end),
            },
        )
    }

    /// The arguments of a call, from its `(` through its `)`.
    pub fn call_arguments(&mut self) -> (r: Result<Vec<Expr>, Diagnostic>)
        requires
            old(self).wf(),
        ensures
            final(self).wf(),
            final(self).tokens@ == old(self).tokens@,
            match (r, call_arguments_spec(old(self).tokens@, old(self).cursor as int, macro_state(&*old(self)).0)) {
                (Ok(v), Ok((s, tr, q))) => nodes_view(v@) == s && final(self).cursor == q && q > old(self).cursor
                    && extends(macro_state(&*final(self)), macro_state(&*old(self)), tr),
                (Err(d), Err(e)) => diag(d) == e,
                _ => false,
            },
        decreases old(self).tokens@.len() - old(self).cursor, 0int,
    {
        let ghost t = self.tokens@;
        let ghost c = self.cursor as int;
        let ghost start = macro_state(&*self);
        proof {
            lemma_extends_none(start);
        }
        match self.expect(TokenKind::LeftParen, "函数名称后需要 `(`") {
            Ok(_) => {},
            Err(d) => return Err(d),
        }
        proof {
            lemma_not_last(t, c);
        }
        let empty: Vec<Expr> = Vec::new();
        assert(nodes_view(empty@) =~= Seq::<ExprNode>::empty());
        if self.check(&TokenKind::RightParen) {
            self.advance();
            proof {
                lemma_not_last(t, c + 1);
            }
            return Ok(empty);
        }
        let arguments = match self.argument_list(empty, Ghost(start), Ghost(no_trace())) {
            Ok(v) => v,
            Err(d) => return Err(d),
        };
        let ghost q = self.cursor as int;
        match self.expect(TokenKind::RightParen, "实参列表缺少 `)`") {
            Ok(_) => {},
            Err(d) => return Err(d),
        }
        proof {
            lemma_not_last(t, q);
        }
        Ok(arguments)
    }

    fn argument_list(&mut self, done: Vec<Expr>, Ghost(base): Ghost<MacroState>, Ghost(tr): Ghost<Trace>) -> (r: Result<
        Vec<Expr>,
        Diagnostic,
    >)
        requires
            old(self).wf(),
            extends(macro_state(&*old(self)), base, tr),
        ensures
            final(self).wf(),
            final(self).tokens@ == old(self).tokens@,
            match (r, argument_list_spec(old(self).tokens@, old(self).cursor as int, base.0, nodes_view(done@), tr)) {
                (Ok(v), Ok((s, tr2, q))) => nodes_view(v@) == s && final(self).cursor == q && q > old(self).cursor
                    && extends(macro_state(&*final(self)), base, tr2),
                (Err(d), Err(e)) => diag(d) == e,
                _ => false,
            },
        decreases old(self).tokens@.len() - old(self).cursor, 4int,
    {
        let ghost t = self.tokens@;
        let ghost c = self.cursor as int;
        let ghost before = macro_state(&*self);
        let ghost tr2 = expr_trace(additive_spec(t, c, base.0));
        let e = match self.expression() {
            Ok(e) => e,
            Err(d) => return Err(d),
        };
        proof {
            lemma_extends_then(base, before, macro_state(&*self), tr, tr2);
            lemma_push_nodes(done@, e);
        }
        let mut done = done;
        done.push(e);
        if self.take(&TokenKind::Comma).is_some() {
            proof {
                lemma_not_last(t, self.cursor - 1);
            }
            return self.argument_list(done, Ghost(base), Ghost(followed_by(tr, tr2)));
        }
        Ok(done)
    }

    /// A primary: an integer, a score variable, a call, `count`, `random`,
    /// `compute`, a named expression or a parenthesised expression.
    fn primary(&mut self) -> (r: Result<Expr, Diagnostic>)
        requires
            old(self).wf(),
        ensures
            final(self).wf(),
            final(self).tokens@ == old(self).tokens@,
            expr_outcome(r, primary_spec(old(self).tokens@, old(self).cursor as int, macro_state(&*old(self)).0), macro_state(&*old(self)), old(self).cursor as int, macro_state(&*final(self)), final(self).cursor as int),
        decreases old(self).tokens@.len() - old(self).cursor, 0int,
    {
        let ghost t = self.tokens@;
        let ghost c = self.cursor as int;
        let ghost start = macro_state(&*self);
        proof {
            lemma_extends_none(start);
        }
        let token = self.advance();
        match token.kind {
            TokenKind::Number(n) => {
                if n < i32::MIN as i64 || n > i32::MAX as i64 {
                    return Err(Diagnostic { message: "整数超出 32 位范围".to_owned(), span: token.span });
                }
                proof {
                    lemma_not_last(t, c);
                }
                Ok(Expr { kind: ExprKind::Integer(n as i32), span: token.span })
            },
            TokenKind::Ident(name) => {
                proof {
                    lemma_not_last(t, c);
                }
                if self.check(&TokenKind::LeftParen) {
                    if word_matches(name.as_str(), "count") {
                        return self.count_expression(token.span);
                    }
                    if word_matches(name.as_str(), "random") {
                        return self.random_expression(token.span);
                    }
                    if word_matches(name.as_str(), "compute") {
                        return self.compute_expression(token.span);
                    }
                    let arguments = match self.call_arguments() {
                        Ok(v) => v,
                        Err(d) => return Err(d),
                    };
                    let span = token.span.merge(self.previous().span);
                    return Ok(Expr { kind: ExprKind::Call { function: name, arguments }, span });
                }
                if self.check(&TokenKind::Dot) {
                    return self.named_expression(name, token.span);
                }
                Ok(Expr { kind: ExprKind::Score(name), span: token.span })
            },
            TokenKind::LeftParen => {
                proof {
                    lemma_not_last(t, c);
                }
                let e = match self.expression() {
                    Ok(e) => e,
                    Err(d) => return Err(d),
                };
                let ghost q = self.cursor as int;
                let end = match self.expect(TokenKind::RightParen, "表达式缺少 `)`") {
                    Ok(token) => token.span,
                    Err(d) => return Err(d),
                };
                proof {
                    lemma_not_last(t, q);
                }
                Ok(Expr { kind: e.kind, span: token.span.merge(end) })
            },
            _ => Err(Diagnostic { message: "这里需要整数、计分变量或括号表达式".to_owned(), span: token.span }),
        }
    }
}

} // verus!
