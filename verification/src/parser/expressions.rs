//! Named expressions, `receiver.method(…)`, that read a value from the
//! game: experience, the time, a game rule, the world border, a score, a
//! stopwatch, or NBT data from an entity, a block or a storage.

use vstd::prelude::*;
use crate::chars::str_eq;
use crate::parser::keywords::opt_str;
use crate::parser::keywords::actions::{
    XpKind, xp_kind, xp_kind_spec, nbt_source, nbt_source_spec, scoreboard_method, scoreboard_method_spec,
    data_method, data_method_spec,
};
use crate::parser::keywords::values::{word_matches, word_matches_spec};
use crate::parser::keywords::world_values::{
    time_method, time_method_spec, gamerule_method, gamerule_method_spec, worldborder_method,
    worldborder_method_spec,
};
use super::cursor::{
    macro_state, Parser, Token, TokenKind, Span, Diagnostic, diag, advanced, kind_at, ident_at, merged, stream_ok,
    lemma_not_last, MacroType, MacroCoordinateKind,
};
use super::arguments::{Holder, holder_view, holder_spec, ScoreTarget, score_target_body_spec};
use super::positions::{BlockPosition, position_view, block_position_spec, signed_number_text_spec};

verus! {

broadcast use vstd::string::group_string_axioms;

/// Where NBT data is read from.
pub enum NbtSource {
    Entity(Holder),
    Block(BlockPosition),
    Storage(String, Span),
}

/// An NBT source as the contracts speak of it.
pub enum NbtSourceView {
    Entity((int, Seq<char>, Span)),
    Block(((int, Seq<char>), (int, Seq<char>), (int, Seq<char>), Span)),
    Storage(Seq<char>, Span),
}

pub open spec fn source_view(s: NbtSource) -> NbtSourceView {
    match s {
        NbtSource::Entity(h) => NbtSourceView::Entity(holder_view(h)),
        NbtSource::Block(p) => NbtSourceView::Block(position_view(p)),
        NbtSource::Storage(id, span) => NbtSourceView::Storage(id@, span),
    }
}

/// An arithmetic operator.
#[derive(Clone, Copy, PartialEq, Eq, Structural, Debug)]
pub enum BinaryOp {
    Add,
    Subtract,
    Multiply,
    Divide,
    Modulo,
}

/// Where `compute` takes its context from.
pub enum ComputeSource {
    Default,
    Block(BlockPosition),
    Entity(Holder),
}

/// The number type `compute` yields.
#[derive(Clone, Copy, PartialEq, Eq, Structural, Debug)]
pub enum ComputeKind {
    Float,
    Integer,
}

/// A compute source as the contracts speak of it.
pub enum ComputeSourceView {
    Default,
    Block(((int, Seq<char>), (int, Seq<char>), (int, Seq<char>), Span)),
    Entity((int, Seq<char>, Span)),
}

pub open spec fn compute_source_view(s: ComputeSource) -> ComputeSourceView {
    match s {
        ComputeSource::Default => ComputeSourceView::Default,
        ComputeSource::Block(p) => ComputeSourceView::Block(position_view(p)),
        ComputeSource::Entity(h) => ComputeSourceView::Entity(holder_view(h)),
    }
}

/// What an expression computes.
pub enum ExprKind {
    Integer(i32),
    Score(String),
    Call { function: String, arguments: Vec<Expr> },
    Binary { left: Box<Expr>, operation: BinaryOp, right: Box<Expr> },
    Negate(Box<Expr>),
    Count { query: String, query_span: Span },
    Random { min: i32, max: i32 },
    Compute {
        source: ComputeSource,
        kind: ComputeKind,
        provider: String,
        provider_span: Span,
        scale: Option<String>,
    },
    XpQuery { target: String, kind: XpKind },
    TimeQuery { clock: Option<String> },
    GameTimeQuery,
    GameRuleQuery { name: String },
    WorldBorderSize,
    ScoreQuery { target: ScoreTarget },
    StopwatchQuery { id: String, scale: Option<String> },
    DataGet { source: NbtSource, path: String, path_span: Span },
}

/// An expression and its span.
pub struct Expr {
    pub kind: ExprKind,
    pub span: Span,
}

/// What an expression computes, as the contracts speak of it.
pub enum ExprView {
    Integer(i32),
    Score(Seq<char>),
    Call(Seq<char>, Seq<ExprNode>),
    Binary(Box<ExprNode>, BinaryOp, Box<ExprNode>),
    Negate(Box<ExprNode>),
    Count(Seq<char>, Span),
    Random(i32, i32),
    Compute(ComputeSourceView, ComputeKind, Seq<char>, Span, Option<Seq<char>>),
    XpQuery(Seq<char>, XpKind),
    TimeQuery(Option<Seq<char>>),
    GameTimeQuery,
    GameRuleQuery(Seq<char>),
    WorldBorderSize,
    ScoreQuery((int, Seq<char>, Span), Seq<char>, Span),
    StopwatchQuery(Seq<char>, Option<Seq<char>>),
    DataGet(NbtSourceView, Seq<char>, Span),
}

pub open spec fn opt_text(o: Option<String>) -> Option<Seq<char>> {
    match o {
        Some(v) => Some(v@),
        None => None,
    }
}

/// An expression and its span as the contracts speak of them.
pub struct ExprNode {
    pub kind: ExprView,
    pub span: Span,
}

pub open spec fn node_view(e: Expr) -> ExprNode
    decreases e,
{
    ExprNode { kind: expr_view(e.kind), span: e.span }
}

pub open spec fn nodes_view(s: Seq<Expr>) -> Seq<ExprNode>
    decreases s,
{
    if s.len() == 0 {
        seq![]
    } else {
        nodes_view(s.subrange(0, s.len() - 1)).push(node_view(s[s.len() - 1]))
    }
}

pub open spec fn expr_view(k: ExprKind) -> ExprView
    decreases k,
{
    match k {
        ExprKind::Integer(n) => ExprView::Integer(n),
        ExprKind::Score(s) => ExprView::Score(s@),
        ExprKind::Call { function, arguments } => ExprView::Call(function@, nodes_view(arguments@)),
        ExprKind::Binary { left, operation, right } => ExprView::Binary(
            Box::new(node_view(*left)),
            operation,
            Box::new(node_view(*right)),
        ),
        ExprKind::Negate(e) => ExprView::Negate(Box::new(node_view(*e))),
        ExprKind::Count { query, query_span } => ExprView::Count(query@, query_span),
        ExprKind::Random { min, max } => ExprView::Random(min, max),
        ExprKind::Compute { source, kind, provider, provider_span, scale } => ExprView::Compute(
            compute_source_view(source),
            kind,
            provider@,
            provider_span,
            opt_text(scale),
        ),
        ExprKind::XpQuery { target, kind } => ExprView::XpQuery(target@, kind),
        ExprKind::TimeQuery { clock } => ExprView::TimeQuery(opt_text(clock)),
        ExprKind::GameTimeQuery => ExprView::GameTimeQuery,
        ExprKind::GameRuleQuery { name } => ExprView::GameRuleQuery(name@),
        ExprKind::WorldBorderSize => ExprView::WorldBorderSize,
        ExprKind::ScoreQuery { target } => ExprView::ScoreQuery(
            holder_view(target.holder),
            target.objective@,
            target.objective_span,
        ),
        ExprKind::StopwatchQuery { id, scale } => ExprView::StopwatchQuery(id@, opt_text(scale)),
        ExprKind::DataGet { source, path, path_span } => ExprView::DataGet(source_view(source), path@, path_span),
    }
}

/// A string literal at `c`, or `message` there.
pub open spec fn string_at(t: Seq<Token>, c: int, message: Seq<char>) -> Result<(Seq<char>, Span), (Seq<char>, Span)> {
    match t[c].kind {
        TokenKind::String(v) => Ok((v@, t[c].span)),
        _ => Err((message, t[c].span)),
    }
}

/// An NBT source at `c` for `label`: the source, the macro parameters its
/// block position uses and the macro coordinates it records, and the
/// position after it.
pub open spec fn nbt_source_spec_at(t: Seq<Token>, c: int, label: Seq<char>, params: Seq<(Seq<char>, MacroType)>) -> Result<
    (NbtSourceView, Seq<(Seq<char>, Span)>, Seq<(Seq<char>, MacroCoordinateKind)>, int),
    (Seq<char>, Span),
> {
    match ident_at(t, c, label + "需要 entity、block 或 storage"@) {
        Err(e) => Err(e),
        Ok((name, name_span)) => match nbt_source_spec(name) {
            None => Err(
                ("未知 NBT 来源 `"@ + name + "`，可用 entity（实体）、block（方块）或 storage（存储）"@, name_span),
            ),
            Some(k) => if !kind_at(t, c + 1, TokenKind::Comma) {
                Err(("NBT 来源后需要 `,`"@, t[c + 1].span))
            } else if k == "entity"@ {
                match holder_spec(t, c + 2, "计分持有者"@) {
                    Err(e) => Err(e),
                    Ok(h) => Ok((NbtSourceView::Entity(h), seq![], seq![], advanced(t, c + 2))),
                }
            } else if k == "block"@ {
                match block_position_spec(t, c + 2, "NBT 方块坐标"@, params) {
                    Err(e) => Err(e),
                    Ok((p, used, recorded, after)) => Ok((NbtSourceView::Block(p), used, recorded, after)),
                }
            } else {
                match string_at(t, c + 2, "storage 来源需要存储资源位置字符串"@) {
                    Err(e) => Err(e),
                    Ok((id, span)) => Ok((NbtSourceView::Storage(id, span), seq![], seq![], c + 3)),
                }
            },
        },
    }
}

/// `xp.query(查询, points|levels)` after the method, from its `(` at `m`.
pub open spec fn xp_query_spec(t: Seq<Token>, m: int, start: Span) -> Result<(ExprView, Span, int), (Seq<char>, Span)> {
    if !kind_at(t, m, TokenKind::LeftParen) {
        Err(("xp.query 后需要 `(`"@, t[m].span))
    } else {
        match ident_at(t, m + 1, "xp.query 目标查询名称"@) {
            Err(e) => Err(e),
            Ok((target, _)) => if !kind_at(t, m + 2, TokenKind::Comma) {
                Err(("xp.query 目标后需要 `,`"@, t[m + 2].span))
            } else {
                match ident_at(t, m + 3, "xp 类型 points 或 levels"@) {
                    Err(e) => Err(e),
                    Ok((k, kind_span)) => match xp_kind_spec(k) {
                        None => Err(("xp 类型只能是 points/点数 或 levels/等级"@, kind_span)),
                        Some(kind) => if !kind_at(t, m + 4, TokenKind::RightParen) {
                            Err(("xp.query 调用缺少 `)`"@, t[m + 4].span))
                        } else {
                            Ok((ExprView::XpQuery(target, kind), merged(start, t[m + 4].span), m + 5))
                        },
                    },
                }
            },
        }
    }
}

/// `time.query([时钟])` from its `(` at `m`.
pub open spec fn time_query_spec(t: Seq<Token>, m: int, start: Span) -> Result<(ExprView, Span, int), (Seq<char>, Span)> {
    if !kind_at(t, m, TokenKind::LeftParen) {
        Err(("time.query 后需要 `(`"@, t[m].span))
    } else if kind_at(t, m + 1, TokenKind::RightParen) {
        Ok((ExprView::TimeQuery(None), merged(start, t[m + 1].span), m + 2))
    } else {
        match string_at(t, m + 1, "time.query 需要世界时钟资源位置字符串"@) {
            Err(e) => Err(e),
            Ok((clock, _)) => if !kind_at(t, m + 2, TokenKind::RightParen) {
                Err(("time.query 调用缺少 `)`"@, t[m + 2].span))
            } else {
                Ok((ExprView::TimeQuery(Some(clock)), merged(start, t[m + 2].span), m + 3))
            },
        }
    }
}

/// `name()` with no argument, from its `(` at `m`.
pub open spec fn no_argument_spec(
    t: Seq<Token>,
    m: int,
    start: Span,
    open_message: Seq<char>,
    close_message: Seq<char>,
    value: ExprView,
) -> Result<(ExprView, Span, int), (Seq<char>, Span)> {
    if !kind_at(t, m, TokenKind::LeftParen) {
        Err((open_message, t[m].span))
    } else if !kind_at(t, m + 1, TokenKind::RightParen) {
        Err((close_message, t[m + 1].span))
    } else {
        Ok((value, merged(start, t[m + 1].span), m + 2))
    }
}

/// `gamerule.query("规则")` from its `(` at `m`.
pub open spec fn gamerule_query_spec(t: Seq<Token>, m: int, start: Span) -> Result<(ExprView, Span, int), (Seq<char>, Span)> {
    if !kind_at(t, m, TokenKind::LeftParen) {
        Err(("gamerule.query 后需要 `(`"@, t[m].span))
    } else {
        match string_at(t, m + 1, "gamerule.query 需要规则名称字符串"@) {
            Err(e) => Err(e),
            Ok((name, _)) => if !kind_at(t, m + 2, TokenKind::RightParen) {
                Err(("gamerule.query 调用缺少 `)`"@, t[m + 2].span))
            } else {
                Ok((ExprView::GameRuleQuery(name), merged(start, t[m + 2].span), m + 3))
            },
        }
    }
}

/// `scoreboard.get(持有者, 目标)` from its `(` at `m`.
pub open spec fn scoreboard_get_spec(t: Seq<Token>, m: int, start: Span) -> Result<(ExprView, Span, int), (Seq<char>, Span)> {
    if !kind_at(t, m, TokenKind::LeftParen) {
        Err(("scoreboard.get"@ + " 后需要 `(`"@, t[m].span))
    } else {
        match score_target_body_spec(t, m + 1) {
            Err(e) => Err(e),
            Ok((h, objective, span, after)) => if !kind_at(t, after, TokenKind::RightParen) {
                Err(("scoreboard.get 调用缺少 `)`"@, t[after].span))
            } else {
                Ok((ExprView::ScoreQuery(h, objective, span), merged(start, t[after].span), after + 1))
            },
        }
    }
}

/// `stopwatch.query("命名空间:id"[, 缩放])` from its `(` at `m`.
pub open spec fn stopwatch_query_spec(t: Seq<Token>, m: int, start: Span) -> Result<(ExprView, Span, int), (Seq<char>, Span)> {
    if !kind_at(t, m, TokenKind::LeftParen) {
        Err(("stopwatch.query 后需要 `(`"@, t[m].span))
    } else {
        match string_at(t, m + 1, "stopwatch.query 需要秒表资源位置"@) {
            Err(e) => Err(e),
            Ok((id, _)) => if kind_at(t, m + 2, TokenKind::Comma) {
                match signed_number_text_spec(t, m + 3, "秒表缩放比例"@) {
                    Err(e) => Err(e),
                    Ok((scale, after)) => if !kind_at(t, after, TokenKind::RightParen) {
                        Err(("stopwatch.query 调用缺少 `)`"@, t[after].span))
                    } else {
                        Ok((ExprView::StopwatchQuery(id, Some(scale)), merged(start, t[after].span), after + 1))
                    },
                }
            } else if !kind_at(t, m + 2, TokenKind::RightParen) {
                Err(("stopwatch.query 调用缺少 `)`"@, t[m + 2].span))
            } else {
                Ok((ExprView::StopwatchQuery(id, None), merged(start, t[m + 2].span), m + 3))
            },
        }
    }
}

/// `data.get(来源, 路径)` from its `(` at `m`: the expression, its span,
/// the macro parameters and coordinates the source records, and the
/// position after it.
pub open spec fn data_get_spec(t: Seq<Token>, m: int, start: Span, params: Seq<(Seq<char>, MacroType)>) -> Result<
    (ExprView, Span, Seq<(Seq<char>, Span)>, Seq<(Seq<char>, MacroCoordinateKind)>, int),
    (Seq<char>, Span),
> {
    if !kind_at(t, m, TokenKind::LeftParen) {
        Err(("data.get 后需要 `(`"@, t[m].span))
    } else {
        match nbt_source_spec_at(t, m + 1, "data.get 来源"@, params) {
            Err(e) => Err(e),
            Ok((source, used, recorded, after)) => if !kind_at(t, after, TokenKind::Comma) {
                Err(("data.get 来源后需要 `,`"@, t[after].span))
            } else {
                match string_at(t, after + 1, "data.get 需要 NBT 路径字符串"@) {
                    Err(e) => Err(e),
                    Ok((path, path_span)) => if !kind_at(t, after + 2, TokenKind::RightParen) {
                        Err(("data.get 调用缺少 `)`"@, t[after + 2].span))
                    } else {
                        Ok(
                            (
                                ExprView::DataGet(source, path, path_span),
                                merged(start, t[after + 2].span),
                                used,
                                recorded,
                                after + 3,
                            ),
                        )
                    },
                }
            },
        }
    }
}

/// The message for a receiver and method that name no expression.
pub open spec fn unknown_named_message(receiver: Seq<char>, method: Seq<char>) -> Seq<char> {
    "未知的具名表达式 `"@ + receiver + "."@ + method
        + "`；目前支持 `xp.query(查询, points|levels)`、`scoreboard.get(持有者, 目标)`、`stopwatch.query(\"命名空间:id\"[, 缩放])`、`time.query([时钟])`、`time.query_gametime()`、`gamerule.query(\"规则\")`、`worldborder.get()` 和 `data.get(来源, 路径)`"@
}

/// Adds no macro parameter use and no macro coordinate to a result.
pub open spec fn plain(r: Result<(ExprView, Span, int), (Seq<char>, Span)>) -> Result<
    (ExprView, Span, Seq<(Seq<char>, Span)>, Seq<(Seq<char>, MacroCoordinateKind)>, int),
    (Seq<char>, Span),
> {
    match r {
        Ok((e, span, after)) => Ok((e, span, seq![], seq![], after)),
        Err(e) => Err(e),
    }
}

/// A named expression at `c`, after its receiver (which spans `start`):
/// the expression, its span, the macro parameters and coordinates it
/// records, and the position after it.
pub open spec fn named_expression_spec(
    t: Seq<Token>,
    c: int,
    receiver: Seq<char>,
    start: Span,
    params: Seq<(Seq<char>, MacroType)>,
) -> Result<
    (ExprView, Span, Seq<(Seq<char>, Span)>, Seq<(Seq<char>, MacroCoordinateKind)>, int),
    (Seq<char>, Span),
> {
    if !kind_at(t, c, TokenKind::Dot) {
        Err(("名称后需要 `.`"@, t[c].span))
    } else {
        match ident_at(t, c + 1, "名称方法"@) {
            Err(e) => Err(e),
            Ok((method, method_span)) => {
                let m = c + 2;
                if word_matches_spec(receiver, "xp"@) && word_matches_spec(method, "query"@) {
                    plain(xp_query_spec(t, m, start))
                } else if word_matches_spec(receiver, "time"@) && time_method_spec(method) == Some("query"@) {
                    plain(time_query_spec(t, m, start))
                } else if word_matches_spec(receiver, "time"@) && time_method_spec(method) == Some(
                    "query_gametime"@,
                ) {
                    plain(
                        no_argument_spec(
                            t,
                            m,
                            start,
                            "time.query_gametime 后需要 `(`"@,
                            "time.query_gametime 不接受参数，需要 `)`"@,
                            ExprView::GameTimeQuery,
                        ),
                    )
                } else if word_matches_spec(receiver, "gamerule"@) && gamerule_method_spec(method) == Some(
                    "query"@,
                ) {
                    plain(gamerule_query_spec(t, m, start))
                } else if word_matches_spec(receiver, "worldborder"@) && worldborder_method_spec(method) == Some(
                    "get"@,
                ) {
                    plain(
                        no_argument_spec(
                            t,
                            m,
                            start,
                            "worldborder.get 后需要 `(`"@,
                            "worldborder.get 不接受参数，需要 `)`"@,
                            ExprView::WorldBorderSize,
                        ),
                    )
                } else if word_matches_spec(receiver, "scoreboard"@) && scoreboard_method_spec(method) == Some(
                    "get"@,
                ) {
                    plain(scoreboard_get_spec(t, m, start))
                } else if word_matches_spec(receiver, "stopwatch"@) && word_matches_spec(method, "query"@) {
                    plain(stopwatch_query_spec(t, m, start))
                } else if word_matches_spec(receiver, "data"@) && data_method_spec(method) == Some("get"@) {
                    data_get_spec(t, m, start, params)
                } else {
                    Err((unknown_named_message(receiver, method), merged(start, method_span)))
                }
            },
        }
    }
}

fn joined(a: &str, b: &str) -> (r: String)
    ensures
        r@ == a@ + b@,
{
    let mut m = a.to_owned();
    m.append(b);
    m
}

fn is_some_str(o: Option<&'static str>, s: &str) -> (r: bool)
    ensures
        r == (opt_str(o) == Some(s@)),
{
    match o {
        Some(v) => str_eq(v, s),
        None => false,
    }
}

impl Parser {
    /// The source of NBT data for `label`: `entity, 持有者`,
    /// `block, pos(…)` or `storage, "存储"`.
    pub fn nbt_source_value(&mut self, label: &str) -> (r: Result<NbtSource, Diagnostic>)
        requires
            old(self).wf(),
        ensures
            final(self).wf(),
            final(self).tokens@ == old(self).tokens@,
            macro_state(&*final(self)).0 == macro_state(&*old(self)).0,
            ({
                let (params, uses, coords) = macro_state(&*old(self));
                match (r, nbt_source_spec_at(old(self).tokens@, old(self).cursor as int, label@, params)) {
                    (Ok(s), Ok((v, used, recorded, after))) => source_view(s) == v && final(self).cursor == after
                        && macro_state(&*final(self)).1 == uses + used && macro_state(&*final(self)).2 == coords
                        + recorded && after > old(self).cursor,
                    (Err(d), Err(e)) => diag(d) == e,
                    _ => false,
                }
            }),
    {
        let ghost t = self.tokens@;
        let ghost c = self.cursor as int;
        let ghost (params, uses, coords) = macro_state(&*self);
        let message = joined(label, "需要 entity、block 或 storage");
        let (name, name_span) = match self.ident(message.as_str()) {
            Ok(found) => found,
            Err(d) => return Err(d),
        };
        proof {
            lemma_not_last(t, c);
        }
        let kind = match nbt_source(name.as_str()) {
            Some(kind) => kind,
            None => {
                let mut m = "未知 NBT 来源 `".to_owned();
                m.append(name.as_str());
                m.append("`，可用 entity（实体）、block（方块）或 storage（存储）");
                return Err(Diagnostic { message: m, span: name_span });
            },
        };
        match self.expect(TokenKind::Comma, "NBT 来源后需要 `,`") {
            Ok(_) => {},
            Err(d) => return Err(d),
        }
        proof {
            lemma_not_last(t, c + 1);
        }
        assert(uses + Seq::<(Seq<char>, Span)>::empty() =~= uses);
        assert(coords + Seq::<(Seq<char>, MacroCoordinateKind)>::empty() =~= coords);
        if str_eq(kind, "entity") {
            match self.score_holder() {
                Ok(h) => Ok(NbtSource::Entity(h)),
                Err(d) => Err(d),
            }
        } else if str_eq(kind, "block") {
            match self.block_position("NBT 方块坐标") {
                Ok(p) => Ok(NbtSource::Block(p)),
                Err(d) => Err(d),
            }
        } else {
            let token = self.advance();
            match token.kind {
                TokenKind::String(id) => {
                    proof {
                        lemma_not_last(t, c + 2);
                    }
                    Ok(NbtSource::Storage(id, token.span))
                },
                _ => Err(
                    Diagnostic { message: "storage 来源需要存储资源位置字符串".to_owned(), span: token.span },
                ),
            }
        }
    }

    /// `xp.query(…)` from its `(`.
    fn xp_query(&mut self, start: Span) -> (r: Result<Expr, Diagnostic>)
        requires
            old(self).wf(),
        ensures
            final(self).wf(),
            final(self).tokens@ == old(self).tokens@,
            macro_state(&*final(self)) == macro_state(&*old(self)),
            match (r, xp_query_spec(old(self).tokens@, old(self).cursor as int, start)) {
                (Ok(e), Ok((v, span, after))) => expr_view(e.kind) == v && e.span == span && final(self).cursor
                    == after && after > old(self).cursor,
                (Err(d), Err(e)) => diag(d) == e,
                _ => false,
            },
    {
        let ghost t = self.tokens@;
        let ghost m = self.cursor as int;
        match self.expect(TokenKind::LeftParen, "xp.query 后需要 `(`") {
            Ok(_) => {},
            Err(d) => return Err(d),
        }
        proof {
            lemma_not_last(t, m);
        }
        let (target, _) = match self.ident("xp.query 目标查询名称") {
            Ok(found) => found,
            Err(d) => return Err(d),
        };
        proof {
            lemma_not_last(t, m + 1);
        }
        match self.expect(TokenKind::Comma, "xp.query 目标后需要 `,`") {
            Ok(_) => {},
            Err(d) => return Err(d),
        }
        proof {
            lemma_not_last(t, m + 2);
        }
        let (word, kind_span) = match self.ident("xp 类型 points 或 levels") {
            Ok(found) => found,
            Err(d) => return Err(d),
        };
        proof {
            lemma_not_last(t, m + 3);
        }
        let kind = match xp_kind(word.as_str()) {
            Some(kind) => kind,
            None => return Err(
                Diagnostic { message: "xp 类型只能是 points/点数 或 levels/等级".to_owned(), span: kind_span },
            ),
        };
        let end = match self.expect(TokenKind::RightParen, "xp.query 调用缺少 `)`") {
            Ok(token) => token.span,
            Err(d) => return Err(d),
        };
        proof {
            lemma_not_last(t, m + 4);
        }
        Ok(Expr { kind: ExprKind::XpQuery { target, kind }, span: start.merge(end) })
    }

    /// `time.query([时钟])` from its `(`.
    fn time_query(&mut self, start: Span) -> (r: Result<Expr, Diagnostic>)
        requires
            old(self).wf(),
        ensures
            final(self).wf(),
            final(self).tokens@ == old(self).tokens@,
            macro_state(&*final(self)) == macro_state(&*old(self)),
            match (r, time_query_spec(old(self).tokens@, old(self).cursor as int, start)) {
                (Ok(e), Ok((v, span, after))) => expr_view(e.kind) == v && e.span == span && final(self).cursor
                    == after && after > old(self).cursor,
                (Err(d), Err(e)) => diag(d) == e,
                _ => false,
            },
    {
        let ghost t = self.tokens@;
        let ghost m = self.cursor as int;
        match self.expect(TokenKind::LeftParen, "time.query 后需要 `(`") {
            Ok(_) => {},
            Err(d) => return Err(d),
        }
        proof {
            lemma_not_last(t, m);
        }
        let clock = if self.check(&TokenKind::RightParen) {
            None
        } else {
            match self.string("time.query 需要世界时钟资源位置字符串") {
                Ok((value, _)) => {
                    proof {
                        lemma_not_last(t, m + 1);
                    }
                    Some(value)
                },
                Err(d) => return Err(d),
            }
        };
        let ghost close = self.cursor as int;
        let end = match self.expect(TokenKind::RightParen, "time.query 调用缺少 `)`") {
            Ok(token) => token.span,
            Err(d) => return Err(d),
        };
        proof {
            lemma_not_last(t, close);
        }
        Ok(Expr { kind: ExprKind::TimeQuery { clock }, span: start.merge(end) })
    }

    /// `()` after a method that takes no argument.
    fn no_argument(&mut self, start: Span, open_message: &str, close_message: &str, kind: ExprKind) -> (r: Result<
        Expr,
        Diagnostic,
    >)
        requires
            old(self).wf(),
        ensures
            final(self).wf(),
            final(self).tokens@ == old(self).tokens@,
            macro_state(&*final(self)) == macro_state(&*old(self)),
            match (r, no_argument_spec(old(self).tokens@, old(self).cursor as int, start, open_message@, close_message@, expr_view(kind))) {
                (Ok(e), Ok((v, span, after))) => expr_view(e.kind) == v && e.span == span && final(self).cursor
                    == after && after > old(self).cursor,
                (Err(d), Err(e)) => diag(d) == e,
                _ => false,
            },
    {
        let ghost t = self.tokens@;
        let ghost m = self.cursor as int;
        match self.expect(TokenKind::LeftParen, open_message) {
            Ok(_) => {},
            Err(d) => return Err(d),
        }
        proof {
            lemma_not_last(t, m);
        }
        let end = match self.expect(TokenKind::RightParen, close_message) {
            Ok(token) => token.span,
            Err(d) => return Err(d),
        };
        proof {
            lemma_not_last(t, m + 1);
        }
        Ok(Expr { kind, span: start.merge(end) })
    }

    /// `gamerule.query("规则")` from its `(`.
    fn gamerule_query(&mut self, start: Span) -> (r: Result<Expr, Diagnostic>)
        requires
            old(self).wf(),
        ensures
            final(self).wf(),
            final(self).tokens@ == old(self).tokens@,
            macro_state(&*final(self)) == macro_state(&*old(self)),
            match (r, gamerule_query_spec(old(self).tokens@, old(self).cursor as int, start)) {
                (Ok(e), Ok((v, span, after))) => expr_view(e.kind) == v && e.span == span && final(self).cursor
                    == after && after > old(self).cursor,
                (Err(d), Err(e)) => diag(d) == e,
                _ => false,
            },
    {
        let ghost t = self.tokens@;
        let ghost m = self.cursor as int;
        match self.expect(TokenKind::LeftParen, "gamerule.query 后需要 `(`") {
            Ok(_) => {},
            Err(d) => return Err(d),
        }
        proof {
            lemma_not_last(t, m);
        }
        let (name, _) = match self.string("gamerule.query 需要规则名称字符串") {
            Ok(found) => found,
            Err(d) => return Err(d),
        };
        proof {
            lemma_not_last(t, m + 1);
        }
        let end = match self.expect(TokenKind::RightParen, "gamerule.query 调用缺少 `)`") {
            Ok(token) => token.span,
            Err(d) => return Err(d),
        };
        proof {
            lemma_not_last(t, m + 2);
        }
        Ok(Expr { kind: ExprKind::GameRuleQuery { name }, span: start.merge(end) })
    }

    /// `scoreboard.get(持有者, 目标)` from its `(`.
    fn scoreboard_get(&mut self, start: Span) -> (r: Result<Expr, Diagnostic>)
        requires
            old(self).wf(),
        ensures
            final(self).wf(),
            final(self).tokens@ == old(self).tokens@,
            macro_state(&*final(self)) == macro_state(&*old(self)),
            match (r, scoreboard_get_spec(old(self).tokens@, old(self).cursor as int, start)) {
                (Ok(e), Ok((v, span, after))) => expr_view(e.kind) == v && e.span == span && final(self).cursor
                    == after && after > old(self).cursor,
                (Err(d), Err(e)) => diag(d) == e,
                _ => false,
            },
    {
        let ghost t = self.tokens@;
        let ghost m = self.cursor as int;
        let target = match self.score_target("scoreboard.get") {
            Ok(target) => target,
            Err(d) => return Err(d),
        };
        let ghost close = self.cursor as int;
        let end = match self.expect(TokenKind::RightParen, "scoreboard.get 调用缺少 `)`") {
            Ok(token) => token.span,
            Err(d) => return Err(d),
        };
        proof {
            lemma_not_last(t, close);
        }
        Ok(Expr { kind: ExprKind::ScoreQuery { target }, span: start.merge(end) })
    }

    /// `stopwatch.query("命名空间:id"[, 缩放])` from its `(`.
    fn stopwatch_query(&mut self, start: Span) -> (r: Result<Expr, Diagnostic>)
        requires
            old(self).wf(),
        ensures
            final(self).wf(),
            final(self).tokens@ == old(self).tokens@,
            macro_state(&*final(self)) == macro_state(&*old(self)),
            match (r, stopwatch_query_spec(old(self).tokens@, old(self).cursor as int, start)) {
                (Ok(e), Ok((v, span, after))) => expr_view(e.kind) == v && e.span == span && final(self).cursor
                    == after && after > old(self).cursor,
                (Err(d), Err(e)) => diag(d) == e,
                _ => false,
            },
    {
        let ghost t = self.tokens@;
        let ghost m = self.cursor as int;
        match self.expect(TokenKind::LeftParen, "stopwatch.query 后需要 `(`") {
            Ok(_) => {},
            Err(d) => return Err(d),
        }
        proof {
            lemma_not_last(t, m);
        }
        let (id, _) = match self.string("stopwatch.query 需要秒表资源位置") {
            Ok(found) => found,
            Err(d) => return Err(d),
        };
        proof {
            lemma_not_last(t, m + 1);
        }
        let scale = if self.take(&TokenKind::Comma).is_some() {
            proof {
                lemma_not_last(t, m + 2);
            }
            match self.signed_number_text("秒表缩放比例") {
                Ok(value) => Some(value),
                Err(d) => return Err(d),
            }
        } else {
            None
        };
        let ghost close = self.cursor as int;
        let end = match self.expect(TokenKind::RightParen, "stopwatch.query 调用缺少 `)`") {
            Ok(token) => token.span,
            Err(d) => return Err(d),
        };
        proof {
            lemma_not_last(t, close);
        }
        Ok(Expr { kind: ExprKind::StopwatchQuery { id, scale }, span: start.merge(end) })
    }

    /// `data.get(来源, 路径)` from its `(`.
    fn data_get(&mut self, start: Span) -> (r: Result<Expr, Diagnostic>)
        requires
            old(self).wf(),
        ensures
            final(self).wf(),
            final(self).tokens@ == old(self).tokens@,
            macro_state(&*final(self)).0 == macro_state(&*old(self)).0,
            ({
                let (params, uses, coords) = macro_state(&*old(self));
                match (r, data_get_spec(old(self).tokens@, old(self).cursor as int, start, params)) {
                    (Ok(e), Ok((v, span, used, recorded, after))) => expr_view(e.kind) == v && e.span == span
                        && final(self).cursor == after && after > old(self).cursor && macro_state(&*final(self)).1 == uses + used
                        && macro_state(&*final(self)).2 == coords + recorded,
                    (Err(d), Err(e)) => diag(d) == e,
                    _ => false,
                }
            }),
    {
        let ghost t = self.tokens@;
        let ghost m = self.cursor as int;
        match self.expect(TokenKind::LeftParen, "data.get 后需要 `(`") {
            Ok(_) => {},
            Err(d) => return Err(d),
        }
        proof {
            lemma_not_last(t, m);
        }
        let source = match self.nbt_source_value("data.get 来源") {
            Ok(s) => s,
            Err(d) => return Err(d),
        };
        let ghost after = self.cursor as int;
        match self.expect(TokenKind::Comma, "data.get 来源后需要 `,`") {
            Ok(_) => {},
            Err(d) => return Err(d),
        }
        proof {
            lemma_not_last(t, after);
        }
        let (path, path_span) = match self.string("data.get 需要 NBT 路径字符串") {
            Ok(found) => found,
            Err(d) => return Err(d),
        };
        proof {
            lemma_not_last(t, after + 1);
        }
        let end = match self.expect(TokenKind::RightParen, "data.get 调用缺少 `)`") {
            Ok(token) => token.span,
            Err(d) => return Err(d),
        };
        proof {
            lemma_not_last(t, after + 2);
        }
        Ok(Expr { kind: ExprKind::DataGet { source, path, path_span }, span: start.merge(end) })
    }

    /// A named expression `receiver.method(…)`, after its receiver (which
    /// spans `start_span`).
    pub fn named_expression(&mut self, receiver: String, start_span: Span) -> (r: Result<Expr, Diagnostic>)
        requires
            old(self).wf(),
        ensures
            final(self).wf(),
            final(self).tokens@ == old(self).tokens@,
            macro_state(&*final(self)).0 == macro_state(&*old(self)).0,
            ({
                let (params, uses, coords) = macro_state(&*old(self));
                match (r, named_expression_spec(old(self).tokens@, old(self).cursor as int, receiver@, start_span, params)) {
                    (Ok(e), Ok((v, span, used, recorded, after))) => expr_view(e.kind) == v && e.span == span
                        && final(self).cursor == after && after > old(self).cursor && macro_state(&*final(self)).1 == uses + used
                        && macro_state(&*final(self)).2 == coords + recorded,
                    (Err(d), Err(e)) => diag(d) == e,
                    _ => false,
                }
            }),
    {
        let ghost t = self.tokens@;
        let ghost c = self.cursor as int;
        let ghost (params, uses, coords) = macro_state(&*self);
        match self.expect(TokenKind::Dot, "名称后需要 `.`") {
            Ok(_) => {},
            Err(d) => return Err(d),
        }
        proof {
            lemma_not_last(t, c);
        }
        let (method, method_span) = match self.ident("名称方法") {
            Ok(found) => found,
            Err(d) => return Err(d),
        };
        proof {
            lemma_not_last(t, c + 1);
        }
        assert(uses + Seq::<(Seq<char>, Span)>::empty() =~= uses);
        assert(coords + Seq::<(Seq<char>, MacroCoordinateKind)>::empty() =~= coords);
        let receiver = receiver.as_str();
        let method = method.as_str();
        if word_matches(receiver, "xp") && word_matches(method, "query") {
            return self.xp_query(start_span);
        }
        if word_matches(receiver, "time") && is_some_str(time_method(method), "query") {
            return self.time_query(start_span);
        }
        if word_matches(receiver, "time") && is_some_str(time_method(method), "query_gametime") {
            return self.no_argument(
                start_span,
                "time.query_gametime 后需要 `(`",
                "time.query_gametime 不接受参数，需要 `)`",
                ExprKind::GameTimeQuery,
            );
        }
        if word_matches(receiver, "gamerule") && is_some_str(gamerule_method(method), "query") {
            return self.gamerule_query(start_span);
        }
        if word_matches(receiver, "worldborder") && is_some_str(worldborder_method(method), "get") {
            return self.no_argument(
                start_span,
                "worldborder.get 后需要 `(`",
                "worldborder.get 不接受参数，需要 `)`",
                ExprKind::WorldBorderSize,
            );
        }
        if word_matches(receiver, "scoreboard") && is_some_str(scoreboard_method(method), "get") {
            return self.scoreboard_get(start_span);
        }
        if word_matches(receiver, "stopwatch") && word_matches(method, "query") {
            return self.stopwatch_query(start_span);
        }
        if word_matches(receiver, "data") && is_some_str(data_method(method), "get") {
            return self.data_get(start_span);
        }
        let mut m = "未知的具名表达式 `".to_owned();
        m.append(receiver);
        m.append(".");
        m.append(method);
        m.append(
            "`；目前支持 `xp.query(查询, points|levels)`、`scoreboard.get(持有者, 目标)`、`stopwatch.query(\"命名空间:id\"[, 缩放])`、`time.query([时钟])`、`time.query_gametime()`、`gamerule.query(\"规则\")`、`worldborder.get()` 和 `data.get(来源, 路径)`",
        );
        Err(Diagnostic { message: m, span: start_span.merge(method_span) })
    }
}

} // verus!
