//! Function bodies: blocks of statements, with the control flow (`each`,
//! `in_dimension`, `if`/`else`, `while`, `execute`), raw commands (`run`),
//! `give`, `self`, `message`, calls, `return`, local variables and assignments. The statements that
//! build structured game commands (entity and world commands, `spawn`,
//! `sound`, `effect`, `scoreboard`, …) are
//! answered with a diagnostic: their grammar is not part of this library.
//! `schedule` is read, with delays in whole numbers of ticks, seconds or
//! days.

use vstd::prelude::*;
use crate::chars::{chars_of, contains_char, starts_at, matches_at, is_whitespace, is_whitespace_spec};
use super::cursor::{
    macro_state, Parser, Token, TokenKind, Span, Diagnostic, diag, kind_at, word_at, ident_at, merged, stream_ok,
    lemma_not_last, advanced, MacroType,
};
use super::components::{
    moved, stuck, Trace, MacroState, no_trace, followed_by, extends, lemma_extends_none, lemma_extends_then,
    TextComponent, TextComponentKind, ComponentView, StyleView, component_view,
};
use super::objectives::component_or_string_spec;
use crate::parser::keywords::actions::{
    message_target, message_target_spec, text_color, text_color_spec, self_method, self_method_spec, boolean_word,
    boolean_word_spec,
};
use super::expressions::{Expr, ExprNode, node_view, nodes_view, string_at};
use super::arithmetic::{additive_spec, call_arguments_spec};
use super::conditions::{Condition, CondView, cond_view, or_spec, cond_trace};
use super::condition_parts::{CallTarget, call_target_view, call_target_spec};
use super::arguments::command_string_spec;
use super::positions::sign_at;
use super::numbers::unsigned_spec;
use super::nbt::{signed_decimal, signed_text};
use super::cursor::expected_word_message;
use crate::parser::keywords::actions::{time_unit, time_unit_spec};
use crate::chars::str_eq;

verus! {

broadcast use vstd::string::group_string_axioms;

/// An assignment operator.
#[derive(Clone, Copy, Debug, PartialEq, Eq, Structural)]
pub enum AssignOp {
    Store,
    Add,
    Subtract,
    Multiply,
    Divide,
    Modulo,
}

/// What a `return` gives back.
pub enum ReturnKind {
    Void,
    Fail,
    Run(String),
    Value(Expr),
}

/// Whether a schedule adds to or replaces the function's pending runs.
#[derive(Clone, Copy, Debug, PartialEq, Eq, Structural)]
pub enum ScheduleMode {
    Append,
    Replace,
}

/// Who a `give` gives to: the player who ran the function, or the
/// players of a query.
pub enum GiveTarget {
    Origin,
    Query(String),
}

/// What a `give` gives: the item in hand as it is, or a defined item.
pub enum GiveItem {
    SelfItem,
    Definition(String),
}

/// Who a message goes to.
pub enum MessageTarget {
    All,
    SelfEntity,
    Nearest { within: u32 },
    Query { name: String, name_span: Span },
}

/// A message target as the contracts speak of it.
pub enum MessageTargetView {
    All,
    SelfEntity,
    Nearest(u32),
    Query(Seq<char>, Span),
}

pub open spec fn message_target_view(m: MessageTarget) -> MessageTargetView {
    match m {
        MessageTarget::All => MessageTargetView::All,
        MessageTarget::SelfEntity => MessageTargetView::SelfEntity,
        MessageTarget::Nearest { within } => MessageTargetView::Nearest(within),
        MessageTarget::Query { name, name_span } => MessageTargetView::Query(name@, name_span),
    }
}

/// What `self.<方法>(…)` does to the entity running the function.
pub enum SelfAction {
    AddTag(String),
    RemoveTag(String),
    SetInvulnerable(bool),
    SetNoGravity(bool),
    SaveItems(String),
    RestoreItems(String),
    RemovePreservingItems(String),
    RemovePreservingSlot { slot: String, slot_span: Span, query: String, query_span: Span },
    GiveItem { item: String, count: Option<u32>, count_span: Option<Span> },
    DataStore { slot: String, slot_span: Span, query: String, query_span: Span },
    DataLoad { slot: String, slot_span: Span, query: String, query_span: Span },
    DataClear { slot: String, slot_span: Span },
    ClearItems,
    Remove,
}

/// A self action as the contracts speak of it.
pub enum SelfActionView {
    AddTag(Seq<char>),
    RemoveTag(Seq<char>),
    SetInvulnerable(bool),
    SetNoGravity(bool),
    SaveItems(Seq<char>),
    RestoreItems(Seq<char>),
    RemovePreservingItems(Seq<char>),
    RemovePreservingSlot(Seq<char>, Span, Seq<char>, Span),
    GiveItem(Seq<char>, Option<u32>, Option<Span>),
    DataStore(Seq<char>, Span, Seq<char>, Span),
    DataLoad(Seq<char>, Span, Seq<char>, Span),
    DataClear(Seq<char>, Span),
    ClearItems,
    Remove,
}

pub open spec fn self_action_view(a: SelfAction) -> SelfActionView {
    match a {
        SelfAction::AddTag(v) => SelfActionView::AddTag(v@),
        SelfAction::RemoveTag(v) => SelfActionView::RemoveTag(v@),
        SelfAction::SetInvulnerable(b) => SelfActionView::SetInvulnerable(b),
        SelfAction::SetNoGravity(b) => SelfActionView::SetNoGravity(b),
        SelfAction::SaveItems(v) => SelfActionView::SaveItems(v@),
        SelfAction::RestoreItems(v) => SelfActionView::RestoreItems(v@),
        SelfAction::RemovePreservingItems(v) => SelfActionView::RemovePreservingItems(v@),
        SelfAction::RemovePreservingSlot { slot, slot_span, query, query_span } => SelfActionView::RemovePreservingSlot(
            slot@,
            slot_span,
            query@,
            query_span,
        ),
        SelfAction::GiveItem { item, count, count_span } => SelfActionView::GiveItem(item@, count, count_span),
        SelfAction::DataStore { slot, slot_span, query, query_span } => SelfActionView::DataStore(
            slot@,
            slot_span,
            query@,
            query_span,
        ),
        SelfAction::DataLoad { slot, slot_span, query, query_span } => SelfActionView::DataLoad(
            slot@,
            slot_span,
            query@,
            query_span,
        ),
        SelfAction::DataClear { slot, slot_span } => SelfActionView::DataClear(slot@, slot_span),
        SelfAction::ClearItems => SelfActionView::ClearItems,
        SelfAction::Remove => SelfActionView::Remove,
    }
}

/// A statement of a function body.
pub enum StatementKind {
    Each { query: String, body: Vec<Statement> },
    InDimension { dimension: String, body: Vec<Statement> },
    Run(String),
    Call { target: CallTarget, arguments: Vec<Expr> },
    If { condition: Condition, body: Vec<Statement>, otherwise: Vec<Statement> },
    While { condition: Condition, body: Vec<Statement> },
    Execute { clauses: String, body: Vec<Statement> },
    Return(ReturnKind),
    Give { target: GiveTarget, item: GiveItem, count: Option<u32>, count_span: Option<Span> },
    Message { target: MessageTarget, component: TextComponent },
    SelfAction(SelfAction),
    Schedule { target: CallTarget, delay: String, mode: ScheduleMode },
    ScheduleClear { function: String },
    Let { name: String, name_span: Span, value: Expr },
    Assign { target: String, operation: AssignOp, value: Expr },
}

/// A statement and its span.
pub struct Statement {
    pub kind: StatementKind,
    pub span: Span,
}

/// A statement as the contracts speak of it.
pub enum StmtKindView {
    Each(Seq<char>, Seq<StmtView>),
    InDimension(Seq<char>, Seq<StmtView>),
    Run(Seq<char>),
    Call((bool, Seq<char>), Seq<ExprNode>),
    If(CondView, Seq<StmtView>, Seq<StmtView>),
    While(CondView, Seq<StmtView>),
    Execute(Seq<char>, Seq<StmtView>),
    ReturnVoid,
    ReturnFail,
    ReturnRun(Seq<char>),
    ReturnValue(ExprNode),
    Give(Option<Seq<char>>, Option<Seq<char>>, Option<u32>, Option<Span>),
    Message(MessageTargetView, ComponentView),
    SelfAction(SelfActionView),
    Schedule((bool, Seq<char>), Seq<char>, ScheduleMode),
    ScheduleClear(Seq<char>),
    Let(Seq<char>, Span, ExprNode),
    Assign(Seq<char>, AssignOp, ExprNode),
}

pub struct StmtView {
    pub kind: StmtKindView,
    pub span: Span,
}

pub open spec fn stmt_view(s: Statement) -> StmtView
    decreases s,
{
    StmtView { kind: stmt_kind_view(s.kind), span: s.span }
}

pub open spec fn stmts_view(s: Seq<Statement>) -> Seq<StmtView>
    decreases s,
{
    if s.len() == 0 {
        seq![]
    } else {
        stmts_view(s.subrange(0, s.len() - 1)).push(stmt_view(s[s.len() - 1]))
    }
}

pub open spec fn stmt_kind_view(k: StatementKind) -> StmtKindView
    decreases k,
{
    match k {
        StatementKind::Each { query, body } => StmtKindView::Each(query@, stmts_view(body@)),
        StatementKind::InDimension { dimension, body } => StmtKindView::InDimension(dimension@, stmts_view(body@)),
        StatementKind::Run(command) => StmtKindView::Run(command@),
        StatementKind::Call { target, arguments } => StmtKindView::Call(call_target_view(target), nodes_view(arguments@)),
        StatementKind::If { condition, body, otherwise } => StmtKindView::If(
            cond_view(condition),
            stmts_view(body@),
            stmts_view(otherwise@),
        ),
        StatementKind::While { condition, body } => StmtKindView::While(cond_view(condition), stmts_view(body@)),
        StatementKind::Execute { clauses, body } => StmtKindView::Execute(clauses@, stmts_view(body@)),
        StatementKind::Return(r) => match r {
            ReturnKind::Void => StmtKindView::ReturnVoid,
            ReturnKind::Fail => StmtKindView::ReturnFail,
            ReturnKind::Run(command) => StmtKindView::ReturnRun(command@),
            ReturnKind::Value(e) => StmtKindView::ReturnValue(node_view(e)),
        },
        StatementKind::Give { target, item, count, count_span } => StmtKindView::Give(
            match target {
                GiveTarget::Origin => None,
                GiveTarget::Query(q) => Some(q@),
            },
            give_item_view(item),
            count,
            count_span,
        ),
        StatementKind::SelfAction(a) => StmtKindView::SelfAction(self_action_view(a)),
        StatementKind::Message { target, component } => StmtKindView::Message(
            message_target_view(target),
            component_view(component),
        ),
        StatementKind::Schedule { target, delay, mode } => StmtKindView::Schedule(call_target_view(target), delay@, mode),
        StatementKind::ScheduleClear { function } => StmtKindView::ScheduleClear(function@),
        StatementKind::Let { name, name_span, value } => StmtKindView::Let(name@, name_span, node_view(value)),
        StatementKind::Assign { target, operation, value } => StmtKindView::Assign(target@, operation, node_view(value)),
    }
}

pub type StmtResult = Result<(StmtView, Trace, int), (Seq<char>, Span)>;

pub type BlockResult = Result<(Seq<StmtView>, Trace, int), (Seq<char>, Span)>;

/// The text of the word at `c`.
pub open spec fn word_text(t: Seq<Token>, c: int) -> Seq<char> {
    match t[c].kind {
        TokenKind::Ident(v) => v@,
        _ => seq![],
    }
}

/// The message for a statement whose grammar this library does not hold.
pub open spec fn unsupported_message(w: Seq<char>) -> Seq<char> {
    "不支持的语句 `"@ + w + "`：该语句的语法不在本库之内"@
}

/// The word at `c` starts a command statement (a core or an entity
/// command).
pub open spec fn command_root(t: Seq<Token>, c: int) -> bool {
    ||| word_at(t, c, "reload"@)
    ||| word_at(t, c, "recipe"@)
    ||| word_at(t, c, "datapack"@)
    ||| word_at(t, c, "loot"@)
    ||| (word_at(t, c, "random"@) && kind_at(t, c + 1, TokenKind::Dot))
    ||| word_at(t, c, "kill"@)
    ||| word_at(t, c, "tag"@)
    ||| word_at(t, c, "enchant"@)
    ||| word_at(t, c, "damage"@)
    ||| word_at(t, c, "attribute"@)
    ||| word_at(t, c, "ride"@)
    ||| word_at(t, c, "rotate"@)
    ||| word_at(t, c, "spreadplayers"@)
    ||| word_at(t, c, "spectate"@)
    ||| word_at(t, c, "swing"@)
    ||| word_at(t, c, "trigger"@)
    ||| word_at(t, c, "gamemode"@)
    ||| word_at(t, c, "defaultgamemode"@)
    ||| word_at(t, c, "difficulty"@)
    ||| word_at(t, c, "spawnpoint"@)
    ||| word_at(t, c, "setworldspawn"@)
    ||| word_at(t, c, "team"@)
    ||| word_at(t, c, "waypoint"@)
    ||| word_at(t, c, "list"@)
}

/// The word at `c` starts `spawn`.
pub open spec fn action_root(t: Seq<Token>, c: int) -> bool {
    word_at(t, c, "spawn"@)
}

/// The word at `c` starts a world, effect, scoreboard or data statement.
pub open spec fn world_root(t: Seq<Token>, c: int) -> bool {
    ||| word_at(t, c, "effect"@)
    ||| word_at(t, c, "xp"@)
    ||| word_at(t, c, "clear"@)
    ||| word_at(t, c, "stopwatch"@)
    ||| word_at(t, c, "scoreboard"@)
    ||| word_at(t, c, "teleport"@)
    ||| word_at(t, c, "set_block"@)
    ||| word_at(t, c, "fill_biome"@)
    ||| word_at(t, c, "fill"@)
    ||| word_at(t, c, "clone"@)
    ||| word_at(t, c, "place"@)
    ||| word_at(t, c, "forceload"@)
    ||| word_at(t, c, "time"@)
    ||| word_at(t, c, "weather"@)
    ||| word_at(t, c, "gamerule"@)
    ||| word_at(t, c, "worldborder"@)
    ||| word_at(t, c, "locate"@)
    ||| word_at(t, c, "advancement"@)
    ||| (word_at(t, c, "data"@) && kind_at(t, c + 1, TokenKind::Dot))
    ||| (word_at(t, c, "item"@) && kind_at(t, c + 1, TokenKind::Dot))
    ||| word_at(t, c, "nbt"@)
}

/// The assignment operator a token spells.
pub open spec fn assign_op_of(k: TokenKind) -> Option<AssignOp> {
    match k {
        TokenKind::Equal => Some(AssignOp::Store),
        TokenKind::PlusEqual => Some(AssignOp::Add),
        TokenKind::MinusEqual => Some(AssignOp::Subtract),
        TokenKind::StarEqual => Some(AssignOp::Multiply),
        TokenKind::SlashEqual => Some(AssignOp::Divide),
        TokenKind::PercentEqual => Some(AssignOp::Modulo),
        _ => None,
    }
}

/// Clauses that an `execute` string may not hold: blank, over several
/// lines, or with the `execute` or `run` that the statement writes itself.
pub open spec fn bad_clauses(s: Seq<char>) -> bool {
    ||| (forall|i: int| 0 <= i < s.len() ==> is_whitespace_spec(#[trigger] s[i]))
    ||| s.contains('\n')
    ||| s.contains('\r')
    ||| matches_at(s, 0, "execute "@)
    ||| matches_at(s, 0, "run "@)
    ||| matches_at(s, s.len() - " run"@.len(), " run"@)
}

/// A statement ending at `q` (exclusive) that began at `c`.
pub open spec fn finished(t: Seq<Token>, c: int, kind: StmtKindView, tr: Trace, q: int) -> StmtResult {
    Ok((StmtView { kind, span: merged(t[c].span, t[q - 1].span) }, tr, q))
}

/// The ticks in one unit of time.
pub open spec fn unit_factor(k: Seq<char>) -> int {
    if k == "t"@ {
        1
    } else if k == "s"@ {
        20
    } else {
        24000
    }
}

/// The message when a delay is not a number.
pub open spec fn delay_number_message(label: Seq<char>) -> Seq<char> {
    label + "需要数字，例如 `1 s` 或 `1"@ + "."@ + "5 s`"@
}

/// A delay `[符号]<整数>[,] <单位>` at `c` for `label`, at least one tick:
/// its text (the number, then the unit) and the position after it. A
/// decimal delay is answered with a diagnostic.
pub open spec fn delay_spec(t: Seq<Token>, c: int, label: Seq<char>) -> Result<(Seq<char>, int), (Seq<char>, Span)> {
    let (negative, n) = sign_at(t, c);
    match t[n].kind {
        TokenKind::Number(v) => {
            let s: int = if negative {
                -v
            } else {
                v as int
            };
            if !(1 <= s <= i32::MAX) {
                Err((label + "必须是 1 到 2147483647 之间的整数"@, t[n].span))
            } else {
                let p = if kind_at(t, n + 1, TokenKind::Comma) {
                    n + 2
                } else {
                    n + 1
                };
                match ident_at(t, p, "时间单位 t、s 或 d"@) {
                    Err(e) => Err(e),
                    Ok((u, us)) => match time_unit_spec(u) {
                        None => Err(("时间单位只能是 t、s 或 d"@, us)),
                        Some(k) => if s * unit_factor(k) > i32::MAX {
                            Err((label + "超出 32 位游戏刻范围"@, merged(t[n].span, us)))
                        } else {
                            Ok((signed_decimal(s) + k, p + 1))
                        },
                    },
                }
            }
        },
        TokenKind::Decimal(_) => Err((label + "的小数时间不在本库的语法之内"@, t[n].span)),
        _ => Err((delay_number_message(label), t[n].span)),
    }
}

/// `schedule 函数() after <时间> [append|replace];` or
/// `schedule.clear(函数);` at `c`.
pub open spec fn schedule_spec(t: Seq<Token>, c: int) -> StmtResult {
    if kind_at(t, c + 1, TokenKind::Dot) {
        match ident_at(t, c + 2, "schedule 方法"@) {
            Err(e) => Err(e),
            Ok((_, method_span)) => if !word_at(t, c + 2, "clear"@) {
                Err(("schedule 只支持 `函数() after <时间>` 或 `schedule.clear(函数)`"@, method_span))
            } else if !kind_at(t, c + 3, TokenKind::LeftParen) {
                Err(("schedule.clear 后需要 `(`"@, t[c + 3].span))
            } else {
                match ident_at(t, c + 4, "被清除调度的函数名称"@) {
                    Err(e) => Err(e),
                    Ok((function, _)) => if !kind_at(t, c + 5, TokenKind::RightParen) {
                        Err(("schedule.clear 缺少 `)`"@, t[c + 5].span))
                    } else if !kind_at(t, c + 6, TokenKind::Semicolon) {
                        Err(("schedule.clear 后需要 `;`"@, t[c + 6].span))
                    } else {
                        finished(t, c, StmtKindView::ScheduleClear(function), no_trace(), c + 7)
                    },
                }
            },
        }
    } else {
        match call_target_spec(t, c + 1, "被调度函数名称"@) {
            Err(e) => Err(e),
            Ok((target, q)) => if !kind_at(t, q, TokenKind::LeftParen) {
                Err(("函数名称后需要 `(`"@, t[q].span))
            } else if !kind_at(t, q + 1, TokenKind::RightParen) {
                Err(("调度函数暂不支持参数，需要 `)`"@, t[q + 1].span))
            } else if !word_at(t, q + 2, "after"@) {
                Err((expected_word_message("after"@), t[q + 2].span))
            } else {
                match delay_spec(t, q + 3, "调度延迟"@) {
                    Err(e) => Err(e),
                    Ok((delay, q2)) => {
                        let append = word_at(t, q2, "append"@);
                        let q3 = if append || word_at(t, q2, "replace"@) {
                            q2 + 1
                        } else {
                            q2
                        };
                        if !kind_at(t, q3, TokenKind::Semicolon) {
                            Err(("调度语句后需要 `;`"@, t[q3].span))
                        } else {
                            finished(
                                t,
                                c,
                                StmtKindView::Schedule(
                                    target,
                                    delay,
                                    if append {
                                        ScheduleMode::Append
                                    } else {
                                        ScheduleMode::Replace
                                    },
                                ),
                                no_trace(),
                                q3 + 1,
                            )
                        }
                    },
                }
            },
        }
    }
}

/// What a `give` gives, at `c`: `None` for `self.item`, or a defined
/// item's name; and the position after it.
pub open spec fn give_item_spec(t: Seq<Token>, c: int) -> Result<(Option<Seq<char>>, int), (Seq<char>, Span)> {
    if word_at(t, c, "self"@) {
        if !kind_at(t, c + 1, TokenKind::Dot) {
            Err(("self 后需要 `.`"@, t[c + 1].span))
        } else {
            match ident_at(t, c + 2, "self 的物品成员"@) {
                Err(e) => Err(e),
                Ok((_, member_span)) => if !word_at(t, c + 2, "item"@) {
                    Err(("原样给予的写法是 `self.item`（中文 `自身.物品`）"@, member_span))
                } else {
                    Ok((None, c + 3))
                },
            }
        }
    } else {
        match ident_at(t, c, "give 需要物品定义名称或 self.item/自身.物品"@) {
            Err(e) => Err(e),
            Ok((name, _)) => Ok((Some(name), c + 1)),
        }
    }
}

pub open spec fn give_item_view(x: GiveItem) -> Option<Seq<char>> {
    match x {
        GiveItem::SelfItem => None,
        GiveItem::Definition(name) => Some(name@),
    }
}

/// `give(目标, 物品[, 数量]);` at `c`.
pub open spec fn give_spec(t: Seq<Token>, c: int) -> StmtResult {
    if !kind_at(t, c + 1, TokenKind::LeftParen) {
        Err(("give 后需要 `(`"@, t[c + 1].span))
    } else {
        let target = if word_at(t, c + 2, "origin"@) {
            Ok(None::<Seq<char>>)
        } else {
            match ident_at(t, c + 2, "give 需要玩家查询名称或 origin/投掷者"@) {
                Err(e) => Err(e),
                Ok((name, _)) => Ok(Some(name)),
            }
        };
        match target {
            Err(e) => Err(e),
            Ok(target) => if !kind_at(t, c + 3, TokenKind::Comma) {
                Err(("give 目标后需要 `,`"@, t[c + 3].span))
            } else {
                match give_item_spec(t, c + 4) {
                    Err(e) => Err(e),
                    Ok((item, q)) => {
                        let counted = if kind_at(t, q, TokenKind::Comma) {
                            match unsigned_spec(t, q + 1, "give 数量"@) {
                                Err(e) => Err(e),
                                Ok((n, span)) => Ok((Some(n), Some(span), q + 2)),
                            }
                        } else {
                            Ok((None, None, q))
                        };
                        match counted {
                            Err(e) => Err(e),
                            Ok((count, count_span, q2)) => if !kind_at(t, q2, TokenKind::RightParen) {
                                Err(("give 调用缺少 `)`"@, t[q2].span))
                            } else if !kind_at(t, q2 + 1, TokenKind::Semicolon) {
                                Err(("give 调用后需要 `;`"@, t[q2 + 1].span))
                            } else {
                                finished(t, c, StmtKindView::Give(target, item, count, count_span), no_trace(), q2 + 2)
                            },
                        }
                    },
                }
            },
        }
    }
}

/// The target of `message.<目标>(` at `c` (the target word's position
/// less two): the target and the position of the content.
pub open spec fn message_head_spec(t: Seq<Token>, c: int, k: Seq<char>) -> Result<(MessageTargetView, int), (Seq<char>, Span)> {
    if k == "all"@ {
        Ok((MessageTargetView::All, c + 4))
    } else if k == "self"@ {
        Ok((MessageTargetView::SelfEntity, c + 4))
    } else if k == "nearest"@ {
        match unsigned_spec(t, c + 4, "message.nearest 范围"@) {
            Err(e) => Err(e),
            Ok((within, _)) => if !kind_at(t, c + 5, TokenKind::Comma) {
                Err(("范围后需要 `,`"@, t[c + 5].span))
            } else {
                Ok((MessageTargetView::Nearest(within), c + 6))
            },
        }
    } else {
        match ident_at(t, c + 4, "message.player 需要实体查询名称"@) {
            Err(e) => Err(e),
            Ok((name, name_span)) => if !kind_at(t, c + 5, TokenKind::Comma) {
                Err(("查询后需要 `,`"@, t[c + 5].span))
            } else {
                Ok((MessageTargetView::Query(name, name_span), c + 6))
            },
        }
    }
}

/// The message content at `p`, with the older trailing `, 颜色` of a plain
/// text message: the content, what it records, and the position after it.
pub open spec fn message_content_spec(t: Seq<Token>, p: int, params: Seq<(Seq<char>, MacroType)>) -> Result<
    (ComponentView, Trace, int),
    (Seq<char>, Span),
> {
    match component_or_string_spec(t, p, "消息内容"@, params) {
        Err(e) => Err(e),
        Ok((comp, tr, q)) => if kind_at(t, q, TokenKind::Comma) {
            match ident_at(t, q + 1, "消息颜色"@) {
                Err(e) => Err(e),
                Ok((color, color_span)) => if !(comp.kind is Text) {
                    Err(
                        (
                            "结构化文本组件请在样式块里写 color，例如 text(\"你好\") { color = \"red\"; }"@,
                            color_span,
                        ),
                    )
                } else {
                    let named = match text_color_spec(color) {
                        Some(n) => n,
                        None => color,
                    };
                    Ok((ComponentView { style: StyleView { color: Some(named), ..comp.style }, ..comp }, tr, q + 2))
                },
            }
        } else {
            Ok((comp, tr, q))
        },
    }
}

/// `message.<目标>(…);` at `c`.
pub open spec fn message_spec(t: Seq<Token>, c: int, params: Seq<(Seq<char>, MacroType)>) -> StmtResult {
    if !kind_at(t, c + 1, TokenKind::Dot) {
        Err(("message 后需要 `.`"@, t[c + 1].span))
    } else {
        match ident_at(t, c + 2, "消息目标"@) {
            Err(e) => Err(e),
            Ok((m, ms)) => match message_target_spec(m) {
                None => Err(("消息目标只能是 all、self、nearest 或 player"@, ms)),
                Some(k) => if !kind_at(t, c + 3, TokenKind::LeftParen) {
                    Err(("消息目标后需要 `(`"@, t[c + 3].span))
                } else {
                    match message_head_spec(t, c, k) {
                        Err(e) => Err(e),
                        Ok((target, p)) => match message_content_spec(t, p, params) {
                            Err(e) => Err(e),
                            Ok((comp, tr, q)) => if !kind_at(t, q, TokenKind::RightParen) {
                                Err(("消息调用缺少 `)`"@, t[q].span))
                            } else if !kind_at(t, q + 1, TokenKind::Semicolon) {
                                Err(("消息调用后需要 `;`"@, t[q + 1].span))
                            } else {
                                finished(t, c, StmtKindView::Message(target, comp), tr, q + 2)
                            },
                        },
                    }
                },
            },
        }
    }
}

/// The arguments of the self method `k` from `p` (after its `(`): the
/// action and the position of its `)`.
pub open spec fn self_body_spec(t: Seq<Token>, p: int, k: Seq<char>) -> Result<(SelfActionView, int), (Seq<char>, Span)> {
    if k == "add_tag"@ || k == "remove_tag"@ {
        match string_at(t, p, "标签需要字符串"@) {
            Err(e) => Err(e),
            Ok((v, _)) => Ok(
                (
                    if k == "add_tag"@ {
                        SelfActionView::AddTag(v)
                    } else {
                        SelfActionView::RemoveTag(v)
                    },
                    p + 1,
                ),
            ),
        }
    } else if k == "set_invulnerable"@ || k == "set_no_gravity"@ {
        match ident_at(t, p, "true 或 false"@) {
            Err(e) => Err(e),
            Ok((v, vs)) => match boolean_word_spec(v) {
                None => Err(("这里需要 true 或 false"@, vs)),
                Some(w) => Ok(
                    (
                        if k == "set_invulnerable"@ {
                            SelfActionView::SetInvulnerable(w == "true"@)
                        } else {
                            SelfActionView::SetNoGravity(w == "true"@)
                        },
                        p + 1,
                    ),
                ),
            },
        }
    } else if k == "save_items"@ || k == "restore_items"@ {
        match ident_at(t, p, "物品存储名称"@) {
            Err(e) => Err(e),
            Ok((v, _)) => Ok(
                (
                    if k == "save_items"@ {
                        SelfActionView::SaveItems(v)
                    } else {
                        SelfActionView::RestoreItems(v)
                    },
                    p + 1,
                ),
            ),
        }
    } else if k == "remove_preserving_items"@ {
        match ident_at(t, p, "物品存储名称或数据槽名称"@) {
            Err(e) => Err(e),
            Ok((r, rs)) => if kind_at(t, p + 1, TokenKind::Comma) {
                match ident_at(t, p + 2, "实体查询名称"@) {
                    Err(e) => Err(e),
                    Ok((q, qs)) => Ok((SelfActionView::RemovePreservingSlot(r, rs, q, qs), p + 3)),
                }
            } else {
                Ok((SelfActionView::RemovePreservingItems(r), p + 1))
            },
        }
    } else if k == "give_item"@ {
        match ident_at(t, p, "物品定义名称"@) {
            Err(e) => Err(e),
            Ok((item, _)) => if kind_at(t, p + 1, TokenKind::Comma) {
                match unsigned_spec(t, p + 2, "给予物品数量"@) {
                    Err(e) => Err(e),
                    Ok((n, span)) => Ok((SelfActionView::GiveItem(item, Some(n), Some(span)), p + 3)),
                }
            } else {
                Ok((SelfActionView::GiveItem(item, None, None), p + 1))
            },
        }
    } else if k == "deposit"@ || k == "withdraw"@ {
        match ident_at(t, p, "数据槽名称"@) {
            Err(e) => Err(e),
            Ok((slot, ss)) => if !kind_at(t, p + 1, TokenKind::Comma) {
                Err(("数据槽后需要 `,`"@, t[p + 1].span))
            } else {
                match ident_at(t, p + 2, "实体查询名称"@) {
                    Err(e) => Err(e),
                    Ok((q, qs)) => Ok(
                        (
                            if k == "deposit"@ {
                                SelfActionView::DataStore(slot, ss, q, qs)
                            } else {
                                SelfActionView::DataLoad(slot, ss, q, qs)
                            },
                            p + 3,
                        ),
                    ),
                }
            },
        }
    } else if k == "remove_data"@ {
        match ident_at(t, p, "数据槽名称"@) {
            Err(e) => Err(e),
            Ok((slot, ss)) => Ok((SelfActionView::DataClear(slot, ss), p + 1)),
        }
    } else if k == "clear_items"@ {
        Ok((SelfActionView::ClearItems, p))
    } else {
        Ok((SelfActionView::Remove, p))
    }
}

/// `self.<方法>(…);` at `c`.
pub open spec fn self_spec(t: Seq<Token>, c: int) -> StmtResult {
    if !kind_at(t, c + 1, TokenKind::Dot) {
        Err(("self 后需要 `.`"@, t[c + 1].span))
    } else {
        match ident_at(t, c + 2, "self 方法名称"@) {
            Err(e) => Err(e),
            Ok((m, ms)) => if word_at(t, c + 2, "nbt"@) {
                Err(("实体 NBT 合并直接写成 `nbt { ... }`（中文 `数据 { ... }`），不需要 self 前缀"@, ms))
            } else {
                match self_method_spec(m) {
                    None => Err(("未知 self 方法 `"@ + m + "`"@, ms)),
                    Some(k) => if !kind_at(t, c + 3, TokenKind::LeftParen) {
                        Err(("self 方法后需要 `(`"@, t[c + 3].span))
                    } else {
                        match self_body_spec(t, c + 4, k) {
                            Err(e) => Err(e),
                            Ok((a, q)) => if !kind_at(t, q, TokenKind::RightParen) {
                                Err(("self 方法缺少 `)`"@, t[q].span))
                            } else if !kind_at(t, q + 1, TokenKind::Semicolon) {
                                Err(("self 方法调用后需要 `;`"@, t[q + 1].span))
                            } else {
                                finished(t, c, StmtKindView::SelfAction(a), no_trace(), q + 2)
                            },
                        }
                    },
                }
            },
        }
    }
}

/// A block `{ … }` at `c`: its statements, what they record, and the
/// position after its `}`.
pub open spec fn block_spec(t: Seq<Token>, c: int, params: Seq<(Seq<char>, MacroType)>) -> BlockResult
    decreases t.len() - c, 5int,
{
    if !stream_ok(t, c) {
        Err(stuck())
    } else if !kind_at(t, c, TokenKind::LeftBrace) {
        Err(("这里需要 `{`"@, t[c].span))
    } else {
        items_spec(t, c + 1, params, seq![], no_trace())
    }
}

/// The statements of a block from `c` on, after `done`.
pub open spec fn items_spec(t: Seq<Token>, c: int, params: Seq<(Seq<char>, MacroType)>, done: Seq<StmtView>, tr: Trace) -> BlockResult
    decreases t.len() - c, 4int,
{
    if !stream_ok(t, c) {
        Err(stuck())
    } else if kind_at(t, c, TokenKind::RightBrace) {
        Ok((done, tr, c + 1))
    } else if t[c].kind is Eof {
        Err(("代码块缺少 `}`"@, t[c].span))
    } else {
        match statement_spec(t, c, params) {
            Err(e) => Err(e),
            Ok((s, tr2, q)) => if !moved(t, c, q) {
                Err(stuck())
            } else {
                items_spec(t, q, params, done.push(s), followed_by(tr, tr2))
            },
        }
    }
}

/// The block at `q` that ends a statement begun at `c` whose head recorded
/// `tr`; `make` builds the statement from the block's statements.
pub open spec fn with_block(
    t: Seq<Token>,
    c: int,
    q: int,
    params: Seq<(Seq<char>, MacroType)>,
    tr: Trace,
    make: spec_fn(Seq<StmtView>) -> StmtKindView,
) -> StmtResult
    decreases t.len() - c, 1int,
    when c < q <= t.len()
{
    match block_spec(t, q, params) {
        Err(e) => Err(e),
        Ok((body, tr2, q2)) => finished(t, c, make(body), followed_by(tr, tr2), q2),
    }
}

/// `each(查询) { … }` at `c`.
pub open spec fn each_spec(t: Seq<Token>, c: int, params: Seq<(Seq<char>, MacroType)>) -> StmtResult
    decreases t.len() - c, 2int,
{
    if !kind_at(t, c + 1, TokenKind::LeftParen) {
        Err(("each 后需要 `(`"@, t[c + 1].span))
    } else {
        match ident_at(t, c + 2, "实体查询名称"@) {
            Err(e) => Err(e),
            Ok((query, _)) => if !kind_at(t, c + 3, TokenKind::RightParen) {
                Err(("查询名称后需要 `)`"@, t[c + 3].span))
            } else if !(c + 4 <= t.len()) {
                Err(stuck())
            } else {
                with_block(t, c, c + 4, params, no_trace(), |body: Seq<StmtView>| StmtKindView::Each(query, body))
            },
        }
    }
}

/// `in_dimension("维度") { … }` at `c`.
pub open spec fn in_dimension_spec(t: Seq<Token>, c: int, params: Seq<(Seq<char>, MacroType)>) -> StmtResult
    decreases t.len() - c, 2int,
{
    if !kind_at(t, c + 1, TokenKind::LeftParen) {
        Err(("in_dimension 后需要 `(`"@, t[c + 1].span))
    } else {
        match string_at(t, c + 2, "in_dimension 需要维度资源位置"@) {
            Err(e) => Err(e),
            Ok((dimension, _)) => if !kind_at(t, c + 3, TokenKind::RightParen) {
                Err(("维度资源位置后需要 `)`"@, t[c + 3].span))
            } else if !(c + 4 <= t.len()) {
                Err(stuck())
            } else {
                with_block(t, c, c + 4, params, no_trace(), |body: Seq<StmtView>| StmtKindView::InDimension(dimension, body))
            },
        }
    }
}

/// `if 条件 { … } else { … }` at `c`.
pub open spec fn if_spec(t: Seq<Token>, c: int, params: Seq<(Seq<char>, MacroType)>) -> StmtResult
    decreases t.len() - c, 2int,
{
    match or_spec(t, c + 1, params) {
        Err(e) => Err(e),
        Ok((cond, tr, q)) => if !moved(t, c, q) {
            Err(stuck())
        } else {
            match block_spec(t, q, params) {
                Err(e) => Err(e),
                Ok((body, tr2, q2)) => if !moved(t, c, q2) {
                    Err(stuck())
                } else if word_at(t, q2, "else"@) {
                    match block_spec(t, q2 + 1, params) {
                        Err(e) => Err(e),
                        Ok((other, tr3, q3)) => finished(
                            t,
                            c,
                            StmtKindView::If(cond, body, other),
                            followed_by(followed_by(tr, tr2), tr3),
                            q3,
                        ),
                    }
                } else {
                    finished(t, c, StmtKindView::If(cond, body, seq![]), followed_by(tr, tr2), q2)
                },
            }
        },
    }
}

/// `while 条件 { … }` at `c`.
pub open spec fn while_spec(t: Seq<Token>, c: int, params: Seq<(Seq<char>, MacroType)>) -> StmtResult
    decreases t.len() - c, 2int,
{
    match or_spec(t, c + 1, params) {
        Err(e) => Err(e),
        Ok((cond, tr, q)) => if !moved(t, c, q) {
            Err(stuck())
        } else {
            with_block(t, c, q, params, tr, |body: Seq<StmtView>| StmtKindView::While(cond, body))
        },
    }
}

/// `execute "子句" { … }` at `c`.
pub open spec fn execute_spec(t: Seq<Token>, c: int, params: Seq<(Seq<char>, MacroType)>) -> StmtResult
    decreases t.len() - c, 2int,
{
    match string_at(t, c + 1, "execute 后需要子句字符串"@) {
        Err(e) => Err(e),
        Ok((clauses, span)) => if bad_clauses(clauses) {
            Err(("execute 字符串应只包含子句，例如 `as @a at @s`"@, span))
        } else if !(c + 2 <= t.len()) {
            Err(stuck())
        } else {
            with_block(t, c, c + 2, params, no_trace(), |body: Seq<StmtView>| StmtKindView::Execute(clauses, body))
        },
    }
}

/// `run "命令";` at `c`.
pub open spec fn run_spec(t: Seq<Token>, c: int) -> StmtResult {
    match command_string_spec(t, c + 1, "run"@) {
        Err(e) => Err(e),
        Ok((command, _)) => if !kind_at(t, c + 2, TokenKind::Semicolon) {
            Err(("命令后需要 `;`"@, t[c + 2].span))
        } else {
            finished(t, c, StmtKindView::Run(command), no_trace(), c + 3)
        },
    }
}

/// `call 函数(实参);` at `c`.
pub open spec fn call_spec(t: Seq<Token>, c: int, params: Seq<(Seq<char>, MacroType)>) -> StmtResult {
    match call_target_spec(t, c + 1, "被调用函数名称"@) {
        Err(e) => Err(e),
        Ok((target, q)) => match call_arguments_spec(t, q, params) {
            Err(e) => Err(e),
            Ok((args, tr, q2)) => if !kind_at(t, q2, TokenKind::Semicolon) {
                Err(("函数调用后需要 `;`"@, t[q2].span))
            } else {
                finished(t, c, StmtKindView::Call(target, args), tr, q2 + 1)
            },
        },
    }
}

/// `return …;` at `c`.
pub open spec fn return_spec(t: Seq<Token>, c: int, params: Seq<(Seq<char>, MacroType)>) -> StmtResult {
    if kind_at(t, c + 1, TokenKind::Semicolon) {
        finished(t, c, StmtKindView::ReturnVoid, no_trace(), c + 2)
    } else if word_at(t, c + 1, "fail"@) {
        if !kind_at(t, c + 2, TokenKind::Semicolon) {
            Err(("return fail 后需要 `;`"@, t[c + 2].span))
        } else {
            finished(t, c, StmtKindView::ReturnFail, no_trace(), c + 3)
        }
    } else if word_at(t, c + 1, "run"@) {
        match command_string_spec(t, c + 2, "return run"@) {
            Err(e) => Err(e),
            Ok((command, _)) => if !kind_at(t, c + 3, TokenKind::Semicolon) {
                Err(("return run 后需要 `;`"@, t[c + 3].span))
            } else {
                finished(t, c, StmtKindView::ReturnRun(command), no_trace(), c + 4)
            },
        }
    } else {
        match additive_spec(t, c + 1, params) {
            Err(e) => Err(e),
            Ok((v, tr, q)) => if !kind_at(t, q, TokenKind::Semicolon) {
                Err(("return 表达式后需要 `;`"@, t[q].span))
            } else {
                finished(t, c, StmtKindView::ReturnValue(v), tr, q + 1)
            },
        }
    }
}

/// `let 名称 = 表达式;` at `c`.
pub open spec fn let_spec(t: Seq<Token>, c: int, params: Seq<(Seq<char>, MacroType)>) -> StmtResult {
    match ident_at(t, c + 1, "局部变量名称"@) {
        Err(e) => Err(e),
        Ok((name, name_span)) => if !kind_at(t, c + 2, TokenKind::Equal) {
            Err(("局部变量需要初始值"@, t[c + 2].span))
        } else {
            match additive_spec(t, c + 3, params) {
                Err(e) => Err(e),
                Ok((v, tr, q)) => if !kind_at(t, q, TokenKind::Semicolon) {
                    Err(("局部变量声明后需要 `;`"@, t[q].span))
                } else {
                    finished(t, c, StmtKindView::Let(name, name_span, v), tr, q + 1)
                },
            }
        },
    }
}

/// A call `函数(实参);` or an assignment `名称 op 表达式;` at `c`.
pub open spec fn word_statement_spec(t: Seq<Token>, c: int, params: Seq<(Seq<char>, MacroType)>) -> StmtResult {
    match ident_at(t, c, "语句"@) {
        Err(e) => Err(e),
        Ok((name, _)) => if kind_at(t, c + 1, TokenKind::LeftParen) {
            match call_arguments_spec(t, c + 1, params) {
                Err(e) => Err(e),
                Ok((args, tr, q)) => if !kind_at(t, q, TokenKind::Semicolon) {
                    Err(("函数调用后需要 `;`"@, t[q].span))
                } else {
                    finished(t, c, StmtKindView::Call((false, name), args), tr, q + 1)
                },
            }
        } else {
            match assign_op_of(t[c + 1].kind) {
                None => Err(("这里需要赋值运算符 =、+=、-=、*=、/= 或 %="@, t[c + 1].span)),
                Some(op) => match additive_spec(t, c + 2, params) {
                    Err(e) => Err(e),
                    Ok((v, tr, q)) => if !kind_at(t, q, TokenKind::Semicolon) {
                        Err(("赋值后需要 `;`"@, t[q].span))
                    } else {
                        finished(t, c, StmtKindView::Assign(name, op, v), tr, q + 1)
                    },
                },
            }
        },
    }
}

/// A statement at `c`.
pub open spec fn statement_spec(t: Seq<Token>, c: int, params: Seq<(Seq<char>, MacroType)>) -> StmtResult
    decreases t.len() - c, 3int,
{
    if !stream_ok(t, c) {
        Err(stuck())
    } else if command_root(t, c) {
        Err((unsupported_message(word_text(t, c)), t[c].span))
    } else if word_at(t, c, "each"@) {
        each_spec(t, c, params)
    } else if word_at(t, c, "give"@) {
        give_spec(t, c)
    } else if word_at(t, c, "in_dimension"@) {
        in_dimension_spec(t, c, params)
    } else if action_root(t, c) {
        Err((unsupported_message(word_text(t, c)), t[c].span))
    } else if word_at(t, c, "self"@) {
        self_spec(t, c)
    } else if word_at(t, c, "message"@) {
        message_spec(t, c, params)
    } else if word_at(t, c, "sound"@) {
        Err((unsupported_message(word_text(t, c)), t[c].span))
    } else if word_at(t, c, "run"@) {
        run_spec(t, c)
    } else if word_at(t, c, "call"@) {
        call_spec(t, c, params)
    } else if word_at(t, c, "schedule"@) {
        schedule_spec(t, c)
    } else if word_at(t, c, "if"@) {
        if_spec(t, c, params)
    } else if word_at(t, c, "while"@) {
        while_spec(t, c, params)
    } else if word_at(t, c, "execute"@) {
        execute_spec(t, c, params)
    } else if word_at(t, c, "return"@) {
        return_spec(t, c, params)
    } else if word_at(t, c, "let"@) {
        let_spec(t, c, params)
    } else if world_root(t, c) {
        Err((unsupported_message(word_text(t, c)), t[c].span))
    } else {
        word_statement_spec(t, c, params)
    }
}


/// `r` is the outcome that `s` describes, for a parser that went from
/// `before` (at `start`) to `after` (at `cursor`).
pub open spec fn stmt_outcome(
    r: Result<Statement, Diagnostic>,
    s: StmtResult,
    before: MacroState,
    start: int,
    after: MacroState,
    cursor: int,
) -> bool {
    match (r, s) {
        (Ok(x), Ok((v, tr, q))) => stmt_view(x) == v && cursor == q && q > start && extends(after, before, tr),
        (Err(d), Err(e)) => diag(d) == e,
        _ => false,
    }
}

/// `r` is the block outcome that `s` describes: the statements and the
/// span of the closing `}`.
pub open spec fn block_outcome(
    r: Result<(Vec<Statement>, Span), Diagnostic>,
    s: BlockResult,
    t: Seq<Token>,
    before: MacroState,
    start: int,
    after: MacroState,
    cursor: int,
) -> bool {
    match (r, s) {
        (Ok((v, end)), Ok((w, tr, q))) => stmts_view(v@) == w && end == t[q - 1].span && cursor == q && q > start
            && extends(after, before, tr),
        (Err(d), Err(e)) => diag(d) == e,
        _ => false,
    }
}

pub open spec fn stmt_trace(r: StmtResult) -> Trace {
    match r {
        Ok((_, tr, _)) => tr,
        Err(_) => no_trace(),
    }
}

pub open spec fn block_trace(r: BlockResult) -> Trace {
    match r {
        Ok((_, tr, _)) => tr,
        Err(_) => no_trace(),
    }
}

proof fn lemma_push_stmts(s: Seq<Statement>, x: Statement)
    ensures
        stmts_view(s.push(x)) == stmts_view(s).push(stmt_view(x)),
{
    assert(s.push(x).subrange(0, s.len() as int) =~= s);
}

proof fn lemma_after_nothing(a: MacroState, b: MacroState, tr: Trace)
    requires
        extends(b, a, tr),
    ensures
        extends(b, a, followed_by(no_trace(), tr)),
{
    lemma_extends_none(a);
    lemma_extends_then(a, a, b, no_trace(), tr);
}

/// Whether an `execute` string holds what `bad_clauses` rejects.
fn is_bad_clauses(s: &str) -> (r: bool)
    ensures
        r == bad_clauses(s@),
{
    let text = chars_of(s);
    let mut blank = true;
    let mut i: usize = 0;
    while i < text.len()
        invariant
            i <= text@.len(),
            text@ == s@,
            blank == (forall|j: int| 0 <= j < i ==> is_whitespace_spec(#[trigger] text@[j])),
        decreases text.len() - i,
    {
        if !is_whitespace(text[i]) {
            blank = false;
        }
        i += 1;
    }
    let newline = contains_char(text.as_slice(), '\n');
    let cr = contains_char(text.as_slice(), '\r');
    let exe = chars_of("execute ");
    let run = chars_of("run ");
    let tail = chars_of(" run");
    let starts_execute = starts_at(text.as_slice(), 0, exe.as_slice());
    let starts_run = starts_at(text.as_slice(), 0, run.as_slice());
    let ends_run = text.len() >= tail.len() && starts_at(text.as_slice(), text.len() - tail.len(), tail.as_slice());
    blank || newline || cr || starts_execute || starts_run || ends_run
}

impl Parser {
    /// The diagnostic for a statement whose grammar this library does not
    /// hold, at its word.
    fn unsupported(&self) -> (d: Diagnostic)
        requires
            self.wf(),
            self.tokens@[self.cursor as int].kind is Ident,
        ensures
            diag(d) == (unsupported_message(word_text(self.tokens@, self.cursor as int)), self.tokens@[self.cursor as int].span),
    {
        let token = &self.tokens[self.cursor];
        match &token.kind {
            TokenKind::Ident(v) => {
                let mut m = "不支持的语句 `".to_owned();
                m.append(v.as_str());
                m.append("`：该语句的语法不在本库之内");
                Diagnostic { message: m, span: token.span }
            },
            _ => Diagnostic { message: String::new(), span: token.span },
        }
    }

    fn next_is_dot(&self) -> (r: bool)
        requires
            self.wf(),
            !(self.tokens@[self.cursor as int].kind is Eof),
        ensures
            r == kind_at(self.tokens@, self.cursor + 1, TokenKind::Dot),
    {
        proof {
            lemma_not_last(self.tokens@, self.cursor as int);
        }
        matches!(self.peek_kind(1).kind, TokenKind::Dot)
    }

    fn at_command_root(&self) -> (r: bool)
        requires
            self.wf(),
        ensures
            r == command_root(self.tokens@, self.cursor as int),
    {
        let random = self.check_word("random") && self.next_is_dot();
        random || self.check_word("reload") || self.check_word("recipe") || self.check_word("datapack")
            || self.check_word("loot") || self.check_word("kill") || self.check_word("tag") || self.check_word("enchant")
            || self.check_word("damage") || self.check_word("attribute") || self.check_word("ride") || self.check_word(
            "rotate",
        ) || self.check_word("spreadplayers") || self.check_word("spectate") || self.check_word("swing")
            || self.check_word("trigger") || self.check_word("gamemode") || self.check_word("defaultgamemode")
            || self.check_word("difficulty") || self.check_word("spawnpoint") || self.check_word("setworldspawn")
            || self.check_word("team") || self.check_word("waypoint") || self.check_word("list")
    }

    fn at_world_root(&self) -> (r: bool)
        requires
            self.wf(),
        ensures
            r == world_root(self.tokens@, self.cursor as int),
    {
        let data = self.check_word("data") && self.next_is_dot();
        let item = self.check_word("item") && self.next_is_dot();
        data || item || self.check_word("effect") || self.check_word("xp") || self.check_word("clear")
            || self.check_word("stopwatch") || self.check_word("scoreboard") || self.check_word("teleport")
            || self.check_word("set_block") || self.check_word("fill_biome") || self.check_word("fill")
            || self.check_word("clone") || self.check_word("place") || self.check_word("forceload")
            || self.check_word("time") || self.check_word("weather") || self.check_word("gamerule")
            || self.check_word("worldborder") || self.check_word("locate") || self.check_word("advancement")
            || self.check_word("nbt")
    }
}


impl Parser {
    /// `run "命令";`
    fn run_statement(&mut self) -> (r: Result<Statement, Diagnostic>)
        requires
            old(self).wf(),
            word_at(old(self).tokens@, old(self).cursor as int, "run"@),
        ensures
            final(self).wf(),
            final(self).tokens@ == old(self).tokens@,
            stmt_outcome(
                r,
                run_spec(old(self).tokens@, old(self).cursor as int),
                macro_state(&*old(self)),
                old(self).cursor as int,
                macro_state(&*final(self)),
                final(self).cursor as int,
            ),
    {
        let ghost t = self.tokens@;
        let ghost c = self.cursor as int;
        let ghost start = macro_state(&*self);
        let first = self.advance().span;
        proof {
            lemma_not_last(t, c);
        }
        let (command, _) = match self.command_string("run") {
            Ok(found) => found,
            Err(d) => return Err(d),
        };
        proof {
            lemma_not_last(t, c + 1);
        }
        match self.expect(TokenKind::Semicolon, "命令后需要 `;`") {
            Ok(_) => {},
            Err(d) => return Err(d),
        }
        proof {
            lemma_not_last(t, c + 2);
            lemma_extends_none(start);
        }
        let end = self.previous().span;
        Ok(Statement { kind: StatementKind::Run(command), span: first.merge(end) })
    }

    /// `call 函数(实参);`
    fn call_statement(&mut self) -> (r: Result<Statement, Diagnostic>)
        requires
            old(self).wf(),
            word_at(old(self).tokens@, old(self).cursor as int, "call"@),
        ensures
            final(self).wf(),
            final(self).tokens@ == old(self).tokens@,
            stmt_outcome(
                r,
                call_spec(old(self).tokens@, old(self).cursor as int, macro_state(&*old(self)).0),
                macro_state(&*old(self)),
                old(self).cursor as int,
                macro_state(&*final(self)),
                final(self).cursor as int,
            ),
    {
        let ghost t = self.tokens@;
        let ghost c = self.cursor as int;
        let ghost start = macro_state(&*self);
        let first = self.advance().span;
        proof {
            lemma_not_last(t, c);
        }
        let target = match self.call_target("被调用函数名称") {
            Ok(x) => x,
            Err(d) => return Err(d),
        };
        let arguments = match self.call_arguments() {
            Ok(x) => x,
            Err(d) => return Err(d),
        };
        let ghost q2 = self.cursor as int;
        match self.expect(TokenKind::Semicolon, "函数调用后需要 `;`") {
            Ok(_) => {},
            Err(d) => return Err(d),
        }
        proof {
            lemma_not_last(t, q2);
        }
        let end = self.previous().span;
        Ok(Statement { kind: StatementKind::Call { target, arguments }, span: first.merge(end) })
    }

    /// `return;`, `return fail;`, `return run "命令";` or `return 表达式;`
    fn return_statement(&mut self) -> (r: Result<Statement, Diagnostic>)
        requires
            old(self).wf(),
            word_at(old(self).tokens@, old(self).cursor as int, "return"@),
        ensures
            final(self).wf(),
            final(self).tokens@ == old(self).tokens@,
            stmt_outcome(
                r,
                return_spec(old(self).tokens@, old(self).cursor as int, macro_state(&*old(self)).0),
                macro_state(&*old(self)),
                old(self).cursor as int,
                macro_state(&*final(self)),
                final(self).cursor as int,
            ),
    {
        let ghost t = self.tokens@;
        let ghost c = self.cursor as int;
        let ghost start = macro_state(&*self);
        let first = self.advance().span;
        proof {
            lemma_not_last(t, c);
        }
        let kind = if self.take(&TokenKind::Semicolon).is_some() {
            proof {
                lemma_not_last(t, c + 1);
                lemma_extends_none(start);
            }
            ReturnKind::Void
        } else if self.take_word("fail").is_some() {
            proof {
                lemma_not_last(t, c + 1);
            }
            match self.expect(TokenKind::Semicolon, "return fail 后需要 `;`") {
                Ok(_) => {},
                Err(d) => return Err(d),
            }
            proof {
                lemma_not_last(t, c + 2);
                lemma_extends_none(start);
            }
            ReturnKind::Fail
        } else if self.take_word("run").is_some() {
            proof {
                lemma_not_last(t, c + 1);
            }
            let (command, _) = match self.command_string("return run") {
                Ok(found) => found,
                Err(d) => return Err(d),
            };
            proof {
                lemma_not_last(t, c + 2);
            }
            match self.expect(TokenKind::Semicolon, "return run 后需要 `;`") {
                Ok(_) => {},
                Err(d) => return Err(d),
            }
            proof {
                lemma_not_last(t, c + 3);
                lemma_extends_none(start);
            }
            ReturnKind::Run(command)
        } else {
            let value = match self.expression() {
                Ok(e) => e,
                Err(d) => return Err(d),
            };
            let ghost q = self.cursor as int;
            match self.expect(TokenKind::Semicolon, "return 表达式后需要 `;`") {
                Ok(_) => {},
                Err(d) => return Err(d),
            }
            proof {
                lemma_not_last(t, q);
            }
            ReturnKind::Value(value)
        };
        let end = self.previous().span;
        Ok(Statement { kind: StatementKind::Return(kind), span: first.merge(end) })
    }

    /// `let 名称 = 表达式;`
    fn let_statement(&mut self) -> (r: Result<Statement, Diagnostic>)
        requires
            old(self).wf(),
            word_at(old(self).tokens@, old(self).cursor as int, "let"@),
        ensures
            final(self).wf(),
            final(self).tokens@ == old(self).tokens@,
            stmt_outcome(
                r,
                let_spec(old(self).tokens@, old(self).cursor as int, macro_state(&*old(self)).0),
                macro_state(&*old(self)),
                old(self).cursor as int,
                macro_state(&*final(self)),
                final(self).cursor as int,
            ),
    {
        let ghost t = self.tokens@;
        let ghost c = self.cursor as int;
        let ghost start = macro_state(&*self);
        let first = self.advance().span;
        proof {
            lemma_not_last(t, c);
        }
        let (name, name_span) = match self.ident("局部变量名称") {
            Ok(found) => found,
            Err(d) => return Err(d),
        };
        proof {
            lemma_not_last(t, c + 1);
        }
        match self.expect(TokenKind::Equal, "局部变量需要初始值") {
            Ok(_) => {},
            Err(d) => return Err(d),
        }
        proof {
            lemma_not_last(t, c + 2);
        }
        let value = match self.expression() {
            Ok(e) => e,
            Err(d) => return Err(d),
        };
        let ghost q = self.cursor as int;
        match self.expect(TokenKind::Semicolon, "局部变量声明后需要 `;`") {
            Ok(_) => {},
            Err(d) => return Err(d),
        }
        proof {
            lemma_not_last(t, q);
        }
        let end = self.previous().span;
        Ok(Statement { kind: StatementKind::Let { name, name_span, value }, span: first.merge(end) })
    }

    /// The assignment operator at the cursor, which is consumed.
    fn assignment_operator(&mut self) -> (r: Result<AssignOp, Diagnostic>)
        requires
            old(self).wf(),
        ensures
            final(self).wf(),
            final(self).tokens@ == old(self).tokens@,
            macro_state(&*final(self)) == macro_state(&*old(self)),
            final(self).cursor == advanced(old(self).tokens@, old(self).cursor as int),
            match (r, assign_op_of(old(self).tokens@[old(self).cursor as int].kind)) {
                (Ok(x), Some(y)) => x == y,
                (Err(d), None) => diag(d) == (
                    "这里需要赋值运算符 =、+=、-=、*=、/= 或 %="@,
                    old(self).tokens@[old(self).cursor as int].span,
                ),
                _ => false,
            },
    {
        let token = self.advance();
        match token.kind {
            TokenKind::Equal => Ok(AssignOp::Store),
            TokenKind::PlusEqual => Ok(AssignOp::Add),
            TokenKind::MinusEqual => Ok(AssignOp::Subtract),
            TokenKind::StarEqual => Ok(AssignOp::Multiply),
            TokenKind::SlashEqual => Ok(AssignOp::Divide),
            TokenKind::PercentEqual => Ok(AssignOp::Modulo),
            _ => Err(
                Diagnostic { message: "这里需要赋值运算符 =、+=、-=、*=、/= 或 %=".to_owned(), span: token.span },
            ),
        }
    }

    /// A call `函数(实参);` or an assignment `名称 op 表达式;`.
    fn word_statement(&mut self) -> (r: Result<Statement, Diagnostic>)
        requires
            old(self).wf(),
        ensures
            final(self).wf(),
            final(self).tokens@ == old(self).tokens@,
            stmt_outcome(
                r,
                word_statement_spec(old(self).tokens@, old(self).cursor as int, macro_state(&*old(self)).0),
                macro_state(&*old(self)),
                old(self).cursor as int,
                macro_state(&*final(self)),
                final(self).cursor as int,
            ),
    {
        let ghost t = self.tokens@;
        let ghost c = self.cursor as int;
        let ghost start = macro_state(&*self);
        let first = self.tokens[self.cursor].span;
        let (name, _) = match self.ident("语句") {
            Ok(found) => found,
            Err(d) => return Err(d),
        };
        proof {
            lemma_not_last(t, c);
        }
        if self.check(&TokenKind::LeftParen) {
            let arguments = match self.call_arguments() {
                Ok(x) => x,
                Err(d) => return Err(d),
            };
            let ghost q = self.cursor as int;
            match self.expect(TokenKind::Semicolon, "函数调用后需要 `;`") {
                Ok(_) => {},
                Err(d) => return Err(d),
            }
            proof {
                lemma_not_last(t, q);
            }
            let end = self.previous().span;
            Ok(
                Statement {
                    kind: StatementKind::Call { target: CallTarget::Function(name), arguments },
                    span: first.merge(end),
                },
            )
        } else {
            let operation = match self.assignment_operator() {
                Ok(op) => op,
                Err(d) => return Err(d),
            };
            proof {
                lemma_not_last(t, c + 1);
            }
            let value = match self.expression() {
                Ok(e) => e,
                Err(d) => return Err(d),
            };
            let ghost q = self.cursor as int;
            match self.expect(TokenKind::Semicolon, "赋值后需要 `;`") {
                Ok(_) => {},
                Err(d) => return Err(d),
            }
            proof {
                lemma_not_last(t, q);
            }
            let end = self.previous().span;
            Ok(Statement { kind: StatementKind::Assign { target: name, operation, value }, span: first.merge(end) })
        }
    }
}


impl Parser {
    /// `each(查询) { … }`
    fn each_statement(&mut self) -> (r: Result<Statement, Diagnostic>)
        requires
            old(self).wf(),
            word_at(old(self).tokens@, old(self).cursor as int, "each"@),
        ensures
            final(self).wf(),
            final(self).tokens@ == old(self).tokens@,
            stmt_outcome(
                r,
                each_spec(old(self).tokens@, old(self).cursor as int, macro_state(&*old(self)).0),
                macro_state(&*old(self)),
                old(self).cursor as int,
                macro_state(&*final(self)),
                final(self).cursor as int,
            ),
        decreases old(self).tokens@.len() - old(self).cursor, 2int,
    {
        let ghost t = self.tokens@;
        let ghost c = self.cursor as int;
        let ghost start = macro_state(&*self);
        let first = self.advance().span;
        proof {
            lemma_not_last(t, c);
        }
        match self.expect(TokenKind::LeftParen, "each 后需要 `(`") {
            Ok(_) => {},
            Err(d) => return Err(d),
        }
        proof {
            lemma_not_last(t, c + 1);
        }
        let (query, _) = match self.ident("实体查询名称") {
            Ok(found) => found,
            Err(d) => return Err(d),
        };
        proof {
            lemma_not_last(t, c + 2);
        }
        match self.expect(TokenKind::RightParen, "查询名称后需要 `)`") {
            Ok(_) => {},
            Err(d) => return Err(d),
        }
        proof {
            lemma_not_last(t, c + 3);
        }
        let ghost tr = block_trace(block_spec(t, c + 4, start.0));
        let (body, end) = match self.block() {
            Ok(found) => found,
            Err(d) => return Err(d),
        };
        proof {
            lemma_after_nothing(start, macro_state(&*self), tr);
        }
        Ok(Statement { kind: StatementKind::Each { query, body }, span: first.merge(end) })
    }

    /// `in_dimension("维度") { … }`
    fn in_dimension_statement(&mut self) -> (r: Result<Statement, Diagnostic>)
        requires
            old(self).wf(),
            word_at(old(self).tokens@, old(self).cursor as int, "in_dimension"@),
        ensures
            final(self).wf(),
            final(self).tokens@ == old(self).tokens@,
            stmt_outcome(
                r,
                in_dimension_spec(old(self).tokens@, old(self).cursor as int, macro_state(&*old(self)).0),
                macro_state(&*old(self)),
                old(self).cursor as int,
                macro_state(&*final(self)),
                final(self).cursor as int,
            ),
        decreases old(self).tokens@.len() - old(self).cursor, 2int,
    {
        let ghost t = self.tokens@;
        let ghost c = self.cursor as int;
        let ghost start = macro_state(&*self);
        let first = self.advance().span;
        proof {
            lemma_not_last(t, c);
        }
        match self.expect(TokenKind::LeftParen, "in_dimension 后需要 `(`") {
            Ok(_) => {},
            Err(d) => return Err(d),
        }
        proof {
            lemma_not_last(t, c + 1);
        }
        let (dimension, _) = match self.string("in_dimension 需要维度资源位置") {
            Ok(found) => found,
            Err(d) => return Err(d),
        };
        proof {
            lemma_not_last(t, c + 2);
        }
        match self.expect(TokenKind::RightParen, "维度资源位置后需要 `)`") {
            Ok(_) => {},
            Err(d) => return Err(d),
        }
        proof {
            lemma_not_last(t, c + 3);
        }
        let ghost tr = block_trace(block_spec(t, c + 4, start.0));
        let (body, end) = match self.block() {
            Ok(found) => found,
            Err(d) => return Err(d),
        };
        proof {
            lemma_after_nothing(start, macro_state(&*self), tr);
        }
        Ok(Statement { kind: StatementKind::InDimension { dimension, body }, span: first.merge(end) })
    }

    /// `execute "子句" { … }`
    fn execute_statement(&mut self) -> (r: Result<Statement, Diagnostic>)
        requires
            old(self).wf(),
            word_at(old(self).tokens@, old(self).cursor as int, "execute"@),
        ensures
            final(self).wf(),
            final(self).tokens@ == old(self).tokens@,
            stmt_outcome(
                r,
                execute_spec(old(self).tokens@, old(self).cursor as int, macro_state(&*old(self)).0),
                macro_state(&*old(self)),
                old(self).cursor as int,
                macro_state(&*final(self)),
                final(self).cursor as int,
            ),
        decreases old(self).tokens@.len() - old(self).cursor, 2int,
    {
        let ghost t = self.tokens@;
        let ghost c = self.cursor as int;
        let ghost start = macro_state(&*self);
        let first = self.advance().span;
        proof {
            lemma_not_last(t, c);
        }
        let (clauses, span) = match self.string("execute 后需要子句字符串") {
            Ok(found) => found,
            Err(d) => return Err(d),
        };
        proof {
            lemma_not_last(t, c + 1);
        }
        if is_bad_clauses(clauses.as_str()) {
            return Err(Diagnostic { message: "execute 字符串应只包含子句，例如 `as @a at @s`".to_owned(), span });
        }
        let ghost tr = block_trace(block_spec(t, c + 2, start.0));
        let (body, end) = match self.block() {
            Ok(found) => found,
            Err(d) => return Err(d),
        };
        proof {
            lemma_after_nothing(start, macro_state(&*self), tr);
        }
        Ok(Statement { kind: StatementKind::Execute { clauses, body }, span: first.merge(end) })
    }

    /// `while 条件 { … }`
    fn while_statement(&mut self) -> (r: Result<Statement, Diagnostic>)
        requires
            old(self).wf(),
            word_at(old(self).tokens@, old(self).cursor as int, "while"@),
        ensures
            final(self).wf(),
            final(self).tokens@ == old(self).tokens@,
            stmt_outcome(
                r,
                while_spec(old(self).tokens@, old(self).cursor as int, macro_state(&*old(self)).0),
                macro_state(&*old(self)),
                old(self).cursor as int,
                macro_state(&*final(self)),
                final(self).cursor as int,
            ),
        decreases old(self).tokens@.len() - old(self).cursor, 2int,
    {
        let ghost t = self.tokens@;
        let ghost c = self.cursor as int;
        let ghost start = macro_state(&*self);
        let first = self.advance().span;
        proof {
            lemma_not_last(t, c);
        }
        let ghost tr = cond_trace(or_spec(t, c + 1, start.0));
        let condition = match self.condition() {
            Ok(x) => x,
            Err(d) => return Err(d),
        };
        let ghost q = self.cursor as int;
        let ghost mid = macro_state(&*self);
        let ghost tr2 = block_trace(block_spec(t, q, start.0));
        let (body, end) = match self.block() {
            Ok(found) => found,
            Err(d) => return Err(d),
        };
        proof {
            lemma_extends_then(start, mid, macro_state(&*self), tr, tr2);
        }
        Ok(Statement { kind: StatementKind::While { condition, body }, span: first.merge(end) })
    }

    /// `if 条件 { … }`, with an optional `else { … }`.
    fn if_statement(&mut self) -> (r: Result<Statement, Diagnostic>)
        requires
            old(self).wf(),
            word_at(old(self).tokens@, old(self).cursor as int, "if"@),
        ensures
            final(self).wf(),
            final(self).tokens@ == old(self).tokens@,
            stmt_outcome(
                r,
                if_spec(old(self).tokens@, old(self).cursor as int, macro_state(&*old(self)).0),
                macro_state(&*old(self)),
                old(self).cursor as int,
                macro_state(&*final(self)),
                final(self).cursor as int,
            ),
        decreases old(self).tokens@.len() - old(self).cursor, 2int,
    {
        let ghost t = self.tokens@;
        let ghost c = self.cursor as int;
        let ghost start = macro_state(&*self);
        let first = self.advance().span;
        proof {
            lemma_not_last(t, c);
        }
        let ghost tr = cond_trace(or_spec(t, c + 1, start.0));
        let condition = match self.condition() {
            Ok(x) => x,
            Err(d) => return Err(d),
        };
        let ghost q = self.cursor as int;
        let ghost mid = macro_state(&*self);
        let ghost tr2 = block_trace(block_spec(t, q, start.0));
        let (body, _) = match self.block() {
            Ok(found) => found,
            Err(d) => return Err(d),
        };
        let ghost q2 = self.cursor as int;
        let ghost mid2 = macro_state(&*self);
        proof {
            lemma_extends_then(start, mid, mid2, tr, tr2);
        }
        let otherwise = if self.take_word("else").is_some() {
            proof {
                lemma_not_last(t, q2);
            }
            let ghost tr3 = block_trace(block_spec(t, q2 + 1, start.0));
            let (other, _) = match self.block() {
                Ok(found) => found,
                Err(d) => return Err(d),
            };
            proof {
                lemma_extends_then(start, mid2, macro_state(&*self), followed_by(tr, tr2), tr3);
            }
            other
        } else {
            Vec::new()
        };
        let end = self.previous().span;
        Ok(Statement { kind: StatementKind::If { condition, body, otherwise }, span: first.merge(end) })
    }

    /// A statement.
    pub fn statement(&mut self) -> (r: Result<Statement, Diagnostic>)
        requires
            old(self).wf(),
        ensures
            final(self).wf(),
            final(self).tokens@ == old(self).tokens@,
            stmt_outcome(
                r,
                statement_spec(old(self).tokens@, old(self).cursor as int, macro_state(&*old(self)).0),
                macro_state(&*old(self)),
                old(self).cursor as int,
                macro_state(&*final(self)),
                final(self).cursor as int,
            ),
        decreases old(self).tokens@.len() - old(self).cursor, 3int,
    {
        if self.at_command_root() {
            return Err(self.unsupported());
        }
        if self.check_word("each") {
            return self.each_statement();
        }
        if self.check_word("give") {
            return self.give_statement();
        }
        if self.check_word("in_dimension") {
            return self.in_dimension_statement();
        }
        if self.check_word("spawn") {
            return Err(self.unsupported());
        }
        if self.check_word("self") {
            return self.self_statement();
        }
        if self.check_word("message") {
            return self.message_statement();
        }
        if self.check_word("sound") {
            return Err(self.unsupported());
        }
        if self.check_word("run") {
            return self.run_statement();
        }
        if self.check_word("call") {
            return self.call_statement();
        }
        if self.check_word("schedule") {
            return self.schedule_statement();
        }
        if self.check_word("if") {
            return self.if_statement();
        }
        if self.check_word("while") {
            return self.while_statement();
        }
        if self.check_word("execute") {
            return self.execute_statement();
        }
        if self.check_word("return") {
            return self.return_statement();
        }
        if self.check_word("let") {
            return self.let_statement();
        }
        if self.at_world_root() {
            return Err(self.unsupported());
        }
        self.word_statement()
    }

    /// A block `{ … }` of statements, with the span of its `}`.
    pub fn block(&mut self) -> (r: Result<(Vec<Statement>, Span), Diagnostic>)
        requires
            old(self).wf(),
        ensures
            final(self).wf(),
            final(self).tokens@ == old(self).tokens@,
            block_outcome(
                r,
                block_spec(old(self).tokens@, old(self).cursor as int, macro_state(&*old(self)).0),
                old(self).tokens@,
                macro_state(&*old(self)),
                old(self).cursor as int,
                macro_state(&*final(self)),
                final(self).cursor as int,
            ),
        decreases old(self).tokens@.len() - old(self).cursor, 5int,
    {
        let ghost t = self.tokens@;
        let ghost c = self.cursor as int;
        let ghost start = macro_state(&*self);
        match self.expect(TokenKind::LeftBrace, "这里需要 `{`") {
            Ok(_) => {},
            Err(d) => return Err(d),
        }
        proof {
            lemma_not_last(t, c);
            lemma_extends_none(start);
        }
        self.block_items(Vec::new(), Ghost(start), Ghost(no_trace()))
    }

    /// The statements of a block after `done`, up to and past its `}`.
    fn block_items(&mut self, done: Vec<Statement>, Ghost(base): Ghost<MacroState>, Ghost(tr): Ghost<Trace>) -> (r: Result<
        (Vec<Statement>, Span),
        Diagnostic,
    >)
        requires
            old(self).wf(),
            extends(macro_state(&*old(self)), base, tr),
        ensures
            final(self).wf(),
            final(self).tokens@ == old(self).tokens@,
            match (r, items_spec(old(self).tokens@, old(self).cursor as int, base.0, stmts_view(done@), tr)) {
                (Ok((v, end)), Ok((w, tr2, q))) => stmts_view(v@) == w && end == old(self).tokens@[q - 1].span
                    && final(self).cursor == q && q > old(self).cursor && extends(macro_state(&*final(self)), base, tr2),
                (Err(d), Err(e)) => diag(d) == e,
                _ => false,
            },
        decreases old(self).tokens@.len() - old(self).cursor, 4int,
    {
        let ghost t = self.tokens@;
        let ghost c = self.cursor as int;
        let ghost before = macro_state(&*self);
        if self.check(&TokenKind::RightBrace) {
            let end = self.advance().span;
            proof {
                lemma_not_last(t, c);
            }
            return Ok((done, end));
        }
        if self.check(&TokenKind::Eof) {
            return Err(Diagnostic { message: "代码块缺少 `}`".to_owned(), span: self.tokens[self.cursor].span });
        }
        let ghost tr2 = stmt_trace(statement_spec(t, c, base.0));
        let s = match self.statement() {
            Ok(x) => x,
            Err(d) => return Err(d),
        };
        proof {
            lemma_extends_then(base, before, macro_state(&*self), tr, tr2);
            lemma_push_stmts(done@, s);
        }
        let mut done = done;
        done.push(s);
        self.block_items(done, Ghost(base), Ghost(followed_by(tr, tr2)))
    }
}


impl Parser {
    /// A delay of at least one tick, for `label`.
    fn delay(&mut self, label: &str) -> (r: Result<String, Diagnostic>)
        requires
            old(self).wf(),
        ensures
            final(self).wf(),
            final(self).tokens@ == old(self).tokens@,
            macro_state(&*final(self)) == macro_state(&*old(self)),
            match (r, delay_spec(old(self).tokens@, old(self).cursor as int, label@)) {
                (Ok(v), Ok((w, after))) => v@ == w && final(self).cursor == after,
                (Err(d), Err(e)) => diag(d) == e,
                _ => false,
            },
    {
        let ghost t = self.tokens@;
        let ghost c = self.cursor as int;
        let negative = self.negative_sign();
        let ghost n = self.cursor as int;
        let token = self.advance();
        let value = match token.kind {
            TokenKind::Number(v) => v,
            TokenKind::Decimal(_) => {
                let mut m = label.to_owned();
                m.append("的小数时间不在本库的语法之内");
                return Err(Diagnostic { message: m, span: token.span });
            },
            _ => {
                let mut m = label.to_owned();
                m.append("需要数字，例如 `1 s` 或 `1");
                m.append(".");
                m.append("5 s`");
                return Err(Diagnostic { message: m, span: token.span });
            },
        };
        proof {
            lemma_not_last(t, n);
        }
        let wide: i128 = if negative {
            -(value as i128)
        } else {
            value as i128
        };
        if !(1 <= wide && wide <= 2147483647) {
            let mut m = label.to_owned();
            m.append("必须是 1 到 2147483647 之间的整数");
            return Err(Diagnostic { message: m, span: token.span });
        }
        let ticks_each = wide as i64;
        if self.take(&TokenKind::Comma).is_some() {
            proof {
                lemma_not_last(t, n + 1);
            }
        }
        let (unit, unit_span) = match self.ident("时间单位 t、s 或 d") {
            Ok(found) => found,
            Err(d) => return Err(d),
        };
        let k = match time_unit(unit.as_str()) {
            Some(k) => k,
            None => return Err(Diagnostic { message: "时间单位只能是 t、s 或 d".to_owned(), span: unit_span }),
        };
        let factor: i64 = if str_eq(k, "t") {
            1
        } else if str_eq(k, "s") {
            20
        } else {
            24000
        };
        if ticks_each * factor > 2147483647 {
            let mut m = label.to_owned();
            m.append("超出 32 位游戏刻范围");
            return Err(Diagnostic { message: m, span: token.span.merge(unit_span) });
        }
        let mut text = signed_text(ticks_each);
        text.append(k);
        Ok(text)
    }

    /// `schedule 函数() after <时间> …;` or `schedule.clear(函数);`
    fn schedule_statement(&mut self) -> (r: Result<Statement, Diagnostic>)
        requires
            old(self).wf(),
            word_at(old(self).tokens@, old(self).cursor as int, "schedule"@),
        ensures
            final(self).wf(),
            final(self).tokens@ == old(self).tokens@,
            stmt_outcome(
                r,
                schedule_spec(old(self).tokens@, old(self).cursor as int),
                macro_state(&*old(self)),
                old(self).cursor as int,
                macro_state(&*final(self)),
                final(self).cursor as int,
            ),
    {
        let ghost t = self.tokens@;
        let ghost c = self.cursor as int;
        let ghost start = macro_state(&*self);
        let first = self.advance().span;
        proof {
            lemma_not_last(t, c);
            lemma_extends_none(start);
        }
        if self.take(&TokenKind::Dot).is_some() {
            proof {
                lemma_not_last(t, c + 1);
            }
            let is_clear = self.check_word("clear");
            let (_, method_span) = match self.ident("schedule 方法") {
                Ok(found) => found,
                Err(d) => return Err(d),
            };
            if !is_clear {
                return Err(
                    Diagnostic {
                        message: "schedule 只支持 `函数() after <时间>` 或 `schedule.clear(函数)`".to_owned(),
                        span: method_span,
                    },
                );
            }
            proof {
                lemma_not_last(t, c + 2);
            }
            match self.expect(TokenKind::LeftParen, "schedule.clear 后需要 `(`") {
                Ok(_) => {},
                Err(d) => return Err(d),
            }
            proof {
                lemma_not_last(t, c + 3);
            }
            let (function, _) = match self.ident("被清除调度的函数名称") {
                Ok(found) => found,
                Err(d) => return Err(d),
            };
            proof {
                lemma_not_last(t, c + 4);
            }
            match self.expect(TokenKind::RightParen, "schedule.clear 缺少 `)`") {
                Ok(_) => {},
                Err(d) => return Err(d),
            }
            proof {
                lemma_not_last(t, c + 5);
            }
            match self.expect(TokenKind::Semicolon, "schedule.clear 后需要 `;`") {
                Ok(_) => {},
                Err(d) => return Err(d),
            }
            proof {
                lemma_not_last(t, c + 6);
            }
            let end = self.previous().span;
            return Ok(Statement { kind: StatementKind::ScheduleClear { function }, span: first.merge(end) });
        }
        let target = match self.call_target("被调度函数名称") {
            Ok(x) => x,
            Err(d) => return Err(d),
        };
        let ghost q = self.cursor as int;
        match self.expect(TokenKind::LeftParen, "函数名称后需要 `(`") {
            Ok(_) => {},
            Err(d) => return Err(d),
        }
        proof {
            lemma_not_last(t, q);
        }
        match self.expect(TokenKind::RightParen, "调度函数暂不支持参数，需要 `)`") {
            Ok(_) => {},
            Err(d) => return Err(d),
        }
        proof {
            lemma_not_last(t, q + 1);
        }
        match self.expect_word("after") {
            Ok(_) => {},
            Err(d) => return Err(d),
        }
        proof {
            lemma_not_last(t, q + 2);
        }
        let delay = match self.delay("调度延迟") {
            Ok(x) => x,
            Err(d) => return Err(d),
        };
        let ghost q2 = self.cursor as int;
        let append = self.check_word("append");
        let mode = if append {
            ScheduleMode::Append
        } else {
            ScheduleMode::Replace
        };
        if append || self.check_word("replace") {
            proof {
                lemma_not_last(t, q2);
            }
            self.advance();
        }
        let ghost q3 = self.cursor as int;
        match self.expect(TokenKind::Semicolon, "调度语句后需要 `;`") {
            Ok(_) => {},
            Err(d) => return Err(d),
        }
        proof {
            lemma_not_last(t, q3);
        }
        let end = self.previous().span;
        Ok(Statement { kind: StatementKind::Schedule { target, delay, mode }, span: first.merge(end) })
    }
}


impl Parser {
    /// What a `give` gives.
    fn give_item(&mut self) -> (r: Result<GiveItem, Diagnostic>)
        requires
            old(self).wf(),
        ensures
            final(self).wf(),
            final(self).tokens@ == old(self).tokens@,
            macro_state(&*final(self)) == macro_state(&*old(self)),
            match (r, give_item_spec(old(self).tokens@, old(self).cursor as int)) {
                (Ok(x), Ok((v, after))) => give_item_view(x) == v && final(self).cursor == after,
                (Err(d), Err(e)) => diag(d) == e,
                _ => false,
            },
    {
        let ghost t = self.tokens@;
        let ghost c = self.cursor as int;
        if self.take_word("self").is_some() {
            proof {
                lemma_not_last(t, c);
            }
            match self.expect(TokenKind::Dot, "self 后需要 `.`") {
                Ok(_) => {},
                Err(d) => return Err(d),
            }
            proof {
                lemma_not_last(t, c + 1);
            }
            let is_item = self.check_word("item");
            let (_, member_span) = match self.ident("self 的物品成员") {
                Ok(found) => found,
                Err(d) => return Err(d),
            };
            if !is_item {
                return Err(
                    Diagnostic { message: "原样给予的写法是 `self.item`（中文 `自身.物品`）".to_owned(), span: member_span },
                );
            }
            proof {
                lemma_not_last(t, c + 2);
            }
            Ok(GiveItem::SelfItem)
        } else {
            let (name, _) = match self.ident("give 需要物品定义名称或 self.item/自身.物品") {
                Ok(found) => found,
                Err(d) => return Err(d),
            };
            proof {
                lemma_not_last(t, c);
            }
            Ok(GiveItem::Definition(name))
        }
    }

    /// `give(目标, 物品[, 数量]);`
    fn give_statement(&mut self) -> (r: Result<Statement, Diagnostic>)
        requires
            old(self).wf(),
            word_at(old(self).tokens@, old(self).cursor as int, "give"@),
        ensures
            final(self).wf(),
            final(self).tokens@ == old(self).tokens@,
            stmt_outcome(
                r,
                give_spec(old(self).tokens@, old(self).cursor as int),
                macro_state(&*old(self)),
                old(self).cursor as int,
                macro_state(&*final(self)),
                final(self).cursor as int,
            ),
    {
        let ghost t = self.tokens@;
        let ghost c = self.cursor as int;
        let ghost start = macro_state(&*self);
        let first = self.advance().span;
        proof {
            lemma_not_last(t, c);
            lemma_extends_none(start);
        }
        match self.expect(TokenKind::LeftParen, "give 后需要 `(`") {
            Ok(_) => {},
            Err(d) => return Err(d),
        }
        proof {
            lemma_not_last(t, c + 1);
        }
        let target = if self.take_word("origin").is_some() {
            GiveTarget::Origin
        } else {
            let (name, _) = match self.ident("give 需要玩家查询名称或 origin/投掷者") {
                Ok(found) => found,
                Err(d) => return Err(d),
            };
            GiveTarget::Query(name)
        };
        proof {
            lemma_not_last(t, c + 2);
        }
        match self.expect(TokenKind::Comma, "give 目标后需要 `,`") {
            Ok(_) => {},
            Err(d) => return Err(d),
        }
        proof {
            lemma_not_last(t, c + 3);
        }
        let item = match self.give_item() {
            Ok(x) => x,
            Err(d) => return Err(d),
        };
        let ghost q = self.cursor as int;
        let (count, count_span) = if self.take(&TokenKind::Comma).is_some() {
            proof {
                lemma_not_last(t, q);
            }
            match self.unsigned_with_span("give 数量") {
                Ok((n, span)) => {
                    proof {
                        lemma_not_last(t, q + 1);
                    }
                    (Some(n), Some(span))
                },
                Err(d) => return Err(d),
            }
        } else {
            (None, None)
        };
        let ghost q2 = self.cursor as int;
        match self.expect(TokenKind::RightParen, "give 调用缺少 `)`") {
            Ok(_) => {},
            Err(d) => return Err(d),
        }
        proof {
            lemma_not_last(t, q2);
        }
        match self.expect(TokenKind::Semicolon, "give 调用后需要 `;`") {
            Ok(_) => {},
            Err(d) => return Err(d),
        }
        proof {
            lemma_not_last(t, q2 + 1);
        }
        let end = self.previous().span;
        Ok(Statement { kind: StatementKind::Give { target, item, count, count_span }, span: first.merge(end) })
    }
}


impl Parser {
    /// The target of a message, from `(`'s position less one.
    fn message_head(&mut self, kind: &str) -> (r: Result<MessageTarget, Diagnostic>)
        requires
            old(self).wf(),
            old(self).cursor >= 4,
        ensures
            final(self).wf(),
            final(self).tokens@ == old(self).tokens@,
            macro_state(&*final(self)) == macro_state(&*old(self)),
            match (r, message_head_spec(old(self).tokens@, old(self).cursor - 4, kind@)) {
                (Ok(x), Ok((v, after))) => message_target_view(x) == v && final(self).cursor == after,
                (Err(d), Err(e)) => diag(d) == e,
                _ => false,
            },
    {
        let ghost t = self.tokens@;
        let ghost p = self.cursor as int;
        if str_eq(kind, "all") {
            Ok(MessageTarget::All)
        } else if str_eq(kind, "self") {
            Ok(MessageTarget::SelfEntity)
        } else if str_eq(kind, "nearest") {
            let within = match self.unsigned("message.nearest 范围") {
                Ok(n) => n,
                Err(d) => return Err(d),
            };
            proof {
                lemma_not_last(t, p);
            }
            match self.expect(TokenKind::Comma, "范围后需要 `,`") {
                Ok(_) => {},
                Err(d) => return Err(d),
            }
            proof {
                lemma_not_last(t, p + 1);
            }
            Ok(MessageTarget::Nearest { within })
        } else {
            let (name, name_span) = match self.ident("message.player 需要实体查询名称") {
                Ok(found) => found,
                Err(d) => return Err(d),
            };
            proof {
                lemma_not_last(t, p);
            }
            match self.expect(TokenKind::Comma, "查询后需要 `,`") {
                Ok(_) => {},
                Err(d) => return Err(d),
            }
            proof {
                lemma_not_last(t, p + 1);
            }
            Ok(MessageTarget::Query { name, name_span })
        }
    }

    /// The content of a message, with an optional trailing colour.
    fn message_content(&mut self) -> (r: Result<TextComponent, Diagnostic>)
        requires
            old(self).wf(),
        ensures
            final(self).wf(),
            final(self).tokens@ == old(self).tokens@,
            match (r, message_content_spec(old(self).tokens@, old(self).cursor as int, macro_state(&*old(self)).0)) {
                (Ok(x), Ok((v, tr, after))) => component_view(x) == v && final(self).cursor == after && after > old(
                    self,
                ).cursor && extends(macro_state(&*final(self)), macro_state(&*old(self)), tr),
                (Err(d), Err(e)) => diag(d) == e,
                _ => false,
            },
    {
        let ghost t = self.tokens@;
        let component = match self.text_component_or_string("消息内容") {
            Ok(x) => x,
            Err(d) => return Err(d),
        };
        let ghost q = self.cursor as int;
        if self.take(&TokenKind::Comma).is_none() {
            return Ok(component);
        }
        proof {
            lemma_not_last(t, q);
        }
        let (color, color_span) = match self.ident("消息颜色") {
            Ok(found) => found,
            Err(d) => return Err(d),
        };
        proof {
            lemma_not_last(t, q + 1);
        }
        let plain = match &component.kind {
            TextComponentKind::Text(_) => true,
            _ => false,
        };
        if !plain {
            return Err(
                Diagnostic {
                    message: "结构化文本组件请在样式块里写 color，例如 text(\"你好\") { color = \"red\"; }".to_owned(),
                    span: color_span,
                },
            );
        }
        let named = match text_color(color.as_str()) {
            Some(n) => n.to_owned(),
            None => color,
        };
        let mut component = component;
        component.style.color = Some(named);
        Ok(component)
    }

    /// `message.<目标>(…);`
    #[verifier::rlimit(40)]
    fn message_statement(&mut self) -> (r: Result<Statement, Diagnostic>)
        requires
            old(self).wf(),
            word_at(old(self).tokens@, old(self).cursor as int, "message"@),
        ensures
            final(self).wf(),
            final(self).tokens@ == old(self).tokens@,
            stmt_outcome(
                r,
                message_spec(old(self).tokens@, old(self).cursor as int, macro_state(&*old(self)).0),
                macro_state(&*old(self)),
                old(self).cursor as int,
                macro_state(&*final(self)),
                final(self).cursor as int,
            ),
    {
        let ghost t = self.tokens@;
        let ghost c = self.cursor as int;
        let first = self.advance().span;
        proof {
            lemma_not_last(t, c);
        }
        match self.expect(TokenKind::Dot, "message 后需要 `.`") {
            Ok(_) => {},
            Err(d) => return Err(d),
        }
        proof {
            lemma_not_last(t, c + 1);
        }
        let (method, method_span) = match self.ident("消息目标") {
            Ok(found) => found,
            Err(d) => return Err(d),
        };
        proof {
            lemma_not_last(t, c + 2);
        }
        let kind = match message_target(method.as_str()) {
            Some(k) => k,
            None => {
                return Err(
                    Diagnostic { message: "消息目标只能是 all、self、nearest 或 player".to_owned(), span: method_span },
                )
            },
        };
        match self.expect(TokenKind::LeftParen, "消息目标后需要 `(`") {
            Ok(_) => {},
            Err(d) => return Err(d),
        }
        proof {
            lemma_not_last(t, c + 3);
        }
        let target = match self.message_head(kind) {
            Ok(x) => x,
            Err(d) => return Err(d),
        };
        let component = match self.message_content() {
            Ok(x) => x,
            Err(d) => return Err(d),
        };
        let ghost q = self.cursor as int;
        match self.expect(TokenKind::RightParen, "消息调用缺少 `)`") {
            Ok(_) => {},
            Err(d) => return Err(d),
        }
        proof {
            lemma_not_last(t, q);
        }
        match self.expect(TokenKind::Semicolon, "消息调用后需要 `;`") {
            Ok(_) => {},
            Err(d) => return Err(d),
        }
        proof {
            lemma_not_last(t, q + 1);
        }
        let end = self.previous().span;
        Ok(Statement { kind: StatementKind::Message { target, component }, span: first.merge(end) })
    }
}


impl Parser {
    /// The arguments of the self method `kind`, after its `(`.
    #[verifier::rlimit(40)]
    fn self_body(&mut self, kind: &str) -> (r: Result<SelfAction, Diagnostic>)
        requires
            old(self).wf(),
        ensures
            final(self).wf(),
            final(self).tokens@ == old(self).tokens@,
            macro_state(&*final(self)) == macro_state(&*old(self)),
            match (r, self_body_spec(old(self).tokens@, old(self).cursor as int, kind@)) {
                (Ok(x), Ok((v, after))) => self_action_view(x) == v && final(self).cursor == after,
                (Err(d), Err(e)) => diag(d) == e,
                _ => false,
            },
    {
        let ghost t = self.tokens@;
        let ghost p = self.cursor as int;
        if str_eq(kind, "add_tag") || str_eq(kind, "remove_tag") {
            let (v, _) = match self.string("标签需要字符串") {
                Ok(found) => found,
                Err(d) => return Err(d),
            };
            proof {
                lemma_not_last(t, p);
            }
            if str_eq(kind, "add_tag") {
                Ok(SelfAction::AddTag(v))
            } else {
                Ok(SelfAction::RemoveTag(v))
            }
        } else if str_eq(kind, "set_invulnerable") || str_eq(kind, "set_no_gravity") {
            let (v, vs) = match self.ident("true 或 false") {
                Ok(found) => found,
                Err(d) => return Err(d),
            };
            proof {
                lemma_not_last(t, p);
            }
            let b = match boolean_word(v.as_str()) {
                Some(w) => str_eq(w, "true"),
                None => return Err(Diagnostic { message: "这里需要 true 或 false".to_owned(), span: vs }),
            };
            if str_eq(kind, "set_invulnerable") {
                Ok(SelfAction::SetInvulnerable(b))
            } else {
                Ok(SelfAction::SetNoGravity(b))
            }
        } else if str_eq(kind, "save_items") || str_eq(kind, "restore_items") {
            let (v, _) = match self.ident("物品存储名称") {
                Ok(found) => found,
                Err(d) => return Err(d),
            };
            proof {
                lemma_not_last(t, p);
            }
            if str_eq(kind, "save_items") {
                Ok(SelfAction::SaveItems(v))
            } else {
                Ok(SelfAction::RestoreItems(v))
            }
        } else if str_eq(kind, "remove_preserving_items") {
            let (reference, reference_span) = match self.ident("物品存储名称或数据槽名称") {
                Ok(found) => found,
                Err(d) => return Err(d),
            };
            proof {
                lemma_not_last(t, p);
            }
            if self.take(&TokenKind::Comma).is_some() {
                proof {
                    lemma_not_last(t, p + 1);
                }
                let (query, query_span) = match self.ident("实体查询名称") {
                    Ok(found) => found,
                    Err(d) => return Err(d),
                };
                proof {
                    lemma_not_last(t, p + 2);
                }
                Ok(SelfAction::RemovePreservingSlot { slot: reference, slot_span: reference_span, query, query_span })
            } else {
                Ok(SelfAction::RemovePreservingItems(reference))
            }
        } else if str_eq(kind, "give_item") {
            let (item, _) = match self.ident("物品定义名称") {
                Ok(found) => found,
                Err(d) => return Err(d),
            };
            proof {
                lemma_not_last(t, p);
            }
            if self.take(&TokenKind::Comma).is_some() {
                proof {
                    lemma_not_last(t, p + 1);
                }
                let (n, span) = match self.unsigned_with_span("给予物品数量") {
                    Ok(found) => found,
                    Err(d) => return Err(d),
                };
                proof {
                    lemma_not_last(t, p + 2);
                }
                Ok(SelfAction::GiveItem { item, count: Some(n), count_span: Some(span) })
            } else {
                Ok(SelfAction::GiveItem { item, count: None, count_span: None })
            }
        } else if str_eq(kind, "deposit") || str_eq(kind, "withdraw") {
            let (slot, slot_span) = match self.ident("数据槽名称") {
                Ok(found) => found,
                Err(d) => return Err(d),
            };
            proof {
                lemma_not_last(t, p);
            }
            match self.expect(TokenKind::Comma, "数据槽后需要 `,`") {
                Ok(_) => {},
                Err(d) => return Err(d),
            }
            proof {
                lemma_not_last(t, p + 1);
            }
            let (query, query_span) = match self.ident("实体查询名称") {
                Ok(found) => found,
                Err(d) => return Err(d),
            };
            proof {
                lemma_not_last(t, p + 2);
            }
            if str_eq(kind, "deposit") {
                Ok(SelfAction::DataStore { slot, slot_span, query, query_span })
            } else {
                Ok(SelfAction::DataLoad { slot, slot_span, query, query_span })
            }
        } else if str_eq(kind, "remove_data") {
            let (slot, slot_span) = match self.ident("数据槽名称") {
                Ok(found) => found,
                Err(d) => return Err(d),
            };
            proof {
                lemma_not_last(t, p);
            }
            Ok(SelfAction::DataClear { slot, slot_span })
        } else if str_eq(kind, "clear_items") {
            Ok(SelfAction::ClearItems)
        } else {
            Ok(SelfAction::Remove)
        }
    }

    /// `self.<方法>(…);`
    #[verifier::rlimit(40)]
    fn self_statement(&mut self) -> (r: Result<Statement, Diagnostic>)
        requires
            old(self).wf(),
            word_at(old(self).tokens@, old(self).cursor as int, "self"@),
        ensures
            final(self).wf(),
            final(self).tokens@ == old(self).tokens@,
            stmt_outcome(
                r,
                self_spec(old(self).tokens@, old(self).cursor as int),
                macro_state(&*old(self)),
                old(self).cursor as int,
                macro_state(&*final(self)),
                final(self).cursor as int,
            ),
    {
        let ghost t = self.tokens@;
        let ghost c = self.cursor as int;
        let ghost start = macro_state(&*self);
        let first = self.advance().span;
        proof {
            lemma_not_last(t, c);
            lemma_extends_none(start);
        }
        match self.expect(TokenKind::Dot, "self 后需要 `.`") {
            Ok(_) => {},
            Err(d) => return Err(d),
        }
        proof {
            lemma_not_last(t, c + 1);
        }
        let is_nbt = self.check_word("nbt");
        let (method, method_span) = match self.ident("self 方法名称") {
            Ok(found) => found,
            Err(d) => return Err(d),
        };
        proof {
            lemma_not_last(t, c + 2);
        }
        if is_nbt {
            return Err(
                Diagnostic {
                    message: "实体 NBT 合并直接写成 `nbt { ... }`（中文 `数据 { ... }`），不需要 self 前缀".to_owned(),
                    span: method_span,
                },
            );
        }
        let kind = match self_method(method.as_str()) {
            Some(k) => k,
            None => {
                let mut m = "未知 self 方法 `".to_owned();
                m.append(method.as_str());
                m.append("`");
                return Err(Diagnostic { message: m, span: method_span });
            },
        };
        match self.expect(TokenKind::LeftParen, "self 方法后需要 `(`") {
            Ok(_) => {},
            Err(d) => return Err(d),
        }
        proof {
            lemma_not_last(t, c + 3);
        }
        let action = match self.self_body(kind) {
            Ok(x) => x,
            Err(d) => return Err(d),
        };
        let ghost q = self.cursor as int;
        match self.expect(TokenKind::RightParen, "self 方法缺少 `)`") {
            Ok(_) => {},
            Err(d) => return Err(d),
        }
        proof {
            lemma_not_last(t, q);
        }
        match self.expect(TokenKind::Semicolon, "self 方法调用后需要 `;`") {
            Ok(_) => {},
            Err(d) => return Err(d),
        }
        proof {
            lemma_not_last(t, q + 1);
        }
        let end = self.previous().span;
        Ok(Statement { kind: StatementKind::SelfAction(action), span: first.merge(end) })
    }
}

} // verus!
