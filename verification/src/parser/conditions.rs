//! Boolean conditions: `||` over `&&` over `!`, the condition calls
//! (`predicate`, `block`, `blocks`, `biome`, `loaded`, `dimension`,
//! `entity`, `data`, `slots`, `function`, `stopwatch`), condition groups in
//! parentheses, and comparisons of arithmetic expressions.

use vstd::prelude::*;
use crate::chars::str_eq;
use super::cursor::{
    macro_state, Parser, Token, TokenKind, Span, Diagnostic, diag, kind_at, word_at, ident_at, merged, stream_ok,
    lemma_not_last, MacroType,
};
use super::numbers::resource_path_spec;
use super::arguments::group_scan;
use super::positions::{BlockPosition, position_view, block_position_spec};
use super::expressions::{Expr, ExprNode, NbtSource, NbtSourceView, source_view, node_view, nbt_source_spec_at, string_at};
use super::arithmetic::additive_spec;
use super::condition_parts::{
    BlockStateValue, block_state_view, block_state_spec, CallTarget, call_target_view, call_target_spec,
    ItemConditionSource, ItemSourceView, item_source_view, item_source_spec,
};
use super::components::{
    Trace, MacroState, no_trace, followed_by, extends, moved, stuck, lemma_extends_none, lemma_extends_then,
};

verus! {

broadcast use vstd::string::group_string_axioms;

/// A comparison operator.
#[derive(Clone, Copy, PartialEq, Eq, Structural, Debug)]
pub enum Comparison {
    Equal,
    NotEqual,
    Less,
    LessEqual,
    Greater,
    GreaterEqual,
}

/// A condition.
pub enum Condition {
    Or(Box<Condition>, Box<Condition>),
    And(Box<Condition>, Box<Condition>),
    Not(Box<Condition>),
    Predicate { name: String, span: Span },
    Block { pos: BlockPosition, block: BlockStateValue, span: Span },
    Blocks { start: BlockPosition, end: BlockPosition, destination: BlockPosition, masked: bool, span: Span },
    Biome { pos: BlockPosition, biome: String, biome_span: Span, span: Span },
    Loaded { pos: BlockPosition, span: Span },
    Dimension { dimension: String, dimension_span: Span, span: Span },
    Entity { query: String, query_span: Span, span: Span },
    Data { source: NbtSource, path: String, path_span: Span, span: Span },
    Slots { source: ItemConditionSource, slots: String, slots_span: Span, span: Span },
    Function { target: CallTarget, span: Span },
    Stopwatch { id: String, span: Span },
    Compare { left: Box<Expr>, comparison: Comparison, right: Box<Expr> },
}

pub type PositionView = ((int, Seq<char>), (int, Seq<char>), (int, Seq<char>), Span);

pub type BlockStateView = (Seq<char>, Seq<(Seq<char>, Seq<char>, Span)>, Span);

/// A condition as the contracts speak of it.
pub enum CondView {
    Or(Box<CondView>, Box<CondView>),
    And(Box<CondView>, Box<CondView>),
    Not(Box<CondView>),
    Predicate(Seq<char>, Span),
    Block(PositionView, BlockStateView, Span),
    Blocks(PositionView, PositionView, PositionView, bool, Span),
    Biome(PositionView, Seq<char>, Span, Span),
    Loaded(PositionView, Span),
    Dimension(Seq<char>, Span, Span),
    Entity(Seq<char>, Span, Span),
    Data(NbtSourceView, Seq<char>, Span, Span),
    Slots(ItemSourceView, Seq<char>, Span, Span),
    Function((bool, Seq<char>), Span),
    Stopwatch(Seq<char>, Span),
    Compare(ExprNode, Comparison, ExprNode),
}

pub open spec fn cond_view(c: Condition) -> CondView
    decreases c,
{
    match c {
        Condition::Or(a, b) => CondView::Or(Box::new(cond_view(*a)), Box::new(cond_view(*b))),
        Condition::And(a, b) => CondView::And(Box::new(cond_view(*a)), Box::new(cond_view(*b))),
        Condition::Not(a) => CondView::Not(Box::new(cond_view(*a))),
        Condition::Predicate { name, span } => CondView::Predicate(name@, span),
        Condition::Block { pos, block, span } => CondView::Block(position_view(pos), block_state_view(block), span),
        Condition::Blocks { start, end, destination, masked, span } => CondView::Blocks(
            position_view(start),
            position_view(end),
            position_view(destination),
            masked,
            span,
        ),
        Condition::Biome { pos, biome, biome_span, span } => CondView::Biome(position_view(pos), biome@, biome_span, span),
        Condition::Loaded { pos, span } => CondView::Loaded(position_view(pos), span),
        Condition::Dimension { dimension, dimension_span, span } => CondView::Dimension(dimension@, dimension_span, span),
        Condition::Entity { query, query_span, span } => CondView::Entity(query@, query_span, span),
        Condition::Data { source, path, path_span, span } => CondView::Data(source_view(source), path@, path_span, span),
        Condition::Slots { source, slots, slots_span, span } => CondView::Slots(
            item_source_view(source),
            slots@,
            slots_span,
            span,
        ),
        Condition::Function { target, span } => CondView::Function(call_target_view(target), span),
        Condition::Stopwatch { id, span } => CondView::Stopwatch(id@, span),
        Condition::Compare { left, comparison, right } => CondView::Compare(node_view(*left), comparison, node_view(*right)),
    }
}

/// A condition result: the condition, what it records of macro
/// parameters, and the position after it.
pub type CondResult = Result<(CondView, Trace, int), (Seq<char>, Span)>;

/// The word `w` at `c` with a `(` right after it: a condition call.
pub open spec fn word_call(t: Seq<Token>, c: int, w: Seq<char>) -> bool {
    word_at(t, c, w) && c + 1 < t.len() && t[c + 1].kind is LeftParen
}

/// The comparison operator a token kind stands for.
pub open spec fn comparison_of(k: TokenKind) -> Option<Comparison> {
    match k {
        TokenKind::EqualEqual => Some(Comparison::Equal),
        TokenKind::BangEqual => Some(Comparison::NotEqual),
        TokenKind::Less => Some(Comparison::Less),
        TokenKind::LessEqual => Some(Comparison::LessEqual),
        TokenKind::Greater => Some(Comparison::Greater),
        TokenKind::GreaterEqual => Some(Comparison::GreaterEqual),
        _ => None,
    }
}

/// `predicate(资源)` at `c`.
pub open spec fn predicate_cond_spec(t: Seq<Token>, c: int) -> CondResult {
    if !kind_at(t, c + 1, TokenKind::LeftParen) {
        Err(("predicate 后需要 `(`"@, t[c + 1].span))
    } else {
        match resource_path_spec(t, c + 2, "predicate 资源名称"@) {
            Err(e) => Err(e),
            Ok((name, _)) => if !kind_at(t, c + 3, TokenKind::RightParen) {
                Err(("predicate 资源名称后需要 `)`"@, t[c + 3].span))
            } else {
                Ok((CondView::Predicate(name, merged(t[c].span, t[c + 3].span)), no_trace(), c + 4))
            },
        }
    }
}

/// `block(pos(…), block_state(…))` at `c`.
pub open spec fn block_cond_spec(t: Seq<Token>, c: int, params: Seq<(Seq<char>, MacroType)>) -> CondResult {
    if !kind_at(t, c + 1, TokenKind::LeftParen) {
        Err(("block 条件后需要 `(`"@, t[c + 1].span))
    } else {
        match block_position_spec(t, c + 2, "if block 坐标"@, params) {
            Err(e) => Err(e),
            Ok((pos, used, recorded, q)) => if !kind_at(t, q, TokenKind::Comma) {
                Err(("if block 坐标后需要 `,`"@, t[q].span))
            } else {
                match block_state_spec(t, q + 1, "if block 方块谓词"@) {
                    Err(e) => Err(e),
                    Ok((block, q2)) => if !kind_at(t, q2, TokenKind::RightParen) {
                        Err(("block 条件缺少 `)`"@, t[q2].span))
                    } else {
                        Ok((CondView::Block(pos, block, merged(t[c].span, t[q2].span)), (used, recorded), q2 + 1))
                    },
                }
            },
        }
    }
}

/// The optional `, all|masked` of `blocks` at `c`: the flag and the
/// position after it.
pub open spec fn masked_spec(t: Seq<Token>, c: int) -> Result<(bool, int), (Seq<char>, Span)> {
    if !kind_at(t, c, TokenKind::Comma) {
        Ok((false, c))
    } else {
        match ident_at(t, c + 1, "if blocks 模式 all 或 masked"@) {
            Err(e) => Err(e),
            Ok((mode, mode_span)) => if mode == "masked"@ || mode == "遮罩"@ {
                Ok((true, c + 2))
            } else if mode == "all"@ || mode == "全部"@ {
                Ok((false, c + 2))
            } else {
                Err(("if blocks 模式只能是 all 或 masked，实际为 `"@ + mode + "`"@, mode_span))
            },
        }
    }
}

/// `blocks(起点, 终点, 目标[, all|masked])` at `c`.
pub open spec fn blocks_cond_spec(t: Seq<Token>, c: int, params: Seq<(Seq<char>, MacroType)>) -> CondResult {
    if !kind_at(t, c + 1, TokenKind::LeftParen) {
        Err(("blocks 条件后需要 `(`"@, t[c + 1].span))
    } else {
        match block_position_spec(t, c + 2, "if blocks 起点"@, params) {
            Err(e) => Err(e),
            Ok((first, u1, r1, q1)) => if !kind_at(t, q1, TokenKind::Comma) {
                Err(("if blocks 起点后需要 `,`"@, t[q1].span))
            } else {
                match block_position_spec(t, q1 + 1, "if blocks 终点"@, params) {
                    Err(e) => Err(e),
                    Ok((second, u2, r2, q2)) => if !kind_at(t, q2, TokenKind::Comma) {
                        Err(("if blocks 终点后需要 `,`"@, t[q2].span))
                    } else {
                        match block_position_spec(t, q2 + 1, "if blocks 目标位置"@, params) {
                            Err(e) => Err(e),
                            Ok((destination, u3, r3, q3)) => match masked_spec(t, q3) {
                                Err(e) => Err(e),
                                Ok((masked, q4)) => if !kind_at(t, q4, TokenKind::RightParen) {
                                    Err(("blocks 条件缺少 `)`"@, t[q4].span))
                                } else {
                                    Ok(
                                        (
                                            CondView::Blocks(
                                                first,
                                                second,
                                                destination,
                                                masked,
                                                merged(t[c].span, t[q4].span),
                                            ),
                                            followed_by(followed_by((u1, r1), (u2, r2)), (u3, r3)),
                                            q4 + 1,
                                        ),
                                    )
                                },
                            },
                        }
                    },
                }
            },
        }
    }
}

/// `biome(pos(…), "生物群系")` at `c`.
pub open spec fn biome_cond_spec(t: Seq<Token>, c: int, params: Seq<(Seq<char>, MacroType)>) -> CondResult {
    if !kind_at(t, c + 1, TokenKind::LeftParen) {
        Err(("biome 条件后需要 `(`"@, t[c + 1].span))
    } else {
        match block_position_spec(t, c + 2, "if biome 坐标"@, params) {
            Err(e) => Err(e),
            Ok((pos, used, recorded, q)) => if !kind_at(t, q, TokenKind::Comma) {
                Err(("if biome 坐标后需要 `,`"@, t[q].span))
            } else {
                match string_at(t, q + 1, "if biome 需要生物群系或 #标签字符串"@) {
                    Err(e) => Err(e),
                    Ok((biome, biome_span)) => if !kind_at(t, q + 2, TokenKind::RightParen) {
                        Err(("biome 条件缺少 `)`"@, t[q + 2].span))
                    } else {
                        Ok(
                            (
                                CondView::Biome(pos, biome, biome_span, merged(t[c].span, t[q + 2].span)),
                                (used, recorded),
                                q + 3,
                            ),
                        )
                    },
                }
            },
        }
    }
}

/// `loaded(pos(…))` at `c`.
pub open spec fn loaded_cond_spec(t: Seq<Token>, c: int, params: Seq<(Seq<char>, MacroType)>) -> CondResult {
    if !kind_at(t, c + 1, TokenKind::LeftParen) {
        Err(("loaded 条件后需要 `(`"@, t[c + 1].span))
    } else {
        match block_position_spec(t, c + 2, "if loaded 坐标"@, params) {
            Err(e) => Err(e),
            Ok((pos, used, recorded, q)) => if !kind_at(t, q, TokenKind::RightParen) {
                Err(("loaded 条件缺少 `)`"@, t[q].span))
            } else {
                Ok((CondView::Loaded(pos, merged(t[c].span, t[q].span)), (used, recorded), q + 1))
            },
        }
    }
}

/// `dimension("维度")` at `c`.
pub open spec fn dimension_cond_spec(t: Seq<Token>, c: int) -> CondResult {
    if !kind_at(t, c + 1, TokenKind::LeftParen) {
        Err(("dimension 条件后需要 `(`"@, t[c + 1].span))
    } else {
        match string_at(t, c + 2, "if dimension 需要维度资源位置字符串"@) {
            Err(e) => Err(e),
            Ok((d, ds)) => if !kind_at(t, c + 3, TokenKind::RightParen) {
                Err(("dimension 条件缺少 `)`"@, t[c + 3].span))
            } else {
                Ok((CondView::Dimension(d, ds, merged(t[c].span, t[c + 3].span)), no_trace(), c + 4))
            },
        }
    }
}

/// `entity(查询)` at `c`.
pub open spec fn entity_cond_spec(t: Seq<Token>, c: int) -> CondResult {
    if !kind_at(t, c + 1, TokenKind::LeftParen) {
        Err(("entity 条件后需要 `(`"@, t[c + 1].span))
    } else {
        match ident_at(t, c + 2, "if entity 需要实体查询名称"@) {
            Err(e) => Err(e),
            Ok((q, qs)) => if !kind_at(t, c + 3, TokenKind::RightParen) {
                Err(("entity 条件缺少 `)`"@, t[c + 3].span))
            } else {
                Ok((CondView::Entity(q, qs, merged(t[c].span, t[c + 3].span)), no_trace(), c + 4))
            },
        }
    }
}

/// `data(来源, "路径")` at `c`.
pub open spec fn data_cond_spec(t: Seq<Token>, c: int, params: Seq<(Seq<char>, MacroType)>) -> CondResult {
    if !kind_at(t, c + 1, TokenKind::LeftParen) {
        Err(("data 条件后需要 `(`"@, t[c + 1].span))
    } else {
        match nbt_source_spec_at(t, c + 2, "if data 来源"@, params) {
            Err(e) => Err(e),
            Ok((source, used, recorded, q)) => if !kind_at(t, q, TokenKind::Comma) {
                Err(("if data 来源后需要 `,`"@, t[q].span))
            } else {
                match string_at(t, q + 1, "if data 需要 NBT 路径字符串"@) {
                    Err(e) => Err(e),
                    Ok((path, path_span)) => if !kind_at(t, q + 2, TokenKind::RightParen) {
                        Err(("data 条件缺少 `)`"@, t[q + 2].span))
                    } else {
                        Ok(
                            (
                                CondView::Data(source, path, path_span, merged(t[c].span, t[q + 2].span)),
                                (used, recorded),
                                q + 3,
                            ),
                        )
                    },
                }
            },
        }
    }
}

/// `slots(来源, "槽位")` at `c`.
pub open spec fn slots_cond_spec(t: Seq<Token>, c: int, params: Seq<(Seq<char>, MacroType)>) -> CondResult {
    if !kind_at(t, c + 1, TokenKind::LeftParen) {
        Err(("slots 条件后需要 `(`"@, t[c + 1].span))
    } else {
        match item_source_spec(t, c + 2, "if slots 来源"@, params) {
            Err(e) => Err(e),
            Ok((source, tr, q)) => if !kind_at(t, q, TokenKind::Comma) {
                Err(("物品条件来源后需要 `,`"@, t[q].span))
            } else {
                match string_at(t, q + 1, "if slots 需要槽位字符串"@) {
                    Err(e) => Err(e),
                    Ok((slots, slots_span)) => if !kind_at(t, q + 2, TokenKind::RightParen) {
                        Err(("slots 条件缺少 `)`"@, t[q + 2].span))
                    } else {
                        Ok((CondView::Slots(source, slots, slots_span, merged(t[c].span, t[q + 2].span)), tr, q + 3))
                    },
                }
            },
        }
    }
}

/// `function(名称或 #标签)` at `c`.
pub open spec fn function_cond_spec(t: Seq<Token>, c: int) -> CondResult {
    if !kind_at(t, c + 1, TokenKind::LeftParen) {
        Err(("function 条件后需要 `(`"@, t[c + 1].span))
    } else {
        match call_target_spec(t, c + 2, "if function 函数名称或 #标签"@) {
            Err(e) => Err(e),
            Ok((target, q)) => if !kind_at(t, q, TokenKind::RightParen) {
                Err(("function 条件缺少 `)`"@, t[q].span))
            } else {
                Ok((CondView::Function(target, merged(t[c].span, t[q].span)), no_trace(), q + 1))
            },
        }
    }
}

/// `stopwatch("秒表")` at `c`.
pub open spec fn stopwatch_cond_spec(t: Seq<Token>, c: int) -> CondResult {
    if !kind_at(t, c + 1, TokenKind::LeftParen) {
        Err(("stopwatch 条件后需要 `(`"@, t[c + 1].span))
    } else {
        match string_at(t, c + 2, "if stopwatch 需要秒表资源位置字符串"@) {
            Err(e) => Err(e),
            Ok((id, _)) => if !kind_at(t, c + 3, TokenKind::RightParen) {
                Err(("stopwatch 条件缺少 `)`"@, t[c + 3].span))
            } else {
                Ok((CondView::Stopwatch(id, merged(t[c].span, t[c + 3].span)), no_trace(), c + 4))
            },
        }
    }
}

/// A comparison of two expressions at `c`.
pub open spec fn comparison_spec(t: Seq<Token>, c: int, params: Seq<(Seq<char>, MacroType)>) -> CondResult {
    match additive_spec(t, c, params) {
        Err(e) => Err(e),
        Ok((left, tr, q)) => match comparison_of(t[q].kind) {
            None => Err(("条件需要 ==、!=、<、<=、> 或 >="@, t[q].span)),
            Some(cmp) => match additive_spec(t, q + 1, params) {
                Err(e) => Err(e),
                Ok((right, tr2, q2)) => Ok((CondView::Compare(left, cmp, right), followed_by(tr, tr2), q2)),
            },
        },
    }
}

/// The message for an `items(…)` condition, which this parser does not
/// read.
pub open spec fn items_unsupported() -> Seq<char> {
    "不支持 items 条件：物品谓词不在本库的语法之内"@
}

/// A negation, a condition call, a group or a comparison at `c`.
pub open spec fn not_spec(t: Seq<Token>, c: int, params: Seq<(Seq<char>, MacroType)>) -> CondResult
    decreases t.len() - c, 1int,
{
    if !stream_ok(t, c) {
        Err(stuck())
    } else if kind_at(t, c, TokenKind::Bang) {
        match not_spec(t, c + 1, params) {
            Err(e) => Err(e),
            Ok((v, tr, q)) => Ok((CondView::Not(Box::new(v)), tr, q)),
        }
    } else if word_at(t, c, "predicate"@) {
        predicate_cond_spec(t, c)
    } else if word_call(t, c, "block"@) {
        block_cond_spec(t, c, params)
    } else if word_call(t, c, "blocks"@) {
        blocks_cond_spec(t, c, params)
    } else if word_call(t, c, "biome"@) {
        biome_cond_spec(t, c, params)
    } else if word_call(t, c, "loaded"@) {
        loaded_cond_spec(t, c, params)
    } else if word_call(t, c, "dimension"@) {
        dimension_cond_spec(t, c)
    } else if word_call(t, c, "entity"@) {
        entity_cond_spec(t, c)
    } else if word_call(t, c, "data"@) {
        data_cond_spec(t, c, params)
    } else if word_call(t, c, "items"@) {
        Err((items_unsupported(), t[c].span))
    } else if word_call(t, c, "slots"@) {
        slots_cond_spec(t, c, params)
    } else if word_call(t, c, "function"@) {
        function_cond_spec(t, c)
    } else if word_call(t, c, "stopwatch"@) {
        stopwatch_cond_spec(t, c)
    } else if kind_at(t, c, TokenKind::LeftParen) && group_scan(t, c, 0) {
        match or_spec(t, c + 1, params) {
            Err(e) => Err(e),
            Ok((v, tr, q)) => if !moved(t, c, q) {
                Err(stuck())
            } else if !kind_at(t, q, TokenKind::RightParen) {
                Err(("条件分组缺少 `)`"@, t[q].span))
            } else {
                Ok((v, tr, q + 1))
            },
        }
    } else {
        comparison_spec(t, c, params)
    }
}

/// A conjunction at `c`.
pub open spec fn and_spec(t: Seq<Token>, c: int, params: Seq<(Seq<char>, MacroType)>) -> CondResult
    decreases t.len() - c, 2int,
{
    if !stream_ok(t, c) {
        Err(stuck())
    } else {
        match not_spec(t, c, params) {
            Err(e) => Err(e),
            Ok((v, tr, q)) => if !moved(t, c, q) {
                Err(stuck())
            } else {
                and_rest_spec(t, q, params, v, tr)
            },
        }
    }
}

/// The `&& …` that follow `left` from `c` on.
pub open spec fn and_rest_spec(t: Seq<Token>, c: int, params: Seq<(Seq<char>, MacroType)>, left: CondView, tr: Trace) -> CondResult
    decreases t.len() - c, 0int,
{
    if !stream_ok(t, c) {
        Err(stuck())
    } else if !kind_at(t, c, TokenKind::AndAnd) {
        Ok((left, tr, c))
    } else {
        match not_spec(t, c + 1, params) {
            Err(e) => Err(e),
            Ok((right, tr2, q)) => if !moved(t, c, q) {
                Err(stuck())
            } else {
                and_rest_spec(t, q, params, CondView::And(Box::new(left), Box::new(right)), followed_by(tr, tr2))
            },
        }
    }
}

/// A condition at `c`: a disjunction of conjunctions.
pub open spec fn or_spec(t: Seq<Token>, c: int, params: Seq<(Seq<char>, MacroType)>) -> CondResult
    decreases t.len() - c, 3int,
{
    if !stream_ok(t, c) {
        Err(stuck())
    } else {
        match and_spec(t, c, params) {
            Err(e) => Err(e),
            Ok((v, tr, q)) => if !moved(t, c, q) {
                Err(stuck())
            } else {
                or_rest_spec(t, q, params, v, tr)
            },
        }
    }
}

/// The `|| …` that follow `left` from `c` on.
pub open spec fn or_rest_spec(t: Seq<Token>, c: int, params: Seq<(Seq<char>, MacroType)>, left: CondView, tr: Trace) -> CondResult
    decreases t.len() - c, 0int,
{
    if !stream_ok(t, c) {
        Err(stuck())
    } else if !kind_at(t, c, TokenKind::OrOr) {
        Ok((left, tr, c))
    } else {
        match and_spec(t, c + 1, params) {
            Err(e) => Err(e),
            Ok((right, tr2, q)) => if !moved(t, c, q) {
                Err(stuck())
            } else {
                or_rest_spec(t, q, params, CondView::Or(Box::new(left), Box::new(right)), followed_by(tr, tr2))
            },
        }
    }
}


/// `r` is the outcome that `s` describes, for a parser that went from
/// `before` (at `start`) to `after` (at `cursor`).
pub open spec fn cond_outcome(r: Result<Condition, Diagnostic>, s: CondResult, before: MacroState, start: int, after: MacroState, cursor: int) -> bool {
    match (r, s) {
        (Ok(x), Ok((v, tr, q))) => cond_view(x) == v && cursor == q && q > start && extends(after, before, tr),
        (Err(d), Err(e)) => diag(d) == e,
        _ => false,
    }
}

pub open spec fn position_trace(
    r: Result<(PositionView, Seq<(Seq<char>, Span)>, Seq<(Seq<char>, super::cursor::MacroCoordinateKind)>, int), (Seq<char>, Span)>,
) -> Trace {
    match r {
        Ok((_, used, recorded, _)) => (used, recorded),
        Err(_) => no_trace(),
    }
}

pub open spec fn cond_trace(r: CondResult) -> Trace {
    match r {
        Ok((_, tr, _)) => tr,
        Err(_) => no_trace(),
    }
}


impl Parser {
    fn predicate_condition(&mut self) -> (r: Result<Condition, Diagnostic>)
        requires
            old(self).wf(),
            !(old(self).tokens@[old(self).cursor as int].kind is Eof),
        ensures
            final(self).wf(),
            final(self).tokens@ == old(self).tokens@,
            cond_outcome(r, predicate_cond_spec(old(self).tokens@, old(self).cursor as int), macro_state(&*old(self)), old(self).cursor as int, macro_state(&*final(self)), final(self).cursor as int),
    {
        let ghost t = self.tokens@;
        let ghost c = self.cursor as int;
        proof {
            lemma_extends_none(macro_state(&*self));
        }
        let start = self.advance().span;
        proof {
            lemma_not_last(t, c);
        }
        match self.expect(TokenKind::LeftParen, "predicate 后需要 `(`") {
            Ok(_) => {},
            Err(d) => return Err(d),
        }
        proof {
            lemma_not_last(t, c + 1);
        }
        let (name, _) = match self.resource_path("predicate 资源名称") {
            Ok(found) => found,
            Err(d) => return Err(d),
        };
        proof {
            lemma_not_last(t, c + 2);
        }
        let end = match self.expect(TokenKind::RightParen, "predicate 资源名称后需要 `)`") {
            Ok(token) => token.span,
            Err(d) => return Err(d),
        };
        proof {
            lemma_not_last(t, c + 3);
        }
        Ok(Condition::Predicate { name, span: start.merge(end) })
    }

    fn block_condition(&mut self) -> (r: Result<Condition, Diagnostic>)
        requires
            old(self).wf(),
            !(old(self).tokens@[old(self).cursor as int].kind is Eof),
        ensures
            final(self).wf(),
            final(self).tokens@ == old(self).tokens@,
            cond_outcome(r, block_cond_spec(old(self).tokens@, old(self).cursor as int, macro_state(&*old(self)).0), macro_state(&*old(self)), old(self).cursor as int, macro_state(&*final(self)), final(self).cursor as int),
    {
        let ghost t = self.tokens@;
        let ghost c = self.cursor as int;
        let start = self.advance().span;
        proof {
            lemma_not_last(t, c);
        }
        match self.expect(TokenKind::LeftParen, "block 条件后需要 `(`") {
            Ok(_) => {},
            Err(d) => return Err(d),
        }
        proof {
            lemma_not_last(t, c + 1);
        }
        let pos = match self.block_position("if block 坐标") {
            Ok(p) => p,
            Err(d) => return Err(d),
        };
        let ghost q = self.cursor as int;
        match self.expect(TokenKind::Comma, "if block 坐标后需要 `,`") {
            Ok(_) => {},
            Err(d) => return Err(d),
        }
        proof {
            lemma_not_last(t, q);
        }
        let block = match self.block_state_value("if block 方块谓词") {
            Ok(b) => b,
            Err(d) => return Err(d),
        };
        let ghost q2 = self.cursor as int;
        let end = match self.expect(TokenKind::RightParen, "block 条件缺少 `)`") {
            Ok(token) => token.span,
            Err(d) => return Err(d),
        };
        proof {
            lemma_not_last(t, q2);
        }
        Ok(Condition::Block { pos, block, span: start.merge(end) })
    }

    #[verifier::rlimit(60)]
    fn blocks_condition(&mut self) -> (r: Result<Condition, Diagnostic>)
        requires
            old(self).wf(),
            !(old(self).tokens@[old(self).cursor as int].kind is Eof),
        ensures
            final(self).wf(),
            final(self).tokens@ == old(self).tokens@,
            cond_outcome(r, blocks_cond_spec(old(self).tokens@, old(self).cursor as int, macro_state(&*old(self)).0), macro_state(&*old(self)), old(self).cursor as int, macro_state(&*final(self)), final(self).cursor as int),
    {
        let ghost t = self.tokens@;
        let ghost c = self.cursor as int;
        let ghost m0 = macro_state(&*self);
        let ghost params = m0.0;
        let start = self.advance().span;
        proof {
            lemma_not_last(t, c);
        }
        match self.expect(TokenKind::LeftParen, "blocks 条件后需要 `(`") {
            Ok(_) => {},
            Err(d) => return Err(d),
        }
        proof {
            lemma_not_last(t, c + 1);
        }
        let ghost tr1 = position_trace(block_position_spec(t, c + 2, "if blocks 起点"@, params));
        let first = match self.block_position("if blocks 起点") {
            Ok(p) => p,
            Err(d) => return Err(d),
        };
        let ghost m1 = macro_state(&*self);
        let ghost q1 = self.cursor as int;
        match self.expect(TokenKind::Comma, "if blocks 起点后需要 `,`") {
            Ok(_) => {},
            Err(d) => return Err(d),
        }
        proof {
            lemma_not_last(t, q1);
        }
        let ghost tr2 = position_trace(block_position_spec(t, q1 + 1, "if blocks 终点"@, params));
        let second = match self.block_position("if blocks 终点") {
            Ok(p) => p,
            Err(d) => return Err(d),
        };
        let ghost m2 = macro_state(&*self);
        let ghost q2 = self.cursor as int;
        match self.expect(TokenKind::Comma, "if blocks 终点后需要 `,`") {
            Ok(_) => {},
            Err(d) => return Err(d),
        }
        proof {
            lemma_not_last(t, q2);
        }
        let ghost tr3 = position_trace(block_position_spec(t, q2 + 1, "if blocks 目标位置"@, params));
        let destination = match self.block_position("if blocks 目标位置") {
            Ok(p) => p,
            Err(d) => return Err(d),
        };
        proof {
            lemma_extends_then(m0, m1, m2, tr1, tr2);
            lemma_extends_then(m0, m2, macro_state(&*self), followed_by(tr1, tr2), tr3);
        }
        let ghost q3 = self.cursor as int;
        let masked = if self.take(&TokenKind::Comma).is_some() {
            proof {
                lemma_not_last(t, q3);
            }
            let (mode, mode_span) = match self.ident("if blocks 模式 all 或 masked") {
                Ok(found) => found,
                Err(d) => return Err(d),
            };
            proof {
                lemma_not_last(t, q3 + 1);
            }
            if str_eq(mode.as_str(), "masked") || str_eq(mode.as_str(), "遮罩") {
                true
            } else if str_eq(mode.as_str(), "all") || str_eq(mode.as_str(), "全部") {
                false
            } else {
                let mut m = "if blocks 模式只能是 all 或 masked，实际为 `".to_owned();
                m.append(mode.as_str());
                m.append("`");
                return Err(Diagnostic { message: m, span: mode_span });
            }
        } else {
            false
        };
        let ghost q4 = self.cursor as int;
        let end = match self.expect(TokenKind::RightParen, "blocks 条件缺少 `)`") {
            Ok(token) => token.span,
            Err(d) => return Err(d),
        };
        proof {
            lemma_not_last(t, q4);
        }
        Ok(Condition::Blocks { start: first, end: second, destination, masked, span: start.merge(end) })
    }

    fn biome_condition(&mut self) -> (r: Result<Condition, Diagnostic>)
        requires
            old(self).wf(),
            !(old(self).tokens@[old(self).cursor as int].kind is Eof),
        ensures
            final(self).wf(),
            final(self).tokens@ == old(self).tokens@,
            cond_outcome(r, biome_cond_spec(old(self).tokens@, old(self).cursor as int, macro_state(&*old(self)).0), macro_state(&*old(self)), old(self).cursor as int, macro_state(&*final(self)), final(self).cursor as int),
    {
        let ghost t = self.tokens@;
        let ghost c = self.cursor as int;
        let start = self.advance().span;
        proof {
            lemma_not_last(t, c);
        }
        match self.expect(TokenKind::LeftParen, "biome 条件后需要 `(`") {
            Ok(_) => {},
            Err(d) => return Err(d),
        }
        proof {
            lemma_not_last(t, c + 1);
        }
        let pos = match self.block_position("if biome 坐标") {
            Ok(p) => p,
            Err(d) => return Err(d),
        };
        let ghost q = self.cursor as int;
        match self.expect(TokenKind::Comma, "if biome 坐标后需要 `,`") {
            Ok(_) => {},
            Err(d) => return Err(d),
        }
        proof {
            lemma_not_last(t, q);
        }
        let (biome, biome_span) = match self.string("if biome 需要生物群系或 #标签字符串") {
            Ok(found) => found,
            Err(d) => return Err(d),
        };
        proof {
            lemma_not_last(t, q + 1);
        }
        let end = match self.expect(TokenKind::RightParen, "biome 条件缺少 `)`") {
            Ok(token) => token.span,
            Err(d) => return Err(d),
        };
        proof {
            lemma_not_last(t, q + 2);
        }
        Ok(Condition::Biome { pos, biome, biome_span, span: start.merge(end) })
    }

    fn loaded_condition(&mut self) -> (r: Result<Condition, Diagnostic>)
        requires
            old(self).wf(),
            !(old(self).tokens@[old(self).cursor as int].kind is Eof),
        ensures
            final(self).wf(),
            final(self).tokens@ == old(self).tokens@,
            cond_outcome(r, loaded_cond_spec(old(self).tokens@, old(self).cursor as int, macro_state(&*old(self)).0), macro_state(&*old(self)), old(self).cursor as int, macro_state(&*final(self)), final(self).cursor as int),
    {
        let ghost t = self.tokens@;
        let ghost c = self.cursor as int;
        let start = self.advance().span;
        proof {
            lemma_not_last(t, c);
        }
        match self.expect(TokenKind::LeftParen, "loaded 条件后需要 `(`") {
            Ok(_) => {},
            Err(d) => return Err(d),
        }
        proof {
            lemma_not_last(t, c + 1);
        }
        let pos = match self.block_position("if loaded 坐标") {
            Ok(p) => p,
            Err(d) => return Err(d),
        };
        let ghost q = self.cursor as int;
        let end = match self.expect(TokenKind::RightParen, "loaded 条件缺少 `)`") {
            Ok(token) => token.span,
            Err(d) => return Err(d),
        };
        proof {
            lemma_not_last(t, q);
        }
        Ok(Condition::Loaded { pos, span: start.merge(end) })
    }

    fn dimension_condition(&mut self) -> (r: Result<Condition, Diagnostic>)
        requires
            old(self).wf(),
            !(old(self).tokens@[old(self).cursor as int].kind is Eof),
        ensures
            final(self).wf(),
            final(self).tokens@ == old(self).tokens@,
            cond_outcome(r, dimension_cond_spec(old(self).tokens@, old(self).cursor as int), macro_state(&*old(self)), old(self).cursor as int, macro_state(&*final(self)), final(self).cursor as int),
    {
        let ghost t = self.tokens@;
        let ghost c = self.cursor as int;
        proof {
            lemma_extends_none(macro_state(&*self));
        }
        let start = self.advance().span;
        proof {
            lemma_not_last(t, c);
        }
        match self.expect(TokenKind::LeftParen, "dimension 条件后需要 `(`") {
            Ok(_) => {},
            Err(d) => return Err(d),
        }
        proof {
            lemma_not_last(t, c + 1);
        }
        let (dimension, dimension_span) = match self.string("if dimension 需要维度资源位置字符串") {
            Ok(found) => found,
            Err(d) => return Err(d),
        };
        proof {
            lemma_not_last(t, c + 2);
        }
        let end = match self.expect(TokenKind::RightParen, "dimension 条件缺少 `)`") {
            Ok(token) => token.span,
            Err(d) => return Err(d),
        };
        proof {
            lemma_not_last(t, c + 3);
        }
        Ok(Condition::Dimension { dimension, dimension_span, span: start.merge(end) })
    }

    fn entity_condition(&mut self) -> (r: Result<Condition, Diagnostic>)
        requires
            old(self).wf(),
            !(old(self).tokens@[old(self).cursor as int].kind is Eof),
        ensures
            final(self).wf(),
            final(self).tokens@ == old(self).tokens@,
            cond_outcome(r, entity_cond_spec(old(self).tokens@, old(self).cursor as int), macro_state(&*old(self)), old(self).cursor as int, macro_state(&*final(self)), final(self).cursor as int),
    {
        let ghost t = self.tokens@;
        let ghost c = self.cursor as int;
        proof {
            lemma_extends_none(macro_state(&*self));
        }
        let start = self.advance().span;
        proof {
            lemma_not_last(t, c);
        }
        match self.expect(TokenKind::LeftParen, "entity 条件后需要 `(`") {
            Ok(_) => {},
            Err(d) => return Err(d),
        }
        proof {
            lemma_not_last(t, c + 1);
        }
        let (query, query_span) = match self.ident("if entity 需要实体查询名称") {
            Ok(found) => found,
            Err(d) => return Err(d),
        };
        proof {
            lemma_not_last(t, c + 2);
        }
        let end = match self.expect(TokenKind::RightParen, "entity 条件缺少 `)`") {
            Ok(token) => token.span,
            Err(d) => return Err(d),
        };
        proof {
            lemma_not_last(t, c + 3);
        }
        Ok(Condition::Entity { query, query_span, span: start.merge(end) })
    }

    fn data_condition(&mut self) -> (r: Result<Condition, Diagnostic>)
        requires
            old(self).wf(),
            !(old(self).tokens@[old(self).cursor as int].kind is Eof),
        ensures
            final(self).wf(),
            final(self).tokens@ == old(self).tokens@,
            cond_outcome(r, data_cond_spec(old(self).tokens@, old(self).cursor as int, macro_state(&*old(self)).0), macro_state(&*old(self)), old(self).cursor as int, macro_state(&*final(self)), final(self).cursor as int),
    {
        let ghost t = self.tokens@;
        let ghost c = self.cursor as int;
        let start = self.advance().span;
        proof {
            lemma_not_last(t, c);
        }
        match self.expect(TokenKind::LeftParen, "data 条件后需要 `(`") {
            Ok(_) => {},
            Err(d) => return Err(d),
        }
        proof {
            lemma_not_last(t, c + 1);
        }
        let source = match self.nbt_source_value("if data 来源") {
            Ok(s) => s,
            Err(d) => return Err(d),
        };
        let ghost q = self.cursor as int;
        match self.expect(TokenKind::Comma, "if data 来源后需要 `,`") {
            Ok(_) => {},
            Err(d) => return Err(d),
        }
        proof {
            lemma_not_last(t, q);
        }
        let (path, path_span) = match self.string("if data 需要 NBT 路径字符串") {
            Ok(found) => found,
            Err(d) => return Err(d),
        };
        proof {
            lemma_not_last(t, q + 1);
        }
        let end = match self.expect(TokenKind::RightParen, "data 条件缺少 `)`") {
            Ok(token) => token.span,
            Err(d) => return Err(d),
        };
        proof {
            lemma_not_last(t, q + 2);
        }
        Ok(Condition::Data { source, path, path_span, span: start.merge(end) })
    }

    fn slots_condition(&mut self) -> (r: Result<Condition, Diagnostic>)
        requires
            old(self).wf(),
            !(old(self).tokens@[old(self).cursor as int].kind is Eof),
        ensures
            final(self).wf(),
            final(self).tokens@ == old(self).tokens@,
            cond_outcome(r, slots_cond_spec(old(self).tokens@, old(self).cursor as int, macro_state(&*old(self)).0), macro_state(&*old(self)), old(self).cursor as int, macro_state(&*final(self)), final(self).cursor as int),
    {
        let ghost t = self.tokens@;
        let ghost c = self.cursor as int;
        let start = self.advance().span;
        proof {
            lemma_not_last(t, c);
        }
        match self.expect(TokenKind::LeftParen, "slots 条件后需要 `(`") {
            Ok(_) => {},
            Err(d) => return Err(d),
        }
        proof {
            lemma_not_last(t, c + 1);
        }
        let source = match self.item_condition_source("if slots 来源") {
            Ok(s) => s,
            Err(d) => return Err(d),
        };
        let ghost q = self.cursor as int;
        match self.expect(TokenKind::Comma, "物品条件来源后需要 `,`") {
            Ok(_) => {},
            Err(d) => return Err(d),
        }
        proof {
            lemma_not_last(t, q);
        }
        let (slots, slots_span) = match self.string("if slots 需要槽位字符串") {
            Ok(found) => found,
            Err(d) => return Err(d),
        };
        proof {
            lemma_not_last(t, q + 1);
        }
        let end = match self.expect(TokenKind::RightParen, "slots 条件缺少 `)`") {
            Ok(token) => token.span,
            Err(d) => return Err(d),
        };
        proof {
            lemma_not_last(t, q + 2);
        }
        Ok(Condition::Slots { source, slots, slots_span, span: start.merge(end) })
    }

    fn function_condition(&mut self) -> (r: Result<Condition, Diagnostic>)
        requires
            old(self).wf(),
            !(old(self).tokens@[old(self).cursor as int].kind is Eof),
        ensures
            final(self).wf(),
            final(self).tokens@ == old(self).tokens@,
            cond_outcome(r, function_cond_spec(old(self).tokens@, old(self).cursor as int), macro_state(&*old(self)), old(self).cursor as int, macro_state(&*final(self)), final(self).cursor as int),
    {
        let ghost t = self.tokens@;
        let ghost c = self.cursor as int;
        proof {
            lemma_extends_none(macro_state(&*self));
        }
        let start = self.advance().span;
        proof {
            lemma_not_last(t, c);
        }
        match self.expect(TokenKind::LeftParen, "function 条件后需要 `(`") {
            Ok(_) => {},
            Err(d) => return Err(d),
        }
        proof {
            lemma_not_last(t, c + 1);
        }
        let target = match self.call_target("if function 函数名称或 #标签") {
            Ok(x) => x,
            Err(d) => return Err(d),
        };
        let ghost q = self.cursor as int;
        let end = match self.expect(TokenKind::RightParen, "function 条件缺少 `)`") {
            Ok(token) => token.span,
            Err(d) => return Err(d),
        };
        proof {
            lemma_not_last(t, q);
        }
        Ok(Condition::Function { target, span: start.merge(end) })
    }

    fn stopwatch_condition(&mut self) -> (r: Result<Condition, Diagnostic>)
        requires
            old(self).wf(),
            !(old(self).tokens@[old(self).cursor as int].kind is Eof),
        ensures
            final(self).wf(),
            final(self).tokens@ == old(self).tokens@,
            cond_outcome(r, stopwatch_cond_spec(old(self).tokens@, old(self).cursor as int), macro_state(&*old(self)), old(self).cursor as int, macro_state(&*final(self)), final(self).cursor as int),
    {
        let ghost t = self.tokens@;
        let ghost c = self.cursor as int;
        proof {
            lemma_extends_none(macro_state(&*self));
        }
        let start = self.advance().span;
        proof {
            lemma_not_last(t, c);
        }
        match self.expect(TokenKind::LeftParen, "stopwatch 条件后需要 `(`") {
            Ok(_) => {},
            Err(d) => return Err(d),
        }
        proof {
            lemma_not_last(t, c + 1);
        }
        let (id, _) = match self.string("if stopwatch 需要秒表资源位置字符串") {
            Ok(found) => found,
            Err(d) => return Err(d),
        };
        proof {
            lemma_not_last(t, c + 2);
        }
        let end = match self.expect(TokenKind::RightParen, "stopwatch 条件缺少 `)`") {
            Ok(token) => token.span,
            Err(d) => return Err(d),
        };
        proof {
            lemma_not_last(t, c + 3);
        }
        Ok(Condition::Stopwatch { id, span: start.merge(end) })
    }

    fn comparison_condition(&mut self) -> (r: Result<Condition, Diagnostic>)
        requires
            old(self).wf(),
        ensures
            final(self).wf(),
            final(self).tokens@ == old(self).tokens@,
            cond_outcome(r, comparison_spec(old(self).tokens@, old(self).cursor as int, macro_state(&*old(self)).0), macro_state(&*old(self)), old(self).cursor as int, macro_state(&*final(self)), final(self).cursor as int),
    {
        let ghost t = self.tokens@;
        let ghost c = self.cursor as int;
        let ghost m0 = macro_state(&*self);
        let ghost tr1 = super::arithmetic::expr_trace(additive_spec(t, c, m0.0));
        let left = match self.expression() {
            Ok(e) => e,
            Err(d) => return Err(d),
        };
        let ghost m1 = macro_state(&*self);
        let ghost q = self.cursor as int;
        let token = self.advance();
        let comparison = match token.kind {
            TokenKind::EqualEqual => Comparison::Equal,
            TokenKind::BangEqual => Comparison::NotEqual,
            TokenKind::Less => Comparison::Less,
            TokenKind::LessEqual => Comparison::LessEqual,
            TokenKind::Greater => Comparison::Greater,
            TokenKind::GreaterEqual => Comparison::GreaterEqual,
            _ => {
                return Err(Diagnostic { message: "条件需要 ==、!=、<、<=、> 或 >=".to_owned(), span: token.span });
            },
        };
        proof {
            lemma_not_last(t, q);
        }
        let ghost tr2 = super::arithmetic::expr_trace(additive_spec(t, q + 1, m0.0));
        let right = match self.expression() {
            Ok(e) => e,
            Err(d) => return Err(d),
        };
        proof {
            lemma_extends_then(m0, m1, macro_state(&*self), tr1, tr2);
        }
        Ok(Condition::Compare { left: Box::new(left), comparison, right: Box::new(right) })
    }

    /// A negation, a condition call, a condition group or a comparison.
    /// An `items(…)` condition is answered with a diagnostic: item
    /// predicates are not part of the grammar this library reads.
    pub fn condition_not(&mut self) -> (r: Result<Condition, Diagnostic>)
        requires
            old(self).wf(),
        ensures
            final(self).wf(),
            final(self).tokens@ == old(self).tokens@,
            cond_outcome(r, not_spec(old(self).tokens@, old(self).cursor as int, macro_state(&*old(self)).0), macro_state(&*old(self)), old(self).cursor as int, macro_state(&*final(self)), final(self).cursor as int),
        decreases old(self).tokens@.len() - old(self).cursor, 1int,
    {
        let ghost t = self.tokens@;
        let ghost c = self.cursor as int;
        if self.take(&TokenKind::Bang).is_some() {
            proof {
                lemma_not_last(t, c);
            }
            return match self.condition_not() {
                Ok(x) => Ok(Condition::Not(Box::new(x))),
                Err(d) => Err(d),
            };
        }
        if self.check_word("predicate") {
            return self.predicate_condition();
        }
        if self.at_condition_call("block") {
            return self.block_condition();
        }
        if self.at_condition_call("blocks") {
            return self.blocks_condition();
        }
        if self.at_condition_call("biome") {
            return self.biome_condition();
        }
        if self.at_condition_call("loaded") {
            return self.loaded_condition();
        }
        if self.at_condition_call("dimension") {
            return self.dimension_condition();
        }
        if self.at_condition_call("entity") {
            return self.entity_condition();
        }
        if self.at_condition_call("data") {
            return self.data_condition();
        }
        if self.at_condition_call("items") {
            return Err(
                Diagnostic {
                    message: "不支持 items 条件：物品谓词不在本库的语法之内".to_owned(),
                    span: self.tokens[self.cursor].span,
                },
            );
        }
        if self.at_condition_call("slots") {
            return self.slots_condition();
        }
        if self.at_condition_call("function") {
            return self.function_condition();
        }
        if self.at_condition_call("stopwatch") {
            return self.stopwatch_condition();
        }
        if self.condition_group_starts() {
            proof {
                lemma_not_last(t, c);
            }
            self.advance();
            let ghost m0 = macro_state(&*self);
            let v = match self.condition() {
                Ok(x) => x,
                Err(d) => return Err(d),
            };
            let ghost q = self.cursor as int;
            match self.expect(TokenKind::RightParen, "条件分组缺少 `)`") {
                Ok(_) => {},
                Err(d) => return Err(d),
            }
            proof {
                lemma_not_last(t, q);
            }
            return Ok(v);
        }
        self.comparison_condition()
    }

    /// The word `word` with a `(` right after it.
    fn at_condition_call(&self, word: &str) -> (r: bool)
        requires
            self.wf(),
        ensures
            r == word_call(self.tokens@, self.cursor as int, word@),
    {
        if self.check_word(word) {
            let next = self.peek_kind(1);
            if let TokenKind::LeftParen = next.kind {
                return true;
            }
        }
        false
    }

    fn condition_and(&mut self) -> (r: Result<Condition, Diagnostic>)
        requires
            old(self).wf(),
        ensures
            final(self).wf(),
            final(self).tokens@ == old(self).tokens@,
            cond_outcome(r, and_spec(old(self).tokens@, old(self).cursor as int, macro_state(&*old(self)).0), macro_state(&*old(self)), old(self).cursor as int, macro_state(&*final(self)), final(self).cursor as int),
        decreases old(self).tokens@.len() - old(self).cursor, 2int,
    {
        let ghost start = macro_state(&*self);
        let ghost c = self.cursor as int;
        let ghost tr = cond_trace(not_spec(self.tokens@, c, start.0));
        let left = match self.condition_not() {
            Ok(x) => x,
            Err(d) => return Err(d),
        };
        self.condition_and_rest(left, Ghost(start), Ghost(tr))
    }

    fn condition_and_rest(&mut self, left: Condition, Ghost(base): Ghost<MacroState>, Ghost(tr): Ghost<Trace>) -> (r: Result<
        Condition,
        Diagnostic,
    >)
        requires
            old(self).wf(),
            extends(macro_state(&*old(self)), base, tr),
        ensures
            final(self).wf(),
            final(self).tokens@ == old(self).tokens@,
            match (r, and_rest_spec(old(self).tokens@, old(self).cursor as int, base.0, cond_view(left), tr)) {
                (Ok(x), Ok((v, tr2, q))) => cond_view(x) == v && final(self).cursor == q && q >= old(self).cursor
                    && extends(macro_state(&*final(self)), base, tr2),
                (Err(d), Err(e)) => diag(d) == e,
                _ => false,
            },
        decreases old(self).tokens@.len() - old(self).cursor, 0int,
    {
        let ghost t = self.tokens@;
        let ghost c = self.cursor as int;
        if self.take(&TokenKind::AndAnd).is_none() {
            return Ok(left);
        }
        proof {
            lemma_not_last(t, c);
        }
        let ghost before = macro_state(&*self);
        let ghost tr2 = cond_trace(not_spec(t, c + 1, base.0));
        let right = match self.condition_not() {
            Ok(x) => x,
            Err(d) => return Err(d),
        };
        proof {
            lemma_extends_then(base, before, macro_state(&*self), tr, tr2);
        }
        self.condition_and_rest(Condition::And(Box::new(left), Box::new(right)), Ghost(base), Ghost(followed_by(tr, tr2)))
    }

    /// A condition: `||` over `&&` over `!`.
    pub fn condition(&mut self) -> (r: Result<Condition, Diagnostic>)
        requires
            old(self).wf(),
        ensures
            final(self).wf(),
            final(self).tokens@ == old(self).tokens@,
            cond_outcome(r, or_spec(old(self).tokens@, old(self).cursor as int, macro_state(&*old(self)).0), macro_state(&*old(self)), old(self).cursor as int, macro_state(&*final(self)), final(self).cursor as int),
        decreases old(self).tokens@.len() - old(self).cursor, 3int,
    {
        let ghost start = macro_state(&*self);
        let ghost c = self.cursor as int;
        let ghost tr = cond_trace(and_spec(self.tokens@, c, start.0));
        let left = match self.condition_and() {
            Ok(x) => x,
            Err(d) => return Err(d),
        };
        self.condition_or_rest(left, Ghost(start), Ghost(tr))
    }

    fn condition_or_rest(&mut self, left: Condition, Ghost(base): Ghost<MacroState>, Ghost(tr): Ghost<Trace>) -> (r: Result<
        Condition,
        Diagnostic,
    >)
        requires
            old(self).wf(),
            extends(macro_state(&*old(self)), base, tr),
        ensures
            final(self).wf(),
            final(self).tokens@ == old(self).tokens@,
            match (r, or_rest_spec(old(self).tokens@, old(self).cursor as int, base.0, cond_view(left), tr)) {
                (Ok(x), Ok((v, tr2, q))) => cond_view(x) == v && final(self).cursor == q && q >= old(self).cursor
                    && extends(macro_state(&*final(self)), base, tr2),
                (Err(d), Err(e)) => diag(d) == e,
                _ => false,
            },
        decreases old(self).tokens@.len() - old(self).cursor, 0int,
    {
        let ghost t = self.tokens@;
        let ghost c = self.cursor as int;
        if self.take(&TokenKind::OrOr).is_none() {
            return Ok(left);
        }
        proof {
            lemma_not_last(t, c);
        }
        let ghost before = macro_state(&*self);
        let ghost tr2 = cond_trace(and_spec(t, c + 1, base.0));
        let right = match self.condition_and() {
            Ok(x) => x,
            Err(d) => return Err(d),
        };
        proof {
            lemma_extends_then(base, before, macro_state(&*self), tr, tr2);
        }
        self.condition_or_rest(Condition::Or(Box::new(left), Box::new(right)), Ghost(base), Ghost(followed_by(tr, tr2)))
    }
}

} // verus!
