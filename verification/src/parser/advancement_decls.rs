//! Advancement declarations: `advancement 名称 { parent = …; criterion 名称
//! { trigger = …; conditions = "…"; } requirements = any; reward { … }
//! display { … } }`.

use vstd::prelude::*;
use crate::chars::str_eq;
use crate::parser::keywords::values::{
    AdvancementRequirements, advancement_property, advancement_property_spec, criterion_property,
    criterion_property_spec, reward_property, reward_property_spec, advancement_requirements,
    advancement_requirements_spec,
};
use super::cursor::{
    macro_state, Parser, Token, TokenKind, Span, Diagnostic, diag, advanced, kind_at, word_at, ident_at, merged,
    stream_ok, lemma_not_last, expected_word_message,
};
use super::numbers::{signed_spec, after_minus};
use super::expressions::string_at;
use super::components::{moved, stuck};
use super::advancements::{AdvancementDisplay, DisplayView, advancement_display_spec, display_matches};

verus! {

broadcast use vstd::string::group_string_axioms;

/// A reference to a declaration of this namespace (a word) or to an
/// outside resource (a string).
pub struct AdvancementReference {
    pub name: String,
    pub span: Span,
    pub external: bool,
}

/// A criterion: its name, trigger, optional JSON conditions and spans.
pub struct AdvancementCriterion {
    pub name: String,
    pub name_span: Span,
    pub trigger: String,
    pub trigger_span: Span,
    pub conditions: Option<String>,
    pub conditions_span: Option<Span>,
    pub span: Span,
}

/// The reward of an advancement.
pub struct AdvancementReward {
    pub function: Option<AdvancementReference>,
    pub experience: Option<i32>,
    pub loot: Vec<AdvancementReference>,
    pub recipes: Vec<AdvancementReference>,
}

/// An advancement declaration.
pub struct AdvancementDecl {
    pub exported: bool,
    pub name: String,
    pub name_span: Span,
    pub parent: Option<AdvancementReference>,
    pub criteria: Vec<AdvancementCriterion>,
    pub requirements: AdvancementRequirements,
    pub reward: Option<AdvancementReward>,
    pub display: Option<AdvancementDisplay>,
    pub span: Span,
}

pub type ReferenceView = (Seq<char>, Span, bool);

pub struct CriterionView {
    pub name: Seq<char>,
    pub name_span: Span,
    pub trigger: Seq<char>,
    pub trigger_span: Span,
    pub conditions: Option<(Seq<char>, Span)>,
    pub span: Span,
}

pub struct RewardView {
    pub function: Option<ReferenceView>,
    pub experience: Option<i32>,
    pub loot: Seq<ReferenceView>,
    pub recipes: Seq<ReferenceView>,
}

pub struct AdvancementView {
    pub parent: Option<ReferenceView>,
    pub criteria: Seq<CriterionView>,
    pub requirements: AdvancementRequirements,
    pub requirements_span: Option<Span>,
    pub reward: Option<RewardView>,
    pub display: Option<(DisplayView, Span)>,
}

pub open spec fn reference_view(r: AdvancementReference) -> ReferenceView {
    (r.name@, r.span, r.external)
}

pub open spec fn references_view(v: Seq<AdvancementReference>) -> Seq<ReferenceView> {
    v.map_values(|r: AdvancementReference| reference_view(r))
}

pub open spec fn opt_reference(o: Option<AdvancementReference>) -> Option<ReferenceView> {
    match o {
        Some(r) => Some(reference_view(r)),
        None => None,
    }
}

pub open spec fn criterion_view(c: AdvancementCriterion) -> CriterionView {
    CriterionView {
        name: c.name@,
        name_span: c.name_span,
        trigger: c.trigger@,
        trigger_span: c.trigger_span,
        conditions: match (c.conditions, c.conditions_span) {
            (Some(j), Some(s)) => Some((j@, s)),
            _ => None,
        },
        span: c.span,
    }
}

pub open spec fn criteria_view(v: Seq<AdvancementCriterion>) -> Seq<CriterionView> {
    v.map_values(|c: AdvancementCriterion| criterion_view(c))
}

pub open spec fn reward_view(r: AdvancementReward) -> RewardView {
    RewardView {
        function: opt_reference(r.function),
        experience: r.experience,
        loot: references_view(r.loot@),
        recipes: references_view(r.recipes@),
    }
}

pub open spec fn empty_reward() -> RewardView {
    RewardView { function: None, experience: None, loot: seq![], recipes: seq![] }
}

pub open spec fn empty_advancement() -> AdvancementView {
    AdvancementView {
        parent: None,
        criteria: seq![],
        requirements: AdvancementRequirements::All,
        requirements_span: None,
        reward: None,
        display: None,
    }
}

/// A reference at `c` for `label`.
pub open spec fn reference_spec(t: Seq<Token>, c: int, label: Seq<char>) -> Result<ReferenceView, (Seq<char>, Span)> {
    match t[c].kind {
        TokenKind::Ident(v) => Ok((v@, t[c].span, false)),
        TokenKind::String(v) => Ok((v@, t[c].span, true)),
        _ => Err(("这里需要"@ + label + "名称或资源位置字符串"@, t[c].span)),
    }
}

/// `= 引用;` after a property word at `c`.
pub open spec fn reference_value(t: Seq<Token>, c: int, label: Seq<char>, equal: Seq<char>, semicolon: Seq<char>) -> Result<
    ReferenceView,
    (Seq<char>, Span),
> {
    if !kind_at(t, c + 1, TokenKind::Equal) {
        Err((equal, t[c + 1].span))
    } else {
        match reference_spec(t, c + 2, label) {
            Err(e) => Err(e),
            Ok(r) => if !kind_at(t, c + 3, TokenKind::Semicolon) {
                Err((semicolon, t[c + 3].span))
            } else {
                Ok(r)
            },
        }
    }
}

/// The properties of a reward from `c` on, after `r`: the reward and the
/// position of its `}`.
pub open spec fn reward_body_spec(t: Seq<Token>, c: int, r: RewardView) -> Result<(RewardView, int), (Seq<char>, Span)>
    decreases t.len() - c,
{
    if !stream_ok(t, c) {
        Err(stuck())
    } else if kind_at(t, c, TokenKind::RightBrace) {
        Ok((r, c))
    } else if t[c].kind is Eof {
        Err(("reward 缺少 `}`"@, t[c].span))
    } else {
        match ident_at(t, c, "奖励属性"@) {
            Err(e) => Err(e),
            Ok((p, ps)) => match reward_property_spec(p) {
                None => Err(("未知奖励属性 `"@ + p + "`"@, ps)),
                Some(k) => if k == "function"@ {
                    if r.function is Some {
                        Err(("reward 只能声明一次 function"@, ps))
                    } else {
                        match reference_value(t, c, "奖励函数"@, "function 后需要 `=`"@, "function 后需要 `;`"@) {
                            Err(e) => Err(e),
                            Ok(x) => reward_body_spec(t, c + 4, RewardView { function: Some(x), ..r }),
                        }
                    }
                } else if k == "experience"@ {
                    if r.experience is Some {
                        Err(("reward 只能声明一次 experience"@, ps))
                    } else if !kind_at(t, c + 1, TokenKind::Equal) {
                        Err(("experience 后需要 `=`"@, t[c + 1].span))
                    } else {
                        match signed_spec(t, c + 2, "experience 经验值"@) {
                            Err(e) => Err(e),
                            Ok(n) => {
                                let q = advanced(t, after_minus(t, c + 2).1);
                                if !moved(t, c, q) {
                                    Err(stuck())
                                } else if !kind_at(t, q, TokenKind::Semicolon) {
                                    Err(("experience 后需要 `;`"@, t[q].span))
                                } else {
                                    reward_body_spec(t, q + 1, RewardView { experience: Some(n), ..r })
                                }
                            },
                        }
                    }
                } else if k == "loot"@ {
                    match reference_value(t, c, "战利品表"@, "loot 后需要 `=`"@, "loot 后需要 `;`"@) {
                        Err(e) => Err(e),
                        Ok(x) => reward_body_spec(t, c + 4, RewardView { loot: r.loot.push(x), ..r }),
                    }
                } else {
                    match reference_value(t, c, "配方"@, "recipe 后需要 `=`"@, "recipe 后需要 `;`"@) {
                        Err(e) => Err(e),
                        Ok(x) => reward_body_spec(t, c + 4, RewardView { recipes: r.recipes.push(x), ..r }),
                    }
                },
            },
        }
    }
}

/// A reward block at `c` (from its `{`): the reward and the position
/// after its `}`.
pub open spec fn reward_spec(t: Seq<Token>, c: int) -> Result<(RewardView, int), (Seq<char>, Span)> {
    if !kind_at(t, c, TokenKind::LeftBrace) {
        Err(("reward 后需要 `{`"@, t[c].span))
    } else {
        match reward_body_spec(t, c + 1, empty_reward()) {
            Err(e) => Err(e),
            Ok((r, end)) => Ok((r, end + 1)),
        }
    }
}

/// The properties of a criterion from `c` on: its trigger and conditions
/// so far, and the position of its `}`.
pub open spec fn criterion_body_spec(
    t: Seq<Token>,
    c: int,
    trigger: Option<(Seq<char>, Span)>,
    conditions: Option<(Seq<char>, Span)>,
) -> Result<(Option<(Seq<char>, Span)>, Option<(Seq<char>, Span)>, int), (Seq<char>, Span)>
    decreases t.len() - c,
{
    if !stream_ok(t, c) {
        Err(stuck())
    } else if kind_at(t, c, TokenKind::RightBrace) {
        Ok((trigger, conditions, c))
    } else if t[c].kind is Eof {
        Err(("准则缺少 `}`"@, t[c].span))
    } else {
        match ident_at(t, c, "准则属性"@) {
            Err(e) => Err(e),
            Ok((p, ps)) => match criterion_property_spec(p) {
                None => Err(("未知准则属性 `"@ + p + "`"@, ps)),
                Some(k) => if k == "trigger"@ {
                    if trigger is Some {
                        Err(("准则只能声明一次 trigger"@, ps))
                    } else if !kind_at(t, c + 1, TokenKind::Equal) {
                        Err(("trigger 后需要 `=`"@, t[c + 1].span))
                    } else {
                        let value: Option<Seq<char>> = match t[c + 2].kind {
                            TokenKind::Ident(v) => Some(v@),
                            TokenKind::String(v) => Some(v@),
                            _ => None,
                        };
                        match value {
                            None => Err(("trigger 需要触发器名称"@, t[c + 2].span)),
                            Some(v) => if !kind_at(t, c + 3, TokenKind::Semicolon) {
                                Err(("trigger 后需要 `;`"@, t[c + 3].span))
                            } else {
                                criterion_body_spec(t, c + 4, Some((v, t[c + 2].span)), conditions)
                            },
                        }
                    }
                } else {
                    if conditions is Some {
                        Err(("准则只能声明一次 conditions"@, ps))
                    } else if !kind_at(t, c + 1, TokenKind::Equal) {
                        Err(("conditions 后需要 `=`"@, t[c + 1].span))
                    } else {
                        match string_at(t, c + 2, "conditions 需要 JSON 字符串"@) {
                            Err(e) => Err(e),
                            Ok(j) => if !kind_at(t, c + 3, TokenKind::Semicolon) {
                                Err(("conditions 后需要 `;`"@, t[c + 3].span))
                            } else {
                                criterion_body_spec(t, c + 4, trigger, Some(j))
                            },
                        }
                    }
                },
            },
        }
    }
}

/// A criterion at `c` (from its name), whose `criterion` word spans
/// `start`: the criterion and the position after its `}`.
pub open spec fn criterion_spec(t: Seq<Token>, c: int, start: Span) -> Result<(CriterionView, int), (Seq<char>, Span)> {
    match ident_at(t, c, "准则名称"@) {
        Err(e) => Err(e),
        Ok((name, name_span)) => if !kind_at(t, c + 1, TokenKind::LeftBrace) {
            Err(("准则需要 `{`"@, t[c + 1].span))
        } else {
            match criterion_body_spec(t, c + 2, None, None) {
                Err(e) => Err(e),
                Ok((trigger, conditions, end)) => {
                    let span = merged(start, t[end].span);
                    match trigger {
                        None => Err(("准则必须声明 trigger"@, span)),
                        Some((v, vs)) => Ok(
                            (
                                CriterionView {
                                    name,
                                    name_span,
                                    trigger: v,
                                    trigger_span: vs,
                                    conditions,
                                    span,
                                },
                                end + 1,
                            ),
                        ),
                    }
                },
            }
        },
    }
}

/// The properties of an advancement from `c` on, after `a`: the
/// properties and the position of its `}`.
pub open spec fn advancement_body_spec(t: Seq<Token>, c: int, a: AdvancementView) -> Result<
    (AdvancementView, int),
    (Seq<char>, Span),
>
    decreases t.len() - c,
{
    if !stream_ok(t, c) {
        Err(stuck())
    } else if kind_at(t, c, TokenKind::RightBrace) {
        Ok((a, c))
    } else if t[c].kind is Eof {
        Err(("进度声明缺少 `}`"@, t[c].span))
    } else {
        match ident_at(t, c, "进度属性"@) {
            Err(e) => Err(e),
            Ok((p, ps)) => match advancement_property_spec(p) {
                None => Err(("未知进度属性 `"@ + p + "`"@, ps)),
                Some(k) => if k == "parent"@ {
                    if a.parent is Some {
                        Err(("进度只能声明一次 parent"@, ps))
                    } else {
                        match reference_value(t, c, "父进度"@, "parent 后需要 `=`"@, "parent 后需要 `;`"@) {
                            Err(e) => Err(e),
                            Ok(x) => advancement_body_spec(t, c + 4, AdvancementView { parent: Some(x), ..a }),
                        }
                    }
                } else if k == "criterion"@ {
                    match criterion_spec(t, c + 1, ps) {
                        Err(e) => Err(e),
                        Ok((cv, after)) => if !moved(t, c, after) {
                            Err(stuck())
                        } else {
                            advancement_body_spec(t, after, AdvancementView { criteria: a.criteria.push(cv), ..a })
                        },
                    }
                } else if k == "requirements"@ {
                    if a.requirements_span is Some {
                        Err(("进度只能声明一次 requirements"@, ps))
                    } else if !kind_at(t, c + 1, TokenKind::Equal) {
                        Err(("requirements 后需要 `=`"@, t[c + 1].span))
                    } else {
                        match ident_at(t, c + 2, "all 或 any"@) {
                            Err(e) => Err(e),
                            Ok((v, vs)) => match advancement_requirements_spec(v) {
                                None => Err(("requirements 只能是 all/全部 或 any/任意"@, vs)),
                                Some(req) => if !kind_at(t, c + 3, TokenKind::Semicolon) {
                                    Err(("requirements 后需要 `;`"@, t[c + 3].span))
                                } else {
                                    advancement_body_spec(
                                        t,
                                        c + 4,
                                        AdvancementView { requirements: req, requirements_span: Some(ps), ..a },
                                    )
                                },
                            },
                        }
                    }
                } else if k == "reward"@ {
                    if a.reward is Some {
                        Err(("进度只能声明一次 reward"@, ps))
                    } else {
                        match reward_spec(t, c + 1) {
                            Err(e) => Err(e),
                            Ok((r, after)) => if !moved(t, c, after) {
                                Err(stuck())
                            } else {
                                advancement_body_spec(t, after, AdvancementView { reward: Some(r), ..a })
                            },
                        }
                    }
                } else {
                    if a.display is Some {
                        Err(("进度只能声明一次 display"@, ps))
                    } else {
                        match advancement_display_spec(t, c + 1) {
                            Err(e) => Err(e),
                            Ok((d, span, after)) => if !moved(t, c, after) {
                                Err(stuck())
                            } else {
                                advancement_body_spec(t, after, AdvancementView { display: Some((d, span)), ..a })
                            },
                        }
                    }
                },
            },
        }
    }
}

/// An advancement declaration at `c`: its name and span, properties,
/// span, and the position after it (past an optional `;`).
pub open spec fn advancement_spec(t: Seq<Token>, c: int) -> Result<
    (Seq<char>, Span, AdvancementView, Span, int),
    (Seq<char>, Span),
> {
    if !word_at(t, c, "advancement"@) {
        Err((expected_word_message("advancement"@), t[c].span))
    } else {
        match ident_at(t, c + 1, "进度名称"@) {
            Err(e) => Err(e),
            Ok((name, name_span)) => if !kind_at(t, c + 2, TokenKind::LeftBrace) {
                Err(("进度声明需要 `{`"@, t[c + 2].span))
            } else {
                match advancement_body_spec(t, c + 3, empty_advancement()) {
                    Err(e) => Err(e),
                    Ok((a, end)) => {
                        let span = merged(t[c].span, t[end].span);
                        if a.criteria.len() == 0 {
                            Err(("进度必须声明至少一条 criterion"@, span))
                        } else {
                            Ok(
                                (
                                    name,
                                    name_span,
                                    a,
                                    span,
                                    if kind_at(t, end + 1, TokenKind::Semicolon) {
                                        end + 2
                                    } else {
                                        end + 1
                                    },
                                ),
                            )
                        }
                    },
                }
            },
        }
    }
}

/// `d` holds the properties `a`.
pub open spec fn advancement_matches(d: AdvancementDecl, a: AdvancementView) -> bool {
    &&& opt_reference(d.parent) == a.parent
    &&& criteria_view(d.criteria@) == a.criteria
    &&& d.requirements == a.requirements
    &&& match (d.reward, a.reward) {
        (Some(r), Some(v)) => reward_view(r) == v,
        (None, None) => true,
        _ => false,
    }
    &&& match (d.display, a.display) {
        (Some(x), Some((v, span))) => display_matches(x, v, span),
        (None, None) => true,
        _ => false,
    }
}

struct AdvancementFields {
    parent: Option<AdvancementReference>,
    criteria: Vec<AdvancementCriterion>,
    requirements: AdvancementRequirements,
    requirements_span: Option<Span>,
    reward: Option<AdvancementReward>,
    display: Option<AdvancementDisplay>,
}

spec fn fields_holds(f: AdvancementFields, a: AdvancementView) -> bool {
    &&& opt_reference(f.parent) == a.parent
    &&& criteria_view(f.criteria@) == a.criteria
    &&& f.requirements == a.requirements
    &&& f.requirements_span == a.requirements_span
    &&& match (f.reward, a.reward) {
        (Some(r), Some(v)) => reward_view(r) == v,
        (None, None) => true,
        _ => false,
    }
    &&& match (f.display, a.display) {
        (Some(x), Some((v, span))) => display_matches(x, v, span),
        (None, None) => true,
        _ => false,
    }
}

proof fn lemma_reward_body_end(t: Seq<Token>, c: int, r: RewardView)
    requires
        reward_body_spec(t, c, r) is Ok,
    ensures
        ({
            let end = match reward_body_spec(t, c, r) {
                Ok((_, end)) => end,
                Err(_) => 0,
            };
            stream_ok(t, end) && kind_at(t, end, TokenKind::RightBrace)
        }),
    decreases t.len() - c,
{
    if stream_ok(t, c) && !kind_at(t, c, TokenKind::RightBrace) && !(t[c].kind is Eof) {
        if let Ok((p, ps)) = ident_at(t, c, "奖励属性"@) {
            if let Some(k) = reward_property_spec(p) {
                if k == "function"@ {
                    if let Ok(x) = reference_value(t, c, "奖励函数"@, "function 后需要 `=`"@, "function 后需要 `;`"@) {
                        lemma_reward_body_end(t, c + 4, RewardView { function: Some(x), ..r });
                    }
                } else if k == "experience"@ {
                    if let Ok(n) = signed_spec(t, c + 2, "experience 经验值"@) {
                        let q = advanced(t, after_minus(t, c + 2).1);
                        if moved(t, c, q) {
                            lemma_reward_body_end(t, q + 1, RewardView { experience: Some(n), ..r });
                        }
                    }
                } else if k == "loot"@ {
                    if let Ok(x) = reference_value(t, c, "战利品表"@, "loot 后需要 `=`"@, "loot 后需要 `;`"@) {
                        lemma_reward_body_end(t, c + 4, RewardView { loot: r.loot.push(x), ..r });
                    }
                } else if let Ok(x) = reference_value(t, c, "配方"@, "recipe 后需要 `=`"@, "recipe 后需要 `;`"@) {
                    lemma_reward_body_end(t, c + 4, RewardView { recipes: r.recipes.push(x), ..r });
                }
            }
        }
    }
}

proof fn lemma_criterion_body_end(
    t: Seq<Token>,
    c: int,
    trigger: Option<(Seq<char>, Span)>,
    conditions: Option<(Seq<char>, Span)>,
)
    requires
        criterion_body_spec(t, c, trigger, conditions) is Ok,
    ensures
        ({
            let end = match criterion_body_spec(t, c, trigger, conditions) {
                Ok((_, _, end)) => end,
                Err(_) => 0,
            };
            stream_ok(t, end) && kind_at(t, end, TokenKind::RightBrace)
        }),
    decreases t.len() - c,
{
    if stream_ok(t, c) && !kind_at(t, c, TokenKind::RightBrace) && !(t[c].kind is Eof) {
        if let Ok((p, ps)) = ident_at(t, c, "准则属性"@) {
            if let Some(k) = criterion_property_spec(p) {
                if k == "trigger"@ {
                    let value: Option<Seq<char>> = match t[c + 2].kind {
                        TokenKind::Ident(v) => Some(v@),
                        TokenKind::String(v) => Some(v@),
                        _ => None,
                    };
                    if let Some(v) = value {
                        lemma_criterion_body_end(t, c + 4, Some((v, t[c + 2].span)), conditions);
                    }
                } else if let Ok(j) = string_at(t, c + 2, "conditions 需要 JSON 字符串"@) {
                    lemma_criterion_body_end(t, c + 4, trigger, Some(j));
                }
            }
        }
    }
}

proof fn lemma_advancement_body_end(t: Seq<Token>, c: int, a: AdvancementView)
    requires
        advancement_body_spec(t, c, a) is Ok,
    ensures
        ({
            let end = match advancement_body_spec(t, c, a) {
                Ok((_, end)) => end,
                Err(_) => 0,
            };
            stream_ok(t, end) && kind_at(t, end, TokenKind::RightBrace)
        }),
    decreases t.len() - c,
{
    if stream_ok(t, c) && !kind_at(t, c, TokenKind::RightBrace) && !(t[c].kind is Eof) {
        if let Ok((p, ps)) = ident_at(t, c, "进度属性"@) {
            if let Some(k) = advancement_property_spec(p) {
                if k == "parent"@ {
                    if let Ok(x) = reference_value(t, c, "父进度"@, "parent 后需要 `=`"@, "parent 后需要 `;`"@) {
                        lemma_advancement_body_end(t, c + 4, AdvancementView { parent: Some(x), ..a });
                    }
                } else if k == "criterion"@ {
                    if let Ok((cv, after)) = criterion_spec(t, c + 1, ps) {
                        if moved(t, c, after) {
                            lemma_advancement_body_end(
                                t,
                                after,
                                AdvancementView { criteria: a.criteria.push(cv), ..a },
                            );
                        }
                    }
                } else if k == "requirements"@ {
                    if let Ok((v, vs)) = ident_at(t, c + 2, "all 或 any"@) {
                        if let Some(req) = advancement_requirements_spec(v) {
                            lemma_advancement_body_end(
                                t,
                                c + 4,
                                AdvancementView { requirements: req, requirements_span: Some(ps), ..a },
                            );
                        }
                    }
                } else if k == "reward"@ {
                    if let Ok((r, after)) = reward_spec(t, c + 1) {
                        if moved(t, c, after) {
                            lemma_advancement_body_end(t, after, AdvancementView { reward: Some(r), ..a });
                        }
                    }
                } else if let Ok((d, span, after)) = advancement_display_spec(t, c + 1) {
                    if moved(t, c, after) {
                        lemma_advancement_body_end(t, after, AdvancementView { display: Some((d, span)), ..a });
                    }
                }
            }
        }
    }
}

fn joined(a: &str, b: &str) -> (r: String)
    ensures
        r@ == a@ + b@,
{
    let mut m = a.to_owned();
    m.append(b);
    m
}

impl Parser {
    /// A reference for `label`: a declared name (a word) or an outside
    /// resource location (a string); the token is consumed either way.
    pub fn advancement_reference(&mut self, label: &str) -> (r: Result<AdvancementReference, Diagnostic>)
        requires
            old(self).wf(),
        ensures
            final(self).wf(),
            final(self).tokens@ == old(self).tokens@,
            macro_state(&*final(self)) == macro_state(&*old(self)),
            final(self).cursor == advanced(old(self).tokens@, old(self).cursor as int),
            match (r, reference_spec(old(self).tokens@, old(self).cursor as int, label@)) {
                (Ok(x), Ok(v)) => reference_view(x) == v,
                (Err(d), Err(e)) => diag(d) == e,
                _ => false,
            },
    {
        let token = self.advance();
        match token.kind {
            TokenKind::Ident(value) => Ok(AdvancementReference { name: value, span: token.span, external: false }),
            TokenKind::String(value) => Ok(AdvancementReference { name: value, span: token.span, external: true }),
            _ => {
                let mut m = "这里需要".to_owned();
                m.append(label);
                m.append("名称或资源位置字符串");
                Err(Diagnostic { message: m, span: token.span })
            },
        }
    }

    /// `= 引用;` after a property word.
    fn reference_property(&mut self, label: &str, equal: &str, semicolon: &str) -> (r: Result<
        AdvancementReference,
        Diagnostic,
    >)
        requires
            old(self).wf(),
            old(self).cursor > 0,
            !(old(self).tokens@[old(self).cursor - 1].kind is Eof),
        ensures
            final(self).wf(),
            final(self).tokens@ == old(self).tokens@,
            macro_state(&*final(self)) == macro_state(&*old(self)),
            match (r, reference_value(old(self).tokens@, old(self).cursor - 1, label@, equal@, semicolon@)) {
                (Ok(x), Ok(v)) => reference_view(x) == v && final(self).cursor == old(self).cursor + 3,
                (Err(d), Err(e)) => diag(d) == e,
                _ => false,
            },
    {
        let ghost t = self.tokens@;
        let ghost c = self.cursor - 1;
        match self.expect(TokenKind::Equal, equal) {
            Ok(_) => {},
            Err(d) => return Err(d),
        }
        proof {
            lemma_not_last(t, c + 1);
        }
        let x = match self.advancement_reference(label) {
            Ok(x) => x,
            Err(d) => return Err(d),
        };
        proof {
            lemma_not_last(t, c + 2);
        }
        match self.expect(TokenKind::Semicolon, semicolon) {
            Ok(_) => {},
            Err(d) => return Err(d),
        }
        proof {
            lemma_not_last(t, c + 3);
        }
        Ok(x)
    }

    fn reward_body(&mut self, reward: AdvancementReward) -> (r: Result<AdvancementReward, Diagnostic>)
        requires
            old(self).wf(),
        ensures
            final(self).wf(),
            final(self).tokens@ == old(self).tokens@,
            macro_state(&*final(self)) == macro_state(&*old(self)),
            match (r, reward_body_spec(old(self).tokens@, old(self).cursor as int, reward_view(reward))) {
                (Ok(x), Ok((v, end))) => reward_view(x) == v && final(self).cursor == end && end >= old(self).cursor,
                (Err(d), Err(e)) => diag(d) == e,
                _ => false,
            },
        decreases old(self).tokens@.len() - old(self).cursor,
    {
        let ghost t = self.tokens@;
        let ghost c = self.cursor as int;
        if self.check(&TokenKind::RightBrace) {
            return Ok(reward);
        }
        if self.check(&TokenKind::Eof) {
            return Err(Diagnostic { message: "reward 缺少 `}`".to_owned(), span: self.tokens[self.cursor].span });
        }
        let (property, span) = match self.ident("奖励属性") {
            Ok(found) => found,
            Err(d) => return Err(d),
        };
        proof {
            lemma_not_last(t, c);
        }
        let kind = match reward_property(property.as_str()) {
            Some(k) => k,
            None => {
                let mut m = "未知奖励属性 `".to_owned();
                m.append(property.as_str());
                m.append("`");
                return Err(Diagnostic { message: m, span });
            },
        };
        let mut reward = reward;
        if str_eq(kind, "function") {
            if reward.function.is_some() {
                return Err(Diagnostic { message: "reward 只能声明一次 function".to_owned(), span });
            }
            let x = match self.reference_property("奖励函数", "function 后需要 `=`", "function 后需要 `;`") {
                Ok(x) => x,
                Err(d) => return Err(d),
            };
            reward.function = Some(x);
            return self.reward_body(reward);
        }
        if str_eq(kind, "experience") {
            if reward.experience.is_some() {
                return Err(Diagnostic { message: "reward 只能声明一次 experience".to_owned(), span });
            }
            match self.expect(TokenKind::Equal, "experience 后需要 `=`") {
                Ok(_) => {},
                Err(d) => return Err(d),
            }
            proof {
                lemma_not_last(t, c + 1);
            }
            let n = match self.signed("experience 经验值") {
                Ok(n) => n,
                Err(d) => return Err(d),
            };
            let ghost q = self.cursor as int;
            match self.expect(TokenKind::Semicolon, "experience 后需要 `;`") {
                Ok(_) => {},
                Err(d) => return Err(d),
            }
            proof {
                lemma_not_last(t, q);
            }
            reward.experience = Some(n);
            return self.reward_body(reward);
        }
        let is_loot = str_eq(kind, "loot");
        let x = if is_loot {
            match self.reference_property("战利品表", "loot 后需要 `=`", "loot 后需要 `;`") {
                Ok(x) => x,
                Err(d) => return Err(d),
            }
        } else {
            match self.reference_property("配方", "recipe 后需要 `=`", "recipe 后需要 `;`") {
                Ok(x) => x,
                Err(d) => return Err(d),
            }
        };
        let ghost v = reference_view(x);
        if is_loot {
            let ghost before = references_view(reward.loot@);
            reward.loot.push(x);
            assert(references_view(reward.loot@) =~= before.push(v));
        } else {
            let ghost before = references_view(reward.recipes@);
            reward.recipes.push(x);
            assert(references_view(reward.recipes@) =~= before.push(v));
        }
        self.reward_body(reward)
    }

    /// `reward { function = …; experience = …; loot = …; recipe = …; }`
    /// from its `{`.
    pub fn advancement_reward(&mut self) -> (r: Result<AdvancementReward, Diagnostic>)
        requires
            old(self).wf(),
        ensures
            final(self).wf(),
            final(self).tokens@ == old(self).tokens@,
            macro_state(&*final(self)) == macro_state(&*old(self)),
            match (r, reward_spec(old(self).tokens@, old(self).cursor as int)) {
                (Ok(x), Ok((v, after))) => reward_view(x) == v && final(self).cursor == after && after > old(self).cursor,
                (Err(d), Err(e)) => diag(d) == e,
                _ => false,
            },
    {
        let ghost t = self.tokens@;
        let ghost c = self.cursor as int;
        match self.expect(TokenKind::LeftBrace, "reward 后需要 `{`") {
            Ok(_) => {},
            Err(d) => return Err(d),
        }
        proof {
            lemma_not_last(t, c);
        }
        let empty = AdvancementReward { function: None, experience: None, loot: Vec::new(), recipes: Vec::new() };
        assert(references_view(empty.loot@) =~= Seq::<ReferenceView>::empty());
        assert(references_view(empty.recipes@) =~= Seq::<ReferenceView>::empty());
        assert(reward_view(empty) == empty_reward());
        let reward = match self.reward_body(empty) {
            Ok(x) => x,
            Err(d) => return Err(d),
        };
        proof {
            lemma_reward_body_end(t, c + 1, empty_reward());
            lemma_not_last(t, self.cursor as int);
        }
        self.advance();
        Ok(reward)
    }

    fn criterion_body(
        &mut self,
        trigger: Option<(String, Span)>,
        conditions: Option<(String, Span)>,
    ) -> (r: Result<(Option<(String, Span)>, Option<(String, Span)>), Diagnostic>)
        requires
            old(self).wf(),
        ensures
            final(self).wf(),
            final(self).tokens@ == old(self).tokens@,
            macro_state(&*final(self)) == macro_state(&*old(self)),
            match (r, criterion_body_spec(old(self).tokens@, old(self).cursor as int, spanned(trigger), spanned(conditions))) {
                (Ok((a, b)), Ok((x, y, end))) => spanned(a) == x && spanned(b) == y && final(self).cursor == end && end
                    >= old(self).cursor,
                (Err(d), Err(e)) => diag(d) == e,
                _ => false,
            },
        decreases old(self).tokens@.len() - old(self).cursor,
    {
        let ghost t = self.tokens@;
        let ghost c = self.cursor as int;
        if self.check(&TokenKind::RightBrace) {
            return Ok((trigger, conditions));
        }
        if self.check(&TokenKind::Eof) {
            return Err(Diagnostic { message: "准则缺少 `}`".to_owned(), span: self.tokens[self.cursor].span });
        }
        let (property, span) = match self.ident("准则属性") {
            Ok(found) => found,
            Err(d) => return Err(d),
        };
        proof {
            lemma_not_last(t, c);
        }
        let kind = match criterion_property(property.as_str()) {
            Some(k) => k,
            None => {
                let mut m = "未知准则属性 `".to_owned();
                m.append(property.as_str());
                m.append("`");
                return Err(Diagnostic { message: m, span });
            },
        };
        if str_eq(kind, "trigger") {
            if trigger.is_some() {
                return Err(Diagnostic { message: "准则只能声明一次 trigger".to_owned(), span });
            }
            match self.expect(TokenKind::Equal, "trigger 后需要 `=`") {
                Ok(_) => {},
                Err(d) => return Err(d),
            }
            proof {
                lemma_not_last(t, c + 1);
            }
            let token = self.advance();
            let value = match token.kind {
                TokenKind::Ident(v) => v,
                TokenKind::String(v) => v,
                _ => return Err(Diagnostic { message: "trigger 需要触发器名称".to_owned(), span: token.span }),
            };
            proof {
                lemma_not_last(t, c + 2);
            }
            match self.expect(TokenKind::Semicolon, "trigger 后需要 `;`") {
                Ok(_) => {},
                Err(d) => return Err(d),
            }
            proof {
                lemma_not_last(t, c + 3);
            }
            return self.criterion_body(Some((value, token.span)), conditions);
        }
        if conditions.is_some() {
            return Err(Diagnostic { message: "准则只能声明一次 conditions".to_owned(), span });
        }
        match self.expect(TokenKind::Equal, "conditions 后需要 `=`") {
            Ok(_) => {},
            Err(d) => return Err(d),
        }
        proof {
            lemma_not_last(t, c + 1);
        }
        let json = match self.string("conditions 需要 JSON 字符串") {
            Ok(found) => found,
            Err(d) => return Err(d),
        };
        proof {
            lemma_not_last(t, c + 2);
        }
        match self.expect(TokenKind::Semicolon, "conditions 后需要 `;`") {
            Ok(_) => {},
            Err(d) => return Err(d),
        }
        proof {
            lemma_not_last(t, c + 3);
        }
        self.criterion_body(trigger, Some(json))
    }

    /// `名称 { trigger = …; conditions = "…"; }` after the `criterion` word
    /// (spanning `start`): the trigger is required.
    pub fn advancement_criterion(&mut self, start: Span) -> (r: Result<AdvancementCriterion, Diagnostic>)
        requires
            old(self).wf(),
        ensures
            final(self).wf(),
            final(self).tokens@ == old(self).tokens@,
            macro_state(&*final(self)) == macro_state(&*old(self)),
            match (r, criterion_spec(old(self).tokens@, old(self).cursor as int, start)) {
                (Ok(x), Ok((v, after))) => criterion_view(x) == v && final(self).cursor == after && after > old(self).cursor,
                (Err(d), Err(e)) => diag(d) == e,
                _ => false,
            },
    {
        let ghost t = self.tokens@;
        let ghost c = self.cursor as int;
        let (name, name_span) = match self.ident("准则名称") {
            Ok(found) => found,
            Err(d) => return Err(d),
        };
        proof {
            lemma_not_last(t, c);
        }
        match self.expect(TokenKind::LeftBrace, "准则需要 `{`") {
            Ok(_) => {},
            Err(d) => return Err(d),
        }
        proof {
            lemma_not_last(t, c + 1);
        }
        let (trigger, conditions) = match self.criterion_body(None, None) {
            Ok(found) => found,
            Err(d) => return Err(d),
        };
        proof {
            lemma_criterion_body_end(t, c + 2, None, None);
            lemma_not_last(t, self.cursor as int);
        }
        let end = self.advance().span;
        let span = start.merge(end);
        let (trigger, trigger_span) = match trigger {
            Some(found) => found,
            None => return Err(Diagnostic { message: "准则必须声明 trigger".to_owned(), span }),
        };
        let (conditions, conditions_span) = match conditions {
            Some((json, s)) => (Some(json), Some(s)),
            None => (None, None),
        };
        Ok(AdvancementCriterion { name, name_span, trigger, trigger_span, conditions, conditions_span, span })
    }

    #[verifier::rlimit(60)]
    fn advancement_body(&mut self, fields: AdvancementFields, Ghost(a): Ghost<AdvancementView>) -> (r: Result<
        AdvancementFields,
        Diagnostic,
    >)
        requires
            old(self).wf(),
            fields_holds(fields, a),
        ensures
            final(self).wf(),
            final(self).tokens@ == old(self).tokens@,
            macro_state(&*final(self)) == macro_state(&*old(self)),
            match (r, advancement_body_spec(old(self).tokens@, old(self).cursor as int, a)) {
                (Ok(f), Ok((v, end))) => fields_holds(f, v) && final(self).cursor == end,
                (Err(d), Err(e)) => diag(d) == e,
                _ => false,
            },
        decreases old(self).tokens@.len() - old(self).cursor,
    {
        let ghost t = self.tokens@;
        let ghost c = self.cursor as int;
        if self.check(&TokenKind::RightBrace) {
            return Ok(fields);
        }
        if self.check(&TokenKind::Eof) {
            return Err(Diagnostic { message: "进度声明缺少 `}`".to_owned(), span: self.tokens[self.cursor].span });
        }
        let (property, span) = match self.ident("进度属性") {
            Ok(found) => found,
            Err(d) => return Err(d),
        };
        proof {
            lemma_not_last(t, c);
        }
        let kind = match advancement_property(property.as_str()) {
            Some(k) => k,
            None => {
                let mut m = "未知进度属性 `".to_owned();
                m.append(property.as_str());
                m.append("`");
                return Err(Diagnostic { message: m, span });
            },
        };
        let mut fields = fields;
        if str_eq(kind, "parent") {
            if fields.parent.is_some() {
                return Err(Diagnostic { message: "进度只能声明一次 parent".to_owned(), span });
            }
            let x = match self.reference_property("父进度", "parent 后需要 `=`", "parent 后需要 `;`") {
                Ok(x) => x,
                Err(d) => return Err(d),
            };
            let ghost a2 = AdvancementView { parent: Some(reference_view(x)), ..a };
            fields.parent = Some(x);
            return self.advancement_body(fields, Ghost(a2));
        }
        if str_eq(kind, "criterion") {
            let criterion = match self.advancement_criterion(span) {
                Ok(x) => x,
                Err(d) => return Err(d),
            };
            let ghost cv = criterion_view(criterion);
            let ghost a2 = AdvancementView { criteria: a.criteria.push(cv), ..a };
            let ghost before = criteria_view(fields.criteria@);
            fields.criteria.push(criterion);
            assert(criteria_view(fields.criteria@) =~= before.push(cv));
            return self.advancement_body(fields, Ghost(a2));
        }
        if str_eq(kind, "requirements") {
            if fields.requirements_span.is_some() {
                return Err(Diagnostic { message: "进度只能声明一次 requirements".to_owned(), span });
            }
            match self.expect(TokenKind::Equal, "requirements 后需要 `=`") {
                Ok(_) => {},
                Err(d) => return Err(d),
            }
            proof {
                lemma_not_last(t, c + 1);
            }
            let (value, value_span) = match self.ident("all 或 any") {
                Ok(found) => found,
                Err(d) => return Err(d),
            };
            proof {
                lemma_not_last(t, c + 2);
            }
            let requirements = match advancement_requirements(value.as_str()) {
                Some(req) => req,
                None => return Err(
                    Diagnostic { message: "requirements 只能是 all/全部 或 any/任意".to_owned(), span: value_span },
                ),
            };
            match self.expect(TokenKind::Semicolon, "requirements 后需要 `;`") {
                Ok(_) => {},
                Err(d) => return Err(d),
            }
            proof {
                lemma_not_last(t, c + 3);
            }
            let ghost a2 = AdvancementView { requirements, requirements_span: Some(span), ..a };
            fields.requirements = requirements;
            fields.requirements_span = Some(span);
            return self.advancement_body(fields, Ghost(a2));
        }
        if str_eq(kind, "reward") {
            if fields.reward.is_some() {
                return Err(Diagnostic { message: "进度只能声明一次 reward".to_owned(), span });
            }
            let reward = match self.advancement_reward() {
                Ok(x) => x,
                Err(d) => return Err(d),
            };
            let ghost a2 = AdvancementView { reward: Some(reward_view(reward)), ..a };
            fields.reward = Some(reward);
            return self.advancement_body(fields, Ghost(a2));
        }
        if fields.display.is_some() {
            return Err(Diagnostic { message: "进度只能声明一次 display".to_owned(), span });
        }
        let ghost d = advancement_display_spec(t, c + 1);
        let display = match self.advancement_display() {
            Ok(x) => x,
            Err(e) => return Err(e),
        };
        let ghost a2 = match d {
            Ok((v, s, _)) => AdvancementView { display: Some((v, s)), ..a },
            Err(_) => a,
        };
        fields.display = Some(display);
        self.advancement_body(fields, Ghost(a2))
    }

    /// `advancement 名称 { … }`: at least one criterion is required, and a
    /// `;` after the `}` is allowed.
    pub fn advancement(&mut self) -> (r: Result<AdvancementDecl, Diagnostic>)
        requires
            old(self).wf(),
        ensures
            final(self).wf(),
            final(self).tokens@ == old(self).tokens@,
            macro_state(&*final(self)) == macro_state(&*old(self)),
            match (r, advancement_spec(old(self).tokens@, old(self).cursor as int)) {
                (Ok(d), Ok((name, name_span, a, span, after))) => !d.exported && d.name@ == name && d.name_span
                    == name_span && advancement_matches(d, a) && d.span == span && final(self).cursor == after,
                (Err(d), Err(e)) => diag(d) == e,
                _ => false,
            },
    {
        let ghost t = self.tokens@;
        let ghost c = self.cursor as int;
        let start = match self.expect_word("advancement") {
            Ok(token) => token.span,
            Err(d) => return Err(d),
        };
        proof {
            lemma_not_last(t, c);
        }
        let (name, name_span) = match self.ident("进度名称") {
            Ok(found) => found,
            Err(d) => return Err(d),
        };
        proof {
            lemma_not_last(t, c + 1);
        }
        match self.expect(TokenKind::LeftBrace, "进度声明需要 `{`") {
            Ok(_) => {},
            Err(d) => return Err(d),
        }
        proof {
            lemma_not_last(t, c + 2);
        }
        let empty = AdvancementFields {
            parent: None,
            criteria: Vec::new(),
            requirements: AdvancementRequirements::All,
            requirements_span: None,
            reward: None,
            display: None,
        };
        assert(criteria_view(empty.criteria@) =~= Seq::<CriterionView>::empty());
        let fields = match self.advancement_body(empty, Ghost(empty_advancement())) {
            Ok(f) => f,
            Err(d) => return Err(d),
        };
        proof {
            lemma_advancement_body_end(t, c + 3, empty_advancement());
            lemma_not_last(t, self.cursor as int);
        }
        let end = self.advance().span;
        self.take(&TokenKind::Semicolon);
        let span = start.merge(end);
        if fields.criteria.len() == 0 {
            return Err(Diagnostic { message: "进度必须声明至少一条 criterion".to_owned(), span });
        }
        Ok(
            AdvancementDecl {
                exported: false,
                name,
                name_span,
                parent: fields.parent,
                criteria: fields.criteria,
                requirements: fields.requirements,
                reward: fields.reward,
                display: fields.display,
                span,
            },
        )
    }
}

pub open spec fn spanned(o: Option<(String, Span)>) -> Option<(Seq<char>, Span)> {
    match o {
        Some(v) => Some((v.0@, v.1)),
        None => None,
    }
}

} // verus!
