//! Property names, value words and their Chinese spellings for
//! declarations, queries and items.

use vstd::prelude::*;
use crate::chars::{chars_of, chars_eq_str};
use super::{opt_str, opt_pair};
use super::table::{Keyword, keyword_views, keyword_table, attribute_table, keywords, attributes};

verus! {

broadcast use vstd::string::group_string_axioms;

#[derive(Clone, Copy, Debug, PartialEq, Eq, Structural)]
pub enum AdvancementFrame {
    Task,
    Goal,
    Challenge,
}

#[derive(Clone, Copy, Debug, PartialEq, Eq, Structural)]
pub enum AdvancementRequirements {
    All,
    Any,
}

#[derive(Clone, Copy, Debug, PartialEq, Eq, Structural)]
pub enum ItemRarity {
    Common,
    Uncommon,
    Rare,
    Epic,
}

pub open spec fn query_property_spec(s: Seq<char>) -> Option<Seq<char>> {
    if s == "tag"@ || s == "标签"@ {
        Some("tag"@)
    } else if s == "without_tag"@ || s == "排除标签"@ {
        Some("without_tag"@)
    } else if s == "type"@ || s == "实体类型"@ {
        Some("type"@)
    } else if s == "without_type"@ || s == "排除类型"@ {
        Some("without_type"@)
    } else if s == "limit"@ || s == "上限"@ {
        Some("limit"@)
    } else if s == "within"@ || s == "范围"@ {
        Some("within"@)
    } else if s == "sort"@ || s == "排序"@ {
        Some("sort"@)
    } else if s == "name"@ || s == "名称"@ {
        Some("name"@)
    } else if s == "without_name"@ || s == "排除名称"@ {
        Some("without_name"@)
    } else if s == "scores"@ || s == "分数"@ {
        Some("scores"@)
    } else if s == "nbt"@ || s == "数据"@ {
        Some("nbt"@)
    } else if s == "without_nbt"@ || s == "排除数据"@ {
        Some("without_nbt"@)
    } else if s == "box"@ || s == "坐标盒"@ {
        Some("box"@)
    } else if s == "distance"@ || s == "距离"@ {
        Some("distance"@)
    } else if s == "level"@ || s == "等级"@ {
        Some("level"@)
    } else if s == "gamemode"@ || s == "游戏模式"@ {
        Some("gamemode"@)
    } else if s == "team"@ || s == "队伍"@ {
        Some("team"@)
    } else if s == "without_team"@ || s == "排除队伍"@ {
        Some("without_team"@)
    } else if s == "rotate"@ || s == "旋转"@ {
        Some("rotate"@)
    } else if s == "predicate"@ || s == "谓词"@ {
        Some("predicate"@)
    } else if s == "advancements"@ || s == "进度过滤"@ {
        Some("advancements"@)
    } else if s == "item"@ || s == "物品"@ {
        Some("item"@)
    } else {
        None
    }
}

pub fn query_property(value: &str) -> (r: Option<&'static str>)
    ensures
        opt_str(r) == query_property_spec(value@),
{
    let v = chars_of(value);
    if chars_eq_str(v.as_slice(), "tag") || chars_eq_str(v.as_slice(), "标签") {
        Some("tag")
    } else if chars_eq_str(v.as_slice(), "without_tag") || chars_eq_str(v.as_slice(), "排除标签") {
        Some("without_tag")
    } else if chars_eq_str(v.as_slice(), "type") || chars_eq_str(v.as_slice(), "实体类型") {
        Some("type")
    } else if chars_eq_str(v.as_slice(), "without_type") || chars_eq_str(v.as_slice(), "排除类型") {
        Some("without_type")
    } else if chars_eq_str(v.as_slice(), "limit") || chars_eq_str(v.as_slice(), "上限") {
        Some("limit")
    } else if chars_eq_str(v.as_slice(), "within") || chars_eq_str(v.as_slice(), "范围") {
        Some("within")
    } else if chars_eq_str(v.as_slice(), "sort") || chars_eq_str(v.as_slice(), "排序") {
        Some("sort")
    } else if chars_eq_str(v.as_slice(), "name") || chars_eq_str(v.as_slice(), "名称") {
        Some("name")
    } else if chars_eq_str(v.as_slice(), "without_name") || chars_eq_str(v.as_slice(), "排除名称") {
        Some("without_name")
    } else if chars_eq_str(v.as_slice(), "scores") || chars_eq_str(v.as_slice(), "分数") {
        Some("scores")
    } else if chars_eq_str(v.as_slice(), "nbt") || chars_eq_str(v.as_slice(), "数据") {
        Some("nbt")
    } else if chars_eq_str(v.as_slice(), "without_nbt") || chars_eq_str(v.as_slice(), "排除数据") {
        Some("without_nbt")
    } else if chars_eq_str(v.as_slice(), "box") || chars_eq_str(v.as_slice(), "坐标盒") {
        Some("box")
    } else if chars_eq_str(v.as_slice(), "distance") || chars_eq_str(v.as_slice(), "距离") {
        Some("distance")
    } else if chars_eq_str(v.as_slice(), "level") || chars_eq_str(v.as_slice(), "等级") {
        Some("level")
    } else if chars_eq_str(v.as_slice(), "gamemode") || chars_eq_str(v.as_slice(), "游戏模式") {
        Some("gamemode")
    } else if chars_eq_str(v.as_slice(), "team") || chars_eq_str(v.as_slice(), "队伍") {
        Some("team")
    } else if chars_eq_str(v.as_slice(), "without_team") || chars_eq_str(v.as_slice(), "排除队伍") {
        Some("without_team")
    } else if chars_eq_str(v.as_slice(), "rotate") || chars_eq_str(v.as_slice(), "旋转") {
        Some("rotate")
    } else if chars_eq_str(v.as_slice(), "predicate") || chars_eq_str(v.as_slice(), "谓词") {
        Some("predicate")
    } else if chars_eq_str(v.as_slice(), "advancements") || chars_eq_str(v.as_slice(), "进度过滤") {
        Some("advancements")
    } else if chars_eq_str(v.as_slice(), "item") || chars_eq_str(v.as_slice(), "物品") {
        Some("item")
    } else {
        None
    }
}

/// 游戏模式取值（选择器 `gamemode=` 与 `gamemode` 命令共用）。
pub open spec fn gamemode_value_spec(s: Seq<char>) -> Option<Seq<char>> {
    if s == "survival"@ || s == "生存"@ {
        Some("survival"@)
    } else if s == "creative"@ || s == "创造"@ {
        Some("creative"@)
    } else if s == "adventure"@ || s == "冒险"@ {
        Some("adventure"@)
    } else if s == "spectator"@ || s == "旁观"@ {
        Some("spectator"@)
    } else {
        None
    }
}

/// Each game-mode spelling names its own mode: a mode's English name and
/// its Chinese spelling, and nothing else, give that mode's English name,
/// so the four modes stay apart; every other word names no mode, and a
/// mode's English name reads back as itself.
pub proof fn lemma_gamemode_spellings(s: Seq<char>)
    ensures
        gamemode_value_spec(s) == Some("survival"@) <==> (s == "survival"@ || s == "生存"@),
        gamemode_value_spec(s) == Some("creative"@) <==> (s == "creative"@ || s == "创造"@),
        gamemode_value_spec(s) == Some("adventure"@) <==> (s == "adventure"@ || s == "冒险"@),
        gamemode_value_spec(s) == Some("spectator"@) <==> (s == "spectator"@ || s == "旁观"@),
        gamemode_value_spec(s) is None <==> !(s == "survival"@ || s == "生存"@ || s == "creative"@ || s == "创造"@
            || s == "adventure"@ || s == "冒险"@ || s == "spectator"@ || s == "旁观"@),
        gamemode_value_spec(s) is Some ==> (gamemode_value_spec(gamemode_value_spec(s)->0)
            == gamemode_value_spec(s)),
{
    reveal_strlit("survival");
    reveal_strlit("生存");
    reveal_strlit("creative");
    reveal_strlit("创造");
    reveal_strlit("adventure");
    reveal_strlit("冒险");
    reveal_strlit("spectator");
    reveal_strlit("旁观");
    assert("survival"@.len() != "生存"@.len());
    assert("survival"@[0] != "creative"@[0]);
    assert("survival"@.len() != "创造"@.len());
    assert("survival"@.len() != "adventure"@.len());
    assert("survival"@.len() != "冒险"@.len());
    assert("survival"@.len() != "spectator"@.len());
    assert("survival"@.len() != "旁观"@.len());
    assert("生存"@.len() != "creative"@.len());
    assert("生存"@[0] != "创造"@[0]);
    assert("生存"@.len() != "adventure"@.len());
    assert("生存"@[0] != "冒险"@[0]);
    assert("生存"@.len() != "spectator"@.len());
    assert("生存"@[0] != "旁观"@[0]);
    assert("creative"@.len() != "创造"@.len());
    assert("creative"@.len() != "adventure"@.len());
    assert("creative"@.len() != "冒险"@.len());
    assert("creative"@.len() != "spectator"@.len());
    assert("creative"@.len() != "旁观"@.len());
    assert("创造"@.len() != "adventure"@.len());
    assert("创造"@[0] != "冒险"@[0]);
    assert("创造"@.len() != "spectator"@.len());
    assert("创造"@[0] != "旁观"@[0]);
    assert("adventure"@.len() != "冒险"@.len());
    assert("adventure"@[0] != "spectator"@[0]);
    assert("adventure"@.len() != "旁观"@.len());
    assert("冒险"@.len() != "spectator"@.len());
    assert("冒险"@[0] != "旁观"@[0]);
    assert("spectator"@.len() != "旁观"@.len());
}

pub fn gamemode_value(value: &str) -> (r: Option<&'static str>)
    ensures
        opt_str(r) == gamemode_value_spec(value@),
{
    let v = chars_of(value);
    if chars_eq_str(v.as_slice(), "survival") || chars_eq_str(v.as_slice(), "生存") {
        Some("survival")
    } else if chars_eq_str(v.as_slice(), "creative") || chars_eq_str(v.as_slice(), "创造") {
        Some("creative")
    } else if chars_eq_str(v.as_slice(), "adventure") || chars_eq_str(v.as_slice(), "冒险") {
        Some("adventure")
    } else if chars_eq_str(v.as_slice(), "spectator") || chars_eq_str(v.as_slice(), "旁观") {
        Some("spectator")
    } else {
        None
    }
}

pub open spec fn item_property_spec(s: Seq<char>) -> Option<Seq<char>> {
    if s == "id"@ || s == "类型"@ {
        Some("id"@)
    } else if s == "count"@ || s == "数量"@ {
        Some("count"@)
    } else if s == "custom_name"@ || s == "自定义名称"@ {
        Some("custom_name"@)
    } else {
        None
    }
}

pub fn item_property(value: &str) -> (r: Option<&'static str>)
    ensures
        opt_str(r) == item_property_spec(value@),
{
    let v = chars_of(value);
    if chars_eq_str(v.as_slice(), "id") || chars_eq_str(v.as_slice(), "类型") {
        Some("id")
    } else if chars_eq_str(v.as_slice(), "count") || chars_eq_str(v.as_slice(), "数量") {
        Some("count")
    } else if chars_eq_str(v.as_slice(), "custom_name") || chars_eq_str(v.as_slice(), "自定义名称") {
        Some("custom_name")
    } else {
        None
    }
}

/// `fn_tag` 声明体允许的属性与中文别名。
pub open spec fn function_tag_property_spec(s: Seq<char>) -> Option<Seq<char>> {
    if s == "value"@ || s == "值"@ {
        Some("value"@)
    } else if s == "replace"@ || s == "替换"@ {
        Some("replace"@)
    } else {
        None
    }
}

pub fn function_tag_property(value: &str) -> (r: Option<&'static str>)
    ensures
        opt_str(r) == function_tag_property_spec(value@),
{
    let v = chars_of(value);
    if chars_eq_str(v.as_slice(), "value") || chars_eq_str(v.as_slice(), "值") {
        Some("value")
    } else if chars_eq_str(v.as_slice(), "replace") || chars_eq_str(v.as_slice(), "替换") {
        Some("replace")
    } else {
        None
    }
}

pub open spec fn item_stack_property_spec(s: Seq<char>) -> Option<Seq<char>> {
    if s == "components"@ || s == "组件"@ {
        Some("components"@)
    } else if s == "count"@ || s == "数量"@ {
        Some("count"@)
    } else if s == "custom_name"@ || s == "自定义名称"@ {
        Some("custom_name"@)
    } else if s == "item_name"@ || s == "物品名称"@ {
        Some("item_name"@)
    } else if s == "lore"@ || s == "描述"@ {
        Some("lore"@)
    } else if s == "enchantment"@ || s == "附魔"@ {
        Some("enchantment"@)
    } else if s == "stored_enchantment"@ || s == "存储附魔"@ {
        Some("stored_enchantment"@)
    } else if s == "damage"@ || s == "损伤"@ {
        Some("damage"@)
    } else if s == "max_damage"@ || s == "最大损伤"@ {
        Some("max_damage"@)
    } else if s == "max_stack_size"@ || s == "最大堆叠"@ {
        Some("max_stack_size"@)
    } else if s == "rarity"@ || s == "稀有度"@ {
        Some("rarity"@)
    } else if s == "item_model"@ || s == "物品模型"@ {
        Some("item_model"@)
    } else if s == "dyed_color"@ || s == "染色"@ {
        Some("dyed_color"@)
    } else if s == "enchantment_glint_override"@ || s == "附魔光效"@ {
        Some("enchantment_glint_override"@)
    } else if s == "unbreakable"@ || s == "无法破坏"@ {
        Some("unbreakable"@)
    } else if s == "custom_data"@ || s == "自定义数据"@ {
        Some("custom_data"@)
    } else {
        None
    }
}

pub fn item_stack_property(value: &str) -> (r: Option<&'static str>)
    ensures
        opt_str(r) == item_stack_property_spec(value@),
{
    let v = chars_of(value);
    if chars_eq_str(v.as_slice(), "components") || chars_eq_str(v.as_slice(), "组件") {
        Some("components")
    } else if chars_eq_str(v.as_slice(), "count") || chars_eq_str(v.as_slice(), "数量") {
        Some("count")
    } else if chars_eq_str(v.as_slice(), "custom_name") || chars_eq_str(v.as_slice(), "自定义名称") {
        Some("custom_name")
    } else if chars_eq_str(v.as_slice(), "item_name") || chars_eq_str(v.as_slice(), "物品名称") {
        Some("item_name")
    } else if chars_eq_str(v.as_slice(), "lore") || chars_eq_str(v.as_slice(), "描述") {
        Some("lore")
    } else if chars_eq_str(v.as_slice(), "enchantment") || chars_eq_str(v.as_slice(), "附魔") {
        Some("enchantment")
    } else if chars_eq_str(v.as_slice(), "stored_enchantment") || chars_eq_str(v.as_slice(), "存储附魔") {
        Some("stored_enchantment")
    } else if chars_eq_str(v.as_slice(), "damage") || chars_eq_str(v.as_slice(), "损伤") {
        Some("damage")
    } else if chars_eq_str(v.as_slice(), "max_damage") || chars_eq_str(v.as_slice(), "最大损伤") {
        Some("max_damage")
    } else if chars_eq_str(v.as_slice(), "max_stack_size") || chars_eq_str(v.as_slice(), "最大堆叠") {
        Some("max_stack_size")
    } else if chars_eq_str(v.as_slice(), "rarity") || chars_eq_str(v.as_slice(), "稀有度") {
        Some("rarity")
    } else if chars_eq_str(v.as_slice(), "item_model") || chars_eq_str(v.as_slice(), "物品模型") {
        Some("item_model")
    } else if chars_eq_str(v.as_slice(), "dyed_color") || chars_eq_str(v.as_slice(), "染色") {
        Some("dyed_color")
    } else if chars_eq_str(v.as_slice(), "enchantment_glint_override") || chars_eq_str(v.as_slice(), "附魔光效") {
        Some("enchantment_glint_override")
    } else if chars_eq_str(v.as_slice(), "unbreakable") || chars_eq_str(v.as_slice(), "无法破坏") {
        Some("unbreakable")
    } else if chars_eq_str(v.as_slice(), "custom_data") || chars_eq_str(v.as_slice(), "自定义数据") {
        Some("custom_data")
    } else {
        None
    }
}

/// 类型化物品查询目前只支持 `contents` 槽；`内容` 是它的中文写法。
pub open spec fn slot_name_spec(s: Seq<char>) -> Option<Seq<char>> {
    if s == "contents"@ || s == "内容"@ {
        Some("contents"@)
    } else {
        None
    }
}

pub fn slot_name(value: &str) -> (r: Option<&'static str>)
    ensures
        opt_str(r) == slot_name_spec(value@),
{
    let v = chars_of(value);
    if chars_eq_str(v.as_slice(), "contents") || chars_eq_str(v.as_slice(), "内容") {
        Some("contents")
    } else {
        None
    }
}

/// `resource` 声明允许把常用资源类型写成中文。
pub open spec fn resource_kind_spec(s: Seq<char>) -> Option<Seq<char>> {
    if s == "recipe"@ || s == "配方"@ {
        Some("recipe"@)
    } else if s == "predicate"@ || s == "谓词"@ {
        Some("predicate"@)
    } else {
        None
    }
}

pub fn resource_kind(value: &str) -> (r: Option<&'static str>)
    ensures
        opt_str(r) == resource_kind_spec(value@),
{
    let v = chars_of(value);
    if chars_eq_str(v.as_slice(), "recipe") || chars_eq_str(v.as_slice(), "配方") {
        Some("recipe")
    } else if chars_eq_str(v.as_slice(), "predicate") || chars_eq_str(v.as_slice(), "谓词") {
        Some("predicate")
    } else {
        None
    }
}

/// `advancement.grant/revoke` 的方法名，返回操作与作用范围。
pub open spec fn advancement_method_spec(s: Seq<char>) -> Option<(Seq<char>, Seq<char>)> {
    if s == "grant"@ || s == "授予"@ {
        Some(("grant"@, "only"@))
    } else if s == "grant_through"@ || s == "授予至"@ {
        Some(("grant"@, "through"@))
    } else if s == "grant_from"@ || s == "授予从"@ {
        Some(("grant"@, "from"@))
    } else if s == "grant_until"@ || s == "授予直到"@ {
        Some(("grant"@, "until"@))
    } else if s == "grant_everything"@ || s == "授予全部"@ {
        Some(("grant"@, "everything"@))
    } else if s == "revoke"@ || s == "撤销"@ {
        Some(("revoke"@, "only"@))
    } else if s == "revoke_through"@ || s == "撤销至"@ {
        Some(("revoke"@, "through"@))
    } else if s == "revoke_from"@ || s == "撤销从"@ {
        Some(("revoke"@, "from"@))
    } else if s == "revoke_until"@ || s == "撤销直到"@ {
        Some(("revoke"@, "until"@))
    } else if s == "revoke_everything"@ || s == "撤销全部"@ {
        Some(("revoke"@, "everything"@))
    } else {
        None
    }
}

pub fn advancement_method(value: &str) -> (r: Option<(&'static str, &'static str)>)
    ensures
        opt_pair(r) == advancement_method_spec(value@),
{
    let v = chars_of(value);
    if chars_eq_str(v.as_slice(), "grant") || chars_eq_str(v.as_slice(), "授予") {
        Some(("grant", "only"))
    } else if chars_eq_str(v.as_slice(), "grant_through") || chars_eq_str(v.as_slice(), "授予至") {
        Some(("grant", "through"))
    } else if chars_eq_str(v.as_slice(), "grant_from") || chars_eq_str(v.as_slice(), "授予从") {
        Some(("grant", "from"))
    } else if chars_eq_str(v.as_slice(), "grant_until") || chars_eq_str(v.as_slice(), "授予直到") {
        Some(("grant", "until"))
    } else if chars_eq_str(v.as_slice(), "grant_everything") || chars_eq_str(v.as_slice(), "授予全部") {
        Some(("grant", "everything"))
    } else if chars_eq_str(v.as_slice(), "revoke") || chars_eq_str(v.as_slice(), "撤销") {
        Some(("revoke", "only"))
    } else if chars_eq_str(v.as_slice(), "revoke_through") || chars_eq_str(v.as_slice(), "撤销至") {
        Some(("revoke", "through"))
    } else if chars_eq_str(v.as_slice(), "revoke_from") || chars_eq_str(v.as_slice(), "撤销从") {
        Some(("revoke", "from"))
    } else if chars_eq_str(v.as_slice(), "revoke_until") || chars_eq_str(v.as_slice(), "撤销直到") {
        Some(("revoke", "until"))
    } else if chars_eq_str(v.as_slice(), "revoke_everything") || chars_eq_str(v.as_slice(), "撤销全部") {
        Some(("revoke", "everything"))
    } else {
        None
    }
}

/// `advancement` 声明块的顶层属性。
pub open spec fn advancement_property_spec(s: Seq<char>) -> Option<Seq<char>> {
    if s == "parent"@ || s == "父进度"@ {
        Some("parent"@)
    } else if s == "criterion"@ || s == "准则"@ {
        Some("criterion"@)
    } else if s == "requirements"@ || s == "要求"@ {
        Some("requirements"@)
    } else if s == "reward"@ || s == "奖励"@ {
        Some("reward"@)
    } else if s == "display"@ || s == "展示"@ {
        Some("display"@)
    } else {
        None
    }
}

pub fn advancement_property(value: &str) -> (r: Option<&'static str>)
    ensures
        opt_str(r) == advancement_property_spec(value@),
{
    let v = chars_of(value);
    if chars_eq_str(v.as_slice(), "parent") || chars_eq_str(v.as_slice(), "父进度") {
        Some("parent")
    } else if chars_eq_str(v.as_slice(), "criterion") || chars_eq_str(v.as_slice(), "准则") {
        Some("criterion")
    } else if chars_eq_str(v.as_slice(), "requirements") || chars_eq_str(v.as_slice(), "要求") {
        Some("requirements")
    } else if chars_eq_str(v.as_slice(), "reward") || chars_eq_str(v.as_slice(), "奖励") {
        Some("reward")
    } else if chars_eq_str(v.as_slice(), "display") || chars_eq_str(v.as_slice(), "展示") {
        Some("display")
    } else {
        None
    }
}

/// `criterion` 块内的属性。
pub open spec fn criterion_property_spec(s: Seq<char>) -> Option<Seq<char>> {
    if s == "trigger"@ || s == "触发器"@ {
        Some("trigger"@)
    } else if s == "conditions"@ || s == "条件"@ {
        Some("conditions"@)
    } else {
        None
    }
}

pub fn criterion_property(value: &str) -> (r: Option<&'static str>)
    ensures
        opt_str(r) == criterion_property_spec(value@),
{
    let v = chars_of(value);
    if chars_eq_str(v.as_slice(), "trigger") || chars_eq_str(v.as_slice(), "触发器") {
        Some("trigger")
    } else if chars_eq_str(v.as_slice(), "conditions") || chars_eq_str(v.as_slice(), "条件") {
        Some("conditions")
    } else {
        None
    }
}

/// `reward` 块内的属性。
pub open spec fn reward_property_spec(s: Seq<char>) -> Option<Seq<char>> {
    if s == "function"@ || s == "函数"@ {
        Some("function"@)
    } else if s == "experience"@ || s == "经验"@ {
        Some("experience"@)
    } else if s == "loot"@ || s == "战利品"@ {
        Some("loot"@)
    } else if s == "recipe"@ || s == "配方"@ {
        Some("recipe"@)
    } else {
        None
    }
}

pub fn reward_property(value: &str) -> (r: Option<&'static str>)
    ensures
        opt_str(r) == reward_property_spec(value@),
{
    let v = chars_of(value);
    if chars_eq_str(v.as_slice(), "function") || chars_eq_str(v.as_slice(), "函数") {
        Some("function")
    } else if chars_eq_str(v.as_slice(), "experience") || chars_eq_str(v.as_slice(), "经验") {
        Some("experience")
    } else if chars_eq_str(v.as_slice(), "loot") || chars_eq_str(v.as_slice(), "战利品") {
        Some("loot")
    } else if chars_eq_str(v.as_slice(), "recipe") || chars_eq_str(v.as_slice(), "配方") {
        Some("recipe")
    } else {
        None
    }
}

/// `display` 块内的属性。
pub open spec fn display_property_spec(s: Seq<char>) -> Option<Seq<char>> {
    if s == "icon"@ || s == "图标"@ {
        Some("icon"@)
    } else if s == "title"@ || s == "标题"@ {
        Some("title"@)
    } else if s == "description"@ || s == "描述"@ {
        Some("description"@)
    } else if s == "frame"@ || s == "框架"@ {
        Some("frame"@)
    } else if s == "background"@ || s == "背景"@ {
        Some("background"@)
    } else if s == "show_toast"@ || s == "显示提示"@ {
        Some("show_toast"@)
    } else if s == "announce_to_chat"@ || s == "聊天公告"@ {
        Some("announce_to_chat"@)
    } else if s == "hidden"@ || s == "隐藏"@ {
        Some("hidden"@)
    } else {
        None
    }
}

pub fn display_property(value: &str) -> (r: Option<&'static str>)
    ensures
        opt_str(r) == display_property_spec(value@),
{
    let v = chars_of(value);
    if chars_eq_str(v.as_slice(), "icon") || chars_eq_str(v.as_slice(), "图标") {
        Some("icon")
    } else if chars_eq_str(v.as_slice(), "title") || chars_eq_str(v.as_slice(), "标题") {
        Some("title")
    } else if chars_eq_str(v.as_slice(), "description") || chars_eq_str(v.as_slice(), "描述") {
        Some("description")
    } else if chars_eq_str(v.as_slice(), "frame") || chars_eq_str(v.as_slice(), "框架") {
        Some("frame")
    } else if chars_eq_str(v.as_slice(), "background") || chars_eq_str(v.as_slice(), "背景") {
        Some("background")
    } else if chars_eq_str(v.as_slice(), "show_toast") || chars_eq_str(v.as_slice(), "显示提示") {
        Some("show_toast")
    } else if chars_eq_str(v.as_slice(), "announce_to_chat") || chars_eq_str(v.as_slice(), "聊天公告") {
        Some("announce_to_chat")
    } else if chars_eq_str(v.as_slice(), "hidden") || chars_eq_str(v.as_slice(), "隐藏") {
        Some("hidden")
    } else {
        None
    }
}

/// `display.frame` 的三种进度框样式。
pub open spec fn advancement_frame_spec(s: Seq<char>) -> Option<AdvancementFrame> {
    if s == "task"@ || s == "任务"@ {
        Some(AdvancementFrame::Task)
    } else if s == "goal"@ || s == "目标"@ {
        Some(AdvancementFrame::Goal)
    } else if s == "challenge"@ || s == "挑战"@ {
        Some(AdvancementFrame::Challenge)
    } else {
        None
    }
}

pub fn advancement_frame(value: &str) -> (r: Option<AdvancementFrame>)
    ensures
        r == advancement_frame_spec(value@),
{
    let v = chars_of(value);
    if chars_eq_str(v.as_slice(), "task") || chars_eq_str(v.as_slice(), "任务") {
        Some(AdvancementFrame::Task)
    } else if chars_eq_str(v.as_slice(), "goal") || chars_eq_str(v.as_slice(), "目标") {
        Some(AdvancementFrame::Goal)
    } else if chars_eq_str(v.as_slice(), "challenge") || chars_eq_str(v.as_slice(), "挑战") {
        Some(AdvancementFrame::Challenge)
    } else {
        None
    }
}

/// `requirements` 的两种完成策略。
pub open spec fn advancement_requirements_spec(s: Seq<char>) -> Option<AdvancementRequirements> {
    if s == "all"@ || s == "全部"@ {
        Some(AdvancementRequirements::All)
    } else if s == "any"@ || s == "任意"@ {
        Some(AdvancementRequirements::Any)
    } else {
        None
    }
}

pub fn advancement_requirements(value: &str) -> (r: Option<AdvancementRequirements>)
    ensures
        r == advancement_requirements_spec(value@),
{
    let v = chars_of(value);
    if chars_eq_str(v.as_slice(), "all") || chars_eq_str(v.as_slice(), "全部") {
        Some(AdvancementRequirements::All)
    } else if chars_eq_str(v.as_slice(), "any") || chars_eq_str(v.as_slice(), "任意") {
        Some(AdvancementRequirements::Any)
    } else {
        None
    }
}

pub open spec fn rarity_value_spec(s: Seq<char>) -> Option<ItemRarity> {
    if s == "common"@ || s == "普通"@ {
        Some(ItemRarity::Common)
    } else if s == "uncommon"@ || s == "罕见"@ {
        Some(ItemRarity::Uncommon)
    } else if s == "rare"@ || s == "稀有"@ {
        Some(ItemRarity::Rare)
    } else if s == "epic"@ || s == "史诗"@ {
        Some(ItemRarity::Epic)
    } else {
        None
    }
}

pub fn rarity_value(value: &str) -> (r: Option<ItemRarity>)
    ensures
        r == rarity_value_spec(value@),
{
    let v = chars_of(value);
    if chars_eq_str(v.as_slice(), "common") || chars_eq_str(v.as_slice(), "普通") {
        Some(ItemRarity::Common)
    } else if chars_eq_str(v.as_slice(), "uncommon") || chars_eq_str(v.as_slice(), "罕见") {
        Some(ItemRarity::Uncommon)
    } else if chars_eq_str(v.as_slice(), "rare") || chars_eq_str(v.as_slice(), "稀有") {
        Some(ItemRarity::Rare)
    } else if chars_eq_str(v.as_slice(), "epic") || chars_eq_str(v.as_slice(), "史诗") {
        Some(ItemRarity::Epic)
    } else {
        None
    }
}

pub open spec fn entity_sort_spec(s: Seq<char>) -> Option<Seq<char>> {
    if s == "nearest"@ || s == "最近"@ {
        Some("nearest"@)
    } else if s == "furthest"@ || s == "最远"@ {
        Some("furthest"@)
    } else if s == "random"@ || s == "随机"@ {
        Some("random"@)
    } else if s == "arbitrary"@ || s == "任意"@ {
        Some("arbitrary"@)
    } else {
        None
    }
}

pub fn entity_sort(value: &str) -> (r: Option<&'static str>)
    ensures
        opt_str(r) == entity_sort_spec(value@),
{
    let v = chars_of(value);
    if chars_eq_str(v.as_slice(), "nearest") || chars_eq_str(v.as_slice(), "最近") {
        Some("nearest")
    } else if chars_eq_str(v.as_slice(), "furthest") || chars_eq_str(v.as_slice(), "最远") {
        Some("furthest")
    } else if chars_eq_str(v.as_slice(), "random") || chars_eq_str(v.as_slice(), "随机") {
        Some("random")
    } else if chars_eq_str(v.as_slice(), "arbitrary") || chars_eq_str(v.as_slice(), "任意") {
        Some("arbitrary")
    } else {
        None
    }
}


/// A function attribute.
#[derive(Clone, Copy, Debug, PartialEq, Eq, Structural)]
pub enum Attribute {
    Load,
    Tick,
    Entity,
    Player,
    NonPlayer,
}

/// The first entry at or after `i` whose English spelling is `w`.
pub open spec fn first_english(t: Seq<(Seq<char>, Seq<char>)>, w: Seq<char>, i: int) -> Option<int>
    decreases t.len() - i,
{
    if i < 0 || i >= t.len() {
        None
    } else if t[i].0 == w {
        Some(i)
    } else {
        first_english(t, w, i + 1)
    }
}

/// The first entry at or after `i` with `w` as either spelling.
pub open spec fn first_spelled(t: Seq<(Seq<char>, Seq<char>)>, w: Seq<char>, i: int) -> Option<int>
    decreases t.len() - i,
{
    if i < 0 || i >= t.len() {
        None
    } else if t[i].0 == w || t[i].1 == w {
        Some(i)
    } else {
        first_spelled(t, w, i + 1)
    }
}

/// The attribute an English attribute spelling names.
pub open spec fn attribute_named(english: Seq<char>) -> Option<Attribute> {
    if english == "load"@ {
        Some(Attribute::Load)
    } else if english == "tick"@ {
        Some(Attribute::Tick)
    } else if english == "entity"@ {
        Some(Attribute::Entity)
    } else if english == "player"@ {
        Some(Attribute::Player)
    } else if english == "non_player"@ {
        Some(Attribute::NonPlayer)
    } else {
        None
    }
}

/// The attribute spelled `value`, in English or Chinese.
pub open spec fn attribute_word_spec(value: Seq<char>) -> Option<Attribute> {
    match first_spelled(attribute_table(), value, 0) {
        Some(i) => attribute_named(attribute_table()[i].0),
        None => None,
    }
}

/// The Chinese alias of an English keyword.
pub open spec fn keyword_alias_spec(english: Seq<char>) -> Option<Seq<char>> {
    match first_english(keyword_table(), english, 0) {
        Some(i) => Some(keyword_table()[i].1),
        None => None,
    }
}

/// `value` spells the keyword `english`, in either language.
pub open spec fn word_matches_spec(value: Seq<char>, english: Seq<char>) -> bool {
    value == english || keyword_alias_spec(english) == Some(value)
}

/// Reserved words: every keyword spelling and the boolean literals.
pub open spec fn reserved_word_spec(value: Seq<char>) -> bool {
    (exists|i: int| 0 <= i < keyword_table().len() && (keyword_table()[i].0 == value || keyword_table()[i].1 == value))
        || value == "true"@ || value == "false"@ || value == "真"@ || value == "假"@
}

/// The index of the first entry with `w` as its English spelling, or as
/// either spelling when `either` holds.
fn find_keyword(t: &Vec<Keyword>, w: &str, either: bool) -> (r: Option<usize>)
    ensures
        match r {
            Some(i) => i < t@.len() && (either ==> first_spelled(keyword_views(t@), w@, 0) == Some(i as int))
                && (!either ==> first_english(keyword_views(t@), w@, 0) == Some(i as int)),
            None => (either ==> first_spelled(keyword_views(t@), w@, 0) is None)
                && (!either ==> first_english(keyword_views(t@), w@, 0) is None),
        },
{
    let mut i: usize = 0;
    while i < t.len()
        invariant
            i <= t@.len(),
            either ==> first_spelled(keyword_views(t@), w@, i as int) == first_spelled(keyword_views(t@), w@, 0),
            !either ==> first_english(keyword_views(t@), w@, i as int) == first_english(keyword_views(t@), w@, 0),
        decreases t.len() - i,
    {
        let k = t[i];
        assert(keyword_views(t@)[i as int] == (k.english@, k.chinese@));
        let hit = crate::chars::str_eq(k.english, w) || (either && crate::chars::str_eq(k.chinese, w));
        if hit {
            return Some(i);
        }
        i += 1;
    }
    None
}

/// The attribute spelled `value` (after `@`), in English or Chinese.
pub fn attribute_word(value: &str) -> (r: Option<Attribute>)
    ensures
        r == attribute_word_spec(value@),
{
    let table = attributes();
    match find_keyword(&table, value, true) {
        None => None,
        Some(i) => {
            let english = table[i].english;
            assert(keyword_views(table@)[i as int].0 == english@);
            if crate::chars::str_eq(english, "load") {
                Some(Attribute::Load)
            } else if crate::chars::str_eq(english, "tick") {
                Some(Attribute::Tick)
            } else if crate::chars::str_eq(english, "entity") {
                Some(Attribute::Entity)
            } else if crate::chars::str_eq(english, "player") {
                Some(Attribute::Player)
            } else if crate::chars::str_eq(english, "non_player") {
                Some(Attribute::NonPlayer)
            } else {
                None
            }
        },
    }
}

/// The Chinese alias of an English keyword.
pub fn keyword_alias(english: &str) -> (r: Option<&'static str>)
    ensures
        opt_str(r) == keyword_alias_spec(english@),
{
    let table = keywords();
    match find_keyword(&table, english, false) {
        None => None,
        Some(i) => {
            assert(keyword_views(table@)[i as int].1 == table@[i as int].chinese@);
            Some(table[i].chinese)
        },
    }
}

/// Whether `value` spells the keyword `english` in either language.
pub fn word_matches(value: &str, english: &str) -> (r: bool)
    ensures
        r == word_matches_spec(value@, english@),
{
    if crate::chars::str_eq(value, english) {
        return true;
    }
    match keyword_alias(english) {
        Some(alias) => crate::chars::str_eq(alias, value),
        None => false,
    }
}

/// Words that cannot be identifiers: every keyword, in both languages, and
/// the boolean literals. Attribute names are not reserved: the `@` prefix
/// already tells them apart.
pub fn reserved_word(value: &str) -> (r: bool)
    ensures
        r == reserved_word_spec(value@),
{
    let table = keywords();
    let found = find_keyword(&table, value, true);
    proof {
        let t = keyword_views(table@);
        lemma_first_spelled(t, value@, 0);
    }
    found.is_some() || crate::chars::str_eq(value, "true") || crate::chars::str_eq(value, "false")
        || crate::chars::str_eq(value, "真") || crate::chars::str_eq(value, "假")
}

/// The first spelled entry exists exactly when some entry has the spelling.
proof fn lemma_first_spelled(t: Seq<(Seq<char>, Seq<char>)>, w: Seq<char>, i: int)
    requires
        0 <= i,
    ensures
        first_spelled(t, w, i) is Some <==> exists|j: int| i <= j < t.len() && (t[j].0 == w || t[j].1 == w),
    decreases t.len() - i,
{
    if i < t.len() {
        lemma_first_spelled(t, w, i + 1);
        if first_spelled(t, w, i) is None {
            assert forall|j: int| i <= j < t.len() implies !(t[j].0 == w || t[j].1 == w) by {
                if j > i {
                }
            }
        }
    }
}

} // verus!
