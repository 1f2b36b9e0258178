//! Method, source and style words of statements, with their Chinese
//! spellings.

use vstd::prelude::*;
use crate::chars::{chars_of, chars_eq_str};
use super::{opt_str, opt_pair};

verus! {

broadcast use vstd::string::group_string_axioms;

#[derive(Clone, Copy, Debug, PartialEq, Eq, Structural)]
pub enum XpKind {
    Points,
    Levels,
}

pub open spec fn self_method_spec(s: Seq<char>) -> Option<Seq<char>> {
    if s == "add_tag"@ || s == "添加标签"@ {
        Some("add_tag"@)
    } else if s == "remove_tag"@ || s == "移除标签"@ {
        Some("remove_tag"@)
    } else if s == "set_invulnerable"@ || s == "设置无敌"@ {
        Some("set_invulnerable"@)
    } else if s == "set_no_gravity"@ || s == "设置无视重力"@ {
        Some("set_no_gravity"@)
    } else if s == "save_items"@ || s == "保存物品"@ {
        Some("save_items"@)
    } else if s == "restore_items"@ || s == "恢复物品"@ {
        Some("restore_items"@)
    } else if s == "remove_preserving_items"@ || s == "保存并移除"@ {
        Some("remove_preserving_items"@)
    } else if s == "give_item"@ || s == "给予物品"@ {
        Some("give_item"@)
    } else if s == "clear_items"@ || s == "清空物品"@ {
        Some("clear_items"@)
    } else if s == "deposit"@ || s == "存入"@ {
        Some("deposit"@)
    } else if s == "withdraw"@ || s == "取出"@ {
        Some("withdraw"@)
    } else if s == "remove_data"@ || s == "移除数据"@ {
        Some("remove_data"@)
    } else if s == "remove"@ || s == "移除"@ {
        Some("remove"@)
    } else {
        None
    }
}

pub fn self_method(value: &str) -> (r: Option<&'static str>)
    ensures
        opt_str(r) == self_method_spec(value@),
{
    let v = chars_of(value);
    if chars_eq_str(v.as_slice(), "add_tag") || chars_eq_str(v.as_slice(), "添加标签") {
        Some("add_tag")
    } else if chars_eq_str(v.as_slice(), "remove_tag") || chars_eq_str(v.as_slice(), "移除标签") {
        Some("remove_tag")
    } else if chars_eq_str(v.as_slice(), "set_invulnerable") || chars_eq_str(v.as_slice(), "设置无敌") {
        Some("set_invulnerable")
    } else if chars_eq_str(v.as_slice(), "set_no_gravity") || chars_eq_str(v.as_slice(), "设置无视重力") {
        Some("set_no_gravity")
    } else if chars_eq_str(v.as_slice(), "save_items") || chars_eq_str(v.as_slice(), "保存物品") {
        Some("save_items")
    } else if chars_eq_str(v.as_slice(), "restore_items") || chars_eq_str(v.as_slice(), "恢复物品") {
        Some("restore_items")
    } else if chars_eq_str(v.as_slice(), "remove_preserving_items") || chars_eq_str(v.as_slice(), "保存并移除") {
        Some("remove_preserving_items")
    } else if chars_eq_str(v.as_slice(), "give_item") || chars_eq_str(v.as_slice(), "给予物品") {
        Some("give_item")
    } else if chars_eq_str(v.as_slice(), "clear_items") || chars_eq_str(v.as_slice(), "清空物品") {
        Some("clear_items")
    } else if chars_eq_str(v.as_slice(), "deposit") || chars_eq_str(v.as_slice(), "存入") {
        Some("deposit")
    } else if chars_eq_str(v.as_slice(), "withdraw") || chars_eq_str(v.as_slice(), "取出") {
        Some("withdraw")
    } else if chars_eq_str(v.as_slice(), "remove_data") || chars_eq_str(v.as_slice(), "移除数据") {
        Some("remove_data")
    } else if chars_eq_str(v.as_slice(), "remove") || chars_eq_str(v.as_slice(), "移除") {
        Some("remove")
    } else {
        None
    }
}

/// `scoreboard.set/reset/get` 的方法名；`get` 只在表达式里使用。
pub open spec fn scoreboard_method_spec(s: Seq<char>) -> Option<Seq<char>> {
    if s == "set"@ || s == "设置"@ {
        Some("set"@)
    } else if s == "reset"@ || s == "重置"@ {
        Some("reset"@)
    } else if s == "get"@ || s == "取"@ {
        Some("get"@)
    } else if s == "enable"@ || s == "启用"@ {
        Some("enable"@)
    } else if s == "operation"@ || s == "运算"@ {
        Some("operation"@)
    } else if s == "display"@ || s == "显示"@ {
        Some("display"@)
    } else {
        None
    }
}

pub fn scoreboard_method(value: &str) -> (r: Option<&'static str>)
    ensures
        opt_str(r) == scoreboard_method_spec(value@),
{
    let v = chars_of(value);
    if chars_eq_str(v.as_slice(), "set") || chars_eq_str(v.as_slice(), "设置") {
        Some("set")
    } else if chars_eq_str(v.as_slice(), "reset") || chars_eq_str(v.as_slice(), "重置") {
        Some("reset")
    } else if chars_eq_str(v.as_slice(), "get") || chars_eq_str(v.as_slice(), "取") {
        Some("get")
    } else if chars_eq_str(v.as_slice(), "enable") || chars_eq_str(v.as_slice(), "启用") {
        Some("enable")
    } else if chars_eq_str(v.as_slice(), "operation") || chars_eq_str(v.as_slice(), "运算") {
        Some("operation")
    } else if chars_eq_str(v.as_slice(), "display") || chars_eq_str(v.as_slice(), "显示") {
        Some("display")
    } else {
        None
    }
}

/// `scoreboard players operation` 的运算名。
pub open spec fn score_operation_spec(s: Seq<char>) -> Option<Seq<char>> {
    if s == "set"@ || s == "赋值"@ {
        Some("set"@)
    } else if s == "add"@ || s == "加上"@ {
        Some("add"@)
    } else if s == "subtract"@ || s == "减去"@ {
        Some("subtract"@)
    } else if s == "multiply"@ || s == "乘以"@ {
        Some("multiply"@)
    } else if s == "divide"@ || s == "除以"@ {
        Some("divide"@)
    } else if s == "modulo"@ || s == "取余"@ {
        Some("modulo"@)
    } else if s == "min"@ || s == "最小值"@ {
        Some("min"@)
    } else if s == "max"@ || s == "最大值"@ {
        Some("max"@)
    } else if s == "swap"@ || s == "交换"@ {
        Some("swap"@)
    } else {
        None
    }
}

pub fn score_operation(value: &str) -> (r: Option<&'static str>)
    ensures
        opt_str(r) == score_operation_spec(value@),
{
    let v = chars_of(value);
    if chars_eq_str(v.as_slice(), "set") || chars_eq_str(v.as_slice(), "赋值") {
        Some("set")
    } else if chars_eq_str(v.as_slice(), "add") || chars_eq_str(v.as_slice(), "加上") {
        Some("add")
    } else if chars_eq_str(v.as_slice(), "subtract") || chars_eq_str(v.as_slice(), "减去") {
        Some("subtract")
    } else if chars_eq_str(v.as_slice(), "multiply") || chars_eq_str(v.as_slice(), "乘以") {
        Some("multiply")
    } else if chars_eq_str(v.as_slice(), "divide") || chars_eq_str(v.as_slice(), "除以") {
        Some("divide")
    } else if chars_eq_str(v.as_slice(), "modulo") || chars_eq_str(v.as_slice(), "取余") {
        Some("modulo")
    } else if chars_eq_str(v.as_slice(), "min") || chars_eq_str(v.as_slice(), "最小值") {
        Some("min")
    } else if chars_eq_str(v.as_slice(), "max") || chars_eq_str(v.as_slice(), "最大值") {
        Some("max")
    } else if chars_eq_str(v.as_slice(), "swap") || chars_eq_str(v.as_slice(), "交换") {
        Some("swap")
    } else {
        None
    }
}

/// `objective` 声明块里的属性名。
pub open spec fn objective_property_spec(s: Seq<char>) -> Option<Seq<char>> {
    if s == "criteria"@ || s == "准则"@ {
        Some("criteria"@)
    } else if s == "display_name"@ || s == "显示名"@ {
        Some("display_name"@)
    } else if s == "render_type"@ || s == "渲染类型"@ {
        Some("render_type"@)
    } else if s == "number_format"@ || s == "数字格式"@ {
        Some("number_format"@)
    } else if s == "display_slot"@ || s == "显示槽"@ {
        Some("display_slot"@)
    } else {
        None
    }
}

pub fn objective_property(value: &str) -> (r: Option<&'static str>)
    ensures
        opt_str(r) == objective_property_spec(value@),
{
    let v = chars_of(value);
    if chars_eq_str(v.as_slice(), "criteria") || chars_eq_str(v.as_slice(), "准则") {
        Some("criteria")
    } else if chars_eq_str(v.as_slice(), "display_name") || chars_eq_str(v.as_slice(), "显示名") {
        Some("display_name")
    } else if chars_eq_str(v.as_slice(), "render_type") || chars_eq_str(v.as_slice(), "渲染类型") {
        Some("render_type")
    } else if chars_eq_str(v.as_slice(), "number_format") || chars_eq_str(v.as_slice(), "数字格式") {
        Some("number_format")
    } else if chars_eq_str(v.as_slice(), "display_slot") || chars_eq_str(v.as_slice(), "显示槽") {
        Some("display_slot")
    } else {
        None
    }
}

/// 目标渲染类型。
pub open spec fn render_type_spec(s: Seq<char>) -> Option<Seq<char>> {
    if s == "integer"@ || s == "整数"@ {
        Some("integer"@)
    } else if s == "hearts"@ || s == "爱心"@ {
        Some("hearts"@)
    } else {
        None
    }
}

pub fn render_type(value: &str) -> (r: Option<&'static str>)
    ensures
        opt_str(r) == render_type_spec(value@),
{
    let v = chars_of(value);
    if chars_eq_str(v.as_slice(), "integer") || chars_eq_str(v.as_slice(), "整数") {
        Some("integer")
    } else if chars_eq_str(v.as_slice(), "hearts") || chars_eq_str(v.as_slice(), "爱心") {
        Some("hearts")
    } else {
        None
    }
}

/// `item` 命令的方法名。
pub open spec fn item_method_spec(s: Seq<char>) -> Option<Seq<char>> {
    if s == "replace"@ || s == "替换"@ {
        Some("replace"@)
    } else if s == "fill"@ || s == "填充"@ {
        Some("fill"@)
    } else if s == "override"@ || s == "覆盖"@ {
        Some("override"@)
    } else if s == "modify"@ || s == "修改"@ {
        Some("modify"@)
    } else {
        None
    }
}

pub fn item_method(value: &str) -> (r: Option<&'static str>)
    ensures
        opt_str(r) == item_method_spec(value@),
{
    let v = chars_of(value);
    if chars_eq_str(v.as_slice(), "replace") || chars_eq_str(v.as_slice(), "替换") {
        Some("replace")
    } else if chars_eq_str(v.as_slice(), "fill") || chars_eq_str(v.as_slice(), "填充") {
        Some("fill")
    } else if chars_eq_str(v.as_slice(), "override") || chars_eq_str(v.as_slice(), "覆盖") {
        Some("override")
    } else if chars_eq_str(v.as_slice(), "modify") || chars_eq_str(v.as_slice(), "修改") {
        Some("modify")
    } else {
        None
    }
}

/// 数字格式构造器：`blank`、`fixed(...)`、`styled`。
pub open spec fn number_format_kind_spec(s: Seq<char>) -> Option<Seq<char>> {
    if s == "blank"@ || s == "空白"@ {
        Some("blank"@)
    } else if s == "fixed"@ || s == "固定"@ {
        Some("fixed"@)
    } else if s == "styled"@ || s == "样式"@ {
        Some("styled"@)
    } else {
        None
    }
}

pub fn number_format_kind(value: &str) -> (r: Option<&'static str>)
    ensures
        opt_str(r) == number_format_kind_spec(value@),
{
    let v = chars_of(value);
    if chars_eq_str(v.as_slice(), "blank") || chars_eq_str(v.as_slice(), "空白") {
        Some("blank")
    } else if chars_eq_str(v.as_slice(), "fixed") || chars_eq_str(v.as_slice(), "固定") {
        Some("fixed")
    } else if chars_eq_str(v.as_slice(), "styled") || chars_eq_str(v.as_slice(), "样式") {
        Some("styled")
    } else {
        None
    }
}

/// 数据槽声明的来源构造器。
pub open spec fn data_slot_kind_spec(s: Seq<char>) -> Option<Seq<char>> {
    if s == "item_data"@ || s == "物品数据"@ {
        Some("item_data"@)
    } else if s == "entity_data"@ || s == "实体数据"@ {
        Some("entity_data"@)
    } else {
        None
    }
}

pub fn data_slot_kind(value: &str) -> (r: Option<&'static str>)
    ensures
        opt_str(r) == data_slot_kind_spec(value@),
{
    let v = chars_of(value);
    if chars_eq_str(v.as_slice(), "item_data") || chars_eq_str(v.as_slice(), "物品数据") {
        Some("item_data")
    } else if chars_eq_str(v.as_slice(), "entity_data") || chars_eq_str(v.as_slice(), "实体数据") {
        Some("entity_data")
    } else {
        None
    }
}

pub open spec fn message_target_spec(s: Seq<char>) -> Option<Seq<char>> {
    if s == "all"@ || s == "全部"@ {
        Some("all"@)
    } else if s == "self"@ || s == "自身"@ {
        Some("self"@)
    } else if s == "nearest"@ || s == "最近"@ {
        Some("nearest"@)
    } else if s == "player"@ || s == "玩家"@ {
        Some("player"@)
    } else {
        None
    }
}

pub fn message_target(value: &str) -> (r: Option<&'static str>)
    ensures
        opt_str(r) == message_target_spec(value@),
{
    let v = chars_of(value);
    if chars_eq_str(v.as_slice(), "all") || chars_eq_str(v.as_slice(), "全部") {
        Some("all")
    } else if chars_eq_str(v.as_slice(), "self") || chars_eq_str(v.as_slice(), "自身") {
        Some("self")
    } else if chars_eq_str(v.as_slice(), "nearest") || chars_eq_str(v.as_slice(), "最近") {
        Some("nearest")
    } else if chars_eq_str(v.as_slice(), "player") || chars_eq_str(v.as_slice(), "玩家") {
        Some("player")
    } else {
        None
    }
}

/// 文本组件的样式属性名。
pub open spec fn text_style_property_spec(s: Seq<char>) -> Option<Seq<char>> {
    if s == "color"@ || s == "颜色"@ {
        Some("color"@)
    } else if s == "bold"@ || s == "粗体"@ {
        Some("bold"@)
    } else if s == "italic"@ || s == "斜体"@ {
        Some("italic"@)
    } else if s == "underlined"@ || s == "下划线"@ {
        Some("underlined"@)
    } else if s == "strikethrough"@ || s == "删除线"@ {
        Some("strikethrough"@)
    } else if s == "obfuscated"@ || s == "混淆"@ {
        Some("obfuscated"@)
    } else if s == "click"@ || s == "点击"@ {
        Some("click"@)
    } else if s == "hover"@ || s == "悬停"@ {
        Some("hover"@)
    } else if s == "interpret"@ || s == "解释"@ {
        Some("interpret"@)
    } else if s == "plain"@ || s == "纯文本"@ {
        Some("plain"@)
    } else if s == "separator"@ || s == "分隔符"@ {
        Some("separator"@)
    } else {
        None
    }
}

pub fn text_style_property(value: &str) -> (r: Option<&'static str>)
    ensures
        opt_str(r) == text_style_property_spec(value@),
{
    let v = chars_of(value);
    if chars_eq_str(v.as_slice(), "color") || chars_eq_str(v.as_slice(), "颜色") {
        Some("color")
    } else if chars_eq_str(v.as_slice(), "bold") || chars_eq_str(v.as_slice(), "粗体") {
        Some("bold")
    } else if chars_eq_str(v.as_slice(), "italic") || chars_eq_str(v.as_slice(), "斜体") {
        Some("italic")
    } else if chars_eq_str(v.as_slice(), "underlined") || chars_eq_str(v.as_slice(), "下划线") {
        Some("underlined")
    } else if chars_eq_str(v.as_slice(), "strikethrough") || chars_eq_str(v.as_slice(), "删除线") {
        Some("strikethrough")
    } else if chars_eq_str(v.as_slice(), "obfuscated") || chars_eq_str(v.as_slice(), "混淆") {
        Some("obfuscated")
    } else if chars_eq_str(v.as_slice(), "click") || chars_eq_str(v.as_slice(), "点击") {
        Some("click")
    } else if chars_eq_str(v.as_slice(), "hover") || chars_eq_str(v.as_slice(), "悬停") {
        Some("hover")
    } else if chars_eq_str(v.as_slice(), "interpret") || chars_eq_str(v.as_slice(), "解释") {
        Some("interpret")
    } else if chars_eq_str(v.as_slice(), "plain") || chars_eq_str(v.as_slice(), "纯文本") {
        Some("plain")
    } else if chars_eq_str(v.as_slice(), "separator") || chars_eq_str(v.as_slice(), "分隔符") {
        Some("separator")
    } else {
        None
    }
}

/// 点击事件的动作名。
pub open spec fn click_action_spec(s: Seq<char>) -> Option<Seq<char>> {
    if s == "open_url"@ || s == "打开链接"@ {
        Some("open_url"@)
    } else if s == "run_command"@ || s == "运行命令"@ {
        Some("run_command"@)
    } else if s == "suggest_command"@ || s == "建议命令"@ {
        Some("suggest_command"@)
    } else if s == "copy_to_clipboard"@ || s == "复制到剪贴板"@ {
        Some("copy_to_clipboard"@)
    } else if s == "change_page"@ || s == "翻页"@ {
        Some("change_page"@)
    } else {
        None
    }
}

pub fn click_action(value: &str) -> (r: Option<&'static str>)
    ensures
        opt_str(r) == click_action_spec(value@),
{
    let v = chars_of(value);
    if chars_eq_str(v.as_slice(), "open_url") || chars_eq_str(v.as_slice(), "打开链接") {
        Some("open_url")
    } else if chars_eq_str(v.as_slice(), "run_command") || chars_eq_str(v.as_slice(), "运行命令") {
        Some("run_command")
    } else if chars_eq_str(v.as_slice(), "suggest_command") || chars_eq_str(v.as_slice(), "建议命令") {
        Some("suggest_command")
    } else if chars_eq_str(v.as_slice(), "copy_to_clipboard") || chars_eq_str(v.as_slice(), "复制到剪贴板") {
        Some("copy_to_clipboard")
    } else if chars_eq_str(v.as_slice(), "change_page") || chars_eq_str(v.as_slice(), "翻页") {
        Some("change_page")
    } else {
        None
    }
}

/// `nbt` 组件的来源类型。
pub open spec fn nbt_source_spec(s: Seq<char>) -> Option<Seq<char>> {
    if s == "entity"@ || s == "实体"@ {
        Some("entity"@)
    } else if s == "block"@ || s == "方块"@ {
        Some("block"@)
    } else if s == "storage"@ || s == "存储"@ {
        Some("storage"@)
    } else {
        None
    }
}

pub fn nbt_source(value: &str) -> (r: Option<&'static str>)
    ensures
        opt_str(r) == nbt_source_spec(value@),
{
    let v = chars_of(value);
    if chars_eq_str(v.as_slice(), "entity") || chars_eq_str(v.as_slice(), "实体") {
        Some("entity")
    } else if chars_eq_str(v.as_slice(), "block") || chars_eq_str(v.as_slice(), "方块") {
        Some("block")
    } else if chars_eq_str(v.as_slice(), "storage") || chars_eq_str(v.as_slice(), "存储") {
        Some("storage")
    } else {
        None
    }
}

/// `compute` 的上下文来源。
pub open spec fn compute_source_spec(s: Seq<char>) -> Option<Seq<char>> {
    if s == "default"@ || s == "默认"@ {
        Some("default"@)
    } else if s == "block"@ || s == "方块"@ {
        Some("block"@)
    } else if s == "entity"@ || s == "实体"@ {
        Some("entity"@)
    } else {
        None
    }
}

pub fn compute_source(value: &str) -> (r: Option<&'static str>)
    ensures
        opt_str(r) == compute_source_spec(value@),
{
    let v = chars_of(value);
    if chars_eq_str(v.as_slice(), "default") || chars_eq_str(v.as_slice(), "默认") {
        Some("default")
    } else if chars_eq_str(v.as_slice(), "block") || chars_eq_str(v.as_slice(), "方块") {
        Some("block")
    } else if chars_eq_str(v.as_slice(), "entity") || chars_eq_str(v.as_slice(), "实体") {
        Some("entity")
    } else {
        None
    }
}

/// `compute` 的数值类型。
pub open spec fn compute_kind_spec(s: Seq<char>) -> Option<Seq<char>> {
    if s == "float"@ || s == "浮点"@ {
        Some("float"@)
    } else if s == "integer"@ || s == "整数"@ {
        Some("integer"@)
    } else {
        None
    }
}

pub fn compute_kind(value: &str) -> (r: Option<&'static str>)
    ensures
        opt_str(r) == compute_kind_spec(value@),
{
    let v = chars_of(value);
    if chars_eq_str(v.as_slice(), "float") || chars_eq_str(v.as_slice(), "浮点") {
        Some("float")
    } else if chars_eq_str(v.as_slice(), "integer") || chars_eq_str(v.as_slice(), "整数") {
        Some("integer")
    } else {
        None
    }
}

/// `data` 命令的方法名。
pub open spec fn data_method_spec(s: Seq<char>) -> Option<Seq<char>> {
    if s == "get"@ || s == "取"@ {
        Some("get"@)
    } else if s == "merge"@ || s == "合并"@ {
        Some("merge"@)
    } else if s == "remove"@ || s == "移除"@ {
        Some("remove"@)
    } else if s == "modify"@ || s == "修改"@ {
        Some("modify"@)
    } else {
        None
    }
}

pub fn data_method(value: &str) -> (r: Option<&'static str>)
    ensures
        opt_str(r) == data_method_spec(value@),
{
    let v = chars_of(value);
    if chars_eq_str(v.as_slice(), "get") || chars_eq_str(v.as_slice(), "取") {
        Some("get")
    } else if chars_eq_str(v.as_slice(), "merge") || chars_eq_str(v.as_slice(), "合并") {
        Some("merge")
    } else if chars_eq_str(v.as_slice(), "remove") || chars_eq_str(v.as_slice(), "移除") {
        Some("remove")
    } else if chars_eq_str(v.as_slice(), "modify") || chars_eq_str(v.as_slice(), "修改") {
        Some("modify")
    } else {
        None
    }
}

pub open spec fn effect_method_spec(s: Seq<char>) -> Option<Seq<char>> {
    if s == "give"@ || s == "给予"@ {
        Some("give"@)
    } else if s == "give_infinite"@ || s == "给予无限"@ {
        Some("give_infinite"@)
    } else if s == "clear"@ || s == "清除"@ {
        Some("clear"@)
    } else {
        None
    }
}

pub fn effect_method(value: &str) -> (r: Option<&'static str>)
    ensures
        opt_str(r) == effect_method_spec(value@),
{
    let v = chars_of(value);
    if chars_eq_str(v.as_slice(), "give") || chars_eq_str(v.as_slice(), "给予") {
        Some("give")
    } else if chars_eq_str(v.as_slice(), "give_infinite") || chars_eq_str(v.as_slice(), "给予无限") {
        Some("give_infinite")
    } else if chars_eq_str(v.as_slice(), "clear") || chars_eq_str(v.as_slice(), "清除") {
        Some("clear")
    } else {
        None
    }
}

pub open spec fn xp_method_spec(s: Seq<char>) -> Option<Seq<char>> {
    if s == "add"@ || s == "增加"@ {
        Some("add"@)
    } else if s == "set"@ || s == "设置"@ {
        Some("set"@)
    } else if s == "query"@ || s == "查询"@ {
        Some("query"@)
    } else {
        None
    }
}

pub fn xp_method(value: &str) -> (r: Option<&'static str>)
    ensures
        opt_str(r) == xp_method_spec(value@),
{
    let v = chars_of(value);
    if chars_eq_str(v.as_slice(), "add") || chars_eq_str(v.as_slice(), "增加") {
        Some("add")
    } else if chars_eq_str(v.as_slice(), "set") || chars_eq_str(v.as_slice(), "设置") {
        Some("set")
    } else if chars_eq_str(v.as_slice(), "query") || chars_eq_str(v.as_slice(), "查询") {
        Some("query")
    } else {
        None
    }
}

pub open spec fn xp_kind_spec(s: Seq<char>) -> Option<XpKind> {
    if s == "points"@ || s == "点数"@ {
        Some(XpKind::Points)
    } else if s == "levels"@ || s == "等级"@ {
        Some(XpKind::Levels)
    } else {
        None
    }
}

pub fn xp_kind(value: &str) -> (r: Option<XpKind>)
    ensures
        r == xp_kind_spec(value@),
{
    let v = chars_of(value);
    if chars_eq_str(v.as_slice(), "points") || chars_eq_str(v.as_slice(), "点数") {
        Some(XpKind::Points)
    } else if chars_eq_str(v.as_slice(), "levels") || chars_eq_str(v.as_slice(), "等级") {
        Some(XpKind::Levels)
    } else {
        None
    }
}

pub open spec fn stopwatch_method_spec(s: Seq<char>) -> Option<Seq<char>> {
    if s == "create"@ || s == "创建"@ {
        Some("create"@)
    } else if s == "query"@ || s == "查询"@ {
        Some("query"@)
    } else if s == "restart"@ || s == "重启"@ {
        Some("restart"@)
    } else if s == "remove"@ || s == "移除"@ {
        Some("remove"@)
    } else {
        None
    }
}

pub fn stopwatch_method(value: &str) -> (r: Option<&'static str>)
    ensures
        opt_str(r) == stopwatch_method_spec(value@),
{
    let v = chars_of(value);
    if chars_eq_str(v.as_slice(), "create") || chars_eq_str(v.as_slice(), "创建") {
        Some("create")
    } else if chars_eq_str(v.as_slice(), "query") || chars_eq_str(v.as_slice(), "查询") {
        Some("query")
    } else if chars_eq_str(v.as_slice(), "restart") || chars_eq_str(v.as_slice(), "重启") {
        Some("restart")
    } else if chars_eq_str(v.as_slice(), "remove") || chars_eq_str(v.as_slice(), "移除") {
        Some("remove")
    } else {
        None
    }
}

pub open spec fn boolean_word_spec(s: Seq<char>) -> Option<Seq<char>> {
    if s == "true"@ || s == "真"@ {
        Some("true"@)
    } else if s == "false"@ || s == "假"@ {
        Some("false"@)
    } else {
        None
    }
}

pub fn boolean_word(value: &str) -> (r: Option<&'static str>)
    ensures
        opt_str(r) == boolean_word_spec(value@),
{
    let v = chars_of(value);
    if chars_eq_str(v.as_slice(), "true") || chars_eq_str(v.as_slice(), "真") {
        Some("true")
    } else if chars_eq_str(v.as_slice(), "false") || chars_eq_str(v.as_slice(), "假") {
        Some("false")
    } else {
        None
    }
}

pub open spec fn time_unit_spec(s: Seq<char>) -> Option<Seq<char>> {
    if s == "t"@ || s == "刻"@ {
        Some("t"@)
    } else if s == "s"@ || s == "秒"@ {
        Some("s"@)
    } else if s == "d"@ || s == "天"@ {
        Some("d"@)
    } else {
        None
    }
}

pub fn time_unit(value: &str) -> (r: Option<&'static str>)
    ensures
        opt_str(r) == time_unit_spec(value@),
{
    let v = chars_of(value);
    if chars_eq_str(v.as_slice(), "t") || chars_eq_str(v.as_slice(), "刻") {
        Some("t")
    } else if chars_eq_str(v.as_slice(), "s") || chars_eq_str(v.as_slice(), "秒") {
        Some("s")
    } else if chars_eq_str(v.as_slice(), "d") || chars_eq_str(v.as_slice(), "天") {
        Some("d")
    } else {
        None
    }
}

pub open spec fn text_color_spec(s: Seq<char>) -> Option<Seq<char>> {
    if s == "black"@ || s == "黑色"@ {
        Some("black"@)
    } else if s == "dark_blue"@ || s == "深蓝色"@ {
        Some("dark_blue"@)
    } else if s == "dark_green"@ || s == "深绿色"@ {
        Some("dark_green"@)
    } else if s == "dark_aqua"@ || s == "深青色"@ {
        Some("dark_aqua"@)
    } else if s == "dark_red"@ || s == "深红色"@ {
        Some("dark_red"@)
    } else if s == "dark_purple"@ || s == "深紫色"@ {
        Some("dark_purple"@)
    } else if s == "gold"@ || s == "金色"@ {
        Some("gold"@)
    } else if s == "gray"@ || s == "灰色"@ {
        Some("gray"@)
    } else if s == "dark_gray"@ || s == "深灰色"@ {
        Some("dark_gray"@)
    } else if s == "blue"@ || s == "蓝色"@ {
        Some("blue"@)
    } else if s == "green"@ || s == "绿色"@ {
        Some("green"@)
    } else if s == "aqua"@ || s == "青色"@ {
        Some("aqua"@)
    } else if s == "red"@ || s == "红色"@ {
        Some("red"@)
    } else if s == "light_purple"@ || s == "亮紫色"@ {
        Some("light_purple"@)
    } else if s == "yellow"@ || s == "黄色"@ {
        Some("yellow"@)
    } else if s == "white"@ || s == "白色"@ {
        Some("white"@)
    } else {
        None
    }
}

pub fn text_color(value: &str) -> (r: Option<&'static str>)
    ensures
        opt_str(r) == text_color_spec(value@),
{
    let v = chars_of(value);
    if chars_eq_str(v.as_slice(), "black") || chars_eq_str(v.as_slice(), "黑色") {
        Some("black")
    } else if chars_eq_str(v.as_slice(), "dark_blue") || chars_eq_str(v.as_slice(), "深蓝色") {
        Some("dark_blue")
    } else if chars_eq_str(v.as_slice(), "dark_green") || chars_eq_str(v.as_slice(), "深绿色") {
        Some("dark_green")
    } else if chars_eq_str(v.as_slice(), "dark_aqua") || chars_eq_str(v.as_slice(), "深青色") {
        Some("dark_aqua")
    } else if chars_eq_str(v.as_slice(), "dark_red") || chars_eq_str(v.as_slice(), "深红色") {
        Some("dark_red")
    } else if chars_eq_str(v.as_slice(), "dark_purple") || chars_eq_str(v.as_slice(), "深紫色") {
        Some("dark_purple")
    } else if chars_eq_str(v.as_slice(), "gold") || chars_eq_str(v.as_slice(), "金色") {
        Some("gold")
    } else if chars_eq_str(v.as_slice(), "gray") || chars_eq_str(v.as_slice(), "灰色") {
        Some("gray")
    } else if chars_eq_str(v.as_slice(), "dark_gray") || chars_eq_str(v.as_slice(), "深灰色") {
        Some("dark_gray")
    } else if chars_eq_str(v.as_slice(), "blue") || chars_eq_str(v.as_slice(), "蓝色") {
        Some("blue")
    } else if chars_eq_str(v.as_slice(), "green") || chars_eq_str(v.as_slice(), "绿色") {
        Some("green")
    } else if chars_eq_str(v.as_slice(), "aqua") || chars_eq_str(v.as_slice(), "青色") {
        Some("aqua")
    } else if chars_eq_str(v.as_slice(), "red") || chars_eq_str(v.as_slice(), "红色") {
        Some("red")
    } else if chars_eq_str(v.as_slice(), "light_purple") || chars_eq_str(v.as_slice(), "亮紫色") {
        Some("light_purple")
    } else if chars_eq_str(v.as_slice(), "yellow") || chars_eq_str(v.as_slice(), "黄色") {
        Some("yellow")
    } else if chars_eq_str(v.as_slice(), "white") || chars_eq_str(v.as_slice(), "白色") {
        Some("white")
    } else {
        None
    }
}

pub open spec fn sound_source_spec(s: Seq<char>) -> Option<Seq<char>> {
    if s == "master"@ || s == "主音量"@ {
        Some("master"@)
    } else if s == "music"@ || s == "音乐"@ {
        Some("music"@)
    } else if s == "record"@ || s == "唱片"@ {
        Some("record"@)
    } else if s == "weather"@ || s == "天气"@ {
        Some("weather"@)
    } else if s == "block"@ || s == "方块"@ {
        Some("block"@)
    } else if s == "hostile"@ || s == "敌对"@ {
        Some("hostile"@)
    } else if s == "neutral"@ || s == "中立"@ {
        Some("neutral"@)
    } else if s == "player"@ || s == "玩家"@ {
        Some("player"@)
    } else if s == "ambient"@ || s == "环境"@ {
        Some("ambient"@)
    } else if s == "voice"@ || s == "语音"@ {
        Some("voice"@)
    } else if s == "ui"@ || s == "界面"@ {
        Some("ui"@)
    } else {
        None
    }
}

pub fn sound_source(value: &str) -> (r: Option<&'static str>)
    ensures
        opt_str(r) == sound_source_spec(value@),
{
    let v = chars_of(value);
    if chars_eq_str(v.as_slice(), "master") || chars_eq_str(v.as_slice(), "主音量") {
        Some("master")
    } else if chars_eq_str(v.as_slice(), "music") || chars_eq_str(v.as_slice(), "音乐") {
        Some("music")
    } else if chars_eq_str(v.as_slice(), "record") || chars_eq_str(v.as_slice(), "唱片") {
        Some("record")
    } else if chars_eq_str(v.as_slice(), "weather") || chars_eq_str(v.as_slice(), "天气") {
        Some("weather")
    } else if chars_eq_str(v.as_slice(), "block") || chars_eq_str(v.as_slice(), "方块") {
        Some("block")
    } else if chars_eq_str(v.as_slice(), "hostile") || chars_eq_str(v.as_slice(), "敌对") {
        Some("hostile")
    } else if chars_eq_str(v.as_slice(), "neutral") || chars_eq_str(v.as_slice(), "中立") {
        Some("neutral")
    } else if chars_eq_str(v.as_slice(), "player") || chars_eq_str(v.as_slice(), "玩家") {
        Some("player")
    } else if chars_eq_str(v.as_slice(), "ambient") || chars_eq_str(v.as_slice(), "环境") {
        Some("ambient")
    } else if chars_eq_str(v.as_slice(), "voice") || chars_eq_str(v.as_slice(), "语音") {
        Some("voice")
    } else if chars_eq_str(v.as_slice(), "ui") || chars_eq_str(v.as_slice(), "界面") {
        Some("ui")
    } else {
        None
    }
}

} // verus!
