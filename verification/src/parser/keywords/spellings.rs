//! The spellings of the keyword and value tables: every English word and
//! its Chinese spelling give that word's own canonical value, different
//! words give different values, and no other word gives one.

use vstd::prelude::*;
use super::actions::{
    XpKind, boolean_word_spec, click_action_spec, compute_kind_spec, compute_source_spec, data_method_spec, data_slot_kind_spec, effect_method_spec, item_method_spec, message_target_spec, nbt_source_spec, number_format_kind_spec, objective_property_spec, render_type_spec, score_operation_spec, scoreboard_method_spec, self_method_spec, sound_source_spec, stopwatch_method_spec, text_color_spec, text_style_property_spec, time_unit_spec, xp_kind_spec, xp_method_spec,
};
use super::values::{
    AdvancementFrame, AdvancementRequirements, ItemRarity, advancement_frame_spec, advancement_method_spec, advancement_property_spec, advancement_requirements_spec, criterion_property_spec, display_property_spec, entity_sort_spec, function_tag_property_spec, item_property_spec, item_stack_property_spec, query_property_spec, rarity_value_spec, resource_kind_spec, reward_property_spec, slot_name_spec,
};
use super::world_values::{
    Anchor, BossBarField, CloneMode, EntityRelation, FillMode, LocateKind, SetBlockMode, StoreDataMode, StoreDataType, TemplateMirror, TemplateRotation, WeatherKind, anchor_value_spec, bossbar_field_spec, clone_dimension_spec, clone_filter_spec, clone_mode_spec, entity_relation_spec, execute_clause_spec, fill_mode_spec, forceload_method_spec, gamerule_method_spec, locate_kind_spec, place_method_spec, set_block_mode_spec, store_data_mode_spec, store_data_type_spec, store_method_spec, template_mirror_spec, template_rotation_spec, time_method_spec, weather_kind_spec, worldborder_method_spec,
};

verus! {

/// Each spelling of a self method word gives its own canonical value, the
/// spellings of different words give different values, and no other word
/// gives one.
pub proof fn lemma_self_method_spellings(s: Seq<char>)
    ensures
        self_method_spec(s) == Some("add_tag"@) <==> (s == "add_tag"@ || s == "添加标签"@),
        self_method_spec(s) == Some("remove_tag"@) <==> (s == "remove_tag"@ || s == "移除标签"@),
        self_method_spec(s) == Some("set_invulnerable"@) <==> (s == "set_invulnerable"@ || s == "设置无敌"@),
        self_method_spec(s) == Some("set_no_gravity"@) <==> (s == "set_no_gravity"@ || s == "设置无视重力"@),
        self_method_spec(s) == Some("save_items"@) <==> (s == "save_items"@ || s == "保存物品"@),
        self_method_spec(s) == Some("restore_items"@) <==> (s == "restore_items"@ || s == "恢复物品"@),
        self_method_spec(s) == Some("remove_preserving_items"@) <==> (s == "remove_preserving_items"@ || s == "保存并移除"@),
        self_method_spec(s) == Some("give_item"@) <==> (s == "give_item"@ || s == "给予物品"@),
        self_method_spec(s) == Some("clear_items"@) <==> (s == "clear_items"@ || s == "清空物品"@),
        self_method_spec(s) == Some("deposit"@) <==> (s == "deposit"@ || s == "存入"@),
        self_method_spec(s) == Some("withdraw"@) <==> (s == "withdraw"@ || s == "取出"@),
        self_method_spec(s) == Some("remove_data"@) <==> (s == "remove_data"@ || s == "移除数据"@),
        self_method_spec(s) == Some("remove"@) <==> (s == "remove"@ || s == "移除"@),
        self_method_spec(s) is None <==> !(s == "add_tag"@ || s == "添加标签"@ || s == "remove_tag"@ || s == "移除标签"@ || s == "set_invulnerable"@ || s == "设置无敌"@ || s == "set_no_gravity"@ || s == "设置无视重力"@ || s == "save_items"@ || s == "保存物品"@ || s == "restore_items"@ || s == "恢复物品"@ || s == "remove_preserving_items"@ || s == "保存并移除"@ || s == "give_item"@ || s == "给予物品"@ || s == "clear_items"@ || s == "清空物品"@ || s == "deposit"@ || s == "存入"@ || s == "withdraw"@ || s == "取出"@ || s == "remove_data"@ || s == "移除数据"@ || s == "remove"@ || s == "移除"@),
{
    reveal_strlit("add_tag");
    reveal_strlit("clear_items");
    reveal_strlit("deposit");
    reveal_strlit("give_item");
    reveal_strlit("remove");
    reveal_strlit("remove_data");
    reveal_strlit("remove_preserving_items");
    reveal_strlit("remove_tag");
    reveal_strlit("restore_items");
    reveal_strlit("save_items");
    reveal_strlit("set_invulnerable");
    reveal_strlit("set_no_gravity");
    reveal_strlit("withdraw");
    reveal_strlit("保存并移除");
    reveal_strlit("保存物品");
    reveal_strlit("取出");
    reveal_strlit("存入");
    reveal_strlit("恢复物品");
    reveal_strlit("添加标签");
    reveal_strlit("清空物品");
    reveal_strlit("移除");
    reveal_strlit("移除数据");
    reveal_strlit("移除标签");
    reveal_strlit("给予物品");
    reveal_strlit("设置无敌");
    reveal_strlit("设置无视重力");
    assert("add_tag"@.len() == 7 && "add_tag"@[0] == 'a');
    assert("clear_items"@.len() == 11 && "clear_items"@[0] == 'c');
    assert("deposit"@.len() == 7 && "deposit"@[0] == 'd');
    assert("give_item"@.len() == 9);
    assert("remove"@.len() == 6 && "remove"@[0] == 'r');
    assert("remove_data"@.len() == 11 && "remove_data"@[0] == 'r');
    assert("remove_preserving_items"@.len() == 23);
    assert("remove_tag"@.len() == 10 && "remove_tag"@[0] == 'r');
    assert("restore_items"@.len() == 13);
    assert("save_items"@.len() == 10 && "save_items"@[0] == 's');
    assert("set_invulnerable"@.len() == 16);
    assert("set_no_gravity"@.len() == 14);
    assert("withdraw"@.len() == 8);
    assert("保存并移除"@.len() == 5);
    assert("保存物品"@.len() == 4 && "保存物品"@[0] == '保');
    assert("取出"@.len() == 2 && "取出"@[0] == '取');
    assert("存入"@.len() == 2 && "存入"@[0] == '存');
    assert("恢复物品"@.len() == 4 && "恢复物品"@[0] == '恢');
    assert("添加标签"@.len() == 4 && "添加标签"@[0] == '添');
    assert("清空物品"@.len() == 4 && "清空物品"@[0] == '清');
    assert("移除"@.len() == 2 && "移除"@[0] == '移');
    assert("移除数据"@.len() == 4 && "移除数据"@[0] == '移' && "移除数据"@[2] == '数');
    assert("移除标签"@.len() == 4 && "移除标签"@[0] == '移' && "移除标签"@[2] == '标');
    assert("给予物品"@.len() == 4 && "给予物品"@[0] == '给');
    assert("设置无敌"@.len() == 4 && "设置无敌"@[0] == '设');
    assert("设置无视重力"@.len() == 6 && "设置无视重力"@[0] == '设');
}

/// Each spelling of a scoreboard method word gives its own canonical value, the
/// spellings of different words give different values, and no other word
/// gives one.
pub proof fn lemma_scoreboard_method_spellings(s: Seq<char>)
    ensures
        scoreboard_method_spec(s) == Some("set"@) <==> (s == "set"@ || s == "设置"@),
        scoreboard_method_spec(s) == Some("reset"@) <==> (s == "reset"@ || s == "重置"@),
        scoreboard_method_spec(s) == Some("get"@) <==> (s == "get"@ || s == "取"@),
        scoreboard_method_spec(s) == Some("enable"@) <==> (s == "enable"@ || s == "启用"@),
        scoreboard_method_spec(s) == Some("operation"@) <==> (s == "operation"@ || s == "运算"@),
        scoreboard_method_spec(s) == Some("display"@) <==> (s == "display"@ || s == "显示"@),
        scoreboard_method_spec(s) is None <==> !(s == "set"@ || s == "设置"@ || s == "reset"@ || s == "重置"@ || s == "get"@ || s == "取"@ || s == "enable"@ || s == "启用"@ || s == "operation"@ || s == "运算"@ || s == "display"@ || s == "显示"@),
{
    reveal_strlit("display");
    reveal_strlit("enable");
    reveal_strlit("get");
    reveal_strlit("operation");
    reveal_strlit("reset");
    reveal_strlit("set");
    reveal_strlit("取");
    reveal_strlit("启用");
    reveal_strlit("显示");
    reveal_strlit("设置");
    reveal_strlit("运算");
    reveal_strlit("重置");
    assert("display"@.len() == 7);
    assert("enable"@.len() == 6);
    assert("get"@.len() == 3 && "get"@[0] == 'g');
    assert("operation"@.len() == 9);
    assert("reset"@.len() == 5);
    assert("set"@.len() == 3 && "set"@[0] == 's');
    assert("取"@.len() == 1);
    assert("启用"@.len() == 2 && "启用"@[0] == '启');
    assert("显示"@.len() == 2 && "显示"@[0] == '显');
    assert("设置"@.len() == 2 && "设置"@[0] == '设');
    assert("运算"@.len() == 2 && "运算"@[0] == '运');
    assert("重置"@.len() == 2 && "重置"@[0] == '重');
}

/// Each spelling of a score operation word gives its own canonical value, the
/// spellings of different words give different values, and no other word
/// gives one.
pub proof fn lemma_score_operation_spellings(s: Seq<char>)
    ensures
        score_operation_spec(s) == Some("set"@) <==> (s == "set"@ || s == "赋值"@),
        score_operation_spec(s) == Some("add"@) <==> (s == "add"@ || s == "加上"@),
        score_operation_spec(s) == Some("subtract"@) <==> (s == "subtract"@ || s == "减去"@),
        score_operation_spec(s) == Some("multiply"@) <==> (s == "multiply"@ || s == "乘以"@),
        score_operation_spec(s) == Some("divide"@) <==> (s == "divide"@ || s == "除以"@),
        score_operation_spec(s) == Some("modulo"@) <==> (s == "modulo"@ || s == "取余"@),
        score_operation_spec(s) == Some("min"@) <==> (s == "min"@ || s == "最小值"@),
        score_operation_spec(s) == Some("max"@) <==> (s == "max"@ || s == "最大值"@),
        score_operation_spec(s) == Some("swap"@) <==> (s == "swap"@ || s == "交换"@),
        score_operation_spec(s) is None <==> !(s == "set"@ || s == "赋值"@ || s == "add"@ || s == "加上"@ || s == "subtract"@ || s == "减去"@ || s == "multiply"@ || s == "乘以"@ || s == "divide"@ || s == "除以"@ || s == "modulo"@ || s == "取余"@ || s == "min"@ || s == "最小值"@ || s == "max"@ || s == "最大值"@ || s == "swap"@ || s == "交换"@),
{
    reveal_strlit("add");
    reveal_strlit("divide");
    reveal_strlit("max");
    reveal_strlit("min");
    reveal_strlit("modulo");
    reveal_strlit("multiply");
    reveal_strlit("set");
    reveal_strlit("subtract");
    reveal_strlit("swap");
    reveal_strlit("乘以");
    reveal_strlit("交换");
    reveal_strlit("减去");
    reveal_strlit("加上");
    reveal_strlit("取余");
    reveal_strlit("最大值");
    reveal_strlit("最小值");
    reveal_strlit("赋值");
    reveal_strlit("除以");
    assert("add"@.len() == 3 && "add"@[0] == 'a');
    assert("divide"@.len() == 6 && "divide"@[0] == 'd');
    assert("max"@.len() == 3 && "max"@[0] == 'm' && "max"@[1] == 'a');
    assert("min"@.len() == 3 && "min"@[0] == 'm' && "min"@[1] == 'i');
    assert("modulo"@.len() == 6 && "modulo"@[0] == 'm');
    assert("multiply"@.len() == 8 && "multiply"@[0] == 'm');
    assert("set"@.len() == 3 && "set"@[0] == 's');
    assert("subtract"@.len() == 8 && "subtract"@[0] == 's');
    assert("swap"@.len() == 4);
    assert("乘以"@.len() == 2 && "乘以"@[0] == '乘');
    assert("交换"@.len() == 2 && "交换"@[0] == '交');
    assert("减去"@.len() == 2 && "减去"@[0] == '减');
    assert("加上"@.len() == 2 && "加上"@[0] == '加');
    assert("取余"@.len() == 2 && "取余"@[0] == '取');
    assert("最大值"@.len() == 3 && "最大值"@[0] == '最' && "最大值"@[1] == '大');
    assert("最小值"@.len() == 3 && "最小值"@[0] == '最' && "最小值"@[1] == '小');
    assert("赋值"@.len() == 2 && "赋值"@[0] == '赋');
    assert("除以"@.len() == 2 && "除以"@[0] == '除');
}

/// Each spelling of a objective property word gives its own canonical value, the
/// spellings of different words give different values, and no other word
/// gives one.
pub proof fn lemma_objective_property_spellings(s: Seq<char>)
    ensures
        objective_property_spec(s) == Some("criteria"@) <==> (s == "criteria"@ || s == "准则"@),
        objective_property_spec(s) == Some("display_name"@) <==> (s == "display_name"@ || s == "显示名"@),
        objective_property_spec(s) == Some("render_type"@) <==> (s == "render_type"@ || s == "渲染类型"@),
        objective_property_spec(s) == Some("number_format"@) <==> (s == "number_format"@ || s == "数字格式"@),
        objective_property_spec(s) == Some("display_slot"@) <==> (s == "display_slot"@ || s == "显示槽"@),
        objective_property_spec(s) is None <==> !(s == "criteria"@ || s == "准则"@ || s == "display_name"@ || s == "显示名"@ || s == "render_type"@ || s == "渲染类型"@ || s == "number_format"@ || s == "数字格式"@ || s == "display_slot"@ || s == "显示槽"@),
{
    reveal_strlit("criteria");
    reveal_strlit("display_name");
    reveal_strlit("display_slot");
    reveal_strlit("number_format");
    reveal_strlit("render_type");
    reveal_strlit("准则");
    reveal_strlit("数字格式");
    reveal_strlit("显示名");
    reveal_strlit("显示槽");
    reveal_strlit("渲染类型");
    assert("criteria"@.len() == 8);
    assert("display_name"@.len() == 12 && "display_name"@[8] == 'n');
    assert("display_slot"@.len() == 12 && "display_slot"@[8] == 's');
    assert("number_format"@.len() == 13);
    assert("render_type"@.len() == 11);
    assert("准则"@.len() == 2);
    assert("数字格式"@.len() == 4 && "数字格式"@[0] == '数');
    assert("显示名"@.len() == 3 && "显示名"@[2] == '名');
    assert("显示槽"@.len() == 3 && "显示槽"@[2] == '槽');
    assert("渲染类型"@.len() == 4 && "渲染类型"@[0] == '渲');
}

/// Each spelling of a render type word gives its own canonical value, the
/// spellings of different words give different values, and no other word
/// gives one.
pub proof fn lemma_render_type_spellings(s: Seq<char>)
    ensures
        render_type_spec(s) == Some("integer"@) <==> (s == "integer"@ || s == "整数"@),
        render_type_spec(s) == Some("hearts"@) <==> (s == "hearts"@ || s == "爱心"@),
        render_type_spec(s) is None <==> !(s == "integer"@ || s == "整数"@ || s == "hearts"@ || s == "爱心"@),
{
    reveal_strlit("hearts");
    reveal_strlit("integer");
    reveal_strlit("整数");
    reveal_strlit("爱心");
    assert("hearts"@.len() == 6);
    assert("integer"@.len() == 7);
    assert("整数"@.len() == 2 && "整数"@[0] == '整');
    assert("爱心"@.len() == 2 && "爱心"@[0] == '爱');
}

/// Each spelling of a item method word gives its own canonical value, the
/// spellings of different words give different values, and no other word
/// gives one.
pub proof fn lemma_item_method_spellings(s: Seq<char>)
    ensures
        item_method_spec(s) == Some("replace"@) <==> (s == "replace"@ || s == "替换"@),
        item_method_spec(s) == Some("fill"@) <==> (s == "fill"@ || s == "填充"@),
        item_method_spec(s) == Some("override"@) <==> (s == "override"@ || s == "覆盖"@),
        item_method_spec(s) == Some("modify"@) <==> (s == "modify"@ || s == "修改"@),
        item_method_spec(s) is None <==> !(s == "replace"@ || s == "替换"@ || s == "fill"@ || s == "填充"@ || s == "override"@ || s == "覆盖"@ || s == "modify"@ || s == "修改"@),
{
    reveal_strlit("fill");
    reveal_strlit("modify");
    reveal_strlit("override");
    reveal_strlit("replace");
    reveal_strlit("修改");
    reveal_strlit("填充");
    reveal_strlit("替换");
    reveal_strlit("覆盖");
    assert("fill"@.len() == 4);
    assert("modify"@.len() == 6);
    assert("override"@.len() == 8);
    assert("replace"@.len() == 7);
    assert("修改"@.len() == 2 && "修改"@[0] == '修');
    assert("填充"@.len() == 2 && "填充"@[0] == '填');
    assert("替换"@.len() == 2 && "替换"@[0] == '替');
    assert("覆盖"@.len() == 2 && "覆盖"@[0] == '覆');
}

/// Each spelling of a number format kind word gives its own canonical value, the
/// spellings of different words give different values, and no other word
/// gives one.
pub proof fn lemma_number_format_kind_spellings(s: Seq<char>)
    ensures
        number_format_kind_spec(s) == Some("blank"@) <==> (s == "blank"@ || s == "空白"@),
        number_format_kind_spec(s) == Some("fixed"@) <==> (s == "fixed"@ || s == "固定"@),
        number_format_kind_spec(s) == Some("styled"@) <==> (s == "styled"@ || s == "样式"@),
        number_format_kind_spec(s) is None <==> !(s == "blank"@ || s == "空白"@ || s == "fixed"@ || s == "固定"@ || s == "styled"@ || s == "样式"@),
{
    reveal_strlit("blank");
    reveal_strlit("fixed");
    reveal_strlit("styled");
    reveal_strlit("固定");
    reveal_strlit("样式");
    reveal_strlit("空白");
    assert("blank"@.len() == 5 && "blank"@[0] == 'b');
    assert("fixed"@.len() == 5 && "fixed"@[0] == 'f');
    assert("styled"@.len() == 6);
    assert("固定"@.len() == 2 && "固定"@[0] == '固');
    assert("样式"@.len() == 2 && "样式"@[0] == '样');
    assert("空白"@.len() == 2 && "空白"@[0] == '空');
}

/// Each spelling of a data slot kind word gives its own canonical value, the
/// spellings of different words give different values, and no other word
/// gives one.
pub proof fn lemma_data_slot_kind_spellings(s: Seq<char>)
    ensures
        data_slot_kind_spec(s) == Some("item_data"@) <==> (s == "item_data"@ || s == "物品数据"@),
        data_slot_kind_spec(s) == Some("entity_data"@) <==> (s == "entity_data"@ || s == "实体数据"@),
        data_slot_kind_spec(s) is None <==> !(s == "item_data"@ || s == "物品数据"@ || s == "entity_data"@ || s == "实体数据"@),
{
    reveal_strlit("entity_data");
    reveal_strlit("item_data");
    reveal_strlit("实体数据");
    reveal_strlit("物品数据");
    assert("entity_data"@.len() == 11);
    assert("item_data"@.len() == 9);
    assert("实体数据"@.len() == 4 && "实体数据"@[0] == '实');
    assert("物品数据"@.len() == 4 && "物品数据"@[0] == '物');
}

/// Each spelling of a message target word gives its own canonical value, the
/// spellings of different words give different values, and no other word
/// gives one.
pub proof fn lemma_message_target_spellings(s: Seq<char>)
    ensures
        message_target_spec(s) == Some("all"@) <==> (s == "all"@ || s == "全部"@),
        message_target_spec(s) == Some("self"@) <==> (s == "self"@ || s == "自身"@),
        message_target_spec(s) == Some("nearest"@) <==> (s == "nearest"@ || s == "最近"@),
        message_target_spec(s) == Some("player"@) <==> (s == "player"@ || s == "玩家"@),
        message_target_spec(s) is None <==> !(s == "all"@ || s == "全部"@ || s == "self"@ || s == "自身"@ || s == "nearest"@ || s == "最近"@ || s == "player"@ || s == "玩家"@),
{
    reveal_strlit("all");
    reveal_strlit("nearest");
    reveal_strlit("player");
    reveal_strlit("self");
    reveal_strlit("全部");
    reveal_strlit("最近");
    reveal_strlit("玩家");
    reveal_strlit("自身");
    assert("all"@.len() == 3);
    assert("nearest"@.len() == 7);
    assert("player"@.len() == 6);
    assert("self"@.len() == 4);
    assert("全部"@.len() == 2 && "全部"@[0] == '全');
    assert("最近"@.len() == 2 && "最近"@[0] == '最');
    assert("玩家"@.len() == 2 && "玩家"@[0] == '玩');
    assert("自身"@.len() == 2 && "自身"@[0] == '自');
}

/// Each spelling of a text style property word gives its own canonical value, the
/// spellings of different words give different values, and no other word
/// gives one.
pub proof fn lemma_text_style_property_spellings(s: Seq<char>)
    ensures
        text_style_property_spec(s) == Some("color"@) <==> (s == "color"@ || s == "颜色"@),
        text_style_property_spec(s) == Some("bold"@) <==> (s == "bold"@ || s == "粗体"@),
        text_style_property_spec(s) == Some("italic"@) <==> (s == "italic"@ || s == "斜体"@),
        text_style_property_spec(s) == Some("underlined"@) <==> (s == "underlined"@ || s == "下划线"@),
        text_style_property_spec(s) == Some("strikethrough"@) <==> (s == "strikethrough"@ || s == "删除线"@),
        text_style_property_spec(s) == Some("obfuscated"@) <==> (s == "obfuscated"@ || s == "混淆"@),
        text_style_property_spec(s) == Some("click"@) <==> (s == "click"@ || s == "点击"@),
        text_style_property_spec(s) == Some("hover"@) <==> (s == "hover"@ || s == "悬停"@),
        text_style_property_spec(s) == Some("interpret"@) <==> (s == "interpret"@ || s == "解释"@),
        text_style_property_spec(s) == Some("plain"@) <==> (s == "plain"@ || s == "纯文本"@),
        text_style_property_spec(s) == Some("separator"@) <==> (s == "separator"@ || s == "分隔符"@),
        text_style_property_spec(s) is None <==> !(s == "color"@ || s == "颜色"@ || s == "bold"@ || s == "粗体"@ || s == "italic"@ || s == "斜体"@ || s == "underlined"@ || s == "下划线"@ || s == "strikethrough"@ || s == "删除线"@ || s == "obfuscated"@ || s == "混淆"@ || s == "click"@ || s == "点击"@ || s == "hover"@ || s == "悬停"@ || s == "interpret"@ || s == "解释"@ || s == "plain"@ || s == "纯文本"@ || s == "separator"@ || s == "分隔符"@),
{
    reveal_strlit("bold");
    reveal_strlit("click");
    reveal_strlit("color");
    reveal_strlit("hover");
    reveal_strlit("interpret");
    reveal_strlit("italic");
    reveal_strlit("obfuscated");
    reveal_strlit("plain");
    reveal_strlit("separator");
    reveal_strlit("strikethrough");
    reveal_strlit("underlined");
    reveal_strlit("下划线");
    reveal_strlit("分隔符");
    reveal_strlit("删除线");
    reveal_strlit("悬停");
    reveal_strlit("斜体");
    reveal_strlit("混淆");
    reveal_strlit("点击");
    reveal_strlit("粗体");
    reveal_strlit("纯文本");
    reveal_strlit("解释");
    reveal_strlit("颜色");
    assert("bold"@.len() == 4);
    assert("click"@.len() == 5 && "click"@[0] == 'c' && "click"@[1] == 'l');
    assert("color"@.len() == 5 && "color"@[0] == 'c' && "color"@[1] == 'o');
    assert("hover"@.len() == 5 && "hover"@[0] == 'h');
    assert("interpret"@.len() == 9 && "interpret"@[0] == 'i');
    assert("italic"@.len() == 6);
    assert("obfuscated"@.len() == 10 && "obfuscated"@[0] == 'o');
    assert("plain"@.len() == 5 && "plain"@[0] == 'p');
    assert("separator"@.len() == 9 && "separator"@[0] == 's');
    assert("strikethrough"@.len() == 13);
    assert("underlined"@.len() == 10 && "underlined"@[0] == 'u');
    assert("下划线"@.len() == 3 && "下划线"@[0] == '下');
    assert("分隔符"@.len() == 3 && "分隔符"@[0] == '分');
    assert("删除线"@.len() == 3 && "删除线"@[0] == '删');
    assert("悬停"@.len() == 2 && "悬停"@[0] == '悬');
    assert("斜体"@.len() == 2 && "斜体"@[0] == '斜');
    assert("混淆"@.len() == 2 && "混淆"@[0] == '混');
    assert("点击"@.len() == 2 && "点击"@[0] == '点');
    assert("粗体"@.len() == 2 && "粗体"@[0] == '粗');
    assert("纯文本"@.len() == 3 && "纯文本"@[0] == '纯');
    assert("解释"@.len() == 2 && "解释"@[0] == '解');
    assert("颜色"@.len() == 2 && "颜色"@[0] == '颜');
}

/// Each spelling of a click action word gives its own canonical value, the
/// spellings of different words give different values, and no other word
/// gives one.
pub proof fn lemma_click_action_spellings(s: Seq<char>)
    ensures
        click_action_spec(s) == Some("open_url"@) <==> (s == "open_url"@ || s == "打开链接"@),
        click_action_spec(s) == Some("run_command"@) <==> (s == "run_command"@ || s == "运行命令"@),
        click_action_spec(s) == Some("suggest_command"@) <==> (s == "suggest_command"@ || s == "建议命令"@),
        click_action_spec(s) == Some("copy_to_clipboard"@) <==> (s == "copy_to_clipboard"@ || s == "复制到剪贴板"@),
        click_action_spec(s) == Some("change_page"@) <==> (s == "change_page"@ || s == "翻页"@),
        click_action_spec(s) is None <==> !(s == "open_url"@ || s == "打开链接"@ || s == "run_command"@ || s == "运行命令"@ || s == "suggest_command"@ || s == "建议命令"@ || s == "copy_to_clipboard"@ || s == "复制到剪贴板"@ || s == "change_page"@ || s == "翻页"@),
{
    reveal_strlit("change_page");
    reveal_strlit("copy_to_clipboard");
    reveal_strlit("open_url");
    reveal_strlit("run_command");
    reveal_strlit("suggest_command");
    reveal_strlit("复制到剪贴板");
    reveal_strlit("建议命令");
    reveal_strlit("打开链接");
    reveal_strlit("翻页");
    reveal_strlit("运行命令");
    assert("change_page"@.len() == 11 && "change_page"@[0] == 'c');
    assert("copy_to_clipboard"@.len() == 17);
    assert("open_url"@.len() == 8);
    assert("run_command"@.len() == 11 && "run_command"@[0] == 'r');
    assert("suggest_command"@.len() == 15);
    assert("复制到剪贴板"@.len() == 6);
    assert("建议命令"@.len() == 4 && "建议命令"@[0] == '建');
    assert("打开链接"@.len() == 4 && "打开链接"@[0] == '打');
    assert("翻页"@.len() == 2);
    assert("运行命令"@.len() == 4 && "运行命令"@[0] == '运');
}

/// Each spelling of a nbt source word gives its own canonical value, the
/// spellings of different words give different values, and no other word
/// gives one.
pub proof fn lemma_nbt_source_spellings(s: Seq<char>)
    ensures
        nbt_source_spec(s) == Some("entity"@) <==> (s == "entity"@ || s == "实体"@),
        nbt_source_spec(s) == Some("block"@) <==> (s == "block"@ || s == "方块"@),
        nbt_source_spec(s) == Some("storage"@) <==> (s == "storage"@ || s == "存储"@),
        nbt_source_spec(s) is None <==> !(s == "entity"@ || s == "实体"@ || s == "block"@ || s == "方块"@ || s == "storage"@ || s == "存储"@),
{
    reveal_strlit("block");
    reveal_strlit("entity");
    reveal_strlit("storage");
    reveal_strlit("存储");
    reveal_strlit("实体");
    reveal_strlit("方块");
    assert("block"@.len() == 5);
    assert("entity"@.len() == 6);
    assert("storage"@.len() == 7);
    assert("存储"@.len() == 2 && "存储"@[0] == '存');
    assert("实体"@.len() == 2 && "实体"@[0] == '实');
    assert("方块"@.len() == 2 && "方块"@[0] == '方');
}

/// Each spelling of a compute source word gives its own canonical value, the
/// spellings of different words give different values, and no other word
/// gives one.
pub proof fn lemma_compute_source_spellings(s: Seq<char>)
    ensures
        compute_source_spec(s) == Some("default"@) <==> (s == "default"@ || s == "默认"@),
        compute_source_spec(s) == Some("block"@) <==> (s == "block"@ || s == "方块"@),
        compute_source_spec(s) == Some("entity"@) <==> (s == "entity"@ || s == "实体"@),
        compute_source_spec(s) is None <==> !(s == "default"@ || s == "默认"@ || s == "block"@ || s == "方块"@ || s == "entity"@ || s == "实体"@),
{
    reveal_strlit("block");
    reveal_strlit("default");
    reveal_strlit("entity");
    reveal_strlit("实体");
    reveal_strlit("方块");
    reveal_strlit("默认");
    assert("block"@.len() == 5);
    assert("default"@.len() == 7);
    assert("entity"@.len() == 6);
    assert("实体"@.len() == 2 && "实体"@[0] == '实');
    assert("方块"@.len() == 2 && "方块"@[0] == '方');
    assert("默认"@.len() == 2 && "默认"@[0] == '默');
}

/// Each spelling of a compute kind word gives its own canonical value, the
/// spellings of different words give different values, and no other word
/// gives one.
pub proof fn lemma_compute_kind_spellings(s: Seq<char>)
    ensures
        compute_kind_spec(s) == Some("float"@) <==> (s == "float"@ || s == "浮点"@),
        compute_kind_spec(s) == Some("integer"@) <==> (s == "integer"@ || s == "整数"@),
        compute_kind_spec(s) is None <==> !(s == "float"@ || s == "浮点"@ || s == "integer"@ || s == "整数"@),
{
    reveal_strlit("float");
    reveal_strlit("integer");
    reveal_strlit("整数");
    reveal_strlit("浮点");
    assert("float"@.len() == 5);
    assert("integer"@.len() == 7);
    assert("整数"@.len() == 2 && "整数"@[0] == '整');
    assert("浮点"@.len() == 2 && "浮点"@[0] == '浮');
}

/// Each spelling of a data method word gives its own canonical value, the
/// spellings of different words give different values, and no other word
/// gives one.
pub proof fn lemma_data_method_spellings(s: Seq<char>)
    ensures
        data_method_spec(s) == Some("get"@) <==> (s == "get"@ || s == "取"@),
        data_method_spec(s) == Some("merge"@) <==> (s == "merge"@ || s == "合并"@),
        data_method_spec(s) == Some("remove"@) <==> (s == "remove"@ || s == "移除"@),
        data_method_spec(s) == Some("modify"@) <==> (s == "modify"@ || s == "修改"@),
        data_method_spec(s) is None <==> !(s == "get"@ || s == "取"@ || s == "merge"@ || s == "合并"@ || s == "remove"@ || s == "移除"@ || s == "modify"@ || s == "修改"@),
{
    reveal_strlit("get");
    reveal_strlit("merge");
    reveal_strlit("modify");
    reveal_strlit("remove");
    reveal_strlit("修改");
    reveal_strlit("取");
    reveal_strlit("合并");
    reveal_strlit("移除");
    assert("get"@.len() == 3);
    assert("merge"@.len() == 5);
    assert("modify"@.len() == 6 && "modify"@[0] == 'm');
    assert("remove"@.len() == 6 && "remove"@[0] == 'r');
    assert("修改"@.len() == 2 && "修改"@[0] == '修');
    assert("取"@.len() == 1);
    assert("合并"@.len() == 2 && "合并"@[0] == '合');
    assert("移除"@.len() == 2 && "移除"@[0] == '移');
}

/// Each spelling of a effect method word gives its own canonical value, the
/// spellings of different words give different values, and no other word
/// gives one.
pub proof fn lemma_effect_method_spellings(s: Seq<char>)
    ensures
        effect_method_spec(s) == Some("give"@) <==> (s == "give"@ || s == "给予"@),
        effect_method_spec(s) == Some("give_infinite"@) <==> (s == "give_infinite"@ || s == "给予无限"@),
        effect_method_spec(s) == Some("clear"@) <==> (s == "clear"@ || s == "清除"@),
        effect_method_spec(s) is None <==> !(s == "give"@ || s == "给予"@ || s == "give_infinite"@ || s == "给予无限"@ || s == "clear"@ || s == "清除"@),
{
    reveal_strlit("clear");
    reveal_strlit("give");
    reveal_strlit("give_infinite");
    reveal_strlit("清除");
    reveal_strlit("给予");
    reveal_strlit("给予无限");
    assert("clear"@.len() == 5);
    assert("give"@.len() == 4 && "give"@[0] == 'g');
    assert("give_infinite"@.len() == 13);
    assert("清除"@.len() == 2 && "清除"@[0] == '清');
    assert("给予"@.len() == 2 && "给予"@[0] == '给');
    assert("给予无限"@.len() == 4 && "给予无限"@[0] == '给');
}

/// Each spelling of a xp method word gives its own canonical value, the
/// spellings of different words give different values, and no other word
/// gives one.
pub proof fn lemma_xp_method_spellings(s: Seq<char>)
    ensures
        xp_method_spec(s) == Some("add"@) <==> (s == "add"@ || s == "增加"@),
        xp_method_spec(s) == Some("set"@) <==> (s == "set"@ || s == "设置"@),
        xp_method_spec(s) == Some("query"@) <==> (s == "query"@ || s == "查询"@),
        xp_method_spec(s) is None <==> !(s == "add"@ || s == "增加"@ || s == "set"@ || s == "设置"@ || s == "query"@ || s == "查询"@),
{
    reveal_strlit("add");
    reveal_strlit("query");
    reveal_strlit("set");
    reveal_strlit("增加");
    reveal_strlit("查询");
    reveal_strlit("设置");
    assert("add"@.len() == 3 && "add"@[0] == 'a');
    assert("query"@.len() == 5);
    assert("set"@.len() == 3 && "set"@[0] == 's');
    assert("增加"@.len() == 2 && "增加"@[0] == '增');
    assert("查询"@.len() == 2 && "查询"@[0] == '查');
    assert("设置"@.len() == 2 && "设置"@[0] == '设');
}

/// Each spelling of a xp kind word gives its own canonical value, the
/// spellings of different words give different values, and no other word
/// gives one.
pub proof fn lemma_xp_kind_spellings(s: Seq<char>)
    ensures
        xp_kind_spec(s) == Some(XpKind::Points) <==> (s == "points"@ || s == "点数"@),
        xp_kind_spec(s) == Some(XpKind::Levels) <==> (s == "levels"@ || s == "等级"@),
        xp_kind_spec(s) is None <==> !(s == "points"@ || s == "点数"@ || s == "levels"@ || s == "等级"@),
{
    reveal_strlit("levels");
    reveal_strlit("points");
    reveal_strlit("点数");
    reveal_strlit("等级");
    assert("levels"@.len() == 6 && "levels"@[0] == 'l');
    assert("points"@.len() == 6 && "points"@[0] == 'p');
    assert("点数"@.len() == 2 && "点数"@[0] == '点');
    assert("等级"@.len() == 2 && "等级"@[0] == '等');
}

/// Each spelling of a stopwatch method word gives its own canonical value, the
/// spellings of different words give different values, and no other word
/// gives one.
pub proof fn lemma_stopwatch_method_spellings(s: Seq<char>)
    ensures
        stopwatch_method_spec(s) == Some("create"@) <==> (s == "create"@ || s == "创建"@),
        stopwatch_method_spec(s) == Some("query"@) <==> (s == "query"@ || s == "查询"@),
        stopwatch_method_spec(s) == Some("restart"@) <==> (s == "restart"@ || s == "重启"@),
        stopwatch_method_spec(s) == Some("remove"@) <==> (s == "remove"@ || s == "移除"@),
        stopwatch_method_spec(s) is None <==> !(s == "create"@ || s == "创建"@ || s == "query"@ || s == "查询"@ || s == "restart"@ || s == "重启"@ || s == "remove"@ || s == "移除"@),
{
    reveal_strlit("create");
    reveal_strlit("query");
    reveal_strlit("remove");
    reveal_strlit("restart");
    reveal_strlit("创建");
    reveal_strlit("查询");
    reveal_strlit("移除");
    reveal_strlit("重启");
    assert("create"@.len() == 6 && "create"@[0] == 'c');
    assert("query"@.len() == 5);
    assert("remove"@.len() == 6 && "remove"@[0] == 'r');
    assert("restart"@.len() == 7);
    assert("创建"@.len() == 2 && "创建"@[0] == '创');
    assert("查询"@.len() == 2 && "查询"@[0] == '查');
    assert("移除"@.len() == 2 && "移除"@[0] == '移');
    assert("重启"@.len() == 2 && "重启"@[0] == '重');
}

/// Each spelling of a boolean word word gives its own canonical value, the
/// spellings of different words give different values, and no other word
/// gives one.
pub proof fn lemma_boolean_word_spellings(s: Seq<char>)
    ensures
        boolean_word_spec(s) == Some("true"@) <==> (s == "true"@ || s == "真"@),
        boolean_word_spec(s) == Some("false"@) <==> (s == "false"@ || s == "假"@),
        boolean_word_spec(s) is None <==> !(s == "true"@ || s == "真"@ || s == "false"@ || s == "假"@),
{
    reveal_strlit("false");
    reveal_strlit("true");
    reveal_strlit("假");
    reveal_strlit("真");
    assert("false"@.len() == 5);
    assert("true"@.len() == 4);
    assert("假"@.len() == 1 && "假"@[0] == '假');
    assert("真"@.len() == 1 && "真"@[0] == '真');
}

/// Each spelling of a time unit word gives its own canonical value, the
/// spellings of different words give different values, and no other word
/// gives one.
pub proof fn lemma_time_unit_spellings(s: Seq<char>)
    ensures
        time_unit_spec(s) == Some("t"@) <==> (s == "t"@ || s == "刻"@),
        time_unit_spec(s) == Some("s"@) <==> (s == "s"@ || s == "秒"@),
        time_unit_spec(s) == Some("d"@) <==> (s == "d"@ || s == "天"@),
        time_unit_spec(s) is None <==> !(s == "t"@ || s == "刻"@ || s == "s"@ || s == "秒"@ || s == "d"@ || s == "天"@),
{
    reveal_strlit("d");
    reveal_strlit("s");
    reveal_strlit("t");
    reveal_strlit("刻");
    reveal_strlit("天");
    reveal_strlit("秒");
    assert("d"@.len() == 1 && "d"@[0] == 'd');
    assert("s"@.len() == 1 && "s"@[0] == 's');
    assert("t"@.len() == 1 && "t"@[0] == 't');
    assert("刻"@.len() == 1 && "刻"@[0] == '刻');
    assert("天"@.len() == 1 && "天"@[0] == '天');
    assert("秒"@.len() == 1 && "秒"@[0] == '秒');
}

/// Each spelling of a text color word gives its own canonical value, the
/// spellings of different words give different values, and no other word
/// gives one.
pub proof fn lemma_text_color_spellings(s: Seq<char>)
    ensures
        text_color_spec(s) == Some("black"@) <==> (s == "black"@ || s == "黑色"@),
        text_color_spec(s) == Some("dark_blue"@) <==> (s == "dark_blue"@ || s == "深蓝色"@),
        text_color_spec(s) == Some("dark_green"@) <==> (s == "dark_green"@ || s == "深绿色"@),
        text_color_spec(s) == Some("dark_aqua"@) <==> (s == "dark_aqua"@ || s == "深青色"@),
        text_color_spec(s) == Some("dark_red"@) <==> (s == "dark_red"@ || s == "深红色"@),
        text_color_spec(s) == Some("dark_purple"@) <==> (s == "dark_purple"@ || s == "深紫色"@),
        text_color_spec(s) == Some("gold"@) <==> (s == "gold"@ || s == "金色"@),
        text_color_spec(s) == Some("gray"@) <==> (s == "gray"@ || s == "灰色"@),
        text_color_spec(s) == Some("dark_gray"@) <==> (s == "dark_gray"@ || s == "深灰色"@),
        text_color_spec(s) == Some("blue"@) <==> (s == "blue"@ || s == "蓝色"@),
        text_color_spec(s) == Some("green"@) <==> (s == "green"@ || s == "绿色"@),
        text_color_spec(s) == Some("aqua"@) <==> (s == "aqua"@ || s == "青色"@),
        text_color_spec(s) == Some("red"@) <==> (s == "red"@ || s == "红色"@),
        text_color_spec(s) == Some("light_purple"@) <==> (s == "light_purple"@ || s == "亮紫色"@),
        text_color_spec(s) == Some("yellow"@) <==> (s == "yellow"@ || s == "黄色"@),
        text_color_spec(s) == Some("white"@) <==> (s == "white"@ || s == "白色"@),
        text_color_spec(s) is None <==> !(s == "black"@ || s == "黑色"@ || s == "dark_blue"@ || s == "深蓝色"@ || s == "dark_green"@ || s == "深绿色"@ || s == "dark_aqua"@ || s == "深青色"@ || s == "dark_red"@ || s == "深红色"@ || s == "dark_purple"@ || s == "深紫色"@ || s == "gold"@ || s == "金色"@ || s == "gray"@ || s == "灰色"@ || s == "dark_gray"@ || s == "深灰色"@ || s == "blue"@ || s == "蓝色"@ || s == "green"@ || s == "绿色"@ || s == "aqua"@ || s == "青色"@ || s == "red"@ || s == "红色"@ || s == "light_purple"@ || s == "亮紫色"@ || s == "yellow"@ || s == "黄色"@ || s == "white"@ || s == "白色"@),
{
    reveal_strlit("aqua");
    reveal_strlit("black");
    reveal_strlit("blue");
    reveal_strlit("dark_aqua");
    reveal_strlit("dark_blue");
    reveal_strlit("dark_gray");
    reveal_strlit("dark_green");
    reveal_strlit("dark_purple");
    reveal_strlit("dark_red");
    reveal_strlit("gold");
    reveal_strlit("gray");
    reveal_strlit("green");
    reveal_strlit("light_purple");
    reveal_strlit("red");
    reveal_strlit("white");
    reveal_strlit("yellow");
    reveal_strlit("亮紫色");
    reveal_strlit("深灰色");
    reveal_strlit("深紫色");
    reveal_strlit("深红色");
    reveal_strlit("深绿色");
    reveal_strlit("深蓝色");
    reveal_strlit("深青色");
    reveal_strlit("灰色");
    reveal_strlit("白色");
    reveal_strlit("红色");
    reveal_strlit("绿色");
    reveal_strlit("蓝色");
    reveal_strlit("金色");
    reveal_strlit("青色");
    reveal_strlit("黄色");
    reveal_strlit("黑色");
    assert("aqua"@.len() == 4 && "aqua"@[0] == 'a');
    assert("black"@.len() == 5 && "black"@[0] == 'b');
    assert("blue"@.len() == 4 && "blue"@[0] == 'b');
    assert("dark_aqua"@.len() == 9 && "dark_aqua"@[5] == 'a');
    assert("dark_blue"@.len() == 9 && "dark_blue"@[5] == 'b');
    assert("dark_gray"@.len() == 9 && "dark_gray"@[5] == 'g');
    assert("dark_green"@.len() == 10);
    assert("dark_purple"@.len() == 11);
    assert("dark_red"@.len() == 8);
    assert("gold"@.len() == 4 && "gold"@[0] == 'g' && "gold"@[1] == 'o');
    assert("gray"@.len() == 4 && "gray"@[0] == 'g' && "gray"@[1] == 'r');
    assert("green"@.len() == 5 && "green"@[0] == 'g');
    assert("light_purple"@.len() == 12);
    assert("red"@.len() == 3 && "red"@[0] == 'r');
    assert("white"@.len() == 5 && "white"@[0] == 'w');
    assert("yellow"@.len() == 6);
    assert("亮紫色"@.len() == 3 && "亮紫色"@[0] == '亮');
    assert("深灰色"@.len() == 3 && "深灰色"@[0] == '深' && "深灰色"@[1] == '灰');
    assert("深紫色"@.len() == 3 && "深紫色"@[0] == '深' && "深紫色"@[1] == '紫');
    assert("深红色"@.len() == 3 && "深红色"@[0] == '深' && "深红色"@[1] == '红');
    assert("深绿色"@.len() == 3 && "深绿色"@[0] == '深' && "深绿色"@[1] == '绿');
    assert("深蓝色"@.len() == 3 && "深蓝色"@[0] == '深' && "深蓝色"@[1] == '蓝');
    assert("深青色"@.len() == 3 && "深青色"@[0] == '深' && "深青色"@[1] == '青');
    assert("灰色"@.len() == 2 && "灰色"@[0] == '灰');
    assert("白色"@.len() == 2 && "白色"@[0] == '白');
    assert("红色"@.len() == 2 && "红色"@[0] == '红');
    assert("绿色"@.len() == 2 && "绿色"@[0] == '绿');
    assert("蓝色"@.len() == 2 && "蓝色"@[0] == '蓝');
    assert("金色"@.len() == 2 && "金色"@[0] == '金');
    assert("青色"@.len() == 2 && "青色"@[0] == '青');
    assert("黄色"@.len() == 2 && "黄色"@[0] == '黄');
    assert("黑色"@.len() == 2 && "黑色"@[0] == '黑');
}

/// Each spelling of a sound source word gives its own canonical value, the
/// spellings of different words give different values, and no other word
/// gives one.
pub proof fn lemma_sound_source_spellings(s: Seq<char>)
    ensures
        sound_source_spec(s) == Some("master"@) <==> (s == "master"@ || s == "主音量"@),
        sound_source_spec(s) == Some("music"@) <==> (s == "music"@ || s == "音乐"@),
        sound_source_spec(s) == Some("record"@) <==> (s == "record"@ || s == "唱片"@),
        sound_source_spec(s) == Some("weather"@) <==> (s == "weather"@ || s == "天气"@),
        sound_source_spec(s) == Some("block"@) <==> (s == "block"@ || s == "方块"@),
        sound_source_spec(s) == Some("hostile"@) <==> (s == "hostile"@ || s == "敌对"@),
        sound_source_spec(s) == Some("neutral"@) <==> (s == "neutral"@ || s == "中立"@),
        sound_source_spec(s) == Some("player"@) <==> (s == "player"@ || s == "玩家"@),
        sound_source_spec(s) == Some("ambient"@) <==> (s == "ambient"@ || s == "环境"@),
        sound_source_spec(s) == Some("voice"@) <==> (s == "voice"@ || s == "语音"@),
        sound_source_spec(s) == Some("ui"@) <==> (s == "ui"@ || s == "界面"@),
        sound_source_spec(s) is None <==> !(s == "master"@ || s == "主音量"@ || s == "music"@ || s == "音乐"@ || s == "record"@ || s == "唱片"@ || s == "weather"@ || s == "天气"@ || s == "block"@ || s == "方块"@ || s == "hostile"@ || s == "敌对"@ || s == "neutral"@ || s == "中立"@ || s == "player"@ || s == "玩家"@ || s == "ambient"@ || s == "环境"@ || s == "voice"@ || s == "语音"@ || s == "ui"@ || s == "界面"@),
{
    reveal_strlit("ambient");
    reveal_strlit("block");
    reveal_strlit("hostile");
    reveal_strlit("master");
    reveal_strlit("music");
    reveal_strlit("neutral");
    reveal_strlit("player");
    reveal_strlit("record");
    reveal_strlit("ui");
    reveal_strlit("voice");
    reveal_strlit("weather");
    reveal_strlit("中立");
    reveal_strlit("主音量");
    reveal_strlit("唱片");
    reveal_strlit("天气");
    reveal_strlit("敌对");
    reveal_strlit("方块");
    reveal_strlit("玩家");
    reveal_strlit("环境");
    reveal_strlit("界面");
    reveal_strlit("语音");
    reveal_strlit("音乐");
    assert("ambient"@.len() == 7 && "ambient"@[0] == 'a');
    assert("block"@.len() == 5 && "block"@[0] == 'b');
    assert("hostile"@.len() == 7 && "hostile"@[0] == 'h');
    assert("master"@.len() == 6 && "master"@[0] == 'm');
    assert("music"@.len() == 5 && "music"@[0] == 'm');
    assert("neutral"@.len() == 7 && "neutral"@[0] == 'n');
    assert("player"@.len() == 6 && "player"@[0] == 'p');
    assert("record"@.len() == 6 && "record"@[0] == 'r');
    assert("ui"@.len() == 2 && "ui"@[0] == 'u');
    assert("voice"@.len() == 5 && "voice"@[0] == 'v');
    assert("weather"@.len() == 7 && "weather"@[0] == 'w');
    assert("中立"@.len() == 2 && "中立"@[0] == '中');
    assert("主音量"@.len() == 3);
    assert("唱片"@.len() == 2 && "唱片"@[0] == '唱');
    assert("天气"@.len() == 2 && "天气"@[0] == '天');
    assert("敌对"@.len() == 2 && "敌对"@[0] == '敌');
    assert("方块"@.len() == 2 && "方块"@[0] == '方');
    assert("玩家"@.len() == 2 && "玩家"@[0] == '玩');
    assert("环境"@.len() == 2 && "环境"@[0] == '环');
    assert("界面"@.len() == 2 && "界面"@[0] == '界');
    assert("语音"@.len() == 2 && "语音"@[0] == '语');
    assert("音乐"@.len() == 2 && "音乐"@[0] == '音');
}

/// Each spelling of a query property word gives its own canonical value, the
/// spellings of different words give different values, and no other word
/// gives one.
pub proof fn lemma_query_property_spellings(s: Seq<char>)
    ensures
        query_property_spec(s) == Some("tag"@) <==> (s == "tag"@ || s == "标签"@),
        query_property_spec(s) == Some("without_tag"@) <==> (s == "without_tag"@ || s == "排除标签"@),
        query_property_spec(s) == Some("type"@) <==> (s == "type"@ || s == "实体类型"@),
        query_property_spec(s) == Some("without_type"@) <==> (s == "without_type"@ || s == "排除类型"@),
        query_property_spec(s) == Some("limit"@) <==> (s == "limit"@ || s == "上限"@),
        query_property_spec(s) == Some("within"@) <==> (s == "within"@ || s == "范围"@),
        query_property_spec(s) == Some("sort"@) <==> (s == "sort"@ || s == "排序"@),
        query_property_spec(s) == Some("name"@) <==> (s == "name"@ || s == "名称"@),
        query_property_spec(s) == Some("without_name"@) <==> (s == "without_name"@ || s == "排除名称"@),
        query_property_spec(s) == Some("scores"@) <==> (s == "scores"@ || s == "分数"@),
        query_property_spec(s) == Some("nbt"@) <==> (s == "nbt"@ || s == "数据"@),
        query_property_spec(s) == Some("without_nbt"@) <==> (s == "without_nbt"@ || s == "排除数据"@),
        query_property_spec(s) == Some("box"@) <==> (s == "box"@ || s == "坐标盒"@),
        query_property_spec(s) == Some("distance"@) <==> (s == "distance"@ || s == "距离"@),
        query_property_spec(s) == Some("level"@) <==> (s == "level"@ || s == "等级"@),
        query_property_spec(s) == Some("gamemode"@) <==> (s == "gamemode"@ || s == "游戏模式"@),
        query_property_spec(s) == Some("team"@) <==> (s == "team"@ || s == "队伍"@),
        query_property_spec(s) == Some("without_team"@) <==> (s == "without_team"@ || s == "排除队伍"@),
        query_property_spec(s) == Some("rotate"@) <==> (s == "rotate"@ || s == "旋转"@),
        query_property_spec(s) == Some("predicate"@) <==> (s == "predicate"@ || s == "谓词"@),
        query_property_spec(s) == Some("advancements"@) <==> (s == "advancements"@ || s == "进度过滤"@),
        query_property_spec(s) == Some("item"@) <==> (s == "item"@ || s == "物品"@),
        query_property_spec(s) is None <==> !(s == "tag"@ || s == "标签"@ || s == "without_tag"@ || s == "排除标签"@ || s == "type"@ || s == "实体类型"@ || s == "without_type"@ || s == "排除类型"@ || s == "limit"@ || s == "上限"@ || s == "within"@ || s == "范围"@ || s == "sort"@ || s == "排序"@ || s == "name"@ || s == "名称"@ || s == "without_name"@ || s == "排除名称"@ || s == "scores"@ || s == "分数"@ || s == "nbt"@ || s == "数据"@ || s == "without_nbt"@ || s == "排除数据"@ || s == "box"@ || s == "坐标盒"@ || s == "distance"@ || s == "距离"@ || s == "level"@ || s == "等级"@ || s == "gamemode"@ || s == "游戏模式"@ || s == "team"@ || s == "队伍"@ || s == "without_team"@ || s == "排除队伍"@ || s == "rotate"@ || s == "旋转"@ || s == "predicate"@ || s == "谓词"@ || s == "advancements"@ || s == "进度过滤"@ || s == "item"@ || s == "物品"@),
{
    reveal_strlit("advancements");
    reveal_strlit("box");
    reveal_strlit("distance");
    reveal_strlit("gamemode");
    reveal_strlit("item");
    reveal_strlit("level");
    reveal_strlit("limit");
    reveal_strlit("name");
    reveal_strlit("nbt");
    reveal_strlit("predicate");
    reveal_strlit("rotate");
    reveal_strlit("scores");
    reveal_strlit("sort");
    reveal_strlit("tag");
    reveal_strlit("team");
    reveal_strlit("type");
    reveal_strlit("within");
    reveal_strlit("without_name");
    reveal_strlit("without_nbt");
    reveal_strlit("without_tag");
    reveal_strlit("without_team");
    reveal_strlit("without_type");
    reveal_strlit("上限");
    reveal_strlit("分数");
    reveal_strlit("名称");
    reveal_strlit("坐标盒");
    reveal_strlit("实体类型");
    reveal_strlit("排序");
    reveal_strlit("排除名称");
    reveal_strlit("排除数据");
    reveal_strlit("排除标签");
    reveal_strlit("排除类型");
    reveal_strlit("排除队伍");
    reveal_strlit("数据");
    reveal_strlit("旋转");
    reveal_strlit("标签");
    reveal_strlit("游戏模式");
    reveal_strlit("物品");
    reveal_strlit("等级");
    reveal_strlit("范围");
    reveal_strlit("谓词");
    reveal_strlit("距离");
    reveal_strlit("进度过滤");
    reveal_strlit("队伍");
    assert("advancements"@.len() == 12 && "advancements"@[0] == 'a');
    assert("box"@.len() == 3 && "box"@[0] == 'b');
    assert("distance"@.len() == 8 && "distance"@[0] == 'd');
    assert("gamemode"@.len() == 8 && "gamemode"@[0] == 'g');
    assert("item"@.len() == 4 && "item"@[0] == 'i');
    assert("level"@.len() == 5 && "level"@[1] == 'e');
    assert("limit"@.len() == 5 && "limit"@[1] == 'i');
    assert("name"@.len() == 4 && "name"@[0] == 'n');
    assert("nbt"@.len() == 3 && "nbt"@[0] == 'n');
    assert("predicate"@.len() == 9);
    assert("rotate"@.len() == 6 && "rotate"@[0] == 'r');
    assert("scores"@.len() == 6 && "scores"@[0] == 's');
    assert("sort"@.len() == 4 && "sort"@[0] == 's');
    assert("tag"@.len() == 3 && "tag"@[0] == 't');
    assert("team"@.len() == 4 && "team"@[0] == 't' && "team"@[1] == 'e');
    assert("type"@.len() == 4 && "type"@[0] == 't' && "type"@[1] == 'y');
    assert("within"@.len() == 6 && "within"@[0] == 'w');
    assert("without_name"@.len() == 12 && "without_name"@[0] == 'w' && "without_name"@[8] == 'n');
    assert("without_nbt"@.len() == 11 && "without_nbt"@[8] == 'n');
    assert("without_tag"@.len() == 11 && "without_tag"@[8] == 't');
    assert("without_team"@.len() == 12 && "without_team"@[0] == 'w' && "without_team"@[8] == 't' && "without_team"@[9] == 'e');
    assert("without_type"@.len() == 12 && "without_type"@[0] == 'w' && "without_type"@[8] == 't' && "without_type"@[9] == 'y');
    assert("上限"@.len() == 2 && "上限"@[0] == '上');
    assert("分数"@.len() == 2 && "分数"@[0] == '分');
    assert("名称"@.len() == 2 && "名称"@[0] == '名');
    assert("坐标盒"@.len() == 3 && "坐标盒"@[0] == '坐');
    assert("实体类型"@.len() == 4 && "实体类型"@[0] == '实');
    assert("排序"@.len() == 2 && "排序"@[0] == '排');
    assert("排除名称"@.len() == 4 && "排除名称"@[0] == '排' && "排除名称"@[2] == '名');
    assert("排除数据"@.len() == 4 && "排除数据"@[0] == '排' && "排除数据"@[2] == '数');
    assert("排除标签"@.len() == 4 && "排除标签"@[0] == '排' && "排除标签"@[2] == '标');
    assert("排除类型"@.len() == 4 && "排除类型"@[0] == '排' && "排除类型"@[2] == '类');
    assert("排除队伍"@.len() == 4 && "排除队伍"@[0] == '排' && "排除队伍"@[2] == '队');
    assert("数据"@.len() == 2 && "数据"@[0] == '数');
    assert("旋转"@.len() == 2 && "旋转"@[0] == '旋');
    assert("标签"@.len() == 2 && "标签"@[0] == '标');
    assert("游戏模式"@.len() == 4 && "游戏模式"@[0] == '游');
    assert("物品"@.len() == 2 && "物品"@[0] == '物');
    assert("等级"@.len() == 2 && "等级"@[0] == '等');
    assert("范围"@.len() == 2 && "范围"@[0] == '范');
    assert("谓词"@.len() == 2 && "谓词"@[0] == '谓');
    assert("距离"@.len() == 2 && "距离"@[0] == '距');
    assert("进度过滤"@.len() == 4 && "进度过滤"@[0] == '进');
    assert("队伍"@.len() == 2 && "队伍"@[0] == '队');
}

/// Each spelling of a item property word gives its own canonical value, the
/// spellings of different words give different values, and no other word
/// gives one.
pub proof fn lemma_item_property_spellings(s: Seq<char>)
    ensures
        item_property_spec(s) == Some("id"@) <==> (s == "id"@ || s == "类型"@),
        item_property_spec(s) == Some("count"@) <==> (s == "count"@ || s == "数量"@),
        item_property_spec(s) == Some("custom_name"@) <==> (s == "custom_name"@ || s == "自定义名称"@),
        item_property_spec(s) is None <==> !(s == "id"@ || s == "类型"@ || s == "count"@ || s == "数量"@ || s == "custom_name"@ || s == "自定义名称"@),
{
    reveal_strlit("count");
    reveal_strlit("custom_name");
    reveal_strlit("id");
    reveal_strlit("数量");
    reveal_strlit("类型");
    reveal_strlit("自定义名称");
    assert("count"@.len() == 5 && "count"@[0] == 'c');
    assert("custom_name"@.len() == 11);
    assert("id"@.len() == 2 && "id"@[0] == 'i');
    assert("数量"@.len() == 2 && "数量"@[0] == '数');
    assert("类型"@.len() == 2 && "类型"@[0] == '类');
    assert("自定义名称"@.len() == 5 && "自定义名称"@[0] == '自');
}

/// Each spelling of a function tag property word gives its own canonical value, the
/// spellings of different words give different values, and no other word
/// gives one.
pub proof fn lemma_function_tag_property_spellings(s: Seq<char>)
    ensures
        function_tag_property_spec(s) == Some("value"@) <==> (s == "value"@ || s == "值"@),
        function_tag_property_spec(s) == Some("replace"@) <==> (s == "replace"@ || s == "替换"@),
        function_tag_property_spec(s) is None <==> !(s == "value"@ || s == "值"@ || s == "replace"@ || s == "替换"@),
{
    reveal_strlit("replace");
    reveal_strlit("value");
    reveal_strlit("值");
    reveal_strlit("替换");
    assert("replace"@.len() == 7);
    assert("value"@.len() == 5);
    assert("值"@.len() == 1);
    assert("替换"@.len() == 2);
}

/// Each spelling of a item stack property word gives its own canonical value, the
/// spellings of different words give different values, and no other word
/// gives one.
pub proof fn lemma_item_stack_property_spellings(s: Seq<char>)
    ensures
        item_stack_property_spec(s) == Some("components"@) <==> (s == "components"@ || s == "组件"@),
        item_stack_property_spec(s) == Some("count"@) <==> (s == "count"@ || s == "数量"@),
        item_stack_property_spec(s) == Some("custom_name"@) <==> (s == "custom_name"@ || s == "自定义名称"@),
        item_stack_property_spec(s) == Some("item_name"@) <==> (s == "item_name"@ || s == "物品名称"@),
        item_stack_property_spec(s) == Some("lore"@) <==> (s == "lore"@ || s == "描述"@),
        item_stack_property_spec(s) == Some("enchantment"@) <==> (s == "enchantment"@ || s == "附魔"@),
        item_stack_property_spec(s) == Some("stored_enchantment"@) <==> (s == "stored_enchantment"@ || s == "存储附魔"@),
        item_stack_property_spec(s) == Some("damage"@) <==> (s == "damage"@ || s == "损伤"@),
        item_stack_property_spec(s) == Some("max_damage"@) <==> (s == "max_damage"@ || s == "最大损伤"@),
        item_stack_property_spec(s) == Some("max_stack_size"@) <==> (s == "max_stack_size"@ || s == "最大堆叠"@),
        item_stack_property_spec(s) == Some("rarity"@) <==> (s == "rarity"@ || s == "稀有度"@),
        item_stack_property_spec(s) == Some("item_model"@) <==> (s == "item_model"@ || s == "物品模型"@),
        item_stack_property_spec(s) == Some("dyed_color"@) <==> (s == "dyed_color"@ || s == "染色"@),
        item_stack_property_spec(s) == Some("enchantment_glint_override"@) <==> (s == "enchantment_glint_override"@ || s == "附魔光效"@),
        item_stack_property_spec(s) == Some("unbreakable"@) <==> (s == "unbreakable"@ || s == "无法破坏"@),
        item_stack_property_spec(s) == Some("custom_data"@) <==> (s == "custom_data"@ || s == "自定义数据"@),
        item_stack_property_spec(s) is None <==> !(s == "components"@ || s == "组件"@ || s == "count"@ || s == "数量"@ || s == "custom_name"@ || s == "自定义名称"@ || s == "item_name"@ || s == "物品名称"@ || s == "lore"@ || s == "描述"@ || s == "enchantment"@ || s == "附魔"@ || s == "stored_enchantment"@ || s == "存储附魔"@ || s == "damage"@ || s == "损伤"@ || s == "max_damage"@ || s == "最大损伤"@ || s == "max_stack_size"@ || s == "最大堆叠"@ || s == "rarity"@ || s == "稀有度"@ || s == "item_model"@ || s == "物品模型"@ || s == "dyed_color"@ || s == "染色"@ || s == "enchantment_glint_override"@ || s == "附魔光效"@ || s == "unbreakable"@ || s == "无法破坏"@ || s == "custom_data"@ || s == "自定义数据"@),
{
    reveal_strlit("components");
    reveal_strlit("count");
    reveal_strlit("custom_data");
    reveal_strlit("custom_name");
    reveal_strlit("damage");
    reveal_strlit("dyed_color");
    reveal_strlit("enchantment");
    reveal_strlit("enchantment_glint_override");
    reveal_strlit("item_model");
    reveal_strlit("item_name");
    reveal_strlit("lore");
    reveal_strlit("max_damage");
    reveal_strlit("max_stack_size");
    reveal_strlit("rarity");
    reveal_strlit("stored_enchantment");
    reveal_strlit("unbreakable");
    reveal_strlit("存储附魔");
    reveal_strlit("损伤");
    reveal_strlit("描述");
    reveal_strlit("数量");
    reveal_strlit("无法破坏");
    reveal_strlit("最大堆叠");
    reveal_strlit("最大损伤");
    reveal_strlit("染色");
    reveal_strlit("物品名称");
    reveal_strlit("物品模型");
    reveal_strlit("稀有度");
    reveal_strlit("组件");
    reveal_strlit("自定义名称");
    reveal_strlit("自定义数据");
    reveal_strlit("附魔");
    reveal_strlit("附魔光效");
    assert("components"@.len() == 10 && "components"@[0] == 'c');
    assert("count"@.len() == 5 && "count"@[0] == 'c');
    assert("custom_data"@.len() == 11 && "custom_data"@[0] == 'c' && "custom_data"@[7] == 'd');
    assert("custom_name"@.len() == 11 && "custom_name"@[0] == 'c' && "custom_name"@[7] == 'n');
    assert("damage"@.len() == 6 && "damage"@[0] == 'd');
    assert("dyed_color"@.len() == 10 && "dyed_color"@[0] == 'd');
    assert("enchantment"@.len() == 11 && "enchantment"@[0] == 'e');
    assert("enchantment_glint_override"@.len() == 26);
    assert("item_model"@.len() == 10 && "item_model"@[0] == 'i');
    assert("item_name"@.len() == 9);
    assert("lore"@.len() == 4 && "lore"@[0] == 'l');
    assert("max_damage"@.len() == 10 && "max_damage"@[0] == 'm');
    assert("max_stack_size"@.len() == 14);
    assert("rarity"@.len() == 6 && "rarity"@[0] == 'r');
    assert("stored_enchantment"@.len() == 18);
    assert("unbreakable"@.len() == 11 && "unbreakable"@[0] == 'u');
    assert("存储附魔"@.len() == 4 && "存储附魔"@[0] == '存');
    assert("损伤"@.len() == 2 && "损伤"@[0] == '损');
    assert("描述"@.len() == 2 && "描述"@[0] == '描');
    assert("数量"@.len() == 2 && "数量"@[0] == '数');
    assert("无法破坏"@.len() == 4 && "无法破坏"@[0] == '无');
    assert("最大堆叠"@.len() == 4 && "最大堆叠"@[0] == '最' && "最大堆叠"@[2] == '堆');
    assert("最大损伤"@.len() == 4 && "最大损伤"@[0] == '最' && "最大损伤"@[2] == '损');
    assert("染色"@.len() == 2 && "染色"@[0] == '染');
    assert("物品名称"@.len() == 4 && "物品名称"@[0] == '物' && "物品名称"@[2] == '名');
    assert("物品模型"@.len() == 4 && "物品模型"@[0] == '物' && "物品模型"@[2] == '模');
    assert("稀有度"@.len() == 3);
    assert("组件"@.len() == 2 && "组件"@[0] == '组');
    assert("自定义名称"@.len() == 5 && "自定义名称"@[0] == '自' && "自定义名称"@[3] == '名');
    assert("自定义数据"@.len() == 5 && "自定义数据"@[0] == '自' && "自定义数据"@[3] == '数');
    assert("附魔"@.len() == 2 && "附魔"@[0] == '附');
    assert("附魔光效"@.len() == 4 && "附魔光效"@[0] == '附');
}

/// Each spelling of a slot name word gives its own canonical value, the
/// spellings of different words give different values, and no other word
/// gives one.
pub proof fn lemma_slot_name_spellings(s: Seq<char>)
    ensures
        slot_name_spec(s) == Some("contents"@) <==> (s == "contents"@ || s == "内容"@),
        slot_name_spec(s) is None <==> !(s == "contents"@ || s == "内容"@),
{
    reveal_strlit("contents");
    reveal_strlit("内容");
    assert("contents"@.len() == 8);
    assert("内容"@.len() == 2);
}

/// Each spelling of a resource kind word gives its own canonical value, the
/// spellings of different words give different values, and no other word
/// gives one.
pub proof fn lemma_resource_kind_spellings(s: Seq<char>)
    ensures
        resource_kind_spec(s) == Some("recipe"@) <==> (s == "recipe"@ || s == "配方"@),
        resource_kind_spec(s) == Some("predicate"@) <==> (s == "predicate"@ || s == "谓词"@),
        resource_kind_spec(s) is None <==> !(s == "recipe"@ || s == "配方"@ || s == "predicate"@ || s == "谓词"@),
{
    reveal_strlit("predicate");
    reveal_strlit("recipe");
    reveal_strlit("谓词");
    reveal_strlit("配方");
    assert("predicate"@.len() == 9);
    assert("recipe"@.len() == 6);
    assert("谓词"@.len() == 2 && "谓词"@[0] == '谓');
    assert("配方"@.len() == 2 && "配方"@[0] == '配');
}

/// Each spelling of a advancement method word gives its own canonical value, the
/// spellings of different words give different values, and no other word
/// gives one.
pub proof fn lemma_advancement_method_spellings(s: Seq<char>)
    ensures
        advancement_method_spec(s) == Some(("grant"@, "only"@)) <==> (s == "grant"@ || s == "授予"@),
        advancement_method_spec(s) == Some(("grant"@, "through"@)) <==> (s == "grant_through"@ || s == "授予至"@),
        advancement_method_spec(s) == Some(("grant"@, "from"@)) <==> (s == "grant_from"@ || s == "授予从"@),
        advancement_method_spec(s) == Some(("grant"@, "until"@)) <==> (s == "grant_until"@ || s == "授予直到"@),
        advancement_method_spec(s) == Some(("grant"@, "everything"@)) <==> (s == "grant_everything"@ || s == "授予全部"@),
        advancement_method_spec(s) == Some(("revoke"@, "only"@)) <==> (s == "revoke"@ || s == "撤销"@),
        advancement_method_spec(s) == Some(("revoke"@, "through"@)) <==> (s == "revoke_through"@ || s == "撤销至"@),
        advancement_method_spec(s) == Some(("revoke"@, "from"@)) <==> (s == "revoke_from"@ || s == "撤销从"@),
        advancement_method_spec(s) == Some(("revoke"@, "until"@)) <==> (s == "revoke_until"@ || s == "撤销直到"@),
        advancement_method_spec(s) == Some(("revoke"@, "everything"@)) <==> (s == "revoke_everything"@ || s == "撤销全部"@),
        advancement_method_spec(s) is None <==> !(s == "grant"@ || s == "授予"@ || s == "grant_through"@ || s == "授予至"@ || s == "grant_from"@ || s == "授予从"@ || s == "grant_until"@ || s == "授予直到"@ || s == "grant_everything"@ || s == "授予全部"@ || s == "revoke"@ || s == "撤销"@ || s == "revoke_through"@ || s == "撤销至"@ || s == "revoke_from"@ || s == "撤销从"@ || s == "revoke_until"@ || s == "撤销直到"@ || s == "revoke_everything"@ || s == "撤销全部"@),
{
    reveal_strlit("everything");
    reveal_strlit("from");
    reveal_strlit("grant");
    reveal_strlit("grant_everything");
    reveal_strlit("grant_from");
    reveal_strlit("grant_through");
    reveal_strlit("grant_until");
    reveal_strlit("only");
    reveal_strlit("revoke");
    reveal_strlit("revoke_everything");
    reveal_strlit("revoke_from");
    reveal_strlit("revoke_through");
    reveal_strlit("revoke_until");
    reveal_strlit("through");
    reveal_strlit("until");
    reveal_strlit("授予");
    reveal_strlit("授予从");
    reveal_strlit("授予全部");
    reveal_strlit("授予直到");
    reveal_strlit("授予至");
    reveal_strlit("撤销");
    reveal_strlit("撤销从");
    reveal_strlit("撤销全部");
    reveal_strlit("撤销直到");
    reveal_strlit("撤销至");
    assert("everything"@.len() == 10 && "everything"@[0] == 'e');
    assert("from"@.len() == 4 && "from"@[0] == 'f');
    assert("grant"@.len() == 5 && "grant"@[0] == 'g');
    assert("grant_everything"@.len() == 16);
    assert("grant_from"@.len() == 10 && "grant_from"@[0] == 'g');
    assert("grant_through"@.len() == 13);
    assert("grant_until"@.len() == 11 && "grant_until"@[0] == 'g');
    assert("only"@.len() == 4 && "only"@[0] == 'o');
    assert("revoke"@.len() == 6);
    assert("revoke_everything"@.len() == 17);
    assert("revoke_from"@.len() == 11 && "revoke_from"@[0] == 'r');
    assert("revoke_through"@.len() == 14);
    assert("revoke_until"@.len() == 12);
    assert("through"@.len() == 7);
    assert("until"@.len() == 5 && "until"@[0] == 'u');
    assert("授予"@.len() == 2 && "授予"@[0] == '授');
    assert("授予从"@.len() == 3 && "授予从"@[0] == '授' && "授予从"@[2] == '从');
    assert("授予全部"@.len() == 4 && "授予全部"@[0] == '授' && "授予全部"@[2] == '全');
    assert("授予直到"@.len() == 4 && "授予直到"@[0] == '授' && "授予直到"@[2] == '直');
    assert("授予至"@.len() == 3 && "授予至"@[0] == '授' && "授予至"@[2] == '至');
    assert("撤销"@.len() == 2 && "撤销"@[0] == '撤');
    assert("撤销从"@.len() == 3 && "撤销从"@[0] == '撤' && "撤销从"@[2] == '从');
    assert("撤销全部"@.len() == 4 && "撤销全部"@[0] == '撤' && "撤销全部"@[2] == '全');
    assert("撤销直到"@.len() == 4 && "撤销直到"@[0] == '撤' && "撤销直到"@[2] == '直');
    assert("撤销至"@.len() == 3 && "撤销至"@[0] == '撤' && "撤销至"@[2] == '至');
}

/// Each spelling of a advancement property word gives its own canonical value, the
/// spellings of different words give different values, and no other word
/// gives one.
pub proof fn lemma_advancement_property_spellings(s: Seq<char>)
    ensures
        advancement_property_spec(s) == Some("parent"@) <==> (s == "parent"@ || s == "父进度"@),
        advancement_property_spec(s) == Some("criterion"@) <==> (s == "criterion"@ || s == "准则"@),
        advancement_property_spec(s) == Some("requirements"@) <==> (s == "requirements"@ || s == "要求"@),
        advancement_property_spec(s) == Some("reward"@) <==> (s == "reward"@ || s == "奖励"@),
        advancement_property_spec(s) == Some("display"@) <==> (s == "display"@ || s == "展示"@),
        advancement_property_spec(s) is None <==> !(s == "parent"@ || s == "父进度"@ || s == "criterion"@ || s == "准则"@ || s == "requirements"@ || s == "要求"@ || s == "reward"@ || s == "奖励"@ || s == "display"@ || s == "展示"@),
{
    reveal_strlit("criterion");
    reveal_strlit("display");
    reveal_strlit("parent");
    reveal_strlit("requirements");
    reveal_strlit("reward");
    reveal_strlit("准则");
    reveal_strlit("奖励");
    reveal_strlit("展示");
    reveal_strlit("父进度");
    reveal_strlit("要求");
    assert("criterion"@.len() == 9);
    assert("display"@.len() == 7);
    assert("parent"@.len() == 6 && "parent"@[0] == 'p');
    assert("requirements"@.len() == 12);
    assert("reward"@.len() == 6 && "reward"@[0] == 'r');
    assert("准则"@.len() == 2 && "准则"@[0] == '准');
    assert("奖励"@.len() == 2 && "奖励"@[0] == '奖');
    assert("展示"@.len() == 2 && "展示"@[0] == '展');
    assert("父进度"@.len() == 3);
    assert("要求"@.len() == 2 && "要求"@[0] == '要');
}

/// Each spelling of a criterion property word gives its own canonical value, the
/// spellings of different words give different values, and no other word
/// gives one.
pub proof fn lemma_criterion_property_spellings(s: Seq<char>)
    ensures
        criterion_property_spec(s) == Some("trigger"@) <==> (s == "trigger"@ || s == "触发器"@),
        criterion_property_spec(s) == Some("conditions"@) <==> (s == "conditions"@ || s == "条件"@),
        criterion_property_spec(s) is None <==> !(s == "trigger"@ || s == "触发器"@ || s == "conditions"@ || s == "条件"@),
{
    reveal_strlit("conditions");
    reveal_strlit("trigger");
    reveal_strlit("条件");
    reveal_strlit("触发器");
    assert("conditions"@.len() == 10);
    assert("trigger"@.len() == 7);
    assert("条件"@.len() == 2);
    assert("触发器"@.len() == 3);
}

/// Each spelling of a reward property word gives its own canonical value, the
/// spellings of different words give different values, and no other word
/// gives one.
pub proof fn lemma_reward_property_spellings(s: Seq<char>)
    ensures
        reward_property_spec(s) == Some("function"@) <==> (s == "function"@ || s == "函数"@),
        reward_property_spec(s) == Some("experience"@) <==> (s == "experience"@ || s == "经验"@),
        reward_property_spec(s) == Some("loot"@) <==> (s == "loot"@ || s == "战利品"@),
        reward_property_spec(s) == Some("recipe"@) <==> (s == "recipe"@ || s == "配方"@),
        reward_property_spec(s) is None <==> !(s == "function"@ || s == "函数"@ || s == "experience"@ || s == "经验"@ || s == "loot"@ || s == "战利品"@ || s == "recipe"@ || s == "配方"@),
{
    reveal_strlit("experience");
    reveal_strlit("function");
    reveal_strlit("loot");
    reveal_strlit("recipe");
    reveal_strlit("函数");
    reveal_strlit("战利品");
    reveal_strlit("经验");
    reveal_strlit("配方");
    assert("experience"@.len() == 10);
    assert("function"@.len() == 8);
    assert("loot"@.len() == 4);
    assert("recipe"@.len() == 6);
    assert("函数"@.len() == 2 && "函数"@[0] == '函');
    assert("战利品"@.len() == 3);
    assert("经验"@.len() == 2 && "经验"@[0] == '经');
    assert("配方"@.len() == 2 && "配方"@[0] == '配');
}

/// Each spelling of a display property word gives its own canonical value, the
/// spellings of different words give different values, and no other word
/// gives one.
pub proof fn lemma_display_property_spellings(s: Seq<char>)
    ensures
        display_property_spec(s) == Some("icon"@) <==> (s == "icon"@ || s == "图标"@),
        display_property_spec(s) == Some("title"@) <==> (s == "title"@ || s == "标题"@),
        display_property_spec(s) == Some("description"@) <==> (s == "description"@ || s == "描述"@),
        display_property_spec(s) == Some("frame"@) <==> (s == "frame"@ || s == "框架"@),
        display_property_spec(s) == Some("background"@) <==> (s == "background"@ || s == "背景"@),
        display_property_spec(s) == Some("show_toast"@) <==> (s == "show_toast"@ || s == "显示提示"@),
        display_property_spec(s) == Some("announce_to_chat"@) <==> (s == "announce_to_chat"@ || s == "聊天公告"@),
        display_property_spec(s) == Some("hidden"@) <==> (s == "hidden"@ || s == "隐藏"@),
        display_property_spec(s) is None <==> !(s == "icon"@ || s == "图标"@ || s == "title"@ || s == "标题"@ || s == "description"@ || s == "描述"@ || s == "frame"@ || s == "框架"@ || s == "background"@ || s == "背景"@ || s == "show_toast"@ || s == "显示提示"@ || s == "announce_to_chat"@ || s == "聊天公告"@ || s == "hidden"@ || s == "隐藏"@),
{
    reveal_strlit("announce_to_chat");
    reveal_strlit("background");
    reveal_strlit("description");
    reveal_strlit("frame");
    reveal_strlit("hidden");
    reveal_strlit("icon");
    reveal_strlit("show_toast");
    reveal_strlit("title");
    reveal_strlit("图标");
    reveal_strlit("描述");
    reveal_strlit("显示提示");
    reveal_strlit("标题");
    reveal_strlit("框架");
    reveal_strlit("聊天公告");
    reveal_strlit("背景");
    reveal_strlit("隐藏");
    assert("announce_to_chat"@.len() == 16);
    assert("background"@.len() == 10 && "background"@[0] == 'b');
    assert("description"@.len() == 11);
    assert("frame"@.len() == 5 && "frame"@[0] == 'f');
    assert("hidden"@.len() == 6);
    assert("icon"@.len() == 4 && "icon"@[0] == 'i');
    assert("show_toast"@.len() == 10 && "show_toast"@[0] == 's');
    assert("title"@.len() == 5 && "title"@[0] == 't');
    assert("图标"@.len() == 2 && "图标"@[0] == '图');
    assert("描述"@.len() == 2 && "描述"@[0] == '描');
    assert("显示提示"@.len() == 4 && "显示提示"@[0] == '显');
    assert("标题"@.len() == 2 && "标题"@[0] == '标');
    assert("框架"@.len() == 2 && "框架"@[0] == '框');
    assert("聊天公告"@.len() == 4 && "聊天公告"@[0] == '聊');
    assert("背景"@.len() == 2 && "背景"@[0] == '背');
    assert("隐藏"@.len() == 2 && "隐藏"@[0] == '隐');
}

/// Each spelling of a advancement frame word gives its own canonical value, the
/// spellings of different words give different values, and no other word
/// gives one.
pub proof fn lemma_advancement_frame_spellings(s: Seq<char>)
    ensures
        advancement_frame_spec(s) == Some(AdvancementFrame::Task) <==> (s == "task"@ || s == "任务"@),
        advancement_frame_spec(s) == Some(AdvancementFrame::Goal) <==> (s == "goal"@ || s == "目标"@),
        advancement_frame_spec(s) == Some(AdvancementFrame::Challenge) <==> (s == "challenge"@ || s == "挑战"@),
        advancement_frame_spec(s) is None <==> !(s == "task"@ || s == "任务"@ || s == "goal"@ || s == "目标"@ || s == "challenge"@ || s == "挑战"@),
{
    reveal_strlit("challenge");
    reveal_strlit("goal");
    reveal_strlit("task");
    reveal_strlit("任务");
    reveal_strlit("挑战");
    reveal_strlit("目标");
    assert("challenge"@.len() == 9);
    assert("goal"@.len() == 4 && "goal"@[0] == 'g');
    assert("task"@.len() == 4 && "task"@[0] == 't');
    assert("任务"@.len() == 2 && "任务"@[0] == '任');
    assert("挑战"@.len() == 2 && "挑战"@[0] == '挑');
    assert("目标"@.len() == 2 && "目标"@[0] == '目');
}

/// Each spelling of a advancement requirements word gives its own canonical value, the
/// spellings of different words give different values, and no other word
/// gives one.
pub proof fn lemma_advancement_requirements_spellings(s: Seq<char>)
    ensures
        advancement_requirements_spec(s) == Some(AdvancementRequirements::All) <==> (s == "all"@ || s == "全部"@),
        advancement_requirements_spec(s) == Some(AdvancementRequirements::Any) <==> (s == "any"@ || s == "任意"@),
        advancement_requirements_spec(s) is None <==> !(s == "all"@ || s == "全部"@ || s == "any"@ || s == "任意"@),
{
    reveal_strlit("all");
    reveal_strlit("any");
    reveal_strlit("任意");
    reveal_strlit("全部");
    assert("all"@.len() == 3 && "all"@[1] == 'l');
    assert("any"@.len() == 3 && "any"@[1] == 'n');
    assert("任意"@.len() == 2 && "任意"@[0] == '任');
    assert("全部"@.len() == 2 && "全部"@[0] == '全');
}

/// Each spelling of a rarity value word gives its own canonical value, the
/// spellings of different words give different values, and no other word
/// gives one.
pub proof fn lemma_rarity_value_spellings(s: Seq<char>)
    ensures
        rarity_value_spec(s) == Some(ItemRarity::Common) <==> (s == "common"@ || s == "普通"@),
        rarity_value_spec(s) == Some(ItemRarity::Uncommon) <==> (s == "uncommon"@ || s == "罕见"@),
        rarity_value_spec(s) == Some(ItemRarity::Rare) <==> (s == "rare"@ || s == "稀有"@),
        rarity_value_spec(s) == Some(ItemRarity::Epic) <==> (s == "epic"@ || s == "史诗"@),
        rarity_value_spec(s) is None <==> !(s == "common"@ || s == "普通"@ || s == "uncommon"@ || s == "罕见"@ || s == "rare"@ || s == "稀有"@ || s == "epic"@ || s == "史诗"@),
{
    reveal_strlit("common");
    reveal_strlit("epic");
    reveal_strlit("rare");
    reveal_strlit("uncommon");
    reveal_strlit("史诗");
    reveal_strlit("普通");
    reveal_strlit("稀有");
    reveal_strlit("罕见");
    assert("common"@.len() == 6);
    assert("epic"@.len() == 4 && "epic"@[0] == 'e');
    assert("rare"@.len() == 4 && "rare"@[0] == 'r');
    assert("uncommon"@.len() == 8);
    assert("史诗"@.len() == 2 && "史诗"@[0] == '史');
    assert("普通"@.len() == 2 && "普通"@[0] == '普');
    assert("稀有"@.len() == 2 && "稀有"@[0] == '稀');
    assert("罕见"@.len() == 2 && "罕见"@[0] == '罕');
}

/// Each spelling of a entity sort word gives its own canonical value, the
/// spellings of different words give different values, and no other word
/// gives one.
pub proof fn lemma_entity_sort_spellings(s: Seq<char>)
    ensures
        entity_sort_spec(s) == Some("nearest"@) <==> (s == "nearest"@ || s == "最近"@),
        entity_sort_spec(s) == Some("furthest"@) <==> (s == "furthest"@ || s == "最远"@),
        entity_sort_spec(s) == Some("random"@) <==> (s == "random"@ || s == "随机"@),
        entity_sort_spec(s) == Some("arbitrary"@) <==> (s == "arbitrary"@ || s == "任意"@),
        entity_sort_spec(s) is None <==> !(s == "nearest"@ || s == "最近"@ || s == "furthest"@ || s == "最远"@ || s == "random"@ || s == "随机"@ || s == "arbitrary"@ || s == "任意"@),
{
    reveal_strlit("arbitrary");
    reveal_strlit("furthest");
    reveal_strlit("nearest");
    reveal_strlit("random");
    reveal_strlit("任意");
    reveal_strlit("最近");
    reveal_strlit("最远");
    reveal_strlit("随机");
    assert("arbitrary"@.len() == 9);
    assert("furthest"@.len() == 8);
    assert("nearest"@.len() == 7);
    assert("random"@.len() == 6);
    assert("任意"@.len() == 2 && "任意"@[0] == '任');
    assert("最近"@.len() == 2 && "最近"@[0] == '最' && "最近"@[1] == '近');
    assert("最远"@.len() == 2 && "最远"@[0] == '最' && "最远"@[1] == '远');
    assert("随机"@.len() == 2 && "随机"@[0] == '随');
}

/// Each spelling of a set block mode word gives its own canonical value, the
/// spellings of different words give different values, and no other word
/// gives one.
pub proof fn lemma_set_block_mode_spellings(s: Seq<char>)
    ensures
        set_block_mode_spec(s) == Some(SetBlockMode::Destroy) <==> (s == "destroy"@ || s == "摧毁"@),
        set_block_mode_spec(s) == Some(SetBlockMode::Keep) <==> (s == "keep"@ || s == "保留"@),
        set_block_mode_spec(s) == Some(SetBlockMode::Replace) <==> (s == "replace"@ || s == "替换"@),
        set_block_mode_spec(s) == Some(SetBlockMode::Strict) <==> (s == "strict"@ || s == "严格"@),
        set_block_mode_spec(s) is None <==> !(s == "destroy"@ || s == "摧毁"@ || s == "keep"@ || s == "保留"@ || s == "replace"@ || s == "替换"@ || s == "strict"@ || s == "严格"@),
{
    reveal_strlit("destroy");
    reveal_strlit("keep");
    reveal_strlit("replace");
    reveal_strlit("strict");
    reveal_strlit("严格");
    reveal_strlit("保留");
    reveal_strlit("摧毁");
    reveal_strlit("替换");
    assert("destroy"@.len() == 7 && "destroy"@[0] == 'd');
    assert("keep"@.len() == 4);
    assert("replace"@.len() == 7 && "replace"@[0] == 'r');
    assert("strict"@.len() == 6);
    assert("严格"@.len() == 2 && "严格"@[0] == '严');
    assert("保留"@.len() == 2 && "保留"@[0] == '保');
    assert("摧毁"@.len() == 2 && "摧毁"@[0] == '摧');
    assert("替换"@.len() == 2 && "替换"@[0] == '替');
}

/// Each spelling of a fill mode word gives its own canonical value, the
/// spellings of different words give different values, and no other word
/// gives one.
pub proof fn lemma_fill_mode_spellings(s: Seq<char>)
    ensures
        fill_mode_spec(s) == Some(FillMode::Replace) <==> (s == "replace"@ || s == "替换"@),
        fill_mode_spec(s) == Some(FillMode::Outline) <==> (s == "outline"@ || s == "轮廓"@),
        fill_mode_spec(s) == Some(FillMode::Hollow) <==> (s == "hollow"@ || s == "空心"@),
        fill_mode_spec(s) == Some(FillMode::Destroy) <==> (s == "destroy"@ || s == "摧毁"@),
        fill_mode_spec(s) == Some(FillMode::Strict) <==> (s == "strict"@ || s == "严格"@),
        fill_mode_spec(s) == Some(FillMode::Keep) <==> (s == "keep"@ || s == "保留"@),
        fill_mode_spec(s) is None <==> !(s == "replace"@ || s == "替换"@ || s == "outline"@ || s == "轮廓"@ || s == "hollow"@ || s == "空心"@ || s == "destroy"@ || s == "摧毁"@ || s == "strict"@ || s == "严格"@ || s == "keep"@ || s == "保留"@),
{
    reveal_strlit("destroy");
    reveal_strlit("hollow");
    reveal_strlit("keep");
    reveal_strlit("outline");
    reveal_strlit("replace");
    reveal_strlit("strict");
    reveal_strlit("严格");
    reveal_strlit("保留");
    reveal_strlit("摧毁");
    reveal_strlit("替换");
    reveal_strlit("空心");
    reveal_strlit("轮廓");
    assert("destroy"@.len() == 7 && "destroy"@[0] == 'd');
    assert("hollow"@.len() == 6 && "hollow"@[0] == 'h');
    assert("keep"@.len() == 4);
    assert("outline"@.len() == 7 && "outline"@[0] == 'o');
    assert("replace"@.len() == 7 && "replace"@[0] == 'r');
    assert("strict"@.len() == 6 && "strict"@[0] == 's');
    assert("严格"@.len() == 2 && "严格"@[0] == '严');
    assert("保留"@.len() == 2 && "保留"@[0] == '保');
    assert("摧毁"@.len() == 2 && "摧毁"@[0] == '摧');
    assert("替换"@.len() == 2 && "替换"@[0] == '替');
    assert("空心"@.len() == 2 && "空心"@[0] == '空');
    assert("轮廓"@.len() == 2 && "轮廓"@[0] == '轮');
}

/// Each spelling of a clone filter word gives its own canonical value, the
/// spellings of different words give different values, and no other word
/// gives one.
pub proof fn lemma_clone_filter_spellings(s: Seq<char>)
    ensures
        clone_filter_spec(s) == Some("replace"@) <==> (s == "replace"@ || s == "替换"@),
        clone_filter_spec(s) == Some("masked"@) <==> (s == "masked"@ || s == "遮罩"@),
        clone_filter_spec(s) == Some("filtered"@) <==> (s == "filtered"@ || s == "过滤"@),
        clone_filter_spec(s) is None <==> !(s == "replace"@ || s == "替换"@ || s == "masked"@ || s == "遮罩"@ || s == "filtered"@ || s == "过滤"@),
{
    reveal_strlit("filtered");
    reveal_strlit("masked");
    reveal_strlit("replace");
    reveal_strlit("替换");
    reveal_strlit("过滤");
    reveal_strlit("遮罩");
    assert("filtered"@.len() == 8);
    assert("masked"@.len() == 6);
    assert("replace"@.len() == 7);
    assert("替换"@.len() == 2 && "替换"@[0] == '替');
    assert("过滤"@.len() == 2 && "过滤"@[0] == '过');
    assert("遮罩"@.len() == 2 && "遮罩"@[0] == '遮');
}

/// Each spelling of a clone mode word gives its own canonical value, the
/// spellings of different words give different values, and no other word
/// gives one.
pub proof fn lemma_clone_mode_spellings(s: Seq<char>)
    ensures
        clone_mode_spec(s) == Some(CloneMode::Normal) <==> (s == "normal"@ || s == "普通"@),
        clone_mode_spec(s) == Some(CloneMode::Force) <==> (s == "force"@ || s == "强制"@),
        clone_mode_spec(s) == Some(CloneMode::Move) <==> (s == "move"@ || s == "移动"@),
        clone_mode_spec(s) is None <==> !(s == "normal"@ || s == "普通"@ || s == "force"@ || s == "强制"@ || s == "move"@ || s == "移动"@),
{
    reveal_strlit("force");
    reveal_strlit("move");
    reveal_strlit("normal");
    reveal_strlit("强制");
    reveal_strlit("普通");
    reveal_strlit("移动");
    assert("force"@.len() == 5);
    assert("move"@.len() == 4);
    assert("normal"@.len() == 6);
    assert("强制"@.len() == 2 && "强制"@[0] == '强');
    assert("普通"@.len() == 2 && "普通"@[0] == '普');
    assert("移动"@.len() == 2 && "移动"@[0] == '移');
}

/// Each spelling of a template rotation word gives its own canonical value, the
/// spellings of different words give different values, and no other word
/// gives one.
pub proof fn lemma_template_rotation_spellings(s: Seq<char>)
    ensures
        template_rotation_spec(s) == Some(TemplateRotation::Unrotated) <==> (s == "none"@ || s == "无"@),
        template_rotation_spec(s) == Some(TemplateRotation::Clockwise90) <==> (s == "clockwise_90"@ || s == "顺时针90"@),
        template_rotation_spec(s) == Some(TemplateRotation::Clockwise180) <==> (s == "180"@),
        template_rotation_spec(s) == Some(TemplateRotation::Counterclockwise90) <==> (s == "counterclockwise_90"@ || s == "逆时针90"@),
        template_rotation_spec(s) is None <==> !(s == "none"@ || s == "无"@ || s == "clockwise_90"@ || s == "顺时针90"@ || s == "180"@ || s == "counterclockwise_90"@ || s == "逆时针90"@),
{
    reveal_strlit("180");
    reveal_strlit("clockwise_90");
    reveal_strlit("counterclockwise_90");
    reveal_strlit("none");
    reveal_strlit("无");
    reveal_strlit("逆时针90");
    reveal_strlit("顺时针90");
    assert("180"@.len() == 3);
    assert("clockwise_90"@.len() == 12);
    assert("counterclockwise_90"@.len() == 19);
    assert("none"@.len() == 4);
    assert("无"@.len() == 1);
    assert("逆时针90"@.len() == 5 && "逆时针90"@[0] == '逆');
    assert("顺时针90"@.len() == 5 && "顺时针90"@[0] == '顺');
}

/// Each spelling of a template mirror word gives its own canonical value, the
/// spellings of different words give different values, and no other word
/// gives one.
pub proof fn lemma_template_mirror_spellings(s: Seq<char>)
    ensures
        template_mirror_spec(s) == Some(TemplateMirror::Unmirrored) <==> (s == "none"@ || s == "无"@),
        template_mirror_spec(s) == Some(TemplateMirror::LeftRight) <==> (s == "left_right"@ || s == "左右"@),
        template_mirror_spec(s) == Some(TemplateMirror::FrontBack) <==> (s == "front_back"@ || s == "前后"@),
        template_mirror_spec(s) is None <==> !(s == "none"@ || s == "无"@ || s == "left_right"@ || s == "左右"@ || s == "front_back"@ || s == "前后"@),
{
    reveal_strlit("front_back");
    reveal_strlit("left_right");
    reveal_strlit("none");
    reveal_strlit("前后");
    reveal_strlit("左右");
    reveal_strlit("无");
    assert("front_back"@.len() == 10 && "front_back"@[0] == 'f');
    assert("left_right"@.len() == 10 && "left_right"@[0] == 'l');
    assert("none"@.len() == 4);
    assert("前后"@.len() == 2 && "前后"@[0] == '前');
    assert("左右"@.len() == 2 && "左右"@[0] == '左');
    assert("无"@.len() == 1);
}

/// Each spelling of a clone dimension word gives its own canonical value, the
/// spellings of different words give different values, and no other word
/// gives one.
pub proof fn lemma_clone_dimension_spellings(s: Seq<char>)
    ensures
        clone_dimension_spec(s) == Some("from"@) <==> (s == "from_dimension"@ || s == "起始维度"@),
        clone_dimension_spec(s) == Some("to"@) <==> (s == "to_dimension"@ || s == "目标维度"@),
        clone_dimension_spec(s) is None <==> !(s == "from_dimension"@ || s == "起始维度"@ || s == "to_dimension"@ || s == "目标维度"@),
{
    reveal_strlit("from");
    reveal_strlit("from_dimension");
    reveal_strlit("to");
    reveal_strlit("to_dimension");
    reveal_strlit("目标维度");
    reveal_strlit("起始维度");
    assert("from"@.len() == 4 && "from"@[0] == 'f');
    assert("from_dimension"@.len() == 14);
    assert("to"@.len() == 2);
    assert("to_dimension"@.len() == 12);
    assert("目标维度"@.len() == 4 && "目标维度"@[0] == '目');
    assert("起始维度"@.len() == 4 && "起始维度"@[0] == '起');
}

/// Each spelling of a place method word gives its own canonical value, the
/// spellings of different words give different values, and no other word
/// gives one.
pub proof fn lemma_place_method_spellings(s: Seq<char>)
    ensures
        place_method_spec(s) == Some("feature"@) <==> (s == "feature"@ || s == "地物"@),
        place_method_spec(s) == Some("jigsaw"@) <==> (s == "jigsaw"@ || s == "拼图"@),
        place_method_spec(s) == Some("structure"@) <==> (s == "structure"@ || s == "结构"@),
        place_method_spec(s) == Some("template"@) <==> (s == "template"@ || s == "模板"@),
        place_method_spec(s) is None <==> !(s == "feature"@ || s == "地物"@ || s == "jigsaw"@ || s == "拼图"@ || s == "structure"@ || s == "结构"@ || s == "template"@ || s == "模板"@),
{
    reveal_strlit("feature");
    reveal_strlit("jigsaw");
    reveal_strlit("structure");
    reveal_strlit("template");
    reveal_strlit("地物");
    reveal_strlit("拼图");
    reveal_strlit("模板");
    reveal_strlit("结构");
    assert("feature"@.len() == 7);
    assert("jigsaw"@.len() == 6);
    assert("structure"@.len() == 9);
    assert("template"@.len() == 8);
    assert("地物"@.len() == 2 && "地物"@[0] == '地');
    assert("拼图"@.len() == 2 && "拼图"@[0] == '拼');
    assert("模板"@.len() == 2 && "模板"@[0] == '模');
    assert("结构"@.len() == 2 && "结构"@[0] == '结');
}

/// Each spelling of a forceload method word gives its own canonical value, the
/// spellings of different words give different values, and no other word
/// gives one.
pub proof fn lemma_forceload_method_spellings(s: Seq<char>)
    ensures
        forceload_method_spec(s) == Some("add"@) <==> (s == "add"@ || s == "添加"@),
        forceload_method_spec(s) == Some("remove"@) <==> (s == "remove"@ || s == "移除"@),
        forceload_method_spec(s) == Some("remove_all"@) <==> (s == "remove_all"@ || s == "全部移除"@),
        forceload_method_spec(s) == Some("query"@) <==> (s == "query"@ || s == "查询"@),
        forceload_method_spec(s) is None <==> !(s == "add"@ || s == "添加"@ || s == "remove"@ || s == "移除"@ || s == "remove_all"@ || s == "全部移除"@ || s == "query"@ || s == "查询"@),
{
    reveal_strlit("add");
    reveal_strlit("query");
    reveal_strlit("remove");
    reveal_strlit("remove_all");
    reveal_strlit("全部移除");
    reveal_strlit("查询");
    reveal_strlit("添加");
    reveal_strlit("移除");
    assert("add"@.len() == 3);
    assert("query"@.len() == 5);
    assert("remove"@.len() == 6);
    assert("remove_all"@.len() == 10);
    assert("全部移除"@.len() == 4);
    assert("查询"@.len() == 2 && "查询"@[0] == '查');
    assert("添加"@.len() == 2 && "添加"@[0] == '添');
    assert("移除"@.len() == 2 && "移除"@[0] == '移');
}

/// Each spelling of a time method word gives its own canonical value, the
/// spellings of different words give different values, and no other word
/// gives one.
pub proof fn lemma_time_method_spellings(s: Seq<char>)
    ensures
        time_method_spec(s) == Some("set"@) <==> (s == "set"@ || s == "设置"@),
        time_method_spec(s) == Some("add"@) <==> (s == "add"@ || s == "增加"@),
        time_method_spec(s) == Some("pause"@) <==> (s == "pause"@ || s == "暂停"@),
        time_method_spec(s) == Some("resume"@) <==> (s == "resume"@ || s == "恢复"@),
        time_method_spec(s) == Some("rate"@) <==> (s == "rate"@ || s == "速率"@),
        time_method_spec(s) == Some("query"@) <==> (s == "query"@ || s == "查询"@),
        time_method_spec(s) == Some("query_gametime"@) <==> (s == "query_gametime"@ || s == "查询游戏时间"@),
        time_method_spec(s) is None <==> !(s == "set"@ || s == "设置"@ || s == "add"@ || s == "增加"@ || s == "pause"@ || s == "暂停"@ || s == "resume"@ || s == "恢复"@ || s == "rate"@ || s == "速率"@ || s == "query"@ || s == "查询"@ || s == "query_gametime"@ || s == "查询游戏时间"@),
{
    reveal_strlit("add");
    reveal_strlit("pause");
    reveal_strlit("query");
    reveal_strlit("query_gametime");
    reveal_strlit("rate");
    reveal_strlit("resume");
    reveal_strlit("set");
    reveal_strlit("增加");
    reveal_strlit("恢复");
    reveal_strlit("暂停");
    reveal_strlit("查询");
    reveal_strlit("查询游戏时间");
    reveal_strlit("设置");
    reveal_strlit("速率");
    assert("add"@.len() == 3 && "add"@[0] == 'a');
    assert("pause"@.len() == 5 && "pause"@[0] == 'p');
    assert("query"@.len() == 5 && "query"@[0] == 'q');
    assert("query_gametime"@.len() == 14);
    assert("rate"@.len() == 4);
    assert("resume"@.len() == 6 && "resume"@[0] == 'r');
    assert("set"@.len() == 3 && "set"@[0] == 's');
    assert("增加"@.len() == 2 && "增加"@[0] == '增');
    assert("恢复"@.len() == 2 && "恢复"@[0] == '恢');
    assert("暂停"@.len() == 2 && "暂停"@[0] == '暂');
    assert("查询"@.len() == 2 && "查询"@[0] == '查');
    assert("查询游戏时间"@.len() == 6 && "查询游戏时间"@[0] == '查');
    assert("设置"@.len() == 2 && "设置"@[0] == '设');
    assert("速率"@.len() == 2 && "速率"@[0] == '速');
}

/// Each spelling of a weather kind word gives its own canonical value, the
/// spellings of different words give different values, and no other word
/// gives one.
pub proof fn lemma_weather_kind_spellings(s: Seq<char>)
    ensures
        weather_kind_spec(s) == Some(WeatherKind::Clear) <==> (s == "clear"@ || s == "晴朗"@),
        weather_kind_spec(s) == Some(WeatherKind::Rain) <==> (s == "rain"@ || s == "下雨"@),
        weather_kind_spec(s) == Some(WeatherKind::Thunder) <==> (s == "thunder"@ || s == "雷暴"@),
        weather_kind_spec(s) is None <==> !(s == "clear"@ || s == "晴朗"@ || s == "rain"@ || s == "下雨"@ || s == "thunder"@ || s == "雷暴"@),
{
    reveal_strlit("clear");
    reveal_strlit("rain");
    reveal_strlit("thunder");
    reveal_strlit("下雨");
    reveal_strlit("晴朗");
    reveal_strlit("雷暴");
    assert("clear"@.len() == 5);
    assert("rain"@.len() == 4);
    assert("thunder"@.len() == 7);
    assert("下雨"@.len() == 2 && "下雨"@[0] == '下');
    assert("晴朗"@.len() == 2 && "晴朗"@[0] == '晴');
    assert("雷暴"@.len() == 2 && "雷暴"@[0] == '雷');
}

/// Each spelling of a gamerule method word gives its own canonical value, the
/// spellings of different words give different values, and no other word
/// gives one.
pub proof fn lemma_gamerule_method_spellings(s: Seq<char>)
    ensures
        gamerule_method_spec(s) == Some("set"@) <==> (s == "set"@ || s == "设置"@),
        gamerule_method_spec(s) == Some("query"@) <==> (s == "query"@ || s == "查询"@),
        gamerule_method_spec(s) is None <==> !(s == "set"@ || s == "设置"@ || s == "query"@ || s == "查询"@),
{
    reveal_strlit("query");
    reveal_strlit("set");
    reveal_strlit("查询");
    reveal_strlit("设置");
    assert("query"@.len() == 5);
    assert("set"@.len() == 3);
    assert("查询"@.len() == 2 && "查询"@[0] == '查');
    assert("设置"@.len() == 2 && "设置"@[0] == '设');
}

/// Each spelling of a worldborder method word gives its own canonical value, the
/// spellings of different words give different values, and no other word
/// gives one.
pub proof fn lemma_worldborder_method_spellings(s: Seq<char>)
    ensures
        worldborder_method_spec(s) == Some("add"@) <==> (s == "add"@ || s == "增加"@),
        worldborder_method_spec(s) == Some("set"@) <==> (s == "set"@ || s == "设置"@),
        worldborder_method_spec(s) == Some("center"@) <==> (s == "center"@ || s == "中心"@),
        worldborder_method_spec(s) == Some("damage_amount"@) <==> (s == "damage_amount"@ || s == "伤害量"@),
        worldborder_method_spec(s) == Some("damage_buffer"@) <==> (s == "damage_buffer"@ || s == "伤害缓冲"@),
        worldborder_method_spec(s) == Some("get"@) <==> (s == "get"@ || s == "获取"@),
        worldborder_method_spec(s) == Some("warning_distance"@) <==> (s == "warning_distance"@ || s == "警告距离"@),
        worldborder_method_spec(s) == Some("warning_time"@) <==> (s == "warning_time"@ || s == "警告时间"@),
        worldborder_method_spec(s) is None <==> !(s == "add"@ || s == "增加"@ || s == "set"@ || s == "设置"@ || s == "center"@ || s == "中心"@ || s == "damage_amount"@ || s == "伤害量"@ || s == "damage_buffer"@ || s == "伤害缓冲"@ || s == "get"@ || s == "获取"@ || s == "warning_distance"@ || s == "警告距离"@ || s == "warning_time"@ || s == "警告时间"@),
{
    reveal_strlit("add");
    reveal_strlit("center");
    reveal_strlit("damage_amount");
    reveal_strlit("damage_buffer");
    reveal_strlit("get");
    reveal_strlit("set");
    reveal_strlit("warning_distance");
    reveal_strlit("warning_time");
    reveal_strlit("中心");
    reveal_strlit("伤害缓冲");
    reveal_strlit("伤害量");
    reveal_strlit("增加");
    reveal_strlit("获取");
    reveal_strlit("警告时间");
    reveal_strlit("警告距离");
    reveal_strlit("设置");
    assert("add"@.len() == 3 && "add"@[0] == 'a');
    assert("center"@.len() == 6);
    assert("damage_amount"@.len() == 13 && "damage_amount"@[7] == 'a');
    assert("damage_buffer"@.len() == 13 && "damage_buffer"@[7] == 'b');
    assert("get"@.len() == 3 && "get"@[0] == 'g');
    assert("set"@.len() == 3 && "set"@[0] == 's');
    assert("warning_distance"@.len() == 16);
    assert("warning_time"@.len() == 12);
    assert("中心"@.len() == 2 && "中心"@[0] == '中');
    assert("伤害缓冲"@.len() == 4 && "伤害缓冲"@[0] == '伤');
    assert("伤害量"@.len() == 3 && "伤害量"@[0] == '伤');
    assert("增加"@.len() == 2 && "增加"@[0] == '增');
    assert("获取"@.len() == 2 && "获取"@[0] == '获');
    assert("警告时间"@.len() == 4 && "警告时间"@[0] == '警' && "警告时间"@[2] == '时');
    assert("警告距离"@.len() == 4 && "警告距离"@[0] == '警' && "警告距离"@[2] == '距');
    assert("设置"@.len() == 2 && "设置"@[0] == '设');
}

/// Each spelling of a locate kind word gives its own canonical value, the
/// spellings of different words give different values, and no other word
/// gives one.
pub proof fn lemma_locate_kind_spellings(s: Seq<char>)
    ensures
        locate_kind_spec(s) == Some(LocateKind::Structure) <==> (s == "structure"@ || s == "结构"@),
        locate_kind_spec(s) == Some(LocateKind::Biome) <==> (s == "biome"@ || s == "生物群系"@),
        locate_kind_spec(s) == Some(LocateKind::Poi) <==> (s == "poi"@ || s == "兴趣点"@),
        locate_kind_spec(s) is None <==> !(s == "structure"@ || s == "结构"@ || s == "biome"@ || s == "生物群系"@ || s == "poi"@ || s == "兴趣点"@),
{
    reveal_strlit("biome");
    reveal_strlit("poi");
    reveal_strlit("structure");
    reveal_strlit("兴趣点");
    reveal_strlit("生物群系");
    reveal_strlit("结构");
    assert("biome"@.len() == 5);
    assert("poi"@.len() == 3 && "poi"@[0] == 'p');
    assert("structure"@.len() == 9);
    assert("兴趣点"@.len() == 3 && "兴趣点"@[0] == '兴');
    assert("生物群系"@.len() == 4);
    assert("结构"@.len() == 2);
}

/// Each spelling of a execute clause word gives its own canonical value, the
/// spellings of different words give different values, and no other word
/// gives one.
pub proof fn lemma_execute_clause_spellings(s: Seq<char>)
    ensures
        execute_clause_spec(s) == Some("as"@) <==> (s == "as"@ || s == "作为"@),
        execute_clause_spec(s) == Some("at"@) <==> (s == "at"@ || s == "在"@),
        execute_clause_spec(s) == Some("positioned"@) <==> (s == "positioned"@ || s == "定位于"@),
        execute_clause_spec(s) == Some("rotated"@) <==> (s == "rotated"@ || s == "转向"@),
        execute_clause_spec(s) == Some("facing"@) <==> (s == "facing"@ || s == "面向"@),
        execute_clause_spec(s) == Some("align"@) <==> (s == "align"@ || s == "对齐"@),
        execute_clause_spec(s) == Some("anchored"@) <==> (s == "anchored"@ || s == "锚点"@),
        execute_clause_spec(s) == Some("in"@) <==> (s == "in"@ || s == "进入维度"@),
        execute_clause_spec(s) == Some("on"@) <==> (s == "on"@ || s == "关系"@),
        execute_clause_spec(s) == Some("summon"@) <==> (s == "summon"@ || s == "召唤实体"@),
        execute_clause_spec(s) is None <==> !(s == "as"@ || s == "作为"@ || s == "at"@ || s == "在"@ || s == "positioned"@ || s == "定位于"@ || s == "rotated"@ || s == "转向"@ || s == "facing"@ || s == "面向"@ || s == "align"@ || s == "对齐"@ || s == "anchored"@ || s == "锚点"@ || s == "in"@ || s == "进入维度"@ || s == "on"@ || s == "关系"@ || s == "summon"@ || s == "召唤实体"@),
{
    reveal_strlit("align");
    reveal_strlit("anchored");
    reveal_strlit("as");
    reveal_strlit("at");
    reveal_strlit("facing");
    reveal_strlit("in");
    reveal_strlit("on");
    reveal_strlit("positioned");
    reveal_strlit("rotated");
    reveal_strlit("summon");
    reveal_strlit("作为");
    reveal_strlit("关系");
    reveal_strlit("召唤实体");
    reveal_strlit("在");
    reveal_strlit("定位于");
    reveal_strlit("对齐");
    reveal_strlit("转向");
    reveal_strlit("进入维度");
    reveal_strlit("锚点");
    reveal_strlit("面向");
    assert("align"@.len() == 5);
    assert("anchored"@.len() == 8);
    assert("as"@.len() == 2 && "as"@[0] == 'a' && "as"@[1] == 's');
    assert("at"@.len() == 2 && "at"@[0] == 'a' && "at"@[1] == 't');
    assert("facing"@.len() == 6 && "facing"@[0] == 'f');
    assert("in"@.len() == 2 && "in"@[0] == 'i');
    assert("on"@.len() == 2 && "on"@[0] == 'o');
    assert("positioned"@.len() == 10);
    assert("rotated"@.len() == 7);
    assert("summon"@.len() == 6 && "summon"@[0] == 's');
    assert("作为"@.len() == 2 && "作为"@[0] == '作');
    assert("关系"@.len() == 2 && "关系"@[0] == '关');
    assert("召唤实体"@.len() == 4 && "召唤实体"@[0] == '召');
    assert("在"@.len() == 1);
    assert("定位于"@.len() == 3);
    assert("对齐"@.len() == 2 && "对齐"@[0] == '对');
    assert("转向"@.len() == 2 && "转向"@[0] == '转');
    assert("进入维度"@.len() == 4 && "进入维度"@[0] == '进');
    assert("锚点"@.len() == 2 && "锚点"@[0] == '锚');
    assert("面向"@.len() == 2 && "面向"@[0] == '面');
}

/// Each spelling of a entity relation word gives its own canonical value, the
/// spellings of different words give different values, and no other word
/// gives one.
pub proof fn lemma_entity_relation_spellings(s: Seq<char>)
    ensures
        entity_relation_spec(s) == Some(EntityRelation::Owner) <==> (s == "owner"@ || s == "主人"@),
        entity_relation_spec(s) == Some(EntityRelation::Leasher) <==> (s == "leasher"@ || s == "拴绳者"@),
        entity_relation_spec(s) == Some(EntityRelation::Target) <==> (s == "target"@ || s == "攻击目标"@),
        entity_relation_spec(s) == Some(EntityRelation::Attacker) <==> (s == "attacker"@ || s == "攻击者"@),
        entity_relation_spec(s) == Some(EntityRelation::Vehicle) <==> (s == "vehicle"@ || s == "载具"@),
        entity_relation_spec(s) == Some(EntityRelation::Controller) <==> (s == "controller"@ || s == "控制者"@),
        entity_relation_spec(s) == Some(EntityRelation::Origin) <==> (s == "origin"@ || s == "起源"@),
        entity_relation_spec(s) == Some(EntityRelation::Passengers) <==> (s == "passengers"@ || s == "乘客"@),
        entity_relation_spec(s) is None <==> !(s == "owner"@ || s == "主人"@ || s == "leasher"@ || s == "拴绳者"@ || s == "target"@ || s == "攻击目标"@ || s == "attacker"@ || s == "攻击者"@ || s == "vehicle"@ || s == "载具"@ || s == "controller"@ || s == "控制者"@ || s == "origin"@ || s == "起源"@ || s == "passengers"@ || s == "乘客"@),
{
    reveal_strlit("attacker");
    reveal_strlit("controller");
    reveal_strlit("leasher");
    reveal_strlit("origin");
    reveal_strlit("owner");
    reveal_strlit("passengers");
    reveal_strlit("target");
    reveal_strlit("vehicle");
    reveal_strlit("主人");
    reveal_strlit("乘客");
    reveal_strlit("拴绳者");
    reveal_strlit("控制者");
    reveal_strlit("攻击目标");
    reveal_strlit("攻击者");
    reveal_strlit("起源");
    reveal_strlit("载具");
    assert("attacker"@.len() == 8);
    assert("controller"@.len() == 10 && "controller"@[0] == 'c');
    assert("leasher"@.len() == 7 && "leasher"@[0] == 'l');
    assert("origin"@.len() == 6 && "origin"@[0] == 'o');
    assert("owner"@.len() == 5);
    assert("passengers"@.len() == 10 && "passengers"@[0] == 'p');
    assert("target"@.len() == 6 && "target"@[0] == 't');
    assert("vehicle"@.len() == 7 && "vehicle"@[0] == 'v');
    assert("主人"@.len() == 2 && "主人"@[0] == '主');
    assert("乘客"@.len() == 2 && "乘客"@[0] == '乘');
    assert("拴绳者"@.len() == 3 && "拴绳者"@[0] == '拴');
    assert("控制者"@.len() == 3 && "控制者"@[0] == '控');
    assert("攻击目标"@.len() == 4);
    assert("攻击者"@.len() == 3 && "攻击者"@[0] == '攻');
    assert("起源"@.len() == 2 && "起源"@[0] == '起');
    assert("载具"@.len() == 2 && "载具"@[0] == '载');
}

/// Each spelling of a anchor value word gives its own canonical value, the
/// spellings of different words give different values, and no other word
/// gives one.
pub proof fn lemma_anchor_value_spellings(s: Seq<char>)
    ensures
        anchor_value_spec(s) == Some(Anchor::Eyes) <==> (s == "eyes"@ || s == "眼睛"@),
        anchor_value_spec(s) == Some(Anchor::Feet) <==> (s == "feet"@ || s == "脚"@),
        anchor_value_spec(s) is None <==> !(s == "eyes"@ || s == "眼睛"@ || s == "feet"@ || s == "脚"@),
{
    reveal_strlit("eyes");
    reveal_strlit("feet");
    reveal_strlit("眼睛");
    reveal_strlit("脚");
    assert("eyes"@.len() == 4 && "eyes"@[0] == 'e');
    assert("feet"@.len() == 4 && "feet"@[0] == 'f');
    assert("眼睛"@.len() == 2);
    assert("脚"@.len() == 1);
}

/// Each spelling of a store method word gives its own canonical value, the
/// spellings of different words give different values, and no other word
/// gives one.
pub proof fn lemma_store_method_spellings(s: Seq<char>)
    ensures
        store_method_spec(s) == Some("result"@) <==> (s == "result"@ || s == "结果"@),
        store_method_spec(s) == Some("success"@) <==> (s == "success"@ || s == "成功"@),
        store_method_spec(s) == Some("data"@) <==> (s == "data"@ || s == "数据"@),
        store_method_spec(s) is None <==> !(s == "result"@ || s == "结果"@ || s == "success"@ || s == "成功"@ || s == "data"@ || s == "数据"@),
{
    reveal_strlit("data");
    reveal_strlit("result");
    reveal_strlit("success");
    reveal_strlit("成功");
    reveal_strlit("数据");
    reveal_strlit("结果");
    assert("data"@.len() == 4);
    assert("result"@.len() == 6);
    assert("success"@.len() == 7);
    assert("成功"@.len() == 2 && "成功"@[0] == '成');
    assert("数据"@.len() == 2 && "数据"@[0] == '数');
    assert("结果"@.len() == 2 && "结果"@[0] == '结');
}

/// Each spelling of a store data mode word gives its own canonical value, the
/// spellings of different words give different values, and no other word
/// gives one.
pub proof fn lemma_store_data_mode_spellings(s: Seq<char>)
    ensures
        store_data_mode_spec(s) == Some(StoreDataMode::Result) <==> (s == "result"@ || s == "结果"@),
        store_data_mode_spec(s) == Some(StoreDataMode::Success) <==> (s == "success"@ || s == "成功"@),
        store_data_mode_spec(s) is None <==> !(s == "result"@ || s == "结果"@ || s == "success"@ || s == "成功"@),
{
    reveal_strlit("result");
    reveal_strlit("success");
    reveal_strlit("成功");
    reveal_strlit("结果");
    assert("result"@.len() == 6);
    assert("success"@.len() == 7);
    assert("成功"@.len() == 2 && "成功"@[0] == '成');
    assert("结果"@.len() == 2 && "结果"@[0] == '结');
}

/// Each spelling of a bossbar field word gives its own canonical value, the
/// spellings of different words give different values, and no other word
/// gives one.
pub proof fn lemma_bossbar_field_spellings(s: Seq<char>)
    ensures
        bossbar_field_spec(s) == Some(BossBarField::Value) <==> (s == "value"@ || s == "值"@),
        bossbar_field_spec(s) == Some(BossBarField::Max) <==> (s == "max"@ || s == "上限"@),
        bossbar_field_spec(s) is None <==> !(s == "value"@ || s == "值"@ || s == "max"@ || s == "上限"@),
{
    reveal_strlit("max");
    reveal_strlit("value");
    reveal_strlit("上限");
    reveal_strlit("值");
    assert("max"@.len() == 3);
    assert("value"@.len() == 5);
    assert("上限"@.len() == 2);
    assert("值"@.len() == 1);
}

/// Each spelling of a store data type word gives its own canonical value, the
/// spellings of different words give different values, and no other word
/// gives one.
pub proof fn lemma_store_data_type_spellings(s: Seq<char>)
    ensures
        store_data_type_spec(s) == Some(StoreDataType::Byte) <==> (s == "byte"@ || s == "字节"@),
        store_data_type_spec(s) == Some(StoreDataType::Short) <==> (s == "short"@ || s == "短整数"@),
        store_data_type_spec(s) == Some(StoreDataType::Int) <==> (s == "int"@ || s == "整数"@),
        store_data_type_spec(s) == Some(StoreDataType::Long) <==> (s == "long"@ || s == "长整数"@),
        store_data_type_spec(s) == Some(StoreDataType::Float) <==> (s == "float"@ || s == "浮点"@),
        store_data_type_spec(s) == Some(StoreDataType::Double) <==> (s == "double"@ || s == "双精度"@),
        store_data_type_spec(s) is None <==> !(s == "byte"@ || s == "字节"@ || s == "short"@ || s == "短整数"@ || s == "int"@ || s == "整数"@ || s == "long"@ || s == "长整数"@ || s == "float"@ || s == "浮点"@ || s == "double"@ || s == "双精度"@),
{
    reveal_strlit("byte");
    reveal_strlit("double");
    reveal_strlit("float");
    reveal_strlit("int");
    reveal_strlit("long");
    reveal_strlit("short");
    reveal_strlit("双精度");
    reveal_strlit("字节");
    reveal_strlit("整数");
    reveal_strlit("浮点");
    reveal_strlit("短整数");
    reveal_strlit("长整数");
    assert("byte"@.len() == 4 && "byte"@[0] == 'b');
    assert("double"@.len() == 6);
    assert("float"@.len() == 5 && "float"@[0] == 'f');
    assert("int"@.len() == 3 && "int"@[0] == 'i');
    assert("long"@.len() == 4 && "long"@[0] == 'l');
    assert("short"@.len() == 5 && "short"@[0] == 's');
    assert("双精度"@.len() == 3 && "双精度"@[0] == '双');
    assert("字节"@.len() == 2 && "字节"@[0] == '字');
    assert("整数"@.len() == 2 && "整数"@[0] == '整');
    assert("浮点"@.len() == 2 && "浮点"@[0] == '浮');
    assert("短整数"@.len() == 3 && "短整数"@[0] == '短');
    assert("长整数"@.len() == 3 && "长整数"@[0] == '长');
}

} // verus!
