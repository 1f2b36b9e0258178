//! Value words of world-editing commands and `execute`, with their
//! Chinese spellings.

use vstd::prelude::*;
use crate::chars::{chars_of, chars_eq_str};
use super::{opt_str, opt_pair};

verus! {

broadcast use vstd::string::group_string_axioms;

#[derive(Clone, Copy, Debug, PartialEq, Eq, Structural)]
pub enum SetBlockMode {
    Destroy,
    Keep,
    Replace,
    Strict,
}

#[derive(Clone, Copy, Debug, PartialEq, Eq, Structural)]
pub enum FillMode {
    Replace,
    Outline,
    Hollow,
    Destroy,
    Strict,
    Keep,
}

#[derive(Clone, Copy, Debug, PartialEq, Eq, Structural)]
pub enum CloneMode {
    Normal,
    Force,
    Move,
}

#[derive(Clone, Copy, Debug, PartialEq, Eq, Structural)]
pub enum TemplateRotation {
    Unrotated,
    Clockwise90,
    Clockwise180,
    Counterclockwise90,
}

#[derive(Clone, Copy, Debug, PartialEq, Eq, Structural)]
pub enum TemplateMirror {
    Unmirrored,
    LeftRight,
    FrontBack,
}

#[derive(Clone, Copy, Debug, PartialEq, Eq, Structural)]
pub enum WeatherKind {
    Clear,
    Rain,
    Thunder,
}

#[derive(Clone, Copy, Debug, PartialEq, Eq, Structural)]
pub enum LocateKind {
    Structure,
    Biome,
    Poi,
}

#[derive(Clone, Copy, Debug, PartialEq, Eq, Structural)]
pub enum EntityRelation {
    Owner,
    Leasher,
    Target,
    Attacker,
    Vehicle,
    Controller,
    Origin,
    Passengers,
}

#[derive(Clone, Copy, Debug, PartialEq, Eq, Structural)]
pub enum Anchor {
    Eyes,
    Feet,
}

#[derive(Clone, Copy, Debug, PartialEq, Eq, Structural)]
pub enum StoreDataMode {
    Result,
    Success,
}

#[derive(Clone, Copy, Debug, PartialEq, Eq, Structural)]
pub enum BossBarField {
    Value,
    Max,
}

#[derive(Clone, Copy, Debug, PartialEq, Eq, Structural)]
pub enum StoreDataType {
    Byte,
    Short,
    Int,
    Long,
    Float,
    Double,
}

/// `setblock` 的放置模式。
pub open spec fn set_block_mode_spec(s: Seq<char>) -> Option<SetBlockMode> {
    if s == "destroy"@ || s == "摧毁"@ {
        Some(SetBlockMode::Destroy)
    } else if s == "keep"@ || s == "保留"@ {
        Some(SetBlockMode::Keep)
    } else if s == "replace"@ || s == "替换"@ {
        Some(SetBlockMode::Replace)
    } else if s == "strict"@ || s == "严格"@ {
        Some(SetBlockMode::Strict)
    } else {
        None
    }
}

pub fn set_block_mode(value: &str) -> (r: Option<SetBlockMode>)
    ensures
        r == set_block_mode_spec(value@),
{
    let v = chars_of(value);
    if chars_eq_str(v.as_slice(), "destroy") || chars_eq_str(v.as_slice(), "摧毁") {
        Some(SetBlockMode::Destroy)
    } else if chars_eq_str(v.as_slice(), "keep") || chars_eq_str(v.as_slice(), "保留") {
        Some(SetBlockMode::Keep)
    } else if chars_eq_str(v.as_slice(), "replace") || chars_eq_str(v.as_slice(), "替换") {
        Some(SetBlockMode::Replace)
    } else if chars_eq_str(v.as_slice(), "strict") || chars_eq_str(v.as_slice(), "严格") {
        Some(SetBlockMode::Strict)
    } else {
        None
    }
}

/// `fill` 的填充模式。
pub open spec fn fill_mode_spec(s: Seq<char>) -> Option<FillMode> {
    if s == "replace"@ || s == "替换"@ {
        Some(FillMode::Replace)
    } else if s == "outline"@ || s == "轮廓"@ {
        Some(FillMode::Outline)
    } else if s == "hollow"@ || s == "空心"@ {
        Some(FillMode::Hollow)
    } else if s == "destroy"@ || s == "摧毁"@ {
        Some(FillMode::Destroy)
    } else if s == "strict"@ || s == "严格"@ {
        Some(FillMode::Strict)
    } else if s == "keep"@ || s == "保留"@ {
        Some(FillMode::Keep)
    } else {
        None
    }
}

pub fn fill_mode(value: &str) -> (r: Option<FillMode>)
    ensures
        r == fill_mode_spec(value@),
{
    let v = chars_of(value);
    if chars_eq_str(v.as_slice(), "replace") || chars_eq_str(v.as_slice(), "替换") {
        Some(FillMode::Replace)
    } else if chars_eq_str(v.as_slice(), "outline") || chars_eq_str(v.as_slice(), "轮廓") {
        Some(FillMode::Outline)
    } else if chars_eq_str(v.as_slice(), "hollow") || chars_eq_str(v.as_slice(), "空心") {
        Some(FillMode::Hollow)
    } else if chars_eq_str(v.as_slice(), "destroy") || chars_eq_str(v.as_slice(), "摧毁") {
        Some(FillMode::Destroy)
    } else if chars_eq_str(v.as_slice(), "strict") || chars_eq_str(v.as_slice(), "严格") {
        Some(FillMode::Strict)
    } else if chars_eq_str(v.as_slice(), "keep") || chars_eq_str(v.as_slice(), "保留") {
        Some(FillMode::Keep)
    } else {
        None
    }
}

/// `clone` 的过滤方式；`filtered` 还需要紧跟一个方块谓词参数。
pub open spec fn clone_filter_spec(s: Seq<char>) -> Option<Seq<char>> {
    if s == "replace"@ || s == "替换"@ {
        Some("replace"@)
    } else if s == "masked"@ || s == "遮罩"@ {
        Some("masked"@)
    } else if s == "filtered"@ || s == "过滤"@ {
        Some("filtered"@)
    } else {
        None
    }
}

pub fn clone_filter(value: &str) -> (r: Option<&'static str>)
    ensures
        opt_str(r) == clone_filter_spec(value@),
{
    let v = chars_of(value);
    if chars_eq_str(v.as_slice(), "replace") || chars_eq_str(v.as_slice(), "替换") {
        Some("replace")
    } else if chars_eq_str(v.as_slice(), "masked") || chars_eq_str(v.as_slice(), "遮罩") {
        Some("masked")
    } else if chars_eq_str(v.as_slice(), "filtered") || chars_eq_str(v.as_slice(), "过滤") {
        Some("filtered")
    } else {
        None
    }
}

/// `clone` 的复制模式。
pub open spec fn clone_mode_spec(s: Seq<char>) -> Option<CloneMode> {
    if s == "normal"@ || s == "普通"@ {
        Some(CloneMode::Normal)
    } else if s == "force"@ || s == "强制"@ {
        Some(CloneMode::Force)
    } else if s == "move"@ || s == "移动"@ {
        Some(CloneMode::Move)
    } else {
        None
    }
}

pub fn clone_mode(value: &str) -> (r: Option<CloneMode>)
    ensures
        r == clone_mode_spec(value@),
{
    let v = chars_of(value);
    if chars_eq_str(v.as_slice(), "normal") || chars_eq_str(v.as_slice(), "普通") {
        Some(CloneMode::Normal)
    } else if chars_eq_str(v.as_slice(), "force") || chars_eq_str(v.as_slice(), "强制") {
        Some(CloneMode::Force)
    } else if chars_eq_str(v.as_slice(), "move") || chars_eq_str(v.as_slice(), "移动") {
        Some(CloneMode::Move)
    } else {
        None
    }
}

/// `place.template` 的旋转值；`180` 既是数字字面量也是原版枚举名。
pub open spec fn template_rotation_spec(s: Seq<char>) -> Option<TemplateRotation> {
    if s == "none"@ || s == "无"@ {
        Some(TemplateRotation::Unrotated)
    } else if s == "clockwise_90"@ || s == "顺时针90"@ {
        Some(TemplateRotation::Clockwise90)
    } else if s == "180"@ {
        Some(TemplateRotation::Clockwise180)
    } else if s == "counterclockwise_90"@ || s == "逆时针90"@ {
        Some(TemplateRotation::Counterclockwise90)
    } else {
        None
    }
}

pub fn template_rotation(value: &str) -> (r: Option<TemplateRotation>)
    ensures
        r == template_rotation_spec(value@),
{
    let v = chars_of(value);
    if chars_eq_str(v.as_slice(), "none") || chars_eq_str(v.as_slice(), "无") {
        Some(TemplateRotation::Unrotated)
    } else if chars_eq_str(v.as_slice(), "clockwise_90") || chars_eq_str(v.as_slice(), "顺时针90") {
        Some(TemplateRotation::Clockwise90)
    } else if chars_eq_str(v.as_slice(), "180") {
        Some(TemplateRotation::Clockwise180)
    } else if chars_eq_str(v.as_slice(), "counterclockwise_90") || chars_eq_str(v.as_slice(), "逆时针90") {
        Some(TemplateRotation::Counterclockwise90)
    } else {
        None
    }
}

/// `place.template` 的镜像值。
pub open spec fn template_mirror_spec(s: Seq<char>) -> Option<TemplateMirror> {
    if s == "none"@ || s == "无"@ {
        Some(TemplateMirror::Unmirrored)
    } else if s == "left_right"@ || s == "左右"@ {
        Some(TemplateMirror::LeftRight)
    } else if s == "front_back"@ || s == "前后"@ {
        Some(TemplateMirror::FrontBack)
    } else {
        None
    }
}

pub fn template_mirror(value: &str) -> (r: Option<TemplateMirror>)
    ensures
        r == template_mirror_spec(value@),
{
    let v = chars_of(value);
    if chars_eq_str(v.as_slice(), "none") || chars_eq_str(v.as_slice(), "无") {
        Some(TemplateMirror::Unmirrored)
    } else if chars_eq_str(v.as_slice(), "left_right") || chars_eq_str(v.as_slice(), "左右") {
        Some(TemplateMirror::LeftRight)
    } else if chars_eq_str(v.as_slice(), "front_back") || chars_eq_str(v.as_slice(), "前后") {
        Some(TemplateMirror::FrontBack)
    } else {
        None
    }
}

/// `clone` 的跨维度选项。
pub open spec fn clone_dimension_spec(s: Seq<char>) -> Option<Seq<char>> {
    if s == "from_dimension"@ || s == "起始维度"@ {
        Some("from"@)
    } else if s == "to_dimension"@ || s == "目标维度"@ {
        Some("to"@)
    } else {
        None
    }
}

pub fn clone_dimension(value: &str) -> (r: Option<&'static str>)
    ensures
        opt_str(r) == clone_dimension_spec(value@),
{
    let v = chars_of(value);
    if chars_eq_str(v.as_slice(), "from_dimension") || chars_eq_str(v.as_slice(), "起始维度") {
        Some("from")
    } else if chars_eq_str(v.as_slice(), "to_dimension") || chars_eq_str(v.as_slice(), "目标维度") {
        Some("to")
    } else {
        None
    }
}

/// `strict` 标志：应用在 `set_block`、`fill`、`clone`、`place.template` 上。
pub open spec fn strict_word_spec(s: Seq<char>) -> bool {
    s == "strict"@ || s == "严格"@
}

pub fn strict_word(value: &str) -> (r: bool)
    ensures
        r == strict_word_spec(value@),
{
    let v = chars_of(value);
    chars_eq_str(v.as_slice(), "strict") || chars_eq_str(v.as_slice(), "严格")
}

pub open spec fn place_method_spec(s: Seq<char>) -> Option<Seq<char>> {
    if s == "feature"@ || s == "地物"@ {
        Some("feature"@)
    } else if s == "jigsaw"@ || s == "拼图"@ {
        Some("jigsaw"@)
    } else if s == "structure"@ || s == "结构"@ {
        Some("structure"@)
    } else if s == "template"@ || s == "模板"@ {
        Some("template"@)
    } else {
        None
    }
}

pub fn place_method(value: &str) -> (r: Option<&'static str>)
    ensures
        opt_str(r) == place_method_spec(value@),
{
    let v = chars_of(value);
    if chars_eq_str(v.as_slice(), "feature") || chars_eq_str(v.as_slice(), "地物") {
        Some("feature")
    } else if chars_eq_str(v.as_slice(), "jigsaw") || chars_eq_str(v.as_slice(), "拼图") {
        Some("jigsaw")
    } else if chars_eq_str(v.as_slice(), "structure") || chars_eq_str(v.as_slice(), "结构") {
        Some("structure")
    } else if chars_eq_str(v.as_slice(), "template") || chars_eq_str(v.as_slice(), "模板") {
        Some("template")
    } else {
        None
    }
}

pub open spec fn forceload_method_spec(s: Seq<char>) -> Option<Seq<char>> {
    if s == "add"@ || s == "添加"@ {
        Some("add"@)
    } else if s == "remove"@ || s == "移除"@ {
        Some("remove"@)
    } else if s == "remove_all"@ || s == "全部移除"@ {
        Some("remove_all"@)
    } else if s == "query"@ || s == "查询"@ {
        Some("query"@)
    } else {
        None
    }
}

pub fn forceload_method(value: &str) -> (r: Option<&'static str>)
    ensures
        opt_str(r) == forceload_method_spec(value@),
{
    let v = chars_of(value);
    if chars_eq_str(v.as_slice(), "add") || chars_eq_str(v.as_slice(), "添加") {
        Some("add")
    } else if chars_eq_str(v.as_slice(), "remove") || chars_eq_str(v.as_slice(), "移除") {
        Some("remove")
    } else if chars_eq_str(v.as_slice(), "remove_all") || chars_eq_str(v.as_slice(), "全部移除") {
        Some("remove_all")
    } else if chars_eq_str(v.as_slice(), "query") || chars_eq_str(v.as_slice(), "查询") {
        Some("query")
    } else {
        None
    }
}

pub open spec fn time_method_spec(s: Seq<char>) -> Option<Seq<char>> {
    if s == "set"@ || s == "设置"@ {
        Some("set"@)
    } else if s == "add"@ || s == "增加"@ {
        Some("add"@)
    } else if s == "pause"@ || s == "暂停"@ {
        Some("pause"@)
    } else if s == "resume"@ || s == "恢复"@ {
        Some("resume"@)
    } else if s == "rate"@ || s == "速率"@ {
        Some("rate"@)
    } else if s == "query"@ || s == "查询"@ {
        Some("query"@)
    } else if s == "query_gametime"@ || s == "查询游戏时间"@ {
        Some("query_gametime"@)
    } else {
        None
    }
}

pub fn time_method(value: &str) -> (r: Option<&'static str>)
    ensures
        opt_str(r) == time_method_spec(value@),
{
    let v = chars_of(value);
    if chars_eq_str(v.as_slice(), "set") || chars_eq_str(v.as_slice(), "设置") {
        Some("set")
    } else if chars_eq_str(v.as_slice(), "add") || chars_eq_str(v.as_slice(), "增加") {
        Some("add")
    } else if chars_eq_str(v.as_slice(), "pause") || chars_eq_str(v.as_slice(), "暂停") {
        Some("pause")
    } else if chars_eq_str(v.as_slice(), "resume") || chars_eq_str(v.as_slice(), "恢复") {
        Some("resume")
    } else if chars_eq_str(v.as_slice(), "rate") || chars_eq_str(v.as_slice(), "速率") {
        Some("rate")
    } else if chars_eq_str(v.as_slice(), "query") || chars_eq_str(v.as_slice(), "查询") {
        Some("query")
    } else if chars_eq_str(v.as_slice(), "query_gametime") || chars_eq_str(v.as_slice(), "查询游戏时间") {
        Some("query_gametime")
    } else {
        None
    }
}

pub open spec fn weather_kind_spec(s: Seq<char>) -> Option<WeatherKind> {
    if s == "clear"@ || s == "晴朗"@ {
        Some(WeatherKind::Clear)
    } else if s == "rain"@ || s == "下雨"@ {
        Some(WeatherKind::Rain)
    } else if s == "thunder"@ || s == "雷暴"@ {
        Some(WeatherKind::Thunder)
    } else {
        None
    }
}

pub fn weather_kind(value: &str) -> (r: Option<WeatherKind>)
    ensures
        r == weather_kind_spec(value@),
{
    let v = chars_of(value);
    if chars_eq_str(v.as_slice(), "clear") || chars_eq_str(v.as_slice(), "晴朗") {
        Some(WeatherKind::Clear)
    } else if chars_eq_str(v.as_slice(), "rain") || chars_eq_str(v.as_slice(), "下雨") {
        Some(WeatherKind::Rain)
    } else if chars_eq_str(v.as_slice(), "thunder") || chars_eq_str(v.as_slice(), "雷暴") {
        Some(WeatherKind::Thunder)
    } else {
        None
    }
}

pub open spec fn gamerule_method_spec(s: Seq<char>) -> Option<Seq<char>> {
    if s == "set"@ || s == "设置"@ {
        Some("set"@)
    } else if s == "query"@ || s == "查询"@ {
        Some("query"@)
    } else {
        None
    }
}

pub fn gamerule_method(value: &str) -> (r: Option<&'static str>)
    ensures
        opt_str(r) == gamerule_method_spec(value@),
{
    let v = chars_of(value);
    if chars_eq_str(v.as_slice(), "set") || chars_eq_str(v.as_slice(), "设置") {
        Some("set")
    } else if chars_eq_str(v.as_slice(), "query") || chars_eq_str(v.as_slice(), "查询") {
        Some("query")
    } else {
        None
    }
}

pub open spec fn worldborder_method_spec(s: Seq<char>) -> Option<Seq<char>> {
    if s == "add"@ || s == "增加"@ {
        Some("add"@)
    } else if s == "set"@ || s == "设置"@ {
        Some("set"@)
    } else if s == "center"@ || s == "中心"@ {
        Some("center"@)
    } else if s == "damage_amount"@ || s == "伤害量"@ {
        Some("damage_amount"@)
    } else if s == "damage_buffer"@ || s == "伤害缓冲"@ {
        Some("damage_buffer"@)
    } else if s == "get"@ || s == "获取"@ {
        Some("get"@)
    } else if s == "warning_distance"@ || s == "警告距离"@ {
        Some("warning_distance"@)
    } else if s == "warning_time"@ || s == "警告时间"@ {
        Some("warning_time"@)
    } else {
        None
    }
}

pub fn worldborder_method(value: &str) -> (r: Option<&'static str>)
    ensures
        opt_str(r) == worldborder_method_spec(value@),
{
    let v = chars_of(value);
    if chars_eq_str(v.as_slice(), "add") || chars_eq_str(v.as_slice(), "增加") {
        Some("add")
    } else if chars_eq_str(v.as_slice(), "set") || chars_eq_str(v.as_slice(), "设置") {
        Some("set")
    } else if chars_eq_str(v.as_slice(), "center") || chars_eq_str(v.as_slice(), "中心") {
        Some("center")
    } else if chars_eq_str(v.as_slice(), "damage_amount") || chars_eq_str(v.as_slice(), "伤害量") {
        Some("damage_amount")
    } else if chars_eq_str(v.as_slice(), "damage_buffer") || chars_eq_str(v.as_slice(), "伤害缓冲") {
        Some("damage_buffer")
    } else if chars_eq_str(v.as_slice(), "get") || chars_eq_str(v.as_slice(), "获取") {
        Some("get")
    } else if chars_eq_str(v.as_slice(), "warning_distance") || chars_eq_str(v.as_slice(), "警告距离") {
        Some("warning_distance")
    } else if chars_eq_str(v.as_slice(), "warning_time") || chars_eq_str(v.as_slice(), "警告时间") {
        Some("warning_time")
    } else {
        None
    }
}

pub open spec fn locate_kind_spec(s: Seq<char>) -> Option<LocateKind> {
    if s == "structure"@ || s == "结构"@ {
        Some(LocateKind::Structure)
    } else if s == "biome"@ || s == "生物群系"@ {
        Some(LocateKind::Biome)
    } else if s == "poi"@ || s == "兴趣点"@ {
        Some(LocateKind::Poi)
    } else {
        None
    }
}

pub fn locate_kind(value: &str) -> (r: Option<LocateKind>)
    ensures
        r == locate_kind_spec(value@),
{
    let v = chars_of(value);
    if chars_eq_str(v.as_slice(), "structure") || chars_eq_str(v.as_slice(), "结构") {
        Some(LocateKind::Structure)
    } else if chars_eq_str(v.as_slice(), "biome") || chars_eq_str(v.as_slice(), "生物群系") {
        Some(LocateKind::Biome)
    } else if chars_eq_str(v.as_slice(), "poi") || chars_eq_str(v.as_slice(), "兴趣点") {
        Some(LocateKind::Poi)
    } else {
        None
    }
}

/// 结构化 `execute` 的修饰符子句名，对应原版 `ExecuteCommand.register` 的分支。
pub open spec fn execute_clause_spec(s: Seq<char>) -> Option<Seq<char>> {
    if s == "as"@ || s == "作为"@ {
        Some("as"@)
    } else if s == "at"@ || s == "在"@ {
        Some("at"@)
    } else if s == "positioned"@ || s == "定位于"@ {
        Some("positioned"@)
    } else if s == "rotated"@ || s == "转向"@ {
        Some("rotated"@)
    } else if s == "facing"@ || s == "面向"@ {
        Some("facing"@)
    } else if s == "align"@ || s == "对齐"@ {
        Some("align"@)
    } else if s == "anchored"@ || s == "锚点"@ {
        Some("anchored"@)
    } else if s == "in"@ || s == "进入维度"@ {
        Some("in"@)
    } else if s == "on"@ || s == "关系"@ {
        Some("on"@)
    } else if s == "summon"@ || s == "召唤实体"@ {
        Some("summon"@)
    } else {
        None
    }
}

pub fn execute_clause(value: &str) -> (r: Option<&'static str>)
    ensures
        opt_str(r) == execute_clause_spec(value@),
{
    let v = chars_of(value);
    if chars_eq_str(v.as_slice(), "as") || chars_eq_str(v.as_slice(), "作为") {
        Some("as")
    } else if chars_eq_str(v.as_slice(), "at") || chars_eq_str(v.as_slice(), "在") {
        Some("at")
    } else if chars_eq_str(v.as_slice(), "positioned") || chars_eq_str(v.as_slice(), "定位于") {
        Some("positioned")
    } else if chars_eq_str(v.as_slice(), "rotated") || chars_eq_str(v.as_slice(), "转向") {
        Some("rotated")
    } else if chars_eq_str(v.as_slice(), "facing") || chars_eq_str(v.as_slice(), "面向") {
        Some("facing")
    } else if chars_eq_str(v.as_slice(), "align") || chars_eq_str(v.as_slice(), "对齐") {
        Some("align")
    } else if chars_eq_str(v.as_slice(), "anchored") || chars_eq_str(v.as_slice(), "锚点") {
        Some("anchored")
    } else if chars_eq_str(v.as_slice(), "in") || chars_eq_str(v.as_slice(), "进入维度") {
        Some("in")
    } else if chars_eq_str(v.as_slice(), "on") || chars_eq_str(v.as_slice(), "关系") {
        Some("on")
    } else if chars_eq_str(v.as_slice(), "summon") || chars_eq_str(v.as_slice(), "召唤实体") {
        Some("summon")
    } else {
        None
    }
}

/// `execute on` 的实体关系名。
pub open spec fn entity_relation_spec(s: Seq<char>) -> Option<EntityRelation> {
    if s == "owner"@ || s == "主人"@ {
        Some(EntityRelation::Owner)
    } else if s == "leasher"@ || s == "拴绳者"@ {
        Some(EntityRelation::Leasher)
    } else if s == "target"@ || s == "攻击目标"@ {
        Some(EntityRelation::Target)
    } else if s == "attacker"@ || s == "攻击者"@ {
        Some(EntityRelation::Attacker)
    } else if s == "vehicle"@ || s == "载具"@ {
        Some(EntityRelation::Vehicle)
    } else if s == "controller"@ || s == "控制者"@ {
        Some(EntityRelation::Controller)
    } else if s == "origin"@ || s == "起源"@ {
        Some(EntityRelation::Origin)
    } else if s == "passengers"@ || s == "乘客"@ {
        Some(EntityRelation::Passengers)
    } else {
        None
    }
}

pub fn entity_relation(value: &str) -> (r: Option<EntityRelation>)
    ensures
        r == entity_relation_spec(value@),
{
    let v = chars_of(value);
    if chars_eq_str(v.as_slice(), "owner") || chars_eq_str(v.as_slice(), "主人") {
        Some(EntityRelation::Owner)
    } else if chars_eq_str(v.as_slice(), "leasher") || chars_eq_str(v.as_slice(), "拴绳者") {
        Some(EntityRelation::Leasher)
    } else if chars_eq_str(v.as_slice(), "target") || chars_eq_str(v.as_slice(), "攻击目标") {
        Some(EntityRelation::Target)
    } else if chars_eq_str(v.as_slice(), "attacker") || chars_eq_str(v.as_slice(), "攻击者") {
        Some(EntityRelation::Attacker)
    } else if chars_eq_str(v.as_slice(), "vehicle") || chars_eq_str(v.as_slice(), "载具") {
        Some(EntityRelation::Vehicle)
    } else if chars_eq_str(v.as_slice(), "controller") || chars_eq_str(v.as_slice(), "控制者") {
        Some(EntityRelation::Controller)
    } else if chars_eq_str(v.as_slice(), "origin") || chars_eq_str(v.as_slice(), "起源") {
        Some(EntityRelation::Origin)
    } else if chars_eq_str(v.as_slice(), "passengers") || chars_eq_str(v.as_slice(), "乘客") {
        Some(EntityRelation::Passengers)
    } else {
        None
    }
}

/// 实体锚点：`facing entity` 与 `anchored` 共用。
pub open spec fn anchor_value_spec(s: Seq<char>) -> Option<Anchor> {
    if s == "eyes"@ || s == "眼睛"@ {
        Some(Anchor::Eyes)
    } else if s == "feet"@ || s == "脚"@ {
        Some(Anchor::Feet)
    } else {
        None
    }
}

pub fn anchor_value(value: &str) -> (r: Option<Anchor>)
    ensures
        r == anchor_value_spec(value@),
{
    let v = chars_of(value);
    if chars_eq_str(v.as_slice(), "eyes") || chars_eq_str(v.as_slice(), "眼睛") {
        Some(Anchor::Eyes)
    } else if chars_eq_str(v.as_slice(), "feet") || chars_eq_str(v.as_slice(), "脚") {
        Some(Anchor::Feet)
    } else {
        None
    }
}

/// `execute store` 的方法名；`store.data` 缺省写入 result。
pub open spec fn store_method_spec(s: Seq<char>) -> Option<Seq<char>> {
    if s == "result"@ || s == "结果"@ {
        Some("result"@)
    } else if s == "success"@ || s == "成功"@ {
        Some("success"@)
    } else if s == "data"@ || s == "数据"@ {
        Some("data"@)
    } else {
        None
    }
}

pub fn store_method(value: &str) -> (r: Option<&'static str>)
    ensures
        opt_str(r) == store_method_spec(value@),
{
    let v = chars_of(value);
    if chars_eq_str(v.as_slice(), "result") || chars_eq_str(v.as_slice(), "结果") {
        Some("result")
    } else if chars_eq_str(v.as_slice(), "success") || chars_eq_str(v.as_slice(), "成功") {
        Some("success")
    } else if chars_eq_str(v.as_slice(), "data") || chars_eq_str(v.as_slice(), "数据") {
        Some("data")
    } else {
        None
    }
}

/// `store.data` 的写入模式；与方法名共用英文拼写，但只接受 result 与 success。
pub open spec fn store_data_mode_spec(s: Seq<char>) -> Option<StoreDataMode> {
    if s == "result"@ || s == "结果"@ {
        Some(StoreDataMode::Result)
    } else if s == "success"@ || s == "成功"@ {
        Some(StoreDataMode::Success)
    } else {
        None
    }
}

pub fn store_data_mode(value: &str) -> (r: Option<StoreDataMode>)
    ensures
        r == store_data_mode_spec(value@),
{
    let v = chars_of(value);
    if chars_eq_str(v.as_slice(), "result") || chars_eq_str(v.as_slice(), "结果") {
        Some(StoreDataMode::Result)
    } else if chars_eq_str(v.as_slice(), "success") || chars_eq_str(v.as_slice(), "成功") {
        Some(StoreDataMode::Success)
    } else {
        None
    }
}

/// Boss 栏的可写字段：当前值与上限。
pub open spec fn bossbar_field_spec(s: Seq<char>) -> Option<BossBarField> {
    if s == "value"@ || s == "值"@ {
        Some(BossBarField::Value)
    } else if s == "max"@ || s == "上限"@ {
        Some(BossBarField::Max)
    } else {
        None
    }
}

pub fn bossbar_field(value: &str) -> (r: Option<BossBarField>)
    ensures
        r == bossbar_field_spec(value@),
{
    let v = chars_of(value);
    if chars_eq_str(v.as_slice(), "value") || chars_eq_str(v.as_slice(), "值") {
        Some(BossBarField::Value)
    } else if chars_eq_str(v.as_slice(), "max") || chars_eq_str(v.as_slice(), "上限") {
        Some(BossBarField::Max)
    } else {
        None
    }
}

/// `store.data` 的数值类型。
pub open spec fn store_data_type_spec(s: Seq<char>) -> Option<StoreDataType> {
    if s == "byte"@ || s == "字节"@ {
        Some(StoreDataType::Byte)
    } else if s == "short"@ || s == "短整数"@ {
        Some(StoreDataType::Short)
    } else if s == "int"@ || s == "整数"@ {
        Some(StoreDataType::Int)
    } else if s == "long"@ || s == "长整数"@ {
        Some(StoreDataType::Long)
    } else if s == "float"@ || s == "浮点"@ {
        Some(StoreDataType::Float)
    } else if s == "double"@ || s == "双精度"@ {
        Some(StoreDataType::Double)
    } else {
        None
    }
}

pub fn store_data_type(value: &str) -> (r: Option<StoreDataType>)
    ensures
        r == store_data_type_spec(value@),
{
    let v = chars_of(value);
    if chars_eq_str(v.as_slice(), "byte") || chars_eq_str(v.as_slice(), "字节") {
        Some(StoreDataType::Byte)
    } else if chars_eq_str(v.as_slice(), "short") || chars_eq_str(v.as_slice(), "短整数") {
        Some(StoreDataType::Short)
    } else if chars_eq_str(v.as_slice(), "int") || chars_eq_str(v.as_slice(), "整数") {
        Some(StoreDataType::Int)
    } else if chars_eq_str(v.as_slice(), "long") || chars_eq_str(v.as_slice(), "长整数") {
        Some(StoreDataType::Long)
    } else if chars_eq_str(v.as_slice(), "float") || chars_eq_str(v.as_slice(), "浮点") {
        Some(StoreDataType::Float)
    } else if chars_eq_str(v.as_slice(), "double") || chars_eq_str(v.as_slice(), "双精度") {
        Some(StoreDataType::Double)
    } else {
        None
    }
}

} // verus!
