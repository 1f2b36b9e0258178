//! Both columns of the alias table hold distinct spellings.

use vstd::prelude::*;
use crate::sorted::{seq_less, lemma_adjacent_sorted, lemma_reordered_distinct};
use super::aliases::alias_table;

verus! {

broadcast use vstd::string::group_string_axioms;

/// The aliases, in table order.
pub open spec fn alias_column() -> Seq<Seq<char>> {
    seq![
        "自定义名称"@,
        "名称可见"@,
        "静音"@,
        "发光"@,
        "无敌"@,
        "无重力"@,
        "标签"@,
        "自定义数据"@,
        "坐标"@,
        "速度"@,
        "朝向"@,
        "着火时间"@,
        "氧气"@,
        "在地面"@,
        "传送门冷却"@,
        "冰冻时间"@,
        "下落距离"@,
        "无敌时间"@,
        "队伍"@,
        "视觉火焰"@,
        "无AI"@,
        "生命"@,
        "持久化"@,
        "可拾取物品"@,
        "左手"@,
        "死亡战利品表"@,
        "死亡战利品表种子"@,
        "掉落概率"@,
        "活动半径"@,
        "活动中心"@,
        "属性"@,
        "状态效果"@,
        "装备"@,
        "大脑"@,
        "滑翔"@,
        "睡眠中"@,
        "睡觉位置"@,
        "受伤时间"@,
        "死亡时间"@,
        "伤害吸收"@,
        "求偶"@,
        "年龄"@,
        "年龄锁定"@,
        "强制年龄"@,
        "已繁殖"@,
        "已驯服"@,
        "脾气"@,
        "坐下"@,
        "潜行"@,
        "隐身"@,
        "标记"@,
        "充能"@,
        "爆炸半径"@,
        "爆炸威力"@,
        "已点燃"@,
        "幼年"@,
        "可破坏门"@,
        "可参与袭击"@,
        "巡逻中"@,
        "巡逻队长"@,
        "施法时间"@,
        "大小"@,
        "颜色"@,
        "变种"@,
        "来自桶"@,
        "湿度"@,
        "抓到鱼"@,
        "有花蜜"@,
        "已蜇"@,
        "项圈颜色"@,
        "交易列表"@,
        "村民数据"@,
        "传闻"@,
        "今日补货"@,
        "上次补货"@,
        "饥饿值"@,
        "分数"@,
        "选中槽位"@,
        "能力"@,
        "经验等级"@,
        "经验进度"@,
        "经验总量"@,
        "经验种子"@,
        "上次死亡位置"@,
        "睡眠计时"@,
        "兔子类型"@,
        "膨胀状态"@,
        "南瓜头"@,
        "杀手兔"@,
        "信任"@,
        "鸡骑士"@,
        "免疫僵尸化"@,
        "尖叫山羊"@,
        "有左角"@,
        "有右角"@,
        "吃草"@,
        "携带箱子"@,
        "驮运强度"@,
        "消失延迟"@,
        "声音变种"@,
        "拾取延迟"@,
        "穿透等级"@,
        "暴击"@,
        "可拾取"@,
        "斜射"@,
        "方块状态"@,
        "方块实体数据"@,
        "文本"@,
        "背景色"@,
        "对齐"@,
        "行宽"@,
        "文本透明度"@,
        "亮度"@,
        "发光颜色"@,
        "变换"@,
        "插值时长"@,
        "传送时长"@,
        "可视距离"@,
        "阴影半径"@,
        "阴影强度"@,
        "宽度"@,
        "高度"@,
        "展示方块"@,
        "展示物品"@,
        "烟花物品"@,
    ]
}

/// The same spellings in ascending order.
pub open spec fn alias_sorted() -> Seq<Seq<char>> {
    seq![
        "上次死亡位置"@,
        "上次补货"@,
        "下落距离"@,
        "交易列表"@,
        "亮度"@,
        "今日补货"@,
        "传送时长"@,
        "传送门冷却"@,
        "传闻"@,
        "伤害吸收"@,
        "信任"@,
        "充能"@,
        "免疫僵尸化"@,
        "兔子类型"@,
        "冰冻时间"@,
        "分数"@,
        "南瓜头"@,
        "发光"@,
        "发光颜色"@,
        "受伤时间"@,
        "变换"@,
        "变种"@,
        "可参与袭击"@,
        "可拾取"@,
        "可拾取物品"@,
        "可破坏门"@,
        "可视距离"@,
        "吃草"@,
        "名称可见"@,
        "在地面"@,
        "坐下"@,
        "坐标"@,
        "声音变种"@,
        "大小"@,
        "大脑"@,
        "宽度"@,
        "对齐"@,
        "尖叫山羊"@,
        "展示方块"@,
        "展示物品"@,
        "属性"@,
        "巡逻中"@,
        "巡逻队长"@,
        "左手"@,
        "已点燃"@,
        "已繁殖"@,
        "已蜇"@,
        "已驯服"@,
        "年龄"@,
        "年龄锁定"@,
        "幼年"@,
        "强制年龄"@,
        "抓到鱼"@,
        "拾取延迟"@,
        "持久化"@,
        "掉落概率"@,
        "插值时长"@,
        "携带箱子"@,
        "文本"@,
        "文本透明度"@,
        "斜射"@,
        "方块实体数据"@,
        "方块状态"@,
        "施法时间"@,
        "无AI"@,
        "无敌"@,
        "无敌时间"@,
        "无重力"@,
        "暴击"@,
        "有右角"@,
        "有左角"@,
        "有花蜜"@,
        "朝向"@,
        "杀手兔"@,
        "村民数据"@,
        "来自桶"@,
        "标签"@,
        "标记"@,
        "死亡战利品表"@,
        "死亡战利品表种子"@,
        "死亡时间"@,
        "氧气"@,
        "求偶"@,
        "活动中心"@,
        "活动半径"@,
        "消失延迟"@,
        "湿度"@,
        "滑翔"@,
        "潜行"@,
        "烟花物品"@,
        "爆炸半径"@,
        "爆炸威力"@,
        "状态效果"@,
        "生命"@,
        "着火时间"@,
        "睡眠中"@,
        "睡眠计时"@,
        "睡觉位置"@,
        "穿透等级"@,
        "经验总量"@,
        "经验种子"@,
        "经验等级"@,
        "经验进度"@,
        "背景色"@,
        "能力"@,
        "脾气"@,
        "膨胀状态"@,
        "自定义名称"@,
        "自定义数据"@,
        "行宽"@,
        "装备"@,
        "视觉火焰"@,
        "选中槽位"@,
        "速度"@,
        "队伍"@,
        "阴影半径"@,
        "阴影强度"@,
        "隐身"@,
        "静音"@,
        "项圈颜色"@,
        "颜色"@,
        "饥饿值"@,
        "驮运强度"@,
        "高度"@,
        "鸡骑士"@,
    ]
}

proof fn lemma_alias_ascending()
    ensures
        forall|k: int| 0 <= k < 125 - 1 ==> #[trigger] seq_less(alias_sorted()[k], alias_sorted()[k + 1]),
{
    assert forall|k: int| 0 <= k < 125 - 1 implies #[trigger] seq_less(alias_sorted()[k], alias_sorted()[k + 1]) by {
        if k == 0 {
            reveal_strlit("上次死亡位置");
            reveal_strlit("上次补货");
            assert("上次死亡位置"@.len() == 6);
            assert("上次补货"@.len() == 4);
            reveal_with_fuel(seq_less, 4);
        } else if k == 1 {
            reveal_strlit("上次补货");
            reveal_strlit("下落距离");
            assert("上次补货"@.len() == 4);
            assert("下落距离"@.len() == 4);
            reveal_with_fuel(seq_less, 2);
        } else if k == 2 {
            reveal_strlit("下落距离");
            reveal_strlit("交易列表");
            assert("下落距离"@.len() == 4);
            assert("交易列表"@.len() == 4);
            reveal_with_fuel(seq_less, 2);
        } else if k == 3 {
            reveal_strlit("交易列表");
            reveal_strlit("亮度");
            assert("交易列表"@.len() == 4);
            assert("亮度"@.len() == 2);
            reveal_with_fuel(seq_less, 2);
        } else if k == 4 {
            reveal_strlit("亮度");
            reveal_strlit("今日补货");
            assert("亮度"@.len() == 2);
            assert("今日补货"@.len() == 4);
            reveal_with_fuel(seq_less, 2);
        } else if k == 5 {
            reveal_strlit("今日补货");
            reveal_strlit("传送时长");
            assert("今日补货"@.len() == 4);
            assert("传送时长"@.len() == 4);
            reveal_with_fuel(seq_less, 2);
        } else if k == 6 {
            reveal_strlit("传送时长");
            reveal_strlit("传送门冷却");
            assert("传送时长"@.len() == 4);
            assert("传送门冷却"@.len() == 5);
            reveal_with_fuel(seq_less, 4);
        } else if k == 7 {
            reveal_strlit("传送门冷却");
            reveal_strlit("传闻");
            assert("传送门冷却"@.len() == 5);
            assert("传闻"@.len() == 2);
            reveal_with_fuel(seq_less, 3);
        } else if k == 8 {
            reveal_strlit("传闻");
            reveal_strlit("伤害吸收");
            assert("传闻"@.len() == 2);
            assert("伤害吸收"@.len() == 4);
            reveal_with_fuel(seq_less, 2);
        } else if k == 9 {
            reveal_strlit("伤害吸收");
            reveal_strlit("信任");
            assert("伤害吸收"@.len() == 4);
            assert("信任"@.len() == 2);
            reveal_with_fuel(seq_less, 2);
        } else if k == 10 {
            reveal_strlit("信任");
            reveal_strlit("充能");
            assert("信任"@.len() == 2);
            assert("充能"@.len() == 2);
            reveal_with_fuel(seq_less, 2);
        } else if k == 11 {
            reveal_strlit("充能");
            reveal_strlit("免疫僵尸化");
            assert("充能"@.len() == 2);
            assert("免疫僵尸化"@.len() == 5);
            reveal_with_fuel(seq_less, 2);
        } else if k == 12 {
            reveal_strlit("免疫僵尸化");
            reveal_strlit("兔子类型");
            assert("免疫僵尸化"@.len() == 5);
            assert("兔子类型"@.len() == 4);
            reveal_with_fuel(seq_less, 2);
        } else if k == 13 {
            reveal_strlit("兔子类型");
            reveal_strlit("冰冻时间");
            assert("兔子类型"@.len() == 4);
            assert("冰冻时间"@.len() == 4);
            reveal_with_fuel(seq_less, 2);
        } else if k == 14 {
            reveal_strlit("冰冻时间");
            reveal_strlit("分数");
            assert("冰冻时间"@.len() == 4);
            assert("分数"@.len() == 2);
            reveal_with_fuel(seq_less, 2);
        } else if k == 15 {
            reveal_strlit("分数");
            reveal_strlit("南瓜头");
            assert("分数"@.len() == 2);
            assert("南瓜头"@.len() == 3);
            reveal_with_fuel(seq_less, 2);
        } else if k == 16 {
            reveal_strlit("南瓜头");
            reveal_strlit("发光");
            assert("南瓜头"@.len() == 3);
            assert("发光"@.len() == 2);
            reveal_with_fuel(seq_less, 2);
        } else if k == 17 {
            reveal_strlit("发光");
            reveal_strlit("发光颜色");
            assert("发光"@.len() == 2);
            assert("发光颜色"@.len() == 4);
            reveal_with_fuel(seq_less, 4);
        } else if k == 18 {
            reveal_strlit("发光颜色");
            reveal_strlit("受伤时间");
            assert("发光颜色"@.len() == 4);
            assert("受伤时间"@.len() == 4);
            reveal_with_fuel(seq_less, 2);
        } else if k == 19 {
            reveal_strlit("受伤时间");
            reveal_strlit("变换");
            assert("受伤时间"@.len() == 4);
            assert("变换"@.len() == 2);
            reveal_with_fuel(seq_less, 2);
        } else if k == 20 {
            reveal_strlit("变换");
            reveal_strlit("变种");
            assert("变换"@.len() == 2);
            assert("变种"@.len() == 2);
            reveal_with_fuel(seq_less, 3);
        } else if k == 21 {
            reveal_strlit("变种");
            reveal_strlit("可参与袭击");
            assert("变种"@.len() == 2);
            assert("可参与袭击"@.len() == 5);
            reveal_with_fuel(seq_less, 2);
        } else if k == 22 {
            reveal_strlit("可参与袭击");
            reveal_strlit("可拾取");
            assert("可参与袭击"@.len() == 5);
            assert("可拾取"@.len() == 3);
            reveal_with_fuel(seq_less, 3);
        } else if k == 23 {
            reveal_strlit("可拾取");
            reveal_strlit("可拾取物品");
            assert("可拾取"@.len() == 3);
            assert("可拾取物品"@.len() == 5);
            reveal_with_fuel(seq_less, 5);
        } else if k == 24 {
            reveal_strlit("可拾取物品");
            reveal_strlit("可破坏门");
            assert("可拾取物品"@.len() == 5);
            assert("可破坏门"@.len() == 4);
            reveal_with_fuel(seq_less, 3);
        } else if k == 25 {
            reveal_strlit("可破坏门");
            reveal_strlit("可视距离");
            assert("可破坏门"@.len() == 4);
            assert("可视距离"@.len() == 4);
            reveal_with_fuel(seq_less, 3);
        } else if k == 26 {
            reveal_strlit("可视距离");
            reveal_strlit("吃草");
            assert("可视距离"@.len() == 4);
            assert("吃草"@.len() == 2);
            reveal_with_fuel(seq_less, 2);
        } else if k == 27 {
            reveal_strlit("吃草");
            reveal_strlit("名称可见");
            assert("吃草"@.len() == 2);
            assert("名称可见"@.len() == 4);
            reveal_with_fuel(seq_less, 2);
        } else if k == 28 {
            reveal_strlit("名称可见");
            reveal_strlit("在地面");
            assert("名称可见"@.len() == 4);
            assert("在地面"@.len() == 3);
            reveal_with_fuel(seq_less, 2);
        } else if k == 29 {
            reveal_strlit("在地面");
            reveal_strlit("坐下");
            assert("在地面"@.len() == 3);
            assert("坐下"@.len() == 2);
            reveal_with_fuel(seq_less, 2);
        } else if k == 30 {
            reveal_strlit("坐下");
            reveal_strlit("坐标");
            assert("坐下"@.len() == 2);
            assert("坐标"@.len() == 2);
            reveal_with_fuel(seq_less, 3);
        } else if k == 31 {
            reveal_strlit("坐标");
            reveal_strlit("声音变种");
            assert("坐标"@.len() == 2);
            assert("声音变种"@.len() == 4);
            reveal_with_fuel(seq_less, 2);
        } else if k == 32 {
            reveal_strlit("声音变种");
            reveal_strlit("大小");
            assert("声音变种"@.len() == 4);
            assert("大小"@.len() == 2);
            reveal_with_fuel(seq_less, 2);
        } else if k == 33 {
            reveal_strlit("大小");
            reveal_strlit("大脑");
            assert("大小"@.len() == 2);
            assert("大脑"@.len() == 2);
            reveal_with_fuel(seq_less, 3);
        } else if k == 34 {
            reveal_strlit("大脑");
            reveal_strlit("宽度");
            assert("大脑"@.len() == 2);
            assert("宽度"@.len() == 2);
            reveal_with_fuel(seq_less, 2);
        } else if k == 35 {
            reveal_strlit("宽度");
            reveal_strlit("对齐");
            assert("宽度"@.len() == 2);
            assert("对齐"@.len() == 2);
            reveal_with_fuel(seq_less, 2);
        } else if k == 36 {
            reveal_strlit("对齐");
            reveal_strlit("尖叫山羊");
            assert("对齐"@.len() == 2);
            assert("尖叫山羊"@.len() == 4);
            reveal_with_fuel(seq_less, 2);
        } else if k == 37 {
            reveal_strlit("尖叫山羊");
            reveal_strlit("展示方块");
            assert("尖叫山羊"@.len() == 4);
            assert("展示方块"@.len() == 4);
            reveal_with_fuel(seq_less, 2);
        } else if k == 38 {
            reveal_strlit("展示方块");
            reveal_strlit("展示物品");
            assert("展示方块"@.len() == 4);
            assert("展示物品"@.len() == 4);
            reveal_with_fuel(seq_less, 4);
        } else if k == 39 {
            reveal_strlit("展示物品");
            reveal_strlit("属性");
            assert("展示物品"@.len() == 4);
            assert("属性"@.len() == 2);
            reveal_with_fuel(seq_less, 2);
        } else if k == 40 {
            reveal_strlit("属性");
            reveal_strlit("巡逻中");
            assert("属性"@.len() == 2);
            assert("巡逻中"@.len() == 3);
            reveal_with_fuel(seq_less, 2);
        } else if k == 41 {
            reveal_strlit("巡逻中");
            reveal_strlit("巡逻队长");
            assert("巡逻中"@.len() == 3);
            assert("巡逻队长"@.len() == 4);
            reveal_with_fuel(seq_less, 4);
        } else if k == 42 {
            reveal_strlit("巡逻队长");
            reveal_strlit("左手");
            assert("巡逻队长"@.len() == 4);
            assert("左手"@.len() == 2);
            reveal_with_fuel(seq_less, 2);
        } else if k == 43 {
            reveal_strlit("左手");
            reveal_strlit("已点燃");
            assert("左手"@.len() == 2);
            assert("已点燃"@.len() == 3);
            reveal_with_fuel(seq_less, 2);
        } else if k == 44 {
            reveal_strlit("已点燃");
            reveal_strlit("已繁殖");
            assert("已点燃"@.len() == 3);
            assert("已繁殖"@.len() == 3);
            reveal_with_fuel(seq_less, 3);
        } else if k == 45 {
            reveal_strlit("已繁殖");
            reveal_strlit("已蜇");
            assert("已繁殖"@.len() == 3);
            assert("已蜇"@.len() == 2);
            reveal_with_fuel(seq_less, 3);
        } else if k == 46 {
            reveal_strlit("已蜇");
            reveal_strlit("已驯服");
            assert("已蜇"@.len() == 2);
            assert("已驯服"@.len() == 3);
            reveal_with_fuel(seq_less, 3);
        } else if k == 47 {
            reveal_strlit("已驯服");
            reveal_strlit("年龄");
            assert("已驯服"@.len() == 3);
            assert("年龄"@.len() == 2);
            reveal_with_fuel(seq_less, 2);
        } else if k == 48 {
            reveal_strlit("年龄");
            reveal_strlit("年龄锁定");
            assert("年龄"@.len() == 2);
            assert("年龄锁定"@.len() == 4);
            reveal_with_fuel(seq_less, 4);
        } else if k == 49 {
            reveal_strlit("年龄锁定");
            reveal_strlit("幼年");
            assert("年龄锁定"@.len() == 4);
            assert("幼年"@.len() == 2);
            reveal_with_fuel(seq_less, 2);
        } else if k == 50 {
            reveal_strlit("幼年");
            reveal_strlit("强制年龄");
            assert("幼年"@.len() == 2);
            assert("强制年龄"@.len() == 4);
            reveal_with_fuel(seq_less, 2);
        } else if k == 51 {
            reveal_strlit("强制年龄");
            reveal_strlit("抓到鱼");
            assert("强制年龄"@.len() == 4);
            assert("抓到鱼"@.len() == 3);
            reveal_with_fuel(seq_less, 2);
        } else if k == 52 {
            reveal_strlit("抓到鱼");
            reveal_strlit("拾取延迟");
            assert("抓到鱼"@.len() == 3);
            assert("拾取延迟"@.len() == 4);
            reveal_with_fuel(seq_less, 2);
        } else if k == 53 {
            reveal_strlit("拾取延迟");
            reveal_strlit("持久化");
            assert("拾取延迟"@.len() == 4);
            assert("持久化"@.len() == 3);
            reveal_with_fuel(seq_less, 2);
        } else if k == 54 {
            reveal_strlit("持久化");
            reveal_strlit("掉落概率");
            assert("持久化"@.len() == 3);
            assert("掉落概率"@.len() == 4);
            reveal_with_fuel(seq_less, 2);
        } else if k == 55 {
            reveal_strlit("掉落概率");
            reveal_strlit("插值时长");
            assert("掉落概率"@.len() == 4);
            assert("插值时长"@.len() == 4);
            reveal_with_fuel(seq_less, 2);
        } else if k == 56 {
            reveal_strlit("插值时长");
            reveal_strlit("携带箱子");
            assert("插值时长"@.len() == 4);
            assert("携带箱子"@.len() == 4);
            reveal_with_fuel(seq_less, 2);
        } else if k == 57 {
            reveal_strlit("携带箱子");
            reveal_strlit("文本");
            assert("携带箱子"@.len() == 4);
            assert("文本"@.len() == 2);
            reveal_with_fuel(seq_less, 2);
        } else if k == 58 {
            reveal_strlit("文本");
            reveal_strlit("文本透明度");
            assert("文本"@.len() == 2);
            assert("文本透明度"@.len() == 5);
            reveal_with_fuel(seq_less, 4);
        } else if k == 59 {
            reveal_strlit("文本透明度");
            reveal_strlit("斜射");
            assert("文本透明度"@.len() == 5);
            assert("斜射"@.len() == 2);
            reveal_with_fuel(seq_less, 2);
        } else if k == 60 {
            reveal_strlit("斜射");
            reveal_strlit("方块实体数据");
            assert("斜射"@.len() == 2);
            assert("方块实体数据"@.len() == 6);
            reveal_with_fuel(seq_less, 2);
        } else if k == 61 {
            reveal_strlit("方块实体数据");
            reveal_strlit("方块状态");
            assert("方块实体数据"@.len() == 6);
            assert("方块状态"@.len() == 4);
            reveal_with_fuel(seq_less, 4);
        } else if k == 62 {
            reveal_strlit("方块状态");
            reveal_strlit("施法时间");
            assert("方块状态"@.len() == 4);
            assert("施法时间"@.len() == 4);
            reveal_with_fuel(seq_less, 2);
        } else if k == 63 {
            reveal_strlit("施法时间");
            reveal_strlit("无AI");
            assert("施法时间"@.len() == 4);
            assert("无AI"@.len() == 3);
            reveal_with_fuel(seq_less, 2);
        } else if k == 64 {
            reveal_strlit("无AI");
            reveal_strlit("无敌");
            assert("无AI"@.len() == 3);
            assert("无敌"@.len() == 2);
            reveal_with_fuel(seq_less, 3);
        } else if k == 65 {
            reveal_strlit("无敌");
            reveal_strlit("无敌时间");
            assert("无敌"@.len() == 2);
            assert("无敌时间"@.len() == 4);
            reveal_with_fuel(seq_less, 4);
        } else if k == 66 {
            reveal_strlit("无敌时间");
            reveal_strlit("无重力");
            assert("无敌时间"@.len() == 4);
            assert("无重力"@.len() == 3);
            reveal_with_fuel(seq_less, 3);
        } else if k == 67 {
            reveal_strlit("无重力");
            reveal_strlit("暴击");
            assert("无重力"@.len() == 3);
            assert("暴击"@.len() == 2);
            reveal_with_fuel(seq_less, 2);
        } else if k == 68 {
            reveal_strlit("暴击");
            reveal_strlit("有右角");
            assert("暴击"@.len() == 2);
            assert("有右角"@.len() == 3);
            reveal_with_fuel(seq_less, 2);
        } else if k == 69 {
            reveal_strlit("有右角");
            reveal_strlit("有左角");
            assert("有右角"@.len() == 3);
            assert("有左角"@.len() == 3);
            reveal_with_fuel(seq_less, 3);
        } else if k == 70 {
            reveal_strlit("有左角");
            reveal_strlit("有花蜜");
            assert("有左角"@.len() == 3);
            assert("有花蜜"@.len() == 3);
            reveal_with_fuel(seq_less, 3);
        } else if k == 71 {
            reveal_strlit("有花蜜");
            reveal_strlit("朝向");
            assert("有花蜜"@.len() == 3);
            assert("朝向"@.len() == 2);
            reveal_with_fuel(seq_less, 2);
        } else if k == 72 {
            reveal_strlit("朝向");
            reveal_strlit("杀手兔");
            assert("朝向"@.len() == 2);
            assert("杀手兔"@.len() == 3);
            reveal_with_fuel(seq_less, 2);
        } else if k == 73 {
            reveal_strlit("杀手兔");
            reveal_strlit("村民数据");
            assert("杀手兔"@.len() == 3);
            assert("村民数据"@.len() == 4);
            reveal_with_fuel(seq_less, 2);
        } else if k == 74 {
            reveal_strlit("村民数据");
            reveal_strlit("来自桶");
            assert("村民数据"@.len() == 4);
            assert("来自桶"@.len() == 3);
            reveal_with_fuel(seq_less, 2);
        } else if k == 75 {
            reveal_strlit("来自桶");
            reveal_strlit("标签");
            assert("来自桶"@.len() == 3);
            assert("标签"@.len() == 2);
            reveal_with_fuel(seq_less, 2);
        } else if k == 76 {
            reveal_strlit("标签");
            reveal_strlit("标记");
            assert("标签"@.len() == 2);
            assert("标记"@.len() == 2);
            reveal_with_fuel(seq_less, 3);
        } else if k == 77 {
            reveal_strlit("标记");
            reveal_strlit("死亡战利品表");
            assert("标记"@.len() == 2);
            assert("死亡战利品表"@.len() == 6);
            reveal_with_fuel(seq_less, 2);
        } else if k == 78 {
            reveal_strlit("死亡战利品表");
            reveal_strlit("死亡战利品表种子");
            assert("死亡战利品表"@.len() == 6);
            assert("死亡战利品表种子"@.len() == 8);
            reveal_with_fuel(seq_less, 8);
        } else if k == 79 {
            reveal_strlit("死亡战利品表种子");
            reveal_strlit("死亡时间");
            assert("死亡战利品表种子"@.len() == 8);
            assert("死亡时间"@.len() == 4);
            reveal_with_fuel(seq_less, 4);
        } else if k == 80 {
            reveal_strlit("死亡时间");
            reveal_strlit("氧气");
            assert("死亡时间"@.len() == 4);
            assert("氧气"@.len() == 2);
            reveal_with_fuel(seq_less, 2);
        } else if k == 81 {
            reveal_strlit("氧气");
            reveal_strlit("求偶");
            assert("氧气"@.len() == 2);
            assert("求偶"@.len() == 2);
            reveal_with_fuel(seq_less, 2);
        } else if k == 82 {
            reveal_strlit("求偶");
            reveal_strlit("活动中心");
            assert("求偶"@.len() == 2);
            assert("活动中心"@.len() == 4);
            reveal_with_fuel(seq_less, 2);
        } else if k == 83 {
            reveal_strlit("活动中心");
            reveal_strlit("活动半径");
            assert("活动中心"@.len() == 4);
            assert("活动半径"@.len() == 4);
            reveal_with_fuel(seq_less, 4);
        } else if k == 84 {
            reveal_strlit("活动半径");
            reveal_strlit("消失延迟");
            assert("活动半径"@.len() == 4);
            assert("消失延迟"@.len() == 4);
            reveal_with_fuel(seq_less, 2);
        } else if k == 85 {
            reveal_strlit("消失延迟");
            reveal_strlit("湿度");
            assert("消失延迟"@.len() == 4);
            assert("湿度"@.len() == 2);
            reveal_with_fuel(seq_less, 2);
        } else if k == 86 {
            reveal_strlit("湿度");
            reveal_strlit("滑翔");
            assert("湿度"@.len() == 2);
            assert("滑翔"@.len() == 2);
            reveal_with_fuel(seq_less, 2);
        } else if k == 87 {
            reveal_strlit("滑翔");
            reveal_strlit("潜行");
            assert("滑翔"@.len() == 2);
            assert("潜行"@.len() == 2);
            reveal_with_fuel(seq_less, 2);
        } else if k == 88 {
            reveal_strlit("潜行");
            reveal_strlit("烟花物品");
            assert("潜行"@.len() == 2);
            assert("烟花物品"@.len() == 4);
            reveal_with_fuel(seq_less, 2);
        } else if k == 89 {
            reveal_strlit("烟花物品");
            reveal_strlit("爆炸半径");
            assert("烟花物品"@.len() == 4);
            assert("爆炸半径"@.len() == 4);
            reveal_with_fuel(seq_less, 2);
        } else if k == 90 {
            reveal_strlit("爆炸半径");
            reveal_strlit("爆炸威力");
            assert("爆炸半径"@.len() == 4);
            assert("爆炸威力"@.len() == 4);
            reveal_with_fuel(seq_less, 4);
        } else if k == 91 {
            reveal_strlit("爆炸威力");
            reveal_strlit("状态效果");
            assert("爆炸威力"@.len() == 4);
            assert("状态效果"@.len() == 4);
            reveal_with_fuel(seq_less, 2);
        } else if k == 92 {
            reveal_strlit("状态效果");
            reveal_strlit("生命");
            assert("状态效果"@.len() == 4);
            assert("生命"@.len() == 2);
            reveal_with_fuel(seq_less, 2);
        } else if k == 93 {
            reveal_strlit("生命");
            reveal_strlit("着火时间");
            assert("生命"@.len() == 2);
            assert("着火时间"@.len() == 4);
            reveal_with_fuel(seq_less, 2);
        } else if k == 94 {
            reveal_strlit("着火时间");
            reveal_strlit("睡眠中");
            assert("着火时间"@.len() == 4);
            assert("睡眠中"@.len() == 3);
            reveal_with_fuel(seq_less, 2);
        } else if k == 95 {
            reveal_strlit("睡眠中");
            reveal_strlit("睡眠计时");
            assert("睡眠中"@.len() == 3);
            assert("睡眠计时"@.len() == 4);
            reveal_with_fuel(seq_less, 4);
        } else if k == 96 {
            reveal_strlit("睡眠计时");
            reveal_strlit("睡觉位置");
            assert("睡眠计时"@.len() == 4);
            assert("睡觉位置"@.len() == 4);
            reveal_with_fuel(seq_less, 3);
        } else if k == 97 {
            reveal_strlit("睡觉位置");
            reveal_strlit("穿透等级");
            assert("睡觉位置"@.len() == 4);
            assert("穿透等级"@.len() == 4);
            reveal_with_fuel(seq_less, 2);
        } else if k == 98 {
            reveal_strlit("穿透等级");
            reveal_strlit("经验总量");
            assert("穿透等级"@.len() == 4);
            assert("经验总量"@.len() == 4);
            reveal_with_fuel(seq_less, 2);
        } else if k == 99 {
            reveal_strlit("经验总量");
            reveal_strlit("经验种子");
            assert("经验总量"@.len() == 4);
            assert("经验种子"@.len() == 4);
            reveal_with_fuel(seq_less, 4);
        } else if k == 100 {
            reveal_strlit("经验种子");
            reveal_strlit("经验等级");
            assert("经验种子"@.len() == 4);
            assert("经验等级"@.len() == 4);
            reveal_with_fuel(seq_less, 4);
        } else if k == 101 {
            reveal_strlit("经验等级");
            reveal_strlit("经验进度");
            assert("经验等级"@.len() == 4);
            assert("经验进度"@.len() == 4);
            reveal_with_fuel(seq_less, 4);
        } else if k == 102 {
            reveal_strlit("经验进度");
            reveal_strlit("背景色");
            assert("经验进度"@.len() == 4);
            assert("背景色"@.len() == 3);
            reveal_with_fuel(seq_less, 2);
        } else if k == 103 {
            reveal_strlit("背景色");
            reveal_strlit("能力");
            assert("背景色"@.len() == 3);
            assert("能力"@.len() == 2);
            reveal_with_fuel(seq_less, 2);
        } else if k == 104 {
            reveal_strlit("能力");
            reveal_strlit("脾气");
            assert("能力"@.len() == 2);
            assert("脾气"@.len() == 2);
            reveal_with_fuel(seq_less, 2);
        } else if k == 105 {
            reveal_strlit("脾气");
            reveal_strlit("膨胀状态");
            assert("脾气"@.len() == 2);
            assert("膨胀状态"@.len() == 4);
            reveal_with_fuel(seq_less, 2);
        } else if k == 106 {
            reveal_strlit("膨胀状态");
            reveal_strlit("自定义名称");
            assert("膨胀状态"@.len() == 4);
            assert("自定义名称"@.len() == 5);
            reveal_with_fuel(seq_less, 2);
        } else if k == 107 {
            reveal_strlit("自定义名称");
            reveal_strlit("自定义数据");
            assert("自定义名称"@.len() == 5);
            assert("自定义数据"@.len() == 5);
            reveal_with_fuel(seq_less, 5);
        } else if k == 108 {
            reveal_strlit("自定义数据");
            reveal_strlit("行宽");
            assert("自定义数据"@.len() == 5);
            assert("行宽"@.len() == 2);
            reveal_with_fuel(seq_less, 2);
        } else if k == 109 {
            reveal_strlit("行宽");
            reveal_strlit("装备");
            assert("行宽"@.len() == 2);
            assert("装备"@.len() == 2);
            reveal_with_fuel(seq_less, 2);
        } else if k == 110 {
            reveal_strlit("装备");
            reveal_strlit("视觉火焰");
            assert("装备"@.len() == 2);
            assert("视觉火焰"@.len() == 4);
            reveal_with_fuel(seq_less, 2);
        } else if k == 111 {
            reveal_strlit("视觉火焰");
            reveal_strlit("选中槽位");
            assert("视觉火焰"@.len() == 4);
            assert("选中槽位"@.len() == 4);
            reveal_with_fuel(seq_less, 2);
        } else if k == 112 {
            reveal_strlit("选中槽位");
            reveal_strlit("速度");
            assert("选中槽位"@.len() == 4);
            assert("速度"@.len() == 2);
            reveal_with_fuel(seq_less, 2);
        } else if k == 113 {
            reveal_strlit("速度");
            reveal_strlit("队伍");
            assert("速度"@.len() == 2);
            assert("队伍"@.len() == 2);
            reveal_with_fuel(seq_less, 2);
        } else if k == 114 {
            reveal_strlit("队伍");
            reveal_strlit("阴影半径");
            assert("队伍"@.len() == 2);
            assert("阴影半径"@.len() == 4);
            reveal_with_fuel(seq_less, 2);
        } else if k == 115 {
            reveal_strlit("阴影半径");
            reveal_strlit("阴影强度");
            assert("阴影半径"@.len() == 4);
            assert("阴影强度"@.len() == 4);
            reveal_with_fuel(seq_less, 4);
        } else if k == 116 {
            reveal_strlit("阴影强度");
            reveal_strlit("隐身");
            assert("阴影强度"@.len() == 4);
            assert("隐身"@.len() == 2);
            reveal_with_fuel(seq_less, 2);
        } else if k == 117 {
            reveal_strlit("隐身");
            reveal_strlit("静音");
            assert("隐身"@.len() == 2);
            assert("静音"@.len() == 2);
            reveal_with_fuel(seq_less, 2);
        } else if k == 118 {
            reveal_strlit("静音");
            reveal_strlit("项圈颜色");
            assert("静音"@.len() == 2);
            assert("项圈颜色"@.len() == 4);
            reveal_with_fuel(seq_less, 2);
        } else if k == 119 {
            reveal_strlit("项圈颜色");
            reveal_strlit("颜色");
            assert("项圈颜色"@.len() == 4);
            assert("颜色"@.len() == 2);
            reveal_with_fuel(seq_less, 2);
        } else if k == 120 {
            reveal_strlit("颜色");
            reveal_strlit("饥饿值");
            assert("颜色"@.len() == 2);
            assert("饥饿值"@.len() == 3);
            reveal_with_fuel(seq_less, 2);
        } else if k == 121 {
            reveal_strlit("饥饿值");
            reveal_strlit("驮运强度");
            assert("饥饿值"@.len() == 3);
            assert("驮运强度"@.len() == 4);
            reveal_with_fuel(seq_less, 2);
        } else if k == 122 {
            reveal_strlit("驮运强度");
            reveal_strlit("高度");
            assert("驮运强度"@.len() == 4);
            assert("高度"@.len() == 2);
            reveal_with_fuel(seq_less, 2);
        } else if k == 123 {
            reveal_strlit("高度");
            reveal_strlit("鸡骑士");
            assert("高度"@.len() == 2);
            assert("鸡骑士"@.len() == 3);
            reveal_with_fuel(seq_less, 2);
        }
    }
}

/// No spelling occurs twice in the column.
pub proof fn lemma_alias_distinct()
    ensures
        forall|i: int, j: int| 0 <= i < 125 && 0 <= j < 125 && i != j ==> alias_column()[i] != alias_column()[j],
{
    lemma_alias_ascending();
    lemma_adjacent_sorted(alias_sorted());
    let pos: Seq<int> = seq![107, 28, 118, 17, 65, 67, 76, 108, 31, 113, 72, 94, 81, 29, 7, 14, 2, 66, 114, 111, 64, 93, 54, 24, 43, 78, 79, 55, 84, 83, 40, 92, 110, 34, 87, 95, 97, 19, 80, 9, 82, 48, 49, 51, 45, 47, 105, 30, 88, 117, 77, 11, 90, 91, 44, 50, 25, 22, 41, 42, 63, 33, 120, 21, 75, 86, 52, 71, 46, 119, 3, 74, 8, 5, 1, 121, 15, 112, 104, 101, 102, 99, 100, 0, 96, 13, 106, 16, 73, 10, 124, 12, 37, 70, 69, 27, 57, 122, 85, 32, 53, 98, 68, 23, 60, 62, 61, 58, 103, 36, 109, 59, 4, 18, 20, 56, 6, 26, 115, 116, 35, 123, 38, 39, 89];
    let perm: Seq<int> = seq![83, 74, 16, 70, 112, 73, 116, 14, 72, 39, 89, 51, 91, 85, 15, 76, 87, 3, 113, 37, 114, 63, 57, 103, 23, 56, 117, 95, 1, 13, 47, 8, 99, 61, 33, 120, 109, 92, 122, 123, 30, 58, 59, 24, 54, 44, 68, 45, 41, 42, 55, 43, 66, 100, 22, 27, 115, 96, 107, 111, 104, 106, 105, 60, 20, 4, 17, 5, 102, 94, 93, 67, 10, 88, 71, 64, 6, 50, 25, 26, 38, 12, 40, 29, 28, 98, 65, 34, 48, 124, 52, 53, 31, 21, 11, 35, 84, 36, 101, 81, 82, 79, 80, 108, 78, 46, 86, 0, 7, 110, 32, 19, 77, 9, 18, 118, 119, 49, 2, 69, 62, 75, 97, 121, 90];
    assert forall|i: int| 0 <= i < 125 implies 0 <= #[trigger] pos[i] < 125 && alias_column()[i] == alias_sorted()[pos[i]]
        && perm[pos[i]] == i by {
        if i == 0 {
        } else if i == 1 {
        } else if i == 2 {
        } else if i == 3 {
        } else if i == 4 {
        } else if i == 5 {
        } else if i == 6 {
        } else if i == 7 {
        } else if i == 8 {
        } else if i == 9 {
        } else if i == 10 {
        } else if i == 11 {
        } else if i == 12 {
        } else if i == 13 {
        } else if i == 14 {
        } else if i == 15 {
        } else if i == 16 {
        } else if i == 17 {
        } else if i == 18 {
        } else if i == 19 {
        } else if i == 20 {
        } else if i == 21 {
        } else if i == 22 {
        } else if i == 23 {
        } else if i == 24 {
        } else if i == 25 {
        } else if i == 26 {
        } else if i == 27 {
        } else if i == 28 {
        } else if i == 29 {
        } else if i == 30 {
        } else if i == 31 {
        } else if i == 32 {
        } else if i == 33 {
        } else if i == 34 {
        } else if i == 35 {
        } else if i == 36 {
        } else if i == 37 {
        } else if i == 38 {
        } else if i == 39 {
        } else if i == 40 {
        } else if i == 41 {
        } else if i == 42 {
        } else if i == 43 {
        } else if i == 44 {
        } else if i == 45 {
        } else if i == 46 {
        } else if i == 47 {
        } else if i == 48 {
        } else if i == 49 {
        } else if i == 50 {
        } else if i == 51 {
        } else if i == 52 {
        } else if i == 53 {
        } else if i == 54 {
        } else if i == 55 {
        } else if i == 56 {
        } else if i == 57 {
        } else if i == 58 {
        } else if i == 59 {
        } else if i == 60 {
        } else if i == 61 {
        } else if i == 62 {
        } else if i == 63 {
        } else if i == 64 {
        } else if i == 65 {
        } else if i == 66 {
        } else if i == 67 {
        } else if i == 68 {
        } else if i == 69 {
        } else if i == 70 {
        } else if i == 71 {
        } else if i == 72 {
        } else if i == 73 {
        } else if i == 74 {
        } else if i == 75 {
        } else if i == 76 {
        } else if i == 77 {
        } else if i == 78 {
        } else if i == 79 {
        } else if i == 80 {
        } else if i == 81 {
        } else if i == 82 {
        } else if i == 83 {
        } else if i == 84 {
        } else if i == 85 {
        } else if i == 86 {
        } else if i == 87 {
        } else if i == 88 {
        } else if i == 89 {
        } else if i == 90 {
        } else if i == 91 {
        } else if i == 92 {
        } else if i == 93 {
        } else if i == 94 {
        } else if i == 95 {
        } else if i == 96 {
        } else if i == 97 {
        } else if i == 98 {
        } else if i == 99 {
        } else if i == 100 {
        } else if i == 101 {
        } else if i == 102 {
        } else if i == 103 {
        } else if i == 104 {
        } else if i == 105 {
        } else if i == 106 {
        } else if i == 107 {
        } else if i == 108 {
        } else if i == 109 {
        } else if i == 110 {
        } else if i == 111 {
        } else if i == 112 {
        } else if i == 113 {
        } else if i == 114 {
        } else if i == 115 {
        } else if i == 116 {
        } else if i == 117 {
        } else if i == 118 {
        } else if i == 119 {
        } else if i == 120 {
        } else if i == 121 {
        } else if i == 122 {
        } else if i == 123 {
        } else if i == 124 {
        }
    }
    lemma_reordered_distinct(alias_column(), alias_sorted(), pos, perm);
}

/// The canonical keys, in table order.
pub open spec fn key_column() -> Seq<Seq<char>> {
    seq![
        "CustomName"@,
        "CustomNameVisible"@,
        "Silent"@,
        "Glowing"@,
        "Invulnerable"@,
        "NoGravity"@,
        "Tags"@,
        "data"@,
        "Pos"@,
        "Motion"@,
        "Rotation"@,
        "Fire"@,
        "Air"@,
        "OnGround"@,
        "PortalCooldown"@,
        "TicksFrozen"@,
        "fall_distance"@,
        "invulnerable_time"@,
        "Team"@,
        "HasVisualFire"@,
        "NoAI"@,
        "Health"@,
        "PersistenceRequired"@,
        "CanPickUpLoot"@,
        "LeftHanded"@,
        "DeathLootTable"@,
        "DeathLootTableSeed"@,
        "drop_chances"@,
        "home_radius"@,
        "home_pos"@,
        "attributes"@,
        "active_effects"@,
        "equipment"@,
        "Brain"@,
        "FallFlying"@,
        "Sleeping"@,
        "sleeping_pos"@,
        "HurtTime"@,
        "DeathTime"@,
        "AbsorptionAmount"@,
        "InLove"@,
        "Age"@,
        "AgeLocked"@,
        "ForcedAge"@,
        "Bred"@,
        "Tame"@,
        "Temper"@,
        "Sitting"@,
        "Crouching"@,
        "Invisible"@,
        "Marker"@,
        "powered"@,
        "ExplosionRadius"@,
        "ExplosionPower"@,
        "ignited"@,
        "IsBaby"@,
        "CanBreakDoors"@,
        "CanJoinRaid"@,
        "Patrolling"@,
        "PatrolLeader"@,
        "SpellTicks"@,
        "Size"@,
        "Color"@,
        "Variant"@,
        "FromBucket"@,
        "Moistness"@,
        "GotFish"@,
        "HasNectar"@,
        "HasStung"@,
        "CollarColor"@,
        "Offers"@,
        "VillagerData"@,
        "Gossips"@,
        "RestocksToday"@,
        "LastRestock"@,
        "FoodLevel"@,
        "Score"@,
        "SelectedItemSlot"@,
        "abilities"@,
        "XpLevel"@,
        "XpP"@,
        "XpTotal"@,
        "XpSeed"@,
        "LastDeathLocation"@,
        "SleepTimer"@,
        "RabbitType"@,
        "PuffState"@,
        "Pumpkin"@,
        "Johnny"@,
        "Trusting"@,
        "IsChickenJockey"@,
        "IsImmuneToZombification"@,
        "IsScreamingGoat"@,
        "HasLeftHorn"@,
        "HasRightHorn"@,
        "EatingHaystack"@,
        "ChestedHorse"@,
        "Strength"@,
        "DespawnDelay"@,
        "sound_variant"@,
        "PickupDelay"@,
        "PierceLevel"@,
        "crit"@,
        "pickup"@,
        "ShotAtAngle"@,
        "BlockState"@,
        "TileEntityData"@,
        "text"@,
        "background"@,
        "alignment"@,
        "line_width"@,
        "text_opacity"@,
        "brightness"@,
        "glow_color_override"@,
        "transformation"@,
        "interpolation_duration"@,
        "teleport_duration"@,
        "view_range"@,
        "shadow_radius"@,
        "shadow_strength"@,
        "width"@,
        "height"@,
        "block_state"@,
        "item_display"@,
        "FireworksItem"@,
    ]
}

/// The same spellings in ascending order.
pub open spec fn key_sorted() -> Seq<Seq<char>> {
    seq![
        "AbsorptionAmount"@,
        "Age"@,
        "AgeLocked"@,
        "Air"@,
        "BlockState"@,
        "Brain"@,
        "Bred"@,
        "CanBreakDoors"@,
        "CanJoinRaid"@,
        "CanPickUpLoot"@,
        "ChestedHorse"@,
        "CollarColor"@,
        "Color"@,
        "Crouching"@,
        "CustomName"@,
        "CustomNameVisible"@,
        "DeathLootTable"@,
        "DeathLootTableSeed"@,
        "DeathTime"@,
        "DespawnDelay"@,
        "EatingHaystack"@,
        "ExplosionPower"@,
        "ExplosionRadius"@,
        "FallFlying"@,
        "Fire"@,
        "FireworksItem"@,
        "FoodLevel"@,
        "ForcedAge"@,
        "FromBucket"@,
        "Glowing"@,
        "Gossips"@,
        "GotFish"@,
        "HasLeftHorn"@,
        "HasNectar"@,
        "HasRightHorn"@,
        "HasStung"@,
        "HasVisualFire"@,
        "Health"@,
        "HurtTime"@,
        "InLove"@,
        "Invisible"@,
        "Invulnerable"@,
        "IsBaby"@,
        "IsChickenJockey"@,
        "IsImmuneToZombification"@,
        "IsScreamingGoat"@,
        "Johnny"@,
        "LastDeathLocation"@,
        "LastRestock"@,
        "LeftHanded"@,
        "Marker"@,
        "Moistness"@,
        "Motion"@,
        "NoAI"@,
        "NoGravity"@,
        "Offers"@,
        "OnGround"@,
        "PatrolLeader"@,
        "Patrolling"@,
        "PersistenceRequired"@,
        "PickupDelay"@,
        "PierceLevel"@,
        "PortalCooldown"@,
        "Pos"@,
        "PuffState"@,
        "Pumpkin"@,
        "RabbitType"@,
        "RestocksToday"@,
        "Rotation"@,
        "Score"@,
        "SelectedItemSlot"@,
        "ShotAtAngle"@,
        "Silent"@,
        "Sitting"@,
        "Size"@,
        "SleepTimer"@,
        "Sleeping"@,
        "SpellTicks"@,
        "Strength"@,
        "Tags"@,
        "Tame"@,
        "Team"@,
        "Temper"@,
        "TicksFrozen"@,
        "TileEntityData"@,
        "Trusting"@,
        "Variant"@,
        "VillagerData"@,
        "XpLevel"@,
        "XpP"@,
        "XpSeed"@,
        "XpTotal"@,
        "abilities"@,
        "active_effects"@,
        "alignment"@,
        "attributes"@,
        "background"@,
        "block_state"@,
        "brightness"@,
        "crit"@,
        "data"@,
        "drop_chances"@,
        "equipment"@,
        "fall_distance"@,
        "glow_color_override"@,
        "height"@,
        "home_pos"@,
        "home_radius"@,
        "ignited"@,
        "interpolation_duration"@,
        "invulnerable_time"@,
        "item_display"@,
        "line_width"@,
        "pickup"@,
        "powered"@,
        "shadow_radius"@,
        "shadow_strength"@,
        "sleeping_pos"@,
        "sound_variant"@,
        "teleport_duration"@,
        "text"@,
        "text_opacity"@,
        "transformation"@,
        "view_range"@,
        "width"@,
    ]
}

proof fn lemma_key_ascending()
    ensures
        forall|k: int| 0 <= k < 125 - 1 ==> #[trigger] seq_less(key_sorted()[k], key_sorted()[k + 1]),
{
    assert forall|k: int| 0 <= k < 125 - 1 implies #[trigger] seq_less(key_sorted()[k], key_sorted()[k + 1]) by {
        if k == 0 {
            reveal_strlit("AbsorptionAmount");
            reveal_strlit("Age");
            assert("AbsorptionAmount"@.len() == 16);
            assert("Age"@.len() == 3);
            reveal_with_fuel(seq_less, 3);
        } else if k == 1 {
            reveal_strlit("Age");
            reveal_strlit("AgeLocked");
            assert("Age"@.len() == 3);
            assert("AgeLocked"@.len() == 9);
            reveal_with_fuel(seq_less, 5);
        } else if k == 2 {
            reveal_strlit("AgeLocked");
            reveal_strlit("Air");
            assert("AgeLocked"@.len() == 9);
            assert("Air"@.len() == 3);
            reveal_with_fuel(seq_less, 3);
        } else if k == 3 {
            reveal_strlit("Air");
            reveal_strlit("BlockState");
            assert("Air"@.len() == 3);
            assert("BlockState"@.len() == 10);
            reveal_with_fuel(seq_less, 2);
        } else if k == 4 {
            reveal_strlit("BlockState");
            reveal_strlit("Brain");
            assert("BlockState"@.len() == 10);
            assert("Brain"@.len() == 5);
            reveal_with_fuel(seq_less, 3);
        } else if k == 5 {
            reveal_strlit("Brain");
            reveal_strlit("Bred");
            assert("Brain"@.len() == 5);
            assert("Bred"@.len() == 4);
            reveal_with_fuel(seq_less, 4);
        } else if k == 6 {
            reveal_strlit("Bred");
            reveal_strlit("CanBreakDoors");
            assert("Bred"@.len() == 4);
            assert("CanBreakDoors"@.len() == 13);
            reveal_with_fuel(seq_less, 2);
        } else if k == 7 {
            reveal_strlit("CanBreakDoors");
            reveal_strlit("CanJoinRaid");
            assert("CanBreakDoors"@.len() == 13);
            assert("CanJoinRaid"@.len() == 11);
            reveal_with_fuel(seq_less, 5);
        } else if k == 8 {
            reveal_strlit("CanJoinRaid");
            reveal_strlit("CanPickUpLoot");
            assert("CanJoinRaid"@.len() == 11);
            assert("CanPickUpLoot"@.len() == 13);
            reveal_with_fuel(seq_less, 5);
        } else if k == 9 {
            reveal_strlit("CanPickUpLoot");
            reveal_strlit("ChestedHorse");
            assert("CanPickUpLoot"@.len() == 13);
            assert("ChestedHorse"@.len() == 12);
            reveal_with_fuel(seq_less, 3);
        } else if k == 10 {
            reveal_strlit("ChestedHorse");
            reveal_strlit("CollarColor");
            assert("ChestedHorse"@.len() == 12);
            assert("CollarColor"@.len() == 11);
            reveal_with_fuel(seq_less, 3);
        } else if k == 11 {
            reveal_strlit("CollarColor");
            reveal_strlit("Color");
            assert("CollarColor"@.len() == 11);
            assert("Color"@.len() == 5);
            reveal_with_fuel(seq_less, 5);
        } else if k == 12 {
            reveal_strlit("Color");
            reveal_strlit("Crouching");
            assert("Color"@.len() == 5);
            assert("Crouching"@.len() == 9);
            reveal_with_fuel(seq_less, 3);
        } else if k == 13 {
            reveal_strlit("Crouching");
            reveal_strlit("CustomName");
            assert("Crouching"@.len() == 9);
            assert("CustomName"@.len() == 10);
            reveal_with_fuel(seq_less, 3);
        } else if k == 14 {
            reveal_strlit("CustomName");
            reveal_strlit("CustomNameVisible");
            assert("CustomName"@.len() == 10);
            assert("CustomNameVisible"@.len() == 17);
            reveal_with_fuel(seq_less, 12);
        } else if k == 15 {
            reveal_strlit("CustomNameVisible");
            reveal_strlit("DeathLootTable");
            assert("CustomNameVisible"@.len() == 17);
            assert("DeathLootTable"@.len() == 14);
            reveal_with_fuel(seq_less, 2);
        } else if k == 16 {
            reveal_strlit("DeathLootTable");
            reveal_strlit("DeathLootTableSeed");
            assert("DeathLootTable"@.len() == 14);
            assert("DeathLootTableSeed"@.len() == 18);
            reveal_with_fuel(seq_less, 16);
        } else if k == 17 {
            reveal_strlit("DeathLootTableSeed");
            reveal_strlit("DeathTime");
            assert("DeathLootTableSeed"@.len() == 18);
            assert("DeathTime"@.len() == 9);
            reveal_with_fuel(seq_less, 7);
        } else if k == 18 {
            reveal_strlit("DeathTime");
            reveal_strlit("DespawnDelay");
            assert("DeathTime"@.len() == 9);
            assert("DespawnDelay"@.len() == 12);
            reveal_with_fuel(seq_less, 4);
        } else if k == 19 {
            reveal_strlit("DespawnDelay");
            reveal_strlit("EatingHaystack");
            assert("DespawnDelay"@.len() == 12);
            assert("EatingHaystack"@.len() == 14);
            reveal_with_fuel(seq_less, 2);
        } else if k == 20 {
            reveal_strlit("EatingHaystack");
            reveal_strlit("ExplosionPower");
            assert("EatingHaystack"@.len() == 14);
            assert("ExplosionPower"@.len() == 14);
            reveal_with_fuel(seq_less, 3);
        } else if k == 21 {
            reveal_strlit("ExplosionPower");
            reveal_strlit("ExplosionRadius");
            assert("ExplosionPower"@.len() == 14);
            assert("ExplosionRadius"@.len() == 15);
            reveal_with_fuel(seq_less, 11);
        } else if k == 22 {
            reveal_strlit("ExplosionRadius");
            reveal_strlit("FallFlying");
            assert("ExplosionRadius"@.len() == 15);
            assert("FallFlying"@.len() == 10);
            reveal_with_fuel(seq_less, 2);
        } else if k == 23 {
            reveal_strlit("FallFlying");
            reveal_strlit("Fire");
            assert("FallFlying"@.len() == 10);
            assert("Fire"@.len() == 4);
            reveal_with_fuel(seq_less, 3);
        } else if k == 24 {
            reveal_strlit("Fire");
            reveal_strlit("FireworksItem");
            assert("Fire"@.len() == 4);
            assert("FireworksItem"@.len() == 13);
            reveal_with_fuel(seq_less, 6);
        } else if k == 25 {
            reveal_strlit("FireworksItem");
            reveal_strlit("FoodLevel");
            assert("FireworksItem"@.len() == 13);
            assert("FoodLevel"@.len() == 9);
            reveal_with_fuel(seq_less, 3);
        } else if k == 26 {
            reveal_strlit("FoodLevel");
            reveal_strlit("ForcedAge");
            assert("FoodLevel"@.len() == 9);
            assert("ForcedAge"@.len() == 9);
            reveal_with_fuel(seq_less, 4);
        } else if k == 27 {
            reveal_strlit("ForcedAge");
            reveal_strlit("FromBucket");
            assert("ForcedAge"@.len() == 9);
            assert("FromBucket"@.len() == 10);
            reveal_with_fuel(seq_less, 3);
        } else if k == 28 {
            reveal_strlit("FromBucket");
            reveal_strlit("Glowing");
            assert("FromBucket"@.len() == 10);
            assert("Glowing"@.len() == 7);
            reveal_with_fuel(seq_less, 2);
        } else if k == 29 {
            reveal_strlit("Glowing");
            reveal_strlit("Gossips");
            assert("Glowing"@.len() == 7);
            assert("Gossips"@.len() == 7);
            reveal_with_fuel(seq_less, 3);
        } else if k == 30 {
            reveal_strlit("Gossips");
            reveal_strlit("GotFish");
            assert("Gossips"@.len() == 7);
            assert("GotFish"@.len() == 7);
            reveal_with_fuel(seq_less, 4);
        } else if k == 31 {
            reveal_strlit("GotFish");
            reveal_strlit("HasLeftHorn");
            assert("GotFish"@.len() == 7);
            assert("HasLeftHorn"@.len() == 11);
            reveal_with_fuel(seq_less, 2);
        } else if k == 32 {
            reveal_strlit("HasLeftHorn");
            reveal_strlit("HasNectar");
            assert("HasLeftHorn"@.len() == 11);
            assert("HasNectar"@.len() == 9);
            reveal_with_fuel(seq_less, 5);
        } else if k == 33 {
            reveal_strlit("HasNectar");
            reveal_strlit("HasRightHorn");
            assert("HasNectar"@.len() == 9);
            assert("HasRightHorn"@.len() == 12);
            reveal_with_fuel(seq_less, 5);
        } else if k == 34 {
            reveal_strlit("HasRightHorn");
            reveal_strlit("HasStung");
            assert("HasRightHorn"@.len() == 12);
            assert("HasStung"@.len() == 8);
            reveal_with_fuel(seq_less, 5);
        } else if k == 35 {
            reveal_strlit("HasStung");
            reveal_strlit("HasVisualFire");
            assert("HasStung"@.len() == 8);
            assert("HasVisualFire"@.len() == 13);
            reveal_with_fuel(seq_less, 5);
        } else if k == 36 {
            reveal_strlit("HasVisualFire");
            reveal_strlit("Health");
            assert("HasVisualFire"@.len() == 13);
            assert("Health"@.len() == 6);
            reveal_with_fuel(seq_less, 3);
        } else if k == 37 {
            reveal_strlit("Health");
            reveal_strlit("HurtTime");
            assert("Health"@.len() == 6);
            assert("HurtTime"@.len() == 8);
            reveal_with_fuel(seq_less, 3);
        } else if k == 38 {
            reveal_strlit("HurtTime");
            reveal_strlit("InLove");
            assert("HurtTime"@.len() == 8);
            assert("InLove"@.len() == 6);
            reveal_with_fuel(seq_less, 2);
        } else if k == 39 {
            reveal_strlit("InLove");
            reveal_strlit("Invisible");
            assert("InLove"@.len() == 6);
            assert("Invisible"@.len() == 9);
            reveal_with_fuel(seq_less, 4);
        } else if k == 40 {
            reveal_strlit("Invisible");
            reveal_strlit("Invulnerable");
            assert("Invisible"@.len() == 9);
            assert("Invulnerable"@.len() == 12);
            reveal_with_fuel(seq_less, 5);
        } else if k == 41 {
            reveal_strlit("Invulnerable");
            reveal_strlit("IsBaby");
            assert("Invulnerable"@.len() == 12);
            assert("IsBaby"@.len() == 6);
            reveal_with_fuel(seq_less, 3);
        } else if k == 42 {
            reveal_strlit("IsBaby");
            reveal_strlit("IsChickenJockey");
            assert("IsBaby"@.len() == 6);
            assert("IsChickenJockey"@.len() == 15);
            reveal_with_fuel(seq_less, 4);
        } else if k == 43 {
            reveal_strlit("IsChickenJockey");
            reveal_strlit("IsImmuneToZombification");
            assert("IsChickenJockey"@.len() == 15);
            assert("IsImmuneToZombification"@.len() == 23);
            reveal_with_fuel(seq_less, 4);
        } else if k == 44 {
            reveal_strlit("IsImmuneToZombification");
            reveal_strlit("IsScreamingGoat");
            assert("IsImmuneToZombification"@.len() == 23);
            assert("IsScreamingGoat"@.len() == 15);
            reveal_with_fuel(seq_less, 4);
        } else if k == 45 {
            reveal_strlit("IsScreamingGoat");
            reveal_strlit("Johnny");
            assert("IsScreamingGoat"@.len() == 15);
            assert("Johnny"@.len() == 6);
            reveal_with_fuel(seq_less, 2);
        } else if k == 46 {
            reveal_strlit("Johnny");
            reveal_strlit("LastDeathLocation");
            assert("Johnny"@.len() == 6);
            assert("LastDeathLocation"@.len() == 17);
            reveal_with_fuel(seq_less, 2);
        } else if k == 47 {
            reveal_strlit("LastDeathLocation");
            reveal_strlit("LastRestock");
            assert("LastDeathLocation"@.len() == 17);
            assert("LastRestock"@.len() == 11);
            reveal_with_fuel(seq_less, 6);
        } else if k == 48 {
            reveal_strlit("LastRestock");
            reveal_strlit("LeftHanded");
            assert("LastRestock"@.len() == 11);
            assert("LeftHanded"@.len() == 10);
            reveal_with_fuel(seq_less, 3);
        } else if k == 49 {
            reveal_strlit("LeftHanded");
            reveal_strlit("Marker");
            assert("LeftHanded"@.len() == 10);
            assert("Marker"@.len() == 6);
            reveal_with_fuel(seq_less, 2);
        } else if k == 50 {
            reveal_strlit("Marker");
            reveal_strlit("Moistness");
            assert("Marker"@.len() == 6);
            assert("Moistness"@.len() == 9);
            reveal_with_fuel(seq_less, 3);
        } else if k == 51 {
            reveal_strlit("Moistness");
            reveal_strlit("Motion");
            assert("Moistness"@.len() == 9);
            assert("Motion"@.len() == 6);
            reveal_with_fuel(seq_less, 4);
        } else if k == 52 {
            reveal_strlit("Motion");
            reveal_strlit("NoAI");
            assert("Motion"@.len() == 6);
            assert("NoAI"@.len() == 4);
            reveal_with_fuel(seq_less, 2);
        } else if k == 53 {
            reveal_strlit("NoAI");
            reveal_strlit("NoGravity");
            assert("NoAI"@.len() == 4);
            assert("NoGravity"@.len() == 9);
            reveal_with_fuel(seq_less, 4);
        } else if k == 54 {
            reveal_strlit("NoGravity");
            reveal_strlit("Offers");
            assert("NoGravity"@.len() == 9);
            assert("Offers"@.len() == 6);
            reveal_with_fuel(seq_less, 2);
        } else if k == 55 {
            reveal_strlit("Offers");
            reveal_strlit("OnGround");
            assert("Offers"@.len() == 6);
            assert("OnGround"@.len() == 8);
            reveal_with_fuel(seq_less, 3);
        } else if k == 56 {
            reveal_strlit("OnGround");
            reveal_strlit("PatrolLeader");
            assert("OnGround"@.len() == 8);
            assert("PatrolLeader"@.len() == 12);
            reveal_with_fuel(seq_less, 2);
        } else if k == 57 {
            reveal_strlit("PatrolLeader");
            reveal_strlit("Patrolling");
            assert("PatrolLeader"@.len() == 12);
            assert("Patrolling"@.len() == 10);
            reveal_with_fuel(seq_less, 8);
        } else if k == 58 {
            reveal_strlit("Patrolling");
            reveal_strlit("PersistenceRequired");
            assert("Patrolling"@.len() == 10);
            assert("PersistenceRequired"@.len() == 19);
            reveal_with_fuel(seq_less, 3);
        } else if k == 59 {
            reveal_strlit("PersistenceRequired");
            reveal_strlit("PickupDelay");
            assert("PersistenceRequired"@.len() == 19);
            assert("PickupDelay"@.len() == 11);
            reveal_with_fuel(seq_less, 3);
        } else if k == 60 {
            reveal_strlit("PickupDelay");
            reveal_strlit("PierceLevel");
            assert("PickupDelay"@.len() == 11);
            assert("PierceLevel"@.len() == 11);
            reveal_with_fuel(seq_less, 4);
        } else if k == 61 {
            reveal_strlit("PierceLevel");
            reveal_strlit("PortalCooldown");
            assert("PierceLevel"@.len() == 11);
            assert("PortalCooldown"@.len() == 14);
            reveal_with_fuel(seq_less, 3);
        } else if k == 62 {
            reveal_strlit("PortalCooldown");
            reveal_strlit("Pos");
            assert("PortalCooldown"@.len() == 14);
            assert("Pos"@.len() == 3);
            reveal_with_fuel(seq_less, 4);
        } else if k == 63 {
            reveal_strlit("Pos");
            reveal_strlit("PuffState");
            assert("Pos"@.len() == 3);
            assert("PuffState"@.len() == 9);
            reveal_with_fuel(seq_less, 3);
        } else if k == 64 {
            reveal_strlit("PuffState");
            reveal_strlit("Pumpkin");
            assert("PuffState"@.len() == 9);
            assert("Pumpkin"@.len() == 7);
            reveal_with_fuel(seq_less, 4);
        } else if k == 65 {
            reveal_strlit("Pumpkin");
            reveal_strlit("RabbitType");
            assert("Pumpkin"@.len() == 7);
            assert("RabbitType"@.len() == 10);
            reveal_with_fuel(seq_less, 2);
        } else if k == 66 {
            reveal_strlit("RabbitType");
            reveal_strlit("RestocksToday");
            assert("RabbitType"@.len() == 10);
            assert("RestocksToday"@.len() == 13);
            reveal_with_fuel(seq_less, 3);
        } else if k == 67 {
            reveal_strlit("RestocksToday");
            reveal_strlit("Rotation");
            assert("RestocksToday"@.len() == 13);
            assert("Rotation"@.len() == 8);
            reveal_with_fuel(seq_less, 3);
        } else if k == 68 {
            reveal_strlit("Rotation");
            reveal_strlit("Score");
            assert("Rotation"@.len() == 8);
            assert("Score"@.len() == 5);
            reveal_with_fuel(seq_less, 2);
        } else if k == 69 {
            reveal_strlit("Score");
            reveal_strlit("SelectedItemSlot");
            assert("Score"@.len() == 5);
            assert("SelectedItemSlot"@.len() == 16);
            reveal_with_fuel(seq_less, 3);
        } else if k == 70 {
            reveal_strlit("SelectedItemSlot");
            reveal_strlit("ShotAtAngle");
            assert("SelectedItemSlot"@.len() == 16);
            assert("ShotAtAngle"@.len() == 11);
            reveal_with_fuel(seq_less, 3);
        } else if k == 71 {
            reveal_strlit("ShotAtAngle");
            reveal_strlit("Silent");
            assert("ShotAtAngle"@.len() == 11);
            assert("Silent"@.len() == 6);
            reveal_with_fuel(seq_less, 3);
        } else if k == 72 {
            reveal_strlit("Silent");
            reveal_strlit("Sitting");
            assert("Silent"@.len() == 6);
            assert("Sitting"@.len() == 7);
            reveal_with_fuel(seq_less, 4);
        } else if k == 73 {
            reveal_strlit("Sitting");
            reveal_strlit("Size");
            assert("Sitting"@.len() == 7);
            assert("Size"@.len() == 4);
            reveal_with_fuel(seq_less, 4);
        } else if k == 74 {
            reveal_strlit("Size");
            reveal_strlit("SleepTimer");
            assert("Size"@.len() == 4);
            assert("SleepTimer"@.len() == 10);
            reveal_with_fuel(seq_less, 3);
        } else if k == 75 {
            reveal_strlit("SleepTimer");
            reveal_strlit("Sleeping");
            assert("SleepTimer"@.len() == 10);
            assert("Sleeping"@.len() == 8);
            reveal_with_fuel(seq_less, 7);
        } else if k == 76 {
            reveal_strlit("Sleeping");
            reveal_strlit("SpellTicks");
            assert("Sleeping"@.len() == 8);
            assert("SpellTicks"@.len() == 10);
            reveal_with_fuel(seq_less, 3);
        } else if k == 77 {
            reveal_strlit("SpellTicks");
            reveal_strlit("Strength");
            assert("SpellTicks"@.len() == 10);
            assert("Strength"@.len() == 8);
            reveal_with_fuel(seq_less, 3);
        } else if k == 78 {
            reveal_strlit("Strength");
            reveal_strlit("Tags");
            assert("Strength"@.len() == 8);
            assert("Tags"@.len() == 4);
            reveal_with_fuel(seq_less, 2);
        } else if k == 79 {
            reveal_strlit("Tags");
            reveal_strlit("Tame");
            assert("Tags"@.len() == 4);
            assert("Tame"@.len() == 4);
            reveal_with_fuel(seq_less, 4);
        } else if k == 80 {
            reveal_strlit("Tame");
            reveal_strlit("Team");
            assert("Tame"@.len() == 4);
            assert("Team"@.len() == 4);
            reveal_with_fuel(seq_less, 3);
        } else if k == 81 {
            reveal_strlit("Team");
            reveal_strlit("Temper");
            assert("Team"@.len() == 4);
            assert("Temper"@.len() == 6);
            reveal_with_fuel(seq_less, 4);
        } else if k == 82 {
            reveal_strlit("Temper");
            reveal_strlit("TicksFrozen");
            assert("Temper"@.len() == 6);
            assert("TicksFrozen"@.len() == 11);
            reveal_with_fuel(seq_less, 3);
        } else if k == 83 {
            reveal_strlit("TicksFrozen");
            reveal_strlit("TileEntityData");
            assert("TicksFrozen"@.len() == 11);
            assert("TileEntityData"@.len() == 14);
            reveal_with_fuel(seq_less, 4);
        } else if k == 84 {
            reveal_strlit("TileEntityData");
            reveal_strlit("Trusting");
            assert("TileEntityData"@.len() == 14);
            assert("Trusting"@.len() == 8);
            reveal_with_fuel(seq_less, 3);
        } else if k == 85 {
            reveal_strlit("Trusting");
            reveal_strlit("Variant");
            assert("Trusting"@.len() == 8);
            assert("Variant"@.len() == 7);
            reveal_with_fuel(seq_less, 2);
        } else if k == 86 {
            reveal_strlit("Variant");
            reveal_strlit("VillagerData");
            assert("Variant"@.len() == 7);
            assert("VillagerData"@.len() == 12);
            reveal_with_fuel(seq_less, 3);
        } else if k == 87 {
            reveal_strlit("VillagerData");
            reveal_strlit("XpLevel");
            assert("VillagerData"@.len() == 12);
            assert("XpLevel"@.len() == 7);
            reveal_with_fuel(seq_less, 2);
        } else if k == 88 {
            reveal_strlit("XpLevel");
            reveal_strlit("XpP");
            assert("XpLevel"@.len() == 7);
            assert("XpP"@.len() == 3);
            reveal_with_fuel(seq_less, 4);
        } else if k == 89 {
            reveal_strlit("XpP");
            reveal_strlit("XpSeed");
            assert("XpP"@.len() == 3);
            assert("XpSeed"@.len() == 6);
            reveal_with_fuel(seq_less, 4);
        } else if k == 90 {
            reveal_strlit("XpSeed");
            reveal_strlit("XpTotal");
            assert("XpSeed"@.len() == 6);
            assert("XpTotal"@.len() == 7);
            reveal_with_fuel(seq_less, 4);
        } else if k == 91 {
            reveal_strlit("XpTotal");
            reveal_strlit("abilities");
            assert("XpTotal"@.len() == 7);
            assert("abilities"@.len() == 9);
            reveal_with_fuel(seq_less, 2);
        } else if k == 92 {
            reveal_strlit("abilities");
            reveal_strlit("active_effects");
            assert("abilities"@.len() == 9);
            assert("active_effects"@.len() == 14);
            reveal_with_fuel(seq_less, 3);
        } else if k == 93 {
            reveal_strlit("active_effects");
            reveal_strlit("alignment");
            assert("active_effects"@.len() == 14);
            assert("alignment"@.len() == 9);
            reveal_with_fuel(seq_less, 3);
        } else if k == 94 {
            reveal_strlit("alignment");
            reveal_strlit("attributes");
            assert("alignment"@.len() == 9);
            assert("attributes"@.len() == 10);
            reveal_with_fuel(seq_less, 3);
        } else if k == 95 {
            reveal_strlit("attributes");
            reveal_strlit("background");
            assert("attributes"@.len() == 10);
            assert("background"@.len() == 10);
            reveal_with_fuel(seq_less, 2);
        } else if k == 96 {
            reveal_strlit("background");
            reveal_strlit("block_state");
            assert("background"@.len() == 10);
            assert("block_state"@.len() == 11);
            reveal_with_fuel(seq_less, 3);
        } else if k == 97 {
            reveal_strlit("block_state");
            reveal_strlit("brightness");
            assert("block_state"@.len() == 11);
            assert("brightness"@.len() == 10);
            reveal_with_fuel(seq_less, 3);
        } else if k == 98 {
            reveal_strlit("brightness");
            reveal_strlit("crit");
            assert("brightness"@.len() == 10);
            assert("crit"@.len() == 4);
            reveal_with_fuel(seq_less, 2);
        } else if k == 99 {
            reveal_strlit("crit");
            reveal_strlit("data");
            assert("crit"@.len() == 4);
            assert("data"@.len() == 4);
            reveal_with_fuel(seq_less, 2);
        } else if k == 100 {
            reveal_strlit("data");
            reveal_strlit("drop_chances");
            assert("data"@.len() == 4);
            assert("drop_chances"@.len() == 12);
            reveal_with_fuel(seq_less, 3);
        } else if k == 101 {
            reveal_strlit("drop_chances");
            reveal_strlit("equipment");
            assert("drop_chances"@.len() == 12);
            assert("equipment"@.len() == 9);
            reveal_with_fuel(seq_less, 2);
        } else if k == 102 {
            reveal_strlit("equipment");
            reveal_strlit("fall_distance");
            assert("equipment"@.len() == 9);
            assert("fall_distance"@.len() == 13);
            reveal_with_fuel(seq_less, 2);
        } else if k == 103 {
            reveal_strlit("fall_distance");
            reveal_strlit("glow_color_override");
            assert("fall_distance"@.len() == 13);
            assert("glow_color_override"@.len() == 19);
            reveal_with_fuel(seq_less, 2);
        } else if k == 104 {
            reveal_strlit("glow_color_override");
            reveal_strlit("height");
            assert("glow_color_override"@.len() == 19);
            assert("height"@.len() == 6);
            reveal_with_fuel(seq_less, 2);
        } else if k == 105 {
            reveal_strlit("height");
            reveal_strlit("home_pos");
            assert("height"@.len() == 6);
            assert("home_pos"@.len() == 8);
            reveal_with_fuel(seq_less, 3);
        } else if k == 106 {
            reveal_strlit("home_pos");
            reveal_strlit("home_radius");
            assert("home_pos"@.len() == 8);
            assert("home_radius"@.len() == 11);
            reveal_with_fuel(seq_less, 7);
        } else if k == 107 {
            reveal_strlit("home_radius");
            reveal_strlit("ignited");
            assert("home_radius"@.len() == 11);
            assert("ignited"@.len() == 7);
            reveal_with_fuel(seq_less, 2);
        } else if k == 108 {
            reveal_strlit("ignited");
            reveal_strlit("interpolation_duration");
            assert("ignited"@.len() == 7);
            assert("interpolation_duration"@.len() == 22);
            reveal_with_fuel(seq_less, 3);
        } else if k == 109 {
            reveal_strlit("interpolation_duration");
            reveal_strlit("invulnerable_time");
            assert("interpolation_duration"@.len() == 22);
            assert("invulnerable_time"@.len() == 17);
            reveal_with_fuel(seq_less, 4);
        } else if k == 110 {
            reveal_strlit("invulnerable_time");
            reveal_strlit("item_display");
            assert("invulnerable_time"@.len() == 17);
            assert("item_display"@.len() == 12);
            reveal_with_fuel(seq_less, 3);
        } else if k == 111 {
            reveal_strlit("item_display");
            reveal_strlit("line_width");
            assert("item_display"@.len() == 12);
            assert("line_width"@.len() == 10);
            reveal_with_fuel(seq_less, 2);
        } else if k == 112 {
            reveal_strlit("line_width");
            reveal_strlit("pickup");
            assert("line_width"@.len() == 10);
            assert("pickup"@.len() == 6);
            reveal_with_fuel(seq_less, 2);
        } else if k == 113 {
            reveal_strlit("pickup");
            reveal_strlit("powered");
            assert("pickup"@.len() == 6);
            assert("powered"@.len() == 7);
            reveal_with_fuel(seq_less, 3);
        } else if k == 114 {
            reveal_strlit("powered");
            reveal_strlit("shadow_radius");
            assert("powered"@.len() == 7);
            assert("shadow_radius"@.len() == 13);
            reveal_with_fuel(seq_less, 2);
        } else if k == 115 {
            reveal_strlit("shadow_radius");
            reveal_strlit("shadow_strength");
            assert("shadow_radius"@.len() == 13);
            assert("shadow_strength"@.len() == 15);
            reveal_with_fuel(seq_less, 9);
        } else if k == 116 {
            reveal_strlit("shadow_strength");
            reveal_strlit("sleeping_pos");
            assert("shadow_strength"@.len() == 15);
            assert("sleeping_pos"@.len() == 12);
            reveal_with_fuel(seq_less, 3);
        } else if k == 117 {
            reveal_strlit("sleeping_pos");
            reveal_strlit("sound_variant");
            assert("sleeping_pos"@.len() == 12);
            assert("sound_variant"@.len() == 13);
            reveal_with_fuel(seq_less, 3);
        } else if k == 118 {
            reveal_strlit("sound_variant");
            reveal_strlit("teleport_duration");
            assert("sound_variant"@.len() == 13);
            assert("teleport_duration"@.len() == 17);
            reveal_with_fuel(seq_less, 2);
        } else if k == 119 {
            reveal_strlit("teleport_duration");
            reveal_strlit("text");
            assert("teleport_duration"@.len() == 17);
            assert("text"@.len() == 4);
            reveal_with_fuel(seq_less, 4);
        } else if k == 120 {
            reveal_strlit("text");
            reveal_strlit("text_opacity");
            assert("text"@.len() == 4);
            assert("text_opacity"@.len() == 12);
            reveal_with_fuel(seq_less, 6);
        } else if k == 121 {
            reveal_strlit("text_opacity");
            reveal_strlit("transformation");
            assert("text_opacity"@.len() == 12);
            assert("transformation"@.len() == 14);
            reveal_with_fuel(seq_less, 3);
        } else if k == 122 {
            reveal_strlit("transformation");
            reveal_strlit("view_range");
            assert("transformation"@.len() == 14);
            assert("view_range"@.len() == 10);
            reveal_with_fuel(seq_less, 2);
        } else if k == 123 {
            reveal_strlit("view_range");
            reveal_strlit("width");
            assert("view_range"@.len() == 10);
            assert("width"@.len() == 5);
            reveal_with_fuel(seq_less, 2);
        }
    }
}

/// No spelling occurs twice in the column.
pub proof fn lemma_key_distinct()
    ensures
        forall|i: int, j: int| 0 <= i < 125 && 0 <= j < 125 && i != j ==> key_column()[i] != key_column()[j],
{
    lemma_key_ascending();
    lemma_adjacent_sorted(key_sorted());
    let pos: Seq<int> = seq![14, 15, 72, 29, 41, 54, 79, 100, 63, 52, 68, 24, 3, 56, 62, 83, 103, 110, 81, 36, 53, 37, 59, 9, 49, 16, 17, 101, 107, 106, 95, 93, 102, 5, 23, 76, 117, 38, 18, 0, 39, 1, 2, 27, 6, 80, 82, 73, 13, 40, 50, 114, 22, 21, 108, 42, 7, 8, 58, 57, 77, 74, 12, 86, 28, 51, 31, 33, 35, 11, 55, 87, 30, 67, 48, 26, 69, 70, 92, 88, 89, 91, 90, 47, 75, 66, 64, 65, 46, 85, 43, 44, 45, 32, 34, 20, 10, 78, 19, 118, 60, 61, 99, 113, 71, 4, 84, 120, 96, 94, 112, 121, 98, 104, 122, 109, 119, 123, 115, 116, 124, 105, 97, 111, 25];
    let perm: Seq<int> = seq![39, 41, 42, 12, 105, 33, 44, 56, 57, 23, 96, 69, 62, 48, 0, 1, 25, 26, 38, 98, 95, 53, 52, 34, 11, 124, 75, 43, 64, 3, 72, 66, 93, 67, 94, 68, 19, 21, 37, 40, 49, 4, 55, 90, 91, 92, 88, 83, 74, 24, 50, 65, 9, 20, 5, 70, 13, 59, 58, 22, 100, 101, 14, 8, 86, 87, 85, 73, 10, 76, 77, 104, 2, 47, 61, 84, 35, 60, 97, 6, 45, 18, 46, 15, 106, 89, 63, 71, 79, 80, 82, 81, 78, 31, 109, 30, 108, 122, 112, 102, 7, 27, 32, 16, 113, 121, 29, 28, 54, 115, 17, 123, 110, 103, 51, 118, 119, 36, 99, 116, 107, 111, 114, 117, 120];
    assert forall|i: int| 0 <= i < 125 implies 0 <= #[trigger] pos[i] < 125 && key_column()[i] == key_sorted()[pos[i]]
        && perm[pos[i]] == i by {
        if i == 0 {
        } else if i == 1 {
        } else if i == 2 {
        } else if i == 3 {
        } else if i == 4 {
        } else if i == 5 {
        } else if i == 6 {
        } else if i == 7 {
        } else if i == 8 {
        } else if i == 9 {
        } else if i == 10 {
        } else if i == 11 {
        } else if i == 12 {
        } else if i == 13 {
        } else if i == 14 {
        } else if i == 15 {
        } else if i == 16 {
        } else if i == 17 {
        } else if i == 18 {
        } else if i == 19 {
        } else if i == 20 {
        } else if i == 21 {
        } else if i == 22 {
        } else if i == 23 {
        } else if i == 24 {
        } else if i == 25 {
        } else if i == 26 {
        } else if i == 27 {
        } else if i == 28 {
        } else if i == 29 {
        } else if i == 30 {
        } else if i == 31 {
        } else if i == 32 {
        } else if i == 33 {
        } else if i == 34 {
        } else if i == 35 {
        } else if i == 36 {
        } else if i == 37 {
        } else if i == 38 {
        } else if i == 39 {
        } else if i == 40 {
        } else if i == 41 {
        } else if i == 42 {
        } else if i == 43 {
        } else if i == 44 {
        } else if i == 45 {
        } else if i == 46 {
        } else if i == 47 {
        } else if i == 48 {
        } else if i == 49 {
        } else if i == 50 {
        } else if i == 51 {
        } else if i == 52 {
        } else if i == 53 {
        } else if i == 54 {
        } else if i == 55 {
        } else if i == 56 {
        } else if i == 57 {
        } else if i == 58 {
        } else if i == 59 {
        } else if i == 60 {
        } else if i == 61 {
        } else if i == 62 {
        } else if i == 63 {
        } else if i == 64 {
        } else if i == 65 {
        } else if i == 66 {
        } else if i == 67 {
        } else if i == 68 {
        } else if i == 69 {
        } else if i == 70 {
        } else if i == 71 {
        } else if i == 72 {
        } else if i == 73 {
        } else if i == 74 {
        } else if i == 75 {
        } else if i == 76 {
        } else if i == 77 {
        } else if i == 78 {
        } else if i == 79 {
        } else if i == 80 {
        } else if i == 81 {
        } else if i == 82 {
        } else if i == 83 {
        } else if i == 84 {
        } else if i == 85 {
        } else if i == 86 {
        } else if i == 87 {
        } else if i == 88 {
        } else if i == 89 {
        } else if i == 90 {
        } else if i == 91 {
        } else if i == 92 {
        } else if i == 93 {
        } else if i == 94 {
        } else if i == 95 {
        } else if i == 96 {
        } else if i == 97 {
        } else if i == 98 {
        } else if i == 99 {
        } else if i == 100 {
        } else if i == 101 {
        } else if i == 102 {
        } else if i == 103 {
        } else if i == 104 {
        } else if i == 105 {
        } else if i == 106 {
        } else if i == 107 {
        } else if i == 108 {
        } else if i == 109 {
        } else if i == 110 {
        } else if i == 111 {
        } else if i == 112 {
        } else if i == 113 {
        } else if i == 114 {
        } else if i == 115 {
        } else if i == 116 {
        } else if i == 117 {
        } else if i == 118 {
        } else if i == 119 {
        } else if i == 120 {
        } else if i == 121 {
        } else if i == 122 {
        } else if i == 123 {
        } else if i == 124 {
        }
    }
    lemma_reordered_distinct(key_column(), key_sorted(), pos, perm);
}

/// The columns are those of the alias table.
pub proof fn lemma_columns()
    ensures
        alias_table().len() == 125,
        forall|i: int| 0 <= i < 125 ==> #[trigger] alias_table()[i] == (alias_column()[i], key_column()[i]),
{
    assert(alias_table().len() == 125);
    assert forall|i: int| 0 <= i < 125 implies #[trigger] alias_table()[i] == (alias_column()[i], key_column()[i]) by {
    }
}

} // verus!
