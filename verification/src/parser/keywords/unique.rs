//! Every keyword spelling, English or Chinese, is unique across the table.

use vstd::prelude::*;
use crate::sorted::{seq_less, lemma_adjacent_sorted, lemma_reordered_distinct};
use super::table::keyword_table;
use super::values::{first_english, keyword_alias_spec, word_matches_spec};

verus! {

broadcast use vstd::string::group_string_axioms;

/// Every keyword spelling: English then Chinese, keyword by keyword.
pub open spec fn spelling_column() -> Seq<Seq<char>> {
    seq![
        "with"@,
        "用"@,
        "macro"@,
        "宏"@,
        "item_predicate"@,
        "物品谓词"@,
        "loot"@,
        "战利品"@,
        "recipe"@,
        "配方"@,
        "reload"@,
        "重载"@,
        "datapack"@,
        "数据包"@,
        "kill"@,
        "杀死"@,
        "tag"@,
        "标签"@,
        "enchant"@,
        "施加附魔"@,
        "damage"@,
        "伤害"@,
        "attribute"@,
        "实体属性"@,
        "ride"@,
        "乘骑"@,
        "rotate"@,
        "旋转"@,
        "spreadplayers"@,
        "分散实体"@,
        "spectate"@,
        "旁观"@,
        "swing"@,
        "挥动"@,
        "trigger"@,
        "触发"@,
        "gamemode"@,
        "游戏模式"@,
        "defaultgamemode"@,
        "默认游戏模式"@,
        "difficulty"@,
        "难度"@,
        "spawnpoint"@,
        "设置出生点"@,
        "setworldspawn"@,
        "设置世界出生点"@,
        "team"@,
        "队伍"@,
        "waypoint"@,
        "路径点"@,
        "list"@,
        "在线玩家"@,
        "namespace"@,
        "命名空间"@,
        "score"@,
        "计分"@,
        "objective"@,
        "目标"@,
        "scoreboard"@,
        "计分板"@,
        "query"@,
        "查询"@,
        "entity"@,
        "实体"@,
        "data_slot"@,
        "数据槽"@,
        "item_data"@,
        "物品数据"@,
        "entity_data"@,
        "实体数据"@,
        "item"@,
        "物品"@,
        "item_stack"@,
        "物品堆"@,
        "item_list"@,
        "物品列表"@,
        "storage"@,
        "存储"@,
        "resource"@,
        "资源"@,
        "advancement"@,
        "进度"@,
        "predicate"@,
        "谓词"@,
        "fn"@,
        "函数"@,
        "fn_tag"@,
        "函数标签"@,
        "let"@,
        "令"@,
        "return"@,
        "返回"@,
        "fail"@,
        "失败"@,
        "if"@,
        "如果"@,
        "unless"@,
        "除非"@,
        "store"@,
        "存值"@,
        "bossbar"@,
        "Boss栏"@,
        "else"@,
        "否则"@,
        "while"@,
        "当"@,
        "for"@,
        "对于"@,
        "in"@,
        "在"@,
        "break"@,
        "跳出"@,
        "continue"@,
        "跳过"@,
        "import"@,
        "导入"@,
        "export"@,
        "公开"@,
        "as"@,
        "作为"@,
        "each"@,
        "遍历"@,
        "call"@,
        "调用"@,
        "schedule"@,
        "调度"@,
        "after"@,
        "延后"@,
        "append"@,
        "追加"@,
        "replace"@,
        "替换"@,
        "give"@,
        "给予"@,
        "origin"@,
        "投掷者"@,
        "in_dimension"@,
        "在维度"@,
        "spawn"@,
        "召唤"@,
        "self"@,
        "自身"@,
        "message"@,
        "消息"@,
        "sound"@,
        "声音"@,
        "effect"@,
        "效果"@,
        "xp"@,
        "经验"@,
        "clear"@,
        "清除"@,
        "stopwatch"@,
        "秒表"@,
        "run"@,
        "原生命令"@,
        "execute"@,
        "执行"@,
        "contents"@,
        "内容"@,
        "set_block"@,
        "设置方块"@,
        "fill"@,
        "填充"@,
        "fill_biome"@,
        "填充生物群系"@,
        "clone"@,
        "复制"@,
        "place"@,
        "放置"@,
        "forceload"@,
        "强制加载"@,
        "time"@,
        "时间"@,
        "weather"@,
        "天气"@,
        "gamerule"@,
        "游戏规则"@,
        "worldborder"@,
        "世界边界"@,
        "locate"@,
        "定位"@,
        "teleport"@,
        "传送"@,
        "pos"@,
        "坐标"@,
        "block_pos"@,
        "方块坐标"@,
        "vec3"@,
        "精确坐标"@,
        "vec2"@,
        "平面坐标"@,
        "rotation"@,
        "朝向"@,
        "column"@,
        "列坐标"@,
        "block_state"@,
        "方块状态"@,
        "nbt"@,
        "数据"@,
        "text"@,
        "文本"@,
        "translate"@,
        "翻译"@,
        "keybind"@,
        "按键"@,
        "selector"@,
        "选择器"@,
        "count"@,
        "计数"@,
        "random"@,
        "随机"@,
        "compute"@,
        "计算"@,
        "data"@,
        "数据操作"@,
        "block"@,
        "方块"@,
        "blocks"@,
        "区域方块"@,
        "biome"@,
        "生物群系"@,
        "loaded"@,
        "已加载"@,
        "dimension"@,
        "维度"@,
        "items"@,
        "物品条件"@,
        "slots"@,
        "槽位条件"@,
        "function"@,
        "函数条件"@,
    ]
}

/// The same spellings in ascending order.
pub open spec fn spelling_sorted() -> Seq<Seq<char>> {
    seq![
        "Boss栏"@,
        "advancement"@,
        "after"@,
        "append"@,
        "as"@,
        "attribute"@,
        "biome"@,
        "block"@,
        "block_pos"@,
        "block_state"@,
        "blocks"@,
        "bossbar"@,
        "break"@,
        "call"@,
        "clear"@,
        "clone"@,
        "column"@,
        "compute"@,
        "contents"@,
        "continue"@,
        "count"@,
        "damage"@,
        "data"@,
        "data_slot"@,
        "datapack"@,
        "defaultgamemode"@,
        "difficulty"@,
        "dimension"@,
        "each"@,
        "effect"@,
        "else"@,
        "enchant"@,
        "entity"@,
        "entity_data"@,
        "execute"@,
        "export"@,
        "fail"@,
        "fill"@,
        "fill_biome"@,
        "fn"@,
        "fn_tag"@,
        "for"@,
        "forceload"@,
        "function"@,
        "gamemode"@,
        "gamerule"@,
        "give"@,
        "if"@,
        "import"@,
        "in"@,
        "in_dimension"@,
        "item"@,
        "item_data"@,
        "item_list"@,
        "item_predicate"@,
        "item_stack"@,
        "items"@,
        "keybind"@,
        "kill"@,
        "let"@,
        "list"@,
        "loaded"@,
        "locate"@,
        "loot"@,
        "macro"@,
        "message"@,
        "namespace"@,
        "nbt"@,
        "objective"@,
        "origin"@,
        "place"@,
        "pos"@,
        "predicate"@,
        "query"@,
        "random"@,
        "recipe"@,
        "reload"@,
        "replace"@,
        "resource"@,
        "return"@,
        "ride"@,
        "rotate"@,
        "rotation"@,
        "run"@,
        "schedule"@,
        "score"@,
        "scoreboard"@,
        "selector"@,
        "self"@,
        "set_block"@,
        "setworldspawn"@,
        "slots"@,
        "sound"@,
        "spawn"@,
        "spawnpoint"@,
        "spectate"@,
        "spreadplayers"@,
        "stopwatch"@,
        "storage"@,
        "store"@,
        "swing"@,
        "tag"@,
        "team"@,
        "teleport"@,
        "text"@,
        "time"@,
        "translate"@,
        "trigger"@,
        "unless"@,
        "vec2"@,
        "vec3"@,
        "waypoint"@,
        "weather"@,
        "while"@,
        "with"@,
        "worldborder"@,
        "xp"@,
        "世界边界"@,
        "乘骑"@,
        "令"@,
        "传送"@,
        "伤害"@,
        "作为"@,
        "公开"@,
        "内容"@,
        "函数"@,
        "函数条件"@,
        "函数标签"@,
        "分散实体"@,
        "列坐标"@,
        "区域方块"@,
        "原生命令"@,
        "召唤"@,
        "否则"@,
        "命名空间"@,
        "在"@,
        "在线玩家"@,
        "在维度"@,
        "坐标"@,
        "填充"@,
        "填充生物群系"@,
        "声音"@,
        "复制"@,
        "天气"@,
        "失败"@,
        "如果"@,
        "存值"@,
        "存储"@,
        "宏"@,
        "定位"@,
        "实体"@,
        "实体属性"@,
        "实体数据"@,
        "对于"@,
        "导入"@,
        "已加载"@,
        "平面坐标"@,
        "延后"@,
        "强制加载"@,
        "当"@,
        "战利品"@,
        "执行"@,
        "投掷者"@,
        "按键"@,
        "挥动"@,
        "放置"@,
        "效果"@,
        "数据"@,
        "数据包"@,
        "数据操作"@,
        "数据槽"@,
        "文本"@,
        "方块"@,
        "方块坐标"@,
        "方块状态"@,
        "施加附魔"@,
        "旁观"@,
        "旋转"@,
        "时间"@,
        "替换"@,
        "朝向"@,
        "杀死"@,
        "查询"@,
        "标签"@,
        "槽位条件"@,
        "消息"@,
        "清除"@,
        "游戏模式"@,
        "游戏规则"@,
        "物品"@,
        "物品列表"@,
        "物品堆"@,
        "物品数据"@,
        "物品条件"@,
        "物品谓词"@,
        "生物群系"@,
        "用"@,
        "目标"@,
        "秒表"@,
        "精确坐标"@,
        "经验"@,
        "给予"@,
        "维度"@,
        "翻译"@,
        "自身"@,
        "触发"@,
        "计分"@,
        "计分板"@,
        "计数"@,
        "计算"@,
        "设置世界出生点"@,
        "设置出生点"@,
        "设置方块"@,
        "调度"@,
        "调用"@,
        "谓词"@,
        "资源"@,
        "路径点"@,
        "跳出"@,
        "跳过"@,
        "返回"@,
        "进度"@,
        "追加"@,
        "选择器"@,
        "遍历"@,
        "配方"@,
        "重载"@,
        "队伍"@,
        "除非"@,
        "随机"@,
        "难度"@,
        "默认游戏模式"@,
    ]
}

proof fn lemma_spelling_ascending()
    ensures
        forall|k: int| 0 <= k < 232 - 1 ==> #[trigger] seq_less(spelling_sorted()[k], spelling_sorted()[k + 1]),
{
    assert forall|k: int| 0 <= k < 232 - 1 implies #[trigger] seq_less(spelling_sorted()[k], spelling_sorted()[k + 1]) by {
        if k == 0 {
            reveal_strlit("Boss栏");
            reveal_strlit("advancement");
            assert("Boss栏"@.len() == 5);
            assert("advancement"@.len() == 11);
            reveal_with_fuel(seq_less, 2);
        } else if k == 1 {
            reveal_strlit("advancement");
            reveal_strlit("after");
            assert("advancement"@.len() == 11);
            assert("after"@.len() == 5);
            reveal_with_fuel(seq_less, 3);
        } else if k == 2 {
            reveal_strlit("after");
            reveal_strlit("append");
            assert("after"@.len() == 5);
            assert("append"@.len() == 6);
            reveal_with_fuel(seq_less, 3);
        } else if k == 3 {
            reveal_strlit("append");
            reveal_strlit("as");
            assert("append"@.len() == 6);
            assert("as"@.len() == 2);
            reveal_with_fuel(seq_less, 3);
        } else if k == 4 {
            reveal_strlit("as");
            reveal_strlit("attribute");
            assert("as"@.len() == 2);
            assert("attribute"@.len() == 9);
            reveal_with_fuel(seq_less, 3);
        } else if k == 5 {
            reveal_strlit("attribute");
            reveal_strlit("biome");
            assert("attribute"@.len() == 9);
            assert("biome"@.len() == 5);
            reveal_with_fuel(seq_less, 2);
        } else if k == 6 {
            reveal_strlit("biome");
            reveal_strlit("block");
            assert("biome"@.len() == 5);
            assert("block"@.len() == 5);
            reveal_with_fuel(seq_less, 3);
        } else if k == 7 {
            reveal_strlit("block");
            reveal_strlit("block_pos");
            assert("block"@.len() == 5);
            assert("block_pos"@.len() == 9);
            reveal_with_fuel(seq_less, 7);
        } else if k == 8 {
            reveal_strlit("block_pos");
            reveal_strlit("block_state");
            assert("block_pos"@.len() == 9);
            assert("block_state"@.len() == 11);
            reveal_with_fuel(seq_less, 8);
        } else if k == 9 {
            reveal_strlit("block_state");
            reveal_strlit("blocks");
            assert("block_state"@.len() == 11);
            assert("blocks"@.len() == 6);
            reveal_with_fuel(seq_less, 7);
        } else if k == 10 {
            reveal_strlit("blocks");
            reveal_strlit("bossbar");
            assert("blocks"@.len() == 6);
            assert("bossbar"@.len() == 7);
            reveal_with_fuel(seq_less, 3);
        } else if k == 11 {
            reveal_strlit("bossbar");
            reveal_strlit("break");
            assert("bossbar"@.len() == 7);
            assert("break"@.len() == 5);
            reveal_with_fuel(seq_less, 3);
        } else if k == 12 {
            reveal_strlit("break");
            reveal_strlit("call");
            assert("break"@.len() == 5);
            assert("call"@.len() == 4);
            reveal_with_fuel(seq_less, 2);
        } else if k == 13 {
            reveal_strlit("call");
            reveal_strlit("clear");
            assert("call"@.len() == 4);
            assert("clear"@.len() == 5);
            reveal_with_fuel(seq_less, 3);
        } else if k == 14 {
            reveal_strlit("clear");
            reveal_strlit("clone");
            assert("clear"@.len() == 5);
            assert("clone"@.len() == 5);
            reveal_with_fuel(seq_less, 4);
        } else if k == 15 {
            reveal_strlit("clone");
            reveal_strlit("column");
            assert("clone"@.len() == 5);
            assert("column"@.len() == 6);
            reveal_with_fuel(seq_less, 3);
        } else if k == 16 {
            reveal_strlit("column");
            reveal_strlit("compute");
            assert("column"@.len() == 6);
            assert("compute"@.len() == 7);
            reveal_with_fuel(seq_less, 4);
        } else if k == 17 {
            reveal_strlit("compute");
            reveal_strlit("contents");
            assert("compute"@.len() == 7);
            assert("contents"@.len() == 8);
            reveal_with_fuel(seq_less, 4);
        } else if k == 18 {
            reveal_strlit("contents");
            reveal_strlit("continue");
            assert("contents"@.len() == 8);
            assert("continue"@.len() == 8);
            reveal_with_fuel(seq_less, 6);
        } else if k == 19 {
            reveal_strlit("continue");
            reveal_strlit("count");
            assert("continue"@.len() == 8);
            assert("count"@.len() == 5);
            reveal_with_fuel(seq_less, 4);
        } else if k == 20 {
            reveal_strlit("count");
            reveal_strlit("damage");
            assert("count"@.len() == 5);
            assert("damage"@.len() == 6);
            reveal_with_fuel(seq_less, 2);
        } else if k == 21 {
            reveal_strlit("damage");
            reveal_strlit("data");
            assert("damage"@.len() == 6);
            assert("data"@.len() == 4);
            reveal_with_fuel(seq_less, 4);
        } else if k == 22 {
            reveal_strlit("data");
            reveal_strlit("data_slot");
            assert("data"@.len() == 4);
            assert("data_slot"@.len() == 9);
            reveal_with_fuel(seq_less, 6);
        } else if k == 23 {
            reveal_strlit("data_slot");
            reveal_strlit("datapack");
            assert("data_slot"@.len() == 9);
            assert("datapack"@.len() == 8);
            reveal_with_fuel(seq_less, 6);
        } else if k == 24 {
            reveal_strlit("datapack");
            reveal_strlit("defaultgamemode");
            assert("datapack"@.len() == 8);
            assert("defaultgamemode"@.len() == 15);
            reveal_with_fuel(seq_less, 3);
        } else if k == 25 {
            reveal_strlit("defaultgamemode");
            reveal_strlit("difficulty");
            assert("defaultgamemode"@.len() == 15);
            assert("difficulty"@.len() == 10);
            reveal_with_fuel(seq_less, 3);
        } else if k == 26 {
            reveal_strlit("difficulty");
            reveal_strlit("dimension");
            assert("difficulty"@.len() == 10);
            assert("dimension"@.len() == 9);
            reveal_with_fuel(seq_less, 4);
        } else if k == 27 {
            reveal_strlit("dimension");
            reveal_strlit("each");
            assert("dimension"@.len() == 9);
            assert("each"@.len() == 4);
            reveal_with_fuel(seq_less, 2);
        } else if k == 28 {
            reveal_strlit("each");
            reveal_strlit("effect");
            assert("each"@.len() == 4);
            assert("effect"@.len() == 6);
            reveal_with_fuel(seq_less, 3);
        } else if k == 29 {
            reveal_strlit("effect");
            reveal_strlit("else");
            assert("effect"@.len() == 6);
            assert("else"@.len() == 4);
            reveal_with_fuel(seq_less, 3);
        } else if k == 30 {
            reveal_strlit("else");
            reveal_strlit("enchant");
            assert("else"@.len() == 4);
            assert("enchant"@.len() == 7);
            reveal_with_fuel(seq_less, 3);
        } else if k == 31 {
            reveal_strlit("enchant");
            reveal_strlit("entity");
            assert("enchant"@.len() == 7);
            assert("entity"@.len() == 6);
            reveal_with_fuel(seq_less, 4);
        } else if k == 32 {
            reveal_strlit("entity");
            reveal_strlit("entity_data");
            assert("entity"@.len() == 6);
            assert("entity_data"@.len() == 11);
            reveal_with_fuel(seq_less, 8);
        } else if k == 33 {
            reveal_strlit("entity_data");
            reveal_strlit("execute");
            assert("entity_data"@.len() == 11);
            assert("execute"@.len() == 7);
            reveal_with_fuel(seq_less, 3);
        } else if k == 34 {
            reveal_strlit("execute");
            reveal_strlit("export");
            assert("execute"@.len() == 7);
            assert("export"@.len() == 6);
            reveal_with_fuel(seq_less, 4);
        } else if k == 35 {
            reveal_strlit("export");
            reveal_strlit("fail");
            assert("export"@.len() == 6);
            assert("fail"@.len() == 4);
            reveal_with_fuel(seq_less, 2);
        } else if k == 36 {
            reveal_strlit("fail");
            reveal_strlit("fill");
            assert("fail"@.len() == 4);
            assert("fill"@.len() == 4);
            reveal_with_fuel(seq_less, 3);
        } else if k == 37 {
            reveal_strlit("fill");
            reveal_strlit("fill_biome");
            assert("fill"@.len() == 4);
            assert("fill_biome"@.len() == 10);
            reveal_with_fuel(seq_less, 6);
        } else if k == 38 {
            reveal_strlit("fill_biome");
            reveal_strlit("fn");
            assert("fill_biome"@.len() == 10);
            assert("fn"@.len() == 2);
            reveal_with_fuel(seq_less, 3);
        } else if k == 39 {
            reveal_strlit("fn");
            reveal_strlit("fn_tag");
            assert("fn"@.len() == 2);
            assert("fn_tag"@.len() == 6);
            reveal_with_fuel(seq_less, 4);
        } else if k == 40 {
            reveal_strlit("fn_tag");
            reveal_strlit("for");
            assert("fn_tag"@.len() == 6);
            assert("for"@.len() == 3);
            reveal_with_fuel(seq_less, 3);
        } else if k == 41 {
            reveal_strlit("for");
            reveal_strlit("forceload");
            assert("for"@.len() == 3);
            assert("forceload"@.len() == 9);
            reveal_with_fuel(seq_less, 5);
        } else if k == 42 {
            reveal_strlit("forceload");
            reveal_strlit("function");
            assert("forceload"@.len() == 9);
            assert("function"@.len() == 8);
            reveal_with_fuel(seq_less, 3);
        } else if k == 43 {
            reveal_strlit("function");
            reveal_strlit("gamemode");
            assert("function"@.len() == 8);
            assert("gamemode"@.len() == 8);
            reveal_with_fuel(seq_less, 2);
        } else if k == 44 {
            reveal_strlit("gamemode");
            reveal_strlit("gamerule");
            assert("gamemode"@.len() == 8);
            assert("gamerule"@.len() == 8);
            reveal_with_fuel(seq_less, 6);
        } else if k == 45 {
            reveal_strlit("gamerule");
            reveal_strlit("give");
            assert("gamerule"@.len() == 8);
            assert("give"@.len() == 4);
            reveal_with_fuel(seq_less, 3);
        } else if k == 46 {
            reveal_strlit("give");
            reveal_strlit("if");
            assert("give"@.len() == 4);
            assert("if"@.len() == 2);
            reveal_with_fuel(seq_less, 2);
        } else if k == 47 {
            reveal_strlit("if");
            reveal_strlit("import");
            assert("if"@.len() == 2);
            assert("import"@.len() == 6);
            reveal_with_fuel(seq_less, 3);
        } else if k == 48 {
            reveal_strlit("import");
            reveal_strlit("in");
            assert("import"@.len() == 6);
            assert("in"@.len() == 2);
            reveal_with_fuel(seq_less, 3);
        } else if k == 49 {
            reveal_strlit("in");
            reveal_strlit("in_dimension");
            assert("in"@.len() == 2);
            assert("in_dimension"@.len() == 12);
            reveal_with_fuel(seq_less, 4);
        } else if k == 50 {
            reveal_strlit("in_dimension");
            reveal_strlit("item");
            assert("in_dimension"@.len() == 12);
            assert("item"@.len() == 4);
            reveal_with_fuel(seq_less, 3);
        } else if k == 51 {
            reveal_strlit("item");
            reveal_strlit("item_data");
            assert("item"@.len() == 4);
            assert("item_data"@.len() == 9);
            reveal_with_fuel(seq_less, 6);
        } else if k == 52 {
            reveal_strlit("item_data");
            reveal_strlit("item_list");
            assert("item_data"@.len() == 9);
            assert("item_list"@.len() == 9);
            reveal_with_fuel(seq_less, 7);
        } else if k == 53 {
            reveal_strlit("item_list");
            reveal_strlit("item_predicate");
            assert("item_list"@.len() == 9);
            assert("item_predicate"@.len() == 14);
            reveal_with_fuel(seq_less, 7);
        } else if k == 54 {
            reveal_strlit("item_predicate");
            reveal_strlit("item_stack");
            assert("item_predicate"@.len() == 14);
            assert("item_stack"@.len() == 10);
            reveal_with_fuel(seq_less, 7);
        } else if k == 55 {
            reveal_strlit("item_stack");
            reveal_strlit("items");
            assert("item_stack"@.len() == 10);
            assert("items"@.len() == 5);
            reveal_with_fuel(seq_less, 6);
        } else if k == 56 {
            reveal_strlit("items");
            reveal_strlit("keybind");
            assert("items"@.len() == 5);
            assert("keybind"@.len() == 7);
            reveal_with_fuel(seq_less, 2);
        } else if k == 57 {
            reveal_strlit("keybind");
            reveal_strlit("kill");
            assert("keybind"@.len() == 7);
            assert("kill"@.len() == 4);
            reveal_with_fuel(seq_less, 3);
        } else if k == 58 {
            reveal_strlit("kill");
            reveal_strlit("let");
            assert("kill"@.len() == 4);
            assert("let"@.len() == 3);
            reveal_with_fuel(seq_less, 2);
        } else if k == 59 {
            reveal_strlit("let");
            reveal_strlit("list");
            assert("let"@.len() == 3);
            assert("list"@.len() == 4);
            reveal_with_fuel(seq_less, 3);
        } else if k == 60 {
            reveal_strlit("list");
            reveal_strlit("loaded");
            assert("list"@.len() == 4);
            assert("loaded"@.len() == 6);
            reveal_with_fuel(seq_less, 3);
        } else if k == 61 {
            reveal_strlit("loaded");
            reveal_strlit("locate");
            assert("loaded"@.len() == 6);
            assert("locate"@.len() == 6);
            reveal_with_fuel(seq_less, 4);
        } else if k == 62 {
            reveal_strlit("locate");
            reveal_strlit("loot");
            assert("locate"@.len() == 6);
            assert("loot"@.len() == 4);
            reveal_with_fuel(seq_less, 4);
        } else if k == 63 {
            reveal_strlit("loot");
            reveal_strlit("macro");
            assert("loot"@.len() == 4);
            assert("macro"@.len() == 5);
            reveal_with_fuel(seq_less, 2);
        } else if k == 64 {
            reveal_strlit("macro");
            reveal_strlit("message");
            assert("macro"@.len() == 5);
            assert("message"@.len() == 7);
            reveal_with_fuel(seq_less, 3);
        } else if k == 65 {
            reveal_strlit("message");
            reveal_strlit("namespace");
            assert("message"@.len() == 7);
            assert("namespace"@.len() == 9);
            reveal_with_fuel(seq_less, 2);
        } else if k == 66 {
            reveal_strlit("namespace");
            reveal_strlit("nbt");
            assert("namespace"@.len() == 9);
            assert("nbt"@.len() == 3);
            reveal_with_fuel(seq_less, 3);
        } else if k == 67 {
            reveal_strlit("nbt");
            reveal_strlit("objective");
            assert("nbt"@.len() == 3);
            assert("objective"@.len() == 9);
            reveal_with_fuel(seq_less, 2);
        } else if k == 68 {
            reveal_strlit("objective");
            reveal_strlit("origin");
            assert("objective"@.len() == 9);
            assert("origin"@.len() == 6);
            reveal_with_fuel(seq_less, 3);
        } else if k == 69 {
            reveal_strlit("origin");
            reveal_strlit("place");
            assert("origin"@.len() == 6);
            assert("place"@.len() == 5);
            reveal_with_fuel(seq_less, 2);
        } else if k == 70 {
            reveal_strlit("place");
            reveal_strlit("pos");
            assert("place"@.len() == 5);
            assert("pos"@.len() == 3);
            reveal_with_fuel(seq_less, 3);
        } else if k == 71 {
            reveal_strlit("pos");
            reveal_strlit("predicate");
            assert("pos"@.len() == 3);
            assert("predicate"@.len() == 9);
            reveal_with_fuel(seq_less, 3);
        } else if k == 72 {
            reveal_strlit("predicate");
            reveal_strlit("query");
            assert("predicate"@.len() == 9);
            assert("query"@.len() == 5);
            reveal_with_fuel(seq_less, 2);
        } else if k == 73 {
            reveal_strlit("query");
            reveal_strlit("random");
            assert("query"@.len() == 5);
            assert("random"@.len() == 6);
            reveal_with_fuel(seq_less, 2);
        } else if k == 74 {
            reveal_strlit("random");
            reveal_strlit("recipe");
            assert("random"@.len() == 6);
            assert("recipe"@.len() == 6);
            reveal_with_fuel(seq_less, 3);
        } else if k == 75 {
            reveal_strlit("recipe");
            reveal_strlit("reload");
            assert("recipe"@.len() == 6);
            assert("reload"@.len() == 6);
            reveal_with_fuel(seq_less, 4);
        } else if k == 76 {
            reveal_strlit("reload");
            reveal_strlit("replace");
            assert("reload"@.len() == 6);
            assert("replace"@.len() == 7);
            reveal_with_fuel(seq_less, 4);
        } else if k == 77 {
            reveal_strlit("replace");
            reveal_strlit("resource");
            assert("replace"@.len() == 7);
            assert("resource"@.len() == 8);
            reveal_with_fuel(seq_less, 4);
        } else if k == 78 {
            reveal_strlit("resource");
            reveal_strlit("return");
            assert("resource"@.len() == 8);
            assert("return"@.len() == 6);
            reveal_with_fuel(seq_less, 4);
        } else if k == 79 {
            reveal_strlit("return");
            reveal_strlit("ride");
            assert("return"@.len() == 6);
            assert("ride"@.len() == 4);
            reveal_with_fuel(seq_less, 3);
        } else if k == 80 {
            reveal_strlit("ride");
            reveal_strlit("rotate");
            assert("ride"@.len() == 4);
            assert("rotate"@.len() == 6);
            reveal_with_fuel(seq_less, 3);
        } else if k == 81 {
            reveal_strlit("rotate");
            reveal_strlit("rotation");
            assert("rotate"@.len() == 6);
            assert("rotation"@.len() == 8);
            reveal_with_fuel(seq_less, 7);
        } else if k == 82 {
            reveal_strlit("rotation");
            reveal_strlit("run");
            assert("rotation"@.len() == 8);
            assert("run"@.len() == 3);
            reveal_with_fuel(seq_less, 3);
        } else if k == 83 {
            reveal_strlit("run");
            reveal_strlit("schedule");
            assert("run"@.len() == 3);
            assert("schedule"@.len() == 8);
            reveal_with_fuel(seq_less, 2);
        } else if k == 84 {
            reveal_strlit("schedule");
            reveal_strlit("score");
            assert("schedule"@.len() == 8);
            assert("score"@.len() == 5);
            reveal_with_fuel(seq_less, 4);
        } else if k == 85 {
            reveal_strlit("score");
            reveal_strlit("scoreboard");
            assert("score"@.len() == 5);
            assert("scoreboard"@.len() == 10);
            reveal_with_fuel(seq_less, 7);
        } else if k == 86 {
            reveal_strlit("scoreboard");
            reveal_strlit("selector");
            assert("scoreboard"@.len() == 10);
            assert("selector"@.len() == 8);
            reveal_with_fuel(seq_less, 3);
        } else if k == 87 {
            reveal_strlit("selector");
            reveal_strlit("self");
            assert("selector"@.len() == 8);
            assert("self"@.len() == 4);
            reveal_with_fuel(seq_less, 5);
        } else if k == 88 {
            reveal_strlit("self");
            reveal_strlit("set_block");
            assert("self"@.len() == 4);
            assert("set_block"@.len() == 9);
            reveal_with_fuel(seq_less, 4);
        } else if k == 89 {
            reveal_strlit("set_block");
            reveal_strlit("setworldspawn");
            assert("set_block"@.len() == 9);
            assert("setworldspawn"@.len() == 13);
            reveal_with_fuel(seq_less, 5);
        } else if k == 90 {
            reveal_strlit("setworldspawn");
            reveal_strlit("slots");
            assert("setworldspawn"@.len() == 13);
            assert("slots"@.len() == 5);
            reveal_with_fuel(seq_less, 3);
        } else if k == 91 {
            reveal_strlit("slots");
            reveal_strlit("sound");
            assert("slots"@.len() == 5);
            assert("sound"@.len() == 5);
            reveal_with_fuel(seq_less, 3);
        } else if k == 92 {
            reveal_strlit("sound");
            reveal_strlit("spawn");
            assert("sound"@.len() == 5);
            assert("spawn"@.len() == 5);
            reveal_with_fuel(seq_less, 3);
        } else if k == 93 {
            reveal_strlit("spawn");
            reveal_strlit("spawnpoint");
            assert("spawn"@.len() == 5);
            assert("spawnpoint"@.len() == 10);
            reveal_with_fuel(seq_less, 7);
        } else if k == 94 {
            reveal_strlit("spawnpoint");
            reveal_strlit("spectate");
            assert("spawnpoint"@.len() == 10);
            assert("spectate"@.len() == 8);
            reveal_with_fuel(seq_less, 4);
        } else if k == 95 {
            reveal_strlit("spectate");
            reveal_strlit("spreadplayers");
            assert("spectate"@.len() == 8);
            assert("spreadplayers"@.len() == 13);
            reveal_with_fuel(seq_less, 4);
        } else if k == 96 {
            reveal_strlit("spreadplayers");
            reveal_strlit("stopwatch");
            assert("spreadplayers"@.len() == 13);
            assert("stopwatch"@.len() == 9);
            reveal_with_fuel(seq_less, 3);
        } else if k == 97 {
            reveal_strlit("stopwatch");
            reveal_strlit("storage");
            assert("stopwatch"@.len() == 9);
            assert("storage"@.len() == 7);
            reveal_with_fuel(seq_less, 5);
        } else if k == 98 {
            reveal_strlit("storage");
            reveal_strlit("store");
            assert("storage"@.len() == 7);
            assert("store"@.len() == 5);
            reveal_with_fuel(seq_less, 6);
        } else if k == 99 {
            reveal_strlit("store");
            reveal_strlit("swing");
            assert("store"@.len() == 5);
            assert("swing"@.len() == 5);
            reveal_with_fuel(seq_less, 3);
        } else if k == 100 {
            reveal_strlit("swing");
            reveal_strlit("tag");
            assert("swing"@.len() == 5);
            assert("tag"@.len() == 3);
            reveal_with_fuel(seq_less, 2);
        } else if k == 101 {
            reveal_strlit("tag");
            reveal_strlit("team");
            assert("tag"@.len() == 3);
            assert("team"@.len() == 4);
            reveal_with_fuel(seq_less, 3);
        } else if k == 102 {
            reveal_strlit("team");
            reveal_strlit("teleport");
            assert("team"@.len() == 4);
            assert("teleport"@.len() == 8);
            reveal_with_fuel(seq_less, 4);
        } else if k == 103 {
            reveal_strlit("teleport");
            reveal_strlit("text");
            assert("teleport"@.len() == 8);
            assert("text"@.len() == 4);
            reveal_with_fuel(seq_less, 4);
        } else if k == 104 {
            reveal_strlit("text");
            reveal_strlit("time");
            assert("text"@.len() == 4);
            assert("time"@.len() == 4);
            reveal_with_fuel(seq_less, 3);
        } else if k == 105 {
            reveal_strlit("time");
            reveal_strlit("translate");
            assert("time"@.len() == 4);
            assert("translate"@.len() == 9);
            reveal_with_fuel(seq_less, 3);
        } else if k == 106 {
            reveal_strlit("translate");
            reveal_strlit("trigger");
            assert("translate"@.len() == 9);
            assert("trigger"@.len() == 7);
            reveal_with_fuel(seq_less, 4);
        } else if k == 107 {
            reveal_strlit("trigger");
            reveal_strlit("unless");
            assert("trigger"@.len() == 7);
            assert("unless"@.len() == 6);
            reveal_with_fuel(seq_less, 2);
        } else if k == 108 {
            reveal_strlit("unless");
            reveal_strlit("vec2");
            assert("unless"@.len() == 6);
            assert("vec2"@.len() == 4);
            reveal_with_fuel(seq_less, 2);
        } else if k == 109 {
            reveal_strlit("vec2");
            reveal_strlit("vec3");
            assert("vec2"@.len() == 4);
            assert("vec3"@.len() == 4);
            reveal_with_fuel(seq_less, 5);
        } else if k == 110 {
            reveal_strlit("vec3");
            reveal_strlit("waypoint");
            assert("vec3"@.len() == 4);
            assert("waypoint"@.len() == 8);
            reveal_with_fuel(seq_less, 2);
        } else if k == 111 {
            reveal_strlit("waypoint");
            reveal_strlit("weather");
            assert("waypoint"@.len() == 8);
            assert("weather"@.len() == 7);
            reveal_with_fuel(seq_less, 3);
        } else if k == 112 {
            reveal_strlit("weather");
            reveal_strlit("while");
            assert("weather"@.len() == 7);
            assert("while"@.len() == 5);
            reveal_with_fuel(seq_less, 3);
        } else if k == 113 {
            reveal_strlit("while");
            reveal_strlit("with");
            assert("while"@.len() == 5);
            assert("with"@.len() == 4);
            reveal_with_fuel(seq_less, 3);
        } else if k == 114 {
            reveal_strlit("with");
            reveal_strlit("worldborder");
            assert("with"@.len() == 4);
            assert("worldborder"@.len() == 11);
            reveal_with_fuel(seq_less, 3);
        } else if k == 115 {
            reveal_strlit("worldborder");
            reveal_strlit("xp");
            assert("worldborder"@.len() == 11);
            assert("xp"@.len() == 2);
            reveal_with_fuel(seq_less, 2);
        } else if k == 116 {
            reveal_strlit("xp");
            reveal_strlit("世界边界");
            assert("xp"@.len() == 2);
            assert("世界边界"@.len() == 4);
            reveal_with_fuel(seq_less, 2);
        } else if k == 117 {
            reveal_strlit("世界边界");
            reveal_strlit("乘骑");
            assert("世界边界"@.len() == 4);
            assert("乘骑"@.len() == 2);
            reveal_with_fuel(seq_less, 2);
        } else if k == 118 {
            reveal_strlit("乘骑");
            reveal_strlit("令");
            assert("乘骑"@.len() == 2);
            assert("令"@.len() == 1);
            reveal_with_fuel(seq_less, 2);
        } else if k == 119 {
            reveal_strlit("令");
            reveal_strlit("传送");
            assert("令"@.len() == 1);
            assert("传送"@.len() == 2);
            reveal_with_fuel(seq_less, 2);
        } else if k == 120 {
            reveal_strlit("传送");
            reveal_strlit("伤害");
            assert("传送"@.len() == 2);
            assert("伤害"@.len() == 2);
            reveal_with_fuel(seq_less, 2);
        } else if k == 121 {
            reveal_strlit("伤害");
            reveal_strlit("作为");
            assert("伤害"@.len() == 2);
            assert("作为"@.len() == 2);
            reveal_with_fuel(seq_less, 2);
        } else if k == 122 {
            reveal_strlit("作为");
            reveal_strlit("公开");
            assert("作为"@.len() == 2);
            assert("公开"@.len() == 2);
            reveal_with_fuel(seq_less, 2);
        } else if k == 123 {
            reveal_strlit("公开");
            reveal_strlit("内容");
            assert("公开"@.len() == 2);
            assert("内容"@.len() == 2);
            reveal_with_fuel(seq_less, 2);
        } else if k == 124 {
            reveal_strlit("内容");
            reveal_strlit("函数");
            assert("内容"@.len() == 2);
            assert("函数"@.len() == 2);
            reveal_with_fuel(seq_less, 2);
        } else if k == 125 {
            reveal_strlit("函数");
            reveal_strlit("函数条件");
            assert("函数"@.len() == 2);
            assert("函数条件"@.len() == 4);
            reveal_with_fuel(seq_less, 4);
        } else if k == 126 {
            reveal_strlit("函数条件");
            reveal_strlit("函数标签");
            assert("函数条件"@.len() == 4);
            assert("函数标签"@.len() == 4);
            reveal_with_fuel(seq_less, 4);
        } else if k == 127 {
            reveal_strlit("函数标签");
            reveal_strlit("分散实体");
            assert("函数标签"@.len() == 4);
            assert("分散实体"@.len() == 4);
            reveal_with_fuel(seq_less, 2);
        } else if k == 128 {
            reveal_strlit("分散实体");
            reveal_strlit("列坐标");
            assert("分散实体"@.len() == 4);
            assert("列坐标"@.len() == 3);
            reveal_with_fuel(seq_less, 2);
        } else if k == 129 {
            reveal_strlit("列坐标");
            reveal_strlit("区域方块");
            assert("列坐标"@.len() == 3);
            assert("区域方块"@.len() == 4);
            reveal_with_fuel(seq_less, 2);
        } else if k == 130 {
            reveal_strlit("区域方块");
            reveal_strlit("原生命令");
            assert("区域方块"@.len() == 4);
            assert("原生命令"@.len() == 4);
            reveal_with_fuel(seq_less, 2);
        } else if k == 131 {
            reveal_strlit("原生命令");
            reveal_strlit("召唤");
            assert("原生命令"@.len() == 4);
            assert("召唤"@.len() == 2);
            reveal_with_fuel(seq_less, 2);
        } else if k == 132 {
            reveal_strlit("召唤");
            reveal_strlit("否则");
            assert("召唤"@.len() == 2);
            assert("否则"@.len() == 2);
            reveal_with_fuel(seq_less, 2);
        } else if k == 133 {
            reveal_strlit("否则");
            reveal_strlit("命名空间");
            assert("否则"@.len() == 2);
            assert("命名空间"@.len() == 4);
            reveal_with_fuel(seq_less, 2);
        } else if k == 134 {
            reveal_strlit("命名空间");
            reveal_strlit("在");
            assert("命名空间"@.len() == 4);
            assert("在"@.len() == 1);
            reveal_with_fuel(seq_less, 2);
        } else if k == 135 {
            reveal_strlit("在");
            reveal_strlit("在线玩家");
            assert("在"@.len() == 1);
            assert("在线玩家"@.len() == 4);
            reveal_with_fuel(seq_less, 3);
        } else if k == 136 {
            reveal_strlit("在线玩家");
            reveal_strlit("在维度");
            assert("在线玩家"@.len() == 4);
            assert("在维度"@.len() == 3);
            reveal_with_fuel(seq_less, 3);
        } else if k == 137 {
            reveal_strlit("在维度");
            reveal_strlit("坐标");
            assert("在维度"@.len() == 3);
            assert("坐标"@.len() == 2);
            reveal_with_fuel(seq_less, 2);
        } else if k == 138 {
            reveal_strlit("坐标");
            reveal_strlit("填充");
            assert("坐标"@.len() == 2);
            assert("填充"@.len() == 2);
            reveal_with_fuel(seq_less, 2);
        } else if k == 139 {
            reveal_strlit("填充");
            reveal_strlit("填充生物群系");
            assert("填充"@.len() == 2);
            assert("填充生物群系"@.len() == 6);
            reveal_with_fuel(seq_less, 4);
        } else if k == 140 {
            reveal_strlit("填充生物群系");
            reveal_strlit("声音");
            assert("填充生物群系"@.len() == 6);
            assert("声音"@.len() == 2);
            reveal_with_fuel(seq_less, 2);
        } else if k == 141 {
            reveal_strlit("声音");
            reveal_strlit("复制");
            assert("声音"@.len() == 2);
            assert("复制"@.len() == 2);
            reveal_with_fuel(seq_less, 2);
        } else if k == 142 {
            reveal_strlit("复制");
            reveal_strlit("天气");
            assert("复制"@.len() == 2);
            assert("天气"@.len() == 2);
            reveal_with_fuel(seq_less, 2);
        } else if k == 143 {
            reveal_strlit("天气");
            reveal_strlit("失败");
            assert("天气"@.len() == 2);
            assert("失败"@.len() == 2);
            reveal_with_fuel(seq_less, 2);
        } else if k == 144 {
            reveal_strlit("失败");
            reveal_strlit("如果");
            assert("失败"@.len() == 2);
            assert("如果"@.len() == 2);
            reveal_with_fuel(seq_less, 2);
        } else if k == 145 {
            reveal_strlit("如果");
            reveal_strlit("存值");
            assert("如果"@.len() == 2);
            assert("存值"@.len() == 2);
            reveal_with_fuel(seq_less, 2);
        } else if k == 146 {
            reveal_strlit("存值");
            reveal_strlit("存储");
            assert("存值"@.len() == 2);
            assert("存储"@.len() == 2);
            reveal_with_fuel(seq_less, 3);
        } else if k == 147 {
            reveal_strlit("存储");
            reveal_strlit("宏");
            assert("存储"@.len() == 2);
            assert("宏"@.len() == 1);
            reveal_with_fuel(seq_less, 2);
        } else if k == 148 {
            reveal_strlit("宏");
            reveal_strlit("定位");
            assert("宏"@.len() == 1);
            assert("定位"@.len() == 2);
            reveal_with_fuel(seq_less, 2);
        } else if k == 149 {
            reveal_strlit("定位");
            reveal_strlit("实体");
            assert("定位"@.len() == 2);
            assert("实体"@.len() == 2);
            reveal_with_fuel(seq_less, 2);
        } else if k == 150 {
            reveal_strlit("实体");
            reveal_strlit("实体属性");
            assert("实体"@.len() == 2);
            assert("实体属性"@.len() == 4);
            reveal_with_fuel(seq_less, 4);
        } else if k == 151 {
            reveal_strlit("实体属性");
            reveal_strlit("实体数据");
            assert("实体属性"@.len() == 4);
            assert("实体数据"@.len() == 4);
            reveal_with_fuel(seq_less, 4);
        } else if k == 152 {
            reveal_strlit("实体数据");
            reveal_strlit("对于");
            assert("实体数据"@.len() == 4);
            assert("对于"@.len() == 2);
            reveal_with_fuel(seq_less, 2);
        } else if k == 153 {
            reveal_strlit("对于");
            reveal_strlit("导入");
            assert("对于"@.len() == 2);
            assert("导入"@.len() == 2);
            reveal_with_fuel(seq_less, 2);
        } else if k == 154 {
            reveal_strlit("导入");
            reveal_strlit("已加载");
            assert("导入"@.len() == 2);
            assert("已加载"@.len() == 3);
            reveal_with_fuel(seq_less, 2);
        } else if k == 155 {
            reveal_strlit("已加载");
            reveal_strlit("平面坐标");
            assert("已加载"@.len() == 3);
            assert("平面坐标"@.len() == 4);
            reveal_with_fuel(seq_less, 2);
        } else if k == 156 {
            reveal_strlit("平面坐标");
            reveal_strlit("延后");
            assert("平面坐标"@.len() == 4);
            assert("延后"@.len() == 2);
            reveal_with_fuel(seq_less, 2);
        } else if k == 157 {
            reveal_strlit("延后");
            reveal_strlit("强制加载");
            assert("延后"@.len() == 2);
            assert("强制加载"@.len() == 4);
            reveal_with_fuel(seq_less, 2);
        } else if k == 158 {
            reveal_strlit("强制加载");
            reveal_strlit("当");
            assert("强制加载"@.len() == 4);
            assert("当"@.len() == 1);
            reveal_with_fuel(seq_less, 2);
        } else if k == 159 {
            reveal_strlit("当");
            reveal_strlit("战利品");
            assert("当"@.len() == 1);
            assert("战利品"@.len() == 3);
            reveal_with_fuel(seq_less, 2);
        } else if k == 160 {
            reveal_strlit("战利品");
            reveal_strlit("执行");
            assert("战利品"@.len() == 3);
            assert("执行"@.len() == 2);
            reveal_with_fuel(seq_less, 2);
        } else if k == 161 {
            reveal_strlit("执行");
            reveal_strlit("投掷者");
            assert("执行"@.len() == 2);
            assert("投掷者"@.len() == 3);
            reveal_with_fuel(seq_less, 2);
        } else if k == 162 {
            reveal_strlit("投掷者");
            reveal_strlit("按键");
            assert("投掷者"@.len() == 3);
            assert("按键"@.len() == 2);
            reveal_with_fuel(seq_less, 2);
        } else if k == 163 {
            reveal_strlit("按键");
            reveal_strlit("挥动");
            assert("按键"@.len() == 2);
            assert("挥动"@.len() == 2);
            reveal_with_fuel(seq_less, 2);
        } else if k == 164 {
            reveal_strlit("挥动");
            reveal_strlit("放置");
            assert("挥动"@.len() == 2);
            assert("放置"@.len() == 2);
            reveal_with_fuel(seq_less, 2);
        } else if k == 165 {
            reveal_strlit("放置");
            reveal_strlit("效果");
            assert("放置"@.len() == 2);
            assert("效果"@.len() == 2);
            reveal_with_fuel(seq_less, 2);
        } else if k == 166 {
            reveal_strlit("效果");
            reveal_strlit("数据");
            assert("效果"@.len() == 2);
            assert("数据"@.len() == 2);
            reveal_with_fuel(seq_less, 2);
        } else if k == 167 {
            reveal_strlit("数据");
            reveal_strlit("数据包");
            assert("数据"@.len() == 2);
            assert("数据包"@.len() == 3);
            reveal_with_fuel(seq_less, 4);
        } else if k == 168 {
            reveal_strlit("数据包");
            reveal_strlit("数据操作");
            assert("数据包"@.len() == 3);
            assert("数据操作"@.len() == 4);
            reveal_with_fuel(seq_less, 4);
        } else if k == 169 {
            reveal_strlit("数据操作");
            reveal_strlit("数据槽");
            assert("数据操作"@.len() == 4);
            assert("数据槽"@.len() == 3);
            reveal_with_fuel(seq_less, 4);
        } else if k == 170 {
            reveal_strlit("数据槽");
            reveal_strlit("文本");
            assert("数据槽"@.len() == 3);
            assert("文本"@.len() == 2);
            reveal_with_fuel(seq_less, 2);
        } else if k == 171 {
            reveal_strlit("文本");
            reveal_strlit("方块");
            assert("文本"@.len() == 2);
            assert("方块"@.len() == 2);
            reveal_with_fuel(seq_less, 2);
        } else if k == 172 {
            reveal_strlit("方块");
            reveal_strlit("方块坐标");
            assert("方块"@.len() == 2);
            assert("方块坐标"@.len() == 4);
            reveal_with_fuel(seq_less, 4);
        } else if k == 173 {
            reveal_strlit("方块坐标");
            reveal_strlit("方块状态");
            assert("方块坐标"@.len() == 4);
            assert("方块状态"@.len() == 4);
            reveal_with_fuel(seq_less, 4);
        } else if k == 174 {
            reveal_strlit("方块状态");
            reveal_strlit("施加附魔");
            assert("方块状态"@.len() == 4);
            assert("施加附魔"@.len() == 4);
            reveal_with_fuel(seq_less, 2);
        } else if k == 175 {
            reveal_strlit("施加附魔");
            reveal_strlit("旁观");
            assert("施加附魔"@.len() == 4);
            assert("旁观"@.len() == 2);
            reveal_with_fuel(seq_less, 2);
        } else if k == 176 {
            reveal_strlit("旁观");
            reveal_strlit("旋转");
            assert("旁观"@.len() == 2);
            assert("旋转"@.len() == 2);
            reveal_with_fuel(seq_less, 2);
        } else if k == 177 {
            reveal_strlit("旋转");
            reveal_strlit("时间");
            assert("旋转"@.len() == 2);
            assert("时间"@.len() == 2);
            reveal_with_fuel(seq_less, 2);
        } else if k == 178 {
            reveal_strlit("时间");
            reveal_strlit("替换");
            assert("时间"@.len() == 2);
            assert("替换"@.len() == 2);
            reveal_with_fuel(seq_less, 2);
        } else if k == 179 {
            reveal_strlit("替换");
            reveal_strlit("朝向");
            assert("替换"@.len() == 2);
            assert("朝向"@.len() == 2);
            reveal_with_fuel(seq_less, 2);
        } else if k == 180 {
            reveal_strlit("朝向");
            reveal_strlit("杀死");
            assert("朝向"@.len() == 2);
            assert("杀死"@.len() == 2);
            reveal_with_fuel(seq_less, 2);
        } else if k == 181 {
            reveal_strlit("杀死");
            reveal_strlit("查询");
            assert("杀死"@.len() == 2);
            assert("查询"@.len() == 2);
            reveal_with_fuel(seq_less, 2);
        } else if k == 182 {
            reveal_strlit("查询");
            reveal_strlit("标签");
            assert("查询"@.len() == 2);
            assert("标签"@.len() == 2);
            reveal_with_fuel(seq_less, 2);
        } else if k == 183 {
            reveal_strlit("标签");
            reveal_strlit("槽位条件");
            assert("标签"@.len() == 2);
            assert("槽位条件"@.len() == 4);
            reveal_with_fuel(seq_less, 2);
        } else if k == 184 {
            reveal_strlit("槽位条件");
            reveal_strlit("消息");
            assert("槽位条件"@.len() == 4);
            assert("消息"@.len() == 2);
            reveal_with_fuel(seq_less, 2);
        } else if k == 185 {
            reveal_strlit("消息");
            reveal_strlit("清除");
            assert("消息"@.len() == 2);
            assert("清除"@.len() == 2);
            reveal_with_fuel(seq_less, 2);
        } else if k == 186 {
            reveal_strlit("清除");
            reveal_strlit("游戏模式");
            assert("清除"@.len() == 2);
            assert("游戏模式"@.len() == 4);
            reveal_with_fuel(seq_less, 2);
        } else if k == 187 {
            reveal_strlit("游戏模式");
            reveal_strlit("游戏规则");
            assert("游戏模式"@.len() == 4);
            assert("游戏规则"@.len() == 4);
            reveal_with_fuel(seq_less, 4);
        } else if k == 188 {
            reveal_strlit("游戏规则");
            reveal_strlit("物品");
            assert("游戏规则"@.len() == 4);
            assert("物品"@.len() == 2);
            reveal_with_fuel(seq_less, 2);
        } else if k == 189 {
            reveal_strlit("物品");
            reveal_strlit("物品列表");
            assert("物品"@.len() == 2);
            assert("物品列表"@.len() == 4);
            reveal_with_fuel(seq_less, 4);
        } else if k == 190 {
            reveal_strlit("物品列表");
            reveal_strlit("物品堆");
            assert("物品列表"@.len() == 4);
            assert("物品堆"@.len() == 3);
            reveal_with_fuel(seq_less, 4);
        } else if k == 191 {
            reveal_strlit("物品堆");
            reveal_strlit("物品数据");
            assert("物品堆"@.len() == 3);
            assert("物品数据"@.len() == 4);
            reveal_with_fuel(seq_less, 4);
        } else if k == 192 {
            reveal_strlit("物品数据");
            reveal_strlit("物品条件");
            assert("物品数据"@.len() == 4);
            assert("物品条件"@.len() == 4);
            reveal_with_fuel(seq_less, 4);
        } else if k == 193 {
            reveal_strlit("物品条件");
            reveal_strlit("物品谓词");
            assert("物品条件"@.len() == 4);
            assert("物品谓词"@.len() == 4);
            reveal_with_fuel(seq_less, 4);
        } else if k == 194 {
            reveal_strlit("物品谓词");
            reveal_strlit("生物群系");
            assert("物品谓词"@.len() == 4);
            assert("生物群系"@.len() == 4);
            reveal_with_fuel(seq_less, 2);
        } else if k == 195 {
            reveal_strlit("生物群系");
            reveal_strlit("用");
            assert("生物群系"@.len() == 4);
            assert("用"@.len() == 1);
            reveal_with_fuel(seq_less, 2);
        } else if k == 196 {
            reveal_strlit("用");
            reveal_strlit("目标");
            assert("用"@.len() == 1);
            assert("目标"@.len() == 2);
            reveal_with_fuel(seq_less, 2);
        } else if k == 197 {
            reveal_strlit("目标");
            reveal_strlit("秒表");
            assert("目标"@.len() == 2);
            assert("秒表"@.len() == 2);
            reveal_with_fuel(seq_less, 2);
        } else if k == 198 {
            reveal_strlit("秒表");
            reveal_strlit("精确坐标");
            assert("秒表"@.len() == 2);
            assert("精确坐标"@.len() == 4);
            reveal_with_fuel(seq_less, 2);
        } else if k == 199 {
            reveal_strlit("精确坐标");
            reveal_strlit("经验");
            assert("精确坐标"@.len() == 4);
            assert("经验"@.len() == 2);
            reveal_with_fuel(seq_less, 2);
        } else if k == 200 {
            reveal_strlit("经验");
            reveal_strlit("给予");
            assert("经验"@.len() == 2);
            assert("给予"@.len() == 2);
            reveal_with_fuel(seq_less, 2);
        } else if k == 201 {
            reveal_strlit("给予");
            reveal_strlit("维度");
            assert("给予"@.len() == 2);
            assert("维度"@.len() == 2);
            reveal_with_fuel(seq_less, 2);
        } else if k == 202 {
            reveal_strlit("维度");
            reveal_strlit("翻译");
            assert("维度"@.len() == 2);
            assert("翻译"@.len() == 2);
            reveal_with_fuel(seq_less, 2);
        } else if k == 203 {
            reveal_strlit("翻译");
            reveal_strlit("自身");
            assert("翻译"@.len() == 2);
            assert("自身"@.len() == 2);
            reveal_with_fuel(seq_less, 2);
        } else if k == 204 {
            reveal_strlit("自身");
            reveal_strlit("触发");
            assert("自身"@.len() == 2);
            assert("触发"@.len() == 2);
            reveal_with_fuel(seq_less, 2);
        } else if k == 205 {
            reveal_strlit("触发");
            reveal_strlit("计分");
            assert("触发"@.len() == 2);
            assert("计分"@.len() == 2);
            reveal_with_fuel(seq_less, 2);
        } else if k == 206 {
            reveal_strlit("计分");
            reveal_strlit("计分板");
            assert("计分"@.len() == 2);
            assert("计分板"@.len() == 3);
            reveal_with_fuel(seq_less, 4);
        } else if k == 207 {
            reveal_strlit("计分板");
            reveal_strlit("计数");
            assert("计分板"@.len() == 3);
            assert("计数"@.len() == 2);
            reveal_with_fuel(seq_less, 3);
        } else if k == 208 {
            reveal_strlit("计数");
            reveal_strlit("计算");
            assert("计数"@.len() == 2);
            assert("计算"@.len() == 2);
            reveal_with_fuel(seq_less, 3);
        } else if k == 209 {
            reveal_strlit("计算");
            reveal_strlit("设置世界出生点");
            assert("计算"@.len() == 2);
            assert("设置世界出生点"@.len() == 7);
            reveal_with_fuel(seq_less, 2);
        } else if k == 210 {
            reveal_strlit("设置世界出生点");
            reveal_strlit("设置出生点");
            assert("设置世界出生点"@.len() == 7);
            assert("设置出生点"@.len() == 5);
            reveal_with_fuel(seq_less, 4);
        } else if k == 211 {
            reveal_strlit("设置出生点");
            reveal_strlit("设置方块");
            assert("设置出生点"@.len() == 5);
            assert("设置方块"@.len() == 4);
            reveal_with_fuel(seq_less, 4);
        } else if k == 212 {
            reveal_strlit("设置方块");
            reveal_strlit("调度");
            assert("设置方块"@.len() == 4);
            assert("调度"@.len() == 2);
            reveal_with_fuel(seq_less, 2);
        } else if k == 213 {
            reveal_strlit("调度");
            reveal_strlit("调用");
            assert("调度"@.len() == 2);
            assert("调用"@.len() == 2);
            reveal_with_fuel(seq_less, 3);
        } else if k == 214 {
            reveal_strlit("调用");
            reveal_strlit("谓词");
            assert("调用"@.len() == 2);
            assert("谓词"@.len() == 2);
            reveal_with_fuel(seq_less, 2);
        } else if k == 215 {
            reveal_strlit("谓词");
            reveal_strlit("资源");
            assert("谓词"@.len() == 2);
            assert("资源"@.len() == 2);
            reveal_with_fuel(seq_less, 2);
        } else if k == 216 {
            reveal_strlit("资源");
            reveal_strlit("路径点");
            assert("资源"@.len() == 2);
            assert("路径点"@.len() == 3);
            reveal_with_fuel(seq_less, 2);
        } else if k == 217 {
            reveal_strlit("路径点");
            reveal_strlit("跳出");
            assert("路径点"@.len() == 3);
            assert("跳出"@.len() == 2);
            reveal_with_fuel(seq_less, 2);
        } else if k == 218 {
            reveal_strlit("跳出");
            reveal_strlit("跳过");
            assert("跳出"@.len() == 2);
            assert("跳过"@.len() == 2);
            reveal_with_fuel(seq_less, 3);
        } else if k == 219 {
            reveal_strlit("跳过");
            reveal_strlit("返回");
            assert("跳过"@.len() == 2);
            assert("返回"@.len() == 2);
            reveal_with_fuel(seq_less, 2);
        } else if k == 220 {
            reveal_strlit("返回");
            reveal_strlit("进度");
            assert("返回"@.len() == 2);
            assert("进度"@.len() == 2);
            reveal_with_fuel(seq_less, 2);
        } else if k == 221 {
            reveal_strlit("进度");
            reveal_strlit("追加");
            assert("进度"@.len() == 2);
            assert("追加"@.len() == 2);
            reveal_with_fuel(seq_less, 2);
        } else if k == 222 {
            reveal_strlit("追加");
            reveal_strlit("选择器");
            assert("追加"@.len() == 2);
            assert("选择器"@.len() == 3);
            reveal_with_fuel(seq_less, 2);
        } else if k == 223 {
            reveal_strlit("选择器");
            reveal_strlit("遍历");
            assert("选择器"@.len() == 3);
            assert("遍历"@.len() == 2);
            reveal_with_fuel(seq_less, 2);
        } else if k == 224 {
            reveal_strlit("遍历");
            reveal_strlit("配方");
            assert("遍历"@.len() == 2);
            assert("配方"@.len() == 2);
            reveal_with_fuel(seq_less, 2);
        } else if k == 225 {
            reveal_strlit("配方");
            reveal_strlit("重载");
            assert("配方"@.len() == 2);
            assert("重载"@.len() == 2);
            reveal_with_fuel(seq_less, 2);
        } else if k == 226 {
            reveal_strlit("重载");
            reveal_strlit("队伍");
            assert("重载"@.len() == 2);
            assert("队伍"@.len() == 2);
            reveal_with_fuel(seq_less, 2);
        } else if k == 227 {
            reveal_strlit("队伍");
            reveal_strlit("除非");
            assert("队伍"@.len() == 2);
            assert("除非"@.len() == 2);
            reveal_with_fuel(seq_less, 2);
        } else if k == 228 {
            reveal_strlit("除非");
            reveal_strlit("随机");
            assert("除非"@.len() == 2);
            assert("随机"@.len() == 2);
            reveal_with_fuel(seq_less, 2);
        } else if k == 229 {
            reveal_strlit("随机");
            reveal_strlit("难度");
            assert("随机"@.len() == 2);
            assert("难度"@.len() == 2);
            reveal_with_fuel(seq_less, 2);
        } else if k == 230 {
            reveal_strlit("难度");
            reveal_strlit("默认游戏模式");
            assert("难度"@.len() == 2);
            assert("默认游戏模式"@.len() == 6);
            reveal_with_fuel(seq_less, 2);
        }
    }
}

/// No spelling occurs twice in the column.
pub proof fn lemma_spelling_distinct()
    ensures
        forall|i: int, j: int| 0 <= i < 232 && 0 <= j < 232 && i != j ==> spelling_column()[i] != spelling_column()[j],
{
    lemma_spelling_ascending();
    lemma_adjacent_sorted(spelling_sorted());
    let pos: Seq<int> = seq![114, 196, 64, 148, 54, 194, 63, 160, 75, 225, 76, 226, 24, 168, 58, 181, 101, 183, 31, 175, 21, 121, 5, 151, 80, 118, 81, 177, 96, 128, 95, 176, 100, 164, 107, 205, 44, 187, 25, 231, 26, 230, 94, 211, 90, 210, 102, 227, 111, 217, 60, 136, 66, 134, 85, 206, 68, 197, 86, 207, 73, 182, 32, 150, 23, 170, 52, 192, 33, 152, 51, 189, 55, 191, 53, 190, 98, 147, 78, 216, 1, 221, 72, 215, 39, 125, 40, 127, 59, 119, 79, 220, 36, 144, 47, 145, 108, 228, 99, 146, 11, 0, 30, 133, 113, 159, 41, 153, 49, 135, 12, 218, 19, 219, 48, 154, 35, 123, 4, 122, 28, 224, 13, 214, 84, 213, 2, 157, 3, 222, 77, 179, 46, 201, 69, 162, 50, 137, 93, 132, 88, 204, 65, 185, 92, 141, 29, 166, 116, 200, 14, 186, 97, 198, 83, 131, 34, 161, 18, 124, 89, 212, 37, 139, 38, 140, 15, 142, 70, 165, 42, 158, 105, 178, 112, 143, 45, 188, 115, 117, 62, 149, 103, 120, 71, 138, 8, 173, 110, 199, 109, 156, 82, 180, 16, 129, 9, 174, 67, 167, 104, 171, 106, 203, 57, 163, 87, 223, 20, 208, 74, 229, 17, 209, 22, 169, 7, 172, 10, 130, 6, 195, 61, 155, 27, 202, 56, 193, 91, 184, 43, 126];
    let perm: Seq<int> = seq![101, 80, 126, 128, 118, 22, 220, 216, 186, 196, 218, 100, 110, 122, 150, 166, 194, 212, 158, 112, 208, 20, 214, 64, 12, 38, 40, 224, 120, 146, 102, 18, 62, 68, 156, 116, 92, 162, 164, 84, 86, 106, 170, 230, 36, 176, 132, 94, 114, 108, 136, 70, 66, 74, 4, 72, 226, 204, 14, 88, 50, 222, 180, 6, 2, 142, 52, 198, 56, 134, 168, 184, 82, 60, 210, 8, 10, 130, 78, 90, 24, 26, 192, 154, 124, 54, 58, 206, 140, 160, 44, 228, 144, 138, 42, 30, 28, 152, 76, 98, 32, 16, 46, 182, 200, 172, 202, 34, 96, 190, 188, 48, 174, 104, 0, 178, 148, 179, 25, 89, 183, 21, 119, 117, 159, 85, 231, 87, 29, 195, 219, 155, 139, 103, 53, 109, 51, 137, 185, 163, 165, 145, 167, 175, 93, 95, 99, 77, 3, 181, 63, 23, 69, 107, 115, 223, 191, 127, 171, 105, 7, 157, 135, 205, 33, 169, 147, 199, 13, 215, 65, 201, 217, 187, 197, 19, 31, 27, 173, 131, 193, 15, 61, 17, 229, 143, 151, 37, 177, 71, 75, 73, 67, 227, 5, 221, 1, 57, 153, 189, 149, 133, 225, 203, 141, 35, 55, 59, 209, 213, 45, 43, 161, 125, 123, 83, 79, 49, 111, 113, 91, 81, 129, 207, 121, 9, 11, 47, 97, 211, 41, 39];
    assert forall|i: int| 0 <= i < 232 implies 0 <= #[trigger] pos[i] < 232 && spelling_column()[i] == spelling_sorted()[pos[i]]
        && perm[pos[i]] == i by {
        if i == 0 {
        } else if i == 1 {
        } else if i == 2 {
        } else if i == 3 {
        } else if i == 4 {
        } else if i == 5 {
        } else if i == 6 {
        } else if i == 7 {
        } else if i == 8 {
        } else if i == 9 {
        } else if i == 10 {
        } else if i == 11 {
        } else if i == 12 {
        } else if i == 13 {
        } else if i == 14 {
        } else if i == 15 {
        } else if i == 16 {
        } else if i == 17 {
        } else if i == 18 {
        } else if i == 19 {
        } else if i == 20 {
        } else if i == 21 {
        } else if i == 22 {
        } else if i == 23 {
        } else if i == 24 {
        } else if i == 25 {
        } else if i == 26 {
        } else if i == 27 {
        } else if i == 28 {
        } else if i == 29 {
        } else if i == 30 {
        } else if i == 31 {
        } else if i == 32 {
        } else if i == 33 {
        } else if i == 34 {
        } else if i == 35 {
        } else if i == 36 {
        } else if i == 37 {
        } else if i == 38 {
        } else if i == 39 {
        } else if i == 40 {
        } else if i == 41 {
        } else if i == 42 {
        } else if i == 43 {
        } else if i == 44 {
        } else if i == 45 {
        } else if i == 46 {
        } else if i == 47 {
        } else if i == 48 {
        } else if i == 49 {
        } else if i == 50 {
        } else if i == 51 {
        } else if i == 52 {
        } else if i == 53 {
        } else if i == 54 {
        } else if i == 55 {
        } else if i == 56 {
        } else if i == 57 {
        } else if i == 58 {
        } else if i == 59 {
        } else if i == 60 {
        } else if i == 61 {
        } else if i == 62 {
        } else if i == 63 {
        } else if i == 64 {
        } else if i == 65 {
        } else if i == 66 {
        } else if i == 67 {
        } else if i == 68 {
        } else if i == 69 {
        } else if i == 70 {
        } else if i == 71 {
        } else if i == 72 {
        } else if i == 73 {
        } else if i == 74 {
        } else if i == 75 {
        } else if i == 76 {
        } else if i == 77 {
        } else if i == 78 {
        } else if i == 79 {
        } else if i == 80 {
        } else if i == 81 {
        } else if i == 82 {
        } else if i == 83 {
        } else if i == 84 {
        } else if i == 85 {
        } else if i == 86 {
        } else if i == 87 {
        } else if i == 88 {
        } else if i == 89 {
        } else if i == 90 {
        } else if i == 91 {
        } else if i == 92 {
        } else if i == 93 {
        } else if i == 94 {
        } else if i == 95 {
        } else if i == 96 {
        } else if i == 97 {
        } else if i == 98 {
        } else if i == 99 {
        } else if i == 100 {
        } else if i == 101 {
        } else if i == 102 {
        } else if i == 103 {
        } else if i == 104 {
        } else if i == 105 {
        } else if i == 106 {
        } else if i == 107 {
        } else if i == 108 {
        } else if i == 109 {
        } else if i == 110 {
        } else if i == 111 {
        } else if i == 112 {
        } else if i == 113 {
        } else if i == 114 {
        } else if i == 115 {
        } else if i == 116 {
        } else if i == 117 {
        } else if i == 118 {
        } else if i == 119 {
        } else if i == 120 {
        } else if i == 121 {
        } else if i == 122 {
        } else if i == 123 {
        } else if i == 124 {
        } else if i == 125 {
        } else if i == 126 {
        } else if i == 127 {
        } else if i == 128 {
        } else if i == 129 {
        } else if i == 130 {
        } else if i == 131 {
        } else if i == 132 {
        } else if i == 133 {
        } else if i == 134 {
        } else if i == 135 {
        } else if i == 136 {
        } else if i == 137 {
        } else if i == 138 {
        } else if i == 139 {
        } else if i == 140 {
        } else if i == 141 {
        } else if i == 142 {
        } else if i == 143 {
        } else if i == 144 {
        } else if i == 145 {
        } else if i == 146 {
        } else if i == 147 {
        } else if i == 148 {
        } else if i == 149 {
        } else if i == 150 {
        } else if i == 151 {
        } else if i == 152 {
        } else if i == 153 {
        } else if i == 154 {
        } else if i == 155 {
        } else if i == 156 {
        } else if i == 157 {
        } else if i == 158 {
        } else if i == 159 {
        } else if i == 160 {
        } else if i == 161 {
        } else if i == 162 {
        } else if i == 163 {
        } else if i == 164 {
        } else if i == 165 {
        } else if i == 166 {
        } else if i == 167 {
        } else if i == 168 {
        } else if i == 169 {
        } else if i == 170 {
        } else if i == 171 {
        } else if i == 172 {
        } else if i == 173 {
        } else if i == 174 {
        } else if i == 175 {
        } else if i == 176 {
        } else if i == 177 {
        } else if i == 178 {
        } else if i == 179 {
        } else if i == 180 {
        } else if i == 181 {
        } else if i == 182 {
        } else if i == 183 {
        } else if i == 184 {
        } else if i == 185 {
        } else if i == 186 {
        } else if i == 187 {
        } else if i == 188 {
        } else if i == 189 {
        } else if i == 190 {
        } else if i == 191 {
        } else if i == 192 {
        } else if i == 193 {
        } else if i == 194 {
        } else if i == 195 {
        } else if i == 196 {
        } else if i == 197 {
        } else if i == 198 {
        } else if i == 199 {
        } else if i == 200 {
        } else if i == 201 {
        } else if i == 202 {
        } else if i == 203 {
        } else if i == 204 {
        } else if i == 205 {
        } else if i == 206 {
        } else if i == 207 {
        } else if i == 208 {
        } else if i == 209 {
        } else if i == 210 {
        } else if i == 211 {
        } else if i == 212 {
        } else if i == 213 {
        } else if i == 214 {
        } else if i == 215 {
        } else if i == 216 {
        } else if i == 217 {
        } else if i == 218 {
        } else if i == 219 {
        } else if i == 220 {
        } else if i == 221 {
        } else if i == 222 {
        } else if i == 223 {
        } else if i == 224 {
        } else if i == 225 {
        } else if i == 226 {
        } else if i == 227 {
        } else if i == 228 {
        } else if i == 229 {
        } else if i == 230 {
        } else if i == 231 {
        }
    }
    lemma_reordered_distinct(spelling_column(), spelling_sorted(), pos, perm);
}

/// The keyword table's spellings are those of the column.
proof fn lemma_spelling_table()
    ensures
        keyword_table().len() == 116,
        forall|i: int| 0 <= i < 116 ==> #[trigger] keyword_table()[i] == (spelling_column()[2 * i], spelling_column()[2 * i + 1]),
{
    assert(keyword_table().len() == 116);
    assert forall|i: int| 0 <= i < 116 implies #[trigger] keyword_table()[i] == (spelling_column()[2 * i], spelling_column()[2 * i + 1]) by {
        if i == 0 {
        } else if i == 1 {
        } else if i == 2 {
        } else if i == 3 {
        } else if i == 4 {
        } else if i == 5 {
        } else if i == 6 {
        } else if i == 7 {
        } else if i == 8 {
        } else if i == 9 {
        } else if i == 10 {
        } else if i == 11 {
        } else if i == 12 {
        } else if i == 13 {
        } else if i == 14 {
        } else if i == 15 {
        } else if i == 16 {
        } else if i == 17 {
        } else if i == 18 {
        } else if i == 19 {
        } else if i == 20 {
        } else if i == 21 {
        } else if i == 22 {
        } else if i == 23 {
        } else if i == 24 {
        } else if i == 25 {
        } else if i == 26 {
        } else if i == 27 {
        } else if i == 28 {
        } else if i == 29 {
        } else if i == 30 {
        } else if i == 31 {
        } else if i == 32 {
        } else if i == 33 {
        } else if i == 34 {
        } else if i == 35 {
        } else if i == 36 {
        } else if i == 37 {
        } else if i == 38 {
        } else if i == 39 {
        } else if i == 40 {
        } else if i == 41 {
        } else if i == 42 {
        } else if i == 43 {
        } else if i == 44 {
        } else if i == 45 {
        } else if i == 46 {
        } else if i == 47 {
        } else if i == 48 {
        } else if i == 49 {
        } else if i == 50 {
        } else if i == 51 {
        } else if i == 52 {
        } else if i == 53 {
        } else if i == 54 {
        } else if i == 55 {
        } else if i == 56 {
        } else if i == 57 {
        } else if i == 58 {
        } else if i == 59 {
        } else if i == 60 {
        } else if i == 61 {
        } else if i == 62 {
        } else if i == 63 {
        } else if i == 64 {
        } else if i == 65 {
        } else if i == 66 {
        } else if i == 67 {
        } else if i == 68 {
        } else if i == 69 {
        } else if i == 70 {
        } else if i == 71 {
        } else if i == 72 {
        } else if i == 73 {
        } else if i == 74 {
        } else if i == 75 {
        } else if i == 76 {
        } else if i == 77 {
        } else if i == 78 {
        } else if i == 79 {
        } else if i == 80 {
        } else if i == 81 {
        } else if i == 82 {
        } else if i == 83 {
        } else if i == 84 {
        } else if i == 85 {
        } else if i == 86 {
        } else if i == 87 {
        } else if i == 88 {
        } else if i == 89 {
        } else if i == 90 {
        } else if i == 91 {
        } else if i == 92 {
        } else if i == 93 {
        } else if i == 94 {
        } else if i == 95 {
        } else if i == 96 {
        } else if i == 97 {
        } else if i == 98 {
        } else if i == 99 {
        } else if i == 100 {
        } else if i == 101 {
        } else if i == 102 {
        } else if i == 103 {
        } else if i == 104 {
        } else if i == 105 {
        } else if i == 106 {
        } else if i == 107 {
        } else if i == 108 {
        } else if i == 109 {
        } else if i == 110 {
        } else if i == 111 {
        } else if i == 112 {
        } else if i == 113 {
        } else if i == 114 {
        } else if i == 115 {
        }
    }
}

/// Both spellings of every keyword are unique across the table: no two
/// keywords share an English or a Chinese spelling, and no English
/// spelling is also a Chinese one.
pub proof fn lemma_keywords_unique()
    ensures
        forall|i: int, j: int| 0 <= i < keyword_table().len() && 0 <= j < keyword_table().len() ==> {
            &&& (i != j ==> keyword_table()[i].0 != keyword_table()[j].0)
            &&& (i != j ==> keyword_table()[i].1 != keyword_table()[j].1)
            &&& keyword_table()[i].0 != keyword_table()[j].1
        },
{
    lemma_spelling_table();
    lemma_spelling_distinct();
    assert forall|i: int, j: int| 0 <= i < keyword_table().len() && 0 <= j < keyword_table().len() implies {
        &&& (i != j ==> keyword_table()[i].0 != keyword_table()[j].0)
        &&& (i != j ==> keyword_table()[i].1 != keyword_table()[j].1)
        &&& keyword_table()[i].0 != keyword_table()[j].1
    } by {
        assert(keyword_table()[i] == (spelling_column()[2 * i], spelling_column()[2 * i + 1]));
        assert(keyword_table()[j] == (spelling_column()[2 * j], spelling_column()[2 * j + 1]));
    }
}

/// The first entry with English spelling `w` is the only one.
proof fn lemma_first_english_unique(t: Seq<(Seq<char>, Seq<char>)>, w: Seq<char>, i: int, j: int)
    requires
        0 <= i <= j < t.len(),
        t[j].0 == w,
        forall|k: int| 0 <= k < t.len() && k != j ==> t[k].0 != w,
    ensures
        first_english(t, w, i) == Some(j),
    decreases j - i,
{
    if i < j {
        lemma_first_english_unique(t, w, i + 1, j);
    }
}

/// Both spellings of a keyword match it, and no spelling of one keyword
/// matches another: the English and Chinese forms of a program name the
/// same keywords.
pub proof fn lemma_spellings_match(i: int, j: int)
    requires
        0 <= i < keyword_table().len(),
        0 <= j < keyword_table().len(),
    ensures
        word_matches_spec(keyword_table()[i].0, keyword_table()[j].0) <==> i == j,
        word_matches_spec(keyword_table()[i].1, keyword_table()[j].0) <==> i == j,
{
    let t = keyword_table();
    lemma_keywords_unique();
    assert forall|k: int| 0 <= k < t.len() && k != j implies t[k].0 != t[j].0 by {
        assert(t[k].0 != t[j].0);
    }
    lemma_first_english_unique(t, t[j].0, 0, j);
    assert(keyword_alias_spec(t[j].0) == Some(t[j].1));
    if i != j {
        assert(t[i].0 != t[j].0);
        assert(t[i].0 != t[j].1);
        assert(t[i].1 != t[j].0);
        assert(t[i].1 != t[j].1);
    }
}

} // verus!
