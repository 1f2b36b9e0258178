//! Chinese aliases for common entity NBT tags (alias → canonical English
//! key). Aliases apply to top-level keys of entity data and block-entity
//! data; the English keys always remain valid.

use vstd::prelude::*;

verus! {

broadcast use vstd::string::group_string_axioms;

/// The alias table, alias first, in its fixed order.
pub open spec fn alias_table() -> Seq<(Seq<char>, Seq<char>)> {
    seq![
        ("自定义名称"@, "CustomName"@),
        ("名称可见"@, "CustomNameVisible"@),
        ("静音"@, "Silent"@),
        ("发光"@, "Glowing"@),
        ("无敌"@, "Invulnerable"@),
        ("无重力"@, "NoGravity"@),
        ("标签"@, "Tags"@),
        ("自定义数据"@, "data"@),
        ("坐标"@, "Pos"@),
        ("速度"@, "Motion"@),
        ("朝向"@, "Rotation"@),
        ("着火时间"@, "Fire"@),
        ("氧气"@, "Air"@),
        ("在地面"@, "OnGround"@),
        ("传送门冷却"@, "PortalCooldown"@),
        ("冰冻时间"@, "TicksFrozen"@),
        ("下落距离"@, "fall_distance"@),
        ("无敌时间"@, "invulnerable_time"@),
        ("队伍"@, "Team"@),
        ("视觉火焰"@, "HasVisualFire"@),
        ("无AI"@, "NoAI"@),
        ("生命"@, "Health"@),
        ("持久化"@, "PersistenceRequired"@),
        ("可拾取物品"@, "CanPickUpLoot"@),
        ("左手"@, "LeftHanded"@),
        ("死亡战利品表"@, "DeathLootTable"@),
        ("死亡战利品表种子"@, "DeathLootTableSeed"@),
        ("掉落概率"@, "drop_chances"@),
        ("活动半径"@, "home_radius"@),
        ("活动中心"@, "home_pos"@),
        ("属性"@, "attributes"@),
        ("状态效果"@, "active_effects"@),
        ("装备"@, "equipment"@),
        ("大脑"@, "Brain"@),
        ("滑翔"@, "FallFlying"@),
        ("睡眠中"@, "Sleeping"@),
        ("睡觉位置"@, "sleeping_pos"@),
        ("受伤时间"@, "HurtTime"@),
        ("死亡时间"@, "DeathTime"@),
        ("伤害吸收"@, "AbsorptionAmount"@),
        ("求偶"@, "InLove"@),
        ("年龄"@, "Age"@),
        ("年龄锁定"@, "AgeLocked"@),
        ("强制年龄"@, "ForcedAge"@),
        ("已繁殖"@, "Bred"@),
        ("已驯服"@, "Tame"@),
        ("脾气"@, "Temper"@),
        ("坐下"@, "Sitting"@),
        ("潜行"@, "Crouching"@),
        ("隐身"@, "Invisible"@),
        ("标记"@, "Marker"@),
        ("充能"@, "powered"@),
        ("爆炸半径"@, "ExplosionRadius"@),
        ("爆炸威力"@, "ExplosionPower"@),
        ("已点燃"@, "ignited"@),
        ("幼年"@, "IsBaby"@),
        ("可破坏门"@, "CanBreakDoors"@),
        ("可参与袭击"@, "CanJoinRaid"@),
        ("巡逻中"@, "Patrolling"@),
        ("巡逻队长"@, "PatrolLeader"@),
        ("施法时间"@, "SpellTicks"@),
        ("大小"@, "Size"@),
        ("颜色"@, "Color"@),
        ("变种"@, "Variant"@),
        ("来自桶"@, "FromBucket"@),
        ("湿度"@, "Moistness"@),
        ("抓到鱼"@, "GotFish"@),
        ("有花蜜"@, "HasNectar"@),
        ("已蜇"@, "HasStung"@),
        ("项圈颜色"@, "CollarColor"@),
        ("交易列表"@, "Offers"@),
        ("村民数据"@, "VillagerData"@),
        ("传闻"@, "Gossips"@),
        ("今日补货"@, "RestocksToday"@),
        ("上次补货"@, "LastRestock"@),
        ("饥饿值"@, "FoodLevel"@),
        ("分数"@, "Score"@),
        ("选中槽位"@, "SelectedItemSlot"@),
        ("能力"@, "abilities"@),
        ("经验等级"@, "XpLevel"@),
        ("经验进度"@, "XpP"@),
        ("经验总量"@, "XpTotal"@),
        ("经验种子"@, "XpSeed"@),
        ("上次死亡位置"@, "LastDeathLocation"@),
        ("睡眠计时"@, "SleepTimer"@),
        ("兔子类型"@, "RabbitType"@),
        ("膨胀状态"@, "PuffState"@),
        ("南瓜头"@, "Pumpkin"@),
        ("杀手兔"@, "Johnny"@),
        ("信任"@, "Trusting"@),
        ("鸡骑士"@, "IsChickenJockey"@),
        ("免疫僵尸化"@, "IsImmuneToZombification"@),
        ("尖叫山羊"@, "IsScreamingGoat"@),
        ("有左角"@, "HasLeftHorn"@),
        ("有右角"@, "HasRightHorn"@),
        ("吃草"@, "EatingHaystack"@),
        ("携带箱子"@, "ChestedHorse"@),
        ("驮运强度"@, "Strength"@),
        ("消失延迟"@, "DespawnDelay"@),
        ("声音变种"@, "sound_variant"@),
        ("拾取延迟"@, "PickupDelay"@),
        ("穿透等级"@, "PierceLevel"@),
        ("暴击"@, "crit"@),
        ("可拾取"@, "pickup"@),
        ("斜射"@, "ShotAtAngle"@),
        ("方块状态"@, "BlockState"@),
        ("方块实体数据"@, "TileEntityData"@),
        ("文本"@, "text"@),
        ("背景色"@, "background"@),
        ("对齐"@, "alignment"@),
        ("行宽"@, "line_width"@),
        ("文本透明度"@, "text_opacity"@),
        ("亮度"@, "brightness"@),
        ("发光颜色"@, "glow_color_override"@),
        ("变换"@, "transformation"@),
        ("插值时长"@, "interpolation_duration"@),
        ("传送时长"@, "teleport_duration"@),
        ("可视距离"@, "view_range"@),
        ("阴影半径"@, "shadow_radius"@),
        ("阴影强度"@, "shadow_strength"@),
        ("宽度"@, "width"@),
        ("高度"@, "height"@),
        ("展示方块"@, "block_state"@),
        ("展示物品"@, "item_display"@),
        ("烟花物品"@, "FireworksItem"@),
    ]
}

/// The views of a table of string pairs.
pub open spec fn pair_views(t: Seq<(&str, &str)>) -> Seq<(Seq<char>, Seq<char>)> {
    t.map_values(|p: (&str, &str)| (p.0@, p.1@))
}

/// The alias table.
pub fn chinese_aliases() -> (r: Vec<(&'static str, &'static str)>)
    ensures
        pair_views(r@) == alias_table(),
{
    let r = vec![
        ("自定义名称", "CustomName"),
        ("名称可见", "CustomNameVisible"),
        ("静音", "Silent"),
        ("发光", "Glowing"),
        ("无敌", "Invulnerable"),
        ("无重力", "NoGravity"),
        ("标签", "Tags"),
        ("自定义数据", "data"),
        ("坐标", "Pos"),
        ("速度", "Motion"),
        ("朝向", "Rotation"),
        ("着火时间", "Fire"),
        ("氧气", "Air"),
        ("在地面", "OnGround"),
        ("传送门冷却", "PortalCooldown"),
        ("冰冻时间", "TicksFrozen"),
        ("下落距离", "fall_distance"),
        ("无敌时间", "invulnerable_time"),
        ("队伍", "Team"),
        ("视觉火焰", "HasVisualFire"),
        ("无AI", "NoAI"),
        ("生命", "Health"),
        ("持久化", "PersistenceRequired"),
        ("可拾取物品", "CanPickUpLoot"),
        ("左手", "LeftHanded"),
        ("死亡战利品表", "DeathLootTable"),
        ("死亡战利品表种子", "DeathLootTableSeed"),
        ("掉落概率", "drop_chances"),
        ("活动半径", "home_radius"),
        ("活动中心", "home_pos"),
        ("属性", "attributes"),
        ("状态效果", "active_effects"),
        ("装备", "equipment"),
        ("大脑", "Brain"),
        ("滑翔", "FallFlying"),
        ("睡眠中", "Sleeping"),
        ("睡觉位置", "sleeping_pos"),
        ("受伤时间", "HurtTime"),
        ("死亡时间", "DeathTime"),
        ("伤害吸收", "AbsorptionAmount"),
        ("求偶", "InLove"),
        ("年龄", "Age"),
        ("年龄锁定", "AgeLocked"),
        ("强制年龄", "ForcedAge"),
        ("已繁殖", "Bred"),
        ("已驯服", "Tame"),
        ("脾气", "Temper"),
        ("坐下", "Sitting"),
        ("潜行", "Crouching"),
        ("隐身", "Invisible"),
        ("标记", "Marker"),
        ("充能", "powered"),
        ("爆炸半径", "ExplosionRadius"),
        ("爆炸威力", "ExplosionPower"),
        ("已点燃", "ignited"),
        ("幼年", "IsBaby"),
        ("可破坏门", "CanBreakDoors"),
        ("可参与袭击", "CanJoinRaid"),
        ("巡逻中", "Patrolling"),
        ("巡逻队长", "PatrolLeader"),
        ("施法时间", "SpellTicks"),
        ("大小", "Size"),
        ("颜色", "Color"),
        ("变种", "Variant"),
        ("来自桶", "FromBucket"),
        ("湿度", "Moistness"),
        ("抓到鱼", "GotFish"),
        ("有花蜜", "HasNectar"),
        ("已蜇", "HasStung"),
        ("项圈颜色", "CollarColor"),
        ("交易列表", "Offers"),
        ("村民数据", "VillagerData"),
        ("传闻", "Gossips"),
        ("今日补货", "RestocksToday"),
        ("上次补货", "LastRestock"),
        ("饥饿值", "FoodLevel"),
        ("分数", "Score"),
        ("选中槽位", "SelectedItemSlot"),
        ("能力", "abilities"),
        ("经验等级", "XpLevel"),
        ("经验进度", "XpP"),
        ("经验总量", "XpTotal"),
        ("经验种子", "XpSeed"),
        ("上次死亡位置", "LastDeathLocation"),
        ("睡眠计时", "SleepTimer"),
        ("兔子类型", "RabbitType"),
        ("膨胀状态", "PuffState"),
        ("南瓜头", "Pumpkin"),
        ("杀手兔", "Johnny"),
        ("信任", "Trusting"),
        ("鸡骑士", "IsChickenJockey"),
        ("免疫僵尸化", "IsImmuneToZombification"),
        ("尖叫山羊", "IsScreamingGoat"),
        ("有左角", "HasLeftHorn"),
        ("有右角", "HasRightHorn"),
        ("吃草", "EatingHaystack"),
        ("携带箱子", "ChestedHorse"),
        ("驮运强度", "Strength"),
        ("消失延迟", "DespawnDelay"),
        ("声音变种", "sound_variant"),
        ("拾取延迟", "PickupDelay"),
        ("穿透等级", "PierceLevel"),
        ("暴击", "crit"),
        ("可拾取", "pickup"),
        ("斜射", "ShotAtAngle"),
        ("方块状态", "BlockState"),
        ("方块实体数据", "TileEntityData"),
        ("文本", "text"),
        ("背景色", "background"),
        ("对齐", "alignment"),
        ("行宽", "line_width"),
        ("文本透明度", "text_opacity"),
        ("亮度", "brightness"),
        ("发光颜色", "glow_color_override"),
        ("变换", "transformation"),
        ("插值时长", "interpolation_duration"),
        ("传送时长", "teleport_duration"),
        ("可视距离", "view_range"),
        ("阴影半径", "shadow_radius"),
        ("阴影强度", "shadow_strength"),
        ("宽度", "width"),
        ("高度", "height"),
        ("展示方块", "block_state"),
        ("展示物品", "item_display"),
        ("烟花物品", "FireworksItem"),
    ];
    assert(pair_views(r@) =~= alias_table());
    r
}

/// The first entry at or after `i` whose alias (`by_alias`) or canonical
/// key (otherwise) is `word`.
pub open spec fn first_entry(t: Seq<(Seq<char>, Seq<char>)>, word: Seq<char>, by_alias: bool, i: int) -> Option<int>
    decreases t.len() - i,
{
    if i < 0 || i >= t.len() {
        None
    } else if (if by_alias { t[i].0 } else { t[i].1 }) == word {
        Some(i)
    } else {
        first_entry(t, word, by_alias, i + 1)
    }
}

/// The canonical key of an alias, from its first entry.
pub open spec fn canonical_key(word: Seq<char>) -> Option<Seq<char>> {
    match first_entry(alias_table(), word, true, 0) {
        Some(i) => Some(alias_table()[i].1),
        None => None,
    }
}

/// The preferred alias of a canonical key, from its first entry.
pub open spec fn preferred_alias(key: Seq<char>) -> Option<Seq<char>> {
    match first_entry(alias_table(), key, false, 0) {
        Some(i) => Some(alias_table()[i].0),
        None => None,
    }
}

/// The index of the first entry whose alias (`by_alias`) or key is `word`.
fn find_entry(t: &Vec<(&'static str, &'static str)>, word: &str, by_alias: bool) -> (r: Option<usize>)
    ensures
        match (r, first_entry(pair_views(t@), word@, by_alias, 0)) {
            (Some(i), Some(j)) => i == j && i < t@.len(),
            (None, None) => true,
            _ => false,
        },
{
    let mut i: usize = 0;
    while i < t.len()
        invariant
            i <= t@.len(),
            first_entry(pair_views(t@), word@, by_alias, i as int) == first_entry(pair_views(t@), word@, by_alias, 0),
        decreases t.len() - i,
    {
        let (alias, key) = t[i];
        let candidate = if by_alias { alias } else { key };
        assert(pair_views(t@)[i as int] == (alias@, key@));
        if crate::chars::str_eq(candidate, word) {
            return Some(i);
        }
        i += 1;
    }
    None
}

/// Chinese alias → canonical English key.
pub fn chinese_alias(word: &str) -> (r: Option<&'static str>)
    ensures
        match (r, canonical_key(word@)) {
            (Some(k), Some(s)) => k@ == s,
            (None, None) => true,
            _ => false,
        },
{
    let table = chinese_aliases();
    match find_entry(&table, word, true) {
        Some(i) => Some(table[i].1),
        None => None,
    }
}

/// Canonical English key → its preferred Chinese alias, so that diagnostics
/// can give both spellings.
pub fn alias_of(key: &str) -> (r: Option<&'static str>)
    ensures
        match (r, preferred_alias(key@)) {
            (Some(a), Some(s)) => a@ == s,
            (None, None) => true,
            _ => false,
        },
{
    let table = chinese_aliases();
    match find_entry(&table, key, false) {
        Some(i) => Some(table[i].0),
        None => None,
    }
}

/// The first matching entry from `start` is the first one whose column
/// holds `word`.
proof fn lemma_first_entry(t: Seq<(Seq<char>, Seq<char>)>, word: Seq<char>, by_alias: bool, start: int)
    requires
        0 <= start,
    ensures
        match first_entry(t, word, by_alias, start) {
            Some(i) => start <= i < t.len() && (if by_alias { t[i].0 } else { t[i].1 }) == word,
            None => forall|j: int| start <= j < t.len() ==> (if by_alias { t[j].0 } else { t[j].1 }) != word,
        },
    decreases t.len() - start,
{
    if start < t.len() {
        lemma_first_entry(t, word, by_alias, start + 1);
    }
}

/// Aliases and canonical keys pair one to one: the key of an alias leads
/// back to that alias, and the alias of a key leads back to that key.
pub proof fn lemma_alias_bijection(alias: Seq<char>, key: Seq<char>)
    ensures
        canonical_key(alias) == Some(key) <==> preferred_alias(key) == Some(alias),
{
    super::alias_columns::lemma_columns();
    super::alias_columns::lemma_alias_distinct();
    super::alias_columns::lemma_key_distinct();
    let t = alias_table();
    lemma_first_entry(t, alias, true, 0);
    lemma_first_entry(t, key, false, 0);
    if let Some(i) = first_entry(t, alias, true, 0) {
        if t[i].1 == key {
            if let Some(j) = first_entry(t, key, false, 0) {
                if i != j {
                    assert(t[i] == (super::alias_columns::alias_column()[i], super::alias_columns::key_column()[i]));
                    assert(t[j] == (super::alias_columns::alias_column()[j], super::alias_columns::key_column()[j]));
                }
            }
        }
    }
    if let Some(j) = first_entry(t, key, false, 0) {
        if t[j].0 == alias {
            if let Some(i) = first_entry(t, alias, true, 0) {
                if i != j {
                    assert(t[i] == (super::alias_columns::alias_column()[i], super::alias_columns::key_column()[i]));
                    assert(t[j] == (super::alias_columns::alias_column()[j], super::alias_columns::key_column()[j]));
                }
            }
        }
    }
}

} // verus!
