use mclang::json::Json;
use mclang::version::snapshot::tables::{
    closest, namespace_of, Snapshot, SnapshotError,
};
use mclang::version::snapshot::{decimal_chars, parse_usize, Slots};

fn chars(s: &str) -> Vec<char> {
    s.chars().collect()
}

fn slot_snapshot() -> Snapshot {
    Snapshot::from_texts(
        r#"{"enchantment_max_levels": {}, "slots": {"single": ["weapon", "armor.head"], "multi": ["hotbar.*"], "ranges": {"container.": 3, "hotbar.": 2, "bad.": -1}}}"#,
        "{}",
        "{}",
        "{}",
    )
    .ok()
    .expect("valid snapshot")
}

#[test]
fn usize_parsing_follows_from_str() {
    assert_eq!(parse_usize(&chars("42")), Some(42));
    assert_eq!(parse_usize(&chars("+7")), Some(7));
    assert_eq!(parse_usize(&chars("007")), Some(7));
    assert_eq!(parse_usize(&chars("")), None);
    assert_eq!(parse_usize(&chars("+")), None);
    assert_eq!(parse_usize(&chars("-1")), None);
    assert_eq!(parse_usize(&chars("1a")), None);
    assert_eq!(parse_usize(&chars("99999999999999999999999")), None);
}

#[test]
fn decimal_spelling_reads_back() {
    for n in [0usize, 7, 10, 42, 1000, 123456789] {
        let text = decimal_chars(n);
        assert_eq!(text.iter().collect::<String>(), n.to_string());
        assert_eq!(parse_usize(&text), Some(n));
    }
}

#[test]
fn single_slots_need_canonical_indices() {
    let snapshot = slot_snapshot();
    let slots = snapshot.slots();
    assert!(slots.accepts_single("weapon"));
    assert!(slots.accepts_single("container.2"));
    assert!(!slots.accepts_single("container.3"));
    assert!(!slots.accepts_single("container.02"));
    assert!(!slots.accepts_single("container.+1"));
    assert!(!slots.accepts_single("hotbar.*"));
}

#[test]
fn slots_accept_ranges_and_sets() {
    let snapshot = slot_snapshot();
    let slots = snapshot.slots();
    assert!(slots.accepts("weapon"));
    assert!(slots.accepts("hotbar.*"));
    assert!(slots.accepts("container.*"));
    assert!(slots.accepts("container.2"));
    assert!(!slots.accepts("container.02"));
    assert!(!slots.accepts("container.01"));
    assert!(!slots.accepts("container.3"));
    assert!(!slots.accepts("bad.0"));
    assert!(!slots.accepts("unknown"));
}

#[test]
fn slot_names_expand_ranges_in_order() {
    let snapshot = slot_snapshot();
    let slots = snapshot.slots();
    assert_eq!(
        slots.names(),
        vec!["armor.head", "container.0", "container.1", "container.2", "hotbar.*", "hotbar.0", "hotbar.1", "weapon"]
    );
    for name in slots.names() {
        assert!(name == "hotbar.*" || slots.accepts_single(&name));
        assert!(slots.accepts(&name));
    }
}

#[test]
fn empty_slot_table_for_non_objects() {
    let slots = Slots::from_value(None);
    assert!(slots.names().is_empty());
    let value = Json::Array(vec![Json::Number(Some(1)), Json::Number(Some(2))]);
    assert!(!Slots::from_value(Some(&value)).accepts("x"));
}

#[test]
fn namespaces_default_to_minecraft() {
    let ns = |s: &str| namespace_of(&chars(s)).into_iter().collect::<String>();
    assert_eq!(ns("minecraft:stone"), "minecraft");
    assert_eq!(ns("stone"), "minecraft");
    assert_eq!(ns("pack:stone"), "pack");
    assert_eq!(ns("a:b:c"), "a");
}

#[test]
fn closest_keeps_the_first_of_the_nearest() {
    let candidates: Vec<String> = vec!["stone".into(), "stones".into(), "store".into(), "dirt".into()];
    assert_eq!(closest("ston", &candidates).as_deref(), Some("stone"));
    assert_eq!(closest("stonez", &candidates).as_deref(), Some("stone"));
    assert_eq!(closest("granite", &candidates), None);
    assert_eq!(closest("a-very-long-name", &candidates), None);
}

fn snapshot() -> Snapshot {
    Snapshot::from_texts(
        r#"{
        "enchantment_max_levels": {"minecraft:sharpness": 5},
        "registries": {"item": ["minecraft:stone", "minecraft:dirt"], "loot_condition_type": ["minecraft:random_chance"]},
        "resource_kinds": ["recipe", "predicate"],
        "tag_registries": ["block", "item"],
        "slots": {"single": ["weapon"]}
    }"#,
        r#"{"enums": {"gamemode": ["survival", "creative", "adventure", "spectator"]}}"#,
        r#"{"commands": {"say": {"name": "say", "level": 2}, "help": {"name": "help"}}}"#,
        r#"{"triggers": {"minecraft:tick": {"player": "entity_predicate"}, "minecraft:impossible": 3}}"#,
    )
    .ok()
    .expect("valid snapshot")
}

#[test]
fn registry_queries() {
    let snapshot = snapshot();
    assert_eq!(snapshot.registry_contains("item", "minecraft:stone"), Some(true));
    assert_eq!(snapshot.registry_contains("item", "minecraft:granite"), Some(false));
    assert_eq!(snapshot.registry_contains("item", "pack:stone"), None);
    assert_eq!(snapshot.registry_contains("block", "minecraft:stone"), None);
    assert_eq!(snapshot.registry_contains("item", "stone"), Some(false));
    assert_eq!(snapshot.registry_contains_exact("loot_condition_type", "random_chance"), Some(false));
    assert!(snapshot.knows_registry("item"));
    assert!(!snapshot.knows_registry("block"));
    assert_eq!(snapshot.suggest_registry_id("item", "minecraft:ston").as_deref(), Some("minecraft:stone"));
    assert_eq!(snapshot.suggest_registry_id("item", "pack:ston"), None);
    assert_eq!(snapshot.enchantment_max_level("minecraft:sharpness"), Some(5));
    assert_eq!(snapshot.enchantment_max_level("minecraft:mending"), None);
}

#[test]
fn invalid_level_table_is_refused() {
    let load = |registries: &str| Snapshot::from_texts(registries, "{}", "{}", "{}").err();
    assert_eq!(load(r#"{"enchantment_max_levels": {"minecraft:sharpness": 1.5}}"#), Some(SnapshotError::InvalidLevels));
    assert_eq!(load(r#"{"enchantment_max_levels": [1]}"#), Some(SnapshotError::InvalidLevels));
    assert_eq!(load("{"), Some(SnapshotError::InvalidJson));
    assert_eq!(
        Snapshot::from_texts(r#"{"enchantment_max_levels": {}}"#, "{}", "[", "{}").err(),
        Some(SnapshotError::InvalidJson)
    );
}

#[test]
fn resource_kinds_and_tag_registries() {
    let snapshot = snapshot();
    assert!(snapshot.resource_kind_supported("recipe"));
    assert!(snapshot.resource_kind_supported("tags/function"));
    assert!(snapshot.resource_kind_supported("tags/item"));
    assert!(!snapshot.resource_kind_supported("tags/entity_type"));
    assert!(!snapshot.resource_kind_supported("loot_table"));
    assert!(snapshot.slots().accepts("weapon"));
}

#[test]
fn enum_queries() {
    let snapshot = snapshot();
    assert!(snapshot.enum_contains("gamemode", "creative"));
    assert!(!snapshot.enum_contains("gamemode", "hardcore"));
    assert!(!snapshot.enum_contains("difficulty", "easy"));
    assert_eq!(snapshot.enum_values("gamemode").map(|v| v.len()), Some(4));
    assert_eq!(snapshot.suggest_enum("gamemode", "creativ").as_deref(), Some("creative"));
}

#[test]
fn command_queries() {
    let snapshot = snapshot();
    assert!(snapshot.has_root_command("say"));
    assert!(!snapshot.has_root_command("tp"));
    assert_eq!(snapshot.root_command_level("say"), Some(2));
    assert_eq!(snapshot.root_command_level("help"), None);
    assert_eq!(snapshot.command_names(), vec!["help", "say"]);
}

#[test]
fn trigger_queries() {
    let snapshot = snapshot();
    assert!(snapshot.trigger_fields("minecraft:tick").is_some());
    assert!(snapshot.trigger_fields("minecraft:impossible").is_none());
    assert_eq!(snapshot.suggest_trigger_field("minecraft:tick", "playr").as_deref(), Some("player"));
    assert_eq!(snapshot.suggest_trigger_field("minecraft:unknown", "player"), None);
}
