use mclang::version::entity_nbt::aliases::{alias_of, chinese_alias, chinese_aliases};
use mclang::version::entity_nbt::{strip_namespace, EntityNbtCatalog, EntityTagType};

const SNAPSHOT: &str = r#"{
  "source": "test",
  "tags": {
    "CustomName": "component",
    "Health": "number",
    "NoAI": "bool",
    "Tags": "string_list",
    "Pos": "numeric_list",
    "data": "compound"
  },
  "entities": {
    "minecraft:zombie": ["Health", "NoAI", "Pos", "Tags", "CustomName"],
    "minecraft:marker": ["Pos", "data", 7]
  }
}"#;

fn catalog() -> EntityNbtCatalog {
    match EntityNbtCatalog::from_json(SNAPSHOT) {
        Ok(catalog) => catalog,
        Err(message) => panic!("snapshot should load: {message}"),
    }
}

const ALL_TYPES: [EntityTagType; 10] = [
    EntityTagType::Bool,
    EntityTagType::Number,
    EntityTagType::String,
    EntityTagType::Component,
    EntityTagType::List,
    EntityTagType::NumericList,
    EntityTagType::StringList,
    EntityTagType::Compound,
    EntityTagType::IntArray,
    EntityTagType::Any,
];

#[test]
fn tag_type_spellings_round_trip() {
    for t in ALL_TYPES {
        assert_eq!(EntityTagType::parse(t.as_str()), Some(t));
    }
    assert_eq!(EntityTagType::Bool.as_str(), "bool");
    assert_eq!(EntityTagType::NumericList.as_str(), "numeric_list");
    assert_eq!(EntityTagType::IntArray.as_str(), "int_array");
    assert_eq!(EntityTagType::parse("Bool"), None);
    assert_eq!(EntityTagType::parse(""), None);
}

#[test]
fn tag_type_labels() {
    assert_eq!(EntityTagType::Bool.label(), "布尔值（true/false 或 0b/1b）");
    assert_eq!(EntityTagType::IntArray.label(), "整数数组（如 [I; 1, 2, 3]）");
    assert_eq!(EntityTagType::Any.label(), "任意 NBT 值");
}

#[test]
fn merge_widens_conflicts_in_any_order() {
    for a in ALL_TYPES {
        assert_eq!(a.merge(a), a);
        assert_eq!(a.merge(EntityTagType::Any), EntityTagType::Any);
        for b in ALL_TYPES {
            assert_eq!(a.merge(b), b.merge(a));
            for c in ALL_TYPES {
                assert_eq!(a.merge(b).merge(c), a.merge(b.merge(c)));
            }
        }
    }
    assert_eq!(EntityTagType::Bool.merge(EntityTagType::Number), EntityTagType::Any);
}

#[test]
fn catalog_knows_tags_and_types() {
    let catalog = catalog();
    assert!(catalog.knows("NoAI"));
    assert!(!catalog.knows("NoAi"));
    assert_eq!(catalog.tag_type("Health"), Some(EntityTagType::Number));
    assert_eq!(catalog.tag_type("Pos"), Some(EntityTagType::NumericList));
    assert_eq!(catalog.tag_type("Motion"), None);
}

#[test]
fn entity_namespace_is_optional() {
    let catalog = catalog();
    let namespaced = catalog.entity_tags("minecraft:zombie").expect("zombie is known");
    let bare = catalog.entity_tags("zombie").expect("zombie is known");
    assert_eq!(namespaced.keys(), bare.keys());
    assert_eq!(bare.keys(), vec!["CustomName", "Health", "NoAI", "Pos", "Tags"]);
    assert!(bare.contains("NoAI"));
    assert!(!bare.contains("data"));
    assert!(catalog.entity_tags("minecraft:creeper").is_none());
    assert!(catalog.entity_tags("other:zombie").is_none());
    let strip = |s: &str| strip_namespace(&s.chars().collect::<Vec<_>>()).into_iter().collect::<String>();
    assert_eq!(strip("minecraft:pig"), "pig");
    assert_eq!(strip("pig"), "pig");
    assert_eq!(strip("minecraft:minecraft:pig"), "minecraft:pig");
}

#[test]
fn non_string_keys_are_ignored() {
    let catalog = catalog();
    let marker = catalog.entity_tags("marker").expect("marker is known");
    assert_eq!(marker.keys(), vec!["Pos", "data"]);
    assert_eq!(marker.len(), 2);
}

#[test]
fn suggest_prefers_close_english_keys() {
    let catalog = catalog();
    assert_eq!(catalog.suggest("NoAi", None).as_deref(), Some("`NoAI`"));
    assert_eq!(catalog.suggest("helth", None).as_deref(), Some("`Health`"));
    assert_eq!(catalog.suggest("Completely", None), None);
}

#[test]
fn suggest_offers_chinese_aliases() {
    let catalog = catalog();
    assert_eq!(catalog.suggest("无ai", None).as_deref(), Some("`无AI`（英文 `NoAI`）"));
}

#[test]
fn suggest_respects_allowed_keys() {
    let catalog = catalog();
    let marker = catalog.entity_tags("marker").expect("marker is known");
    assert_eq!(catalog.suggest("NoAi", Some(marker)), None);
    assert_eq!(catalog.suggest("pos", Some(marker)).as_deref(), Some("`Pos`"));
}

#[test]
fn invalid_json_is_reported() {
    match EntityNbtCatalog::from_json("{ not json") {
        Err(message) => assert!(message.starts_with("快照 JSON 无效："), "{message}"),
        Ok(_) => panic!("invalid JSON must fail"),
    }
}

#[test]
fn unknown_tag_type_is_reported() {
    let text = r#"{"tags": {"Health": "number", "Odd": "float"}}"#;
    match EntityNbtCatalog::from_json(text) {
        Err(message) => assert_eq!(message, "标签 `Odd` 的类型无法识别"),
        Ok(_) => panic!("unknown type must fail"),
    }
    let text = r#"{"tags": {"Odd": 3}}"#;
    match EntityNbtCatalog::from_json(text) {
        Err(message) => assert_eq!(message, "标签 `Odd` 的类型无法识别"),
        Ok(_) => panic!("non-string type must fail"),
    }
}

#[test]
fn entity_tag_list_must_be_an_array() {
    let text = r#"{"entities": {"minecraft:pig": "Saddle"}}"#;
    match EntityNbtCatalog::from_json(text) {
        Err(message) => assert_eq!(message, "实体 `minecraft:pig` 的标签表必须是数组"),
        Ok(_) => panic!("non-array must fail"),
    }
}

#[test]
fn missing_sections_give_an_empty_catalog() {
    let catalog = EntityNbtCatalog::from_json("[]").expect("an array root has no sections");
    assert!(!catalog.knows("Health"));
    assert!(catalog.entity_tags("zombie").is_none());
}

#[test]
fn aliases_pair_one_to_one() {
    for (alias, key) in chinese_aliases() {
        assert_eq!(chinese_alias(alias), Some(key));
        assert_eq!(alias_of(key), Some(alias));
    }
    assert_eq!(chinese_alias("无AI"), Some("NoAI"));
    assert_eq!(alias_of("NoAI"), Some("无AI"));
    assert_eq!(chinese_alias("NoAI"), None);
    assert_eq!(alias_of("无AI"), None);
    assert_eq!(chinese_aliases().len(), 125);
}
