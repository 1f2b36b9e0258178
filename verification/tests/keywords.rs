use mclang::parser::keywords::actions::{boolean_word, text_color, time_unit, xp_kind, XpKind};
use mclang::parser::keywords::table::{attributes, keywords};
use mclang::parser::keywords::values::{
    advancement_frame, advancement_method, attribute_word, entity_sort, gamemode_value, keyword_alias,
    query_property, reserved_word, word_matches, AdvancementFrame, Attribute,
};
use mclang::parser::keywords::world_values::{
    fill_mode, strict_word, template_mirror, template_rotation, FillMode, TemplateMirror, TemplateRotation,
};

#[test]
fn value_words_accept_both_spellings() {
    assert_eq!(gamemode_value("creative"), Some("creative"));
    assert_eq!(gamemode_value("创造"), Some("creative"));
    assert_eq!(gamemode_value("Creative"), None);
    assert_eq!(query_property("排除标签"), Some("without_tag"));
    assert_eq!(entity_sort("任意"), Some("arbitrary"));
    assert_eq!(boolean_word("假"), Some("false"));
    assert_eq!(time_unit("秒"), Some("s"));
    assert_eq!(text_color("亮紫色"), Some("light_purple"));
    assert_eq!(text_color("purple"), None);
}

#[test]
fn value_words_map_to_kinds() {
    assert_eq!(advancement_frame("挑战"), Some(AdvancementFrame::Challenge));
    assert_eq!(advancement_method("撤销直到"), Some(("revoke", "until")));
    assert_eq!(advancement_method("grant"), Some(("grant", "only")));
    assert_eq!(xp_kind("levels"), Some(XpKind::Levels));
    assert_eq!(fill_mode("空心"), Some(FillMode::Hollow));
    assert_eq!(template_rotation("180"), Some(TemplateRotation::Clockwise180));
    assert_eq!(template_rotation("无"), Some(TemplateRotation::Unrotated));
    assert_eq!(template_mirror("左右"), Some(TemplateMirror::LeftRight));
    assert!(strict_word("严格"));
    assert!(!strict_word("strictly"));
}

#[test]
fn keyword_aliases_and_matching() {
    assert_eq!(keyword_alias("kill"), Some("杀死"));
    assert_eq!(keyword_alias("杀死"), None);
    assert!(word_matches("kill", "kill"));
    assert!(word_matches("杀死", "kill"));
    assert!(!word_matches("标签", "kill"));
}

#[test]
fn reserved_words_cover_keywords_and_booleans() {
    assert!(reserved_word("kill"));
    assert!(reserved_word("杀死"));
    assert!(reserved_word("true"));
    assert!(reserved_word("假"));
    assert!(!reserved_word("load"));
    assert!(!reserved_word("counter"));
}

#[test]
fn attributes_in_both_languages() {
    assert_eq!(attribute_word("tick"), Some(Attribute::Tick));
    assert_eq!(attribute_word("非玩家"), Some(Attribute::NonPlayer));
    assert_eq!(attribute_word("kill"), None);
    assert_eq!(attributes().len(), 5);
}

#[test]
fn keywords_are_unique() {
    let table = keywords();
    let mut spellings: Vec<&str> = Vec::new();
    for keyword in &table {
        spellings.push(keyword.english);
        spellings.push(keyword.chinese);
    }
    let count = spellings.len();
    spellings.sort();
    spellings.dedup();
    assert_eq!(spellings.len(), count);
    assert_eq!(table.len(), 116);
}
