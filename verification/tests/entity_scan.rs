use mclang::version::entity_nbt::registry::{all_class_tags, entity_ids, entity_registrations, entity_table};
use mclang::version::entity_nbt::scan::{
    capture_expression, classify_codec, is_identifier, matching_brace, parse_header, parse_string, scan_tags,
    ClassTable,
};
use mclang::version::entity_nbt::EntityTagType;

fn chars(s: &str) -> Vec<char> {
    s.chars().collect()
}

#[test]
fn string_literals_drop_backslashes() {
    let t = chars(r#"x "a\"b" y"#);
    assert_eq!(parse_string(&t, 2), Some(("a".to_string(), 6)));
    assert_eq!(parse_string(&t, 0), None);
    let t = chars(r#""unterminated"#);
    assert_eq!(parse_string(&t, 0), None);
    let t = chars(r#""a\nb""#);
    assert_eq!(parse_string(&t, 0), Some(("anb".to_string(), 6)));
}

#[test]
fn expressions_stop_at_top_level_separators() {
    let t = chars("Codec.list(Foo.CODEC, 3), next)");
    assert_eq!(capture_expression(&t, 0), ("Codec.list(Foo.CODEC, 3)".to_string(), 24));
    let t = chars(" Vec3.CODEC);");
    assert_eq!(capture_expression(&t, 0), (" Vec3.CODEC".to_string(), 11));
}

#[test]
fn codecs_classify_by_text() {
    assert_eq!(classify_codec(" Vec3.CODEC "), EntityTagType::NumericList);
    assert_eq!(classify_codec("UUIDUtil.CODEC"), EntityTagType::IntArray);
    assert_eq!(classify_codec("ComponentSerialization.CODEC"), EntityTagType::Component);
    assert_eq!(classify_codec("ItemStack.CODEC"), EntityTagType::Compound);
    assert_eq!(classify_codec("Codec.STRING"), EntityTagType::String);
    assert_eq!(classify_codec("Codec.BOOL"), EntityTagType::Bool);
    assert_eq!(classify_codec("Codec.INT"), EntityTagType::Number);
    assert_eq!(classify_codec("Foo.CODEC.listOf()"), EntityTagType::List);
    assert_eq!(classify_codec("Mystery.CODEC"), EntityTagType::Any);
}

#[test]
fn identifiers_are_unicode_alphanumeric() {
    assert!(is_identifier('a'));
    assert!(is_identifier('_'));
    assert!(is_identifier('é'));
    assert!(is_identifier('名'));
    assert!(!is_identifier('.'));
    assert!(!is_identifier(' '));
}

#[test]
fn braces_skip_comments_and_literals() {
    let t = chars(r#"{ a("}"); // }
 /* } */ c = '}'; { } }"#);
    assert_eq!(matching_brace(&t, 0), Some(t.len() - 1));
    let t = chars("{ { }");
    assert_eq!(matching_brace(&t, 0), None);
}

#[test]
fn class_headers_name_parent_and_body() {
    let t = chars("class Zombie extends Monster implements Enemy {");
    let (name, parent, open) = parse_header(&t, 0).expect("a header");
    assert_eq!(name, "Zombie");
    assert_eq!(parent.as_deref(), Some("Monster"));
    assert_eq!(open, t.len() - 1);
    let t = chars("class Display extends net.minecraft.world.Entity<T> {");
    assert_eq!(parse_header(&t, 0).and_then(|h| h.1).as_deref(), Some("Entity"));
    let t = chars("class Plain {");
    assert_eq!(parse_header(&t, 0).and_then(|h| h.1), None);
    let t = chars("class {");
    assert!(parse_header(&t, 0).is_none());
}

const SOURCE: &str = r#"
public class Mob extends LivingEntity {
    void save(ValueOutput output) {
        output.putBoolean("NoAI", this.noAi);
        output.putFloat("Health", this.health);
        output.store("Pos", Vec3.CODEC, this.pos);
    }
    public static class Inner extends Mob {
        void save(ValueOutput output) {
            output.putInt("Health", 1);
        }
    }
}
"#;

#[test]
fn tags_are_found_by_marker() {
    let hits = scan_tags(&chars(SOURCE));
    let found: Vec<(String, EntityTagType)> = hits.iter().map(|h| (h.name.clone(), h.category)).collect();
    assert_eq!(
        found,
        vec![
            ("NoAI".to_string(), EntityTagType::Bool),
            ("Health".to_string(), EntityTagType::Number),
            ("Health".to_string(), EntityTagType::Number),
            ("Pos".to_string(), EntityTagType::NumericList),
        ]
    );
}

#[test]
fn tags_belong_to_the_innermost_class() {
    let mut table = ClassTable::new();
    table.scan(SOURCE);
    let mob = table.get(&chars("Mob")).expect("Mob is declared");
    assert_eq!(mob.keys(), vec!["Health", "NoAI", "Pos"]);
    assert_eq!(mob.parent().map(|p| p.iter().collect::<String>()).as_deref(), Some("LivingEntity"));
    let inner = table.get(&chars("Inner")).expect("Inner is declared");
    assert_eq!(inner.keys(), vec!["Health"]);
    let tags = all_class_tags(&table, &chars("Inner"));
    assert_eq!(
        tags,
        vec![
            ("Health".to_string(), EntityTagType::Number),
            ("NoAI".to_string(), EntityTagType::Bool),
            ("Pos".to_string(), EntityTagType::NumericList),
        ]
    );
}

#[test]
fn entity_ids_and_registrations() {
    let ids = entity_ids("public static final String ZOMBIE = create(\"zombie\");\nString HUSK= create(\"husk\");\n");
    assert_eq!(ids, vec![("HUSK".to_string(), "husk".to_string()), ("ZOMBIE".to_string(), "zombie".to_string())]);
    let registrations = entity_registrations(
        "public static final EntityType<Zombie> ZOMBIE = register(EntityTypeIds.ZOMBIE, EntityType.Builder.of(Zombie::new));\r\n\
         EntityType<net.minecraft.world.entity.monster.Husk> HUSK = register(EntityTypeIds.HUSK, x);\n",
    );
    assert_eq!(
        registrations,
        vec![("ZOMBIE".to_string(), "Zombie".to_string()), ("HUSK".to_string(), "Husk".to_string())]
    );
}

#[test]
fn entity_table_merges_inherited_tags() {
    let mut table = ClassTable::new();
    table.scan(SOURCE);
    let ids = vec![("INNER".to_string(), "inner".to_string())];
    let registrations = vec![("INNER".to_string(), "Inner".to_string()), ("MISSING".to_string(), "Mob".to_string())];
    let (tags, entities) = entity_table(&table, &ids, &registrations);
    let tag_names: Vec<String> = tags.iter().map(|(k, _)| k.iter().collect()).collect();
    assert_eq!(tag_names, vec!["Health", "NoAI", "Pos"]);
    assert_eq!(entities.len(), 1);
    assert_eq!(entities[0].0.iter().collect::<String>(), "minecraft:inner");
    assert_eq!(entities[0].1.keys(), vec!["Health", "NoAI", "Pos"]);
}
