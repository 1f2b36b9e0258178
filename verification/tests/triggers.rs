use mclang::version::generate::triggers::{codec_before, codec_kind, registered_triggers, trigger_fields};

fn chars(s: &str) -> Vec<char> {
    s.chars().collect()
}

#[test]
fn registrations_pair_ids_with_classes() {
    let text = r#"
    public static final PlayerTrigger TICK = register("tick", new PlayerTrigger());
    public static final ImpossibleTrigger IMPOSSIBLE = register("impossible", new ImpossibleTrigger());
    public static final Foo BAR = register("bar", Foo::create);
"#;
    assert_eq!(
        registered_triggers(text),
        vec![
            ("tick".to_string(), "PlayerTrigger".to_string()),
            ("impossible".to_string(), "ImpossibleTrigger".to_string()),
        ]
    );
}

#[test]
fn codec_expressions_are_balanced() {
    let t = chars("group(Holder.CODEC.fieldOf(\"a\"), RegistryCodecs.holderSet(Registries.BLOCK).optionalFieldOf(\"b\")");
    let before_b = t.iter().collect::<String>().find(".optionalFieldOf").unwrap();
    let codec: String = codec_before(&t, 0, before_b).into_iter().collect();
    assert_eq!(codec, "RegistryCodecs.holderSet(Registries.BLOCK)");
    let before_a = t.iter().collect::<String>().find(".fieldOf").unwrap();
    let codec: String = codec_before(&t, 0, before_a).into_iter().collect();
    assert_eq!(codec, "Holder.CODEC");
}

#[test]
fn codec_kinds() {
    assert_eq!(codec_kind(&chars("LootItemCondition.DIRECT_CODEC")), "loot_condition");
    assert_eq!(codec_kind(&chars("EntityPredicate.ADVANCEMENT_CODEC")), "entity_predicate");
    assert_eq!(codec_kind(&chars("MinMaxBounds.Ints.CODEC")), "range");
    assert_eq!(codec_kind(&chars("Codec.BOOL")), "other");
}

#[test]
fn trigger_fields_read_the_instance_codec() {
    let text = r#"
class Nested { Codec.INT.fieldOf("ignored") }
public static record TriggerInstance(...) {
    public static final Codec<TriggerInstance> CODEC = RecordCodecBuilder.create(i -> i.group(
        EntityPredicate.ADVANCEMENT_CODEC.optionalFieldOf("player").forGetter(TriggerInstance::player),
        MinMaxBounds.Ints.CODEC.optionalFieldOf("level", MinMaxBounds.Ints.ANY).forGetter(TriggerInstance::level),
        ItemPredicate.CODEC.fieldOf("item").forGetter(TriggerInstance::item)
    ).apply(i, TriggerInstance::new));
}
"#;
    assert_eq!(
        trigger_fields(text),
        vec![
            ("item".to_string(), "item_predicate".to_string()),
            ("level".to_string(), "range".to_string()),
            ("player".to_string(), "entity_predicate".to_string()),
        ]
    );
}
