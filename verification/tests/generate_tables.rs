use mclang::version::generate::block_states::block_state_properties;
use mclang::version::generate::enums::{enum_sources, swizzle_axes, time_units};
use mclang::version::generate::extract::{fnv_update, Extractor};
use mclang::version::generate::registries::{
    code_sources, copper_prefix_table, data_directory, dye_color_table, enchantment_level, enchantment_path,
    joined_ids, resource_id, resource_kinds, slot_table, DataDirectory, RegistryTable,
};
use mclang::version::generate::{generate_all, snapshot_directory, SOURCE_DIR, VERSION};

fn strings(items: &[&str]) -> Vec<String> {
    items.iter().map(|s| s.to_string()).collect()
}

fn table_entries(table: &RegistryTable) -> Vec<(String, Vec<String>)> {
    table
        .entries()
        .iter()
        .map(|(kind, ids)| (kind.iter().collect::<String>(), ids.keys()))
        .collect()
}

fn ids_of(table: &RegistryTable, kind: &str) -> Vec<String> {
    table_entries(table)
        .into_iter()
        .find(|(k, _)| k == kind)
        .map(|(_, ids)| ids)
        .unwrap_or_default()
}

#[test]
fn fnv_digest_of_known_inputs() {
    assert_eq!(fnv_update(0xcbf2_9ce4_8422_2325, b""), 0xcbf2_9ce4_8422_2325);
    assert_eq!(fnv_update(0xcbf2_9ce4_8422_2325, b"a"), 0xaf63_dc4c_8601_ec8c);
    let extractor = Extractor::new();
    assert_eq!(extractor.finish(), "fnv1a64:cbf29ce484222325");
    let mut extractor = Extractor::new();
    extractor.record_path("a");
    assert_eq!(extractor.finish(), "fnv1a64:af63dc4c8601ec8c");
}

#[test]
fn recording_a_file_digests_path_then_text() {
    let mut whole = Extractor::new();
    whole.record("a", "b");
    let mut parts = Extractor::new();
    parts.record_path("a");
    parts.record_path("b");
    assert_eq!(whole.digest, parts.digest);
    assert_ne!(whole.digest, Extractor::new().digest);
}

#[test]
fn registry_insert_adds_the_namespace() {
    let mut table = RegistryTable::new();
    table.insert("block", "stone");
    table.insert("block", "dirt");
    table.insert("block", "stone");
    assert_eq!(ids_of(&table, "block"), strings(&["minecraft:dirt", "minecraft:stone"]));
    assert_eq!(table_entries(&table).len(), 1);
}

#[test]
fn registry_calls_without_ids_create_no_registry() {
    let mut table = RegistryTable::new();
    table.add_calls("biome", "nothing here", "register");
    assert!(table_entries(&table).is_empty());
    table.add_resources("loot_table", &Vec::new());
    assert_eq!(table_entries(&table), vec![("loot_table".to_string(), Vec::new())]);
    table.add_calls("biome", r#"register("plains"); register("desert");"#, "register");
    assert_eq!(ids_of(&table, "biome"), strings(&["minecraft:desert", "minecraft:plains"]));
}

#[test]
fn colored_and_copper_variants() {
    assert_eq!(dye_color_table().len(), 16);
    assert_eq!(copper_prefix_table().len(), 8);
    let joined = joined_ids(&vec!["red", "blue"], "_", &strings(&["wool", "bed"]));
    let mut sorted = joined.clone();
    sorted.sort();
    assert_eq!(sorted, strings(&["blue_bed", "blue_wool", "red_bed", "red_wool"]));
    let copper = joined_ids(&copper_prefix_table(), "", &strings(&["copper_block"]));
    assert!(copper.contains(&"copper_block".to_string()));
    assert!(copper.contains(&"waxed_oxidized_copper_block".to_string()));
    assert_eq!(copper.len(), 8);
}

const BLOCK_ITEMS: &str = r#"
    public static final BlockItemId STONE = BlockItemId.create("stone");
    public static final BlockItemIdSet WOOL = createSimpleColored("wool");
    public static final BlockItemIdSet CUT = createSimpleCopper("cut_copper");
"#;
const BLOCKS: &str = r#"    public static final ResourceKey<Block> WATER = create("water");"#;
const ITEMS: &str = r#"
    public static final ResourceKey<Item> STICK = create("stick");
    public static final ResourceKey<Item> PIG_SPAWN_EGG = createSpawnEgg(EntityTypeIds.PIG);
    public static final ResourceKey<Item> DISC_CAT = createMusicDisc(JukeboxSongs.CAT);
    public static final ResourceKey<Item> COAST = createArmorTrimSmithingTemplate(TrimPatterns.COAST);
    public static final ItemIdSet DYE = createSimpleColored("dye");
"#;
const ENTITIES: &str = "    public static final ResourceKey<EntityType<?>> PIG = create(\"pig\");\n";
const SONGS: &str = "    public static final ResourceKey<JukeboxSong> CAT = create(\"cat\");\n";
const TRIMS: &str = "    public static final ResourceKey<TrimPattern> COAST = registryKey(\"coast\");\n";

#[test]
fn blocks_and_items_from_the_id_tables() {
    let mut table = RegistryTable::new();
    assert_eq!(table.add_blocks_and_items(BLOCK_ITEMS, BLOCKS, ITEMS, ENTITIES, SONGS, TRIMS), Ok(()));
    let blocks = ids_of(&table, "block");
    let items = ids_of(&table, "item");
    assert_eq!(blocks.len(), 1 + 16 + 8 + 1);
    assert!(blocks.contains(&"minecraft:stone".to_string()));
    assert!(blocks.contains(&"minecraft:water".to_string()));
    assert!(blocks.contains(&"minecraft:light_blue_wool".to_string()));
    assert!(blocks.contains(&"minecraft:waxed_exposed_cut_copper".to_string()));
    assert!(!items.contains(&"minecraft:water".to_string()));
    for id in [
        "minecraft:stone",
        "minecraft:stick",
        "minecraft:pig_spawn_egg",
        "minecraft:music_disc_cat",
        "minecraft:coast_armor_trim_smithing_template",
        "minecraft:black_dye",
        "minecraft:white_wool",
        "minecraft:cut_copper",
    ] {
        assert!(items.contains(&id.to_string()), "{id}");
    }
    assert!(!blocks.contains(&"minecraft:black_dye".to_string()));
    assert_eq!(items.len(), 1 + 16 + 8 + 1 + 3 + 16);
}

#[test]
fn undeclared_constants_are_reported_first_by_kind_then_name() {
    let items = r#"
    createSpawnEgg(EntityTypeIds.ZOMBIE); createSpawnEgg(EntityTypeIds.COW);
    createMusicDisc(JukeboxSongs.NOPE);
"#;
    let mut table = RegistryTable::new();
    table.insert("block", "kept");
    let error = table.add_blocks_and_items(BLOCK_ITEMS, BLOCKS, items, ENTITIES, SONGS, TRIMS);
    assert_eq!(error, Err("ItemIds.java 引用未知实体常量 EntityTypeIds.COW".to_string()));
    assert_eq!(table_entries(&table), vec![("block".to_string(), strings(&["minecraft:kept"]))]);

    let items = "createMusicDisc(JukeboxSongs.NOPE); createSpawnEgg(EntityTypeIds.PIG);";
    let error = table.add_blocks_and_items(BLOCK_ITEMS, BLOCKS, items, ENTITIES, SONGS, TRIMS);
    assert_eq!(error, Err("ItemIds.java 引用未知唱片常量 JukeboxSongs.NOPE".to_string()));

    let items = "createArmorTrimSmithingTemplate(TrimPatterns.WILD);";
    let error = table.add_blocks_and_items(BLOCK_ITEMS, BLOCKS, items, ENTITIES, SONGS, TRIMS);
    assert_eq!(error, Err("ItemIds.java 引用未知纹饰常量 TrimPatterns.WILD".to_string()));
}

#[test]
fn slot_table_reads_slot_ranges() {
    let text = r#"
        addSingleSlot("weapon", 98);
        addSingleSlot("armor.head", 103);
        addSlotRange("container.", 0, 54);
        addSlotRange("hotbar.", 0, 9);
        addSlotRange("container.", 0, 27);
        addSlotRange("broken.");
        addSlots("armor.*", 100, 101, 102, 103);
"#;
    let slots = slot_table(text);
    assert_eq!(slots.single, strings(&["armor.head", "weapon"]));
    assert_eq!(slots.multi, strings(&["armor.*"]));
    assert_eq!(
        slots.ranges,
        vec![("container.".to_string(), 27), ("hotbar.".to_string(), 9)]
    );
}

#[test]
fn resource_kinds_drop_structures_and_add_json_only_kinds() {
    let kinds = strings(&["structure", "loot_table", "worldgen/biome", "advancement"]);
    assert_eq!(
        resource_kinds(&kinds),
        strings(&["advancement", "dimension", "item_modifier", "loot_table", "worldgen/biome"])
    );
}

#[test]
fn data_directories_and_resource_ids() {
    assert!(matches!(data_directory("tags"), DataDirectory::Skipped));
    assert!(matches!(data_directory("datapacks"), DataDirectory::Skipped));
    assert!(matches!(data_directory("worldgen"), DataDirectory::Worldgen));
    assert!(matches!(data_directory("structure"), DataDirectory::Structures));
    assert!(matches!(data_directory("loot_table"), DataDirectory::Resources));
    assert_eq!(resource_id("blocks/stone.json", "json"), Some("blocks/stone".to_string()));
    assert_eq!(resource_id("a\\b.nbt", "nbt"), Some("a/b".to_string()));
    assert_eq!(resource_id("blocks/stone.nbt", "json"), None);
    assert_eq!(resource_id("blocks/.json", "json"), None);
    assert_eq!(resource_id("x.tar.gz", "tar.gz"), None);
}

#[test]
fn enchantment_levels_and_paths() {
    assert_eq!(enchantment_level(r#"{"max_level": 5, "weight": 2}"#), Ok(Some(5)));
    assert_eq!(enchantment_level(r#"{"max_level": -1}"#), Ok(None));
    assert_eq!(enchantment_level(r#"{"weight": 2}"#), Ok(None));
    assert!(enchantment_level("{").is_err());
    assert_eq!(
        enchantment_path("minecraft:sharpness"),
        "data/minecraft/enchantment/sharpness.json"
    );
    assert_eq!(
        enchantment_path("minecraft:minecraft:x"),
        "data/minecraft/enchantment/x.json"
    );
}

#[test]
fn source_tables_are_complete() {
    let sources = code_sources();
    assert_eq!(sources.len(), 24);
    assert_eq!(sources[0], ("entity_type", "net/minecraft/world/entity/EntityTypeIds.java", "create"));
    assert_eq!(enum_sources().len(), 7);
    assert_eq!(swizzle_axes(), strings(&["x", "y", "z"]));
}

#[test]
fn time_units_skip_the_plain_tick_and_sort() {
    let text = r#"
        UNITS.put("d", 24000);
        UNITS.put("s", 20);
        UNITS.put("t", 1);
        UNITS.put("", 1);
"#;
    assert_eq!(time_units(text), strings(&["d", "s", "t"]));
}

#[test]
fn block_state_properties_from_variants_and_multipart() {
    let found = block_state_properties(
        r#"{"variants": {"facing=north,lit=true": {}, "facing=south,lit=false": {}},
            "multipart": [{"when": {"OR": [{"east": "side|up"}, {"west": "none"}]}}]}"#,
    )
    .unwrap();
    let properties: Vec<(String, Vec<String>)> = found
        .iter()
        .map(|(name, values)| (name.iter().collect(), values.keys()))
        .collect();
    assert_eq!(
        properties,
        vec![
            ("east".to_string(), strings(&["side", "up"])),
            ("facing".to_string(), strings(&["north", "south"])),
            ("lit".to_string(), strings(&["false", "true"])),
            ("west".to_string(), strings(&["none"])),
        ]
    );
}

#[test]
fn generation_collects_files_by_name() {
    let ok = |s: &str| Ok::<String, String>(s.to_string());
    let outputs = generate_all(ok("r"), ok("e"), ok("c"), ok("b"), ok("n"), ok("t")).ok().unwrap();
    let names: Vec<&str> = outputs.iter().map(|o| o.name).collect();
    assert_eq!(
        names,
        vec![
            "advancement_triggers.json",
            "block_states.json",
            "commands.json",
            "entity_nbt.json",
            "enums.json",
            "registries.json"
        ]
    );
    assert_eq!(outputs[0].contents, "t");
    assert_eq!(outputs[5].contents, "r");
    let failed = generate_all(ok("r"), Err("first".to_string()), ok("c"), Err("second".to_string()), ok("n"), ok("t"));
    assert_eq!(failed.err(), Some("first".to_string()));
}

#[test]
fn snapshot_directory_is_below_the_repository() {
    assert_eq!(snapshot_directory("/repo"), "/repo/data/version/26.3");
    assert_eq!(snapshot_directory("/repo/"), "/repo/data/version/26.3");
    assert_eq!(snapshot_directory(""), "data/version/26.3");
    assert_eq!(VERSION, "26.3-rc-2");
    assert_eq!(SOURCE_DIR, "minecraft_client_26.3-rc-2");
}
