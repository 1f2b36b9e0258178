use mclang::version::generate::commands::parse_command_file;
use mclang::version::generate::text::{call_args, constant_string_pairs, string_args_in_calls};

#[test]
fn call_arguments_handle_nesting_and_strings() {
    let text = r#"register("a", foo("b"), register("c"));"#;
    let args = call_args(text, "register");
    assert!(args.contains(&r#""a", foo("b"), register("c")"#.to_string()));
    // A nested call of the same name is found too; the extracted set removes duplicates.
    assert!(args.contains(&r#""c""#.to_string()));
    assert_eq!(
        string_args_in_calls(text, "register"),
        vec!["a".to_string(), "c".to_string()]
    );
}

#[test]
fn constant_pairs_read_declaration_lines() {
    let text = "public static final ResourceKey<Potion> WATER = create(\"water\");\n";
    let pairs = constant_string_pairs(text);
    assert_eq!(
        pairs
            .iter()
            .find(|(name, _)| name == "WATER")
            .map(|(_, id)| id.as_str()),
        Some("water")
    );
}

#[test]
fn parses_command_builder_casts() {
    let text = r#"
    public static void register(final CommandDispatcher<CommandSourceStack> dispatcher) {
        dispatcher.register((LiteralArgumentBuilder) ((LiteralArgumentBuilder) ((LiteralArgumentBuilder) Commands.literal("advancement").requires(Commands.hasPermission(Commands.LEVEL_GAMEMASTERS))).then(Commands.literal("grant").then(Commands.argument("targets", EntityArgument.players())))));
    }
"#;
    let roots = parse_command_file(text);
    assert_eq!(roots.len(), 1, "expected one root command");
    assert_eq!(roots[0].name, "advancement");
    assert_eq!(roots[0].level, Some(2));
    assert_eq!(roots[0].children[0].name, "grant");
    assert_eq!(roots[0].children[0].children[0].name, "targets");
    assert_eq!(
        roots[0].children[0].children[0].argument.as_deref(),
        Some("EntityArgument.players()")
    );
}
