use mclang::parser::cursor::{Parser, Span, Token, TokenKind};
use mclang::parser::tags::FunctionTagEntry;

fn tokens(kinds: Vec<TokenKind>) -> Vec<Token> {
    let mut out: Vec<Token> = kinds
        .into_iter()
        .enumerate()
        .map(|(i, kind)| Token { kind, span: Span { start: i, end: i + 1 } })
        .collect();
    let n = out.len();
    out.push(Token { kind: TokenKind::Eof, span: Span { start: n, end: n } });
    out
}

fn word(s: &str) -> TokenKind {
    TokenKind::Ident(s.to_string())
}

fn parser(kinds: Vec<TokenKind>) -> Parser {
    Parser::new(tokens(kinds))
}

#[test]
fn cursor_stops_at_the_end() {
    let mut p = parser(vec![word("a")]);
    assert!(matches!(p.advance().kind, TokenKind::Ident(ref v) if v == "a"));
    assert!(matches!(p.advance().kind, TokenKind::Eof));
    assert!(matches!(p.advance().kind, TokenKind::Eof));
    assert_eq!(p.cursor, 1);
    assert!(matches!(p.peek_kind(5).kind, TokenKind::Eof));
}

#[test]
fn keywords_match_in_either_language() {
    let mut p = parser(vec![word("导入"), word("import")]);
    assert!(p.check_word("import"));
    assert!(p.take_word("import").is_some());
    assert!(p.expect_word("import").is_ok());
    let error = p.expect_word("import").err().unwrap();
    assert_eq!(error.message, "这里需要 `import` 或 `导入`");
    assert_eq!(error.span, Span { start: 2, end: 2 });
}

#[test]
fn whole_module_import() {
    let mut p = parser(vec![
        word("import"),
        word("数学"),
        TokenKind::ColonColon,
        word("几何"),
        TokenKind::Semicolon,
    ]);
    let decl = p.import().ok().unwrap();
    assert_eq!(decl.path, vec!["数学".to_string(), "几何".to_string()]);
    assert_eq!(decl.path_span, Span { start: 1, end: 4 });
    assert!(decl.items.is_none());
    assert_eq!(p.cursor, 5);
}

#[test]
fn named_imports_with_aliases() {
    let mut p = parser(vec![
        word("导入"),
        word("数学"),
        TokenKind::ColonColon,
        TokenKind::LeftBrace,
        word("加法"),
        TokenKind::Comma,
        word("减法"),
        word("作为"),
        word("减"),
        TokenKind::RightBrace,
        TokenKind::Semicolon,
    ]);
    let decl = p.import().ok().unwrap();
    assert_eq!(decl.path, vec!["数学".to_string()]);
    let items = decl.items.unwrap();
    assert_eq!(items.len(), 2);
    assert_eq!(items[0].name, "加法");
    assert_eq!(items[0].alias, None);
    assert_eq!(items[1].name, "减法");
    assert_eq!(items[1].alias.as_deref(), Some("减"));
}

#[test]
fn import_errors() {
    let mut p = parser(vec![word("import"), word("m")]);
    assert_eq!(p.import().err().unwrap().message, "import 声明后需要 `;`");
    let mut p = parser(vec![word("import"), TokenKind::Semicolon]);
    assert_eq!(p.import().err().unwrap().message, "这里需要模块名称");
    let mut p = parser(vec![word("import"), word("m"), TokenKind::ColonColon, TokenKind::LeftBrace, word("a")]);
    assert_eq!(p.import().err().unwrap().message, "导入列表缺少 `}`");
    let mut p = parser(vec![word("export")]);
    assert_eq!(p.import().err().unwrap().message, "这里需要 `import` 或 `导入`");
}

#[test]
fn integer_arguments() {
    let mut p = parser(vec![TokenKind::Minus, TokenKind::Number(5), TokenKind::Number(3_000_000_000)]);
    assert_eq!(p.signed("xp").ok(), Some(-5));
    assert_eq!(p.signed("xp").err().unwrap().message, "xp 超出 32 位范围");
    let mut p = parser(vec![TokenKind::Number(7), TokenKind::Number(-1), word("x")]);
    assert_eq!(p.unsigned("count").ok(), Some(7));
    assert_eq!(p.unsigned("count").err().unwrap().message, "count 超出范围");
    assert_eq!(p.unsigned("count").err().unwrap().message, "count 需要非负整数");
    let mut p = parser(vec![TokenKind::Plus, TokenKind::Minus]);
    assert!(!p.negative_sign());
    assert!(p.negative_sign());
    let mut p = parser(vec![TokenKind::String("minecraft:a".to_string()), TokenKind::Comma]);
    assert_eq!(p.resource_path("资源").ok().map(|(v, _)| v), Some("minecraft:a".to_string()));
    assert_eq!(p.resource_path("资源").err().unwrap().message, "这里需要资源标识符或字符串");
}

#[test]
fn boolean_words_in_either_language() {
    let mut p = parser(vec![word("真"), word("false"), word("maybe"), TokenKind::Number(1)]);
    assert_eq!(p.boolean_value("可见").ok(), Some(true));
    assert_eq!(p.command_boolean().ok(), Some(false));
    assert_eq!(
        p.boolean_value("可见").err().unwrap().message,
        "可见需要 true/false（中文 `真`/`假`），实际为 `maybe`"
    );
    assert_eq!(p.command_boolean().err().unwrap().message, "这里需要布尔值 true/false");
}

#[test]
fn commas_counts_and_calls() {
    let mut p = parser(vec![TokenKind::Comma, TokenKind::Number(3), word("x")]);
    assert_eq!(p.optional_count("数量").ok(), Some((Some(3), Some(Span { start: 1, end: 2 }))));
    assert_eq!(p.optional_count("数量").ok(), Some((None, None)));
    assert!(p.command_comma().is_err());
    let mut p = parser(vec![word("block"), TokenKind::LeftParen, word("block"), TokenKind::Dot]);
    assert!(p.take_word_call("block").is_some());
    assert!(p.take_word_call("block").is_none());
    let mut p = parser(vec![TokenKind::LeftParen, TokenKind::Number(4), TokenKind::RightParen, TokenKind::Semicolon]);
    assert_eq!(p.unsigned_call("max_stack_size").ok(), Some(4));
    let mut p = parser(vec![TokenKind::LeftParen, TokenKind::Number(4), TokenKind::Semicolon]);
    assert_eq!(p.unsigned_call("n").err().unwrap().message, "n 后需要 `)`");
}

#[test]
fn condition_groups_and_operands() {
    let p = parser(vec![TokenKind::LeftParen, word("a"), TokenKind::RightParen, TokenKind::AndAnd]);
    assert!(p.condition_group_starts());
    let p = parser(vec![TokenKind::LeftParen, TokenKind::LeftParen, word("a"), TokenKind::RightParen, TokenKind::RightParen, TokenKind::Plus]);
    assert!(!p.condition_group_starts());
    let p = parser(vec![word("a")]);
    assert!(!p.condition_group_starts());
}

#[test]
fn raw_command_strings() {
    let s = |v: &str| TokenKind::String(v.to_string());
    let mut p = parser(vec![s("say hi"), s("  "), s("/say"), s("a\nb"), word("x")]);
    assert_eq!(p.command_string("run").ok().map(|(v, _)| v), Some("say hi".to_string()));
    assert_eq!(p.command_string("run").err().unwrap().message, "run 命令不能为空");
    assert_eq!(p.command_string("run").err().unwrap().message, "Minecraft 函数中的命令不能以 `/` 开头");
    assert_eq!(p.command_string("run").err().unwrap().message, "一条 run 语句只能包含一行命令");
    assert_eq!(p.command_string("run").err().unwrap().message, "run 后需要命令字符串");
}

#[test]
fn score_declarations() {
    let mut p = parser(vec![word("计分"), word("次数"), TokenKind::Equal, TokenKind::Minus, TokenKind::Number(3), TokenKind::Semicolon]);
    let d = p.score().ok().unwrap();
    assert_eq!((d.name.as_str(), d.initial, d.span), ("次数", -3, Span { start: 0, end: 6 }));
    let mut p = parser(vec![word("score"), word("x"), TokenKind::Equal, TokenKind::Number(1 << 40), TokenKind::Semicolon]);
    assert_eq!(p.score().err().unwrap().message, "整数超出 32 位范围");
    let mut p = parser(vec![word("score"), word("x"), TokenKind::Semicolon]);
    assert_eq!(p.score().err().unwrap().message, "计分变量需要初始值，例如 `score count = 0;`");
}

#[test]
fn data_slot_and_resource_declarations() {
    let mut p = parser(vec![
        word("data_slot"), word("s"), TokenKind::Equal, word("实体数据"), TokenKind::LeftParen,
        TokenKind::String("k".to_string()), TokenKind::RightParen, TokenKind::Semicolon,
    ]);
    let d = p.data_slot().ok().unwrap();
    assert!(matches!(d.kind, mclang::parser::declarations::DataSlotKind::EntityData));
    assert_eq!(d.key, "k");
    let mut p = parser(vec![word("data_slot"), word("s"), TokenKind::Equal, word("other")]);
    assert_eq!(p.data_slot().err().unwrap().message, "数据槽来源只能是 item_data/物品数据 或 entity_data/实体数据");
    let mut p = parser(vec![
        word("resource"), word("配方"), TokenKind::String("a:b".to_string()), TokenKind::Equal,
        TokenKind::String("{}".to_string()), TokenKind::Semicolon,
    ]);
    let d = p.resource().ok().unwrap();
    assert_eq!((d.kind.as_str(), d.name.as_str(), d.json.as_str()), ("recipe", "a:b", "{}"));
}

#[test]
fn function_tags_and_storages() {
    let s = |v: &str| TokenKind::String(v.to_string());
    let mut p = parser(vec![
        word("fn_tag"), word("t"), TokenKind::LeftBrace,
        word("value"), TokenKind::LeftParen, word("f"), TokenKind::RightParen, TokenKind::Semicolon,
        word("值"), TokenKind::LeftParen, TokenKind::Hash, s("minecraft:tick"), TokenKind::RightParen, TokenKind::Semicolon,
        word("replace"), TokenKind::Equal, word("真"), TokenKind::Semicolon,
        TokenKind::RightBrace, TokenKind::Semicolon,
    ]);
    let d = p.function_tag().ok().unwrap();
    assert!(d.replace);
    assert_eq!(d.values.len(), 2);
    assert!(matches!(&d.values[0], FunctionTagEntry::Function(v, _) if v == "f"));
    assert!(matches!(&d.values[1], FunctionTagEntry::External(v, _) if v == "#minecraft:tick"));
    assert_eq!(p.cursor, 20);
    let mut p = parser(vec![word("fn_tag"), word("t"), TokenKind::LeftBrace, word("replace"), TokenKind::Equal, word("假"), TokenKind::Semicolon, word("替换")]);
    assert_eq!(p.function_tag().err().unwrap().message, "函数标签只能声明一次 replace");
    let mut p = parser(vec![word("fn_tag"), word("t"), TokenKind::LeftBrace]);
    assert_eq!(p.function_tag().err().unwrap().message, "函数标签缺少 `}`");
    let mut p = parser(vec![
        word("storage"), word("s"), TokenKind::Equal, word("item_list"), TokenKind::LeftParen,
        s("a:b"), TokenKind::Comma, s("Items"), TokenKind::RightParen, TokenKind::Semicolon,
    ]);
    let d = p.storage().ok().unwrap();
    assert_eq!((d.storage_id.as_str(), d.path.as_str()), ("a:b", "Items"));
}

#[test]
fn holders_and_score_targets() {
    let mut p = parser(vec![
        TokenKind::LeftParen, word("自身"), TokenKind::Comma, word("kills"),
        TokenKind::LeftParen, word("players"), TokenKind::Comma, word("deaths"),
        TokenKind::LeftParen, word("origin"), word("x"),
    ]);
    let target = p.score_target("scoreboard.get").ok().unwrap();
    assert!(matches!(target.holder, mclang::parser::arguments::Holder::SelfEntity));
    assert_eq!(target.objective, "kills");
    let target = p.score_target("scoreboard.get").ok().unwrap();
    assert!(matches!(&target.holder, mclang::parser::arguments::Holder::Query(name, _) if name == "players"));
    assert_eq!(p.score_target("scoreboard.get").err().unwrap().message, "计分持有者后需要 `,`");
    let mut p = parser(vec![TokenKind::Comma]);
    assert_eq!(p.score_target("scoreboard.get").err().unwrap().message, "scoreboard.get 后需要 `(`");
    assert_eq!(
        p.holder("目标").err().unwrap().message,
        "这里需要目标 self/自身、origin/投掷者 或实体查询名称"
    );
}
