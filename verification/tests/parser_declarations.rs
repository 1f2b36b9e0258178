use mclang::parser::components::TextComponentKind;
use mclang::parser::cursor::{Parser, Span, Token, TokenKind};
use mclang::parser::keywords::values::ItemRarity;
use mclang::parser::objectives::NumberFormat;

fn tokens(kinds: Vec<TokenKind>) -> Vec<Token> {
    let mut out: Vec<Token> = kinds
        .into_iter()
        .enumerate()
        .map(|(i, kind)| Token { kind, span: Span { start: i, end: i + 1 } })
        .collect();
    let n = out.len();
    out.push(Token { kind: TokenKind::Eof, span: Span { start: n, end: n } });
    out
}

fn word(s: &str) -> TokenKind {
    TokenKind::Ident(s.to_string())
}

fn text(s: &str) -> TokenKind {
    TokenKind::String(s.to_string())
}

fn span(start: usize, end: usize) -> Span {
    Span { start, end }
}

fn parser(kinds: Vec<TokenKind>) -> Parser {
    Parser::new(tokens(kinds))
}

#[test]
fn bare_objective() {
    let mut p = parser(vec![word("objective"), word("分数"), TokenKind::Semicolon]);
    let d = p.objective().ok().unwrap();
    assert_eq!(d.name, "分数");
    assert_eq!(d.name_span, span(1, 2));
    assert!(d.criteria.is_none() && d.display_name.is_none() && d.number_format.is_none());
    assert_eq!(d.span, span(0, 3));
    assert_eq!(p.cursor, 3);
}

#[test]
fn objective_with_properties() {
    let mut p = parser(vec![
        word("objective"),
        word("kills"),
        TokenKind::LeftBrace,
        word("criteria"),
        TokenKind::Equal,
        text("playerKillCount"),
        TokenKind::Semicolon,
        word("display_name"),
        TokenKind::Equal,
        text("击杀"),
        TokenKind::Semicolon,
        word("render_type"),
        TokenKind::Equal,
        text("爱心"),
        TokenKind::Semicolon,
        word("number_format"),
        TokenKind::Equal,
        word("fixed"),
        TokenKind::LeftParen,
        word("text"),
        TokenKind::LeftParen,
        text("-"),
        TokenKind::RightParen,
        TokenKind::RightParen,
        TokenKind::Semicolon,
        word("display_slot"),
        TokenKind::Equal,
        text("sidebar"),
        TokenKind::Semicolon,
        TokenKind::RightBrace,
    ]);
    let d = p.objective().ok().unwrap();
    assert_eq!(d.criteria.as_deref(), Some("playerKillCount"));
    let name = d.display_name.unwrap();
    assert!(matches!(name.kind, TextComponentKind::Text(ref s) if s == "击杀"));
    assert_eq!(name.span, span(9, 10));
    assert_eq!(d.render_type.as_deref(), Some("hearts"));
    match d.number_format {
        Some(NumberFormat::Fixed(c)) => assert!(matches!(c.kind, TextComponentKind::Text(ref s) if s == "-")),
        _ => panic!("expected a fixed number format"),
    }
    assert_eq!(d.display_slot.as_deref(), Some("sidebar"));
    assert_eq!(d.display_slot_span, Some(span(27, 28)));
    assert_eq!(d.span, span(0, 30));
    assert_eq!(p.cursor, 30);
}

#[test]
fn objective_errors() {
    let mut twice = parser(vec![
        word("objective"),
        word("a"),
        TokenKind::LeftBrace,
        word("criteria"),
        TokenKind::Equal,
        text("dummy"),
        TokenKind::Semicolon,
        word("准则"),
    ]);
    let d = twice.objective().err().unwrap();
    assert_eq!((d.message.as_str(), d.span), ("准则只能声明一次", span(7, 8)));
    let mut render = parser(vec![
        word("objective"),
        word("a"),
        TokenKind::LeftBrace,
        word("render_type"),
        TokenKind::Equal,
        text("bars"),
    ]);
    let d = render.objective().err().unwrap();
    assert_eq!((d.message.as_str(), d.span), ("渲染类型只能是 integer/整数 或 hearts/爱心，实际为 `bars`", span(5, 6)));
    let mut format = parser(vec![word("blank")]);
    assert!(matches!(format.number_format().ok().unwrap(), NumberFormat::Blank));
    let mut unknown = parser(vec![word("bold")]);
    let d = unknown.number_format().err().unwrap();
    assert_eq!(d.message, "未知数字格式 `bold`，可用 blank/空白、fixed/固定 或 styled/样式");
    let mut missing = parser(vec![word("objective"), word("a")]);
    let d = missing.objective().err().unwrap();
    assert_eq!((d.message.as_str(), d.span), ("计分板目标声明后需要 `;`", span(2, 2)));
}

fn item_head() -> Vec<TokenKind> {
    vec![
        word("item"),
        word("剑"),
        TokenKind::Equal,
        word("item_stack"),
        TokenKind::LeftParen,
        text("minecraft:diamond_sword"),
        TokenKind::RightParen,
        TokenKind::LeftBrace,
    ]
}

#[test]
fn item_stack_with_defaults() {
    let mut kinds = item_head();
    kinds.push(TokenKind::RightBrace);
    kinds.push(TokenKind::Semicolon);
    let mut p = parser(kinds);
    let d = p.item_stack().ok().unwrap();
    assert_eq!(d.name, "剑");
    assert_eq!(d.item_id, "minecraft:diamond_sword");
    assert_eq!(d.count, 1);
    assert!(!d.unbreakable);
    assert!(d.lore.is_empty() && d.enchantments.is_empty());
    assert_eq!(d.span, span(0, 9));
    assert_eq!(p.cursor, 10);
}

#[test]
fn item_stack_with_properties() {
    let mut kinds = item_head();
    kinds.extend(vec![
        word("数量"),
        TokenKind::Equal,
        TokenKind::Number(3),
        TokenKind::Semicolon,
        word("lore"),
        TokenKind::LeftParen,
        text("第一行"),
        TokenKind::RightParen,
        TokenKind::Semicolon,
        word("lore"),
        TokenKind::LeftParen,
        text("第二行"),
        TokenKind::RightParen,
        TokenKind::Semicolon,
        word("enchantment"),
        TokenKind::LeftParen,
        text("minecraft:sharpness"),
        TokenKind::Comma,
        TokenKind::Number(5),
        TokenKind::RightParen,
        TokenKind::Semicolon,
        word("rarity"),
        TokenKind::Equal,
        word("epic"),
        TokenKind::Semicolon,
        word("unbreakable"),
        TokenKind::Equal,
        word("真"),
        TokenKind::Semicolon,
        TokenKind::RightBrace,
    ]);
    let mut p = parser(kinds);
    let d = p.item_stack().ok().unwrap();
    assert_eq!(d.count, 3);
    assert_eq!(d.lore, vec!["第一行".to_string(), "第二行".to_string()]);
    assert_eq!(d.enchantments.len(), 1);
    assert_eq!(d.enchantments[0].enchantment_id, "minecraft:sharpness");
    assert_eq!(d.enchantments[0].level, 5);
    assert_eq!(d.enchantments[0].span, span(24, 25));
    assert_eq!(d.rarity, Some(ItemRarity::Epic));
    assert!(d.unbreakable);
    assert_eq!(p.cursor, 38);
}

#[test]
fn item_stack_errors() {
    let mut twice = item_head();
    twice.extend(vec![
        word("count"),
        TokenKind::Equal,
        TokenKind::Number(1),
        TokenKind::Semicolon,
        word("count"),
    ]);
    let d = parser(twice).item_stack().err().unwrap();
    assert_eq!((d.message.as_str(), d.span), ("物品数量只能声明一次", span(12, 13)));
    let mut unknown = item_head();
    unknown.push(word("colour"));
    let d = parser(unknown).item_stack().err().unwrap();
    assert_eq!((d.message.as_str(), d.span), ("未知物品定义属性 `colour`", span(8, 9)));
    let mut rarity = item_head();
    rarity.extend(vec![word("rarity"), TokenKind::Equal, word("legendary")]);
    let d = parser(rarity).item_stack().err().unwrap();
    assert_eq!(d.message, "稀有度只能是 common、uncommon、rare 或 epic");
    let open = item_head();
    let d = parser(open).item_stack().err().unwrap();
    assert_eq!((d.message.as_str(), d.span), ("物品定义缺少 `}`", span(8, 8)));
    let mut components = item_head();
    components.extend(vec![word("components"), TokenKind::Equal, TokenKind::Number(1), TokenKind::Semicolon]);
    let d = parser(components).item_stack().err().unwrap();
    assert_eq!((d.message.as_str(), d.span), ("未知物品定义属性 `components`", span(8, 9)));
}

fn criterion(name: &str, trigger: &str) -> Vec<TokenKind> {
    vec![
        word("criterion"),
        word(name),
        TokenKind::LeftBrace,
        word("trigger"),
        TokenKind::Equal,
        text(trigger),
        TokenKind::Semicolon,
        TokenKind::RightBrace,
    ]
}

#[test]
fn advancement_with_criteria_reward_and_display() {
    let mut kinds = vec![word("advancement"), word("首杀"), TokenKind::LeftBrace];
    kinds.extend(vec![word("parent"), TokenKind::Equal, text("minecraft:story/root"), TokenKind::Semicolon]);
    kinds.extend(criterion("kill", "minecraft:player_killed_entity"));
    kinds.extend(criterion("tick", "minecraft:tick"));
    kinds.extend(vec![word("requirements"), TokenKind::Equal, word("任意"), TokenKind::Semicolon]);
    kinds.extend(vec![
        word("reward"),
        TokenKind::LeftBrace,
        word("experience"),
        TokenKind::Equal,
        TokenKind::Minus,
        TokenKind::Number(5),
        TokenKind::Semicolon,
        word("loot"),
        TokenKind::Equal,
        word("宝箱"),
        TokenKind::Semicolon,
        TokenKind::RightBrace,
    ]);
    kinds.extend(vec![
        word("display"),
        TokenKind::LeftBrace,
        word("icon"),
        TokenKind::Equal,
        word("剑"),
        TokenKind::Semicolon,
        word("title"),
        TokenKind::Equal,
        text("首杀"),
        TokenKind::Semicolon,
        word("description"),
        TokenKind::Equal,
        text("击败一个生物"),
        TokenKind::Semicolon,
        TokenKind::RightBrace,
    ]);
    kinds.push(TokenKind::RightBrace);
    let n = kinds.len();
    let mut p = parser(kinds);
    let d = p.advancement().ok().unwrap();
    assert_eq!(d.name, "首杀");
    let parent = d.parent.unwrap();
    assert_eq!((parent.name.as_str(), parent.external), ("minecraft:story/root", true));
    assert_eq!(d.criteria.len(), 2);
    assert_eq!(d.criteria[0].name, "kill");
    assert_eq!(d.criteria[1].trigger, "minecraft:tick");
    assert_eq!(d.criteria[0].span, span(7, 15));
    assert_eq!(d.requirements, mclang::parser::keywords::values::AdvancementRequirements::Any);
    let reward = d.reward.unwrap();
    assert_eq!(reward.experience, Some(-5));
    assert_eq!(reward.loot.len(), 1);
    assert!(!reward.loot[0].external);
    let display = d.display.unwrap();
    assert_eq!(display.title, "首杀");
    assert_eq!(d.span, span(0, n));
    assert_eq!(p.cursor, n);
}

#[test]
fn advancement_errors() {
    let mut empty = parser(vec![word("advancement"), word("a"), TokenKind::LeftBrace, TokenKind::RightBrace]);
    let d = empty.advancement().err().unwrap();
    assert_eq!((d.message.as_str(), d.span), ("进度必须声明至少一条 criterion", span(0, 4)));
    let mut no_trigger = parser(vec![
        word("advancement"),
        word("a"),
        TokenKind::LeftBrace,
        word("criterion"),
        word("c"),
        TokenKind::LeftBrace,
        TokenKind::RightBrace,
    ]);
    let d = no_trigger.advancement().err().unwrap();
    assert_eq!((d.message.as_str(), d.span), ("准则必须声明 trigger", span(3, 7)));
    let mut twice = vec![word("advancement"), word("a"), TokenKind::LeftBrace];
    twice.extend(vec![word("parent"), TokenKind::Equal, word("p"), TokenKind::Semicolon]);
    twice.push(word("父进度"));
    let d = parser(twice).advancement().err().unwrap();
    assert_eq!((d.message.as_str(), d.span), ("进度只能声明一次 parent", span(7, 8)));
    let mut reward = parser(vec![TokenKind::LeftBrace, word("loot"), TokenKind::Equal, TokenKind::Number(1)]);
    let d = reward.advancement_reward().err().unwrap();
    assert_eq!((d.message.as_str(), d.span), ("这里需要战利品表名称或资源位置字符串", span(3, 4)));
}
