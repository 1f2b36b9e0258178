use mclang::parser::advancements::AdvancementDisplay;
use mclang::parser::arguments::Holder;
use mclang::parser::cursor::{MacroCoordinateKind, MacroType, Parser, Span, Token, TokenKind};
use mclang::parser::expressions::{ExprKind, NbtSource};
use mclang::parser::keywords::actions::XpKind;
use mclang::parser::keywords::values::AdvancementFrame;
use mclang::parser::positions::Coordinate;

fn tokens(kinds: Vec<TokenKind>) -> Vec<Token> {
    let mut out: Vec<Token> = kinds
        .into_iter()
        .enumerate()
        .map(|(i, kind)| Token { kind, span: Span { start: i, end: i + 1 } })
        .collect();
    let n = out.len();
    out.push(Token { kind: TokenKind::Eof, span: Span { start: n, end: n } });
    out
}

fn word(s: &str) -> TokenKind {
    TokenKind::Ident(s.to_string())
}

fn text(s: &str) -> TokenKind {
    TokenKind::String(s.to_string())
}

fn parser(kinds: Vec<TokenKind>) -> Parser {
    Parser::new(tokens(kinds))
}

fn span(start: usize, end: usize) -> Span {
    Span { start, end }
}

fn coordinate_text(c: &Coordinate) -> (u8, String) {
    match c {
        Coordinate::Absolute(s) => (0, s.clone()),
        Coordinate::Relative(s) => (1, s.clone()),
        Coordinate::Local(s) => (2, s.clone()),
        Coordinate::Macro(s) => (3, s.clone()),
    }
}

fn display(kinds: Vec<TokenKind>) -> Result<AdvancementDisplay, (String, Span)> {
    let mut p = parser(kinds);
    p.advancement_display().map_err(|d| (d.message, d.span))
}

fn property(name: &str, value: TokenKind) -> Vec<TokenKind> {
    vec![word(name), TokenKind::Equal, value, TokenKind::Semicolon]
}

fn required_display() -> Vec<TokenKind> {
    let mut kinds = vec![TokenKind::LeftBrace];
    kinds.extend(property("icon", word("钻石")));
    kinds.extend(property("title", text("标题")));
    kinds.extend(property("description", text("说明")));
    kinds
}

#[test]
fn display_with_required_properties_defaults_to_task() {
    let mut kinds = required_display();
    kinds.push(TokenKind::RightBrace);
    kinds.push(word("next"));
    let mut p = parser(kinds);
    let d = p.advancement_display().ok().unwrap();
    assert_eq!(d.icon, "钻石");
    assert_eq!(d.icon_span, span(3, 4));
    assert_eq!(d.title, "标题");
    assert_eq!(d.description, "说明");
    assert_eq!(d.frame, AdvancementFrame::Task);
    assert!(d.background.is_none() && d.show_toast.is_none() && d.hidden.is_none());
    assert_eq!(d.span, span(0, 14));
    assert_eq!(p.cursor, 14);
}

#[test]
fn display_reads_chinese_properties_and_flags() {
    let mut kinds = required_display();
    kinds.extend(property("框架", word("挑战")));
    kinds.extend(property("background", text("minecraft:block/stone")));
    kinds.extend(property("显示提示", word("假")));
    kinds.extend(property("announce_to_chat", word("true")));
    kinds.extend(property("隐藏", word("真")));
    kinds.push(TokenKind::RightBrace);
    let d = display(kinds).ok().unwrap();
    assert_eq!(d.frame, AdvancementFrame::Challenge);
    assert_eq!(d.background.as_deref(), Some("minecraft:block/stone"));
    assert_eq!(d.background_span, Some(span(19, 20)));
    assert_eq!(d.show_toast, Some(false));
    assert_eq!(d.announce_to_chat, Some(true));
    assert_eq!(d.hidden, Some(true));
}

#[test]
fn display_errors() {
    assert_eq!(display(vec![word("icon")]).err().unwrap(), ("display 后需要 `{`".to_string(), span(0, 1)));
    let mut missing = vec![TokenKind::LeftBrace];
    missing.extend(property("icon", word("钻石")));
    missing.push(TokenKind::RightBrace);
    assert_eq!(display(missing).err().unwrap(), ("display 必须声明 title".to_string(), span(0, 6)));
    let mut twice = required_display();
    twice.extend(property("title", text("again")));
    assert_eq!(display(twice).err().unwrap(), ("display 只能声明一次 title".to_string(), span(13, 14)));
    let mut unknown = required_display();
    unknown.extend(property("colour", text("red")));
    assert_eq!(display(unknown).err().unwrap(), ("未知展示属性 `colour`".to_string(), span(13, 14)));
    let mut flag = required_display();
    flag.extend(property("hidden", word("maybe")));
    assert_eq!(display(flag).err().unwrap(), ("这里需要 true 或 false".to_string(), span(15, 16)));
    let mut frame = required_display();
    frame.extend(property("frame", word("boss")));
    assert_eq!(
        display(frame).err().unwrap(),
        ("frame 只能是 task/任务、goal/目标 或 challenge/挑战".to_string(), span(15, 16))
    );
    let open = required_display();
    assert_eq!(display(open).err().unwrap(), ("display 缺少 `}`".to_string(), span(13, 13)));
    let mut flag_twice = required_display();
    flag_twice.extend(property("show_toast", word("true")));
    flag_twice.extend(property("显示提示", word("false")));
    assert_eq!(display(flag_twice).err().unwrap(), ("display 只能声明一次 show_toast".to_string(), span(17, 18)));
}

#[test]
fn signed_numbers_keep_their_text() {
    let mut p = parser(vec![TokenKind::Minus, TokenKind::Number(12), TokenKind::Plus, TokenKind::Decimal("1.5".to_string())]);
    assert_eq!(p.signed_number_text("x").ok().unwrap(), "-12");
    assert_eq!(p.signed_number_text("y").ok().unwrap(), "1.5");
    assert_eq!(p.cursor, 4);
    let mut bad = parser(vec![word("a")]);
    let d = bad.signed_number_text("缩放").err().unwrap();
    assert_eq!((d.message.as_str(), d.span), ("缩放 需要数字", span(0, 1)));
}

#[test]
fn block_positions_and_their_errors() {
    let mut p = parser(vec![
        word("pos"),
        TokenKind::LeftParen,
        TokenKind::Number(1),
        TokenKind::Comma,
        TokenKind::Tilde,
        TokenKind::Comma,
        TokenKind::Tilde,
        TokenKind::Minus,
        TokenKind::Decimal("0.5".to_string()),
        TokenKind::RightParen,
    ]);
    let position = p.block_position("目标").ok().unwrap();
    assert_eq!(coordinate_text(&position.x), (0, "1".to_string()));
    assert_eq!(coordinate_text(&position.y), (1, "~".to_string()));
    assert_eq!(coordinate_text(&position.z), (1, "~-0.5".to_string()));
    assert_eq!(position.span, span(0, 10));
    assert_eq!(p.cursor, 10);

    let mut mixed = parser(vec![
        word("pos"),
        TokenKind::LeftParen,
        TokenKind::Caret,
        TokenKind::Comma,
        TokenKind::Caret,
        TokenKind::Comma,
        TokenKind::Number(3),
        TokenKind::RightParen,
    ]);
    let d = mixed.block_position("目标").err().unwrap();
    assert_eq!(d.message, "方块坐标不能混用 `^` 局部坐标与 `~`/绝对坐标");
    assert_eq!(d.span, span(0, 8));

    let mut missing = parser(vec![word("here")]);
    let d = missing.block_position("目标").err().unwrap();
    assert_eq!(d.message, "目标需要 `pos(x, y, z)`（中文 `坐标(...)`，别名 `block_pos`）");
}

#[test]
fn macro_coordinates_record_their_parameter() {
    let macro_position = || vec![
        word("pos"),
        TokenKind::LeftParen,
        word("macro"),
        TokenKind::LeftParen,
        word("h"),
        TokenKind::RightParen,
        TokenKind::Comma,
        TokenKind::Number(64),
        TokenKind::Comma,
        TokenKind::Number(0),
        TokenKind::RightParen,
    ];
    let mut p = Parser::with_macro_parameters(tokens(macro_position()), vec![("h".to_string(), MacroType::Integer)]);
    let position = p.block_position("目标").ok().unwrap();
    assert_eq!(coordinate_text(&position.x), (3, "$(h)".to_string()));
    assert_eq!(p.macro_uses, vec![("h".to_string(), span(4, 5))]);
    assert_eq!(p.macro_coordinates, vec![("h".to_string(), MacroCoordinateKind::Horizontal)]);

    let mut text_param = Parser::with_macro_parameters(tokens(macro_position()), vec![("h".to_string(), MacroType::Text)]);
    let d = text_param.block_position("目标").err().unwrap();
    assert_eq!(d.message, "宏坐标 `h` 需要声明为 integer 参数");
    assert_eq!(d.span, span(4, 5));
}

fn named(receiver: &str, kinds: Vec<TokenKind>) -> (Result<mclang::parser::expressions::Expr, (String, Span)>, usize) {
    let mut p = parser(kinds);
    let r = p.named_expression(receiver.to_string(), span(100, 101)).map_err(|d| (d.message, d.span));
    (r, p.cursor)
}

#[test]
fn xp_query_reads_target_and_kind() {
    let (r, cursor) = named(
        "经验",
        vec![TokenKind::Dot, word("query"), TokenKind::LeftParen, word("玩家"), TokenKind::Comma, word("等级"), TokenKind::RightParen],
    );
    let e = r.ok().unwrap();
    assert!(matches!(e.kind, ExprKind::XpQuery { ref target, kind: XpKind::Levels } if target == "玩家"));
    assert_eq!(e.span, span(100, 7));
    assert_eq!(cursor, 7);
}

#[test]
fn time_and_world_queries() {
    let (r, _) = named("time", vec![TokenKind::Dot, word("query"), TokenKind::LeftParen, TokenKind::RightParen]);
    assert!(matches!(r.ok().unwrap().kind, ExprKind::TimeQuery { clock: None }));
    let (r, _) = named("time", vec![TokenKind::Dot, word("query"), TokenKind::LeftParen, text("minecraft:overworld"), TokenKind::RightParen]);
    assert!(matches!(r.ok().unwrap().kind, ExprKind::TimeQuery { clock: Some(ref c) } if c == "minecraft:overworld"));
    let (r, _) = named("worldborder", vec![TokenKind::Dot, word("get"), TokenKind::LeftParen, TokenKind::Number(1)]);
    assert_eq!(r.err().unwrap(), ("worldborder.get 不接受参数，需要 `)`".to_string(), span(3, 4)));
    let (r, _) = named("gamerule", vec![TokenKind::Dot, word("query"), TokenKind::LeftParen, text("keepInventory"), TokenKind::RightParen]);
    assert!(matches!(r.ok().unwrap().kind, ExprKind::GameRuleQuery { ref name } if name == "keepInventory"));
}

#[test]
fn stopwatch_and_score_queries() {
    let (r, cursor) = named(
        "stopwatch",
        vec![TokenKind::Dot, word("query"), TokenKind::LeftParen, text("a:b"), TokenKind::Comma, TokenKind::Minus, TokenKind::Number(2), TokenKind::RightParen],
    );
    assert!(matches!(r.ok().unwrap().kind, ExprKind::StopwatchQuery { ref id, scale: Some(ref s) } if id == "a:b" && s == "-2"));
    assert_eq!(cursor, 8);
    let (r, _) = named(
        "scoreboard",
        vec![TokenKind::Dot, word("get"), TokenKind::LeftParen, word("self"), TokenKind::Comma, word("points"), TokenKind::RightParen],
    );
    match r.ok().unwrap().kind {
        ExprKind::ScoreQuery { target } => {
            assert!(matches!(target.holder, Holder::SelfEntity));
            assert_eq!(target.objective, "points");
            assert_eq!(target.objective_span, span(5, 6));
        },
        _ => panic!("expected a score query"),
    }
}

#[test]
fn data_get_reads_a_storage_path() {
    let (r, cursor) = named(
        "data",
        vec![
            TokenKind::Dot,
            word("get"),
            TokenKind::LeftParen,
            word("storage"),
            TokenKind::Comma,
            text("a:b"),
            TokenKind::Comma,
            text("x.y"),
            TokenKind::RightParen,
        ],
    );
    match r.ok().unwrap().kind {
        ExprKind::DataGet { source: NbtSource::Storage(id, id_span), path, path_span } => {
            assert_eq!((id.as_str(), id_span), ("a:b", span(5, 6)));
            assert_eq!((path.as_str(), path_span), ("x.y", span(7, 8)));
        },
        _ => panic!("expected data.get from a storage"),
    }
    assert_eq!(cursor, 9);
}

#[test]
fn unknown_named_expression_and_source() {
    let (r, _) = named("xp", vec![TokenKind::Dot, word("add")]);
    let (message, at) = r.err().unwrap();
    assert!(message.starts_with("未知的具名表达式 `xp.add`；目前支持"));
    assert_eq!(at, span(100, 2));
    let (r, _) = named("data", vec![TokenKind::Dot, word("get"), TokenKind::LeftParen, word("disk"), TokenKind::Comma]);
    assert_eq!(
        r.err().unwrap(),
        ("未知 NBT 来源 `disk`，可用 entity（实体）、block（方块）或 storage（存储）".to_string(), span(3, 4))
    );
    let (r, _) = named("xp", vec![word("query")]);
    assert_eq!(r.err().unwrap(), ("名称后需要 `.`".to_string(), span(0, 1)));
}
