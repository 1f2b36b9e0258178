use mclang::parser::components::{ClickEvent, ObjectiveRef, SelectorValue, TextComponent, TextComponentKind};
use mclang::parser::cursor::{Parser, Span, Token, TokenKind};
use mclang::parser::expressions::NbtSource;

fn tokens(kinds: Vec<TokenKind>) -> Vec<Token> {
    let mut out: Vec<Token> = kinds
        .into_iter()
        .enumerate()
        .map(|(i, kind)| Token { kind, span: Span { start: i, end: i + 1 } })
        .collect();
    let n = out.len();
    out.push(Token { kind: TokenKind::Eof, span: Span { start: n, end: n } });
    out
}

fn word(s: &str) -> TokenKind {
    TokenKind::Ident(s.to_string())
}

fn text(s: &str) -> TokenKind {
    TokenKind::String(s.to_string())
}

fn span(start: usize, end: usize) -> Span {
    Span { start, end }
}

fn component(kinds: Vec<TokenKind>) -> (Result<Option<TextComponent>, (String, Span)>, usize) {
    let mut p = Parser::new(tokens(kinds));
    let r = p.try_text_component().map_err(|d| (d.message, d.span));
    (r, p.cursor)
}

#[test]
fn plain_text_component_with_style() {
    let (r, cursor) = component(vec![
        word("text"),
        TokenKind::LeftParen,
        text("你好"),
        TokenKind::RightParen,
        TokenKind::LeftBrace,
        word("color"),
        TokenKind::Equal,
        text("红色"),
        TokenKind::Semicolon,
        word("bold"),
        TokenKind::Equal,
        word("真"),
        TokenKind::Comma,
        word("click"),
        TokenKind::Equal,
        word("run_command"),
        TokenKind::LeftParen,
        text("/say hi"),
        TokenKind::RightParen,
        TokenKind::RightBrace,
        word("after"),
    ]);
    let c = r.ok().unwrap().unwrap();
    assert!(matches!(c.kind, TextComponentKind::Text(ref s) if s == "你好"));
    assert_eq!(c.style.color.as_deref(), Some("red"));
    assert_eq!(c.style.bold, Some(true));
    assert!(c.style.italic.is_none());
    assert!(matches!(c.style.click, Some(ClickEvent::RunCommand(ref s)) if s == "/say hi"));
    assert_eq!(c.span, span(0, 4));
    assert_eq!(cursor, 20);
}

#[test]
fn no_constructor_leaves_the_cursor() {
    let (r, cursor) = component(vec![text("plain")]);
    assert!(r.ok().unwrap().is_none());
    assert_eq!(cursor, 0);
    let mut p = Parser::new(tokens(vec![text("plain")]));
    let d = p.text_component("消息").err().unwrap();
    assert_eq!(d.message, "消息需要文本组件，例如 text(\"你好\")、translate(\"键\")、selector(\"@a\")");
    assert_eq!(d.span, span(0, 1));
}

#[test]
fn translate_with_nested_arguments_and_hover() {
    let (r, cursor) = component(vec![
        word("translate"),
        TokenKind::LeftParen,
        text("chat.type.text"),
        TokenKind::Comma,
        TokenKind::LeftBracket,
        word("text"),
        TokenKind::LeftParen,
        text("甲"),
        TokenKind::RightParen,
        TokenKind::Comma,
        word("selector"),
        TokenKind::LeftParen,
        word("玩家们"),
        TokenKind::RightParen,
        TokenKind::RightBracket,
        TokenKind::RightParen,
        TokenKind::LeftBrace,
        word("hover"),
        TokenKind::Equal,
        word("keybind"),
        TokenKind::LeftParen,
        text("key.jump"),
        TokenKind::RightParen,
        TokenKind::RightBrace,
    ]);
    let c = r.ok().unwrap().unwrap();
    match &c.kind {
        TextComponentKind::Translate { key, args } => {
            assert_eq!(key, "chat.type.text");
            assert_eq!(args.len(), 2);
            assert!(matches!(args[0].kind, TextComponentKind::Text(ref s) if s == "甲"));
            assert!(matches!(args[1].kind, TextComponentKind::Selector(SelectorValue::Query(ref s, _)) if s == "玩家们"));
        },
        _ => panic!("expected translate"),
    }
    let hover = c.style.hover.as_ref().unwrap();
    assert!(matches!(hover.kind, TextComponentKind::Keybind(ref s) if s == "key.jump"));
    assert_eq!(c.span, span(0, 16));
    assert_eq!(cursor, 24);
}

#[test]
fn translate_with_empty_arguments() {
    let (r, cursor) = component(vec![
        word("translate"),
        TokenKind::LeftParen,
        text("k"),
        TokenKind::Comma,
        TokenKind::LeftBracket,
        TokenKind::RightBracket,
        TokenKind::RightParen,
    ]);
    let c = r.ok().unwrap().unwrap();
    assert!(matches!(c.kind, TextComponentKind::Translate { ref args, .. } if args.is_empty()));
    assert_eq!(cursor, 7);
}

#[test]
fn score_component_takes_raw_or_declared_objectives() {
    let (r, _) = component(vec![
        word("score"),
        TokenKind::LeftParen,
        word("self"),
        TokenKind::Comma,
        text("kills"),
        TokenKind::RightParen,
    ]);
    let c = r.ok().unwrap().unwrap();
    assert!(matches!(c.kind, TextComponentKind::Score { objective: ObjectiveRef::Raw(ref s), .. } if s == "kills"));
    let (r, _) = component(vec![
        word("score"),
        TokenKind::LeftParen,
        word("origin"),
        TokenKind::Comma,
        word("分数"),
        TokenKind::RightParen,
    ]);
    let c = r.ok().unwrap().unwrap();
    assert!(matches!(c.kind, TextComponentKind::Score { objective: ObjectiveRef::Declared(ref s), objective_span, .. } if s == "分数" && objective_span == span(4, 5)));
}

#[test]
fn nbt_component_takes_its_switches() {
    let (r, cursor) = component(vec![
        word("nbt"),
        TokenKind::LeftParen,
        word("storage"),
        TokenKind::Comma,
        text("a:b"),
        TokenKind::Comma,
        text("path"),
        TokenKind::RightParen,
        TokenKind::LeftBrace,
        word("interpret"),
        TokenKind::Equal,
        word("true"),
        TokenKind::Semicolon,
        word("separator"),
        TokenKind::Equal,
        word("text"),
        TokenKind::LeftParen,
        text(", "),
        TokenKind::RightParen,
        TokenKind::RightBrace,
    ]);
    let c = r.ok().unwrap().unwrap();
    match &c.kind {
        TextComponentKind::Nbt { source: NbtSource::Storage(id, _), path, interpret, plain, separator, .. } => {
            assert_eq!(id, "a:b");
            assert_eq!(path, "path");
            assert!(*interpret);
            assert!(!*plain);
            assert!(matches!(separator.as_ref().unwrap().kind, TextComponentKind::Text(ref s) if s == ", "));
        },
        _ => panic!("expected an nbt component"),
    }
    assert_eq!(c.span, span(0, 8));
    assert_eq!(cursor, 20);
}

#[test]
fn style_errors() {
    let (r, _) = component(vec![
        word("text"),
        TokenKind::LeftParen,
        text("x"),
        TokenKind::RightParen,
        TokenKind::LeftBrace,
        word("plain"),
        TokenKind::Equal,
        word("true"),
        TokenKind::RightBrace,
    ]);
    assert_eq!(r.err().unwrap(), ("plain 只适用于 nbt 组件".to_string(), span(0, 4)));
    let (r, _) = component(vec![
        word("text"),
        TokenKind::LeftParen,
        text("x"),
        TokenKind::RightParen,
        TokenKind::LeftBrace,
        word("bold"),
        TokenKind::Equal,
        word("true"),
        TokenKind::Semicolon,
        word("bold"),
        TokenKind::Equal,
        word("false"),
        TokenKind::RightBrace,
    ]);
    assert_eq!(r.err().unwrap(), ("重复设置样式属性 bold".to_string(), span(9, 10)));
    let (r, _) = component(vec![
        word("text"),
        TokenKind::LeftParen,
        text("x"),
        TokenKind::RightParen,
        TokenKind::LeftBrace,
        word("size"),
    ]);
    let (message, at) = r.err().unwrap();
    assert!(message.starts_with("未知文本样式属性 `size`"));
    assert_eq!(at, span(5, 6));
    let (r, _) = component(vec![
        word("text"),
        TokenKind::LeftParen,
        text("x"),
        TokenKind::RightParen,
        TokenKind::LeftBrace,
        word("click"),
        TokenKind::Equal,
        word("change_page"),
        TokenKind::LeftParen,
        TokenKind::Number(3),
        TokenKind::RightParen,
    ]);
    assert_eq!(r.err().unwrap(), ("文本组件样式块缺少 `}`".to_string(), span(11, 11)));
    let (r, _) = component(vec![word("text"), TokenKind::LeftParen, word("x")]);
    assert_eq!(r.err().unwrap(), ("text 需要字符串".to_string(), span(2, 3)));
}
