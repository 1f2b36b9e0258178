use mclang::parser::cursor::{Parser, Span, Token, TokenKind};
use mclang::parser::keywords::values::Attribute;
use mclang::parser::program::parse;
use mclang::parser::components::TextComponentKind;
use mclang::parser::statements::{
    AssignOp, GiveItem, GiveTarget, MessageTarget, ReturnKind, ScheduleMode, SelfAction, StatementKind,
};

fn tokens(kinds: Vec<TokenKind>) -> Vec<Token> {
    let mut out: Vec<Token> = kinds
        .into_iter()
        .enumerate()
        .map(|(i, kind)| Token { kind, span: Span { start: i, end: i + 1 } })
        .collect();
    let n = out.len();
    out.push(Token { kind: TokenKind::Eof, span: Span { start: n, end: n } });
    out
}

fn word(s: &str) -> TokenKind {
    TokenKind::Ident(s.to_string())
}

fn text(s: &str) -> TokenKind {
    TokenKind::String(s.to_string())
}

fn num(n: i64) -> TokenKind {
    TokenKind::Number(n)
}

fn span(start: usize, end: usize) -> Span {
    Span { start, end }
}

fn parser(kinds: Vec<TokenKind>) -> Parser {
    Parser::new(tokens(kinds))
}

#[test]
fn parses_a_complete_program() {
    // namespace demo;
    // score timer = 0;
    // @tick fn tick() {
    //     timer += 1;
    //     if timer >= 20 { announce(); } else { run "say waiting"; }
    // }
    // fn announce() { schedule tick() after 1 s append; }
    let source = vec![
        word("namespace"),
        word("demo"),
        TokenKind::Semicolon,
        word("score"),
        word("timer"),
        TokenKind::Equal,
        num(0),
        TokenKind::Semicolon,
        TokenKind::At,
        word("tick"),
        word("fn"),
        word("tick"),
        TokenKind::LeftParen,
        TokenKind::RightParen,
        TokenKind::LeftBrace,
        word("timer"),
        TokenKind::PlusEqual,
        num(1),
        TokenKind::Semicolon,
        word("if"),
        word("timer"),
        TokenKind::GreaterEqual,
        num(20),
        TokenKind::LeftBrace,
        word("announce"),
        TokenKind::LeftParen,
        TokenKind::RightParen,
        TokenKind::Semicolon,
        TokenKind::RightBrace,
        word("else"),
        TokenKind::LeftBrace,
        word("run"),
        text("say waiting"),
        TokenKind::Semicolon,
        TokenKind::RightBrace,
        TokenKind::RightBrace,
        word("fn"),
        word("announce"),
        TokenKind::LeftParen,
        TokenKind::RightParen,
        TokenKind::LeftBrace,
        word("schedule"),
        word("tick"),
        TokenKind::LeftParen,
        TokenKind::RightParen,
        word("after"),
        num(1),
        word("s"),
        word("append"),
        TokenKind::Semicolon,
        TokenKind::RightBrace,
    ];
    let program = parse(tokens(source)).ok().unwrap();
    assert_eq!(program.namespace, "demo");
    assert_eq!(program.namespace_span, Some(span(0, 2)));
    assert_eq!(program.scores.len(), 1);
    assert_eq!(program.functions.len(), 2);

    let tick = &program.functions[0];
    assert_eq!(tick.name, "tick");
    assert_eq!(tick.attributes, vec![Attribute::Tick]);
    assert_eq!(tick.span, span(8, 36));
    assert_eq!(tick.body.len(), 2);
    assert!(matches!(&tick.body[0].kind, StatementKind::Assign { target, operation: AssignOp::Add, .. } if target == "timer"));
    match &tick.body[1].kind {
        StatementKind::If { body, otherwise, .. } => {
            assert_eq!(body.len(), 1);
            assert!(matches!(&otherwise[0].kind, StatementKind::Run(command) if command == "say waiting"));
        }
        _ => panic!("expected an if statement"),
    }
    let announce = &program.functions[1];
    assert!(announce.attributes.is_empty());
    match &announce.body[0].kind {
        StatementKind::Schedule { delay, mode, .. } => {
            assert_eq!(delay, "1s");
            assert_eq!(*mode, ScheduleMode::Append);
        }
        _ => panic!("expected a schedule"),
    }
}

#[test]
fn exported_declarations_and_imports() {
    let source = vec![
        word("import"),
        word("lib"),
        TokenKind::Semicolon,
        word("export"),
        word("query"),
        word("zombies"),
        TokenKind::Equal,
        word("entity"),
        TokenKind::LeftParen,
        text("minecraft:zombie"),
        TokenKind::RightParen,
        TokenKind::LeftBrace,
        word("limit"),
        TokenKind::LeftParen,
        num(2),
        TokenKind::RightParen,
        TokenKind::Semicolon,
        TokenKind::RightBrace,
        word("export"),
        word("fn"),
        word("go"),
        TokenKind::LeftParen,
        word("a"),
        TokenKind::Comma,
        word("b"),
        TokenKind::RightParen,
        TokenKind::Arrow,
        word("score"),
        TokenKind::LeftBrace,
        word("return"),
        word("a"),
        TokenKind::Plus,
        word("b"),
        TokenKind::Semicolon,
        TokenKind::RightBrace,
    ];
    let program = parse(tokens(source)).ok().unwrap();
    assert_eq!(program.namespace, "");
    assert!(program.namespace_span.is_none());
    assert_eq!(program.imports.len(), 1);
    assert_eq!(program.queries.len(), 1);
    assert!(program.queries[0].exported);
    assert_eq!(program.queries[0].limit, Some(2));
    let f = &program.functions[0];
    assert!(f.exported && f.returns_score);
    assert_eq!(f.parameters.len(), 2);
    assert_eq!((f.parameters[1].name.as_str(), f.parameters[1].span), ("b", span(24, 25)));
    assert!(matches!(&f.body[0].kind, StatementKind::Return(ReturnKind::Value(_))));
}

#[test]
fn program_errors() {
    let d = parse(tokens(vec![word("namespace"), word("demo")])).err().unwrap();
    assert_eq!(d.len(), 1);
    assert_eq!((d[0].message.as_str(), d[0].span), ("命名空间声明后需要 `;`", span(2, 2)));

    let d = parse(tokens(vec![
        word("fn"),
        word("f"),
        TokenKind::LeftParen,
        TokenKind::RightParen,
        TokenKind::LeftBrace,
        word("spawn"),
        TokenKind::LeftParen,
    ]))
    .err()
    .unwrap();
    assert_eq!((d[0].message.as_str(), d[0].span), ("不支持的语句 `spawn`：该语句的语法不在本库之内", span(5, 6)));

    let d = parse(tokens(vec![TokenKind::At, word("sometimes"), word("fn")])).err().unwrap();
    assert_eq!((d[0].message.as_str(), d[0].span), ("未知函数属性 `@sometimes`", span(1, 2)));

    let d = parse(tokens(vec![word("fn"), word("f"), TokenKind::LeftParen, TokenKind::RightParen, TokenKind::LeftBrace]))
        .err()
        .unwrap();
    assert_eq!((d[0].message.as_str(), d[0].span), ("代码块缺少 `}`", span(5, 5)));
}

#[test]
fn control_flow_statements() {
    let mut p = parser(vec![
        word("each"),
        TokenKind::LeftParen,
        word("zombies"),
        TokenKind::RightParen,
        TokenKind::LeftBrace,
        word("let"),
        word("n"),
        TokenKind::Equal,
        num(3),
        TokenKind::Semicolon,
        word("while"),
        word("n"),
        TokenKind::Greater,
        num(0),
        TokenKind::LeftBrace,
        word("n"),
        TokenKind::MinusEqual,
        num(1),
        TokenKind::Semicolon,
        TokenKind::RightBrace,
        word("execute"),
        text("as @a at @s"),
        TokenKind::LeftBrace,
        word("return"),
        word("fail"),
        TokenKind::Semicolon,
        TokenKind::RightBrace,
        TokenKind::RightBrace,
    ]);
    let s = p.statement().ok().unwrap();
    assert_eq!(s.span, span(0, 28));
    assert_eq!(p.cursor, 28);
    match &s.kind {
        StatementKind::Each { query, body } => {
            assert_eq!(query, "zombies");
            assert_eq!(body.len(), 3);
            assert!(matches!(&body[0].kind, StatementKind::Let { name, name_span, .. } if name == "n" && *name_span == span(6, 7)));
            assert!(matches!(&body[1].kind, StatementKind::While { body, .. } if body.len() == 1));
            assert_eq!(body[1].span, span(10, 20));
            assert!(matches!(&body[2].kind, StatementKind::Execute { clauses, body } if clauses == "as @a at @s" && matches!(body[0].kind, StatementKind::Return(ReturnKind::Fail))));
        }
        _ => panic!("expected each"),
    }
}

#[test]
fn statement_errors() {
    let d = parser(vec![word("execute"), text("run say hi"), TokenKind::LeftBrace]).statement().err().unwrap();
    assert_eq!((d.message.as_str(), d.span), ("execute 字符串应只包含子句，例如 `as @a at @s`", span(1, 2)));
    let d = parser(vec![word("execute"), text("  "), TokenKind::LeftBrace]).statement().err().unwrap();
    assert_eq!(d.message, "execute 字符串应只包含子句，例如 `as @a at @s`");
    let d = parser(vec![word("x"), word("y")]).statement().err().unwrap();
    assert_eq!((d.message.as_str(), d.span), ("这里需要赋值运算符 =、+=、-=、*=、/= 或 %=", span(1, 2)));
    let d = parser(vec![word("run"), text("/say hi"), TokenKind::Semicolon]).statement().err().unwrap();
    assert_eq!((d.message.as_str(), d.span), ("Minecraft 函数中的命令不能以 `/` 开头", span(1, 2)));
    let d = parser(vec![word("kill"), TokenKind::LeftParen]).statement().err().unwrap();
    assert_eq!((d.message.as_str(), d.span), ("不支持的语句 `kill`：该语句的语法不在本库之内", span(0, 1)));
    let d = parser(vec![
        word("schedule"),
        word("tick"),
        TokenKind::LeftParen,
        TokenKind::RightParen,
        word("after"),
        num(0),
        word("t"),
    ])
    .statement()
    .err()
    .unwrap();
    assert_eq!((d.message.as_str(), d.span), ("调度延迟必须是 1 到 2147483647 之间的整数", span(5, 6)));
    let d = parser(vec![
        word("schedule"),
        word("tick"),
        TokenKind::LeftParen,
        TokenKind::RightParen,
        word("after"),
        num(100_000_000),
        word("d"),
    ])
    .statement()
    .err()
    .unwrap();
    assert_eq!((d.message.as_str(), d.span), ("调度延迟超出 32 位游戏刻范围", span(5, 7)));
}

#[test]
fn schedule_clear_and_replace() {
    let mut p = parser(vec![
        word("schedule"),
        TokenKind::Dot,
        word("clear"),
        TokenKind::LeftParen,
        word("tick"),
        TokenKind::RightParen,
        TokenKind::Semicolon,
    ]);
    let s = p.statement().ok().unwrap();
    assert!(matches!(&s.kind, StatementKind::ScheduleClear { function } if function == "tick"));
    let mut p = parser(vec![
        word("schedule"),
        TokenKind::Hash,
        word("loop"),
        TokenKind::LeftParen,
        TokenKind::RightParen,
        word("after"),
        num(2),
        TokenKind::Comma,
        word("秒"),
        TokenKind::Semicolon,
    ]);
    let s = p.statement().ok().unwrap();
    assert!(matches!(&s.kind, StatementKind::Schedule { delay, mode: ScheduleMode::Replace, .. } if delay == "2s"));
}

#[test]
fn give_statements() {
    let mut p = parser(vec![
        word("give"),
        TokenKind::LeftParen,
        word("origin"),
        TokenKind::Comma,
        word("self"),
        TokenKind::Dot,
        word("item"),
        TokenKind::RightParen,
        TokenKind::Semicolon,
    ]);
    let s = p.statement().ok().unwrap();
    assert!(matches!(&s.kind, StatementKind::Give { target: GiveTarget::Origin, item: GiveItem::SelfItem, count: None, count_span: None }));
    assert_eq!(s.span, span(0, 9));
    let mut p = parser(vec![
        word("give"),
        TokenKind::LeftParen,
        word("players"),
        TokenKind::Comma,
        word("sword"),
        TokenKind::Comma,
        num(3),
        TokenKind::RightParen,
        TokenKind::Semicolon,
    ]);
    let s = p.statement().ok().unwrap();
    match &s.kind {
        StatementKind::Give { target: GiveTarget::Query(q), item: GiveItem::Definition(d), count, count_span } => {
            assert_eq!((q.as_str(), d.as_str()), ("players", "sword"));
            assert_eq!((*count, *count_span), (Some(3), Some(span(6, 7))));
        }
        _ => panic!("expected give"),
    }
    let d = parser(vec![
        word("give"),
        TokenKind::LeftParen,
        word("origin"),
        TokenKind::Comma,
        word("self"),
        TokenKind::Dot,
        word("hand"),
    ])
    .statement()
    .err()
    .unwrap();
    assert_eq!((d.message.as_str(), d.span), ("原样给予的写法是 `self.item`（中文 `自身.物品`）", span(6, 7)));
}

#[test]
fn message_statements() {
    let mut p = parser(vec![
        word("message"),
        TokenKind::Dot,
        word("all"),
        TokenKind::LeftParen,
        text("你好"),
        TokenKind::Comma,
        word("red"),
        TokenKind::RightParen,
        TokenKind::Semicolon,
    ]);
    let s = p.statement().ok().unwrap();
    match &s.kind {
        StatementKind::Message { target: MessageTarget::All, component } => {
            assert!(matches!(&component.kind, TextComponentKind::Text(v) if v == "你好"));
            assert_eq!(component.style.color.as_deref(), Some("red"));
        }
        _ => panic!("expected a message"),
    }
    assert_eq!(s.span, span(0, 9));
    let mut p = parser(vec![
        word("message"),
        TokenKind::Dot,
        word("nearest"),
        TokenKind::LeftParen,
        num(5),
        TokenKind::Comma,
        text("hi"),
        TokenKind::RightParen,
        TokenKind::Semicolon,
    ]);
    let s = p.statement().ok().unwrap();
    assert!(matches!(&s.kind, StatementKind::Message { target: MessageTarget::Nearest { within: 5 }, .. }));
    let d = parser(vec![word("message"), TokenKind::Dot, word("everyone"), TokenKind::LeftParen]).statement().err().unwrap();
    assert_eq!((d.message.as_str(), d.span), ("消息目标只能是 all、self、nearest 或 player", span(2, 3)));
}

#[test]
fn self_actions() {
    let mut p = parser(vec![
        word("self"),
        TokenKind::Dot,
        word("添加标签"),
        TokenKind::LeftParen,
        text("boss"),
        TokenKind::RightParen,
        TokenKind::Semicolon,
    ]);
    let s = p.statement().ok().unwrap();
    assert!(matches!(&s.kind, StatementKind::SelfAction(SelfAction::AddTag(tag)) if tag == "boss"));
    let mut p = parser(vec![
        word("self"),
        TokenKind::Dot,
        word("deposit"),
        TokenKind::LeftParen,
        word("bag"),
        TokenKind::Comma,
        word("players"),
        TokenKind::RightParen,
        TokenKind::Semicolon,
    ]);
    let s = p.statement().ok().unwrap();
    assert!(matches!(&s.kind, StatementKind::SelfAction(SelfAction::DataStore { slot, slot_span, query, query_span })
        if slot == "bag" && *slot_span == span(4, 5) && query == "players" && *query_span == span(6, 7)));
    let mut p = parser(vec![
        word("self"),
        TokenKind::Dot,
        word("remove"),
        TokenKind::LeftParen,
        TokenKind::RightParen,
        TokenKind::Semicolon,
    ]);
    assert!(matches!(p.statement().ok().unwrap().kind, StatementKind::SelfAction(SelfAction::Remove)));
    let d = parser(vec![word("self"), TokenKind::Dot, word("fly"), TokenKind::LeftParen]).statement().err().unwrap();
    assert_eq!((d.message.as_str(), d.span), ("未知 self 方法 `fly`", span(2, 3)));
    let d = parser(vec![word("self"), TokenKind::Dot, word("set_no_gravity"), TokenKind::LeftParen, word("maybe")])
        .statement()
        .err()
        .unwrap();
    assert_eq!((d.message.as_str(), d.span), ("这里需要 true 或 false", span(4, 5)));
}
