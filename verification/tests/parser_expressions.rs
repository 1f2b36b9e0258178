use mclang::parser::conditions::{Comparison, Condition};
use mclang::parser::cursor::{Parser, Span, Token, TokenKind};
use mclang::parser::expressions::{BinaryOp, ComputeKind, ComputeSource, Expr, ExprKind};
use mclang::parser::query::{EntitySort, EntityTypeFilter};

fn tokens(kinds: Vec<TokenKind>) -> Vec<Token> {
    let mut out: Vec<Token> = kinds
        .into_iter()
        .enumerate()
        .map(|(i, kind)| Token { kind, span: Span { start: i, end: i + 1 } })
        .collect();
    let n = out.len();
    out.push(Token { kind: TokenKind::Eof, span: Span { start: n, end: n } });
    out
}

fn word(s: &str) -> TokenKind {
    TokenKind::Ident(s.to_string())
}

fn text(s: &str) -> TokenKind {
    TokenKind::String(s.to_string())
}

fn num(n: i64) -> TokenKind {
    TokenKind::Number(n)
}

fn span(start: usize, end: usize) -> Span {
    Span { start, end }
}

fn parser(kinds: Vec<TokenKind>) -> Parser {
    Parser::new(tokens(kinds))
}

fn integer(e: &Expr) -> Option<i32> {
    match e.kind {
        ExprKind::Integer(n) => Some(n),
        _ => None,
    }
}

#[test]
fn products_bind_tighter_than_sums() {
    let mut p = parser(vec![num(1), TokenKind::Plus, num(2), TokenKind::Star, num(3)]);
    let e = p.expression().ok().unwrap();
    assert_eq!(e.span, span(0, 5));
    assert_eq!(p.cursor, 5);
    match &e.kind {
        ExprKind::Binary { left, operation, right } => {
            assert_eq!(integer(left), Some(1));
            assert_eq!(*operation, BinaryOp::Add);
            match &right.kind {
                ExprKind::Binary { left, operation, right } => {
                    assert_eq!(integer(left), Some(2));
                    assert_eq!(*operation, BinaryOp::Multiply);
                    assert_eq!(integer(right), Some(3));
                }
                _ => panic!("expected a product"),
            }
            assert_eq!(right.span, span(2, 5));
        }
        _ => panic!("expected a sum"),
    }
}

#[test]
fn sums_group_to_the_left() {
    let mut p = parser(vec![num(7), TokenKind::Minus, num(2), TokenKind::Minus, num(1)]);
    let e = p.expression().ok().unwrap();
    match &e.kind {
        ExprKind::Binary { left, operation, right } => {
            assert_eq!(*operation, BinaryOp::Subtract);
            assert_eq!(integer(right), Some(1));
            assert_eq!(left.span, span(0, 3));
            assert!(matches!(left.kind, ExprKind::Binary { operation: BinaryOp::Subtract, .. }));
        }
        _ => panic!("expected a difference"),
    }
}

#[test]
fn minus_before_a_number_is_a_negative_literal() {
    let mut p = parser(vec![TokenKind::Minus, num(5)]);
    let e = p.expression().ok().unwrap();
    assert_eq!(integer(&e), Some(-5));
    assert_eq!(e.span, span(0, 2));
    let mut p = parser(vec![TokenKind::Minus, TokenKind::LeftParen, word("x"), TokenKind::RightParen]);
    let e = p.expression().ok().unwrap();
    match &e.kind {
        ExprKind::Negate(inner) => {
            assert!(matches!(&inner.kind, ExprKind::Score(name) if name == "x"));
            assert_eq!(inner.span, span(1, 4));
        }
        _ => panic!("expected a negation"),
    }
    assert_eq!(e.span, span(0, 4));
}

#[test]
fn calls_count_random_and_compute() {
    let mut p = parser(vec![word("f"), TokenKind::LeftParen, num(1), TokenKind::Comma, num(2), TokenKind::RightParen]);
    let e = p.expression().ok().unwrap();
    match &e.kind {
        ExprKind::Call { function, arguments } => {
            assert_eq!(function, "f");
            assert_eq!(arguments.len(), 2);
            assert_eq!(integer(&arguments[0]), Some(1));
            assert_eq!(integer(&arguments[1]), Some(2));
        }
        _ => panic!("expected a call"),
    }
    assert_eq!(e.span, span(0, 6));

    let mut p = parser(vec![word("count"), TokenKind::LeftParen, word("zombies"), TokenKind::RightParen]);
    let e = p.expression().ok().unwrap();
    assert!(matches!(&e.kind, ExprKind::Count { query, query_span } if query == "zombies" && *query_span == span(2, 3)));

    let mut p = parser(vec![
        word("random"),
        TokenKind::LeftParen,
        num(1),
        TokenKind::Comma,
        TokenKind::Minus,
        num(3),
        TokenKind::RightParen,
    ]);
    let e = p.expression().ok().unwrap();
    assert!(matches!(e.kind, ExprKind::Random { min: 1, max: -3 }));
    assert_eq!(e.span, span(0, 7));

    let mut p = parser(vec![
        word("compute"),
        TokenKind::LeftParen,
        word("default"),
        TokenKind::Comma,
        word("浮点"),
        TokenKind::Comma,
        text("demo:provider"),
        TokenKind::Comma,
        num(2),
        TokenKind::RightParen,
    ]);
    let e = p.expression().ok().unwrap();
    match &e.kind {
        ExprKind::Compute { source, kind, provider, provider_span, scale } => {
            assert!(matches!(source, ComputeSource::Default));
            assert_eq!(*kind, ComputeKind::Float);
            assert_eq!(provider, "demo:provider");
            assert_eq!(*provider_span, span(6, 7));
            assert_eq!(scale.as_deref(), Some("2"));
        }
        _ => panic!("expected compute"),
    }
}

#[test]
fn expression_errors() {
    let d = parser(vec![TokenKind::Semicolon]).expression().err().unwrap();
    assert_eq!((d.message.as_str(), d.span), ("这里需要整数、计分变量或括号表达式", span(0, 1)));
    let d = parser(vec![num(3_000_000_000)]).expression().err().unwrap();
    assert_eq!((d.message.as_str(), d.span), ("整数超出 32 位范围", span(0, 1)));
    let d = parser(vec![TokenKind::LeftParen, num(1), TokenKind::Semicolon]).expression().err().unwrap();
    assert_eq!((d.message.as_str(), d.span), ("表达式缺少 `)`", span(2, 3)));
}

#[test]
fn negation_and_connectives() {
    let mut p = parser(vec![TokenKind::Bang, word("entity"), TokenKind::LeftParen, word("boss"), TokenKind::RightParen]);
    let c = p.condition().ok().unwrap();
    match &c {
        Condition::Not(inner) => match inner.as_ref() {
            Condition::Entity { query, query_span, span: s } => {
                assert_eq!(query, "boss");
                assert_eq!(*query_span, span(3, 4));
                assert_eq!(*s, span(1, 5));
            }
            _ => panic!("expected an entity condition"),
        },
        _ => panic!("expected a negation"),
    }
    assert_eq!(p.cursor, 5);

    // a == 1 && b < 2 || c != 3 groups as (a == 1 && b < 2) || c != 3
    let mut p = parser(vec![
        word("a"),
        TokenKind::EqualEqual,
        num(1),
        TokenKind::AndAnd,
        word("b"),
        TokenKind::Less,
        num(2),
        TokenKind::OrOr,
        word("c"),
        TokenKind::BangEqual,
        num(3),
    ]);
    let c = p.condition().ok().unwrap();
    match &c {
        Condition::Or(left, right) => {
            match left.as_ref() {
                Condition::And(first, second) => {
                    assert!(matches!(first.as_ref(), Condition::Compare { comparison: Comparison::Equal, .. }));
                    assert!(matches!(second.as_ref(), Condition::Compare { comparison: Comparison::Less, .. }));
                }
                _ => panic!("expected a conjunction"),
            }
            assert!(matches!(right.as_ref(), Condition::Compare { comparison: Comparison::NotEqual, .. }));
        }
        _ => panic!("expected a disjunction"),
    }
    assert_eq!(p.cursor, 11);
}

#[test]
fn groups_and_block_conditions() {
    let mut p = parser(vec![
        TokenKind::LeftParen,
        word("entity"),
        TokenKind::LeftParen,
        word("boss"),
        TokenKind::RightParen,
        TokenKind::RightParen,
    ]);
    let c = p.condition().ok().unwrap();
    assert!(matches!(&c, Condition::Entity { query, .. } if query == "boss"));
    assert_eq!(p.cursor, 6);

    let mut p = parser(vec![
        word("block"),
        TokenKind::LeftParen,
        word("pos"),
        TokenKind::LeftParen,
        num(1),
        TokenKind::Comma,
        num(2),
        TokenKind::Comma,
        num(3),
        TokenKind::RightParen,
        TokenKind::Comma,
        word("block_state"),
        TokenKind::LeftParen,
        text("minecraft:furnace"),
        TokenKind::RightParen,
        TokenKind::LeftBrace,
        word("facing"),
        TokenKind::Equal,
        text("east"),
        TokenKind::Semicolon,
        TokenKind::RightBrace,
        TokenKind::RightParen,
    ]);
    let c = p.condition().ok().unwrap();
    match &c {
        Condition::Block { pos, block, span: s } => {
            assert_eq!(pos.span, span(2, 10));
            assert_eq!(block.id, "minecraft:furnace");
            assert_eq!(block.properties.len(), 1);
            assert_eq!(block.properties[0].name, "facing");
            assert_eq!(block.properties[0].value, "east");
            assert_eq!(block.properties[0].span, span(16, 19));
            assert_eq!(block.span, span(11, 21));
            assert_eq!(*s, span(0, 22));
        }
        _ => panic!("expected a block condition"),
    }
}

#[test]
fn condition_errors() {
    let d = parser(vec![word("a"), num(1)]).condition().err().unwrap();
    assert_eq!((d.message.as_str(), d.span), ("条件需要 ==、!=、<、<=、> 或 >=", span(1, 2)));
    let d = parser(vec![word("items"), TokenKind::LeftParen]).condition().err().unwrap();
    assert_eq!((d.message.as_str(), d.span), ("不支持 items 条件：物品谓词不在本库的语法之内", span(0, 1)));
    let d = parser(vec![
        word("block_state"),
        TokenKind::LeftParen,
        text("minecraft:furnace"),
        TokenKind::RightParen,
        TokenKind::LeftBrace,
        word("facing"),
        TokenKind::Equal,
        text("east"),
        TokenKind::Semicolon,
        word("facing"),
        TokenKind::Equal,
        text("west"),
        TokenKind::Semicolon,
        TokenKind::RightBrace,
    ])
    .block_state_value("if block 方块谓词")
    .err()
    .unwrap();
    assert_eq!((d.message.as_str(), d.span), ("方块属性 `facing` 重复声明", span(9, 10)));
}

fn query_head() -> Vec<TokenKind> {
    vec![
        word("query"),
        word("bosses"),
        TokenKind::Equal,
        word("entity"),
        TokenKind::LeftParen,
        text("minecraft:zombie"),
        TokenKind::RightParen,
        TokenKind::LeftBrace,
    ]
}

#[test]
fn query_with_properties() {
    let mut kinds = query_head();
    kinds.extend(vec![
        word("tag"),
        TokenKind::LeftParen,
        text("boss"),
        TokenKind::RightParen,
        TokenKind::Semicolon,
        word("排除类型"),
        TokenKind::LeftParen,
        text("#minecraft:undead"),
        TokenKind::RightParen,
        TokenKind::Semicolon,
        word("limit"),
        TokenKind::LeftParen,
        num(3),
        TokenKind::RightParen,
        TokenKind::Semicolon,
        word("sort"),
        TokenKind::LeftParen,
        word("最近"),
        TokenKind::RightParen,
        TokenKind::Semicolon,
        word("without_name"),
        TokenKind::LeftParen,
        text("Steve"),
        TokenKind::RightParen,
        TokenKind::Semicolon,
        word("scores"),
        TokenKind::LeftParen,
        text("hp"),
        TokenKind::Comma,
        text("1..5"),
        TokenKind::RightParen,
        TokenKind::Semicolon,
        word("gamemode"),
        TokenKind::LeftParen,
        text("创造"),
        TokenKind::RightParen,
        TokenKind::Semicolon,
        word("box"),
        TokenKind::LeftParen,
        num(0),
        TokenKind::Comma,
        TokenKind::Minus,
        num(1),
        TokenKind::Comma,
        num(2),
        TokenKind::Comma,
        num(5),
        TokenKind::Comma,
        num(6),
        TokenKind::Comma,
        num(7),
        TokenKind::RightParen,
        TokenKind::Semicolon,
        TokenKind::RightBrace,
        TokenKind::Semicolon,
    ]);
    let mut p = parser(kinds);
    let d = p.query().ok().unwrap();
    assert!(!d.exported);
    assert_eq!(d.name, "bosses");
    assert_eq!(d.name_span, span(1, 2));
    assert_eq!(d.entity_type, "minecraft:zombie");
    assert_eq!(d.tags, vec!["boss".to_string()]);
    assert!(d.excluded_tags.is_empty());
    assert_eq!(d.type_filters.len(), 1);
    assert!(matches!(&d.type_filters[0], EntityTypeFilter::Exclude(v, s) if v == "#minecraft:undead" && *s == span(15, 16)));
    assert_eq!(d.limit, Some(3));
    assert_eq!(d.sort, Some(EntitySort::Nearest));
    assert!(d.within.is_none());
    let name = d.name_filter.unwrap();
    assert_eq!((name.value.as_str(), name.negated, name.span), ("Steve", true, span(30, 31)));
    assert_eq!(d.scores.len(), 1);
    assert_eq!((d.scores[0].objective.as_str(), d.scores[0].range.as_str()), ("hp", "1..5"));
    assert_eq!(d.gamemode.as_deref(), Some("creative"));
    let b = d.box_filter.unwrap();
    assert_eq!(
        (b.x.as_str(), b.y.as_str(), b.z.as_str(), b.dx.as_str(), b.dy.as_str(), b.dz.as_str()),
        ("0", "-1", "2", "5", "6", "7")
    );
    assert_eq!(b.span, span(45, 60));
    assert_eq!(d.span, span(0, 62));
    assert_eq!(p.cursor, 63);
}

#[test]
fn query_errors() {
    let mut twice = query_head();
    twice.extend(vec![
        word("limit"),
        TokenKind::LeftParen,
        num(1),
        TokenKind::RightParen,
        TokenKind::Semicolon,
        word("上限"),
    ]);
    let d = parser(twice).query().err().unwrap();
    assert_eq!((d.message.as_str(), d.span), ("查询只能声明一次 limit", span(13, 14)));

    let mut unknown = query_head();
    unknown.push(word("colour"));
    let d = parser(unknown).query().err().unwrap();
    assert_eq!((d.message.as_str(), d.span), ("未知实体查询属性 `colour`", span(8, 9)));

    let mut sort = query_head();
    sort.extend(vec![word("sort"), TokenKind::LeftParen, word("sideways")]);
    let d = parser(sort).query().err().unwrap();
    assert_eq!(
        (d.message.as_str(), d.span),
        ("排序方式只能是 nearest/最近、furthest/最远、random/随机或 arbitrary/任意", span(10, 11))
    );

    let mut item = query_head();
    item.extend(vec![word("item"), TokenKind::LeftParen]);
    let d = parser(item).query().err().unwrap();
    assert_eq!((d.message.as_str(), d.span), ("不支持 item 过滤器：物品谓词不在本库的语法之内", span(8, 9)));

    let open = query_head();
    let d = parser(open).query().err().unwrap();
    assert_eq!((d.message.as_str(), d.span), ("实体查询缺少 `}`", span(8, 8)));

    let mut missing = query_head();
    missing.extend(vec![word("distance"), TokenKind::LeftParen, num(3)]);
    let d = parser(missing).query().err().unwrap();
    assert_eq!((d.message.as_str(), d.span), ("distance 需要字符串", span(10, 11)));
}
