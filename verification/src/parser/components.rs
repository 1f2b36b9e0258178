//! Text components: `text("你好")`, `translate("键", [参数, …])`,
//! `keybind("键")`, `score(持有者, 目标)`, `selector("@a")` and
//! `nbt(来源, "路径")`, each with an optional style block
//! `{ color = "red"; bold = 真; click = run_command("/say hi"); hover = … }`.

use vstd::prelude::*;
use crate::chars::str_eq;
use crate::parser::keywords::opt_str;
use crate::parser::keywords::actions::{
    click_action, click_action_spec, text_color, text_color_spec, text_style_property, text_style_property_spec,
};
use super::cursor::{
    macro_state, Parser, Token, TokenKind, Span, Diagnostic, diag, advanced, kind_at, word_at, ident_at, merged,
    stream_ok, lemma_not_last, MacroType, MacroCoordinateKind,
};
use super::arguments::{Holder, holder_view, holder_spec, boolean_spec, boolean_value_message};
use super::numbers::unsigned_spec;
use super::expressions::{NbtSource, NbtSourceView, source_view, nbt_source_spec_at, string_at, opt_text};

verus! {

broadcast use vstd::string::group_string_axioms;

/// What happens on a click.
pub enum ClickEvent {
    OpenUrl(String),
    RunCommand(String),
    SuggestCommand(String),
    CopyToClipboard(String),
    ChangePage(u32),
}

/// The objective of a score component: a raw name or a declared one.
pub enum ObjectiveRef {
    Raw(String),
    Declared(String),
}

/// The selector of a selector component: a raw selector or a declared
/// entity query.
pub enum SelectorValue {
    Raw(String, Span),
    Query(String, Span),
}

/// The style of a component; `None` leaves a property unset.
pub struct TextStyle {
    pub color: Option<String>,
    pub bold: Option<bool>,
    pub italic: Option<bool>,
    pub underlined: Option<bool>,
    pub strikethrough: Option<bool>,
    pub obfuscated: Option<bool>,
    pub click: Option<ClickEvent>,
    pub hover: Option<Box<TextComponent>>,
}

/// What a component shows.
pub enum TextComponentKind {
    Text(String),
    Translate { key: String, args: Vec<TextComponent> },
    Keybind(String),
    Score { holder: Holder, objective: ObjectiveRef, objective_span: Span },
    Selector(SelectorValue),
    Nbt {
        source: NbtSource,
        path: String,
        path_span: Span,
        interpret: bool,
        plain: bool,
        separator: Option<Box<TextComponent>>,
    },
}

/// A text component, its style and its span.
pub struct TextComponent {
    pub kind: TextComponentKind,
    pub style: TextStyle,
    pub span: Span,
}

/// A click event as the contracts speak of it.
pub enum ClickView {
    OpenUrl(Seq<char>),
    RunCommand(Seq<char>),
    SuggestCommand(Seq<char>),
    CopyToClipboard(Seq<char>),
    ChangePage(u32),
}

/// A style as the contracts speak of it.
pub struct StyleView {
    pub color: Option<Seq<char>>,
    pub bold: Option<bool>,
    pub italic: Option<bool>,
    pub underlined: Option<bool>,
    pub strikethrough: Option<bool>,
    pub obfuscated: Option<bool>,
    pub click: Option<ClickView>,
    pub hover: Option<Box<ComponentView>>,
}

/// What a component shows, as the contracts speak of it; a score's
/// objective and a selector are marked `true` when raw.
pub enum KindView {
    Text(Seq<char>),
    Translate(Seq<char>, Seq<ComponentView>),
    Keybind(Seq<char>),
    Score((int, Seq<char>, Span), bool, Seq<char>, Span),
    Selector(bool, Seq<char>, Span),
    Nbt(NbtSourceView, Seq<char>, Span, bool, bool, Option<Box<ComponentView>>),
}

/// A component as the contracts speak of it.
pub struct ComponentView {
    pub kind: KindView,
    pub style: StyleView,
    pub span: Span,
}

/// A style block as the contracts speak of it: the style, and the
/// switches only an `nbt` component takes.
pub struct BlockView {
    pub style: StyleView,
    pub interpret: Option<bool>,
    pub plain: Option<bool>,
    pub separator: Option<Box<ComponentView>>,
}

/// The macro parameter uses and macro coordinates a production records.
pub type Trace = (Seq<(Seq<char>, Span)>, Seq<(Seq<char>, MacroCoordinateKind)>);

pub open spec fn no_trace() -> Trace {
    (seq![], seq![])
}

pub open spec fn followed_by(a: Trace, b: Trace) -> Trace {
    (a.0 + b.0, a.1 + b.1)
}

pub open spec fn click_view(e: ClickEvent) -> ClickView {
    match e {
        ClickEvent::OpenUrl(s) => ClickView::OpenUrl(s@),
        ClickEvent::RunCommand(s) => ClickView::RunCommand(s@),
        ClickEvent::SuggestCommand(s) => ClickView::SuggestCommand(s@),
        ClickEvent::CopyToClipboard(s) => ClickView::CopyToClipboard(s@),
        ClickEvent::ChangePage(n) => ClickView::ChangePage(n),
    }
}

pub open spec fn opt_click(o: Option<ClickEvent>) -> Option<ClickView> {
    match o {
        Some(e) => Some(click_view(e)),
        None => None,
    }
}

pub open spec fn component_view(c: TextComponent) -> ComponentView
    decreases c,
{
    ComponentView { kind: kind_view(c.kind), style: style_view(c.style), span: c.span }
}

pub open spec fn kind_view(k: TextComponentKind) -> KindView
    decreases k,
{
    match k {
        TextComponentKind::Text(s) => KindView::Text(s@),
        TextComponentKind::Translate { key, args } => KindView::Translate(key@, args_view(args@)),
        TextComponentKind::Keybind(s) => KindView::Keybind(s@),
        TextComponentKind::Score { holder, objective, objective_span } => match objective {
            ObjectiveRef::Raw(s) => KindView::Score(holder_view(holder), true, s@, objective_span),
            ObjectiveRef::Declared(s) => KindView::Score(holder_view(holder), false, s@, objective_span),
        },
        TextComponentKind::Selector(v) => match v {
            SelectorValue::Raw(s, span) => KindView::Selector(true, s@, span),
            SelectorValue::Query(s, span) => KindView::Selector(false, s@, span),
        },
        TextComponentKind::Nbt { source, path, path_span, interpret, plain, separator } => KindView::Nbt(
            source_view(source),
            path@,
            path_span,
            interpret,
            plain,
            boxed_view(separator),
        ),
    }
}

pub open spec fn args_view(s: Seq<TextComponent>) -> Seq<ComponentView>
    decreases s,
{
    if s.len() == 0 {
        seq![]
    } else {
        args_view(s.subrange(0, s.len() - 1)).push(component_view(s[s.len() - 1]))
    }
}

pub open spec fn style_view(s: TextStyle) -> StyleView
    decreases s,
{
    StyleView {
        color: opt_text(s.color),
        bold: s.bold,
        italic: s.italic,
        underlined: s.underlined,
        strikethrough: s.strikethrough,
        obfuscated: s.obfuscated,
        click: opt_click(s.click),
        hover: boxed_view(s.hover),
    }
}

pub open spec fn boxed_view(o: Option<Box<TextComponent>>) -> Option<Box<ComponentView>>
    decreases o,
{
    match o {
        Some(b) => Some(Box::new(component_view(*b))),
        None => None,
    }
}

pub open spec fn empty_style() -> StyleView {
    StyleView {
        color: None,
        bold: None,
        italic: None,
        underlined: None,
        strikethrough: None,
        obfuscated: None,
        click: None,
        hover: None,
    }
}

pub open spec fn empty_block() -> BlockView {
    BlockView { style: empty_style(), interpret: None, plain: None, separator: None }
}

/// The style switch `k` as set so far.
pub open spec fn style_flag(s: StyleView, k: Seq<char>) -> Option<bool> {
    if k == "bold"@ {
        s.bold
    } else if k == "italic"@ {
        s.italic
    } else if k == "underlined"@ {
        s.underlined
    } else if k == "strikethrough"@ {
        s.strikethrough
    } else {
        s.obfuscated
    }
}

/// `s` with the style switch `k` set to `b`.
pub open spec fn with_style_flag(s: StyleView, k: Seq<char>, b: bool) -> StyleView {
    if k == "bold"@ {
        StyleView { bold: Some(b), ..s }
    } else if k == "italic"@ {
        StyleView { italic: Some(b), ..s }
    } else if k == "underlined"@ {
        StyleView { underlined: Some(b), ..s }
    } else if k == "strikethrough"@ {
        StyleView { strikethrough: Some(b), ..s }
    } else {
        StyleView { obfuscated: Some(b), ..s }
    }
}

pub open spec fn is_style_flag(k: Seq<char>) -> bool {
    k == "bold"@ || k == "italic"@ || k == "underlined"@ || k == "strikethrough"@ || k == "obfuscated"@
}

/// A click event at `c`: the event and the position after it.
pub open spec fn click_event_spec(t: Seq<Token>, c: int) -> Result<(ClickView, int), (Seq<char>, Span)> {
    match ident_at(t, c, "点击事件动作"@) {
        Err(e) => Err(e),
        Ok((action, span)) => match click_action_spec(action) {
            None => Err(
                (
                    "未知点击事件 `"@ + action
                        + "`，可用 open_url、run_command、suggest_command、copy_to_clipboard、change_page"@,
                    span,
                ),
            ),
            Some(a) => if !kind_at(t, c + 1, TokenKind::LeftParen) {
                Err(("点击事件后需要 `(`"@, t[c + 1].span))
            } else {
                let event: Result<ClickView, (Seq<char>, Span)> = if a == "open_url"@ {
                    match string_at(t, c + 2, "open_url 需要链接字符串"@) {
                        Ok((s, _)) => Ok(ClickView::OpenUrl(s)),
                        Err(e) => Err(e),
                    }
                } else if a == "run_command"@ {
                    match string_at(t, c + 2, "run_command 需要命令字符串"@) {
                        Ok((s, _)) => Ok(ClickView::RunCommand(s)),
                        Err(e) => Err(e),
                    }
                } else if a == "suggest_command"@ {
                    match string_at(t, c + 2, "suggest_command 需要命令字符串"@) {
                        Ok((s, _)) => Ok(ClickView::SuggestCommand(s)),
                        Err(e) => Err(e),
                    }
                } else if a == "copy_to_clipboard"@ {
                    match string_at(t, c + 2, "copy_to_clipboard 需要文本字符串"@) {
                        Ok((s, _)) => Ok(ClickView::CopyToClipboard(s)),
                        Err(e) => Err(e),
                    }
                } else {
                    match unsigned_spec(t, c + 2, "change_page 需要页号"@) {
                        Ok((n, _)) => Ok(ClickView::ChangePage(n)),
                        Err(e) => Err(e),
                    }
                };
                match event {
                    Err(e) => Err(e),
                    Ok(v) => if !kind_at(t, c + 3, TokenKind::RightParen) {
                        Err(("点击事件缺少 `)`"@, t[c + 3].span))
                    } else {
                        Ok((v, c + 4))
                    },
                }
            },
        },
    }
}

/// The message when a component is needed for `label`.
pub open spec fn component_needed_message(label: Seq<char>) -> Seq<char> {
    label + "需要文本组件，例如 text(\"你好\")、translate(\"键\")、selector(\"@a\")"@
}

/// The message of an unknown style property.
pub open spec fn unknown_style_message(name: Seq<char>) -> Seq<char> {
    "未知文本样式属性 `"@ + name
        + "`，可用 color、bold、italic、underlined、strikethrough、obfuscated、click、hover，nbt 组件还支持 interpret、plain、separator"@
}

/// A dummy error for positions past the end, which no parse reaches.
pub open spec fn stuck() -> (Seq<char>, Span) {
    (seq![], Span { start: 0, end: 0 })
}

/// Whether `after` lies past `c` within the tokens.
pub open spec fn moved(t: Seq<Token>, c: int, after: int) -> bool {
    c < after < t.len()
}

/// A text component at `c` (`None` when no constructor stands there):
/// the component, what it records of macro parameters, and the position
/// after it.
pub open spec fn component_spec(t: Seq<Token>, c: int, params: Seq<(Seq<char>, MacroType)>) -> Result<
    Option<(ComponentView, Trace, int)>,
    (Seq<char>, Span),
>
    decreases t.len() - c, 3int,
{
    if !stream_ok(t, c) {
        Err(stuck())
    } else if word_at(t, c, "text"@) {
        if !kind_at(t, c + 1, TokenKind::LeftParen) {
            Err(("text 后需要 `(`"@, t[c + 1].span))
        } else {
            match string_at(t, c + 2, "text 需要字符串"@) {
                Err(e) => Err(e),
                Ok((s, _)) => if !kind_at(t, c + 3, TokenKind::RightParen) {
                    Err(("text 缺少 `)`"@, t[c + 3].span))
                } else {
                    finish_spec(t, c + 4, params, KindView::Text(s), no_trace(), merged(t[c].span, t[c + 3].span))
                },
            }
        }
    } else if word_at(t, c, "translate"@) {
        if !kind_at(t, c + 1, TokenKind::LeftParen) {
            Err(("translate 后需要 `(`"@, t[c + 1].span))
        } else {
            match string_at(t, c + 2, "translate 需要本地化键字符串"@) {
                Err(e) => Err(e),
                Ok((key, _)) => {
                    let args: Result<(Seq<ComponentView>, Trace, int), (Seq<char>, Span)> = if !kind_at(
                        t,
                        c + 3,
                        TokenKind::Comma,
                    ) {
                        Ok((seq![], no_trace(), c + 3))
                    } else if !kind_at(t, c + 4, TokenKind::LeftBracket) {
                        Err(("translate 参数需要 `[`"@, t[c + 4].span))
                    } else if kind_at(t, c + 5, TokenKind::RightBracket) {
                        Ok((seq![], no_trace(), c + 6))
                    } else {
                        match args_spec(t, c + 5, params, seq![], no_trace()) {
                            Err(e) => Err(e),
                            Ok((v, tr, q)) => if !moved(t, c, q) {
                                Err(stuck())
                            } else if !kind_at(t, q, TokenKind::RightBracket) {
                                Err(("translate 参数列表缺少 `]`"@, t[q].span))
                            } else {
                                Ok((v, tr, q + 1))
                            },
                        }
                    };
                    match args {
                        Err(e) => Err(e),
                        Ok((v, tr, p)) => if !moved(t, c, p) {
                            Err(stuck())
                        } else if !kind_at(t, p, TokenKind::RightParen) {
                            Err(("translate 缺少 `)`"@, t[p].span))
                        } else {
                            finish_spec(t, p + 1, params, KindView::Translate(key, v), tr, merged(t[c].span, t[p].span))
                        },
                    }
                },
            }
        }
    } else if word_at(t, c, "keybind"@) {
        if !kind_at(t, c + 1, TokenKind::LeftParen) {
            Err(("keybind 后需要 `(`"@, t[c + 1].span))
        } else {
            match string_at(t, c + 2, "keybind 需要按键名字符串"@) {
                Err(e) => Err(e),
                Ok((s, _)) => if !kind_at(t, c + 3, TokenKind::RightParen) {
                    Err(("keybind 缺少 `)`"@, t[c + 3].span))
                } else {
                    finish_spec(t, c + 4, params, KindView::Keybind(s), no_trace(), merged(t[c].span, t[c + 3].span))
                },
            }
        }
    } else if word_at(t, c, "score"@) {
        if !kind_at(t, c + 1, TokenKind::LeftParen) {
            Err(("score 后需要 `(`"@, t[c + 1].span))
        } else {
            match holder_spec(t, c + 2, "计分持有者"@) {
                Err(e) => Err(e),
                Ok(h) => if !kind_at(t, c + 3, TokenKind::Comma) {
                    Err(("score 持有者后需要 `,`"@, t[c + 3].span))
                } else {
                    let objective: Result<(bool, Seq<char>, Span), (Seq<char>, Span)> = match t[c + 4].kind {
                        TokenKind::String(s) => Ok((true, s@, t[c + 4].span)),
                        _ => match ident_at(t, c + 4, "score 需要已声明的目标名称或字符串"@) {
                            Ok((s, span)) => Ok((false, s, span)),
                            Err(e) => Err(e),
                        },
                    };
                    match objective {
                        Err(e) => Err(e),
                        Ok((raw, name, span)) => if !kind_at(t, c + 5, TokenKind::RightParen) {
                            Err(("score 缺少 `)`"@, t[c + 5].span))
                        } else {
                            finish_spec(
                                t,
                                c + 6,
                                params,
                                KindView::Score(h, raw, name, span),
                                no_trace(),
                                merged(t[c].span, t[c + 5].span),
                            )
                        },
                    }
                },
            }
        }
    } else if word_at(t, c, "selector"@) {
        if !kind_at(t, c + 1, TokenKind::LeftParen) {
            Err(("selector 后需要 `(`"@, t[c + 1].span))
        } else {
            let value: Result<(bool, Seq<char>, Span), (Seq<char>, Span)> = match t[c + 2].kind {
                TokenKind::String(s) => Ok((true, s@, t[c + 2].span)),
                _ => match ident_at(t, c + 2, "selector 需要选择器字符串或实体查询名称"@) {
                    Ok((s, span)) => Ok((false, s, span)),
                    Err(e) => Err(e),
                },
            };
            match value {
                Err(e) => Err(e),
                Ok((raw, s, span)) => if !kind_at(t, c + 3, TokenKind::RightParen) {
                    Err(("selector 缺少 `)`"@, t[c + 3].span))
                } else {
                    finish_spec(
                        t,
                        c + 4,
                        params,
                        KindView::Selector(raw, s, span),
                        no_trace(),
                        merged(t[c].span, t[c + 3].span),
                    )
                },
            }
        }
    } else if word_at(t, c, "nbt"@) {
        if !kind_at(t, c + 1, TokenKind::LeftParen) {
            Err(("nbt 组件后需要 `(`"@, t[c + 1].span))
        } else {
            match nbt_source_spec_at(t, c + 2, "nbt 组件来源"@, params) {
                Err(e) => Err(e),
                Ok((source, used, recorded, q)) => if !moved(t, c, q) {
                    Err(stuck())
                } else if !kind_at(t, q, TokenKind::Comma) {
                    Err(("nbt 组件来源后需要 `,`"@, t[q].span))
                } else {
                    match string_at(t, q + 1, "nbt 组件需要路径字符串"@) {
                        Err(e) => Err(e),
                        Ok((path, path_span)) => if !kind_at(t, q + 2, TokenKind::RightParen) {
                            Err(("nbt 组件缺少 `)`"@, t[q + 2].span))
                        } else {
                            match style_block_spec(t, q + 3, params) {
                                Err(e) => Err(e),
                                Ok((b, tr, after)) => Ok(
                                    Some(
                                        (
                                            ComponentView {
                                                kind: KindView::Nbt(
                                                    source,
                                                    path,
                                                    path_span,
                                                    b.interpret == Some(true),
                                                    b.plain == Some(true),
                                                    b.separator,
                                                ),
                                                style: b.style,
                                                span: merged(t[c].span, t[q + 2].span),
                                            },
                                            followed_by((used, recorded), tr),
                                            after,
                                        ),
                                    ),
                                ),
                            }
                        },
                    }
                },
            }
        }
    } else {
        Ok(None)
    }
}

/// The style block at `c` of a component other than `nbt`, and the
/// component it completes.
pub open spec fn finish_spec(
    t: Seq<Token>,
    c: int,
    params: Seq<(Seq<char>, MacroType)>,
    kind: KindView,
    tr: Trace,
    span: Span,
) -> Result<Option<(ComponentView, Trace, int)>, (Seq<char>, Span)>
    decreases t.len() - c, 2int,
{
    if !stream_ok(t, c) {
        Err(stuck())
    } else {
        match style_block_spec(t, c, params) {
            Err(e) => Err(e),
            Ok((b, tr2, after)) => if b.interpret is Some {
                Err(("interpret 只适用于 nbt 组件"@, span))
            } else if b.plain is Some {
                Err(("plain 只适用于 nbt 组件"@, span))
            } else if b.separator is Some {
                Err(("separator 只适用于 nbt 组件"@, span))
            } else {
                Ok(Some((ComponentView { kind, style: b.style, span }, followed_by(tr, tr2), after)))
            },
        }
    }
}

/// A text component required at `c` for `label`.
pub open spec fn required_spec(t: Seq<Token>, c: int, label: Seq<char>, params: Seq<(Seq<char>, MacroType)>) -> Result<
    (ComponentView, Trace, int),
    (Seq<char>, Span),
>
    decreases t.len() - c, 4int,
{
    if !stream_ok(t, c) {
        Err(stuck())
    } else {
        match component_spec(t, c, params) {
            Err(e) => Err(e),
            Ok(None) => Err((component_needed_message(label), t[c].span)),
            Ok(Some(x)) => Ok(x),
        }
    }
}

/// The arguments of a `translate` from `c` on, after `done`: all of them,
/// what they record, and the position after the last.
pub open spec fn args_spec(
    t: Seq<Token>,
    c: int,
    params: Seq<(Seq<char>, MacroType)>,
    done: Seq<ComponentView>,
    tr: Trace,
) -> Result<(Seq<ComponentView>, Trace, int), (Seq<char>, Span)>
    decreases t.len() - c, 5int,
{
    if !stream_ok(t, c) {
        Err(stuck())
    } else {
        match required_spec(t, c, "translate 参数"@, params) {
            Err(e) => Err(e),
            Ok((v, tr2, after)) => if !moved(t, c, after) {
                Err(stuck())
            } else if kind_at(t, after, TokenKind::Comma) {
                args_spec(t, after + 1, params, done.push(v), followed_by(tr, tr2))
            } else {
                Ok((done.push(v), followed_by(tr, tr2), after))
            },
        }
    }
}

/// An optional style block at `c`: the block, what it records, and the
/// position after it.
pub open spec fn style_block_spec(t: Seq<Token>, c: int, params: Seq<(Seq<char>, MacroType)>) -> Result<
    (BlockView, Trace, int),
    (Seq<char>, Span),
>
    decreases t.len() - c, 1int,
{
    if !stream_ok(t, c) {
        Err(stuck())
    } else if !kind_at(t, c, TokenKind::LeftBrace) {
        Ok((empty_block(), no_trace(), c))
    } else {
        style_body_spec(t, c + 1, params, empty_block(), no_trace())
    }
}

/// The properties of a style block from `c` on, after `b`: the block,
/// what it records, and the position after its `}`.
pub open spec fn style_body_spec(
    t: Seq<Token>,
    c: int,
    params: Seq<(Seq<char>, MacroType)>,
    b: BlockView,
    tr: Trace,
) -> Result<(BlockView, Trace, int), (Seq<char>, Span)>
    decreases t.len() - c, 0int,
{
    if !stream_ok(t, c) {
        Err(stuck())
    } else if kind_at(t, c, TokenKind::Semicolon) || kind_at(t, c, TokenKind::Comma) {
        style_body_spec(t, c + 1, params, b, tr)
    } else if kind_at(t, c, TokenKind::RightBrace) {
        Ok((b, tr, c + 1))
    } else if t[c].kind is Eof {
        Err(("文本组件样式块缺少 `}`"@, t[c].span))
    } else {
        match ident_at(t, c, "样式属性名"@) {
            Err(e) => Err(e),
            Ok((name, span)) => match text_style_property_spec(name) {
                None => Err((unknown_style_message(name), span)),
                Some(k) => if !kind_at(t, c + 1, TokenKind::Equal) {
                    Err(("样式属性后需要 `=`"@, t[c + 1].span))
                } else if k == "color"@ {
                    if b.style.color is Some {
                        Err(("重复设置样式属性 color"@, span))
                    } else {
                        match string_at(t, c + 2, "color 需要颜色字符串"@) {
                            Err(e) => Err(e),
                            Ok((v, _)) => {
                                let color = match text_color_spec(v) {
                                    Some(w) => w,
                                    None => v,
                                };
                                style_body_spec(
                                    t,
                                    c + 3,
                                    params,
                                    BlockView { style: StyleView { color: Some(color), ..b.style }, ..b },
                                    tr,
                                )
                            },
                        }
                    }
                } else if is_style_flag(k) {
                    match boolean_spec(t, c + 2, "样式开关"@, |v: Seq<char>| boolean_value_message("样式开关"@, v)) {
                        Err(e) => Err(e),
                        Ok(value) => if style_flag(b.style, k) is Some {
                            Err(("重复设置样式属性 "@ + k, span))
                        } else {
                            style_body_spec(
                                t,
                                c + 3,
                                params,
                                BlockView { style: with_style_flag(b.style, k, value), ..b },
                                tr,
                            )
                        },
                    }
                } else if k == "click"@ {
                    if b.style.click is Some {
                        Err(("重复设置样式属性 click"@, span))
                    } else {
                        match click_event_spec(t, c + 2) {
                            Err(e) => Err(e),
                            Ok((event, after)) => if !moved(t, c, after) {
                                Err(stuck())
                            } else {
                                style_body_spec(
                                    t,
                                    after,
                                    params,
                                    BlockView { style: StyleView { click: Some(event), ..b.style }, ..b },
                                    tr,
                                )
                            },
                        }
                    }
                } else if k == "hover"@ {
                    if b.style.hover is Some {
                        Err(("重复设置样式属性 hover"@, span))
                    } else {
                        match required_spec(t, c + 2, "悬停内容"@, params) {
                            Err(e) => Err(e),
                            Ok((v, tr2, after)) => if !moved(t, c, after) {
                                Err(stuck())
                            } else {
                                style_body_spec(
                                    t,
                                    after,
                                    params,
                                    BlockView { style: StyleView { hover: Some(Box::new(v)), ..b.style }, ..b },
                                    followed_by(tr, tr2),
                                )
                            },
                        }
                    }
                } else if k == "interpret"@ || k == "plain"@ {
                    match boolean_spec(
                        t,
                        c + 2,
                        "nbt 组件开关"@,
                        |v: Seq<char>| boolean_value_message("nbt 组件开关"@, v),
                    ) {
                        Err(e) => Err(e),
                        Ok(value) => if (if k == "interpret"@ {
                            b.interpret
                        } else {
                            b.plain
                        }) is Some {
                            Err(("重复设置样式属性 "@ + k, span))
                        } else if k == "interpret"@ {
                            style_body_spec(t, c + 3, params, BlockView { interpret: Some(value), ..b }, tr)
                        } else {
                            style_body_spec(t, c + 3, params, BlockView { plain: Some(value), ..b }, tr)
                        },
                    }
                } else {
                    if b.separator is Some {
                        Err(("重复设置样式属性 separator"@, span))
                    } else {
                        match required_spec(t, c + 2, "分隔符"@, params) {
                            Err(e) => Err(e),
                            Ok((v, tr2, after)) => if !moved(t, c, after) {
                                Err(stuck())
                            } else {
                                style_body_spec(
                                    t,
                                    after,
                                    params,
                                    BlockView { separator: Some(Box::new(v)), ..b },
                                    followed_by(tr, tr2),
                                )
                            },
                        }
                    }
                },
            },
        }
    }
}

/// The macro state of a parser as the contracts speak of it.
pub type MacroState = (
    Seq<(Seq<char>, MacroType)>,
    Seq<(Seq<char>, Span)>,
    Seq<(Seq<char>, MacroCoordinateKind)>,
);

/// `after` is `before` with what `tr` records appended.
pub open spec fn extends(after: MacroState, before: MacroState, tr: Trace) -> bool {
    &&& after.0 == before.0
    &&& after.1 == before.1 + tr.0
    &&& after.2 == before.2 + tr.1
}

/// Recording nothing leaves the macro state as it is.
pub(crate) proof fn lemma_extends_none(a: MacroState)
    ensures
        extends(a, a, no_trace()),
{
    assert(a.1 + Seq::<(Seq<char>, Span)>::empty() =~= a.1);
    assert(a.2 + Seq::<(Seq<char>, MacroCoordinateKind)>::empty() =~= a.2);
}

/// What two productions in turn record is what the first records, then
/// what the second records.
pub(crate) proof fn lemma_extends_then(a: MacroState, b: MacroState, c: MacroState, t1: Trace, t2: Trace)
    requires
        extends(b, a, t1),
        extends(c, b, t2),
    ensures
        extends(c, a, followed_by(t1, t2)),
{
    assert(c.1 =~= a.1 + (t1.0 + t2.0));
    assert(c.2 =~= a.2 + (t1.1 + t2.1));
}

/// The trace of a component result.
pub open spec fn trace_of(r: Result<(ComponentView, Trace, int), (Seq<char>, Span)>) -> Trace {
    match r {
        Ok((_, tr, _)) => tr,
        Err(_) => no_trace(),
    }
}

/// The trace of an NBT source result.
pub open spec fn source_trace(
    r: Result<(NbtSourceView, Seq<(Seq<char>, Span)>, Seq<(Seq<char>, MacroCoordinateKind)>, int), (Seq<char>, Span)>,
) -> Trace {
    match r {
        Ok((_, used, recorded, _)) => (used, recorded),
        Err(_) => no_trace(),
    }
}

/// The trace of a style block result.
pub open spec fn block_trace(r: Result<(BlockView, Trace, int), (Seq<char>, Span)>) -> Trace {
    match r {
        Ok((_, tr, _)) => tr,
        Err(_) => no_trace(),
    }
}

/// The trace of a result of `translate` arguments.
pub open spec fn args_trace(r: Result<(Seq<ComponentView>, Trace, int), (Seq<char>, Span)>) -> Trace {
    match r {
        Ok((_, tr, _)) => tr,
        Err(_) => no_trace(),
    }
}

/// What the parser holds of a style block while reading it.
struct StyleBlock {
    style: TextStyle,
    interpret: Option<bool>,
    plain: Option<bool>,
    separator: Option<Box<TextComponent>>,
}

spec fn block_view(b: StyleBlock) -> BlockView {
    BlockView {
        style: style_view(b.style),
        interpret: b.interpret,
        plain: b.plain,
        separator: boxed_view(b.separator),
    }
}

fn empty_style_block() -> (r: StyleBlock)
    ensures
        block_view(r) == empty_block(),
{
    let r = StyleBlock {
        style: TextStyle {
            color: None,
            bold: None,
            italic: None,
            underlined: None,
            strikethrough: None,
            obfuscated: None,
            click: None,
            hover: None,
        },
        interpret: None,
        plain: None,
        separator: None,
    };
    assert(style_view(r.style) == empty_style());
    r
}

fn joined(a: &str, b: &str) -> (r: String)
    ensures
        r@ == a@ + b@,
{
    let mut m = a.to_owned();
    m.append(b);
    m
}

proof fn lemma_push_view(s: Seq<TextComponent>, c: TextComponent)
    ensures
        args_view(s.push(c)) == args_view(s).push(component_view(c)),
{
    assert(s.push(c).subrange(0, s.len() as int) =~= s);
}

impl Parser {
    /// `run_command("…")` and the other click events.
    fn click_event(&mut self) -> (r: Result<ClickEvent, Diagnostic>)
        requires
            old(self).wf(),
        ensures
            final(self).wf(),
            final(self).tokens@ == old(self).tokens@,
            macro_state(&*final(self)) == macro_state(&*old(self)),
            match (r, click_event_spec(old(self).tokens@, old(self).cursor as int)) {
                (Ok(e), Ok((v, after))) => click_view(e) == v && final(self).cursor == after,
                (Err(d), Err(e)) => diag(d) == e,
                _ => false,
            },
    {
        let ghost t = self.tokens@;
        let ghost c = self.cursor as int;
        let (action, span) = match self.ident("点击事件动作") {
            Ok(found) => found,
            Err(d) => return Err(d),
        };
        proof {
            lemma_not_last(t, c);
        }
        let action = match click_action(action.as_str()) {
            Some(a) => a,
            None => {
                let mut m = "未知点击事件 `".to_owned();
                m.append(action.as_str());
                m.append("`，可用 open_url、run_command、suggest_command、copy_to_clipboard、change_page");
                return Err(Diagnostic { message: m, span });
            },
        };
        match self.expect(TokenKind::LeftParen, "点击事件后需要 `(`") {
            Ok(_) => {},
            Err(d) => return Err(d),
        }
        proof {
            lemma_not_last(t, c + 1);
        }
        let event = if str_eq(action, "open_url") {
            match self.string("open_url 需要链接字符串") {
                Ok((v, _)) => ClickEvent::OpenUrl(v),
                Err(d) => return Err(d),
            }
        } else if str_eq(action, "run_command") {
            match self.string("run_command 需要命令字符串") {
                Ok((v, _)) => ClickEvent::RunCommand(v),
                Err(d) => return Err(d),
            }
        } else if str_eq(action, "suggest_command") {
            match self.string("suggest_command 需要命令字符串") {
                Ok((v, _)) => ClickEvent::SuggestCommand(v),
                Err(d) => return Err(d),
            }
        } else if str_eq(action, "copy_to_clipboard") {
            match self.string("copy_to_clipboard 需要文本字符串") {
                Ok((v, _)) => ClickEvent::CopyToClipboard(v),
                Err(d) => return Err(d),
            }
        } else {
            match self.unsigned("change_page 需要页号") {
                Ok(n) => ClickEvent::ChangePage(n),
                Err(d) => return Err(d),
            }
        };
        proof {
            lemma_not_last(t, c + 2);
        }
        match self.expect(TokenKind::RightParen, "点击事件缺少 `)`") {
            Ok(_) => {},
            Err(d) => return Err(d),
        }
        proof {
            lemma_not_last(t, c + 3);
        }
        Ok(event)
    }

    /// The properties of a style block after its `{`, through its `}`.
    fn style_body(&mut self, block: StyleBlock, Ghost(base): Ghost<MacroState>, Ghost(tr): Ghost<Trace>) -> (r: Result<
        StyleBlock,
        Diagnostic,
    >)
        requires
            old(self).wf(),
            extends(macro_state(&*old(self)), base, tr),
        ensures
            final(self).wf(),
            final(self).tokens@ == old(self).tokens@,
            match (r, style_body_spec(old(self).tokens@, old(self).cursor as int, base.0, block_view(block), tr)) {
                (Ok(b), Ok((v, tr2, after))) => block_view(b) == v && final(self).cursor == after && after
                    > old(self).cursor && extends(macro_state(&*final(self)), base, tr2),
                (Err(d), Err(e)) => diag(d) == e,
                _ => false,
            },
        decreases old(self).tokens@.len() - old(self).cursor, 0int,
    {
        let ghost t = self.tokens@;
        let ghost c = self.cursor as int;
        if self.check(&TokenKind::Semicolon) || self.check(&TokenKind::Comma) {
            self.advance();
            proof {
                lemma_not_last(t, c);
            }
            return self.style_body(block, Ghost(base), Ghost(tr));
        }
        if self.check(&TokenKind::RightBrace) {
            self.advance();
            proof {
                lemma_not_last(t, c);
            }
            return Ok(block);
        }
        if self.check(&TokenKind::Eof) {
            return Err(
                Diagnostic { message: "文本组件样式块缺少 `}`".to_owned(), span: self.tokens[self.cursor].span },
            );
        }
        let (name, span) = match self.ident("样式属性名") {
            Ok(found) => found,
            Err(d) => return Err(d),
        };
        proof {
            lemma_not_last(t, c);
        }
        let kind = match text_style_property(name.as_str()) {
            Some(k) => k,
            None => {
                let mut m = "未知文本样式属性 `".to_owned();
                m.append(name.as_str());
                m.append(
                    "`，可用 color、bold、italic、underlined、strikethrough、obfuscated、click、hover，nbt 组件还支持 interpret、plain、separator",
                );
                return Err(Diagnostic { message: m, span });
            },
        };
        match self.expect(TokenKind::Equal, "样式属性后需要 `=`") {
            Ok(_) => {},
            Err(d) => return Err(d),
        }
        proof {
            lemma_not_last(t, c + 1);
        }
        let mut block = block;
        if str_eq(kind, "color") {
            if block.style.color.is_some() {
                return Err(Diagnostic { message: "重复设置样式属性 color".to_owned(), span });
            }
            let (value, _) = match self.string("color 需要颜色字符串") {
                Ok(found) => found,
                Err(d) => return Err(d),
            };
            proof {
                lemma_not_last(t, c + 2);
            }
            let color = match text_color(value.as_str()) {
                Some(w) => w.to_owned(),
                None => value,
            };
            block.style.color = Some(color);
            return self.style_body(block, Ghost(base), Ghost(tr));
        }
        if str_eq(kind, "bold") || str_eq(kind, "italic") || str_eq(kind, "underlined") || str_eq(
            kind,
            "strikethrough",
        ) || str_eq(kind, "obfuscated") {
            let value = match self.boolean_value("样式开关") {
                Ok(v) => v,
                Err(d) => return Err(d),
            };
            proof {
                lemma_not_last(t, c + 2);
            }
            let seen = if str_eq(kind, "bold") {
                block.style.bold.is_some()
            } else if str_eq(kind, "italic") {
                block.style.italic.is_some()
            } else if str_eq(kind, "underlined") {
                block.style.underlined.is_some()
            } else if str_eq(kind, "strikethrough") {
                block.style.strikethrough.is_some()
            } else {
                block.style.obfuscated.is_some()
            };
            if seen {
                return Err(Diagnostic { message: joined("重复设置样式属性 ", kind), span });
            }
            if str_eq(kind, "bold") {
                block.style.bold = Some(value);
            } else if str_eq(kind, "italic") {
                block.style.italic = Some(value);
            } else if str_eq(kind, "underlined") {
                block.style.underlined = Some(value);
            } else if str_eq(kind, "strikethrough") {
                block.style.strikethrough = Some(value);
            } else {
                block.style.obfuscated = Some(value);
            }
            return self.style_body(block, Ghost(base), Ghost(tr));
        }
        if str_eq(kind, "click") {
            if block.style.click.is_some() {
                return Err(Diagnostic { message: "重复设置样式属性 click".to_owned(), span });
            }
            let event = match self.click_event() {
                Ok(e) => e,
                Err(d) => return Err(d),
            };
            block.style.click = Some(event);
            return self.style_body(block, Ghost(base), Ghost(tr));
        }
        if str_eq(kind, "hover") {
            if block.style.hover.is_some() {
                return Err(Diagnostic { message: "重复设置样式属性 hover".to_owned(), span });
            }
            let ghost before = macro_state(&*self);
            let ghost tr2 = trace_of(required_spec(t, c + 2, "悬停内容"@, base.0));
            let hover = match self.text_component("悬停内容") {
                Ok(x) => x,
                Err(d) => return Err(d),
            };
            proof {
                lemma_extends_then(base, before, macro_state(&*self), tr, tr2);
            }
            block.style.hover = Some(Box::new(hover));
            return self.style_body(block, Ghost(base), Ghost(followed_by(tr, tr2)));
        }
        if str_eq(kind, "interpret") || str_eq(kind, "plain") {
            let value = match self.boolean_value("nbt 组件开关") {
                Ok(v) => v,
                Err(d) => return Err(d),
            };
            proof {
                lemma_not_last(t, c + 2);
            }
            let seen = if str_eq(kind, "interpret") {
                block.interpret.is_some()
            } else {
                block.plain.is_some()
            };
            if seen {
                return Err(Diagnostic { message: joined("重复设置样式属性 ", kind), span });
            }
            if str_eq(kind, "interpret") {
                block.interpret = Some(value);
            } else {
                block.plain = Some(value);
            }
            return self.style_body(block, Ghost(base), Ghost(tr));
        }
        if block.separator.is_some() {
            return Err(Diagnostic { message: "重复设置样式属性 separator".to_owned(), span });
        }
        let ghost before = macro_state(&*self);
        let ghost tr2 = trace_of(required_spec(t, c + 2, "分隔符"@, base.0));
        let separator = match self.text_component("分隔符") {
            Ok(x) => x,
            Err(d) => return Err(d),
        };
        proof {
            lemma_extends_then(base, before, macro_state(&*self), tr, tr2);
        }
        block.separator = Some(Box::new(separator));
        self.style_body(block, Ghost(base), Ghost(followed_by(tr, tr2)))
    }

    /// An optional style block `{ 属性 = 值; … }`.
    fn text_style_block(&mut self) -> (r: Result<StyleBlock, Diagnostic>)
        requires
            old(self).wf(),
        ensures
            final(self).wf(),
            final(self).tokens@ == old(self).tokens@,
            match (r, style_block_spec(old(self).tokens@, old(self).cursor as int, macro_state(&*old(self)).0)) {
                (Ok(b), Ok((v, tr, after))) => block_view(b) == v && final(self).cursor == after && after
                    >= old(self).cursor && extends(macro_state(&*final(self)), macro_state(&*old(self)), tr),
                (Err(d), Err(e)) => diag(d) == e,
                _ => false,
            },
        decreases old(self).tokens@.len() - old(self).cursor, 1int,
    {
        let ghost t = self.tokens@;
        let ghost c = self.cursor as int;
        let ghost start = macro_state(&*self);
        let block = empty_style_block();
        proof {
            lemma_extends_none(start);
        }
        if self.take(&TokenKind::LeftBrace).is_none() {
            return Ok(block);
        }
        proof {
            lemma_not_last(t, c);
        }
        self.style_body(block, Ghost(start), Ghost(no_trace()))
    }

    /// The style block of a component other than `nbt`, which must not set
    /// `interpret`, `plain` or `separator`, and the component it completes.
    fn finish_component(
        &mut self,
        kind: TextComponentKind,
        span: Span,
        Ghost(base): Ghost<MacroState>,
        Ghost(tr): Ghost<Trace>,
    ) -> (r: Result<TextComponent, Diagnostic>)
        requires
            old(self).wf(),
            extends(macro_state(&*old(self)), base, tr),
        ensures
            final(self).wf(),
            final(self).tokens@ == old(self).tokens@,
            match (r, finish_spec(old(self).tokens@, old(self).cursor as int, base.0, kind_view(kind), tr, span)) {
                (Ok(x), Ok(Some((v, tr2, after)))) => component_view(x) == v && final(self).cursor == after && after
                    >= old(self).cursor && extends(macro_state(&*final(self)), base, tr2),
                (Err(d), Err(e)) => diag(d) == e,
                _ => false,
            },
        decreases old(self).tokens@.len() - old(self).cursor, 2int,
    {
        let ghost before = macro_state(&*self);
        let ghost tr2 = block_trace(style_block_spec(self.tokens@, self.cursor as int, base.0));
        let block = match self.text_style_block() {
            Ok(b) => b,
            Err(d) => return Err(d),
        };
        if block.interpret.is_some() {
            return Err(Diagnostic { message: "interpret 只适用于 nbt 组件".to_owned(), span });
        }
        if block.plain.is_some() {
            return Err(Diagnostic { message: "plain 只适用于 nbt 组件".to_owned(), span });
        }
        if block.separator.is_some() {
            return Err(Diagnostic { message: "separator 只适用于 nbt 组件".to_owned(), span });
        }
        proof {
            lemma_extends_then(base, before, macro_state(&*self), tr, tr2);
        }
        Ok(TextComponent { kind, style: block.style, span })
    }

    /// The arguments of a `translate`, after `done`.
    fn translate_args(
        &mut self,
        done: Vec<TextComponent>,
        Ghost(base): Ghost<MacroState>,
        Ghost(tr): Ghost<Trace>,
    ) -> (r: Result<Vec<TextComponent>, Diagnostic>)
        requires
            old(self).wf(),
            extends(macro_state(&*old(self)), base, tr),
        ensures
            final(self).wf(),
            final(self).tokens@ == old(self).tokens@,
            match (r, args_spec(old(self).tokens@, old(self).cursor as int, base.0, args_view(done@), tr)) {
                (Ok(v), Ok((s, tr2, after))) => args_view(v@) == s && final(self).cursor == after && after
                    > old(self).cursor && extends(macro_state(&*final(self)), base, tr2),
                (Err(d), Err(e)) => diag(d) == e,
                _ => false,
            },
        decreases old(self).tokens@.len() - old(self).cursor, 6int,
    {
        let ghost t = self.tokens@;
        let ghost c = self.cursor as int;
        let ghost before = macro_state(&*self);
        let ghost tr2 = trace_of(required_spec(t, c, "translate 参数"@, base.0));
        let argument = match self.text_component("translate 参数") {
            Ok(x) => x,
            Err(d) => return Err(d),
        };
        proof {
            lemma_extends_then(base, before, macro_state(&*self), tr, tr2);
            lemma_push_view(done@, argument);
        }
        let mut done = done;
        done.push(argument);
        if self.take(&TokenKind::Comma).is_some() {
            proof {
                lemma_not_last(t, self.cursor - 1);
            }
            return self.translate_args(done, Ghost(base), Ghost(followed_by(tr, tr2)));
        }
        Ok(done)
    }

    /// A `text` component, whose word stands here.
    fn text_constructor(&mut self) -> (r: Result<TextComponent, Diagnostic>)
        requires
            old(self).wf(),
            word_at(old(self).tokens@, old(self).cursor as int, "text"@),
        ensures
            final(self).wf(),
            final(self).tokens@ == old(self).tokens@,
            match (r, component_spec(old(self).tokens@, old(self).cursor as int, macro_state(&*old(self)).0)) {
                (Ok(x), Ok(Some((v, tr, after)))) => component_view(x) == v && final(self).cursor == after
                    && after > old(self).cursor && extends(macro_state(&*final(self)), macro_state(&*old(self)), tr),
                (Err(d), Err(e)) => diag(d) == e,
                _ => false,
            },
        decreases old(self).tokens@.len() - old(self).cursor, 3int,
    {
        let ghost t = self.tokens@;
        let ghost c = self.cursor as int;
        let ghost start = macro_state(&*self);
        let ghost params = start.0;
        proof {
            lemma_extends_none(start);
        }
        let first = self.advance();
        proof {
            lemma_not_last(t, c);
        }
        match self.expect(TokenKind::LeftParen, "text 后需要 `(`") {
            Ok(_) => {},
            Err(d) => return Err(d),
        }
        proof {
            lemma_not_last(t, c + 1);
        }
        let (text, _) = match self.string("text 需要字符串") {
            Ok(found) => found,
            Err(d) => return Err(d),
        };
        proof {
            lemma_not_last(t, c + 2);
        }
        let end = match self.expect(TokenKind::RightParen, "text 缺少 `)`") {
            Ok(token) => token.span,
            Err(d) => return Err(d),
        };
        proof {
            lemma_not_last(t, c + 3);
        }
        return self.finish_component(
            TextComponentKind::Text(text),
            first.span.merge(end),
            Ghost(start),
            Ghost(no_trace()),
        );
    
    }

    /// A `translate` component, whose word stands here.
    fn translate_constructor(&mut self) -> (r: Result<TextComponent, Diagnostic>)
        requires
            old(self).wf(),
            !word_at(old(self).tokens@, old(self).cursor as int, "text"@),
            word_at(old(self).tokens@, old(self).cursor as int, "translate"@),
        ensures
            final(self).wf(),
            final(self).tokens@ == old(self).tokens@,
            match (r, component_spec(old(self).tokens@, old(self).cursor as int, macro_state(&*old(self)).0)) {
                (Ok(x), Ok(Some((v, tr, after)))) => component_view(x) == v && final(self).cursor == after
                    && after > old(self).cursor && extends(macro_state(&*final(self)), macro_state(&*old(self)), tr),
                (Err(d), Err(e)) => diag(d) == e,
                _ => false,
            },
        decreases old(self).tokens@.len() - old(self).cursor, 3int,
    {
        let ghost t = self.tokens@;
        let ghost c = self.cursor as int;
        let ghost start = macro_state(&*self);
        let ghost params = start.0;
        proof {
            lemma_extends_none(start);
        }
        let first = self.advance();
        proof {
            lemma_not_last(t, c);
        }
        match self.expect(TokenKind::LeftParen, "translate 后需要 `(`") {
            Ok(_) => {},
            Err(d) => return Err(d),
        }
        proof {
            lemma_not_last(t, c + 1);
        }
        let (key, _) = match self.string("translate 需要本地化键字符串") {
            Ok(found) => found,
            Err(d) => return Err(d),
        };
        proof {
            lemma_not_last(t, c + 2);
        }
        let mut args: Vec<TextComponent> = Vec::new();
        let ghost mut tr = no_trace();
        if self.take(&TokenKind::Comma).is_some() {
            proof {
                lemma_not_last(t, c + 3);
            }
            match self.expect(TokenKind::LeftBracket, "translate 参数需要 `[`") {
                Ok(_) => {},
                Err(d) => return Err(d),
            }
            proof {
                lemma_not_last(t, c + 4);
            }
            if self.take(&TokenKind::RightBracket).is_none() {
                let ghost r = args_spec(t, c + 5, params, seq![], no_trace());
                assert(args_view(Seq::<TextComponent>::empty()) =~= Seq::<ComponentView>::empty());
                args = match self.translate_args(Vec::new(), Ghost(start), Ghost(no_trace())) {
                    Ok(v) => v,
                    Err(d) => return Err(d),
                };
                proof {
                    tr = args_trace(r);
                }
                let ghost q = self.cursor as int;
                match self.expect(TokenKind::RightBracket, "translate 参数列表缺少 `]`") {
                    Ok(_) => {},
                    Err(d) => return Err(d),
                }
                proof {
                    lemma_not_last(t, q);
                }
            } else {
                proof {
                    lemma_not_last(t, c + 5);
                }
            }
        }
        let ghost p = self.cursor as int;
        let end = match self.expect(TokenKind::RightParen, "translate 缺少 `)`") {
            Ok(token) => token.span,
            Err(d) => return Err(d),
        };
        proof {
            lemma_not_last(t, p);
            assert(args_view(Seq::<TextComponent>::empty()) =~= Seq::<ComponentView>::empty());
        }
        return self.finish_component(
            TextComponentKind::Translate { key, args },
            first.span.merge(end),
            Ghost(start),
            Ghost(tr),
        );
    
    }

    /// A `keybind` component, whose word stands here.
    fn keybind_constructor(&mut self) -> (r: Result<TextComponent, Diagnostic>)
        requires
            old(self).wf(),
            !word_at(old(self).tokens@, old(self).cursor as int, "text"@),
            !word_at(old(self).tokens@, old(self).cursor as int, "translate"@),
            word_at(old(self).tokens@, old(self).cursor as int, "keybind"@),
        ensures
            final(self).wf(),
            final(self).tokens@ == old(self).tokens@,
            match (r, component_spec(old(self).tokens@, old(self).cursor as int, macro_state(&*old(self)).0)) {
                (Ok(x), Ok(Some((v, tr, after)))) => component_view(x) == v && final(self).cursor == after
                    && after > old(self).cursor && extends(macro_state(&*final(self)), macro_state(&*old(self)), tr),
                (Err(d), Err(e)) => diag(d) == e,
                _ => false,
            },
        decreases old(self).tokens@.len() - old(self).cursor, 3int,
    {
        let ghost t = self.tokens@;
        let ghost c = self.cursor as int;
        let ghost start = macro_state(&*self);
        let ghost params = start.0;
        proof {
            lemma_extends_none(start);
        }
        let first = self.advance();
        proof {
            lemma_not_last(t, c);
        }
        match self.expect(TokenKind::LeftParen, "keybind 后需要 `(`") {
            Ok(_) => {},
            Err(d) => return Err(d),
        }
        proof {
            lemma_not_last(t, c + 1);
        }
        let (key, _) = match self.string("keybind 需要按键名字符串") {
            Ok(found) => found,
            Err(d) => return Err(d),
        };
        proof {
            lemma_not_last(t, c + 2);
        }
        let end = match self.expect(TokenKind::RightParen, "keybind 缺少 `)`") {
            Ok(token) => token.span,
            Err(d) => return Err(d),
        };
        proof {
            lemma_not_last(t, c + 3);
        }
        return self.finish_component(
            TextComponentKind::Keybind(key),
            first.span.merge(end),
            Ghost(start),
            Ghost(no_trace()),
        );
    
    }

    /// A `score` component, whose word stands here.
    fn score_constructor(&mut self) -> (r: Result<TextComponent, Diagnostic>)
        requires
            old(self).wf(),
            !word_at(old(self).tokens@, old(self).cursor as int, "text"@),
            !word_at(old(self).tokens@, old(self).cursor as int, "translate"@),
            !word_at(old(self).tokens@, old(self).cursor as int, "keybind"@),
            word_at(old(self).tokens@, old(self).cursor as int, "score"@),
        ensures
            final(self).wf(),
            final(self).tokens@ == old(self).tokens@,
            match (r, component_spec(old(self).tokens@, old(self).cursor as int, macro_state(&*old(self)).0)) {
                (Ok(x), Ok(Some((v, tr, after)))) => component_view(x) == v && final(self).cursor == after
                    && after > old(self).cursor && extends(macro_state(&*final(self)), macro_state(&*old(self)), tr),
                (Err(d), Err(e)) => diag(d) == e,
                _ => false,
            },
        decreases old(self).tokens@.len() - old(self).cursor, 3int,
    {
        let ghost t = self.tokens@;
        let ghost c = self.cursor as int;
        let ghost start = macro_state(&*self);
        let ghost params = start.0;
        proof {
            lemma_extends_none(start);
        }
        let first = self.advance();
        proof {
            lemma_not_last(t, c);
        }
        match self.expect(TokenKind::LeftParen, "score 后需要 `(`") {
            Ok(_) => {},
            Err(d) => return Err(d),
        }
        proof {
            lemma_not_last(t, c + 1);
        }
        let holder = match self.score_holder() {
            Ok(h) => h,
            Err(d) => return Err(d),
        };
        proof {
            lemma_not_last(t, c + 2);
        }
        match self.expect(TokenKind::Comma, "score 持有者后需要 `,`") {
            Ok(_) => {},
            Err(d) => return Err(d),
        }
        proof {
            lemma_not_last(t, c + 3);
        }
        let raw = match &self.tokens[self.cursor].kind {
            TokenKind::String(_) => true,
            _ => false,
        };
        let (objective, objective_span) = if raw {
            match self.string("score 需要目标名称") {
                Ok((name, span)) => (ObjectiveRef::Raw(name), span),
                Err(d) => return Err(d),
            }
        } else {
            match self.ident("score 需要已声明的目标名称或字符串") {
                Ok((name, span)) => (ObjectiveRef::Declared(name), span),
                Err(d) => return Err(d),
            }
        };
        proof {
            lemma_not_last(t, c + 4);
        }
        let end = match self.expect(TokenKind::RightParen, "score 缺少 `)`") {
            Ok(token) => token.span,
            Err(d) => return Err(d),
        };
        proof {
            lemma_not_last(t, c + 5);
        }
        return self.finish_component(
            TextComponentKind::Score { holder, objective, objective_span },
            first.span.merge(end),
            Ghost(start),
            Ghost(no_trace()),
        );
    
    }

    /// A `selector` component, whose word stands here.
    fn selector_constructor(&mut self) -> (r: Result<TextComponent, Diagnostic>)
        requires
            old(self).wf(),
            !word_at(old(self).tokens@, old(self).cursor as int, "text"@),
            !word_at(old(self).tokens@, old(self).cursor as int, "translate"@),
            !word_at(old(self).tokens@, old(self).cursor as int, "keybind"@),
            !word_at(old(self).tokens@, old(self).cursor as int, "score"@),
            word_at(old(self).tokens@, old(self).cursor as int, "selector"@),
        ensures
            final(self).wf(),
            final(self).tokens@ == old(self).tokens@,
            match (r, component_spec(old(self).tokens@, old(self).cursor as int, macro_state(&*old(self)).0)) {
                (Ok(x), Ok(Some((v, tr, after)))) => component_view(x) == v && final(self).cursor == after
                    && after > old(self).cursor && extends(macro_state(&*final(self)), macro_state(&*old(self)), tr),
                (Err(d), Err(e)) => diag(d) == e,
                _ => false,
            },
        decreases old(self).tokens@.len() - old(self).cursor, 3int,
    {
        let ghost t = self.tokens@;
        let ghost c = self.cursor as int;
        let ghost start = macro_state(&*self);
        let ghost params = start.0;
        proof {
            lemma_extends_none(start);
        }
        let first = self.advance();
        proof {
            lemma_not_last(t, c);
        }
        match self.expect(TokenKind::LeftParen, "selector 后需要 `(`") {
            Ok(_) => {},
            Err(d) => return Err(d),
        }
        proof {
            lemma_not_last(t, c + 1);
        }
        let raw = match &self.tokens[self.cursor].kind {
            TokenKind::String(_) => true,
            _ => false,
        };
        let value = if raw {
            match self.string("selector 需要选择器字符串") {
                Ok((s, span)) => SelectorValue::Raw(s, span),
                Err(d) => return Err(d),
            }
        } else {
            match self.ident("selector 需要选择器字符串或实体查询名称") {
                Ok((s, span)) => SelectorValue::Query(s, span),
                Err(d) => return Err(d),
            }
        };
        proof {
            lemma_not_last(t, c + 2);
        }
        let end = match self.expect(TokenKind::RightParen, "selector 缺少 `)`") {
            Ok(token) => token.span,
            Err(d) => return Err(d),
        };
        proof {
            lemma_not_last(t, c + 3);
        }
        return self.finish_component(
            TextComponentKind::Selector(value),
            first.span.merge(end),
            Ghost(start),
            Ghost(no_trace()),
        );
    
    }

    /// A `nbt` component, whose word stands here.
    #[verifier::rlimit(80)]
    fn nbt_constructor(&mut self) -> (r: Result<TextComponent, Diagnostic>)
        requires
            old(self).wf(),
            !word_at(old(self).tokens@, old(self).cursor as int, "text"@),
            !word_at(old(self).tokens@, old(self).cursor as int, "translate"@),
            !word_at(old(self).tokens@, old(self).cursor as int, "keybind"@),
            !word_at(old(self).tokens@, old(self).cursor as int, "score"@),
            !word_at(old(self).tokens@, old(self).cursor as int, "selector"@),
            word_at(old(self).tokens@, old(self).cursor as int, "nbt"@),
        ensures
            final(self).wf(),
            final(self).tokens@ == old(self).tokens@,
            match (r, component_spec(old(self).tokens@, old(self).cursor as int, macro_state(&*old(self)).0)) {
                (Ok(x), Ok(Some((v, tr, after)))) => component_view(x) == v && final(self).cursor == after
                    && after > old(self).cursor && extends(macro_state(&*final(self)), macro_state(&*old(self)), tr),
                (Err(d), Err(e)) => diag(d) == e,
                _ => false,
            },
        decreases old(self).tokens@.len() - old(self).cursor, 3int,
    {
        let ghost t = self.tokens@;
        let ghost c = self.cursor as int;
        let ghost start = macro_state(&*self);
        let ghost params = start.0;
        proof {
            lemma_extends_none(start);
        }
        let first = self.advance();
        proof {
            lemma_not_last(t, c);
        }
        match self.expect(TokenKind::LeftParen, "nbt 组件后需要 `(`") {
            Ok(_) => {},
            Err(d) => return Err(d),
        }
        proof {
            lemma_not_last(t, c + 1);
        }
        let source = match self.nbt_source_value("nbt 组件来源") {
            Ok(s) => s,
            Err(d) => return Err(d),
        };
        let ghost q = self.cursor as int;
        let ghost mid = macro_state(&*self);
        let ghost used = source_trace(nbt_source_spec_at(t, c + 2, "nbt 组件来源"@, params));
        match self.expect(TokenKind::Comma, "nbt 组件来源后需要 `,`") {
            Ok(_) => {},
            Err(d) => return Err(d),
        }
        proof {
            lemma_not_last(t, q);
        }
        let (path, path_span) = match self.string("nbt 组件需要路径字符串") {
            Ok(found) => found,
            Err(d) => return Err(d),
        };
        proof {
            lemma_not_last(t, q + 1);
        }
        let end = match self.expect(TokenKind::RightParen, "nbt 组件缺少 `)`") {
            Ok(token) => token.span,
            Err(d) => return Err(d),
        };
        proof {
            lemma_not_last(t, q + 2);
        }
        let ghost tr2 = block_trace(style_block_spec(t, q + 3, params));
        let block = match self.text_style_block() {
            Ok(b) => b,
            Err(d) => return Err(d),
        };
        proof {
            lemma_extends_then(start, mid, macro_state(&*self), used, tr2);
        }
        let interpret = match block.interpret {
            Some(b) => b,
            None => false,
        };
        let plain = match block.plain {
            Some(b) => b,
            None => false,
        };
        let kind = TextComponentKind::Nbt {
            source,
            path,
            path_span,
            interpret,
            plain,
            separator: block.separator,
        };
        return Ok(TextComponent { kind, style: block.style, span: first.span.merge(end) });
    
    }

    /// A text component, when a constructor stands here.
    pub fn try_text_component(&mut self) -> (r: Result<Option<TextComponent>, Diagnostic>)
        requires
            old(self).wf(),
        ensures
            final(self).wf(),
            final(self).tokens@ == old(self).tokens@,
            match (r, component_spec(old(self).tokens@, old(self).cursor as int, macro_state(&*old(self)).0)) {
                (Ok(None), Ok(None)) => final(self).cursor == old(self).cursor && macro_state(&*final(self))
                    == macro_state(&*old(self)),
                (Ok(Some(x)), Ok(Some((v, tr, after)))) => component_view(x) == v && final(self).cursor == after
                    && after > old(self).cursor && extends(macro_state(&*final(self)), macro_state(&*old(self)), tr),
                (Err(d), Err(e)) => diag(d) == e,
                _ => false,
            },
        decreases old(self).tokens@.len() - old(self).cursor, 4int,
    {
        if self.check_word("text") {
            return match self.text_constructor() {
                Ok(x) => Ok(Some(x)),
                Err(d) => Err(d),
            };
        }
        if self.check_word("translate") {
            return match self.translate_constructor() {
                Ok(x) => Ok(Some(x)),
                Err(d) => Err(d),
            };
        }
        if self.check_word("keybind") {
            return match self.keybind_constructor() {
                Ok(x) => Ok(Some(x)),
                Err(d) => Err(d),
            };
        }
        if self.check_word("score") {
            return match self.score_constructor() {
                Ok(x) => Ok(Some(x)),
                Err(d) => Err(d),
            };
        }
        if self.check_word("selector") {
            return match self.selector_constructor() {
                Ok(x) => Ok(Some(x)),
                Err(d) => Err(d),
            };
        }
        if self.check_word("nbt") {
            return match self.nbt_constructor() {
                Ok(x) => Ok(Some(x)),
                Err(d) => Err(d),
            };
        }
        Ok(None)
    }

    /// A text component required for `label`.
    pub fn text_component(&mut self, label: &str) -> (r: Result<TextComponent, Diagnostic>)
        requires
            old(self).wf(),
        ensures
            final(self).wf(),
            final(self).tokens@ == old(self).tokens@,
            match (r, required_spec(old(self).tokens@, old(self).cursor as int, label@, macro_state(&*old(self)).0)) {
                (Ok(x), Ok((v, tr, after))) => component_view(x) == v && final(self).cursor == after && after
                    > old(self).cursor && extends(macro_state(&*final(self)), macro_state(&*old(self)), tr),
                (Err(d), Err(e)) => diag(d) == e,
                _ => false,
            },
        decreases old(self).tokens@.len() - old(self).cursor, 5int,
    {
        match self.try_text_component() {
            Err(d) => Err(d),
            Ok(Some(x)) => Ok(x),
            Ok(None) => Err(
                Diagnostic {
                    message: joined(label, "需要文本组件，例如 text(\"你好\")、translate(\"键\")、selector(\"@a\")"),
                    span: self.tokens[self.cursor].span,
                },
            ),
        }
    }
}

} // verus!
