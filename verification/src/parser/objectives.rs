//! Scoreboard objective declarations: `objective 名称;` or `objective 名称
//! { criteria = "dummy"; display_name = text("分数"); render_type =
//! "hearts"; number_format = fixed("…"); display_slot = "sidebar"; }`.

use vstd::prelude::*;
use crate::chars::str_eq;
use crate::parser::keywords::actions::{
    objective_property, objective_property_spec, render_type, render_type_spec, number_format_kind,
    number_format_kind_spec,
};
use super::cursor::{
    macro_state, Parser, Token, TokenKind, Span, Diagnostic, diag, kind_at, word_at, ident_at, merged, stream_ok,
    lemma_not_last, expected_word_message, MacroType,
};
use super::expressions::string_at;
use super::components::{
    TextComponent, TextComponentKind, TextStyle, ComponentView, KindView, Trace, MacroState, component_spec,
    component_view, empty_style, no_trace, followed_by, extends, moved, stuck, lemma_extends_none,
    lemma_extends_then,
};

verus! {

broadcast use vstd::string::group_string_axioms;

/// How an objective's numbers are shown.
pub enum NumberFormat {
    Blank,
    Styled,
    Fixed(Box<TextComponent>),
}

/// A number format as the contracts speak of it.
pub enum NumberFormatView {
    Blank,
    Styled,
    Fixed(ComponentView),
}

pub open spec fn number_format_view(f: NumberFormat) -> NumberFormatView {
    match f {
        NumberFormat::Blank => NumberFormatView::Blank,
        NumberFormat::Styled => NumberFormatView::Styled,
        NumberFormat::Fixed(c) => NumberFormatView::Fixed(component_view(*c)),
    }
}

/// A scoreboard objective declaration.
pub struct ObjectiveDecl {
    pub exported: bool,
    pub name: String,
    pub name_span: Span,
    pub criteria: Option<String>,
    pub display_name: Option<TextComponent>,
    pub render_type: Option<String>,
    pub number_format: Option<NumberFormat>,
    pub display_slot: Option<String>,
    pub display_slot_span: Option<Span>,
    pub span: Span,
}

/// The properties of an objective as the contracts speak of them.
pub struct ObjectiveView {
    pub criteria: Option<Seq<char>>,
    pub display_name: Option<ComponentView>,
    pub render_type: Option<Seq<char>>,
    pub number_format: Option<NumberFormatView>,
    pub display_slot: Option<Seq<char>>,
    pub display_slot_span: Option<Span>,
}

pub open spec fn no_properties() -> ObjectiveView {
    ObjectiveView {
        criteria: None,
        display_name: None,
        render_type: None,
        number_format: None,
        display_slot: None,
        display_slot_span: None,
    }
}

pub open spec fn text_opt(o: Option<String>) -> Option<Seq<char>> {
    match o {
        Some(s) => Some(s@),
        None => None,
    }
}

pub open spec fn component_opt(o: Option<TextComponent>) -> Option<ComponentView> {
    match o {
        Some(c) => Some(component_view(c)),
        None => None,
    }
}

pub open spec fn format_opt(o: Option<NumberFormat>) -> Option<NumberFormatView> {
    match o {
        Some(f) => Some(number_format_view(f)),
        None => None,
    }
}

/// The properties a declaration holds.
pub open spec fn objective_view(d: ObjectiveDecl) -> ObjectiveView {
    ObjectiveView {
        criteria: text_opt(d.criteria),
        display_name: component_opt(d.display_name),
        render_type: text_opt(d.render_type),
        number_format: format_opt(d.number_format),
        display_slot: text_opt(d.display_slot),
        display_slot_span: d.display_slot_span,
    }
}

/// A text component or a string (plain text) at `c` for `label`.
pub open spec fn component_or_string_spec(
    t: Seq<Token>,
    c: int,
    label: Seq<char>,
    params: Seq<(Seq<char>, MacroType)>,
) -> Result<(ComponentView, Trace, int), (Seq<char>, Span)> {
    match component_spec(t, c, params) {
        Err(e) => Err(e),
        Ok(Some(x)) => Ok(x),
        Ok(None) => match string_at(t, c, label + "需要字符串或文本组件"@) {
            Err(e) => Err(e),
            Ok((s, span)) => Ok(
                (ComponentView { kind: KindView::Text(s), style: empty_style(), span }, no_trace(), c + 1),
            ),
        },
    }
}

/// A number format at `c`.
pub open spec fn number_format_spec(t: Seq<Token>, c: int, params: Seq<(Seq<char>, MacroType)>) -> Result<
    (NumberFormatView, Trace, int),
    (Seq<char>, Span),
> {
    match ident_at(t, c, "数字格式 blank、fixed 或 styled"@) {
        Err(e) => Err(e),
        Ok((k, span)) => match number_format_kind_spec(k) {
            None => Err(("未知数字格式 `"@ + k + "`，可用 blank/空白、fixed/固定 或 styled/样式"@, span)),
            Some(kind) => if kind == "blank"@ {
                Ok((NumberFormatView::Blank, no_trace(), c + 1))
            } else if kind == "styled"@ {
                Ok((NumberFormatView::Styled, no_trace(), c + 1))
            } else if !kind_at(t, c + 1, TokenKind::LeftParen) {
                Err(("fixed 后需要 `(`"@, t[c + 1].span))
            } else {
                match component_or_string_spec(t, c + 2, "fixed 显示内容"@, params) {
                    Err(e) => Err(e),
                    Ok((v, tr, after)) => if !kind_at(t, after, TokenKind::RightParen) {
                        Err(("fixed 后需要 `)`"@, t[after].span))
                    } else {
                        Ok((NumberFormatView::Fixed(v), tr, after + 1))
                    },
                }
            },
        },
    }
}

/// The value of the objective property `k` (whose word stands at `c`,
/// spanning `ps`) after its `=`, added to `o`: the properties, what it
/// records, and the position of the `;` that must follow.
pub open spec fn objective_value_spec(
    t: Seq<Token>,
    c: int,
    k: Seq<char>,
    ps: Span,
    params: Seq<(Seq<char>, MacroType)>,
    o: ObjectiveView,
) -> Result<(ObjectiveView, Trace, int), (Seq<char>, Span)> {
    if k == "criteria"@ {
        if o.criteria is Some {
            Err(("准则只能声明一次"@, ps))
        } else if !kind_at(t, c + 1, TokenKind::Equal) {
            Err(("准则后需要 `=`"@, t[c + 1].span))
        } else {
            match string_at(t, c + 2, "准则需要字符串"@) {
                Err(e) => Err(e),
                Ok((v, _)) => Ok((ObjectiveView { criteria: Some(v), ..o }, no_trace(), c + 3)),
            }
        }
    } else if k == "display_name"@ {
        if o.display_name is Some {
            Err(("显示名只能声明一次"@, ps))
        } else if !kind_at(t, c + 1, TokenKind::Equal) {
            Err(("显示名后需要 `=`"@, t[c + 1].span))
        } else {
            match component_or_string_spec(t, c + 2, "显示名"@, params) {
                Err(e) => Err(e),
                Ok((v, tr, after)) => Ok((ObjectiveView { display_name: Some(v), ..o }, tr, after)),
            }
        }
    } else if k == "render_type"@ {
        if o.render_type is Some {
            Err(("渲染类型只能声明一次"@, ps))
        } else if !kind_at(t, c + 1, TokenKind::Equal) {
            Err(("渲染类型后需要 `=`"@, t[c + 1].span))
        } else {
            match string_at(t, c + 2, "渲染类型需要字符串"@) {
                Err(e) => Err(e),
                Ok((v, span)) => match render_type_spec(v) {
                    None => Err(("渲染类型只能是 integer/整数 或 hearts/爱心，实际为 `"@ + v + "`"@, span)),
                    Some(w) => Ok((ObjectiveView { render_type: Some(w), ..o }, no_trace(), c + 3)),
                },
            }
        }
    } else if k == "number_format"@ {
        if o.number_format is Some {
            Err(("数字格式只能声明一次"@, ps))
        } else if !kind_at(t, c + 1, TokenKind::Equal) {
            Err(("数字格式后需要 `=`"@, t[c + 1].span))
        } else {
            match number_format_spec(t, c + 2, params) {
                Err(e) => Err(e),
                Ok((f, tr, after)) => Ok((ObjectiveView { number_format: Some(f), ..o }, tr, after)),
            }
        }
    } else {
        if o.display_slot is Some {
            Err(("显示槽只能声明一次"@, ps))
        } else if !kind_at(t, c + 1, TokenKind::Equal) {
            Err(("显示槽后需要 `=`"@, t[c + 1].span))
        } else {
            match string_at(t, c + 2, "显示槽需要字符串"@) {
                Err(e) => Err(e),
                Ok((v, span)) => Ok(
                    (ObjectiveView { display_slot: Some(v), display_slot_span: Some(span), ..o }, no_trace(), c + 3),
                ),
            }
        }
    }
}

/// The properties of an objective from `c` on, after `o`: the properties,
/// what they record, and the position of the closing `}`.
pub open spec fn objective_body_spec(
    t: Seq<Token>,
    c: int,
    params: Seq<(Seq<char>, MacroType)>,
    o: ObjectiveView,
    tr: Trace,
) -> Result<(ObjectiveView, Trace, int), (Seq<char>, Span)>
    decreases t.len() - c,
{
    if !stream_ok(t, c) {
        Err(stuck())
    } else if kind_at(t, c, TokenKind::RightBrace) {
        Ok((o, tr, c))
    } else if t[c].kind is Eof {
        Err(("计分板目标声明缺少 `}`"@, t[c].span))
    } else {
        match ident_at(t, c, "目标属性"@) {
            Err(e) => Err(e),
            Ok((property, span)) => match objective_property_spec(property) {
                None => Err(
                    (
                        "未知目标属性 `"@ + property
                            + "`，可用 criteria、display_name、render_type、number_format、display_slot"@,
                        span,
                    ),
                ),
                Some(k) => match objective_value_spec(t, c, k, span, params, o) {
                    Err(e) => Err(e),
                    Ok((o2, tr2, next)) => if !moved(t, c, next) {
                        Err(stuck())
                    } else if !kind_at(t, next, TokenKind::Semicolon) {
                        Err(("目标属性后需要 `;`"@, t[next].span))
                    } else {
                        objective_body_spec(t, next + 1, params, o2, followed_by(tr, tr2))
                    },
                },
            },
        }
    }
}

/// An objective declaration at `c`: its name and span, its properties,
/// its span, what it records, and the position after it.
pub open spec fn objective_spec(t: Seq<Token>, c: int, params: Seq<(Seq<char>, MacroType)>) -> Result<
    (Seq<char>, Span, ObjectiveView, Span, Trace, int),
    (Seq<char>, Span),
> {
    if !word_at(t, c, "objective"@) {
        Err((expected_word_message("objective"@), t[c].span))
    } else {
        match ident_at(t, c + 1, "计分板目标名称"@) {
            Err(e) => Err(e),
            Ok((name, name_span)) => if kind_at(t, c + 2, TokenKind::LeftBrace) {
                match objective_body_spec(t, c + 3, params, no_properties(), no_trace()) {
                    Err(e) => Err(e),
                    Ok((o, tr, end)) => Ok((name, name_span, o, merged(t[c].span, t[end].span), tr, end + 1)),
                }
            } else if !kind_at(t, c + 2, TokenKind::Semicolon) {
                Err(("计分板目标声明后需要 `;`"@, t[c + 2].span))
            } else {
                Ok((name, name_span, no_properties(), merged(t[c].span, t[c + 2].span), no_trace(), c + 3))
            },
        }
    }
}

struct ObjectiveFields {
    criteria: Option<String>,
    display_name: Option<TextComponent>,
    render_type: Option<String>,
    number_format: Option<NumberFormat>,
    display_slot: Option<String>,
    display_slot_span: Option<Span>,
}

spec fn fields_view(f: ObjectiveFields) -> ObjectiveView {
    ObjectiveView {
        criteria: text_opt(f.criteria),
        display_name: component_opt(f.display_name),
        render_type: text_opt(f.render_type),
        number_format: format_opt(f.number_format),
        display_slot: text_opt(f.display_slot),
        display_slot_span: f.display_slot_span,
    }
}

/// An objective body that parses ends at a `}`.
proof fn lemma_objective_body_end(t: Seq<Token>, c: int, params: Seq<(Seq<char>, MacroType)>, o: ObjectiveView, tr: Trace)
    requires
        objective_body_spec(t, c, params, o, tr) is Ok,
    ensures
        ({
            let end = match objective_body_spec(t, c, params, o, tr) {
                Ok((_, _, end)) => end,
                Err(_) => 0,
            };
            stream_ok(t, end) && kind_at(t, end, TokenKind::RightBrace)
        }),
    decreases t.len() - c,
{
    if stream_ok(t, c) && !kind_at(t, c, TokenKind::RightBrace) && !(t[c].kind is Eof) {
        if let Ok((property, span)) = ident_at(t, c, "目标属性"@) {
            if let Some(k) = objective_property_spec(property) {
                if let Ok((o2, tr2, next)) = objective_value_spec(t, c, k, span, params, o) {
                    if moved(t, c, next) {
                        lemma_objective_body_end(t, next + 1, params, o2, followed_by(tr, tr2));
                    }
                }
            }
        }
    }
}

fn empty_style_value() -> (r: TextStyle)
    ensures
        super::components::style_view(r) == empty_style(),
{
    TextStyle {
        color: None,
        bold: None,
        italic: None,
        underlined: None,
        strikethrough: None,
        obfuscated: None,
        click: None,
        hover: None,
    }
}

impl Parser {
    /// A text component, or a string that stands for `text("…")`.
    pub fn text_component_or_string(&mut self, label: &str) -> (r: Result<TextComponent, Diagnostic>)
        requires
            old(self).wf(),
        ensures
            final(self).wf(),
            final(self).tokens@ == old(self).tokens@,
            match (r, component_or_string_spec(old(self).tokens@, old(self).cursor as int, label@, macro_state(&*old(self)).0)) {
                (Ok(x), Ok((v, tr, after))) => component_view(x) == v && final(self).cursor == after && after
                    > old(self).cursor && extends(macro_state(&*final(self)), macro_state(&*old(self)), tr),
                (Err(d), Err(e)) => diag(d) == e,
                _ => false,
            },
    {
        let ghost t = self.tokens@;
        let ghost c = self.cursor as int;
        let ghost start = macro_state(&*self);
        match self.try_text_component() {
            Err(d) => return Err(d),
            Ok(Some(x)) => return Ok(x),
            Ok(None) => {},
        }
        let mut message = label.to_owned();
        message.append("需要字符串或文本组件");
        let (text, span) = match self.string(message.as_str()) {
            Ok(found) => found,
            Err(d) => return Err(d),
        };
        proof {
            lemma_not_last(t, c);
            lemma_extends_none(start);
        }
        Ok(TextComponent { kind: TextComponentKind::Text(text), style: empty_style_value(), span })
    }

    /// `blank`, `styled` or `fixed(<组件或字符串>)`.
    pub fn number_format(&mut self) -> (r: Result<NumberFormat, Diagnostic>)
        requires
            old(self).wf(),
        ensures
            final(self).wf(),
            final(self).tokens@ == old(self).tokens@,
            match (r, number_format_spec(old(self).tokens@, old(self).cursor as int, macro_state(&*old(self)).0)) {
                (Ok(f), Ok((v, tr, after))) => number_format_view(f) == v && final(self).cursor == after && after
                    > old(self).cursor && extends(macro_state(&*final(self)), macro_state(&*old(self)), tr),
                (Err(d), Err(e)) => diag(d) == e,
                _ => false,
            },
    {
        let ghost t = self.tokens@;
        let ghost c = self.cursor as int;
        let ghost start = macro_state(&*self);
        proof {
            lemma_extends_none(start);
        }
        let (word, span) = match self.ident("数字格式 blank、fixed 或 styled") {
            Ok(found) => found,
            Err(d) => return Err(d),
        };
        proof {
            lemma_not_last(t, c);
        }
        let kind = match number_format_kind(word.as_str()) {
            Some(k) => k,
            None => {
                let mut m = "未知数字格式 `".to_owned();
                m.append(word.as_str());
                m.append("`，可用 blank/空白、fixed/固定 或 styled/样式");
                return Err(Diagnostic { message: m, span });
            },
        };
        if str_eq(kind, "blank") {
            return Ok(NumberFormat::Blank);
        }
        if str_eq(kind, "styled") {
            return Ok(NumberFormat::Styled);
        }
        match self.expect(TokenKind::LeftParen, "fixed 后需要 `(`") {
            Ok(_) => {},
            Err(d) => return Err(d),
        }
        proof {
            lemma_not_last(t, c + 1);
        }
        let component = match self.text_component_or_string("fixed 显示内容") {
            Ok(x) => x,
            Err(d) => return Err(d),
        };
        let ghost after = self.cursor as int;
        match self.expect(TokenKind::RightParen, "fixed 后需要 `)`") {
            Ok(_) => {},
            Err(d) => return Err(d),
        }
        proof {
            lemma_not_last(t, after);
        }
        Ok(NumberFormat::Fixed(Box::new(component)))
    }

    /// The value of the property `kind` after its word (spanning
    /// `property_span`), up to the `;` that must follow it.
    #[verifier::rlimit(60)]
    fn objective_value(&mut self, kind: &str, property_span: Span, fields: ObjectiveFields) -> (r: Result<
        ObjectiveFields,
        Diagnostic,
    >)
        requires
            old(self).wf(),
            old(self).cursor > 0,
            !(old(self).tokens@[old(self).cursor - 1].kind is Eof),
        ensures
            final(self).wf(),
            final(self).tokens@ == old(self).tokens@,
            match (r, objective_value_spec(old(self).tokens@, old(self).cursor - 1, kind@, property_span, macro_state(&*old(self)).0, fields_view(fields))) {
                (Ok(f), Ok((v, tr, next))) => fields_view(f) == v && final(self).cursor == next && next
                    >= old(self).cursor && extends(macro_state(&*final(self)), macro_state(&*old(self)), tr),
                (Err(d), Err(e)) => diag(d) == e,
                _ => false,
            },
    {
        let ghost t = self.tokens@;
        let ghost c = self.cursor - 1;
        let ghost start = macro_state(&*self);
        proof {
            lemma_extends_none(start);
        }
        let mut fields = fields;
        if str_eq(kind, "criteria") {
            if fields.criteria.is_some() {
                return Err(Diagnostic { message: "准则只能声明一次".to_owned(), span: property_span });
            }
            match self.expect(TokenKind::Equal, "准则后需要 `=`") {
                Ok(_) => {},
                Err(d) => return Err(d),
            }
            proof {
                lemma_not_last(t, c + 1);
            }
            let (value, _) = match self.string("准则需要字符串") {
                Ok(found) => found,
                Err(d) => return Err(d),
            };
            proof {
                lemma_not_last(t, c + 2);
            }
            fields.criteria = Some(value);
            return Ok(fields);
        }
        if str_eq(kind, "display_name") {
            if fields.display_name.is_some() {
                return Err(Diagnostic { message: "显示名只能声明一次".to_owned(), span: property_span });
            }
            match self.expect(TokenKind::Equal, "显示名后需要 `=`") {
                Ok(_) => {},
                Err(d) => return Err(d),
            }
            proof {
                lemma_not_last(t, c + 1);
            }
            let component = match self.text_component_or_string("显示名") {
                Ok(x) => x,
                Err(d) => return Err(d),
            };
            fields.display_name = Some(component);
            return Ok(fields);
        }
        if str_eq(kind, "render_type") {
            if fields.render_type.is_some() {
                return Err(Diagnostic { message: "渲染类型只能声明一次".to_owned(), span: property_span });
            }
            match self.expect(TokenKind::Equal, "渲染类型后需要 `=`") {
                Ok(_) => {},
                Err(d) => return Err(d),
            }
            proof {
                lemma_not_last(t, c + 1);
            }
            let (value, span) = match self.string("渲染类型需要字符串") {
                Ok(found) => found,
                Err(d) => return Err(d),
            };
            proof {
                lemma_not_last(t, c + 2);
            }
            let canonical = match render_type(value.as_str()) {
                Some(w) => w,
                None => {
                    let mut m = "渲染类型只能是 integer/整数 或 hearts/爱心，实际为 `".to_owned();
                    m.append(value.as_str());
                    m.append("`");
                    return Err(Diagnostic { message: m, span });
                },
            };
            fields.render_type = Some(canonical.to_owned());
            return Ok(fields);
        }
        if str_eq(kind, "number_format") {
            if fields.number_format.is_some() {
                return Err(Diagnostic { message: "数字格式只能声明一次".to_owned(), span: property_span });
            }
            match self.expect(TokenKind::Equal, "数字格式后需要 `=`") {
                Ok(_) => {},
                Err(d) => return Err(d),
            }
            proof {
                lemma_not_last(t, c + 1);
            }
            let format = match self.number_format() {
                Ok(f) => f,
                Err(d) => return Err(d),
            };
            fields.number_format = Some(format);
            return Ok(fields);
        }
        if fields.display_slot.is_some() {
            return Err(Diagnostic { message: "显示槽只能声明一次".to_owned(), span: property_span });
        }
        match self.expect(TokenKind::Equal, "显示槽后需要 `=`") {
            Ok(_) => {},
            Err(d) => return Err(d),
        }
        proof {
            lemma_not_last(t, c + 1);
        }
        let (value, span) = match self.string("显示槽需要字符串") {
            Ok(found) => found,
            Err(d) => return Err(d),
        };
        proof {
            lemma_not_last(t, c + 2);
        }
        fields.display_slot = Some(value);
        fields.display_slot_span = Some(span);
        Ok(fields)
    }

    /// The properties of an objective after its `{`, up to its `}` (not
    /// consumed).
    fn objective_body(&mut self, fields: ObjectiveFields, Ghost(base): Ghost<MacroState>, Ghost(tr): Ghost<Trace>) -> (r: Result<
        ObjectiveFields,
        Diagnostic,
    >)
        requires
            old(self).wf(),
            extends(macro_state(&*old(self)), base, tr),
        ensures
            final(self).wf(),
            final(self).tokens@ == old(self).tokens@,
            match (r, objective_body_spec(old(self).tokens@, old(self).cursor as int, base.0, fields_view(fields), tr)) {
                (Ok(f), Ok((v, tr2, end))) => fields_view(f) == v && final(self).cursor == end && extends(
                    macro_state(&*final(self)),
                    base,
                    tr2,
                ),
                (Err(d), Err(e)) => diag(d) == e,
                _ => false,
            },
        decreases old(self).tokens@.len() - old(self).cursor,
    {
        let ghost t = self.tokens@;
        let ghost c = self.cursor as int;
        if self.check(&TokenKind::RightBrace) {
            return Ok(fields);
        }
        if self.check(&TokenKind::Eof) {
            return Err(
                Diagnostic { message: "计分板目标声明缺少 `}`".to_owned(), span: self.tokens[self.cursor].span },
            );
        }
        let (property, span) = match self.ident("目标属性") {
            Ok(found) => found,
            Err(d) => return Err(d),
        };
        proof {
            lemma_not_last(t, c);
        }
        let kind = match objective_property(property.as_str()) {
            Some(k) => k,
            None => {
                let mut m = "未知目标属性 `".to_owned();
                m.append(property.as_str());
                m.append("`，可用 criteria、display_name、render_type、number_format、display_slot");
                return Err(Diagnostic { message: m, span });
            },
        };
        let ghost before = macro_state(&*self);
        let ghost step = objective_value_spec(t, c, kind@, span, base.0, fields_view(fields));
        let ghost tr2 = match step {
            Ok((_, x, _)) => x,
            Err(_) => no_trace(),
        };
        let fields = match self.objective_value(kind, span, fields) {
            Ok(f) => f,
            Err(d) => return Err(d),
        };
        proof {
            lemma_extends_then(base, before, macro_state(&*self), tr, tr2);
        }
        let ghost next = self.cursor as int;
        match self.expect(TokenKind::Semicolon, "目标属性后需要 `;`") {
            Ok(_) => {},
            Err(d) => return Err(d),
        }
        proof {
            lemma_not_last(t, next);
        }
        self.objective_body(fields, Ghost(base), Ghost(followed_by(tr, tr2)))
    }

    /// `objective 名称;` or `objective 名称 { 属性 = 值; … }`.
    pub fn objective(&mut self) -> (r: Result<ObjectiveDecl, Diagnostic>)
        requires
            old(self).wf(),
        ensures
            final(self).wf(),
            final(self).tokens@ == old(self).tokens@,
            match (r, objective_spec(old(self).tokens@, old(self).cursor as int, macro_state(&*old(self)).0)) {
                (Ok(d), Ok((name, name_span, o, span, tr, after))) => !d.exported && d.name@ == name && d.name_span
                    == name_span && objective_view(d) == o && d.span == span && final(self).cursor == after
                    && extends(macro_state(&*final(self)), macro_state(&*old(self)), tr),
                (Err(d), Err(e)) => diag(d) == e,
                _ => false,
            },
    {
        let ghost t = self.tokens@;
        let ghost c = self.cursor as int;
        let ghost start = macro_state(&*self);
        proof {
            lemma_extends_none(start);
        }
        let first = match self.expect_word("objective") {
            Ok(token) => token.span,
            Err(d) => return Err(d),
        };
        proof {
            lemma_not_last(t, c);
        }
        let (name, name_span) = match self.ident("计分板目标名称") {
            Ok(found) => found,
            Err(d) => return Err(d),
        };
        proof {
            lemma_not_last(t, c + 1);
        }
        let empty = ObjectiveFields {
            criteria: None,
            display_name: None,
            render_type: None,
            number_format: None,
            display_slot: None,
            display_slot_span: None,
        };
        assert(fields_view(empty) == no_properties());
        if self.take(&TokenKind::LeftBrace).is_some() {
            proof {
                lemma_not_last(t, c + 2);
            }
            let fields = match self.objective_body(empty, Ghost(start), Ghost(no_trace())) {
                Ok(f) => f,
                Err(d) => return Err(d),
            };
            proof {
                lemma_objective_body_end(t, c + 3, start.0, no_properties(), no_trace());
                lemma_not_last(t, self.cursor as int);
            }
            let end = self.advance().span;
            return Ok(
                ObjectiveDecl {
                    exported: false,
                    name,
                    name_span,
                    criteria: fields.criteria,
                    display_name: fields.display_name,
                    render_type: fields.render_type,
                    number_format: fields.number_format,
                    display_slot: fields.display_slot,
                    display_slot_span: fields.display_slot_span,
                    span: first.merge(end),
                },
            );
        }
        let end = match self.expect(TokenKind::Semicolon, "计分板目标声明后需要 `;`") {
            Ok(token) => token.span,
            Err(d) => return Err(d),
        };
        Ok(
            ObjectiveDecl {
                exported: false,
                name,
                name_span,
                criteria: None,
                display_name: None,
                render_type: None,
                number_format: None,
                display_slot: None,
                display_slot_span: None,
                span: first.merge(end),
            },
        )
    }
}

} // verus!
