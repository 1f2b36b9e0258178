//! The `display { … }` block of an advancement: icon, title, description,
//! frame, background and the three notification flags, each declared at
//! most once, with icon, title and description required.

use vstd::prelude::*;
use crate::chars::str_eq;
use crate::parser::keywords::actions::{boolean_word, boolean_word_spec};
use crate::parser::keywords::values::{
    AdvancementFrame, advancement_frame, advancement_frame_spec, display_property, display_property_spec,
};
use super::cursor::{macro_state, 
    Parser, Token, TokenKind, Span, Diagnostic, diag, kind_at, ident_at, merged, stream_ok, lemma_not_last,
};

verus! {

broadcast use vstd::string::group_string_axioms;

/// The display of an advancement.
pub struct AdvancementDisplay {
    pub icon: String,
    pub icon_span: Span,
    pub title: String,
    pub description: String,
    pub frame: AdvancementFrame,
    pub background: Option<String>,
    pub background_span: Option<Span>,
    pub show_toast: Option<bool>,
    pub announce_to_chat: Option<bool>,
    pub hidden: Option<bool>,
    pub span: Span,
}

/// What a `display` block has declared so far, as the contracts speak of
/// it.
pub struct DisplayView {
    pub icon: Option<(Seq<char>, Span)>,
    pub title: Option<(Seq<char>, Span)>,
    pub description: Option<(Seq<char>, Span)>,
    pub frame: AdvancementFrame,
    pub frame_span: Option<Span>,
    pub background: Option<Seq<char>>,
    pub background_span: Option<Span>,
    pub show_toast: Option<bool>,
    pub announce_to_chat: Option<bool>,
    pub hidden: Option<bool>,
}

/// Nothing declared yet: the frame is `task`.
pub open spec fn empty_display() -> DisplayView {
    DisplayView {
        icon: None,
        title: None,
        description: None,
        frame: AdvancementFrame::Task,
        frame_span: None,
        background: None,
        background_span: None,
        show_toast: None,
        announce_to_chat: None,
        hidden: None,
    }
}

/// The flag property `k` as declared so far.
pub open spec fn flag_of(s: DisplayView, k: Seq<char>) -> Option<bool> {
    if k == "show_toast"@ {
        s.show_toast
    } else if k == "announce_to_chat"@ {
        s.announce_to_chat
    } else {
        s.hidden
    }
}

/// `s` with the flag property `k` set to `b`.
pub open spec fn with_flag(s: DisplayView, k: Seq<char>, b: bool) -> DisplayView {
    if k == "show_toast"@ {
        DisplayView { show_toast: Some(b), ..s }
    } else if k == "announce_to_chat"@ {
        DisplayView { announce_to_chat: Some(b), ..s }
    } else {
        DisplayView { hidden: Some(b), ..s }
    }
}

/// A string literal at `c`, or `message` there.
pub open spec fn string_at(t: Seq<Token>, c: int, message: Seq<char>) -> Result<(Seq<char>, Span), (Seq<char>, Span)> {
    match t[c].kind {
        TokenKind::String(v) => Ok((v@, t[c].span)),
        _ => Err((message, t[c].span)),
    }
}

/// The property `k` (whose word stands at `c`, spanning `ps`) with its
/// `= value;`, added to what `s` declared.
pub open spec fn display_property_step(t: Seq<Token>, c: int, k: Seq<char>, ps: Span, s: DisplayView) -> Result<
    DisplayView,
    (Seq<char>, Span),
> {
    if k == "icon"@ {
        if s.icon is Some {
            Err(("display 只能声明一次 icon"@, ps))
        } else if !kind_at(t, c + 1, TokenKind::Equal) {
            Err(("icon 后需要 `=`"@, t[c + 1].span))
        } else {
            match ident_at(t, c + 2, "图标物品定义"@) {
                Err(e) => Err(e),
                Ok(v) => if !kind_at(t, c + 3, TokenKind::Semicolon) {
                    Err(("icon 后需要 `;`"@, t[c + 3].span))
                } else {
                    Ok(DisplayView { icon: Some(v), ..s })
                },
            }
        }
    } else if k == "title"@ {
        if s.title is Some {
            Err(("display 只能声明一次 title"@, ps))
        } else if !kind_at(t, c + 1, TokenKind::Equal) {
            Err(("title 后需要 `=`"@, t[c + 1].span))
        } else {
            match string_at(t, c + 2, "title 需要文本字符串"@) {
                Err(e) => Err(e),
                Ok(v) => if !kind_at(t, c + 3, TokenKind::Semicolon) {
                    Err(("title 后需要 `;`"@, t[c + 3].span))
                } else {
                    Ok(DisplayView { title: Some(v), ..s })
                },
            }
        }
    } else if k == "description"@ {
        if s.description is Some {
            Err(("display 只能声明一次 description"@, ps))
        } else if !kind_at(t, c + 1, TokenKind::Equal) {
            Err(("description 后需要 `=`"@, t[c + 1].span))
        } else {
            match string_at(t, c + 2, "description 需要文本字符串"@) {
                Err(e) => Err(e),
                Ok(v) => if !kind_at(t, c + 3, TokenKind::Semicolon) {
                    Err(("description 后需要 `;`"@, t[c + 3].span))
                } else {
                    Ok(DisplayView { description: Some(v), ..s })
                },
            }
        }
    } else if k == "frame"@ {
        if s.frame_span is Some {
            Err(("display 只能声明一次 frame"@, ps))
        } else if !kind_at(t, c + 1, TokenKind::Equal) {
            Err(("frame 后需要 `=`"@, t[c + 1].span))
        } else {
            match ident_at(t, c + 2, "task、goal 或 challenge"@) {
                Err(e) => Err(e),
                Ok((v, value_span)) => match advancement_frame_spec(v) {
                    None => Err(("frame 只能是 task/任务、goal/目标 或 challenge/挑战"@, value_span)),
                    Some(f) => if !kind_at(t, c + 3, TokenKind::Semicolon) {
                        Err(("frame 后需要 `;`"@, t[c + 3].span))
                    } else {
                        Ok(DisplayView { frame: f, frame_span: Some(ps), ..s })
                    },
                },
            }
        }
    } else if k == "background"@ {
        if s.background_span is Some {
            Err(("display 只能声明一次 background"@, ps))
        } else if !kind_at(t, c + 1, TokenKind::Equal) {
            Err(("background 后需要 `=`"@, t[c + 1].span))
        } else {
            match string_at(t, c + 2, "background 需要纹理资源位置"@) {
                Err(e) => Err(e),
                Ok((v, value_span)) => if !kind_at(t, c + 3, TokenKind::Semicolon) {
                    Err(("background 后需要 `;`"@, t[c + 3].span))
                } else {
                    Ok(DisplayView { background: Some(v), background_span: Some(value_span), ..s })
                },
            }
        }
    } else {
        if flag_of(s, k) is Some {
            Err(("display 只能声明一次 "@ + k, ps))
        } else if !kind_at(t, c + 1, TokenKind::Equal) {
            Err((k + " 后需要 `=`"@, t[c + 1].span))
        } else {
            match ident_at(t, c + 2, "true 或 false"@) {
                Err(e) => Err(e),
                Ok((v, value_span)) => match boolean_word_spec(v) {
                    None => Err(("这里需要 true 或 false"@, value_span)),
                    Some(w) => if !kind_at(t, c + 3, TokenKind::Semicolon) {
                        Err((k + " 后需要 `;`"@, t[c + 3].span))
                    } else {
                        Ok(with_flag(s, k, w == "true"@))
                    },
                },
            }
        }
    }
}

/// The properties of a `display` block from `c` on, after those in `s`:
/// what was declared, and the position of the closing `}`.
pub open spec fn display_body_spec(t: Seq<Token>, c: int, s: DisplayView) -> Result<
    (DisplayView, int),
    (Seq<char>, Span),
>
    decreases t.len() - c,
{
    if !stream_ok(t, c) {
        Err((seq![], Span { start: 0, end: 0 }))
    } else if kind_at(t, c, TokenKind::RightBrace) {
        Ok((s, c))
    } else if t[c].kind is Eof {
        Err(("display 缺少 `}`"@, t[c].span))
    } else {
        match ident_at(t, c, "展示属性"@) {
            Err(e) => Err(e),
            Ok((property, property_span)) => match display_property_spec(property) {
                None => Err(("未知展示属性 `"@ + property + "`"@, property_span)),
                Some(k) => match display_property_step(t, c, k, property_span, s) {
                    Err(e) => Err(e),
                    Ok(s2) => display_body_spec(t, c + 4, s2),
                },
            },
        }
    }
}

/// A `display` block at `c` (from its `{`): what it declares, its span,
/// and the position after its `}`.
pub open spec fn advancement_display_spec(t: Seq<Token>, c: int) -> Result<
    (DisplayView, Span, int),
    (Seq<char>, Span),
> {
    if !kind_at(t, c, TokenKind::LeftBrace) {
        Err(("display 后需要 `{`"@, t[c].span))
    } else {
        match display_body_spec(t, c + 1, empty_display()) {
            Err(e) => Err(e),
            Ok((s, end)) => {
                let span = merged(t[c].span, t[end].span);
                if s.icon is None {
                    Err(("display 必须声明 icon"@, span))
                } else if s.title is None {
                    Err(("display 必须声明 title"@, span))
                } else if s.description is None {
                    Err(("display 必须声明 description"@, span))
                } else {
                    Ok((s, span, end + 1))
                }
            },
        }
    }
}

/// `d` is the display that `s` declares, spanning `span`.
pub open spec fn display_matches(d: AdvancementDisplay, s: DisplayView, span: Span) -> bool {
    &&& s.icon == Some((d.icon@, d.icon_span))
    &&& s.title is Some && text_of(s.title) == d.title@
    &&& s.description is Some && text_of(s.description) == d.description@
    &&& s.frame == d.frame
    &&& s.background == opt_text(d.background)
    &&& s.background_span == d.background_span
    &&& s.show_toast == d.show_toast
    &&& s.announce_to_chat == d.announce_to_chat
    &&& s.hidden == d.hidden
    &&& span == d.span
}

/// The text of a declared value.
pub open spec fn text_of(o: Option<(Seq<char>, Span)>) -> Seq<char> {
    match o {
        Some(v) => v.0,
        None => seq![],
    }
}

/// An optional text as the contracts speak of it.
pub open spec fn opt_text(o: Option<String>) -> Option<Seq<char>> {
    match o {
        Some(v) => Some(v@),
        None => None,
    }
}

/// An optional text and its span as the contracts speak of them.
pub open spec fn opt_spanned(o: Option<(String, Span)>) -> Option<(Seq<char>, Span)> {
    match o {
        Some(v) => Some((v.0@, v.1)),
        None => None,
    }
}

/// What the parser holds of a `display` block while reading it.
struct DisplayFields {
    icon: Option<(String, Span)>,
    title: Option<(String, Span)>,
    description: Option<(String, Span)>,
    frame: AdvancementFrame,
    frame_span: Option<Span>,
    background: Option<String>,
    background_span: Option<Span>,
    show_toast: Option<bool>,
    announce_to_chat: Option<bool>,
    hidden: Option<bool>,
}

spec fn fields_view(f: DisplayFields) -> DisplayView {
    DisplayView {
        icon: opt_spanned(f.icon),
        title: opt_spanned(f.title),
        description: opt_spanned(f.description),
        frame: f.frame,
        frame_span: f.frame_span,
        background: opt_text(f.background),
        background_span: f.background_span,
        show_toast: f.show_toast,
        announce_to_chat: f.announce_to_chat,
        hidden: f.hidden,
    }
}

fn joined(a: &str, b: &str) -> (r: String)
    ensures
        r@ == a@ + b@,
{
    let mut m = a.to_owned();
    m.append(b);
    m
}

/// A display block that parses ends at a `}`.
proof fn lemma_display_body_end(t: Seq<Token>, c: int, s: DisplayView)
    requires
        display_body_spec(t, c, s) is Ok,
    ensures
        stream_ok(t, display_body_spec(t, c, s)->Ok_0.1),
        kind_at(t, display_body_spec(t, c, s)->Ok_0.1, TokenKind::RightBrace),
    decreases t.len() - c,
{
    if stream_ok(t, c) && !kind_at(t, c, TokenKind::RightBrace) && !(t[c].kind is Eof) {
        if let Ok((property, property_span)) = ident_at(t, c, "展示属性"@) {
            if let Some(k) = display_property_spec(property) {
                if let Ok(s2) = display_property_step(t, c, k, property_span, s) {
                    lemma_display_body_end(t, c + 4, s2);
                }
            }
        }
    }
}

impl Parser {
    /// `= value;` of the display property `kind`, whose word was just
    /// read (spanning `property_span`).
    fn display_property_value(
        &mut self,
        kind: &str,
        property_span: Span,
        fields: DisplayFields,
    ) -> (r: Result<DisplayFields, Diagnostic>)
        requires
            old(self).wf(),
            old(self).cursor > 0,
            !(old(self).tokens@[old(self).cursor - 1].kind is Eof),
        ensures
            final(self).wf(),
            final(self).tokens@ == old(self).tokens@,
            macro_state(&*final(self)) == macro_state(&*old(self)),
            match (r, display_property_step(old(self).tokens@, old(self).cursor - 1, kind@, property_span, fields_view(fields))) {
                (Ok(f), Ok(s)) => fields_view(f) == s && final(self).cursor == old(self).cursor + 3,
                (Err(d), Err(e)) => diag(d) == e,
                _ => false,
            },
    {
        let ghost t = self.tokens@;
        let ghost c = self.cursor - 1;
        let mut fields = fields;
        let is_icon = str_eq(kind, "icon");
        let is_title = str_eq(kind, "title");
        let is_description = str_eq(kind, "description");
        let is_frame = str_eq(kind, "frame");
        let is_background = str_eq(kind, "background");
        if is_icon {
            if fields.icon.is_some() {
                return Err(Diagnostic { message: "display 只能声明一次 icon".to_owned(), span: property_span });
            }
        } else if is_title {
            if fields.title.is_some() {
                return Err(Diagnostic { message: "display 只能声明一次 title".to_owned(), span: property_span });
            }
        } else if is_description {
            if fields.description.is_some() {
                return Err(
                    Diagnostic { message: "display 只能声明一次 description".to_owned(), span: property_span },
                );
            }
        } else if is_frame {
            if fields.frame_span.is_some() {
                return Err(Diagnostic { message: "display 只能声明一次 frame".to_owned(), span: property_span });
            }
        } else if is_background {
            if fields.background_span.is_some() {
                return Err(
                    Diagnostic { message: "display 只能声明一次 background".to_owned(), span: property_span },
                );
            }
        } else {
            let seen = if str_eq(kind, "show_toast") {
                fields.show_toast.is_some()
            } else if str_eq(kind, "announce_to_chat") {
                fields.announce_to_chat.is_some()
            } else {
                fields.hidden.is_some()
            };
            if seen {
                return Err(Diagnostic { message: joined("display 只能声明一次 ", kind), span: property_span });
            }
        }
        let equal_message = if is_icon {
            "icon 后需要 `=`".to_owned()
        } else if is_title {
            "title 后需要 `=`".to_owned()
        } else if is_description {
            "description 后需要 `=`".to_owned()
        } else if is_frame {
            "frame 后需要 `=`".to_owned()
        } else if is_background {
            "background 后需要 `=`".to_owned()
        } else {
            joined(kind, " 后需要 `=`")
        };
        match self.expect(TokenKind::Equal, equal_message.as_str()) {
            Ok(_) => {},
            Err(d) => return Err(d),
        }
        proof {
            lemma_not_last(t, c + 1);
        }
        let semicolon_message = if is_icon {
            "icon 后需要 `;`".to_owned()
        } else if is_title {
            "title 后需要 `;`".to_owned()
        } else if is_description {
            "description 后需要 `;`".to_owned()
        } else if is_frame {
            "frame 后需要 `;`".to_owned()
        } else if is_background {
            "background 后需要 `;`".to_owned()
        } else {
            joined(kind, " 后需要 `;`")
        };
        if is_icon {
            let value = match self.ident("图标物品定义") {
                Ok(found) => found,
                Err(d) => return Err(d),
            };
            proof {
                lemma_not_last(t, c + 2);
            }
            match self.expect(TokenKind::Semicolon, semicolon_message.as_str()) {
                Ok(_) => {},
                Err(d) => return Err(d),
            }
            fields.icon = Some(value);
            Ok(fields)
        } else if is_title || is_description || (is_background && !is_frame) {
            let message = if is_title {
                "title 需要文本字符串"
            } else if is_description {
                "description 需要文本字符串"
            } else {
                "background 需要纹理资源位置"
            };
            let (value, value_span) = match self.string(message) {
                Ok(found) => found,
                Err(d) => return Err(d),
            };
            proof {
                lemma_not_last(t, c + 2);
            }
            match self.expect(TokenKind::Semicolon, semicolon_message.as_str()) {
                Ok(_) => {},
                Err(d) => return Err(d),
            }
            if is_title {
                fields.title = Some((value, value_span));
            } else if is_description {
                fields.description = Some((value, value_span));
            } else {
                fields.background = Some(value);
                fields.background_span = Some(value_span);
            }
            Ok(fields)
        } else if is_frame {
            let (value, value_span) = match self.ident("task、goal 或 challenge") {
                Ok(found) => found,
                Err(d) => return Err(d),
            };
            proof {
                lemma_not_last(t, c + 2);
            }
            let frame = match advancement_frame(value.as_str()) {
                Some(f) => f,
                None => return Err(
                    Diagnostic {
                        message: "frame 只能是 task/任务、goal/目标 或 challenge/挑战".to_owned(),
                        span: value_span,
                    },
                ),
            };
            match self.expect(TokenKind::Semicolon, semicolon_message.as_str()) {
                Ok(_) => {},
                Err(d) => return Err(d),
            }
            fields.frame = frame;
            fields.frame_span = Some(property_span);
            Ok(fields)
        } else {
            let (value, value_span) = match self.ident("true 或 false") {
                Ok(found) => found,
                Err(d) => return Err(d),
            };
            proof {
                lemma_not_last(t, c + 2);
            }
            let flag = match boolean_word(value.as_str()) {
                Some(w) => str_eq(w, "true"),
                None => return Err(Diagnostic { message: "这里需要 true 或 false".to_owned(), span: value_span }),
            };
            match self.expect(TokenKind::Semicolon, semicolon_message.as_str()) {
                Ok(_) => {},
                Err(d) => return Err(d),
            }
            if str_eq(kind, "show_toast") {
                fields.show_toast = Some(flag);
            } else if str_eq(kind, "announce_to_chat") {
                fields.announce_to_chat = Some(flag);
            } else {
                fields.hidden = Some(flag);
            }
            Ok(fields)
        }
    }

    /// The properties of a `display` block, up to its closing `}` (not
    /// consumed).
    fn display_body(&mut self, fields: DisplayFields) -> (r: Result<DisplayFields, Diagnostic>)
        requires
            old(self).wf(),
        ensures
            final(self).wf(),
            final(self).tokens@ == old(self).tokens@,
            macro_state(&*final(self)) == macro_state(&*old(self)),
            match (r, display_body_spec(old(self).tokens@, old(self).cursor as int, fields_view(fields))) {
                (Ok(f), Ok((s, end))) => fields_view(f) == s && final(self).cursor == end && end >= old(self).cursor,
                (Err(d), Err(e)) => diag(d) == e,
                _ => false,
            },
        decreases old(self).tokens@.len() - old(self).cursor,
    {
        let ghost t = self.tokens@;
        let ghost c = self.cursor as int;
        if self.check(&TokenKind::RightBrace) {
            return Ok(fields);
        }
        if self.check(&TokenKind::Eof) {
            return Err(Diagnostic { message: "display 缺少 `}`".to_owned(), span: self.tokens[self.cursor].span });
        }
        let (property, property_span) = match self.ident("展示属性") {
            Ok(found) => found,
            Err(d) => return Err(d),
        };
        proof {
            lemma_not_last(t, c);
        }
        let kind = match display_property(property.as_str()) {
            Some(kind) => kind,
            None => {
                let mut m = "未知展示属性 `".to_owned();
                m.append(property.as_str());
                m.append("`");
                return Err(Diagnostic { message: m, span: property_span });
            },
        };
        let fields = match self.display_property_value(kind, property_span, fields) {
            Ok(f) => f,
            Err(d) => return Err(d),
        };
        self.display_body(fields)
    }

    /// `display { icon = …; title = "…"; description = "…"; … }` from its
    /// `{`: icon, title and description are required, every property is
    /// declared at most once, and the frame is `task` unless declared.
    pub fn advancement_display(&mut self) -> (r: Result<AdvancementDisplay, Diagnostic>)
        requires
            old(self).wf(),
        ensures
            final(self).wf(),
            final(self).tokens@ == old(self).tokens@,
            macro_state(&*final(self)) == macro_state(&*old(self)),
            match (r, advancement_display_spec(old(self).tokens@, old(self).cursor as int)) {
                (Ok(d), Ok((s, span, next))) => display_matches(d, s, span) && final(self).cursor == next && next
                    > old(self).cursor,
                (Err(d), Err(e)) => diag(d) == e,
                _ => false,
            },
    {
        let ghost t = self.tokens@;
        let ghost c = self.cursor as int;
        let start = match self.expect(TokenKind::LeftBrace, "display 后需要 `{`") {
            Ok(token) => token.span,
            Err(d) => return Err(d),
        };
        proof {
            lemma_not_last(t, c);
        }
        let empty = DisplayFields {
            icon: None,
            title: None,
            description: None,
            frame: AdvancementFrame::Task,
            frame_span: None,
            background: None,
            background_span: None,
            show_toast: None,
            announce_to_chat: None,
            hidden: None,
        };
        assert(fields_view(empty) == empty_display());
        let fields = match self.display_body(empty) {
            Ok(f) => f,
            Err(d) => return Err(d),
        };
        proof {
            lemma_display_body_end(t, c + 1, empty_display());
            lemma_not_last(t, self.cursor as int);
        }
        let end = self.advance().span;
        let span = start.merge(end);
        let (icon, icon_span) = match fields.icon {
            Some(found) => found,
            None => return Err(Diagnostic { message: "display 必须声明 icon".to_owned(), span }),
        };
        let (title, _) = match fields.title {
            Some(found) => found,
            None => return Err(Diagnostic { message: "display 必须声明 title".to_owned(), span }),
        };
        let (description, _) = match fields.description {
            Some(found) => found,
            None => return Err(Diagnostic { message: "display 必须声明 description".to_owned(), span }),
        };
        Ok(
            AdvancementDisplay {
                icon,
                icon_span,
                title,
                description,
                frame: fields.frame,
                background: fields.background,
                background_span: fields.background_span,
                show_toast: fields.show_toast,
                announce_to_chat: fields.announce_to_chat,
                hidden: fields.hidden,
                span,
            },
        )
    }
}

} // verus!
