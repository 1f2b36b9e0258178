//! Arguments of conditions and commands: block states
//! `block_state("命名空间:方块") { 属性 = "值"; }`, function call targets
//! (`名称` or `#标签`), and the `entity, 持有者` / `block, pos(…)` sources of
//! item conditions.

use vstd::prelude::*;
use super::cursor::{
    macro_state, Parser, Token, TokenKind, Span, Diagnostic, diag, advanced, kind_at, word_at, ident_at, merged,
    stream_ok, lemma_not_last, MacroType,
};
use super::arguments::{Holder, holder_view, holder_spec};
use super::positions::{BlockPosition, position_view, block_position_spec};
use super::expressions::string_at;
use super::components::{Trace, no_trace, extends, lemma_extends_none};
use crate::chars::str_eq;

verus! {

broadcast use vstd::string::group_string_axioms;

/// A block property of a block state: its name, value and span.
pub struct BlockProperty {
    pub name: String,
    pub value: String,
    pub span: Span,
}

/// A block id with properties.
pub struct BlockStateValue {
    pub id: String,
    pub properties: Vec<BlockProperty>,
    pub span: Span,
}

pub open spec fn properties_view(v: Seq<BlockProperty>) -> Seq<(Seq<char>, Seq<char>, Span)> {
    v.map_values(|p: BlockProperty| (p.name@, p.value@, p.span))
}

pub open spec fn block_state_view(b: BlockStateValue) -> (Seq<char>, Seq<(Seq<char>, Seq<char>, Span)>, Span) {
    (b.id@, properties_view(b.properties@), b.span)
}

/// Whether a property named `name` is among `props`.
pub open spec fn has_property(props: Seq<(Seq<char>, Seq<char>, Span)>, name: Seq<char>) -> bool {
    exists|i: int| 0 <= i < props.len() && #[trigger] props[i].0 == name
}

/// The properties of a block state from `c` on, after `props`: all of
/// them and the position of the closing `}`.
pub open spec fn block_state_body_spec(t: Seq<Token>, c: int, props: Seq<(Seq<char>, Seq<char>, Span)>) -> Result<
    (Seq<(Seq<char>, Seq<char>, Span)>, int),
    (Seq<char>, Span),
>
    decreases t.len() - c,
{
    if !stream_ok(t, c) {
        Err((seq![], Span { start: 0, end: 0 }))
    } else if kind_at(t, c, TokenKind::RightBrace) {
        Ok((props, c))
    } else if t[c].kind is Eof {
        Err(("方块状态缺少 `}`"@, t[c].span))
    } else {
        match ident_at(t, c, "方块属性名称"@) {
            Err(e) => Err(e),
            Ok((name, name_span)) => if !kind_at(t, c + 1, TokenKind::Equal) {
                Err(("方块属性后需要 `=`"@, t[c + 1].span))
            } else {
                match string_at(t, c + 2, "方块属性值需要字符串，例如 \"east\""@) {
                    Err(e) => Err(e),
                    Ok((value, value_span)) => if !kind_at(t, c + 3, TokenKind::Semicolon) {
                        Err(("方块属性后需要 `;`"@, t[c + 3].span))
                    } else if has_property(props, name) {
                        Err(("方块属性 `"@ + name + "` 重复声明"@, name_span))
                    } else {
                        block_state_body_spec(t, c + 4, props.push((name, value, merged(name_span, value_span))))
                    },
                }
            },
        }
    }
}

/// A block state at `c` for `label`: id, properties, span, and the
/// position after it (past an optional `;` after a property block).
pub open spec fn block_state_spec(t: Seq<Token>, c: int, label: Seq<char>) -> Result<
    ((Seq<char>, Seq<(Seq<char>, Seq<char>, Span)>, Span), int),
    (Seq<char>, Span),
> {
    if !word_at(t, c, "block_state"@) {
        Err((label + "需要 `block_state(\"命名空间:方块\") { ... }`（中文 `方块状态(...)`）"@, t[c].span))
    } else if !kind_at(t, c + 1, TokenKind::LeftParen) {
        Err(("block_state 后需要 `(`"@, t[c + 1].span))
    } else {
        match string_at(t, c + 2, "block_state 需要方块资源位置字符串"@) {
            Err(e) => Err(e),
            Ok((id, _)) => if !kind_at(t, c + 3, TokenKind::RightParen) {
                Err(("方块资源位置后需要 `)`"@, t[c + 3].span))
            } else if !kind_at(t, c + 4, TokenKind::LeftBrace) {
                Ok(((id, seq![], merged(t[c].span, t[c + 3].span)), c + 4))
            } else {
                match block_state_body_spec(t, c + 5, seq![]) {
                    Err(e) => Err(e),
                    Ok((props, close)) => Ok(
                        (
                            (id, props, merged(t[c].span, t[close].span)),
                            if kind_at(t, close + 1, TokenKind::Semicolon) {
                                close + 2
                            } else {
                                close + 1
                            },
                        ),
                    ),
                }
            },
        }
    }
}

/// What a call names: a function or a function tag.
pub enum CallTarget {
    Tag(String),
    Function(String),
}

/// A call target as the contracts speak of it: whether it is a tag, and
/// its name.
pub open spec fn call_target_view(c: CallTarget) -> (bool, Seq<char>) {
    match c {
        CallTarget::Tag(s) => (true, s@),
        CallTarget::Function(s) => (false, s@),
    }
}

/// A call target at `c` for `label`, and the position after it.
pub open spec fn call_target_spec(t: Seq<Token>, c: int, label: Seq<char>) -> Result<((bool, Seq<char>), int), (Seq<char>, Span)> {
    if kind_at(t, c, TokenKind::Hash) {
        match ident_at(t, c + 1, "函数标签名称"@) {
            Err(e) => Err(e),
            Ok((name, _)) => Ok(((true, name), c + 2)),
        }
    } else {
        match ident_at(t, c, label) {
            Err(e) => Err(e),
            Ok((name, _)) => Ok(((false, name), c + 1)),
        }
    }
}

/// Where an item condition looks: an entity or a block.
pub enum ItemConditionSource {
    Entity(Holder),
    Block(BlockPosition),
}

pub enum ItemSourceView {
    Entity((int, Seq<char>, Span)),
    Block(((int, Seq<char>), (int, Seq<char>), (int, Seq<char>), Span)),
}

pub open spec fn item_source_view(s: ItemConditionSource) -> ItemSourceView {
    match s {
        ItemConditionSource::Entity(h) => ItemSourceView::Entity(holder_view(h)),
        ItemConditionSource::Block(p) => ItemSourceView::Block(position_view(p)),
    }
}

/// The source of an item condition at `c` for `label`: the source, what
/// it records, and the position after it.
pub open spec fn item_source_spec(t: Seq<Token>, c: int, label: Seq<char>, params: Seq<(Seq<char>, MacroType)>) -> Result<
    (ItemSourceView, Trace, int),
    (Seq<char>, Span),
> {
    match ident_at(t, c, label + "需要 entity 或 block"@) {
        Err(e) => Err(e),
        Ok((name, name_span)) => if !kind_at(t, c + 1, TokenKind::Comma) {
            Err(("物品条件来源后需要 `,`"@, t[c + 1].span))
        } else if name == "entity"@ || name == "实体"@ {
            match holder_spec(t, c + 2, "计分持有者"@) {
                Err(e) => Err(e),
                Ok(h) => Ok((ItemSourceView::Entity(h), no_trace(), advanced(t, c + 2))),
            }
        } else if name == "block"@ || name == "方块"@ {
            match block_position_spec(t, c + 2, "物品条件方块坐标"@, params) {
                Err(e) => Err(e),
                Ok((p, used, recorded, after)) => Ok((ItemSourceView::Block(p), (used, recorded), after)),
            }
        } else {
            Err(("未知物品条件来源 `"@ + name + "`，可用 entity（实体）或 block（方块）"@, name_span))
        },
    }
}

pub open spec fn block_state_after(r: Result<((Seq<char>, Seq<(Seq<char>, Seq<char>, Span)>, Span), int), (Seq<char>, Span)>) -> int {
    match r {
        Ok((_, q)) => q,
        Err(_) => 0,
    }
}

/// A block state body that parses ends at a `}`.
proof fn lemma_block_state_body_end(t: Seq<Token>, c: int, props: Seq<(Seq<char>, Seq<char>, Span)>)
    requires
        block_state_body_spec(t, c, props) is Ok,
    ensures
        ({
            let end = match block_state_body_spec(t, c, props) {
                Ok((_, end)) => end,
                Err(_) => 0,
            };
            stream_ok(t, end) && kind_at(t, end, TokenKind::RightBrace) && end >= c
        }),
    decreases t.len() - c,
{
    if stream_ok(t, c) && !kind_at(t, c, TokenKind::RightBrace) && !(t[c].kind is Eof) {
        if let Ok((name, name_span)) = ident_at(t, c, "方块属性名称"@) {
            if let Ok((value, value_span)) = string_at(t, c + 2, "方块属性值需要字符串，例如 \"east\""@) {
                lemma_block_state_body_end(t, c + 4, props.push((name, value, merged(name_span, value_span))));
            }
        }
    }
}

fn has_property_named(properties: &Vec<BlockProperty>, name: &str) -> (r: bool)
    ensures
        r == has_property(properties_view(properties@), name@),
{
    let ghost props = properties_view(properties@);
    let mut i: usize = 0;
    while i < properties.len()
        invariant
            i <= properties@.len(),
            props == properties_view(properties@),
            forall|j: int| 0 <= j < i ==> props[j].0 != name@,
        decreases properties.len() - i,
    {
        if str_eq(properties[i].name.as_str(), name) {
            assert(props[i as int].0 == name@);
            return true;
        }
        i += 1;
    }
    false
}

impl Parser {
    fn block_state_body(&mut self, properties: Vec<BlockProperty>) -> (r: Result<Vec<BlockProperty>, Diagnostic>)
        requires
            old(self).wf(),
        ensures
            final(self).wf(),
            final(self).tokens@ == old(self).tokens@,
            macro_state(&*final(self)) == macro_state(&*old(self)),
            match (r, block_state_body_spec(old(self).tokens@, old(self).cursor as int, properties_view(properties@))) {
                (Ok(v), Ok((s, end))) => properties_view(v@) == s && final(self).cursor == end,
                (Err(d), Err(e)) => diag(d) == e,
                _ => false,
            },
        decreases old(self).tokens@.len() - old(self).cursor,
    {
        let ghost t = self.tokens@;
        let ghost c = self.cursor as int;
        if self.check(&TokenKind::RightBrace) {
            return Ok(properties);
        }
        if self.check(&TokenKind::Eof) {
            return Err(Diagnostic { message: "方块状态缺少 `}`".to_owned(), span: self.tokens[self.cursor].span });
        }
        let (name, name_span) = match self.ident("方块属性名称") {
            Ok(found) => found,
            Err(d) => return Err(d),
        };
        proof {
            lemma_not_last(t, c);
        }
        match self.expect(TokenKind::Equal, "方块属性后需要 `=`") {
            Ok(_) => {},
            Err(d) => return Err(d),
        }
        proof {
            lemma_not_last(t, c + 1);
        }
        let (value, value_span) = match self.string("方块属性值需要字符串，例如 \"east\"") {
            Ok(found) => found,
            Err(d) => return Err(d),
        };
        proof {
            lemma_not_last(t, c + 2);
        }
        match self.expect(TokenKind::Semicolon, "方块属性后需要 `;`") {
            Ok(_) => {},
            Err(d) => return Err(d),
        }
        proof {
            lemma_not_last(t, c + 3);
        }
        let ghost props = properties_view(properties@);
        if has_property_named(&properties, name.as_str()) {
            let mut m = "方块属性 `".to_owned();
            m.append(name.as_str());
            m.append("` 重复声明");
            return Err(Diagnostic { message: m, span: name_span });
        }
        let ghost entry = (name@, value@, merged(name_span, value_span));
        let mut properties = properties;
        properties.push(BlockProperty { name, value, span: name_span.merge(value_span) });
        assert(properties_view(properties@) =~= props.push(entry));
        self.block_state_body(properties)
    }

    /// `block_state("命名空间:方块") { 属性 = "值"; … }` for `label`; the
    /// property block may be left out, and a `;` may follow it.
    pub fn block_state_value(&mut self, label: &str) -> (r: Result<BlockStateValue, Diagnostic>)
        requires
            old(self).wf(),
        ensures
            final(self).wf(),
            final(self).tokens@ == old(self).tokens@,
            macro_state(&*final(self)) == macro_state(&*old(self)),
            match (r, block_state_spec(old(self).tokens@, old(self).cursor as int, label@)) {
                (Ok(b), Ok((v, after))) => block_state_view(b) == v && final(self).cursor == after && after
                    > old(self).cursor,
                (Err(d), Err(e)) => diag(d) == e,
                _ => false,
            },
    {
        let ghost t = self.tokens@;
        let ghost c = self.cursor as int;
        let start = match self.take_word("block_state") {
            Some(token) => token.span,
            None => {
                let mut m = label.to_owned();
                m.append("需要 `block_state(\"命名空间:方块\") { ... }`（中文 `方块状态(...)`）");
                return Err(Diagnostic { message: m, span: self.tokens[self.cursor].span });
            },
        };
        proof {
            lemma_not_last(t, c);
        }
        match self.expect(TokenKind::LeftParen, "block_state 后需要 `(`") {
            Ok(_) => {},
            Err(d) => return Err(d),
        }
        proof {
            lemma_not_last(t, c + 1);
        }
        let (id, _) = match self.string("block_state 需要方块资源位置字符串") {
            Ok(found) => found,
            Err(d) => return Err(d),
        };
        proof {
            lemma_not_last(t, c + 2);
        }
        let end = match self.expect(TokenKind::RightParen, "方块资源位置后需要 `)`") {
            Ok(token) => token.span,
            Err(d) => return Err(d),
        };
        proof {
            lemma_not_last(t, c + 3);
        }
        let empty: Vec<BlockProperty> = Vec::new();
        assert(properties_view(empty@) =~= Seq::<(Seq<char>, Seq<char>, Span)>::empty());
        if self.take(&TokenKind::LeftBrace).is_none() {
            return Ok(BlockStateValue { id, properties: empty, span: start.merge(end) });
        }
        proof {
            lemma_not_last(t, c + 4);
        }
        let properties = match self.block_state_body(empty) {
            Ok(v) => v,
            Err(d) => return Err(d),
        };
        proof {
            lemma_block_state_body_end(t, c + 5, Seq::empty());
            lemma_not_last(t, self.cursor as int);
        }
        let close = self.advance().span;
        self.take(&TokenKind::Semicolon);
        Ok(BlockStateValue { id, properties, span: start.merge(close) })
    }

    /// A function (`名称`, for `label`) or a function tag (`#标签`).
    pub fn call_target(&mut self, label: &str) -> (r: Result<CallTarget, Diagnostic>)
        requires
            old(self).wf(),
        ensures
            final(self).wf(),
            final(self).tokens@ == old(self).tokens@,
            macro_state(&*final(self)) == macro_state(&*old(self)),
            match (r, call_target_spec(old(self).tokens@, old(self).cursor as int, label@)) {
                (Ok(x), Ok((v, after))) => call_target_view(x) == v && final(self).cursor == after && after
                    > old(self).cursor,
                (Err(d), Err(e)) => diag(d) == e,
                _ => false,
            },
    {
        let ghost t = self.tokens@;
        let ghost c = self.cursor as int;
        if self.take(&TokenKind::Hash).is_some() {
            proof {
                lemma_not_last(t, c);
            }
            let (name, _) = match self.ident("函数标签名称") {
                Ok(found) => found,
                Err(d) => return Err(d),
            };
            proof {
                lemma_not_last(t, c + 1);
            }
            return Ok(CallTarget::Tag(name));
        }
        let (name, _) = match self.ident(label) {
            Ok(found) => found,
            Err(d) => return Err(d),
        };
        proof {
            lemma_not_last(t, c);
        }
        Ok(CallTarget::Function(name))
    }

    /// `entity, 持有者` or `block, pos(…)` for `label`.
    pub fn item_condition_source(&mut self, label: &str) -> (r: Result<ItemConditionSource, Diagnostic>)
        requires
            old(self).wf(),
        ensures
            final(self).wf(),
            final(self).tokens@ == old(self).tokens@,
            match (r, item_source_spec(old(self).tokens@, old(self).cursor as int, label@, macro_state(&*old(self)).0)) {
                (Ok(x), Ok((v, tr, after))) => item_source_view(x) == v && final(self).cursor == after && after
                    > old(self).cursor && extends(macro_state(&*final(self)), macro_state(&*old(self)), tr),
                (Err(d), Err(e)) => diag(d) == e,
                _ => false,
            },
    {
        let ghost t = self.tokens@;
        let ghost c = self.cursor as int;
        let ghost start = macro_state(&*self);
        proof {
            lemma_extends_none(start);
        }
        let mut m = label.to_owned();
        m.append("需要 entity 或 block");
        let (name, name_span) = match self.ident(m.as_str()) {
            Ok(found) => found,
            Err(d) => return Err(d),
        };
        proof {
            lemma_not_last(t, c);
        }
        match self.expect(TokenKind::Comma, "物品条件来源后需要 `,`") {
            Ok(_) => {},
            Err(d) => return Err(d),
        }
        proof {
            lemma_not_last(t, c + 1);
        }
        if str_eq(name.as_str(), "entity") || str_eq(name.as_str(), "实体") {
            return match self.score_holder() {
                Ok(h) => Ok(ItemConditionSource::Entity(h)),
                Err(d) => Err(d),
            };
        }
        if str_eq(name.as_str(), "block") || str_eq(name.as_str(), "方块") {
            return match self.block_position("物品条件方块坐标") {
                Ok(p) => Ok(ItemConditionSource::Block(p)),
                Err(d) => Err(d),
            };
        }
        let mut m = "未知物品条件来源 `".to_owned();
        m.append(name.as_str());
        m.append("`，可用 entity（实体）或 block（方块）");
        Err(Diagnostic { message: m, span: name_span })
    }
}

} // verus!
