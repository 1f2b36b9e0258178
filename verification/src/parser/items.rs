//! Item stack definitions: `item 名称 = item_stack("minecraft:diamond_sword")
//! { count = 1; custom_name = "…"; lore("…"); enchantment("…", 3); … }`.

use vstd::prelude::*;
use crate::chars::str_eq;
use crate::parser::keywords::actions::{boolean_word, boolean_word_spec};
use crate::parser::keywords::values::{
    ItemRarity, item_stack_property, item_stack_property_spec, rarity_value, rarity_value_spec,
};
use super::cursor::{
    macro_state, Parser, Token, TokenKind, Span, Diagnostic, diag, kind_at, word_at, ident_at, merged, stream_ok,
    lemma_not_last, expected_word_message,
};
use super::numbers::unsigned_spec;
use super::expressions::string_at;
use super::components::{moved, stuck};

verus! {

broadcast use vstd::string::group_string_axioms;

/// An enchantment of an item: its id, level and the id's span.
pub struct ItemEnchantment {
    pub enchantment_id: String,
    pub level: u32,
    pub span: Span,
}

/// An item stack definition.
pub struct ItemStackDecl {
    pub exported: bool,
    pub name: String,
    pub item_id: String,
    pub count: u32,
    pub custom_name: Option<String>,
    pub item_name: Option<String>,
    pub lore: Vec<String>,
    pub enchantments: Vec<ItemEnchantment>,
    pub stored_enchantments: Vec<ItemEnchantment>,
    pub damage: Option<u32>,
    pub max_damage: Option<u32>,
    pub max_stack_size: Option<u32>,
    pub rarity: Option<ItemRarity>,
    pub item_model: Option<String>,
    pub dyed_color: Option<u32>,
    pub enchantment_glint_override: Option<bool>,
    pub unbreakable: bool,
    pub span: Span,
}

/// The properties of an item as the contracts speak of them, with whether
/// `count` and `unbreakable` were declared.
pub struct ItemView {
    pub count: u32,
    pub has_count: bool,
    pub custom_name: Option<Seq<char>>,
    pub item_name: Option<Seq<char>>,
    pub lore: Seq<Seq<char>>,
    pub enchantments: Seq<(Seq<char>, u32, Span)>,
    pub stored_enchantments: Seq<(Seq<char>, u32, Span)>,
    pub damage: Option<u32>,
    pub max_damage: Option<u32>,
    pub max_stack_size: Option<u32>,
    pub rarity: Option<ItemRarity>,
    pub item_model: Option<Seq<char>>,
    pub dyed_color: Option<u32>,
    pub enchantment_glint_override: Option<bool>,
    pub unbreakable: bool,
    pub has_unbreakable: bool,
}

/// Nothing declared: one item, breakable.
pub open spec fn initial_item() -> ItemView {
    ItemView {
        count: 1,
        has_count: false,
        custom_name: None,
        item_name: None,
        lore: seq![],
        enchantments: seq![],
        stored_enchantments: seq![],
        damage: None,
        max_damage: None,
        max_stack_size: None,
        rarity: None,
        item_model: None,
        dyed_color: None,
        enchantment_glint_override: None,
        unbreakable: false,
        has_unbreakable: false,
    }
}

pub open spec fn text_opt(o: Option<String>) -> Option<Seq<char>> {
    match o {
        Some(s) => Some(s@),
        None => None,
    }
}

pub open spec fn texts(v: Seq<String>) -> Seq<Seq<char>> {
    v.map_values(|s: String| s@)
}

pub open spec fn enchantments_view(v: Seq<ItemEnchantment>) -> Seq<(Seq<char>, u32, Span)> {
    v.map_values(|e: ItemEnchantment| (e.enchantment_id@, e.level, e.span))
}

/// `= n;` after a property word at `c`.
pub open spec fn number_value(t: Seq<Token>, c: int, label: Seq<char>, equal: Seq<char>, semicolon: Seq<char>) -> Result<
    u32,
    (Seq<char>, Span),
> {
    if !kind_at(t, c + 1, TokenKind::Equal) {
        Err((equal, t[c + 1].span))
    } else {
        match unsigned_spec(t, c + 2, label) {
            Err(e) => Err(e),
            Ok((n, _)) => if !kind_at(t, c + 3, TokenKind::Semicolon) {
                Err((semicolon, t[c + 3].span))
            } else {
                Ok(n)
            },
        }
    }
}

/// `= "text";` after a property word at `c`.
pub open spec fn text_value(t: Seq<Token>, c: int, equal: Seq<char>, needed: Seq<char>, semicolon: Seq<char>) -> Result<
    Seq<char>,
    (Seq<char>, Span),
> {
    if !kind_at(t, c + 1, TokenKind::Equal) {
        Err((equal, t[c + 1].span))
    } else {
        match string_at(t, c + 2, needed) {
            Err(e) => Err(e),
            Ok((s, _)) => if !kind_at(t, c + 3, TokenKind::Semicolon) {
                Err((semicolon, t[c + 3].span))
            } else {
                Ok(s)
            },
        }
    }
}

/// `= true;` or `= false;` after a property word at `c`.
pub open spec fn flag_value(t: Seq<Token>, c: int, equal: Seq<char>, semicolon: Seq<char>) -> Result<
    bool,
    (Seq<char>, Span),
> {
    if !kind_at(t, c + 1, TokenKind::Equal) {
        Err((equal, t[c + 1].span))
    } else {
        match ident_at(t, c + 2, "true 或 false"@) {
            Err(e) => Err(e),
            Ok((v, span)) => match boolean_word_spec(v) {
                None => Err(("这里需要 true 或 false"@, span)),
                Some(w) => if !kind_at(t, c + 3, TokenKind::Semicolon) {
                    Err((semicolon, t[c + 3].span))
                } else {
                    Ok(w == "true"@)
                },
            },
        }
    }
}


/// The property `k` (spelled `p`) whose word stands at `c` (spanning
/// `ps`), added to `s`: the properties and the position after its `;`.
/// The property words `components` and `custom_data` name no property an
/// item definition reads, and are reported as unknown.
pub open spec fn item_step_spec(t: Seq<Token>, c: int, p: Seq<char>, k: Seq<char>, ps: Span, s: ItemView) -> Result<
    (ItemView, int),
    (Seq<char>, Span),
> {
    if k == "count"@ {
        if s.has_count {
            Err(("物品数量只能声明一次"@, ps))
        } else {
            match number_value(t, c, "物品数量"@, "count 后需要 `=`"@, "物品数量后需要 `;`"@) {
                Err(e) => Err(e),
                Ok(n) => Ok((ItemView { count: n, has_count: true, ..s }, c + 4)),
            }
        }
    } else if k == "custom_name"@ {
        if s.custom_name is Some {
            Err(("物品自定义名称只能声明一次"@, ps))
        } else {
            match text_value(t, c, "custom_name 后需要 `=`"@, "custom_name 需要文本字符串"@, "物品自定义名称后需要 `;`"@) {
                Err(e) => Err(e),
                Ok(v) => Ok((ItemView { custom_name: Some(v), ..s }, c + 4)),
            }
        }
    } else if k == "item_name"@ {
        if s.item_name is Some {
            Err(("物品名称只能声明一次"@, ps))
        } else {
            match text_value(t, c, "item_name 后需要 `=`"@, "item_name 需要文本字符串"@, "物品名称后需要 `;`"@) {
                Err(e) => Err(e),
                Ok(v) => Ok((ItemView { item_name: Some(v), ..s }, c + 4)),
            }
        }
    } else if k == "rarity"@ {
        if s.rarity is Some {
            Err(("物品稀有度只能声明一次"@, ps))
        } else if !kind_at(t, c + 1, TokenKind::Equal) {
            Err(("rarity 后需要 `=`"@, t[c + 1].span))
        } else {
            match ident_at(t, c + 2, "稀有度名称"@) {
                Err(e) => Err(e),
                Ok((v, span)) => match rarity_value_spec(v) {
                    None => Err(("稀有度只能是 common、uncommon、rare 或 epic"@, span)),
                    Some(r) => if !kind_at(t, c + 3, TokenKind::Semicolon) {
                        Err(("稀有度后需要 `;`"@, t[c + 3].span))
                    } else {
                        Ok((ItemView { rarity: Some(r), ..s }, c + 4))
                    },
                },
            }
        }
    } else if k == "item_model"@ {
        if s.item_model is Some {
            Err(("物品模型只能声明一次"@, ps))
        } else {
            match text_value(t, c, "item_model 后需要 `=`"@, "item_model 需要物品模型资源位置"@, "物品模型后需要 `;`"@) {
                Err(e) => Err(e),
                Ok(v) => Ok((ItemView { item_model: Some(v), ..s }, c + 4)),
            }
        }
    } else if k == "lore"@ {
        if !kind_at(t, c + 1, TokenKind::LeftParen) {
            Err(("lore 后需要 `(`"@, t[c + 1].span))
        } else {
            match string_at(t, c + 2, "lore 需要文本字符串"@) {
                Err(e) => Err(e),
                Ok((v, _)) => if !kind_at(t, c + 3, TokenKind::RightParen) {
                    Err(("lore 文本后需要 `)`"@, t[c + 3].span))
                } else if !kind_at(t, c + 4, TokenKind::Semicolon) {
                    Err(("lore 后需要 `;`"@, t[c + 4].span))
                } else {
                    Ok((ItemView { lore: s.lore.push(v), ..s }, c + 5))
                },
            }
        }
    } else if k == "enchantment"@ || k == "stored_enchantment"@ {
        if !kind_at(t, c + 1, TokenKind::LeftParen) {
            Err(("enchantment 后需要 `(`"@, t[c + 1].span))
        } else {
            match string_at(t, c + 2, "enchantment 需要附魔资源位置"@) {
                Err(e) => Err(e),
                Ok((id, span)) => if !kind_at(t, c + 3, TokenKind::Comma) {
                    Err(("附魔资源位置后需要 `,`"@, t[c + 3].span))
                } else {
                    match unsigned_spec(t, c + 4, "附魔等级"@) {
                        Err(e) => Err(e),
                        Ok((level, _)) => if !kind_at(t, c + 5, TokenKind::RightParen) {
                            Err(("附魔等级后需要 `)`"@, t[c + 5].span))
                        } else if !kind_at(t, c + 6, TokenKind::Semicolon) {
                            Err(("enchantment 后需要 `;`"@, t[c + 6].span))
                        } else if k == "enchantment"@ {
                            Ok((ItemView { enchantments: s.enchantments.push((id, level, span)), ..s }, c + 7))
                        } else {
                            Ok(
                                (
                                    ItemView { stored_enchantments: s.stored_enchantments.push((id, level, span)), ..s },
                                    c + 7,
                                ),
                            )
                        },
                    }
                }
            }
        }
    } else if k == "damage"@ {
        if s.damage is Some {
            Err(("物品损伤值只能声明一次"@, ps))
        } else {
            match number_value(t, c, "物品损伤值"@, "damage 后需要 `=`"@, "物品损伤值后需要 `;`"@) {
                Err(e) => Err(e),
                Ok(n) => Ok((ItemView { damage: Some(n), ..s }, c + 4)),
            }
        }
    } else if k == "max_damage"@ {
        if s.max_damage is Some {
            Err(("物品最大损伤值只能声明一次"@, ps))
        } else {
            match number_value(t, c, "物品最大损伤值"@, "max_damage 后需要 `=`"@, "物品最大损伤值后需要 `;`"@) {
                Err(e) => Err(e),
                Ok(n) => Ok((ItemView { max_damage: Some(n), ..s }, c + 4)),
            }
        }
    } else if k == "max_stack_size"@ {
        if s.max_stack_size is Some {
            Err(("物品最大堆叠数只能声明一次"@, ps))
        } else {
            match number_value(t, c, "物品最大堆叠数"@, "max_stack_size 后需要 `=`"@, "物品最大堆叠数后需要 `;`"@) {
                Err(e) => Err(e),
                Ok(n) => Ok((ItemView { max_stack_size: Some(n), ..s }, c + 4)),
            }
        }
    } else if k == "dyed_color"@ {
        if s.dyed_color is Some {
            Err(("物品染色只能声明一次"@, ps))
        } else {
            match number_value(t, c, "物品染色 RGB 值"@, "dyed_color 后需要 `=`"@, "物品染色后需要 `;`"@) {
                Err(e) => Err(e),
                Ok(n) => Ok((ItemView { dyed_color: Some(n), ..s }, c + 4)),
            }
        }
    } else if k == "enchantment_glint_override"@ {
        if s.enchantment_glint_override is Some {
            Err(("附魔光效覆盖只能声明一次"@, ps))
        } else {
            match flag_value(t, c, "enchantment_glint_override 后需要 `=`"@, "附魔光效覆盖后需要 `;`"@) {
                Err(e) => Err(e),
                Ok(b) => Ok((ItemView { enchantment_glint_override: Some(b), ..s }, c + 4)),
            }
        }
    } else if k == "unbreakable"@ {
        if s.has_unbreakable {
            Err(("unbreakable 只能声明一次"@, ps))
        } else {
            match flag_value(t, c, "unbreakable 后需要 `=`"@, "unbreakable 后需要 `;`"@) {
                Err(e) => Err(e),
                Ok(b) => Ok((ItemView { unbreakable: b, has_unbreakable: true, ..s }, c + 4)),
            }
        }
    } else {
        Err(("未知物品定义属性 `"@ + p + "`"@, ps))
    }
}

/// The properties of an item definition from `c` on, after `s`: the
/// properties and the position of the closing `}`.
pub open spec fn item_body_spec(t: Seq<Token>, c: int, s: ItemView) -> Result<(ItemView, int), (Seq<char>, Span)>
    decreases t.len() - c,
{
    if !stream_ok(t, c) {
        Err(stuck())
    } else if kind_at(t, c, TokenKind::RightBrace) {
        Ok((s, c))
    } else if t[c].kind is Eof {
        Err(("物品定义缺少 `}`"@, t[c].span))
    } else {
        match ident_at(t, c, "物品定义属性"@) {
            Err(e) => Err(e),
            Ok((property, ps)) => match item_stack_property_spec(property) {
                None => Err(("未知物品定义属性 `"@ + property + "`"@, ps)),
                Some(k) => match item_step_spec(t, c, property, k, ps, s) {
                    Err(e) => Err(e),
                    Ok((s2, next)) => if !moved(t, c, next) {
                        Err(stuck())
                    } else {
                        item_body_spec(t, next, s2)
                    },
                },
            },
        }
    }
}

/// An item definition at `c`: its name, item id, properties, span, and
/// the position after it (past an optional `;`).
pub open spec fn item_stack_spec(t: Seq<Token>, c: int) -> Result<
    (Seq<char>, Seq<char>, ItemView, Span, int),
    (Seq<char>, Span),
> {
    if !word_at(t, c, "item"@) {
        Err((expected_word_message("item"@), t[c].span))
    } else {
        match ident_at(t, c + 1, "物品定义名称"@) {
            Err(e) => Err(e),
            Ok((name, _)) => if !kind_at(t, c + 2, TokenKind::Equal) {
                Err(("物品定义名称后需要 `=`"@, t[c + 2].span))
            } else if !word_at(t, c + 3, "item_stack"@) {
                Err((expected_word_message("item_stack"@), t[c + 3].span))
            } else if !kind_at(t, c + 4, TokenKind::LeftParen) {
                Err(("item_stack 后需要 `(`"@, t[c + 4].span))
            } else {
                match string_at(t, c + 5, "item_stack 需要物品资源位置"@) {
                    Err(e) => Err(e),
                    Ok((item_id, _)) => if !kind_at(t, c + 6, TokenKind::RightParen) {
                        Err(("物品资源位置后需要 `)`"@, t[c + 6].span))
                    } else if !kind_at(t, c + 7, TokenKind::LeftBrace) {
                        Err(("物品定义需要 `{`"@, t[c + 7].span))
                    } else {
                        match item_body_spec(t, c + 8, initial_item()) {
                            Err(e) => Err(e),
                            Ok((s, end)) => Ok(
                                (
                                    name,
                                    item_id,
                                    s,
                                    merged(t[c].span, t[end].span),
                                    if kind_at(t, end + 1, TokenKind::Semicolon) {
                                        end + 2
                                    } else {
                                        end + 1
                                    },
                                ),
                            ),
                        }
                    },
                }
            },
        }
    }
}

/// `d` holds the properties `s`.
pub open spec fn item_matches(d: ItemStackDecl, s: ItemView) -> bool {
    &&& d.count == s.count
    &&& text_opt(d.custom_name) == s.custom_name
    &&& text_opt(d.item_name) == s.item_name
    &&& texts(d.lore@) == s.lore
    &&& enchantments_view(d.enchantments@) == s.enchantments
    &&& enchantments_view(d.stored_enchantments@) == s.stored_enchantments
    &&& d.damage == s.damage
    &&& d.max_damage == s.max_damage
    &&& d.max_stack_size == s.max_stack_size
    &&& d.rarity == s.rarity
    &&& text_opt(d.item_model) == s.item_model
    &&& d.dyed_color == s.dyed_color
    &&& d.enchantment_glint_override == s.enchantment_glint_override
    &&& d.unbreakable == s.unbreakable
}

struct ItemFields {
    count: u32,
    has_count: bool,
    custom_name: Option<String>,
    item_name: Option<String>,
    lore: Vec<String>,
    enchantments: Vec<ItemEnchantment>,
    stored_enchantments: Vec<ItemEnchantment>,
    damage: Option<u32>,
    max_damage: Option<u32>,
    max_stack_size: Option<u32>,
    rarity: Option<ItemRarity>,
    item_model: Option<String>,
    dyed_color: Option<u32>,
    enchantment_glint_override: Option<bool>,
    unbreakable: bool,
    has_unbreakable: bool,
}

spec fn fields_view(f: ItemFields) -> ItemView {
    ItemView {
        count: f.count,
        has_count: f.has_count,
        custom_name: text_opt(f.custom_name),
        item_name: text_opt(f.item_name),
        lore: texts(f.lore@),
        enchantments: enchantments_view(f.enchantments@),
        stored_enchantments: enchantments_view(f.stored_enchantments@),
        damage: f.damage,
        max_damage: f.max_damage,
        max_stack_size: f.max_stack_size,
        rarity: f.rarity,
        item_model: text_opt(f.item_model),
        dyed_color: f.dyed_color,
        enchantment_glint_override: f.enchantment_glint_override,
        unbreakable: f.unbreakable,
        has_unbreakable: f.has_unbreakable,
    }
}

/// An item body that parses ends at a `}`.
proof fn lemma_item_body_end(t: Seq<Token>, c: int, s: ItemView)
    requires
        item_body_spec(t, c, s) is Ok,
    ensures
        ({
            let end = match item_body_spec(t, c, s) {
                Ok((_, end)) => end,
                Err(_) => 0,
            };
            stream_ok(t, end) && kind_at(t, end, TokenKind::RightBrace)
        }),
    decreases t.len() - c,
{
    if stream_ok(t, c) && !kind_at(t, c, TokenKind::RightBrace) && !(t[c].kind is Eof) {
        if let Ok((property, ps)) = ident_at(t, c, "物品定义属性"@) {
            if let Some(k) = item_stack_property_spec(property) {
                if let Ok((s2, next)) = item_step_spec(t, c, property, k, ps, s) {
                    if moved(t, c, next) {
                        lemma_item_body_end(t, next, s2);
                    }
                }
            }
        }
    }
}

impl Parser {
    /// `= n;` after the word of a numeric property.
    fn item_number(&mut self, label: &str, equal: &str, semicolon: &str) -> (r: Result<u32, Diagnostic>)
        requires
            old(self).wf(),
            old(self).cursor > 0,
            !(old(self).tokens@[old(self).cursor - 1].kind is Eof),
        ensures
            final(self).wf(),
            final(self).tokens@ == old(self).tokens@,
            macro_state(&*final(self)) == macro_state(&*old(self)),
            match (r, number_value(old(self).tokens@, old(self).cursor - 1, label@, equal@, semicolon@)) {
                (Ok(n), Ok(m)) => n == m && final(self).cursor == old(self).cursor + 3,
                (Err(d), Err(e)) => diag(d) == e,
                _ => false,
            },
    {
        let ghost t = self.tokens@;
        let ghost c = self.cursor - 1;
        match self.expect(TokenKind::Equal, equal) {
            Ok(_) => {},
            Err(d) => return Err(d),
        }
        proof {
            lemma_not_last(t, c + 1);
        }
        let n = match self.unsigned(label) {
            Ok(n) => n,
            Err(d) => return Err(d),
        };
        proof {
            lemma_not_last(t, c + 2);
        }
        match self.expect(TokenKind::Semicolon, semicolon) {
            Ok(_) => {},
            Err(d) => return Err(d),
        }
        proof {
            lemma_not_last(t, c + 3);
        }
        Ok(n)
    }

    /// `= "text";` after the word of a text property.
    fn item_text(&mut self, equal: &str, needed: &str, semicolon: &str) -> (r: Result<String, Diagnostic>)
        requires
            old(self).wf(),
            old(self).cursor > 0,
            !(old(self).tokens@[old(self).cursor - 1].kind is Eof),
        ensures
            final(self).wf(),
            final(self).tokens@ == old(self).tokens@,
            macro_state(&*final(self)) == macro_state(&*old(self)),
            match (r, text_value(old(self).tokens@, old(self).cursor - 1, equal@, needed@, semicolon@)) {
                (Ok(v), Ok(s)) => v@ == s && final(self).cursor == old(self).cursor + 3,
                (Err(d), Err(e)) => diag(d) == e,
                _ => false,
            },
    {
        let ghost t = self.tokens@;
        let ghost c = self.cursor - 1;
        match self.expect(TokenKind::Equal, equal) {
            Ok(_) => {},
            Err(d) => return Err(d),
        }
        proof {
            lemma_not_last(t, c + 1);
        }
        let (value, _) = match self.string(needed) {
            Ok(found) => found,
            Err(d) => return Err(d),
        };
        proof {
            lemma_not_last(t, c + 2);
        }
        match self.expect(TokenKind::Semicolon, semicolon) {
            Ok(_) => {},
            Err(d) => return Err(d),
        }
        proof {
            lemma_not_last(t, c + 3);
        }
        Ok(value)
    }

    /// `= true;` or `= false;` after the word of a flag property.
    fn item_flag(&mut self, equal: &str, semicolon: &str) -> (r: Result<bool, Diagnostic>)
        requires
            old(self).wf(),
            old(self).cursor > 0,
            !(old(self).tokens@[old(self).cursor - 1].kind is Eof),
        ensures
            final(self).wf(),
            final(self).tokens@ == old(self).tokens@,
            macro_state(&*final(self)) == macro_state(&*old(self)),
            match (r, flag_value(old(self).tokens@, old(self).cursor - 1, equal@, semicolon@)) {
                (Ok(b), Ok(s)) => b == s && final(self).cursor == old(self).cursor + 3,
                (Err(d), Err(e)) => diag(d) == e,
                _ => false,
            },
    {
        let ghost t = self.tokens@;
        let ghost c = self.cursor - 1;
        match self.expect(TokenKind::Equal, equal) {
            Ok(_) => {},
            Err(d) => return Err(d),
        }
        proof {
            lemma_not_last(t, c + 1);
        }
        let (value, span) = match self.ident("true 或 false") {
            Ok(found) => found,
            Err(d) => return Err(d),
        };
        proof {
            lemma_not_last(t, c + 2);
        }
        let flag = match boolean_word(value.as_str()) {
            Some(w) => str_eq(w, "true"),
            None => return Err(Diagnostic { message: "这里需要 true 或 false".to_owned(), span }),
        };
        match self.expect(TokenKind::Semicolon, semicolon) {
            Ok(_) => {},
            Err(d) => return Err(d),
        }
        proof {
            lemma_not_last(t, c + 3);
        }
        Ok(flag)
    }

    /// `(…);` of `lore` or an enchantment, after the property word.
    fn item_listed(&mut self, property: &str, kind: &str, property_span: Span, fields: ItemFields) -> (r: Result<ItemFields, Diagnostic>)
        requires
            old(self).wf(),
            old(self).cursor > 0,
            !(old(self).tokens@[old(self).cursor - 1].kind is Eof),
            kind@ == "lore"@ || kind@ == "enchantment"@ || kind@ == "stored_enchantment"@,
            kind@ != "count"@ && kind@ != "custom_name"@ && kind@ != "item_name"@ && kind@ != "rarity"@ && kind@
                != "item_model"@,
        ensures
            final(self).wf(),
            final(self).tokens@ == old(self).tokens@,
            macro_state(&*final(self)) == macro_state(&*old(self)),
            match (r, item_step_spec(old(self).tokens@, old(self).cursor - 1, property@, kind@, property_span, fields_view(fields))) {
                (Ok(f), Ok((s, next))) => fields_view(f) == s && final(self).cursor == next && next > old(self).cursor,
                (Err(d), Err(e)) => diag(d) == e,
                _ => false,
            },
    {
        let ghost t = self.tokens@;
        let ghost c = self.cursor - 1;
        let mut fields = fields;
        let is_lore = str_eq(kind, "lore");
        let open_message = if is_lore {
            "lore 后需要 `(`"
        } else {
            "enchantment 后需要 `(`"
        };
        match self.expect(TokenKind::LeftParen, open_message) {
            Ok(_) => {},
            Err(d) => return Err(d),
        }
        proof {
            lemma_not_last(t, c + 1);
        }
        if is_lore {
            let (value, _) = match self.string("lore 需要文本字符串") {
                Ok(found) => found,
                Err(d) => return Err(d),
            };
            proof {
                lemma_not_last(t, c + 2);
            }
            match self.expect(TokenKind::RightParen, "lore 文本后需要 `)`") {
                Ok(_) => {},
                Err(d) => return Err(d),
            }
            proof {
                lemma_not_last(t, c + 3);
            }
            match self.expect(TokenKind::Semicolon, "lore 后需要 `;`") {
                Ok(_) => {},
                Err(d) => return Err(d),
            }
            proof {
                lemma_not_last(t, c + 4);
            }
            let ghost before = texts(fields.lore@);
            let ghost v = value@;
            fields.lore.push(value);
            assert(texts(fields.lore@) =~= before.push(v));
            return Ok(fields);
        }
        let (enchantment_id, span) = match self.string("enchantment 需要附魔资源位置") {
            Ok(found) => found,
            Err(d) => return Err(d),
        };
        proof {
            lemma_not_last(t, c + 2);
        }
        match self.expect(TokenKind::Comma, "附魔资源位置后需要 `,`") {
            Ok(_) => {},
            Err(d) => return Err(d),
        }
        proof {
            lemma_not_last(t, c + 3);
        }
        let level = match self.unsigned("附魔等级") {
            Ok(n) => n,
            Err(d) => return Err(d),
        };
        proof {
            lemma_not_last(t, c + 4);
        }
        match self.expect(TokenKind::RightParen, "附魔等级后需要 `)`") {
            Ok(_) => {},
            Err(d) => return Err(d),
        }
        proof {
            lemma_not_last(t, c + 5);
        }
        match self.expect(TokenKind::Semicolon, "enchantment 后需要 `;`") {
            Ok(_) => {},
            Err(d) => return Err(d),
        }
        proof {
            lemma_not_last(t, c + 6);
        }
        let ghost entry = (enchantment_id@, level, span);
        let enchantment = ItemEnchantment { enchantment_id, level, span };
        if str_eq(kind, "enchantment") {
            let ghost before = enchantments_view(fields.enchantments@);
            fields.enchantments.push(enchantment);
            assert(enchantments_view(fields.enchantments@) =~= before.push(entry));
        } else {
            let ghost before = enchantments_view(fields.stored_enchantments@);
            fields.stored_enchantments.push(enchantment);
            assert(enchantments_view(fields.stored_enchantments@) =~= before.push(entry));
        }
        Ok(fields)
    }

    /// The property `kind` after its word (spanning `property_span`),
    /// through its `;`.
    #[verifier::rlimit(80)]
    fn item_property_value(&mut self, property: &str, kind: &str, property_span: Span, fields: ItemFields) -> (r: Result<
        ItemFields,
        Diagnostic,
    >)
        requires
            old(self).wf(),
            old(self).cursor > 0,
            !(old(self).tokens@[old(self).cursor - 1].kind is Eof),
        ensures
            final(self).wf(),
            final(self).tokens@ == old(self).tokens@,
            macro_state(&*final(self)) == macro_state(&*old(self)),
            match (r, item_step_spec(old(self).tokens@, old(self).cursor - 1, property@, kind@, property_span, fields_view(fields))) {
                (Ok(f), Ok((s, next))) => fields_view(f) == s && final(self).cursor == next && next > old(self).cursor,
                (Err(d), Err(e)) => diag(d) == e,
                _ => false,
            },
    {
        let mut fields = fields;
        if str_eq(kind, "count") {
            if fields.has_count {
                return Err(Diagnostic { message: "物品数量只能声明一次".to_owned(), span: property_span });
            }
            fields.has_count = true;
            fields.count = match self.item_number("物品数量", "count 后需要 `=`", "物品数量后需要 `;`") {
                Ok(n) => n,
                Err(d) => return Err(d),
            };
            return Ok(fields);
        }
        if str_eq(kind, "custom_name") {
            if fields.custom_name.is_some() {
                return Err(Diagnostic { message: "物品自定义名称只能声明一次".to_owned(), span: property_span });
            }
            let value = match self.item_text("custom_name 后需要 `=`", "custom_name 需要文本字符串", "物品自定义名称后需要 `;`") {
                Ok(v) => v,
                Err(d) => return Err(d),
            };
            fields.custom_name = Some(value);
            return Ok(fields);
        }
        if str_eq(kind, "item_name") {
            if fields.item_name.is_some() {
                return Err(Diagnostic { message: "物品名称只能声明一次".to_owned(), span: property_span });
            }
            let value = match self.item_text("item_name 后需要 `=`", "item_name 需要文本字符串", "物品名称后需要 `;`") {
                Ok(v) => v,
                Err(d) => return Err(d),
            };
            fields.item_name = Some(value);
            return Ok(fields);
        }
        if str_eq(kind, "rarity") {
            if fields.rarity.is_some() {
                return Err(Diagnostic { message: "物品稀有度只能声明一次".to_owned(), span: property_span });
            }
            let ghost t = self.tokens@;
            let ghost c = self.cursor - 1;
            match self.expect(TokenKind::Equal, "rarity 后需要 `=`") {
                Ok(_) => {},
                Err(d) => return Err(d),
            }
            proof {
                lemma_not_last(t, c + 1);
            }
            let (value, span) = match self.ident("稀有度名称") {
                Ok(found) => found,
                Err(d) => return Err(d),
            };
            proof {
                lemma_not_last(t, c + 2);
            }
            let rarity = match rarity_value(value.as_str()) {
                Some(r) => r,
                None => return Err(
                    Diagnostic { message: "稀有度只能是 common、uncommon、rare 或 epic".to_owned(), span },
                ),
            };
            match self.expect(TokenKind::Semicolon, "稀有度后需要 `;`") {
                Ok(_) => {},
                Err(d) => return Err(d),
            }
            proof {
                lemma_not_last(t, c + 3);
            }
            fields.rarity = Some(rarity);
            return Ok(fields);
        }
        if str_eq(kind, "item_model") {
            if fields.item_model.is_some() {
                return Err(Diagnostic { message: "物品模型只能声明一次".to_owned(), span: property_span });
            }
            let value = match self.item_text("item_model 后需要 `=`", "item_model 需要物品模型资源位置", "物品模型后需要 `;`") {
                Ok(v) => v,
                Err(d) => return Err(d),
            };
            fields.item_model = Some(value);
            return Ok(fields);
        }
        if str_eq(kind, "lore") || str_eq(kind, "enchantment") || str_eq(kind, "stored_enchantment") {
            return self.item_listed(property, kind, property_span, fields);
        }
        if str_eq(kind, "damage") {
            if fields.damage.is_some() {
                return Err(Diagnostic { message: "物品损伤值只能声明一次".to_owned(), span: property_span });
            }
            let n = match self.item_number("物品损伤值", "damage 后需要 `=`", "物品损伤值后需要 `;`") {
                Ok(n) => n,
                Err(d) => return Err(d),
            };
            fields.damage = Some(n);
            return Ok(fields);
        }
        if str_eq(kind, "max_damage") {
            if fields.max_damage.is_some() {
                return Err(Diagnostic { message: "物品最大损伤值只能声明一次".to_owned(), span: property_span });
            }
            let n = match self.item_number("物品最大损伤值", "max_damage 后需要 `=`", "物品最大损伤值后需要 `;`") {
                Ok(n) => n,
                Err(d) => return Err(d),
            };
            fields.max_damage = Some(n);
            return Ok(fields);
        }
        if str_eq(kind, "max_stack_size") {
            if fields.max_stack_size.is_some() {
                return Err(Diagnostic { message: "物品最大堆叠数只能声明一次".to_owned(), span: property_span });
            }
            let n = match self.item_number("物品最大堆叠数", "max_stack_size 后需要 `=`", "物品最大堆叠数后需要 `;`") {
                Ok(n) => n,
                Err(d) => return Err(d),
            };
            fields.max_stack_size = Some(n);
            return Ok(fields);
        }
        if str_eq(kind, "dyed_color") {
            if fields.dyed_color.is_some() {
                return Err(Diagnostic { message: "物品染色只能声明一次".to_owned(), span: property_span });
            }
            let n = match self.item_number("物品染色 RGB 值", "dyed_color 后需要 `=`", "物品染色后需要 `;`") {
                Ok(n) => n,
                Err(d) => return Err(d),
            };
            fields.dyed_color = Some(n);
            return Ok(fields);
        }
        if str_eq(kind, "enchantment_glint_override") {
            if fields.enchantment_glint_override.is_some() {
                return Err(Diagnostic { message: "附魔光效覆盖只能声明一次".to_owned(), span: property_span });
            }
            let b = match self.item_flag("enchantment_glint_override 后需要 `=`", "附魔光效覆盖后需要 `;`") {
                Ok(b) => b,
                Err(d) => return Err(d),
            };
            fields.enchantment_glint_override = Some(b);
            return Ok(fields);
        }
        if !str_eq(kind, "unbreakable") {
            let mut m = "未知物品定义属性 `".to_owned();
            m.append(property);
            m.append("`");
            return Err(Diagnostic { message: m, span: property_span });
        }
        if fields.has_unbreakable {
            return Err(Diagnostic { message: "unbreakable 只能声明一次".to_owned(), span: property_span });
        }
        fields.has_unbreakable = true;
        fields.unbreakable = match self.item_flag("unbreakable 后需要 `=`", "unbreakable 后需要 `;`") {
            Ok(b) => b,
            Err(d) => return Err(d),
        };
        Ok(fields)
    }

    /// The properties of an item definition after its `{`, up to its `}`
    /// (not consumed).
    fn item_body(&mut self, fields: ItemFields) -> (r: Result<ItemFields, Diagnostic>)
        requires
            old(self).wf(),
        ensures
            final(self).wf(),
            final(self).tokens@ == old(self).tokens@,
            macro_state(&*final(self)) == macro_state(&*old(self)),
            match (r, item_body_spec(old(self).tokens@, old(self).cursor as int, fields_view(fields))) {
                (Ok(f), Ok((s, end))) => fields_view(f) == s && final(self).cursor == end,
                (Err(d), Err(e)) => diag(d) == e,
                _ => false,
            },
        decreases old(self).tokens@.len() - old(self).cursor,
    {
        let ghost t = self.tokens@;
        let ghost c = self.cursor as int;
        if self.check(&TokenKind::RightBrace) {
            return Ok(fields);
        }
        if self.check(&TokenKind::Eof) {
            return Err(Diagnostic { message: "物品定义缺少 `}`".to_owned(), span: self.tokens[self.cursor].span });
        }
        let (property, span) = match self.ident("物品定义属性") {
            Ok(found) => found,
            Err(d) => return Err(d),
        };
        proof {
            lemma_not_last(t, c);
        }
        let kind = match item_stack_property(property.as_str()) {
            Some(k) => k,
            None => {
                let mut m = "未知物品定义属性 `".to_owned();
                m.append(property.as_str());
                m.append("`");
                return Err(Diagnostic { message: m, span });
            },
        };
        let fields = match self.item_property_value(property.as_str(), kind, span, fields) {
            Ok(f) => f,
            Err(d) => return Err(d),
        };
        self.item_body(fields)
    }

    /// An item definition `item 名称 = item_stack("…") { … }`; a `;` after
    /// its `}` is allowed.
    pub fn item_stack(&mut self) -> (r: Result<ItemStackDecl, Diagnostic>)
        requires
            old(self).wf(),
        ensures
            final(self).wf(),
            final(self).tokens@ == old(self).tokens@,
            macro_state(&*final(self)) == macro_state(&*old(self)),
            match (r, item_stack_spec(old(self).tokens@, old(self).cursor as int)) {
                (Ok(d), Ok((name, item_id, s, span, after))) => !d.exported && d.name@ == name && d.item_id@
                    == item_id && item_matches(d, s) && d.span == span && final(self).cursor == after,
                (Err(d), Err(e)) => diag(d) == e,
                _ => false,
            },
    {
        let ghost t = self.tokens@;
        let ghost c = self.cursor as int;
        let start = match self.expect_word("item") {
            Ok(token) => token.span,
            Err(d) => return Err(d),
        };
        proof {
            lemma_not_last(t, c);
        }
        let (name, _) = match self.ident("物品定义名称") {
            Ok(found) => found,
            Err(d) => return Err(d),
        };
        proof {
            lemma_not_last(t, c + 1);
        }
        match self.expect(TokenKind::Equal, "物品定义名称后需要 `=`") {
            Ok(_) => {},
            Err(d) => return Err(d),
        }
        proof {
            lemma_not_last(t, c + 2);
        }
        match self.expect_word("item_stack") {
            Ok(_) => {},
            Err(d) => return Err(d),
        }
        proof {
            lemma_not_last(t, c + 3);
        }
        match self.expect(TokenKind::LeftParen, "item_stack 后需要 `(`") {
            Ok(_) => {},
            Err(d) => return Err(d),
        }
        proof {
            lemma_not_last(t, c + 4);
        }
        let (item_id, _) = match self.string("item_stack 需要物品资源位置") {
            Ok(found) => found,
            Err(d) => return Err(d),
        };
        proof {
            lemma_not_last(t, c + 5);
        }
        match self.expect(TokenKind::RightParen, "物品资源位置后需要 `)`") {
            Ok(_) => {},
            Err(d) => return Err(d),
        }
        proof {
            lemma_not_last(t, c + 6);
        }
        match self.expect(TokenKind::LeftBrace, "物品定义需要 `{`") {
            Ok(_) => {},
            Err(d) => return Err(d),
        }
        proof {
            lemma_not_last(t, c + 7);
        }
        let initial = ItemFields {
            count: 1,
            has_count: false,
            custom_name: None,
            item_name: None,
            lore: Vec::new(),
            enchantments: Vec::new(),
            stored_enchantments: Vec::new(),
            damage: None,
            max_damage: None,
            max_stack_size: None,
            rarity: None,
            item_model: None,
            dyed_color: None,
            enchantment_glint_override: None,
            unbreakable: false,
            has_unbreakable: false,
        };
        assert(texts(initial.lore@) =~= Seq::<Seq<char>>::empty());
        assert(enchantments_view(initial.enchantments@) =~= Seq::<(Seq<char>, u32, Span)>::empty());
        assert(enchantments_view(initial.stored_enchantments@) =~= Seq::<(Seq<char>, u32, Span)>::empty());
        assert(fields_view(initial) == initial_item());
        let fields = match self.item_body(initial) {
            Ok(f) => f,
            Err(d) => return Err(d),
        };
        proof {
            lemma_item_body_end(t, c + 8, initial_item());
            lemma_not_last(t, self.cursor as int);
        }
        let end = self.advance().span;
        self.take(&TokenKind::Semicolon);
        Ok(
            ItemStackDecl {
                exported: false,
                name,
                item_id,
                count: fields.count,
                custom_name: fields.custom_name,
                item_name: fields.item_name,
                lore: fields.lore,
                enchantments: fields.enchantments,
                stored_enchantments: fields.stored_enchantments,
                damage: fields.damage,
                max_damage: fields.max_damage,
                max_stack_size: fields.max_stack_size,
                rarity: fields.rarity,
                item_model: fields.item_model,
                dyed_color: fields.dyed_color,
                enchantment_glint_override: fields.enchantment_glint_override,
                unbreakable: fields.unbreakable,
                span: start.merge(end),
            },
        )
    }
}

} // verus!
