//! What the words of `self` actions mean: each method word, in either
//! spelling, gives its own action on the arguments written after it.

use vstd::prelude::*;
use super::cursor::{Token, TokenKind, Span};
use super::statements::{SelfActionView, self_body_spec};
use crate::parser::keywords::actions::{self_method_spec, boolean_word_spec};
use crate::parser::keywords::spellings::{lemma_self_method_spellings, lemma_boolean_word_spellings};

verus! {

broadcast use vstd::string::group_string_axioms;

proof fn lemma_method_words()
    ensures
        "add_tag"@ != "remove_tag"@,
        "add_tag"@ != "set_invulnerable"@,
        "add_tag"@ != "set_no_gravity"@,
        "add_tag"@ != "save_items"@,
        "add_tag"@ != "restore_items"@,
        "add_tag"@ != "remove_preserving_items"@,
        "add_tag"@ != "give_item"@,
        "add_tag"@ != "clear_items"@,
        "add_tag"@ != "deposit"@,
        "add_tag"@ != "withdraw"@,
        "add_tag"@ != "remove_data"@,
        "add_tag"@ != "remove"@,
        "remove_tag"@ != "set_invulnerable"@,
        "remove_tag"@ != "set_no_gravity"@,
        "remove_tag"@ != "save_items"@,
        "remove_tag"@ != "restore_items"@,
        "remove_tag"@ != "remove_preserving_items"@,
        "remove_tag"@ != "give_item"@,
        "remove_tag"@ != "clear_items"@,
        "remove_tag"@ != "deposit"@,
        "remove_tag"@ != "withdraw"@,
        "remove_tag"@ != "remove_data"@,
        "remove_tag"@ != "remove"@,
        "set_invulnerable"@ != "set_no_gravity"@,
        "set_invulnerable"@ != "save_items"@,
        "set_invulnerable"@ != "restore_items"@,
        "set_invulnerable"@ != "remove_preserving_items"@,
        "set_invulnerable"@ != "give_item"@,
        "set_invulnerable"@ != "clear_items"@,
        "set_invulnerable"@ != "deposit"@,
        "set_invulnerable"@ != "withdraw"@,
        "set_invulnerable"@ != "remove_data"@,
        "set_invulnerable"@ != "remove"@,
        "set_no_gravity"@ != "save_items"@,
        "set_no_gravity"@ != "restore_items"@,
        "set_no_gravity"@ != "remove_preserving_items"@,
        "set_no_gravity"@ != "give_item"@,
        "set_no_gravity"@ != "clear_items"@,
        "set_no_gravity"@ != "deposit"@,
        "set_no_gravity"@ != "withdraw"@,
        "set_no_gravity"@ != "remove_data"@,
        "set_no_gravity"@ != "remove"@,
        "save_items"@ != "restore_items"@,
        "save_items"@ != "remove_preserving_items"@,
        "save_items"@ != "give_item"@,
        "save_items"@ != "clear_items"@,
        "save_items"@ != "deposit"@,
        "save_items"@ != "withdraw"@,
        "save_items"@ != "remove_data"@,
        "save_items"@ != "remove"@,
        "restore_items"@ != "remove_preserving_items"@,
        "restore_items"@ != "give_item"@,
        "restore_items"@ != "clear_items"@,
        "restore_items"@ != "deposit"@,
        "restore_items"@ != "withdraw"@,
        "restore_items"@ != "remove_data"@,
        "restore_items"@ != "remove"@,
        "remove_preserving_items"@ != "give_item"@,
        "remove_preserving_items"@ != "clear_items"@,
        "remove_preserving_items"@ != "deposit"@,
        "remove_preserving_items"@ != "withdraw"@,
        "remove_preserving_items"@ != "remove_data"@,
        "remove_preserving_items"@ != "remove"@,
        "give_item"@ != "clear_items"@,
        "give_item"@ != "deposit"@,
        "give_item"@ != "withdraw"@,
        "give_item"@ != "remove_data"@,
        "give_item"@ != "remove"@,
        "clear_items"@ != "deposit"@,
        "clear_items"@ != "withdraw"@,
        "clear_items"@ != "remove_data"@,
        "clear_items"@ != "remove"@,
        "deposit"@ != "withdraw"@,
        "deposit"@ != "remove_data"@,
        "deposit"@ != "remove"@,
        "withdraw"@ != "remove_data"@,
        "withdraw"@ != "remove"@,
        "remove_data"@ != "remove"@,
{
    reveal_strlit("add_tag");
    reveal_strlit("remove_tag");
    reveal_strlit("set_invulnerable");
    reveal_strlit("set_no_gravity");
    reveal_strlit("save_items");
    reveal_strlit("restore_items");
    reveal_strlit("remove_preserving_items");
    reveal_strlit("give_item");
    reveal_strlit("clear_items");
    reveal_strlit("deposit");
    reveal_strlit("withdraw");
    reveal_strlit("remove_data");
    reveal_strlit("remove");
    assert("add_tag"@.len() == 7 && "add_tag"@[0] == 'a');
    assert("remove_tag"@.len() == 10 && "remove_tag"@[0] == 'r');
    assert("set_invulnerable"@.len() == 16);
    assert("set_no_gravity"@.len() == 14);
    assert("save_items"@.len() == 10 && "save_items"@[0] == 's');
    assert("restore_items"@.len() == 13);
    assert("remove_preserving_items"@.len() == 23);
    assert("give_item"@.len() == 9);
    assert("clear_items"@.len() == 11 && "clear_items"@[0] == 'c');
    assert("deposit"@.len() == 7 && "deposit"@[0] == 'd');
    assert("withdraw"@.len() == 8);
    assert("remove_data"@.len() == 11 && "remove_data"@[0] == 'r');
    assert("remove"@.len() == 6);
}

/// `add_tag("x")` adds the tag `x` and `remove_tag("x")` removes it, in
/// either spelling of the method.
pub proof fn lemma_self_tag_words(t: Seq<Token>, p: int, m: Seq<char>, v: String)
    requires
        0 <= p < t.len(),
        (m == "add_tag"@ || m == "添加标签"@) || (m == "remove_tag"@ || m == "移除标签"@),
        t[p].kind == TokenKind::String(v),
    ensures
        (m == "add_tag"@ || m == "添加标签"@) ==> self_body_spec(t, p, self_method_spec(m)->0) == Ok::<(SelfActionView, int), (Seq<char>, Span)>((SelfActionView::AddTag(v@), p + 1)),
        (m == "remove_tag"@ || m == "移除标签"@) ==> self_body_spec(t, p, self_method_spec(m)->0) == Ok::<(SelfActionView, int), (Seq<char>, Span)>((SelfActionView::RemoveTag(v@), p + 1)),
{
    lemma_self_method_spellings(m);
    lemma_method_words();
}

/// `set_invulnerable(b)` and `set_no_gravity(b)` set their own flag to
/// whether `b` spells true.
pub proof fn lemma_self_flag_words(t: Seq<Token>, p: int, m: Seq<char>, b: String)
    requires
        0 <= p < t.len(),
        (m == "set_invulnerable"@ || m == "设置无敌"@) || (m == "set_no_gravity"@ || m == "设置无视重力"@),
        t[p].kind == TokenKind::Ident(b),
        boolean_word_spec(b@) is Some,
    ensures
        (m == "set_invulnerable"@ || m == "设置无敌"@) ==> self_body_spec(t, p, self_method_spec(m)->0) == Ok::<(SelfActionView, int), (Seq<char>, Span)>((SelfActionView::SetInvulnerable(b@ == "true"@ || b@ == "真"@), p + 1)),
        (m == "set_no_gravity"@ || m == "设置无视重力"@) ==> self_body_spec(t, p, self_method_spec(m)->0) == Ok::<(SelfActionView, int), (Seq<char>, Span)>((SelfActionView::SetNoGravity(b@ == "true"@ || b@ == "真"@), p + 1)),
{
    lemma_self_method_spellings(m);
    lemma_method_words();
    lemma_boolean_word_spellings(b@);
    reveal_strlit("true");
    reveal_strlit("false");
    assert("true"@.len() == 4 && "false"@.len() == 5);
}

/// `save_items(x)` saves into the store `x` and `restore_items(x)`
/// restores from it.
pub proof fn lemma_self_store_words(t: Seq<Token>, p: int, m: Seq<char>, x: String)
    requires
        0 <= p < t.len(),
        (m == "save_items"@ || m == "保存物品"@) || (m == "restore_items"@ || m == "恢复物品"@),
        t[p].kind == TokenKind::Ident(x),
    ensures
        (m == "save_items"@ || m == "保存物品"@) ==> self_body_spec(t, p, self_method_spec(m)->0) == Ok::<(SelfActionView, int), (Seq<char>, Span)>((SelfActionView::SaveItems(x@), p + 1)),
        (m == "restore_items"@ || m == "恢复物品"@) ==> self_body_spec(t, p, self_method_spec(m)->0) == Ok::<(SelfActionView, int), (Seq<char>, Span)>((SelfActionView::RestoreItems(x@), p + 1)),
{
    lemma_self_method_spellings(m);
    lemma_method_words();
}

/// `deposit(slot, query)` stores the slot of the query's entity into the
/// running entity's data, and `withdraw(slot, query)` loads it back.
pub proof fn lemma_self_data_words(t: Seq<Token>, p: int, m: Seq<char>, slot: String, query: String)
    requires
        0 <= p,
        p + 2 < t.len(),
        (m == "deposit"@ || m == "存入"@) || (m == "withdraw"@ || m == "取出"@),
        t[p].kind == TokenKind::Ident(slot),
        t[p + 1].kind is Comma,
        t[p + 2].kind == TokenKind::Ident(query),
    ensures
        (m == "deposit"@ || m == "存入"@) ==> self_body_spec(t, p, self_method_spec(m)->0) == Ok::<(SelfActionView, int), (Seq<char>, Span)>(
            (SelfActionView::DataStore(slot@, t[p].span, query@, t[p + 2].span), p + 3),
        ),
        (m == "withdraw"@ || m == "取出"@) ==> self_body_spec(t, p, self_method_spec(m)->0) == Ok::<(SelfActionView, int), (Seq<char>, Span)>(
            (SelfActionView::DataLoad(slot@, t[p].span, query@, t[p + 2].span), p + 3),
        ),
{
    lemma_self_method_spellings(m);
    lemma_method_words();
}

/// `clear_items()` clears the entity's items and `remove()` removes the
/// entity; neither reads an argument.
pub proof fn lemma_self_plain_words(t: Seq<Token>, p: int, m: Seq<char>)
    requires
        (m == "clear_items"@ || m == "清空物品"@) || (m == "remove"@ || m == "移除"@),
    ensures
        (m == "clear_items"@ || m == "清空物品"@) ==> self_body_spec(t, p, self_method_spec(m)->0) == Ok::<(SelfActionView, int), (Seq<char>, Span)>((SelfActionView::ClearItems, p)),
        (m == "remove"@ || m == "移除"@) ==> self_body_spec(t, p, self_method_spec(m)->0) == Ok::<(SelfActionView, int), (Seq<char>, Span)>((SelfActionView::Remove, p)),
{
    lemma_self_method_spellings(m);
    lemma_method_words();
}

} // verus!
