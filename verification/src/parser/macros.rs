//! Macro templates: the `$(name)` placeholders of a macro command line.

use vstd::prelude::*;
use crate::chars::{chars_of, find_from, find_from_spec, lemma_find_from, matches_at, string_of};
use crate::sorted::{string_views, lemma_string_views_push};
use crate::version::entity_nbt::scan::{identifier_char, is_identifier};

verus! {

broadcast use vstd::string::group_string_axioms;

/// Every character of a placeholder name is alphanumeric or `_`.
pub open spec fn placeholder_name(name: Seq<char>) -> bool {
    name.len() > 0 && forall|k: int| 0 <= k < name.len() ==> identifier_char(#[trigger] name[k])
}

/// The placeholder names of `t` from `i` on, left to right; or the message
/// for the first placeholder that is unclosed or badly named.
pub open spec fn uses_from(t: Seq<char>, i: int) -> Result<Seq<Seq<char>>, Seq<char>>
    decreases t.len() - i,
{
    if i < 0 || i > t.len() {
        Ok(seq![])
    } else {
        match find_from_spec(t, seq!['$', '('], i) {
            None => Ok(seq![]),
            Some(p) => {
                proof {
                    lemma_find_from(t, seq!['$', '('], i);
                }
                match find_from_spec(t, seq![')'], p + 2) {
                    None => Err("宏占位符缺少 `)`"@),
                    Some(e) => {
                        proof {
                            lemma_find_from(t, seq![')'], p + 2);
                        }
                        let name = t.subrange(p + 2, e);
                        if !placeholder_name(name) {
                            Err("无效宏参数名 `"@ + name + "`"@)
                        } else {
                            match uses_from(t, e + 1) {
                                Ok(rest) => Ok(seq![name] + rest),
                                Err(m) => Err(m),
                            }
                        }
                    },
                }
            },
        }
    }
}

/// The placeholder names a macro template uses, in order (a name used twice
/// is listed twice); or why a placeholder is invalid.
pub fn template_uses(text: &str) -> (r: Result<Vec<String>, String>)
    ensures
        match (r, uses_from(text@, 0)) {
            (Ok(names), Ok(s)) => string_views(names@) == s,
            (Err(m), Err(s)) => m@ == s,
            _ => false,
        },
{
    let t = chars_of(text);
    let open = vec!['$', '('];
    let close = vec![')'];
    assert(open@ =~= seq!['$', '(']);
    assert(close@ =~= seq![')']);
    let mut uses: Vec<String> = Vec::new();
    let mut i: usize = 0;
    while i <= t.len()
        invariant
            t@ == text@,
            open@ == seq!['$', '('],
            close@ == seq![')'],
            i <= t@.len() + 1,
            match uses_from(t@, i as int) {
                Ok(rest) => uses_from(t@, 0) == Ok::<_, Seq<char>>(string_views(uses@) + rest),
                Err(m) => uses_from(t@, 0) == Err::<Seq<Seq<char>>, _>(m),
            },
        decreases t.len() + 1 - i,
    {
        let p = match find_from(t.as_slice(), open.as_slice(), i) {
            None => {
                assert(string_views(uses@) + Seq::<Seq<char>>::empty() =~= string_views(uses@));
                return Ok(uses);
            },
            Some(p) => p,
        };
        proof {
            lemma_find_from(t@, open@, i as int);
        }
        let e = match find_from(t.as_slice(), close.as_slice(), p + 2) {
            None => {
                return Err("宏占位符缺少 `)`".to_owned());
            },
            Some(e) => e,
        };
        proof {
            lemma_find_from(t@, close@, p + 2);
        }
        let mut valid = e > p + 2;
        let mut k = p + 2;
        while k < e
            invariant
                p + 2 <= k <= e <= t@.len(),
                valid == (e > p + 2 && forall|q: int| p + 2 <= q < k ==> identifier_char(#[trigger] t@[q])),
            decreases e - k,
        {
            if !is_identifier(t[k]) {
                valid = false;
            }
            k += 1;
        }
        let name = string_of(t.as_slice(), p + 2, e);
        proof {
            let n = t@.subrange(p + 2, e as int);
            assert(valid == placeholder_name(n)) by {
                if valid {
                    assert forall|q: int| 0 <= q < n.len() implies identifier_char(#[trigger] n[q]) by {
                        assert(n[q] == t@[p + 2 + q]);
                    }
                } else if e > p + 2 {
                    let q = choose|q: int| p + 2 <= q < e && !identifier_char(#[trigger] t@[q]);
                    assert(n[q - p - 2] == t@[q]);
                }
            }
        }
        if !valid {
            let mut message = "无效宏参数名 `".to_owned();
            message.append(name.as_str());
            message.append("`");
            return Err(message);
        }
        proof {
            lemma_string_views_push(uses@, name);
            let rest = uses_from(t@, e + 1);
            if let Ok(r) = rest {
                assert(string_views(uses@) + (seq![name@] + r) =~= string_views(uses@).push(name@) + r);
            }
        }
        uses.push(name);
        i = e + 1;
    }
    proof {
        assert(uses_from(t@, i as int) == Ok::<Seq<Seq<char>>, Seq<char>>(seq![]));
        assert(string_views(uses@) + Seq::<Seq<char>>::empty() =~= string_views(uses@));
    }
    Ok(uses)
}

} // verus!
