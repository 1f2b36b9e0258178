//! JSON documents as the library reads them, and their parsing.

use vstd::prelude::*;
use crate::sorted::StringSet;
use crate::chars::chars_of;

verus! {

/// A JSON value. A number keeps only what the library reads of it: its
/// value when it is an unsigned 64-bit integer (`None` for negative and
/// fractional numbers). Object members come as `serde_json`'s map holds
/// them: sorted by key, a later duplicate key replacing an earlier one.
pub enum Json {
    Null,
    Bool(bool),
    Number(Option<u64>),
    Str(String),
    Array(Vec<Json>),
    Object(Vec<(String, Json)>),
}

impl View for Json {
    type V = Json;

    open spec fn view(&self) -> Json {
        *self
    }
}

#[verifier::external_type_specification]
#[verifier::external_body]
pub struct ExValue(serde_json::Value);

/// What `serde_json` makes of a JSON text: the document, or the text of its
/// error.
pub uninterp spec fn parsed_json(text: Seq<char>) -> Result<Json, Seq<char>>;

/// Parses a JSON document.
///
/// Calls `serde_json::from_str::<serde_json::Value>`; the contract names its
/// outcome, which depends on the text alone (the error is carried as its
/// display text). What the document or error is for a given text is left
/// to `serde_json` and not stated here.
#[verifier::external_body]
pub(crate) fn parse_json(text: &str) -> (r: Result<Json, String>)
    ensures
        match (r, parsed_json(text@)) {
            (Ok(j), Ok(s)) => j == s,
            (Err(e), Err(m)) => e@ == m,
            _ => false,
        },
{
    match serde_json::from_str::<serde_json::Value>(text) {
        Ok(value) => Ok(json_of(value)),
        Err(error) => Err(error.to_string()),
    }
}

/// Converts a parsed `serde_json::Value` variant by variant; a number is
/// carried as `serde_json::Number::as_u64`.
#[verifier::external_body]
fn json_of(value: serde_json::Value) -> Json {
    match value {
        serde_json::Value::Null => Json::Null,
        serde_json::Value::Bool(b) => Json::Bool(b),
        serde_json::Value::Number(n) => Json::Number(n.as_u64()),
        serde_json::Value::String(s) => Json::Str(s),
        serde_json::Value::Array(a) => Json::Array(a.into_iter().map(json_of).collect()),
        serde_json::Value::Object(o) => Json::Object(
            o.into_iter().map(|(k, v)| (k, json_of(v))).collect(),
        ),
    }
}

/// The value of the first member named `key`, when `value` is an object.
pub open spec fn json_get(value: Json, key: Seq<char>) -> Option<Json> {
    match value {
        Json::Object(members) => member_of(members@, key, 0),
        _ => None,
    }
}

/// The value of the first member at or after `i` named `key`.
pub open spec fn member_of(members: Seq<(String, Json)>, key: Seq<char>, i: int) -> Option<Json>
    decreases members.len() - i,
{
    if i < 0 || i >= members.len() {
        None
    } else if members[i].0@ == key {
        Some(members[i].1)
    } else {
        member_of(members, key, i + 1)
    }
}

/// The value of the first member named `key`, when `value` is an object.
pub fn get<'a>(value: &'a Json, key: &str) -> (r: Option<&'a Json>)
    ensures
        match (r, json_get(*value, key@)) {
            (Some(v), Some(s)) => *v == s,
            (None, None) => true,
            _ => false,
        },
{
    match value {
        Json::Object(members) => {
            let mut i: usize = 0;
            while i < members.len()
                invariant
                    i <= members@.len(),
                    *value == Json::Object(*members),
                    member_of(members@, key@, i as int) == member_of(members@, key@, 0),
                decreases members.len() - i,
            {
                if crate::chars::str_eq(members[i].0.as_str(), key) {
                    return Some(&members[i].1);
                }
                i += 1;
            }
            None
        },
        _ => None,
    }
}

/// The members of an optional object; none for anything else.
pub open spec fn members_of(v: Option<Json>) -> Seq<(String, Json)> {
    match v {
        Some(Json::Object(ms)) => ms@,
        _ => Seq::empty(),
    }
}

/// Whether `v` is the string `k`.
pub open spec fn is_json_str(v: Json, k: Seq<char>) -> bool {
    v matches Json::Str(s) && s@ == k
}

/// The strings among `items`.
pub open spec fn string_items(items: Seq<Json>) -> Set<Seq<char>> {
    Set::new(|k: Seq<char>| exists|i: int| 0 <= i < items.len() && #[trigger] is_json_str(items[i], k))
}

/// The strings among `items`, as a set.
pub fn string_set(items: &Vec<Json>) -> (r: StringSet)
    ensures
        r@ == string_items(items@),
{
    let mut keys = StringSet::new();
    let mut i: usize = 0;
    while i < items.len()
        invariant
            i <= items@.len(),
            keys@ == string_items(items@.take(i as int)),
        decreases items.len() - i,
    {
        let ghost before = items@.take(i as int);
        let ghost after = items@.take(i + 1);
        proof {
            assert forall|k: Seq<char>| #[trigger] string_items(after).contains(k) <==> (string_items(before).contains(k)
                || is_json_str(items@[i as int], k)) by {
                if string_items(after).contains(k) {
                    let j = choose|j: int| 0 <= j < after.len() && #[trigger] is_json_str(after[j], k);
                    if j < i {
                        assert(before[j] == after[j]);
                    }
                }
                if string_items(before).contains(k) {
                    let j = choose|j: int| 0 <= j < before.len() && #[trigger] is_json_str(before[j], k);
                    assert(after[j] == before[j]);
                }
                if is_json_str(items@[i as int], k) {
                    assert(after[i as int] == items@[i as int]);
                }
            }
        }
        if let Json::Str(s) = &items[i] {
            keys.insert(chars_of(s.as_str()));
        }
        i += 1;
        assert(keys@ =~= string_items(after));
    }
    assert(items@.take(i as int) =~= items@);
    keys
}

/// The index of the first member named `key`.
pub fn member_index(members: &Vec<(String, Json)>, key: &str) -> (r: Option<usize>)
    ensures
        match r {
            Some(i) => i < members@.len() && member_of(members@, key@, 0) == Some(members@[i as int].1),
            None => member_of(members@, key@, 0) is None,
        },
{
    let mut i: usize = 0;
    while i < members.len()
        invariant
            i <= members@.len(),
            member_of(members@, key@, i as int) == member_of(members@, key@, 0),
        decreases members.len() - i,
    {
        if crate::chars::str_eq(members[i].0.as_str(), key) {
            return Some(i);
        }
        i += 1;
    }
    None
}

} // verus!
