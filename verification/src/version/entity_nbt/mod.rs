//! Entity NBT tag table: which named keys each entity type writes, and the
//! coarse type of each key, as extracted from the bundled client sources.
//! The runtime catalog reads the JSON snapshot of that table.

pub mod aliases;
pub mod alias_columns;
pub mod registry;
pub mod scan;



use vstd::prelude::*;
use vstd::string::StringExecFns;
use crate::chars::{chars_of, eq_chars, starts_at, matches_at, slice_vec, to_ascii_lowercase, to_ascii_lowercase_spec};
use crate::sorted::{StringSet, seq_less, seq_views, strictly_sorted, represents, map_has, entry_keys, map_insert, locate, seq_views_of_keys, lemma_sorted_unique, insert_sorted};
use crate::json::{Json, get, json_get, parse_json, parsed_json, members_of, string_items, is_json_str, string_set};
use aliases::{alias_table, pair_views};
use crate::distance::{levenshtein, lemma_levenshtein_bound, lemma_levenshtein_step};

verus! {

broadcast use vstd::string::group_string_axioms;

/// The expected coarse type of a named NBT tag; `Any` when the sources do
/// not decide it.
#[derive(Clone, Copy, Debug, PartialEq, Eq, Structural)]
pub enum EntityTagType {
    Bool,
    Number,
    String,
    Component,
    List,
    NumericList,
    StringList,
    Compound,
    IntArray,
    Any,
}

impl View for EntityTagType {
    type V = EntityTagType;

    open spec fn view(&self) -> EntityTagType {
        *self
    }
}

/// The snapshot spelling of a tag type.
pub open spec fn tag_type_name(t: EntityTagType) -> Seq<char> {
    match t {
        EntityTagType::Bool => "bool"@,
        EntityTagType::Number => "number"@,
        EntityTagType::String => "string"@,
        EntityTagType::Component => "component"@,
        EntityTagType::List => "list"@,
        EntityTagType::NumericList => "numeric_list"@,
        EntityTagType::StringList => "string_list"@,
        EntityTagType::Compound => "compound"@,
        EntityTagType::IntArray => "int_array"@,
        EntityTagType::Any => "any"@,
    }
}

/// The tag type a snapshot spelling names, if any.
pub open spec fn tag_type_named(s: Seq<char>) -> Option<EntityTagType> {
    if s == "bool"@ {
        Some(EntityTagType::Bool)
    } else if s == "number"@ {
        Some(EntityTagType::Number)
    } else if s == "string"@ {
        Some(EntityTagType::String)
    } else if s == "component"@ {
        Some(EntityTagType::Component)
    } else if s == "list"@ {
        Some(EntityTagType::List)
    } else if s == "numeric_list"@ {
        Some(EntityTagType::NumericList)
    } else if s == "string_list"@ {
        Some(EntityTagType::StringList)
    } else if s == "compound"@ {
        Some(EntityTagType::Compound)
    } else if s == "int_array"@ {
        Some(EntityTagType::IntArray)
    } else if s == "any"@ {
        Some(EntityTagType::Any)
    } else {
        None
    }
}

/// The human-readable description of what a tag type expects.
pub open spec fn tag_type_label(t: EntityTagType) -> Seq<char> {
    match t {
        EntityTagType::Bool => "布尔值（true/false 或 0b/1b）"@,
        EntityTagType::Number => "数字"@,
        EntityTagType::String => "字符串"@,
        EntityTagType::Component => "文本组件（字符串或复合）"@,
        EntityTagType::List => "列表"@,
        EntityTagType::NumericList => "数字列表"@,
        EntityTagType::StringList => "字符串列表"@,
        EntityTagType::Compound => "复合"@,
        EntityTagType::IntArray => "整数数组（如 [I; 1, 2, 3]）"@,
        EntityTagType::Any => "任意 NBT 值"@,
    }
}

/// Two types met for one key: equal types stay, conflicting ones widen to
/// `Any`.
pub open spec fn merged(a: EntityTagType, b: EntityTagType) -> EntityTagType {
    if a == b {
        a
    } else {
        EntityTagType::Any
    }
}

impl EntityTagType {
    pub fn as_str(self) -> (r: &'static str)
        ensures
            r@ == tag_type_name(self),
    {
        match self {
            EntityTagType::Bool => "bool",
            EntityTagType::Number => "number",
            EntityTagType::String => "string",
            EntityTagType::Component => "component",
            EntityTagType::List => "list",
            EntityTagType::NumericList => "numeric_list",
            EntityTagType::StringList => "string_list",
            EntityTagType::Compound => "compound",
            EntityTagType::IntArray => "int_array",
            EntityTagType::Any => "any",
        }
    }

    pub fn parse(value: &str) -> (r: Option<EntityTagType>)
        ensures
            r == tag_type_named(value@),
    {
        if crate::chars::str_eq(value, "bool") {
            Some(EntityTagType::Bool)
        } else if crate::chars::str_eq(value, "number") {
            Some(EntityTagType::Number)
        } else if crate::chars::str_eq(value, "string") {
            Some(EntityTagType::String)
        } else if crate::chars::str_eq(value, "component") {
            Some(EntityTagType::Component)
        } else if crate::chars::str_eq(value, "list") {
            Some(EntityTagType::List)
        } else if crate::chars::str_eq(value, "numeric_list") {
            Some(EntityTagType::NumericList)
        } else if crate::chars::str_eq(value, "string_list") {
            Some(EntityTagType::StringList)
        } else if crate::chars::str_eq(value, "compound") {
            Some(EntityTagType::Compound)
        } else if crate::chars::str_eq(value, "int_array") {
            Some(EntityTagType::IntArray)
        } else if crate::chars::str_eq(value, "any") {
            Some(EntityTagType::Any)
        } else {
            None
        }
    }

    /// The human-readable expectation, for diagnostics.
    pub fn label(self) -> (r: &'static str)
        ensures
            r@ == tag_type_label(self),
    {
        match self {
            EntityTagType::Bool => "布尔值（true/false 或 0b/1b）",
            EntityTagType::Number => "数字",
            EntityTagType::String => "字符串",
            EntityTagType::Component => "文本组件（字符串或复合）",
            EntityTagType::List => "列表",
            EntityTagType::NumericList => "数字列表",
            EntityTagType::StringList => "字符串列表",
            EntityTagType::Compound => "复合",
            EntityTagType::IntArray => "整数数组（如 [I; 1, 2, 3]）",
            EntityTagType::Any => "任意 NBT 值",
        }
    }

    /// When one key has different types in different classes, the looser
    /// `Any` wins.
    pub fn merge(self, other: EntityTagType) -> (r: EntityTagType)
        ensures
            r == merged(self, other),
    {
        if self == other {
            self
        } else {
            EntityTagType::Any
        }
    }
}


/// An entity id without its `minecraft:` namespace, when it has one.
pub open spec fn namespace_stripped(id: Seq<char>) -> Seq<char> {
    if matches_at(id, 0, "minecraft:"@) {
        id.skip("minecraft:"@.len() as int)
    } else {
        id
    }
}

/// The tag type a snapshot value names: a string naming a type.
pub open spec fn json_tag_type(v: Json) -> Option<EntityTagType> {
    match v {
        Json::Str(s) => tag_type_named(s@),
        _ => None,
    }
}

pub open spec fn unknown_type_message(key: Seq<char>) -> Seq<char> {
    "标签 `"@ + key + "` 的类型无法识别"@
}

pub open spec fn not_array_message(id: Seq<char>) -> Seq<char> {
    "实体 `"@ + id + "` 的标签表必须是数组"@
}

pub open spec fn invalid_json_message(error: Seq<char>) -> Seq<char> {
    "快照 JSON 无效："@ + error
}

/// The tag table read from the first `n` members of the `tags` object, or
/// the error for the first member whose type is not recognized.
pub open spec fn tags_read(ms: Seq<(String, Json)>, n: int) -> Result<Map<Seq<char>, EntityTagType>, Seq<char>>
    decreases n,
{
    if n <= 0 {
        Ok(Map::empty())
    } else {
        match tags_read(ms, n - 1) {
            Err(e) => Err(e),
            Ok(m) => match json_tag_type(ms[n - 1].1) {
                Some(t) => Ok(m.insert(ms[n - 1].0@, t)),
                None => Err(unknown_type_message(ms[n - 1].0@)),
            },
        }
    }
}

/// The entity table read from the first `n` members of the `entities`
/// object (ids without their namespace; a later id replaces an equal
/// earlier one), or the error for the first member that is not an array.
pub open spec fn entities_read(ms: Seq<(String, Json)>, n: int) -> Result<Map<Seq<char>, Set<Seq<char>>>, Seq<char>>
    decreases n,
{
    if n <= 0 {
        Ok(Map::empty())
    } else {
        match entities_read(ms, n - 1) {
            Err(e) => Err(e),
            Ok(m) => match ms[n - 1].1 {
                Json::Array(items) => Ok(m.insert(namespace_stripped(ms[n - 1].0@), string_items(items@))),
                _ => Err(not_array_message(ms[n - 1].0@)),
            },
        }
    }
}

/// Once reading the tag table has failed, later members change nothing.
proof fn lemma_tags_read_stays(ms: Seq<(String, Json)>, n: int, m: int)
    requires
        0 <= n <= m,
        tags_read(ms, n) is Err,
    ensures
        tags_read(ms, m) == tags_read(ms, n),
    decreases m - n,
{
    if m > n {
        lemma_tags_read_stays(ms, n, m - 1);
    }
}

/// Once reading the entity table has failed, later members change nothing.
proof fn lemma_entities_read_stays(ms: Seq<(String, Json)>, n: int, m: int)
    requires
        0 <= n <= m,
        entities_read(ms, n) is Err,
    ensures
        entities_read(ms, m) == entities_read(ms, n),
    decreases m - n,
{
    if m > n {
        lemma_entities_read_stays(ms, n, m - 1);
    }
}

/// The catalog a snapshot document describes: its tag table and its entity
/// table, or the first error.
pub open spec fn catalog_read(root: Json) -> Result<(Map<Seq<char>, EntityTagType>, Map<Seq<char>, Set<Seq<char>>>), Seq<char>> {
    let tm = members_of(json_get(root, "tags"@));
    let em = members_of(json_get(root, "entities"@));
    match tags_read(tm, tm.len() as int) {
        Err(e) => Err(e),
        Ok(t) => match entities_read(em, em.len() as int) {
            Err(e) => Err(e),
            Ok(e) => Ok((t, e)),
        },
    }
}

/// The catalog a snapshot text describes.
pub open spec fn catalog_from_text(text: Seq<char>) -> Result<(Map<Seq<char>, EntityTagType>, Map<Seq<char>, Set<Seq<char>>>), Seq<char>> {
    match parsed_json(text) {
        Err(m) => Err(invalid_json_message(m)),
        Ok(root) => catalog_read(root),
    }
}

/// Drops a leading `minecraft:` namespace.
pub fn strip_namespace(id: &[char]) -> (r: Vec<char>)
    ensures
        r@ == namespace_stripped(id@),
{
    let prefix = chars_of("minecraft:");
    if starts_at(id, 0, prefix.as_slice()) {
        slice_vec(id, prefix.len(), id.len())
    } else {
        slice_vec(id, 0, id.len())
    }
}

/// `head + middle + tail` as a new string.
fn framed(head: &str, middle: &str, tail: &str) -> (r: String)
    ensures
        r@ == head@ + middle@ + tail@,
{
    let mut r = head.to_owned();
    r.append(middle);
    r.append(tail);
    r
}

/// The runtime tag catalog, read from the bundled snapshot.
pub struct EntityNbtCatalog {
    tags: Vec<(Vec<char>, EntityTagType)>,
    entities: Vec<(Vec<char>, StringSet)>,
    tag_map: Ghost<Map<Seq<char>, EntityTagType>>,
    entity_map: Ghost<Map<Seq<char>, Set<Seq<char>>>>,
}

impl EntityNbtCatalog {
    #[verifier::type_invariant]
    spec fn well_formed(self) -> bool {
        &&& represents(self.tags@, self.tag_map@)
        &&& represents(self.entities@, self.entity_map@)
    }

    /// Every known tag key, with its expected type.
    pub closed spec fn tags(&self) -> Map<Seq<char>, EntityTagType> {
        self.tag_map@
    }

    /// Every known entity id (without namespace), with the keys it writes.
    pub closed spec fn entities(&self) -> Map<Seq<char>, Set<Seq<char>>> {
        self.entity_map@
    }

    /// Reads a parsed snapshot document.
    pub fn from_value(root: &Json) -> (r: Result<EntityNbtCatalog, String>)
        ensures
            match (r, catalog_read(*root)) {
                (Ok(c), Ok(p)) => c.tags() == p.0 && c.entities() == p.1,
                (Err(e), Err(m)) => e@ == m,
                _ => false,
            },
    {
        let mut tags: Vec<(Vec<char>, EntityTagType)> = Vec::new();
        let ghost mut tag_map: Map<Seq<char>, EntityTagType> = Map::empty();
        let ghost tm = members_of(json_get(*root, "tags"@));
        proof {
            crate::sorted::lemma_empty_represents(tags@);
        }
        if let Some(Json::Object(ms)) = get(root, "tags") {
            let mut i: usize = 0;
            while i < ms.len()
                invariant
                    i <= ms@.len(),
                    tm == ms@,
                    tm == members_of(json_get(*root, "tags"@)),
                    represents(tags@, tag_map),
                    tags_read(tm, i as int) == Ok::<Map<Seq<char>, EntityTagType>, Seq<char>>(tag_map),
                decreases ms.len() - i,
            {
                let t = match &ms[i].1 {
                    Json::Str(v) => EntityTagType::parse(v.as_str()),
                    _ => None,
                };
                match t {
                    None => {
                        proof {
                            lemma_tags_read_stays(tm, i + 1, tm.len() as int);
                        }
                        return Err(framed("标签 `", ms[i].0.as_str(), "` 的类型无法识别"));
                    },
                    Some(t) => {
                        let key = chars_of(ms[i].0.as_str());
                        map_insert(&mut tags, key, t);
                        proof {
                            tag_map = tag_map.insert(ms@[i as int].0@, t);
                        }
                    },
                }
                i += 1;
            }
        }
        let mut entities: Vec<(Vec<char>, StringSet)> = Vec::new();
        let ghost mut entity_map: Map<Seq<char>, Set<Seq<char>>> = Map::empty();
        let ghost em = members_of(json_get(*root, "entities"@));
        proof {
            crate::sorted::lemma_empty_represents(entities@);
        }
        if let Some(Json::Object(ms)) = get(root, "entities") {
            let mut i: usize = 0;
            while i < ms.len()
                invariant
                    i <= ms@.len(),
                    em == ms@,
                    em == members_of(json_get(*root, "entities"@)),
                    tm == members_of(json_get(*root, "tags"@)),
                    tags_read(tm, tm.len() as int) == Ok::<Map<Seq<char>, EntityTagType>, Seq<char>>(tag_map),
                    represents(tags@, tag_map),
                    represents(entities@, entity_map),
                    entities_read(em, i as int) == Ok::<Map<Seq<char>, Set<Seq<char>>>, Seq<char>>(entity_map),
                decreases ms.len() - i,
            {
                match &ms[i].1 {
                    Json::Array(items) => {
                        let keys = string_set(items);
                        let id = chars_of(ms[i].0.as_str());
                        let key = strip_namespace(id.as_slice());
                        map_insert(&mut entities, key, keys);
                        proof {
                            entity_map = entity_map.insert(namespace_stripped(ms@[i as int].0@), string_items(items@));
                        }
                    },
                    _ => {
                        proof {
                            lemma_entities_read_stays(em, i + 1, em.len() as int);
                        }
                        return Err(framed("实体 `", ms[i].0.as_str(), "` 的标签表必须是数组"));
                    },
                }
                i += 1;
            }
        }
        Ok(EntityNbtCatalog { tags, entities, tag_map: Ghost(tag_map), entity_map: Ghost(entity_map) })
    }

    /// The keys an entity type may carry (`minecraft:` optional); `None`
    /// for an unknown type.
    pub fn entity_tags(&self, entity_type: &str) -> (r: Option<&StringSet>)
        ensures
            match r {
                Some(keys) => self.entities().contains_key(namespace_stripped(entity_type@))
                    && keys@ == self.entities()[namespace_stripped(entity_type@)],
                None => !self.entities().contains_key(namespace_stripped(entity_type@)),
            },
    {
        proof {
            use_type_invariant(self);
            assert(entry_keys(self.entities@) =~= seq_views_of_keys(self.entities@));
        }
        let id = chars_of(entity_type);
        let key = strip_namespace(id.as_slice());
        let (at, found) = locate(&self.entities, key.as_slice());
        if found {
            proof {
                assert(map_has(self.entities@, key@, self.entities@[at as int].1@));
            }
            Some(&self.entities[at].1)
        } else {
            proof {
                if self.entity_map@.contains_key(key@) {
                    assert(map_has(self.entities@, key@, self.entity_map@[key@]));
                }
            }
            None
        }
    }

    /// Whether some entity writes `key`.
    pub fn knows(&self, key: &str) -> (r: bool)
        ensures
            r == self.tags().contains_key(key@),
    {
        self.tag_type(key).is_some()
    }

    /// The expected type of a tag; `None` for an unknown key.
    pub fn tag_type(&self, key: &str) -> (r: Option<EntityTagType>)
        ensures
            r == (if self.tags().contains_key(key@) {
                Some(self.tags()[key@])
            } else {
                None
            }),
    {
        proof {
            use_type_invariant(self);
            assert(entry_keys(self.tags@) =~= seq_views_of_keys(self.tags@));
        }
        let k = chars_of(key);
        let (at, found) = locate(&self.tags, k.as_slice());
        if found {
            proof {
                assert(map_has(self.tags@, k@, self.tags@[at as int].1@));
            }
            Some(self.tags[at].1)
        } else {
            proof {
                if self.tag_map@.contains_key(k@) {
                    assert(map_has(self.tags@, k@, self.tag_map@[k@]));
                }
            }
            None
        }
    }

    /// The display text of the candidate closest to `key` (within two
    /// edits, ignoring ASCII case), for a diagnostic hint: an English key
    /// in backquotes, or a Chinese alias with its English key. Only keys in
    /// `allowed` count, when it is given. English keys come first, in
    /// ascending order, then the aliases in table order; a later candidate
    /// wins only when strictly closer.
    pub fn suggest(&self, key: &str, allowed: Option<&StringSet>) -> (r: Option<String>)
        ensures
            match r {
                None => (forall|k: Seq<char>| !#[trigger] english_fits(self.tags(), allowed_view(allowed), key@, k))
                    && (forall|i: int| !#[trigger] alias_fits(allowed_view(allowed), key@, i)),
                Some(d) => (exists|k: Seq<char>| #[trigger] best_english(self.tags(), allowed_view(allowed), key@, k)
                    && d@ == english_display(k)) || (exists|i: int| #[trigger] best_alias(self.tags(), allowed_view(allowed), key@, i)
                    && d@ == alias_display(i)),
            },
    {
        proof {
            use_type_invariant(self);
        }
        let ghost tags = self.tag_map@;
        let ghost av = allowed_view(allowed);
        let key_chars = chars_of(key);
        let folded_key = fold(key_chars.as_slice());
        let mut best: Option<(usize, String)> = None;
        let ghost mut bj: int = 0;
        let mut i: usize = 0;
        while i < self.tags.len()
            invariant
                i <= self.tags@.len(),
                tags == self.tag_map@,
                av == allowed_view(allowed),
                folded_key@ == folded(key@),
                represents(self.tags@, tags),
                best is None ==> forall|j: int| 0 <= j < i ==> !#[trigger] english_fits(tags, av, key@, self.tags@[j].0@),
                best matches Some(b) ==> {
                    &&& 0 <= bj < i
                    &&& english_fits(tags, av, key@, self.tags@[bj].0@)
                    &&& b.0 == key_distance(key@, self.tags@[bj].0@)
                    &&& b.1@ == english_display(self.tags@[bj].0@)
                    &&& forall|j: int| 0 <= j < i && #[trigger] english_fits(tags, av, key@, self.tags@[j].0@) ==> b.0 < key_distance(key@, self.tags@[j].0@)
                        || (b.0 == key_distance(key@, self.tags@[j].0@) && bj <= j)
                },
            decreases self.tags.len() - i,
        {
            let candidate = &self.tags[i].0;
            proof {
                assert(map_has(self.tags@, self.tags@[i as int].0@, self.tags@[i as int].1@));
            }
            let ok = match allowed {
                Some(set) => set.has(candidate.as_slice()),
                None => true,
            };
            if ok {
                let folded_candidate = fold(candidate.as_slice());
                let distance = edit_distance(folded_key.as_slice(), folded_candidate.as_slice());
                if distance <= 2 {
                    let text = crate::chars::string_from(candidate.as_slice());
                    let display = framed("`", text.as_str(), "`");
                    let ghost was = best;
                    keep_closer(&mut best, distance, display);
                    proof {
                        if was is None || distance < (was->Some_0).0 {
                            bj = i as int;
                        }
                    }
                }
            }
            i += 1;
        }
        let ghost mut mode: int = if best is None { 0 } else { 1 };
        let ghost bk: Seq<char> = if best is None { Seq::empty() } else { self.tags@[bj].0@ };
        proof {
            assert forall|k: Seq<char>| #[trigger] english_fits(tags, av, key@, k) implies exists|j: int| 0 <= j < self.tags@.len() && self.tags@[j].0@ == k by {
                assert(map_has(self.tags@, k, tags[k]));
            }
            if best is Some {
                assert forall|k: Seq<char>| #[trigger] english_fits(tags, av, key@, k) implies key_distance(key@, bk) < key_distance(key@, k)
                    || (key_distance(key@, bk) == key_distance(key@, k) && (k == bk || seq_less(bk, k))) by {
                    let j = choose|j: int| 0 <= j < self.tags@.len() && self.tags@[j].0@ == k;
                    assert(english_fits(tags, av, key@, self.tags@[j].0@));
                    if bj < j {
                        assert(seq_less(entry_keys(self.tags@)[bj], entry_keys(self.tags@)[j]));
                    }
                }
            }
        }
        let table = aliases::chinese_aliases();
        let mut a: usize = 0;
        let ghost mut ba: int = 0;
        while a < table.len()
            invariant
                a <= table@.len(),
                pair_views(table@) == alias_table(),
                av == allowed_view(allowed),
                folded_key@ == folded(key@),
                0 <= mode <= 2,
                mode == 0 <==> best is None,
                mode == 0 ==> (forall|k: Seq<char>| !#[trigger] english_fits(tags, av, key@, k))
                    && forall|a2: int| 0 <= a2 < a ==> !#[trigger] alias_fits(av, key@, a2),
                mode == 1 ==> (best matches Some(b) && {
                    &&& english_fits(tags, av, key@, bk)
                    &&& b.0 == key_distance(key@, bk)
                    &&& b.1@ == english_display(bk)
                    &&& forall|k: Seq<char>| #[trigger] english_fits(tags, av, key@, k) ==> key_distance(key@, bk) < key_distance(key@, k)
                        || (key_distance(key@, bk) == key_distance(key@, k) && (k == bk || seq_less(bk, k)))
                    &&& forall|a2: int| 0 <= a2 < a && #[trigger] alias_fits(av, key@, a2) ==> b.0 <= key_distance(key@, alias_table()[a2].0)
                }),
                mode == 2 ==> (best matches Some(b) && {
                    &&& 0 <= ba < a
                    &&& alias_fits(av, key@, ba)
                    &&& b.0 == key_distance(key@, alias_table()[ba].0)
                    &&& b.1@ == alias_display(ba)
                    &&& forall|k: Seq<char>| #[trigger] english_fits(tags, av, key@, k) ==> b.0 < key_distance(key@, k)
                    &&& forall|a2: int| 0 <= a2 < a && #[trigger] alias_fits(av, key@, a2) ==> b.0 < key_distance(key@, alias_table()[a2].0)
                        || (b.0 == key_distance(key@, alias_table()[a2].0) && ba <= a2)
                }),
            decreases table.len() - a,
        {
            let (alias, canonical) = table[a];
            proof {
                assert(pair_views(table@)[a as int] == (alias@, canonical@));
            }
            let ok = match allowed {
                Some(set) => set.contains(canonical),
                None => true,
            };
            if ok {
                let alias_chars = chars_of(alias);
                let folded_alias = fold(alias_chars.as_slice());
                let distance = edit_distance(folded_key.as_slice(), folded_alias.as_slice());
                if distance <= 2 {
                    let mut display = "`".to_owned();
                    display.append(alias);
                    display.append("`（英文 `");
                    display.append(canonical);
                    display.append("`）");
                    let ghost was = best;
                    keep_closer(&mut best, distance, display);
                    proof {
                        if was is None || distance < (was->Some_0).0 {
                            mode = 2;
                            ba = a as int;
                        }
                    }
                }
            }
            a += 1;
        }
        proof {
            assert(alias_table().len() == table@.len());
            assert forall|i2: int| #[trigger] alias_fits(av, key@, i2) implies 0 <= i2 < table@.len() by {}
            if mode == 0 {
                assert forall|i2: int| !#[trigger] alias_fits(av, key@, i2) by {
                    if alias_fits(av, key@, i2) {
                        assert(0 <= i2 < a);
                    }
                }
                assert(forall|k: Seq<char>| !#[trigger] english_fits(tags, av, key@, k));
                assert(forall|k: Seq<char>| !#[trigger] english_fits(self.tags(), allowed_view(allowed), key@, k));
                assert(best is None);
            }
            if mode == 1 {
                assert(best_english(tags, av, key@, bk));
                assert(best_english(self.tags(), allowed_view(allowed), key@, bk));
            } else if mode == 2 {
                assert(best_alias(tags, av, key@, ba));
                assert(best_alias(self.tags(), allowed_view(allowed), key@, ba));
            }
        }
        match best {
            Some(b) => Some(b.1),
            None => None,
        }
    }

    /// Reads the snapshot text.
    pub fn from_json(text: &str) -> (r: Result<EntityNbtCatalog, String>)
        ensures
            match (r, catalog_from_text(text@)) {
                (Ok(c), Ok(p)) => c.tags() == p.0 && c.entities() == p.1,
                (Err(e), Err(m)) => e@ == m,
                _ => false,
            },
    {
        match parse_json(text) {
            Err(error) => {
                let mut message = "快照 JSON 无效：".to_owned();
                message.append(error.as_str());
                Err(message)
            },
            Ok(root) => EntityNbtCatalog::from_value(&root),
        }
    }
}


/// ASCII case folding, so that `NoAi` and `NoAI` count as the same.
pub open spec fn folded(s: Seq<char>) -> Seq<char> {
    s.map_values(|c: char| to_ascii_lowercase_spec(c))
}

fn fold(text: &[char]) -> (r: Vec<char>)
    ensures
        r@ == folded(text@),
{
    let mut r: Vec<char> = Vec::new();
    let mut i: usize = 0;
    while i < text.len()
        invariant
            i <= text@.len(),
            r@ == folded(text@.take(i as int)),
        decreases text.len() - i,
    {
        r.push(to_ascii_lowercase(text[i]));
        i += 1;
        assert(r@ =~= folded(text@.take(i as int)));
    }
    assert(text@.take(i as int) =~= text@);
    r
}

/// Keeps the closer candidate; on a tie the earlier one stays.
fn keep_closer(best: &mut Option<(usize, String)>, distance: usize, display: String)
    ensures
        *final(best) == (match *old(best) {
            Some(current) => if distance < current.0 {
                Some((distance, display))
            } else {
                *old(best)
            },
            None => Some((distance, display)),
        }),
{
    let closer = match best {
        Some(current) => distance < current.0,
        None => true,
    };
    if closer {
        *best = Some((distance, display));
    }
}

/// The edit distance of two texts, by the two-row dynamic programme.
pub(crate) fn edit_distance(left: &[char], right: &[char]) -> (d: usize)
    ensures
        d == levenshtein(left@, right@),
{
    let n = left.len();
    let m = right.len();
    let mut previous: Vec<usize> = Vec::new();
    previous.push(0);
    let mut j: usize = 0;
    while j < m
        invariant
            m == right@.len(),
            j <= m,
            previous@.len() == j + 1,
            forall|k: int| 0 <= k <= j ==> previous@[k] == k,
        decreases m - j,
    {
        j += 1;
        previous.push(j);
    }
    proof {
        assert forall|k: int| 0 <= k <= m implies previous@[k] == levenshtein(left@.take(0), right@.take(k)) by {
            assert(left@.take(0).len() == 0);
        }
    }
    let mut i: usize = 0;
    while i < n
        invariant
            n == left@.len(),
            m == right@.len(),
            i <= n,
            previous@.len() == m + 1,
            forall|k: int| 0 <= k <= m ==> previous@[k] == levenshtein(left@.take(i as int), right@.take(k)),
        decreases n - i,
    {
        let mut current: Vec<usize> = Vec::new();
        current.push(i + 1);
        proof {
            assert(right@.take(0).len() == 0);
            assert(left@.take(i + 1).len() == i + 1);
        }
        let mut j: usize = 0;
        while j < m
            invariant
                n == left@.len(),
                m == right@.len(),
                i < n,
                j <= m,
                previous@.len() == m + 1,
                forall|k: int| 0 <= k <= m ==> previous@[k] == levenshtein(left@.take(i as int), right@.take(k)),
                current@.len() == j + 1,
                forall|k: int| 0 <= k <= j ==> current@[k] == levenshtein(left@.take(i + 1), right@.take(k)),
            decreases m - j,
        {
            proof {
                lemma_levenshtein_bound(left@.take(i as int), right@.take(j as int));
                lemma_levenshtein_step(left@, right@, i as int, j as int);
            }
            let unequal: usize = if left[i] != right[j] {
                1
            } else {
                0
            };
            let substitution = previous[j] + unequal;
            let insertion = current[j].saturating_add(1);
            let deletion = previous[j + 1].saturating_add(1);
            let mut best = substitution;
            if insertion < best {
                best = insertion;
            }
            if deletion < best {
                best = deletion;
            }
            current.push(best);
            j += 1;
        }
        previous = current;
        i += 1;
    }
    proof {
        assert(left@.take(n as int) =~= left@);
        assert(right@.take(m as int) =~= right@);
    }
    previous[m]
}

/// The view of an optional key set.
pub open spec fn allowed_view(allowed: Option<&StringSet>) -> Option<Set<Seq<char>>> {
    match allowed {
        Some(set) => Some(set@),
        None => None,
    }
}

/// Whether a candidate key passes the optional restriction.
pub open spec fn accepted(allowed: Option<Set<Seq<char>>>, k: Seq<char>) -> bool {
    match allowed {
        Some(set) => set.contains(k),
        None => true,
    }
}

/// How far a candidate is from the key, ignoring ASCII case.
pub open spec fn key_distance(key: Seq<char>, candidate: Seq<char>) -> nat {
    levenshtein(folded(key), folded(candidate))
}

/// An English key close enough to suggest.
pub open spec fn english_fits(tags: Map<Seq<char>, EntityTagType>, allowed: Option<Set<Seq<char>>>, key: Seq<char>, k: Seq<char>) -> bool {
    tags.contains_key(k) && accepted(allowed, k) && key_distance(key, k) <= 2
}

/// An alias entry close enough to suggest.
pub open spec fn alias_fits(allowed: Option<Set<Seq<char>>>, key: Seq<char>, i: int) -> bool {
    0 <= i < alias_table().len() && accepted(allowed, alias_table()[i].1) && key_distance(key, alias_table()[i].0) <= 2
}

pub open spec fn english_display(k: Seq<char>) -> Seq<char> {
    "`"@ + k + "`"@
}

pub open spec fn alias_display(i: int) -> Seq<char> {
    "`"@ + alias_table()[i].0 + "`（英文 `"@ + alias_table()[i].1 + "`）"@
}

/// `k` is the suggestion: the closest fitting English key (the smallest
/// among equally close ones), at least as close as every fitting alias.
pub open spec fn best_english(tags: Map<Seq<char>, EntityTagType>, allowed: Option<Set<Seq<char>>>, key: Seq<char>, k: Seq<char>) -> bool {
    &&& english_fits(tags, allowed, key, k)
    &&& forall|k2: Seq<char>| #[trigger] english_fits(tags, allowed, key, k2) ==> key_distance(key, k) < key_distance(key, k2)
        || (key_distance(key, k) == key_distance(key, k2) && (k2 == k || seq_less(k, k2)))
    &&& forall|i: int| #[trigger] alias_fits(allowed, key, i) ==> key_distance(key, k) <= key_distance(key, alias_table()[i].0)
}

/// Entry `i` is the suggestion: closer than every fitting English key, and
/// the first of the closest fitting aliases.
pub open spec fn best_alias(tags: Map<Seq<char>, EntityTagType>, allowed: Option<Set<Seq<char>>>, key: Seq<char>, i: int) -> bool {
    &&& alias_fits(allowed, key, i)
    &&& forall|k: Seq<char>| #[trigger] english_fits(tags, allowed, key, k) ==> key_distance(key, alias_table()[i].0) < key_distance(key, k)
    &&& forall|i2: int| #[trigger] alias_fits(allowed, key, i2) ==> key_distance(key, alias_table()[i].0) < key_distance(key, alias_table()[i2].0)
        || (key_distance(key, alias_table()[i].0) == key_distance(key, alias_table()[i2].0) && i <= i2)
}

/// Reading a type's snapshot spelling back gives the type; no other
/// spelling names it.
pub proof fn lemma_tag_type_round_trip(t: EntityTagType, s: Seq<char>)
    ensures
        tag_type_named(tag_type_name(t)) == Some(t),
        tag_type_named(s) == Some(t) ==> s == tag_type_name(t),
{
    reveal_strlit("bool");
    reveal_strlit("number");
    reveal_strlit("string");
    reveal_strlit("component");
    reveal_strlit("list");
    reveal_strlit("numeric_list");
    reveal_strlit("string_list");
    reveal_strlit("compound");
    reveal_strlit("int_array");
    reveal_strlit("any");
    assert("bool"@.len() == 4);
    assert("number"@.len() == 6);
    assert("string"@.len() == 6);
    assert("component"@.len() == 9);
    assert("list"@.len() == 4);
    assert("numeric_list"@.len() == 12);
    assert("string_list"@.len() == 11);
    assert("compound"@.len() == 8);
    assert("int_array"@.len() == 9);
    assert("any"@.len() == 3);
    assert("bool"@[0] != "list"@[0]);
    assert("number"@[0] != "string"@[0]);
    assert("component"@[0] != "int_array"@[0]);
}

/// Merging is commutative, associative and idempotent, and `Any` absorbs
/// every type: the merged type of a key does not depend on the order in
/// which its classes are visited.
pub proof fn lemma_merge_order_free(a: EntityTagType, b: EntityTagType, c: EntityTagType)
    ensures
        merged(a, b) == merged(b, a),
        merged(merged(a, b), c) == merged(a, merged(b, c)),
        merged(a, a) == a,
        merged(a, EntityTagType::Any) == EntityTagType::Any,
{
}

/// The `minecraft:` namespace is optional: an id and its namespaced form
/// name the same entity.
pub proof fn lemma_namespace_optional(id: Seq<char>)
    requires
        !matches_at(id, 0, "minecraft:"@),
    ensures
        namespace_stripped("minecraft:"@ + id) == id,
        namespace_stripped(id) == id,
{
    let full = "minecraft:"@ + id;
    assert(full.subrange(0, "minecraft:"@.len() as int) =~= "minecraft:"@);
    assert(full.skip("minecraft:"@.len() as int) =~= id);
}

/// A key that matches a known, allowed English key up to ASCII case is
/// suggested as that key's spelling: the suggestion is an English key at
/// distance zero, never an alias.
pub proof fn lemma_exact_key_suggested(
    tags: Map<Seq<char>, EntityTagType>,
    allowed: Option<Set<Seq<char>>>,
    key: Seq<char>,
    k: Seq<char>,
)
    requires
        tags.contains_key(k),
        accepted(allowed, k),
        folded(k) == folded(key),
    ensures
        english_fits(tags, allowed, key, k),
        forall|k2: Seq<char>| #[trigger] best_english(tags, allowed, key, k2) ==> key_distance(key, k2) == 0,
        forall|i: int| !#[trigger] best_alias(tags, allowed, key, i),
{
    crate::distance::lemma_levenshtein_self(folded(key));
    assert(key_distance(key, k) == 0);
    assert forall|k2: Seq<char>| #[trigger] best_english(tags, allowed, key, k2) implies key_distance(key, k2) == 0 by {
        assert(english_fits(tags, allowed, key, k));
    }
    assert forall|i: int| !#[trigger] best_alias(tags, allowed, key, i) by {
        if best_alias(tags, allowed, key, i) {
            assert(english_fits(tags, allowed, key, k));
        }
    }
}

} // verus!
