//! The snapshot's tables by category, and the queries over them.

use vstd::prelude::*;
use vstd::string::StringExecFns;
use crate::chars::{chars_of, find_from, find_from_spec, starts_at, matches_at, slice_vec, string_from, str_eq};
use crate::distance::{levenshtein, lemma_levenshtein_lower};
use crate::json::{Json, get, json_get, members_of, string_items, is_json_str, parse_json, parsed_json};
use crate::sorted::{StringSet, represents, map_has, map_insert, locate, entry_keys, seq_views_of_keys, string_views, lemma_empty_represents, lemma_string_views_push, lookup, map_keys, strictly_sorted};
use super::{Slots, strings_of, json_strings, opt_json};

verus! {

broadcast use vstd::string::group_string_axioms;

/// The strings among `items`, in order.
pub open spec fn strings_in_order(items: Seq<Json>) -> Seq<Seq<char>>
    decreases items.len(),
{
    if items.len() == 0 {
        Seq::empty()
    } else {
        let rest = strings_in_order(items.drop_last());
        match items.last() {
            Json::Str(s) => rest.push(s@),
            _ => rest,
        }
    }
}

/// The strings of a value that is an array, in order; none otherwise.
pub open spec fn string_list_of(v: Json) -> Seq<Seq<char>> {
    match v {
        Json::Array(items) => strings_in_order(items@),
        _ => Seq::empty(),
    }
}

/// A list of strings, in order.
pub struct StringList {
    items: Vec<String>,
}

impl View for StringList {
    type V = Seq<Seq<char>>;

    closed spec fn view(&self) -> Seq<Seq<char>> {
        string_views(self.items@)
    }
}

impl StringList {
    /// The strings of a value that is an array, in order.
    pub fn of(v: &Json) -> (r: StringList)
        ensures
            r@ == string_list_of(*v),
    {
        let mut items: Vec<String> = Vec::new();
        if let Json::Array(values) = v {
            let mut i: usize = 0;
            while i < values.len()
                invariant
                    i <= values@.len(),
                    string_views(items@) == strings_in_order(values@.take(i as int)),
                decreases values.len() - i,
            {
                assert(values@.take(i + 1).drop_last() =~= values@.take(i as int));
                if let Json::Str(s) = &values[i] {
                    let x = s.clone();
                    proof {
                        lemma_string_views_push(items@, x);
                    }
                    items.push(x);
                }
                i += 1;
            }
            assert(values@.take(i as int) =~= values@);
        } else {
            assert(string_views(items@) =~= Seq::<Seq<char>>::empty());
        }
        StringList { items }
    }

    /// The strings.
    pub fn as_vec(&self) -> (r: &Vec<String>)
        ensures
            string_views(r@) == self@,
    {
        &self.items
    }

    /// Whether `value` is one of the strings.
    pub fn contains(&self, value: &str) -> (r: bool)
        ensures
            r == self@.contains(value@),
    {
        let mut i: usize = 0;
        while i < self.items.len()
            invariant
                i <= self.items@.len(),
                forall|j: int| 0 <= j < i ==> self.items@[j]@ != value@,
            decreases self.items.len() - i,
        {
            if str_eq(self.items[i].as_str(), value) {
                assert(string_views(self.items@)[i as int] == value@);
                return true;
            }
            i += 1;
        }
        proof {
            if self@.contains(value@) {
                let j = choose|j: int| 0 <= j < self@.len() && self@[j] == value@;
                assert(self.items@[j]@ == value@);
            }
        }
        false
    }
}

/// Field names of a trigger's conditions with their coarse types.
pub struct FieldMap {
    fields: Vec<(Vec<char>, String)>,
    map: Ghost<Map<Seq<char>, Seq<char>>>,
}

impl FieldMap {
    #[verifier::type_invariant]
    spec fn well_formed(self) -> bool {
        represents(self.fields@, self.map@)
    }
}

impl View for FieldMap {
    type V = Map<Seq<char>, Seq<char>>;

    closed spec fn view(&self) -> Map<Seq<char>, Seq<char>> {
        self.map@
    }
}

/// The string-valued members among the first `n`.
pub open spec fn fields_read(ms: Seq<(String, Json)>, n: int) -> Map<Seq<char>, Seq<char>>
    decreases n,
{
    if n <= 0 {
        Map::empty()
    } else {
        match ms[n - 1].1 {
            Json::Str(s) => fields_read(ms, n - 1).insert(ms[n - 1].0@, s@),
            _ => fields_read(ms, n - 1),
        }
    }
}

impl FieldMap {
    /// The string-valued members of an object.
    pub fn of(ms: &Vec<(String, Json)>) -> (r: FieldMap)
        ensures
            r@ == fields_read(ms@, ms@.len() as int),
    {
        let mut fields: Vec<(Vec<char>, String)> = Vec::new();
        let ghost mut map: Map<Seq<char>, Seq<char>> = Map::empty();
        proof {
            lemma_empty_represents(fields@);
        }
        let mut i: usize = 0;
        while i < ms.len()
            invariant
                i <= ms@.len(),
                represents(fields@, map),
                map == fields_read(ms@, i as int),
            decreases ms.len() - i,
        {
            if let Json::Str(s) = &ms[i].1 {
                map_insert(&mut fields, chars_of(ms[i].0.as_str()), s.clone());
                proof {
                    map = map.insert(ms@[i as int].0@, s@);
                }
            }
            i += 1;
        }
        FieldMap { fields, map: Ghost(map) }
    }

    /// The field names, in ascending order.
    pub fn names(&self) -> (r: Vec<String>)
        ensures
            strictly_sorted(string_views(r@)),
            string_views(r@).to_set() == self@.dom(),
    {
        proof {
            use_type_invariant(self);
        }
        map_keys(&self.fields, Ghost(self.map@))
    }
}

/// The namespace of an id: the text before its first `:`, `minecraft`
/// when it has none.
pub open spec fn namespace_spec(id: Seq<char>) -> Seq<char> {
    match find_from_spec(id, seq![':'], 0) {
        Some(i) => id.take(i),
        None => "minecraft"@,
    }
}

pub fn namespace_of(id: &[char]) -> (r: Vec<char>)
    ensures
        r@ == namespace_spec(id@),
{
    let colon = vec![':'];
    assert(colon@ =~= seq![':']);
    match find_from(id, colon.as_slice(), 0) {
        Some(i) => slice_vec(id, 0, i),
        None => {
            let r = chars_of("minecraft");
            r
        },
    }
}

/// The edit distance, or `usize::MAX` straight away when the lengths
/// differ by more than four.
pub open spec fn bounded_distance(left: Seq<char>, right: Seq<char>) -> int {
    if left.len() > right.len() + 4 || right.len() > left.len() + 4 {
        usize::MAX as int
    } else {
        levenshtein(left, right) as int
    }
}

fn edit_distance(left: &[char], right: &[char]) -> (d: usize)
    ensures
        d == bounded_distance(left@, right@),
{
    let n = left.len();
    let m = right.len();
    if (n > m && n - m > 4) || (m > n && m - n > 4) {
        return usize::MAX;
    }
    crate::version::entity_nbt::edit_distance(left, right)
}

/// The best candidate among the first `n`: within two edits, closer than
/// every earlier one; the first wins a tie.
pub open spec fn closest_upto(value: Seq<char>, cs: Seq<Seq<char>>, n: int) -> Option<(nat, Seq<char>)>
    decreases n,
{
    if n <= 0 {
        None
    } else {
        let before = closest_upto(value, cs, n - 1);
        let d = levenshtein(value, cs[n - 1]);
        if d <= 2 && (before is None || d < (before->0).0) {
            Some((d, cs[n - 1]))
        } else {
            before
        }
    }
}

/// The candidate closest to `value` (within two edits), first on a tie.
pub open spec fn closest_spec(value: Seq<char>, cs: Seq<Seq<char>>) -> Option<Seq<char>> {
    match closest_upto(value, cs, cs.len() as int) {
        Some(p) => Some(p.1),
        None => None,
    }
}

pub fn closest(value: &str, candidates: &Vec<String>) -> (r: Option<String>)
    ensures
        match r {
            Some(s) => closest_spec(value@, string_views(candidates@)) == Some(s@),
            None => closest_spec(value@, string_views(candidates@)) is None,
        },
{
    let v = chars_of(value);
    let ghost cs = string_views(candidates@);
    let mut best: Option<(usize, String)> = None;
    let mut i: usize = 0;
    while i < candidates.len()
        invariant
            i <= candidates@.len(),
            v@ == value@,
            cs == string_views(candidates@),
            match (best, closest_upto(value@, cs, i as int)) {
                (Some(b), Some(p)) => b.0 == p.0 && b.1@ == p.1,
                (None, None) => true,
                _ => false,
            },
        decreases candidates.len() - i,
    {
        let c = chars_of(candidates[i].as_str());
        assert(c@ == cs[i as int]);
        let distance = edit_distance(v.as_slice(), c.as_slice());
        proof {
            lemma_levenshtein_lower(v@, c@);
        }
        let closer = distance <= 2 && match &best {
            Some(b) => distance < b.0,
            None => true,
        };
        if closer {
            best = Some((distance, candidates[i].clone()));
        }
        i += 1;
    }
    match best {
        Some(b) => Some(b.1),
        None => None,
    }
}

/// Enchantment level limits read from the first `n` members; `None` when a
/// value is not an unsigned integer.
pub open spec fn levels_fold(ms: Seq<(String, Json)>, n: int) -> Option<Map<Seq<char>, u64>>
    decreases n,
{
    if n <= 0 {
        Some(Map::empty())
    } else {
        match levels_fold(ms, n - 1) {
            None => None,
            Some(m) => match ms[n - 1].1 {
                Json::Number(Some(level)) => Some(m.insert(ms[n - 1].0@, level)),
                _ => None,
            },
        }
    }
}

/// The enchantment level limits: none listed is an empty table; anything
/// but an object of unsigned integers is invalid.
pub open spec fn levels_read(v: Option<Json>) -> Option<Map<Seq<char>, u64>> {
    match v {
        None => Some(Map::empty()),
        Some(Json::Object(ms)) => levels_fold(ms@, ms@.len() as int),
        Some(_) => None,
    }
}

/// Each member's value read as a set of strings.
pub open spec fn sets_read(ms: Seq<(String, Json)>, n: int) -> Map<Seq<char>, Set<Seq<char>>>
    decreases n,
{
    if n <= 0 {
        Map::empty()
    } else {
        sets_read(ms, n - 1).insert(ms[n - 1].0@, json_strings(Some(ms[n - 1].1)))
    }
}

/// Each member's value read as a list of strings.
pub open spec fn lists_read(ms: Seq<(String, Json)>, n: int) -> Map<Seq<char>, Seq<Seq<char>>>
    decreases n,
{
    if n <= 0 {
        Map::empty()
    } else {
        lists_read(ms, n - 1).insert(ms[n - 1].0@, string_list_of(ms[n - 1].1))
    }
}

/// Each member's value, as it stands.
pub open spec fn values_read(ms: Seq<(String, Json)>, n: int) -> Map<Seq<char>, Json>
    decreases n,
{
    if n <= 0 {
        Map::empty()
    } else {
        values_read(ms, n - 1).insert(ms[n - 1].0@, ms[n - 1].1)
    }
}

/// The object-valued members, each read as a table of string fields.
pub open spec fn field_maps_read(ms: Seq<(String, Json)>, n: int) -> Map<Seq<char>, Map<Seq<char>, Seq<char>>>
    decreases n,
{
    if n <= 0 {
        Map::empty()
    } else {
        match ms[n - 1].1 {
            Json::Object(inner) => field_maps_read(ms, n - 1).insert(ms[n - 1].0@, fields_read(inner@, inner@.len() as int)),
            _ => field_maps_read(ms, n - 1),
        }
    }
}

/// Registry ids, resource kinds, tag registries, slots and enchantment
/// level limits.
pub struct RegistrySnapshot {
    levels: Vec<(Vec<char>, u64)>,
    registries: Vec<(Vec<char>, StringSet)>,
    resource_kinds: StringSet,
    tag_registries: StringSet,
    slots: Slots,
    level_map: Ghost<Map<Seq<char>, u64>>,
    registry_map: Ghost<Map<Seq<char>, Set<Seq<char>>>>,
}

impl RegistrySnapshot {
    #[verifier::type_invariant]
    spec fn well_formed(self) -> bool {
        &&& represents(self.levels@, self.level_map@)
        &&& represents(self.registries@, self.registry_map@)
    }

    pub closed spec fn levels(&self) -> Map<Seq<char>, u64> {
        self.level_map@
    }

    pub closed spec fn registries(&self) -> Map<Seq<char>, Set<Seq<char>>> {
        self.registry_map@
    }

    pub closed spec fn resource_kinds(&self) -> Set<Seq<char>> {
        self.resource_kinds@
    }

    pub closed spec fn tag_registries(&self) -> Set<Seq<char>> {
        self.tag_registries@
    }

    pub closed spec fn slot_table(&self) -> Slots {
        self.slots
    }

    /// The level limit of an enchantment.
    pub fn level(&self, id: &str) -> (r: Option<u64>)
        ensures
            r == (if self.levels().contains_key(id@) {
                Some(self.levels()[id@])
            } else {
                None
            }),
    {
        proof {
            use_type_invariant(self);
        }
        let k = chars_of(id);
        match lookup(&self.levels, k.as_slice(), Ghost(self.level_map@)) {
            Some(level) => Some(*level),
            None => None,
        }
    }

    /// The ids of a registry.
    pub fn registry(&self, kind: &str) -> (r: Option<&StringSet>)
        ensures
            match r {
                Some(ids) => self.registries().contains_key(kind@) && ids@ == self.registries()[kind@],
                None => !self.registries().contains_key(kind@),
            },
    {
        proof {
            use_type_invariant(self);
        }
        let k = chars_of(kind);
        lookup(&self.registries, k.as_slice(), Ghost(self.registry_map@))
    }

    pub fn resource_kind_set(&self) -> (r: &StringSet)
        ensures
            r@ == self.resource_kinds(),
    {
        &self.resource_kinds
    }

    pub fn tag_registry_set(&self) -> (r: &StringSet)
        ensures
            r@ == self.tag_registries(),
    {
        &self.tag_registries
    }

    pub fn slots(&self) -> (r: &Slots)
        ensures
            *r == self.slot_table(),
    {
        &self.slots
    }

    /// Reads the registry snapshot document; `None` when its enchantment
    /// level table is not an object of unsigned integers.
    pub fn load(root: &Json) -> (r: Option<RegistrySnapshot>)
        ensures
            match (r, levels_read(json_get(*root, "enchantment_max_levels"@))) {
                (Some(s), Some(levels)) => {
                    let rs = members_of(json_get(*root, "registries"@));
                    &&& s.levels() == levels
                    &&& s.registries() == sets_read(rs, rs.len() as int)
                    &&& s.resource_kinds() == json_strings(json_get(*root, "resource_kinds"@))
                    &&& s.tag_registries() == json_strings(json_get(*root, "tag_registries"@))
                    &&& super::slots_read(json_get(*root, "slots"@), s.slot_table())
                },
                (None, None) => true,
                _ => false,
            },
    {
        let mut levels: Vec<(Vec<char>, u64)> = Vec::new();
        let ghost mut level_map: Map<Seq<char>, u64> = Map::empty();
        proof {
            lemma_empty_represents(levels@);
        }
        match get(root, "enchantment_max_levels") {
            None => {},
            Some(Json::Object(ms)) => {
                let mut i: usize = 0;
                while i < ms.len()
                    invariant
                        i <= ms@.len(),
                        represents(levels@, level_map),
                        levels_fold(ms@, i as int) == Some(level_map),
                        levels_read(json_get(*root, "enchantment_max_levels"@)) == levels_fold(ms@, ms@.len() as int),
                    decreases ms.len() - i,
                {
                    match &ms[i].1 {
                        Json::Number(Some(level)) => {
                            map_insert(&mut levels, chars_of(ms[i].0.as_str()), *level);
                            proof {
                                level_map = level_map.insert(ms@[i as int].0@, *level);
                            }
                        },
                        _ => {
                            proof {
                                lemma_levels_fold_stays(ms@, i + 1, ms@.len() as int);
                            }
                            return None;
                        },
                    }
                    i += 1;
                }
            },
            Some(_) => {
                return None;
            },
        }
        let mut registries: Vec<(Vec<char>, StringSet)> = Vec::new();
        let ghost mut registry_map: Map<Seq<char>, Set<Seq<char>>> = Map::empty();
        let ghost rs = members_of(json_get(*root, "registries"@));
        proof {
            lemma_empty_represents(registries@);
        }
        if let Some(Json::Object(ms)) = get(root, "registries") {
            let mut i: usize = 0;
            while i < ms.len()
                invariant
                    i <= ms@.len(),
                    rs == ms@,
                    represents(registries@, registry_map),
                    registry_map == sets_read(rs, i as int),
                decreases ms.len() - i,
            {
                let ids = strings_of(Some(&ms[i].1));
                map_insert(&mut registries, chars_of(ms[i].0.as_str()), ids);
                proof {
                    registry_map = registry_map.insert(ms@[i as int].0@, json_strings(Some(ms@[i as int].1)));
                }
                i += 1;
            }
        }
        let resource_kinds = strings_of(get(root, "resource_kinds"));
        let tag_registries = strings_of(get(root, "tag_registries"));
        let slots = Slots::from_value(get(root, "slots"));
        Some(RegistrySnapshot {
            levels,
            registries,
            resource_kinds,
            tag_registries,
            slots,
            level_map: Ghost(level_map),
            registry_map: Ghost(registry_map),
        })
    }
}

/// Once a level value is invalid, later members change nothing.
proof fn lemma_levels_fold_stays(ms: Seq<(String, Json)>, n: int, m: int)
    requires
        0 <= n <= m,
        levels_fold(ms, n) is None,
    ensures
        levels_fold(ms, m) is None,
    decreases m - n,
{
    if m > n {
        lemma_levels_fold_stays(ms, n, m - 1);
    }
}

/// The values of each enum, in order.
pub struct EnumSnapshot {
    enums: Vec<(Vec<char>, StringList)>,
    enum_map: Ghost<Map<Seq<char>, Seq<Seq<char>>>>,
}

impl EnumSnapshot {
    #[verifier::type_invariant]
    spec fn well_formed(self) -> bool {
        represents(self.enums@, self.enum_map@)
    }

    pub closed spec fn enums(&self) -> Map<Seq<char>, Seq<Seq<char>>> {
        self.enum_map@
    }

    /// The values of an enum, in order.
    pub fn values(&self, name: &str) -> (r: Option<&StringList>)
        ensures
            match r {
                Some(values) => self.enums().contains_key(name@) && values@ == self.enums()[name@],
                None => !self.enums().contains_key(name@),
            },
    {
        proof {
            use_type_invariant(self);
        }
        let k = chars_of(name);
        lookup(&self.enums, k.as_slice(), Ghost(self.enum_map@))
    }

    /// Reads the enum snapshot document.
    pub fn load(root: &Json) -> (r: EnumSnapshot)
        ensures
            ({
                let ms = members_of(json_get(*root, "enums"@));
                r.enums() == lists_read(ms, ms.len() as int)
            }),
    {
        let mut enums: Vec<(Vec<char>, StringList)> = Vec::new();
        let ghost mut enum_map: Map<Seq<char>, Seq<Seq<char>>> = Map::empty();
        let ghost es = members_of(json_get(*root, "enums"@));
        proof {
            lemma_empty_represents(enums@);
        }
        if let Some(Json::Object(ms)) = get(root, "enums") {
            let mut i: usize = 0;
            while i < ms.len()
                invariant
                    i <= ms@.len(),
                    es == ms@,
                    represents(enums@, enum_map),
                    enum_map == lists_read(es, i as int),
                decreases ms.len() - i,
            {
                let values = StringList::of(&ms[i].1);
                map_insert(&mut enums, chars_of(ms[i].0.as_str()), values);
                proof {
                    enum_map = enum_map.insert(ms@[i as int].0@, string_list_of(ms@[i as int].1));
                }
                i += 1;
            }
        }
        EnumSnapshot { enums, enum_map: Ghost(enum_map) }
    }
}

/// The root command nodes of the command tree.
pub struct CommandSnapshot {
    commands: Vec<(Vec<char>, Json)>,
    command_map: Ghost<Map<Seq<char>, Json>>,
}

impl CommandSnapshot {
    #[verifier::type_invariant]
    spec fn well_formed(self) -> bool {
        represents(self.commands@, self.command_map@)
    }

    pub closed spec fn commands(&self) -> Map<Seq<char>, Json> {
        self.command_map@
    }

    /// The node of a root command.
    pub fn node(&self, name: &str) -> (r: Option<&Json>)
        ensures
            match r {
                Some(node) => self.commands().contains_key(name@) && *node == self.commands()[name@],
                None => !self.commands().contains_key(name@),
            },
    {
        proof {
            use_type_invariant(self);
        }
        let k = chars_of(name);
        lookup(&self.commands, k.as_slice(), Ghost(self.command_map@))
    }

    /// The root command names, in ascending order.
    pub fn names(&self) -> (r: Vec<String>)
        ensures
            strictly_sorted(string_views(r@)),
            string_views(r@).to_set() == self.commands().dom(),
    {
        proof {
            use_type_invariant(self);
        }
        map_keys(&self.commands, Ghost(self.command_map@))
    }

    /// Reads the command snapshot document, taking its nodes.
    pub fn load(root: Json) -> (r: CommandSnapshot)
        ensures
            ({
                let ms = members_of(json_get(root, "commands"@));
                r.commands() == values_read(ms, ms.len() as int)
            }),
    {
        let mut commands: Vec<(Vec<char>, Json)> = Vec::new();
        let ghost mut command_map: Map<Seq<char>, Json> = Map::empty();
        let ghost cs = members_of(json_get(root, "commands"@));
        proof {
            lemma_empty_represents(commands@);
        }
        let mut members = match root {
            Json::Object(ms) => ms,
            _ => Vec::new(),
        };
        let found = crate::json::member_index(&members, "commands");
        let mut nodes = match found {
            Some(at) => {
                let (_, value) = members.remove(at);
                match value {
                    Json::Object(ns) => ns,
                    _ => Vec::new(),
                }
            },
            None => Vec::new(),
        };
        assert(nodes@ == cs);
        let ghost all = nodes@;
        let total = nodes.len();
        assert(all.len() == total);
        let mut i: usize = 0;
        while nodes.len() > 0
            invariant
                all == cs,
                all.len() <= usize::MAX,
                i + nodes@.len() == all.len(),
                nodes@ == all.skip(i as int),
                represents(commands@, command_map),
                command_map == values_read(all, i as int),
            decreases nodes.len(),
        {
            let (name, node) = nodes.remove(0);
            assert(all[i as int] == (name, node));
            map_insert(&mut commands, chars_of(name.as_str()), node);
            proof {
                command_map = command_map.insert(name@, node);
            }
            i += 1;
            assert(nodes@ =~= all.skip(i as int));
        }
        CommandSnapshot { commands, command_map: Ghost(command_map) }
    }
}

/// The condition fields of each advancement trigger.
pub struct TriggerSnapshot {
    triggers: Vec<(Vec<char>, FieldMap)>,
    trigger_map: Ghost<Map<Seq<char>, Map<Seq<char>, Seq<char>>>>,
}

impl TriggerSnapshot {
    #[verifier::type_invariant]
    spec fn well_formed(self) -> bool {
        represents(self.triggers@, self.trigger_map@)
    }

    pub closed spec fn triggers(&self) -> Map<Seq<char>, Map<Seq<char>, Seq<char>>> {
        self.trigger_map@
    }

    /// The condition fields of a trigger.
    pub fn fields(&self, trigger: &str) -> (r: Option<&FieldMap>)
        ensures
            match r {
                Some(fields) => self.triggers().contains_key(trigger@) && fields@ == self.triggers()[trigger@],
                None => !self.triggers().contains_key(trigger@),
            },
    {
        proof {
            use_type_invariant(self);
        }
        let k = chars_of(trigger);
        lookup(&self.triggers, k.as_slice(), Ghost(self.trigger_map@))
    }

    /// Reads the trigger snapshot document.
    pub fn load(root: &Json) -> (r: TriggerSnapshot)
        ensures
            ({
                let ms = members_of(json_get(*root, "triggers"@));
                r.triggers() == field_maps_read(ms, ms.len() as int)
            }),
    {
        let mut triggers: Vec<(Vec<char>, FieldMap)> = Vec::new();
        let ghost mut trigger_map: Map<Seq<char>, Map<Seq<char>, Seq<char>>> = Map::empty();
        let ghost ts = members_of(json_get(*root, "triggers"@));
        proof {
            lemma_empty_represents(triggers@);
        }
        if let Some(Json::Object(ms)) = get(root, "triggers") {
            let mut i: usize = 0;
            while i < ms.len()
                invariant
                    i <= ms@.len(),
                    ts == ms@,
                    represents(triggers@, trigger_map),
                    trigger_map == field_maps_read(ts, i as int),
                decreases ms.len() - i,
            {
                if let Json::Object(inner) = &ms[i].1 {
                    let fields = FieldMap::of(inner);
                    map_insert(&mut triggers, chars_of(ms[i].0.as_str()), fields);
                    proof {
                        trigger_map = trigger_map.insert(ms@[i as int].0@, fields_read(inner@, inner@.len() as int));
                    }
                }
                i += 1;
            }
        }
        TriggerSnapshot { triggers, trigger_map: Ghost(trigger_map) }
    }
}

/// Whether `kind` names a resource kind that `resource` declarations take:
/// a listed kind, or `tags/` followed by `function` or a tag registry.
pub open spec fn resource_kind_spec(kinds: Set<Seq<char>>, tag_registries: Set<Seq<char>>, kind: Seq<char>) -> bool {
    kinds.contains(kind) || match super::suffix_after(kind, "tags/"@) {
        Some(registry) => registry == "function"@ || tag_registries.contains(registry),
        None => false,
    }
}

/// The level a command node declares, truncated to its low byte.
pub open spec fn node_level(node: Json) -> Option<u8> {
    match crate::json::json_get(node, "level"@) {
        Some(Json::Number(Some(level))) => Some(level as u8),
        _ => None,
    }
}

/// The registry snapshot that `RegistrySnapshot::load` reads from `root`.
pub open spec fn registry_loaded(root: Json, s: RegistrySnapshot) -> bool {
    match levels_read(json_get(root, "enchantment_max_levels"@)) {
        Some(levels) => {
            let rs = members_of(json_get(root, "registries"@));
            &&& s.levels() == levels
            &&& s.registries() == sets_read(rs, rs.len() as int)
            &&& s.resource_kinds() == json_strings(json_get(root, "resource_kinds"@))
            &&& s.tag_registries() == json_strings(json_get(root, "tag_registries"@))
            &&& super::slots_read(json_get(root, "slots"@), s.slot_table())
        },
        None => false,
    }
}

/// Why the snapshot texts cannot be loaded.
#[derive(Clone, Copy, PartialEq, Eq, Structural, Debug)]
pub enum SnapshotError {
    /// A file is not valid JSON.
    InvalidJson,
    /// The enchantment level table holds something other than unsigned
    /// integers.
    InvalidLevels,
}

/// The first problem of the four snapshot texts, in the order registries,
/// enums, commands, triggers.
pub open spec fn snapshot_error(registries: Seq<char>, enums: Seq<char>, commands: Seq<char>, triggers: Seq<char>) -> Option<
    SnapshotError,
> {
    match parsed_json(registries) {
        Err(_) => Some(SnapshotError::InvalidJson),
        Ok(doc) => if levels_read(json_get(doc, "enchantment_max_levels"@)) is None {
            Some(SnapshotError::InvalidLevels)
        } else if parsed_json(enums) is Err || parsed_json(commands) is Err || parsed_json(triggers) is Err {
            Some(SnapshotError::InvalidJson)
        } else {
            None
        },
    }
}

/// The version snapshot: registries, enums, commands and trigger fields.
pub struct Snapshot {
    pub registry: RegistrySnapshot,
    pub enums: EnumSnapshot,
    pub commands: CommandSnapshot,
    pub triggers: TriggerSnapshot,
}

impl Snapshot {
    /// Loads the snapshot from the texts of its four files.
    pub fn from_texts(registries: &str, enums: &str, commands: &str, triggers: &str) -> (r: Result<
        Snapshot,
        SnapshotError,
    >)
        ensures
            match r {
                Ok(s) => snapshot_error(registries@, enums@, commands@, triggers@) is None && registry_loaded(
                    parsed_json(registries@)->Ok_0,
                    s.registry,
                ) && ({
                    let ms = members_of(json_get(parsed_json(enums@)->Ok_0, "enums"@));
                    s.enums.enums() == lists_read(ms, ms.len() as int)
                }) && ({
                    let ms = members_of(json_get(parsed_json(commands@)->Ok_0, "commands"@));
                    s.commands.commands() == values_read(ms, ms.len() as int)
                }) && ({
                    let ms = members_of(json_get(parsed_json(triggers@)->Ok_0, "triggers"@));
                    s.triggers.triggers() == field_maps_read(ms, ms.len() as int)
                }),
                Err(e) => snapshot_error(registries@, enums@, commands@, triggers@) == Some(e),
            },
    {
        let registry_doc = match parse_json(registries) {
            Ok(doc) => doc,
            Err(_) => return Err(SnapshotError::InvalidJson),
        };
        let registry = match RegistrySnapshot::load(&registry_doc) {
            Some(r) => r,
            None => return Err(SnapshotError::InvalidLevels),
        };
        let enum_doc = match parse_json(enums) {
            Ok(doc) => doc,
            Err(_) => return Err(SnapshotError::InvalidJson),
        };
        let command_doc = match parse_json(commands) {
            Ok(doc) => doc,
            Err(_) => return Err(SnapshotError::InvalidJson),
        };
        let trigger_doc = match parse_json(triggers) {
            Ok(doc) => doc,
            Err(_) => return Err(SnapshotError::InvalidJson),
        };
        Ok(Snapshot {
            registry,
            enums: EnumSnapshot::load(&enum_doc),
            commands: CommandSnapshot::load(command_doc),
            triggers: TriggerSnapshot::load(&trigger_doc),
        })
    }

    pub fn enchantment_max_level(&self, id: &str) -> (r: Option<u64>)
        ensures
            r == (if self.registry.levels().contains_key(id@) {
                Some(self.registry.levels()[id@])
            } else {
                None
            }),
    {
        self.registry.level(id)
    }

    /// The condition fields of an advancement trigger (field name to
    /// coarse type); `None` for an unknown trigger, which is not checked.
    pub fn trigger_fields(&self, trigger: &str) -> (r: Option<&FieldMap>)
        ensures
            match r {
                Some(fields) => self.triggers.triggers().contains_key(trigger@) && fields@ == self.triggers.triggers()[trigger@],
                None => !self.triggers.triggers().contains_key(trigger@),
            },
    {
        self.triggers.fields(trigger)
    }

    /// The closest spelling of a trigger condition field (within two edits).
    pub fn suggest_trigger_field(&self, trigger: &str, field: &str) -> (r: Option<String>)
        ensures
            !self.triggers.triggers().contains_key(trigger@) ==> r is None,
            self.triggers.triggers().contains_key(trigger@) ==> exists|names: Seq<Seq<char>>| {
                &&& strictly_sorted(names)
                &&& names.to_set() == self.triggers.triggers()[trigger@].dom()
                &&& #[trigger] closest_spec(field@, names) == opt_view(r)
            },
    {
        match self.triggers.fields(trigger) {
            None => None,
            Some(fields) => {
                let names = fields.names();
                let r = closest(field, &names);
                assert(closest_spec(field@, string_views(names@)) == opt_view(r));
                r
            },
        }
    }

    /// Whether a registry holds `id`; `None` when the snapshot does not
    /// cover the registry, or when the id is in another namespace (it may
    /// come from a data pack).
    pub fn registry_contains(&self, kind: &str, id: &str) -> (r: Option<bool>)
        ensures
            r == (if !self.registry.registries().contains_key(kind@) {
                None
            } else if namespace_spec(id@) != "minecraft"@ {
                None
            } else {
                Some(self.registry.registries()[kind@].contains(id@))
            }),
    {
        match self.registry.registry(kind) {
            None => None,
            Some(ids) => {
                let i = chars_of(id);
                let namespace = namespace_of(i.as_slice());
                if !crate::chars::chars_eq_str(namespace.as_slice(), "minecraft") {
                    return None;
                }
                Some(ids.contains(id))
            },
        }
    }

    /// Exact membership, for registries whose entries only code registers.
    pub fn registry_contains_exact(&self, kind: &str, id: &str) -> (r: Option<bool>)
        ensures
            r == (if self.registry.registries().contains_key(kind@) {
                Some(self.registry.registries()[kind@].contains(id@))
            } else {
                None
            }),
    {
        match self.registry.registry(kind) {
            None => None,
            Some(ids) => Some(ids.contains(id)),
        }
    }

    /// Whether the registry comes from the bundled sources.
    pub fn knows_registry(&self, kind: &str) -> (r: bool)
        ensures
            r == self.registry.registries().contains_key(kind@),
    {
        self.registry.registry(kind).is_some()
    }

    /// The closest registry id (within two edits), for `minecraft:` ids.
    pub fn suggest_registry_id(&self, kind: &str, id: &str) -> (r: Option<String>)
        ensures
            !self.registry.registries().contains_key(kind@) ==> r is None,
            namespace_spec(id@) != "minecraft"@ ==> r is None,
            self.registry.registries().contains_key(kind@) && namespace_spec(id@) == "minecraft"@ ==> exists|names: Seq<Seq<char>>| {
                &&& strictly_sorted(names)
                &&& names.to_set() == self.registry.registries()[kind@]
                &&& #[trigger] closest_spec(id@, names) == opt_view(r)
            },
    {
        match self.registry.registry(kind) {
            None => None,
            Some(ids) => {
                let i = chars_of(id);
                let namespace = namespace_of(i.as_slice());
                if !crate::chars::chars_eq_str(namespace.as_slice(), "minecraft") {
                    return None;
                }
                let names = ids.keys();
                let r = closest(id, &names);
                assert(closest_spec(id@, string_views(names@)) == opt_view(r));
                r
            },
        }
    }

    /// The values of an enum such as `gamemode` or `display_slot`.
    pub fn enum_values(&self, name: &str) -> (r: Option<&Vec<String>>)
        ensures
            match r {
                Some(values) => self.enums.enums().contains_key(name@) && string_views(values@) == self.enums.enums()[name@],
                None => !self.enums.enums().contains_key(name@),
            },
    {
        match self.enums.values(name) {
            Some(values) => Some(values.as_vec()),
            None => None,
        }
    }

    /// Whether an enum has the value.
    pub fn enum_contains(&self, name: &str, value: &str) -> (r: bool)
        ensures
            r == (self.enums.enums().contains_key(name@) && self.enums.enums()[name@].contains(value@)),
    {
        match self.enums.values(name) {
            Some(values) => values.contains(value),
            None => false,
        }
    }

    /// The closest enum value (within two edits), first in order on a tie.
    pub fn suggest_enum(&self, name: &str, value: &str) -> (r: Option<String>)
        ensures
            opt_view(r) == (if self.enums.enums().contains_key(name@) {
                closest_spec(value@, self.enums.enums()[name@])
            } else {
                None
            }),
    {
        match self.enums.values(name) {
            Some(values) => closest(value, values.as_vec()),
            None => None,
        }
    }

    /// Whether `resource` declarations take the kind.
    pub fn resource_kind_supported(&self, kind: &str) -> (r: bool)
        ensures
            r == resource_kind_spec(self.registry.resource_kinds(), self.registry.tag_registries(), kind@),
    {
        if self.registry.resource_kind_set().contains(kind) {
            return true;
        }
        let k = chars_of(kind);
        let prefix = chars_of("tags/");
        if starts_at(k.as_slice(), 0, prefix.as_slice()) {
            let registry = slice_vec(k.as_slice(), prefix.len(), k.len());
            assert(registry@ =~= k@.skip(prefix@.len() as int));
            assert(super::suffix_after(kind@, "tags/"@) == Some(registry@));
            crate::chars::chars_eq_str(registry.as_slice(), "function") || self.registry.tag_registry_set().has(
                registry.as_slice(),
            )
        } else {
            false
        }
    }

    /// The slot table.
    pub fn slots(&self) -> (r: &Slots)
        ensures
            *r == self.registry.slot_table(),
    {
        self.registry.slots()
    }

    /// The node of a root command, `None` when unknown.
    pub fn root_command(&self, name: &str) -> (r: Option<&Json>)
        ensures
            match r {
                Some(node) => self.commands.commands().contains_key(name@) && *node == self.commands.commands()[name@],
                None => !self.commands.commands().contains_key(name@),
            },
    {
        self.commands.node(name)
    }

    /// Whether the root command exists.
    pub fn has_root_command(&self, name: &str) -> (r: bool)
        ensures
            r == self.commands.commands().contains_key(name@),
    {
        self.commands.node(name).is_some()
    }

    /// The permission level (0–4) a root command requires; `None` when
    /// undeclared.
    pub fn root_command_level(&self, name: &str) -> (r: Option<u8>)
        ensures
            r == (if self.commands.commands().contains_key(name@) {
                node_level(self.commands.commands()[name@])
            } else {
                None
            }),
    {
        match self.commands.node(name) {
            None => None,
            Some(node) => match get(node, "level") {
                Some(Json::Number(Some(level))) => Some(*level as u8),
                _ => None,
            },
        }
    }

    /// Every root command name, in ascending order.
    pub fn command_names(&self) -> (r: Vec<String>)
        ensures
            strictly_sorted(string_views(r@)),
            string_views(r@).to_set() == self.commands.commands().dom(),
    {
        self.commands.names()
    }
}

/// The view of an optional string.
pub open spec fn opt_view(r: Option<String>) -> Option<Seq<char>> {
    match r {
        Some(s) => Some(s@),
        None => None,
    }
}

/// A suggestion is one of the candidates, within two edits of the value;
/// when some candidate is that close, there is a suggestion.
pub proof fn lemma_closest_fits(value: Seq<char>, cs: Seq<Seq<char>>)
    ensures
        closest_spec(value, cs) matches Some(c) ==> cs.contains(c) && levenshtein(value, c) <= 2,
        (exists|i: int| 0 <= i < cs.len() && levenshtein(value, #[trigger] cs[i]) <= 2) ==> closest_spec(value, cs) is Some,
{
    lemma_closest_upto(value, cs, cs.len() as int);
}

proof fn lemma_closest_upto(value: Seq<char>, cs: Seq<Seq<char>>, n: int)
    requires
        n <= cs.len(),
    ensures
        closest_upto(value, cs, n) matches Some(p) ==> exists|i: int| 0 <= i < n && cs[i] == p.1 && levenshtein(value, cs[i]) == p.0 && p.0 <= 2,
        (exists|i: int| 0 <= i < n && levenshtein(value, #[trigger] cs[i]) <= 2) ==> closest_upto(value, cs, n) is Some,
    decreases n,
{
    if n > 0 {
        lemma_closest_upto(value, cs, n - 1);
        if exists|i: int| 0 <= i < n && levenshtein(value, #[trigger] cs[i]) <= 2 {
            let i = choose|i: int| 0 <= i < n && levenshtein(value, #[trigger] cs[i]) <= 2;
            if i < n - 1 {
                assert(closest_upto(value, cs, n - 1) is Some);
            }
        }
    }
}

} // verus!
