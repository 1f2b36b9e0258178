//! The enum values that command arguments take, read from the bundled
//! sources: the time units of `TimeArgument`.

use vstd::prelude::*;
use crate::chars::{chars_of, matches_at, starts_at, string_from};
use crate::sorted::{ascending, string_views, sort_strings, lemma_string_views_push};
use super::text::{paren_range_spec, first_string_spec, matching_paren, first_string_chars};

verus! {

broadcast use vstd::string::group_string_axioms;

/// The unit of the `UNITS.put(...)` entry at `i`: its first string
/// argument, unless that is missing or empty (the plain tick).
pub open spec fn unit_at(t: Seq<char>, i: int) -> Seq<Seq<char>> {
    match paren_range_spec(t, i + 9) {
        Some((inner, _)) => match first_string_spec(inner) {
            Some(u) => if u.len() > 0 {
                seq![u]
            } else {
                seq![]
            },
            None => seq![],
        },
        None => seq![],
    }
}

/// The units of the `UNITS.put(` entries at or after `i`, left to right.
pub open spec fn units_from(t: Seq<char>, i: int) -> Seq<Seq<char>>
    decreases t.len() - i,
{
    if i < 0 || i + 10 > t.len() {
        seq![]
    } else if matches_at(t, i, "UNITS.put("@) {
        unit_at(t, i) + units_from(t, i + 10)
    } else {
        units_from(t, i + 1)
    }
}

/// The time units of `TimeArgument.UNITS`, in ascending order.
pub fn time_units(text: &str) -> (r: Vec<String>)
    ensures
        ascending(string_views(r@)),
        string_views(r@).to_multiset() == units_from(text@, 0).to_multiset(),
{
    proof {
        reveal_strlit("UNITS.put(");
    }
    let t = chars_of(text);
    let pattern = chars_of("UNITS.put(");
    assert(pattern@.len() == 10);
    let mut found: Vec<String> = Vec::new();
    let mut i: usize = 0;
    while i <= t.len() && t.len() - i >= 10
        invariant
            t@ == text@,
            pattern@ == "UNITS.put("@,
            pattern@.len() == 10,
            i <= t@.len(),
            string_views(found@) + units_from(t@, i as int) == units_from(t@, 0),
        decreases t.len() - i,
    {
        if starts_at(t.as_slice(), i, pattern.as_slice()) {
            let ghost before = string_views(found@);
            match matching_paren(t.as_slice(), i + 9) {
                Some(inner) => {
                    match first_string_chars(inner.as_slice()) {
                        Some(chars) => {
                            if chars.len() > 0 {
                                let unit = string_from(chars.as_slice());
                                proof {
                                    lemma_string_views_push(found@, unit);
                                    assert(unit_at(t@, i as int) =~= seq![unit@]);
                                    assert(before.push(unit@) + units_from(t@, i + 10) =~= before + (unit_at(
                                        t@,
                                        i as int,
                                    ) + units_from(t@, i + 10)));
                                }
                                found.push(unit);
                            } else {
                                proof {
                                    assert(unit_at(t@, i as int) =~= Seq::<Seq<char>>::empty());
                                    assert(unit_at(t@, i as int) + units_from(t@, i + 10) =~= units_from(t@, i + 10));
                                }
                            }
                        },
                        None => {
                            proof {
                                assert(unit_at(t@, i as int) + units_from(t@, i + 10) =~= units_from(t@, i + 10));
                            }
                        },
                    }
                },
                None => {
                    proof {
                        assert(unit_at(t@, i as int) + units_from(t@, i + 10) =~= units_from(t@, i + 10));
                    }
                },
            }
            i += 10;
        } else {
            i += 1;
        }
    }
    proof {
        assert(units_from(t@, i as int) =~= Seq::<Seq<char>>::empty());
        assert(string_views(found@) + units_from(t@, i as int) =~= string_views(found@));
    }
    sort_strings(found)
}

/// The enums read from `enum` declarations: the enum's name in the
/// snapshot, its source file, and the text that opens its declaration.
pub open spec fn enum_sources_spec() -> Seq<(Seq<char>, Seq<char>, Seq<char>)> {
    seq![
        ("gamemode"@, "net/minecraft/world/level/GameType.java"@, "public enum GameType"@),
        ("difficulty"@, "net/minecraft/world/Difficulty.java"@, "public enum Difficulty"@),
        ("display_slot"@, "net/minecraft/world/scores/DisplaySlot.java"@, "public enum DisplaySlot"@),
        ("team_color"@, "net/minecraft/world/scores/TeamColor.java"@, "public enum TeamColor"@),
        ("sound_source"@, "net/minecraft/sounds/SoundSource.java"@, "public enum SoundSource"@),
        ("anchor"@, "net/minecraft/commands/arguments/EntityAnchorArgument.java"@, "enum Anchor"@),
        ("heightmap"@, "net/minecraft/world/level/levelgen/Heightmap.java"@, "enum Types"@),
    ]
}

/// The table of `enum_sources_spec`.
pub fn enum_sources() -> (r: Vec<(&'static str, &'static str, &'static str)>)
    ensures
        r@.map_values(|t: (&'static str, &'static str, &'static str)| (t.0@, t.1@, t.2@)) == enum_sources_spec(),
        forall|i: int| 0 <= i < r@.len() ==> (#[trigger] r@[i]).2@.len() > 0,
{
    let r = vec![
        ("gamemode", "net/minecraft/world/level/GameType.java", "public enum GameType"),
        ("difficulty", "net/minecraft/world/Difficulty.java", "public enum Difficulty"),
        ("display_slot", "net/minecraft/world/scores/DisplaySlot.java", "public enum DisplaySlot"),
        ("team_color", "net/minecraft/world/scores/TeamColor.java", "public enum TeamColor"),
        ("sound_source", "net/minecraft/sounds/SoundSource.java", "public enum SoundSource"),
        ("anchor", "net/minecraft/commands/arguments/EntityAnchorArgument.java", "enum Anchor"),
        ("heightmap", "net/minecraft/world/level/levelgen/Heightmap.java", "enum Types"),
    ];
    proof {
        reveal_strlit("public enum GameType");
        reveal_strlit("public enum Difficulty");
        reveal_strlit("public enum DisplaySlot");
        reveal_strlit("public enum TeamColor");
        reveal_strlit("public enum SoundSource");
        reveal_strlit("enum Anchor");
        reveal_strlit("enum Types");
    }
    assert(r@.map_values(|t: (&'static str, &'static str, &'static str)| (t.0@, t.1@, t.2@)) =~= enum_sources_spec());
    r
}

/// The swizzle axes, which no source file lists.
pub fn swizzle_axes() -> (r: Vec<String>)
    ensures
        string_views(r@) == seq!["x"@, "y"@, "z"@],
{
    let r = vec!["x".to_owned(), "y".to_owned(), "z".to_owned()];
    assert(string_views(r@) =~= seq!["x"@, "y"@, "z"@]);
    r
}

} // verus!
