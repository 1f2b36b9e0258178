//! Version-data generation: conservative text extraction from the bundled
//! Minecraft sources, and the set of files a generation produces.

pub mod block_states;
pub mod commands;
pub mod enums;
pub mod extract;
pub mod registries;
pub mod text;
pub mod triggers;

use vstd::prelude::*;
use crate::sorted::{strictly_sorted, seq_less};

verus! {

/// The directory of the bundled Minecraft sources below the repository.
pub const SOURCE_DIR: &'static str = "minecraft_client_26.3-rc-2";

/// The version that the snapshot describes.
pub const VERSION: &'static str = "26.3-rc-2";

/// One generated file: its name and contents.
pub struct Output {
    pub name: &'static str,
    pub contents: String,
}

/// The names of the generated files, in ascending order.
pub open spec fn output_names() -> Seq<Seq<char>> {
    seq![
        "advancement_triggers.json"@,
        "block_states.json"@,
        "commands.json"@,
        "entity_nbt.json"@,
        "enums.json"@,
        "registries.json"@,
    ]
}

/// The first error among generation results, in generation order.
pub open spec fn first_error(parts: Seq<Result<String, String>>) -> Option<Seq<char>>
    decreases parts.len(),
{
    if parts.len() == 0 {
        None
    } else {
        match parts[0] {
            Err(e) => Some(e@),
            Ok(_) => first_error(parts.drop_first()),
        }
    }
}

/// The contents of a successful generation result.
pub open spec fn contents_of(part: Result<String, String>) -> Seq<char> {
    match part {
        Ok(c) => c@,
        Err(_) => Seq::empty(),
    }
}

proof fn lemma_output_names_ascending()
    ensures
        strictly_sorted(output_names()),
{
    reveal_strlit("advancement_triggers.json");
    reveal_strlit("block_states.json");
    reveal_strlit("commands.json");
    reveal_strlit("entity_nbt.json");
    reveal_strlit("enums.json");
    reveal_strlit("registries.json");
    let n = output_names();
    assert(seq_less(n[0], n[1]));
    assert(seq_less(n[1], n[2]));
    assert(seq_less(n[2], n[3]));
    assert(seq_less(n[3].drop_first().drop_first(), n[4].drop_first().drop_first()));
    assert(seq_less(n[3].drop_first(), n[4].drop_first()));
    assert(seq_less(n[3], n[4]));
    assert(seq_less(n[4], n[5]));
    crate::sorted::lemma_adjacent_sorted(n);
}

/// Collects the generated files, given each generator's result in
/// generation order (registries, enums, commands, block states, entity NBT,
/// advancement triggers): the files sorted by name, or the first error.
pub fn generate_all(
    registries: Result<String, String>,
    enums: Result<String, String>,
    commands: Result<String, String>,
    block_states: Result<String, String>,
    entity_nbt: Result<String, String>,
    triggers: Result<String, String>,
) -> (r: Result<Vec<Output>, String>)
    ensures
        ({
            let parts = seq![registries, enums, commands, block_states, entity_nbt, triggers];
            match r {
                Ok(outputs) => first_error(parts) is None && outputs@.map_values(|o: Output| o.name@) == output_names()
                    && strictly_sorted(output_names()) && outputs@.map_values(|o: Output| o.contents@) == seq![
                    contents_of(triggers),
                    contents_of(block_states),
                    contents_of(commands),
                    contents_of(entity_nbt),
                    contents_of(enums),
                    contents_of(registries),
                ],
                Err(e) => first_error(parts) == Some(e@),
            }
        }),
{
    let ghost parts = seq![registries, enums, commands, block_states, entity_nbt, triggers];
    proof {
        assert(parts.drop_first() =~= seq![enums, commands, block_states, entity_nbt, triggers]);
        assert(parts.drop_first().drop_first() =~= seq![commands, block_states, entity_nbt, triggers]);
        assert(parts.drop_first().drop_first().drop_first() =~= seq![block_states, entity_nbt, triggers]);
        assert(parts.drop_first().drop_first().drop_first().drop_first() =~= seq![entity_nbt, triggers]);
        assert(parts.drop_first().drop_first().drop_first().drop_first().drop_first() =~= seq![triggers]);
        assert(seq![triggers].drop_first() =~= Seq::<Result<String, String>>::empty());
        lemma_output_names_ascending();
        reveal_with_fuel(first_error, 7);
    }
    let registries = match registries {
        Ok(c) => c,
        Err(e) => return Err(e),
    };
    let enums = match enums {
        Ok(c) => c,
        Err(e) => return Err(e),
    };
    let commands = match commands {
        Ok(c) => c,
        Err(e) => return Err(e),
    };
    let block_states = match block_states {
        Ok(c) => c,
        Err(e) => return Err(e),
    };
    let entity_nbt = match entity_nbt {
        Ok(c) => c,
        Err(e) => return Err(e),
    };
    let triggers = match triggers {
        Ok(c) => c,
        Err(e) => return Err(e),
    };
    let outputs = vec![
        Output { name: "advancement_triggers.json", contents: triggers },
        Output { name: "block_states.json", contents: block_states },
        Output { name: "commands.json", contents: commands },
        Output { name: "entity_nbt.json", contents: entity_nbt },
        Output { name: "enums.json", contents: enums },
        Output { name: "registries.json", contents: registries },
    ];
    assert(outputs@.map_values(|o: Output| o.name@) =~= output_names());
    assert(outputs@.map_values(|o: Output| o.contents@) =~= seq![
        contents_of(parts[5]),
        contents_of(parts[3]),
        contents_of(parts[2]),
        contents_of(parts[4]),
        contents_of(parts[1]),
        contents_of(parts[0]),
    ]);
    Ok(outputs)
}

/// `part` joined below `base` as `Path::join` joins a relative part with
/// `/` separators.
pub open spec fn path_join(base: Seq<char>, part: Seq<char>) -> Seq<char> {
    if base.len() == 0 {
        part
    } else if base.last() == '/' {
        base + part
    } else {
        base + seq!['/'] + part
    }
}

fn join_path(base: &str, part: &str) -> (r: String)
    ensures
        r@ == path_join(base@, part@),
{
    let b = crate::chars::chars_of(base);
    let mut r = base.to_owned();
    if b.len() > 0 && b[b.len() - 1] != '/' {
        crate::chars::push_char(&mut r, '/');
    }
    r.append(part);
    r
}

/// The directory of the shipped snapshot, `data/version/<snapshot
/// version>` below the repository root: the files that the snapshot queries
/// read are the ones generation writes and checks.
pub fn snapshot_directory(repo_root: &str) -> (r: String)
    ensures
        r@ == path_join(path_join(repo_root@, "data/version"@), crate::version::snapshot::VERSION@),
{
    let data = join_path(repo_root, "data/version");
    join_path(data.as_str(), crate::version::snapshot::VERSION)
}

} // verus!
