# mclang

The verified core of the Mclang datapack compiler's tooling, written in
Verus.

- `src/` is the library. Every function carries a contract that Verus
  proves:
  - `parser`: `parse`, which reads a program (an optional namespace,
    imports, and exported or private declarations) from a token stream,
    and the productions under it: score, objective, data slot, resource,
    storage, function tag, item stack, advancement and entity query
    declarations; functions with their attributes, parameters and bodies;
    statements (`each`, `in_dimension`, `if`/`else`, `while`, `execute`,
    `run`, `call`, `schedule`, `give`, `self.*`, `message.*`, `return`,
    `let`, assignments and calls);
    text components with their style blocks; expressions (sums, products,
    negation, calls, `count`, `random`, `compute`, and named expressions
    such as `xp.query` and `data.get`); conditions (`!`, `&&`, `||`,
    groups, comparisons, and the `block`, `blocks`, `biome`, `loaded`,
    `dimension`, `entity`, `data`, `slots`, `function`, `stopwatch` and
    `predicate` calls); NBT sources, block positions and their macro
    coordinates, block states, holders, score targets, integer, decimal and
    boolean arguments, raw command strings; the keyword and value tables
    (Chinese and English spellings mapped to canonical English words),
    macro placeholders, bracket matching, and the integer arrays of NBT
    literals. What the parser does not read is answered with a diagnostic:
    the statements that build structured game commands (entity and world
    commands, `spawn`, `sound`, `effect`, `scoreboard`, `data.*`,
    `item.*`, `nbt`, …), item predicates (the
    `items(…)` condition and a query's `item(…)` filter), and decimal
    schedule delays.
  - `version::generate`: the extractors that read the bundled Minecraft
    sources (call arguments, string constants, command trees, block-state
    properties, advancement trigger fields, registry ids, enum values) and
    the FNV-1a digest of what they read.
  - `version::entity_nbt`: the entity NBT tag catalog, its scanner over
    entity classes, and the Chinese key aliases.
  - `version::snapshot`: the queries over the shipped version snapshot
    (registries, enums, commands, triggers, slots).
  - `chars`, `sorted`, `distance`, `json`: text helpers, sorted sets and
    maps over strings, edit distance, and the JSON values the library reads.
- `app/` is ordinary Rust around the library: it walks directories, reads
  and writes files, and renders JSON.
- `tests/` exercises the library on concrete inputs.
