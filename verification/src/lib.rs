//! Verified core of the Mclang datapack compiler: the parser's keyword
//! tables and its productions for declarations, expressions and
//! conditions, the version-data extractors that read the bundled Minecraft
//! sources, and the snapshot and entity NBT lookups built on their output.

pub mod chars;
pub mod distance;
pub mod json;
pub mod parser;
pub mod sorted;
pub mod version;
