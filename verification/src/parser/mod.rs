//! The parser: `parse` and the productions under it (the program and its
//! declarations, functions, statements, text components, expressions and
//! conditions, and the arguments they share), its token cursor, the
//! keyword and value tables, macro placeholders, bracket matching, and the
//! integer arrays of NBT literals.

pub mod advancement_decls;
pub mod advancements;
pub mod arguments;
pub mod arithmetic;
pub mod brackets;
pub mod components;
pub mod condition_parts;
pub mod conditions;
pub mod cursor;
pub mod declarations;
pub mod expressions;
pub mod functions;
pub mod imports;
pub mod items;
pub mod keywords;
pub mod macros;
pub mod nbt;
pub mod numbers;
pub mod objectives;
pub mod operators;
pub mod positions;
pub mod program;
pub mod query;
pub mod query_words;
pub mod self_words;
pub mod statement_words;
pub mod statements;
pub mod tags;
