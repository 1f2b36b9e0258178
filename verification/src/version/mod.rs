//! Version data: static tables extracted, reproducibly, from the bundled
//! Minecraft sources.

pub mod generate;
pub mod entity_nbt;
pub mod snapshot;
