//! A verified import registry and descriptor bridge for a WebAssembly
//! runtime: a namespace-keyed mapping from field names to importable
//! entities (functions, memories, tables, globals), a tagged record shape
//! for moving single entities and batches across an ownership boundary,
//! and a resolver that turns a compiled module's interned import tables
//! into an ordered list of named descriptors.

pub mod bridge;
pub mod bytes;
pub mod descriptors;
pub mod entity;
pub mod errors;
pub mod handles;
pub mod kinds;
pub mod registry;
pub mod wasi;
