//! Opaque handles to the runtime's executable entities.
//!
//! Linear memories, indirect-call tables and global value cells are owned
//! and implemented by the runtime core; this library only stores and clones
//! their handles. Each handle type is declared opaque here, together with
//! the clone call the registry relies on. Cloning duplicates a cheap
//! reference-counted handle, never the underlying resource.

use vstd::prelude::*;

verus! {

/// Declares the runtime core's linear-memory handle as an opaque type.
#[verifier::external_type_specification]
#[verifier::external_body]
pub struct ExMemory(wasmer_runtime_core::memory::Memory);

/// Declares the runtime core's indirect-call-table handle as an opaque
/// type.
#[verifier::external_type_specification]
#[verifier::external_body]
pub struct ExTable(wasmer_runtime_core::table::Table);

/// Declares the runtime core's global-value-cell handle as an opaque type.
#[verifier::external_type_specification]
#[verifier::external_body]
pub struct ExGlobal(wasmer_runtime_core::global::Global);

/// Relies on `<Memory as Clone>::clone`: duplicates the handle to the same
/// linear memory. Nothing about the handle is visible to contracts.
#[verifier::external_body]
pub(crate) fn clone_memory(m: &wasmer_runtime_core::memory::Memory) -> wasmer_runtime_core::memory::Memory {
    m.clone()
}

/// Relies on `<Table as Clone>::clone`: duplicates the handle to the same
/// indirect-call table.
#[verifier::external_body]
pub(crate) fn clone_table(t: &wasmer_runtime_core::table::Table) -> wasmer_runtime_core::table::Table {
    t.clone()
}

/// Relies on `<Global as Clone>::clone`: duplicates the handle to the same
/// global value cell.
#[verifier::external_body]
pub(crate) fn clone_global(g: &wasmer_runtime_core::global::Global) -> wasmer_runtime_core::global::Global {
    g.clone()
}

} // verus!
