//! The entity model: the closed set of four importable entity kinds, their
//! clone semantics, and signature introspection for function entities.
//!
//! Memories, tables and globals are opaque handles owned by the runtime
//! core; a function entity carries its ordered parameter and return type
//! tags, a raw invocable address, and a calling context. Cloning an entity
//! duplicates handles and copies the signature, never the underlying
//! resources.

use vstd::prelude::*;

use crate::errors::ImportError;
use crate::handles::{clone_global, clone_memory, clone_table};
use crate::kinds::{wasmer_import_export_kind, wasmer_value_tag};

verus! {

/// The calling context threaded through a function entity: none beyond the
/// runtime's own (`Internal`), a foreign context address, or a foreign
/// context address with an optional environment address. The addresses are
/// opaque to this library; it only stores and copies them.
#[derive(Clone, Copy, Debug, PartialEq, Eq, Structural)]
pub enum CallContext {
    External(usize),
    ExternalWithEnv(usize, Option<usize>),
    Internal,
}

/// A function entity: ordered parameter and return type tags, a raw
/// invocable address (opaque here), and a calling context.
#[allow(non_camel_case_types)]
pub struct wasmer_import_func_t {
    pub params: Vec<wasmer_value_tag>,
    pub results: Vec<wasmer_value_tag>,
    pub func: usize,
    pub ctx: CallContext,
}

/// The mathematical value of a function entity.
pub struct FuncV {
    pub params: Seq<wasmer_value_tag>,
    pub results: Seq<wasmer_value_tag>,
    pub func: usize,
    pub ctx: CallContext,
}

impl View for wasmer_import_func_t {
    type V = FuncV;

    open spec fn view(&self) -> FuncV {
        FuncV { params: self.params@, results: self.results@, func: self.func, ctx: self.ctx }
    }
}

/// An importable entity: exactly one of the four kinds. The memory, table
/// and global payloads are handles owned by the runtime core.
pub enum Entity {
    Function(wasmer_import_func_t),
    Memory(wasmer_runtime_core::memory::Memory),
    Table(wasmer_runtime_core::table::Table),
    Global(wasmer_runtime_core::global::Global),
}

/// The mathematical value of an entity: its kind, and for a function its
/// full signature. The non-function handles are opaque, so their value is
/// the kind alone.
pub enum EntityV {
    Function(FuncV),
    Memory,
    Table,
    Global,
}

impl View for Entity {
    type V = EntityV;

    open spec fn view(&self) -> EntityV {
        match self {
            Entity::Function(f) => EntityV::Function(f@),
            Entity::Memory(_) => EntityV::Memory,
            Entity::Table(_) => EntityV::Table,
            Entity::Global(_) => EntityV::Global,
        }
    }
}

/// The kind tag of an entity value.
pub open spec fn entity_kind(e: EntityV) -> wasmer_import_export_kind {
    match e {
        EntityV::Function(_) => wasmer_import_export_kind::WASM_FUNCTION,
        EntityV::Memory => wasmer_import_export_kind::WASM_MEMORY,
        EntityV::Table => wasmer_import_export_kind::WASM_TABLE,
        EntityV::Global => wasmer_import_export_kind::WASM_GLOBAL,
    }
}

/// The kind tag of an entity, executably.
pub fn entity_tag(e: &Entity) -> (k: wasmer_import_export_kind)
    ensures
        k == entity_kind(e@),
{
    match e {
        Entity::Function(_) => wasmer_import_export_kind::WASM_FUNCTION,
        Entity::Memory(_) => wasmer_import_export_kind::WASM_MEMORY,
        Entity::Table(_) => wasmer_import_export_kind::WASM_TABLE,
        Entity::Global(_) => wasmer_import_export_kind::WASM_GLOBAL,
    }
}

/// An owned copy of a type-tag sequence.
fn clone_tags(v: &Vec<wasmer_value_tag>) -> (r: Vec<wasmer_value_tag>)
    ensures
        r@ == v@,
{
    let mut r: Vec<wasmer_value_tag> = Vec::new();
    let n = v.len();
    let mut i: usize = 0;
    while i < n
        invariant
            i <= n,
            n == v@.len(),
            r@ == v@.take(i as int),
        decreases n - i,
    {
        r.push(v[i]);
        proof {
            assert(r@ =~= v@.take(i + 1));
        }
        i = i + 1;
    }
    proof {
        assert(v@.take(n as int) =~= v@);
    }
    r
}

/// A fresh, independently owned copy of an entity: the same value, with
/// each contained handle duplicated.
pub fn clone_entity(e: &Entity) -> (r: Entity)
    ensures
        r@ == e@,
{
    match e {
        Entity::Function(f) => Entity::Function(
            wasmer_import_func_t {
                params: clone_tags(&f.params),
                results: clone_tags(&f.results),
                func: f.func,
                ctx: f.ctx,
            },
        ),
        Entity::Memory(m) => Entity::Memory(clone_memory(m)),
        Entity::Table(t) => Entity::Table(clone_table(t)),
        Entity::Global(g) => Entity::Global(clone_global(g)),
    }
}

/// Constructs a heap-boxed function entity from a raw invocable address and
/// its signature tags; the calling context is the runtime's own.
#[allow(non_snake_case)]
pub fn wasmer_import_func_new(
    func: usize,
    params: Vec<wasmer_value_tag>,
    results: Vec<wasmer_value_tag>,
) -> (r: Box<Entity>)
    ensures
        r@ == EntityV::Function(
            FuncV { params: params@, results: results@, func, ctx: CallContext::Internal },
        ),
{
    Box::new(Entity::Function(wasmer_import_func_t { params, results, func, ctx: CallContext::Internal }))
}

/// The parameter arity of a function entity; `TypeMismatch` on any other
/// kind.
#[allow(non_snake_case)]
pub fn wasmer_import_func_params_arity(func: &Entity) -> (r: Result<u32, ImportError>)
    requires
        func@ matches EntityV::Function(f) ==> f.params.len() <= u32::MAX,
    ensures
        match func@ {
            EntityV::Function(f) => r == Ok::<u32, ImportError>(f.params.len() as u32),
            _ => r == Err::<u32, ImportError>(ImportError::TypeMismatch),
        },
{
    match func {
        Entity::Function(f) => Ok(f.params.len() as u32),
        _ => Err(ImportError::TypeMismatch),
    }
}

/// The return arity of a function entity; `TypeMismatch` on any other kind.
#[allow(non_snake_case)]
pub fn wasmer_import_func_returns_arity(func: &Entity) -> (r: Result<u32, ImportError>)
    requires
        func@ matches EntityV::Function(f) ==> f.results.len() <= u32::MAX,
    ensures
        match func@ {
            EntityV::Function(f) => r == Ok::<u32, ImportError>(f.results.len() as u32),
            _ => r == Err::<u32, ImportError>(ImportError::TypeMismatch),
        },
{
    match func {
        Entity::Function(f) => Ok(f.results.len() as u32),
        _ => Err(ImportError::TypeMismatch),
    }
}

/// Writes the parameter type tags of a function entity into the front of
/// the caller-supplied buffer, leaving the rest of the buffer and its
/// length unchanged; `TypeMismatch` on any other kind, with the buffer
/// untouched.
#[allow(non_snake_case)]
pub fn wasmer_import_func_params(func: &Entity, params: &mut Vec<wasmer_value_tag>) -> (r: Result<
    (),
    ImportError,
>)
    requires
        func@ matches EntityV::Function(f) ==> f.params.len() <= old(params).len(),
    ensures
        final(params).len() == old(params).len(),
        match func@ {
            EntityV::Function(f) => {
                &&& r == Ok::<(), ImportError>(())
                &&& final(params)@ =~= f.params + old(params)@.skip(f.params.len() as int)
            },
            _ => r == Err::<(), ImportError>(ImportError::TypeMismatch) && final(params)@ == old(
                params,
            )@,
        },
{
    match func {
        Entity::Function(f) => {
            let n = f.params.len();
            let mut i: usize = 0;
            while i < n
                invariant
                    i <= n,
                    n == f.params@.len(),
                    n <= params@.len(),
                    params@.len() == old(params)@.len(),
                    forall|j: int| 0 <= j < i ==> params@[j] == f.params@[j],
                    forall|j: int| i <= j < params@.len() ==> params@[j] == old(params)@[j],
                decreases n - i,
            {
                params.set(i, f.params[i]);
                i = i + 1;
            }
            Ok(())
        },
        _ => Err(ImportError::TypeMismatch),
    }
}

/// Writes the return type tags of a function entity into the front of the
/// caller-supplied buffer, leaving the rest of the buffer and its length
/// unchanged; `TypeMismatch` on any other kind, with the buffer untouched.
#[allow(non_snake_case)]
pub fn wasmer_import_func_returns(func: &Entity, results: &mut Vec<wasmer_value_tag>) -> (r: Result<
    (),
    ImportError,
>)
    requires
        func@ matches EntityV::Function(f) ==> f.results.len() <= old(results).len(),
    ensures
        final(results).len() == old(results).len(),
        match func@ {
            EntityV::Function(f) => {
                &&& r == Ok::<(), ImportError>(())
                &&& final(results)@ =~= f.results + old(results)@.skip(f.results.len() as int)
            },
            _ => r == Err::<(), ImportError>(ImportError::TypeMismatch) && final(results)@ == old(
                results,
            )@,
        },
{
    match func {
        Entity::Function(f) => {
            let n = f.results.len();
            let mut i: usize = 0;
            while i < n
                invariant
                    i <= n,
                    n == f.results@.len(),
                    n <= results@.len(),
                    results@.len() == old(results)@.len(),
                    forall|j: int| 0 <= j < i ==> results@[j] == f.results@[j],
                    forall|j: int| i <= j < results@.len() ==> results@[j] == old(results)@[j],
                decreases n - i,
            {
                results.set(i, f.results[i]);
                i = i + 1;
            }
            Ok(())
        },
        _ => Err(ImportError::TypeMismatch),
    }
}

/// Releases a heap-boxed entity; the matching teardown for
/// `wasmer_import_func_new`.
#[allow(non_snake_case)]
pub fn wasmer_import_func_destroy(func: Box<Entity>) {
    let _ = func;
}

} // verus!
