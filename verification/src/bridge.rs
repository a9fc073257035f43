//! The foreign value bridge: the flat record shape used whenever an entity
//! crosses the ownership boundary, the single-entity and batch transfers,
//! the batch inbound merge, and the matching teardown.
//!
//! Every transfer clones: the record owns fresh copies of the namespace
//! bytes, the name bytes, and the boxed entity, independent of the
//! registry. Teardown consumes the records, so releasing the same batch
//! twice is impossible.

use vstd::prelude::*;

use crate::bytes::{check_utf8, clone_bytes, is_utf8};
use crate::entity::{clone_entity, entity_kind, entity_tag, Entity, EntityV, FuncV};
use crate::errors::ImportError;
use crate::kinds::wasmer_import_export_kind;
use crate::registry::{
    functions_of, insert_spec, lemma_functions_of_concat, lemma_functions_of_push,
    lemma_insert_lookup, lookup_spec, merge_spec, wasmer_import_object_t, EntryV,
};

verus! {

/// One boundary record: namespace bytes, name bytes, a kind tag, and the
/// value slot. A record owns all four; the slot, when filled, holds a
/// heap-boxed entity whose kind agrees with the tag.
#[allow(non_camel_case_types)]
pub struct wasmer_import_t {
    pub module_name: Vec<u8>,
    pub import_name: Vec<u8>,
    pub tag: wasmer_import_export_kind,
    pub value: Option<Box<Entity>>,
}

/// The mathematical value of one boundary record.
pub struct RecordV {
    pub module_name: Seq<u8>,
    pub import_name: Seq<u8>,
    pub tag: wasmer_import_export_kind,
    pub value: Option<EntityV>,
}

impl View for wasmer_import_t {
    type V = RecordV;

    open spec fn view(&self) -> RecordV {
        RecordV {
            module_name: self.module_name@,
            import_name: self.import_name@,
            tag: self.tag,
            value: match self.value {
                Some(b) => Some(b@),
                None => None,
            },
        }
    }
}

/// A record fit to cross the boundary: its slot is filled and its tag
/// names the kind of the entity in the slot.
pub open spec fn record_wf(r: RecordV) -> bool {
    r.value matches Some(e) && r.tag == entity_kind(e)
}

/// The registry binding a record stands for.
pub open spec fn entry_of_record(r: RecordV) -> EntryV {
    EntryV {
        namespace: r.module_name,
        name: r.import_name,
        entity: match r.value {
            Some(e) => e,
            None => arbitrary(),
        },
    }
}

/// The registry bindings a batch of records stands for, in order.
pub open spec fn entries_of_records(rs: Seq<wasmer_import_t>) -> Seq<EntryV> {
    rs.map_values(|r: wasmer_import_t| entry_of_record(r@))
}

/// Both names of a record are valid UTF-8 text.
pub open spec fn record_text_ok(r: RecordV) -> bool {
    is_utf8(r.module_name) && is_utf8(r.import_name)
}

/// The record that carries the binding `e` out across the boundary.
pub open spec fn record_of_entry(e: EntryV) -> RecordV {
    RecordV {
        module_name: e.namespace,
        import_name: e.name,
        tag: entity_kind(e.entity),
        value: Some(e.entity),
    }
}

/// What the single-entity transfer returns: the record on success,
/// `NotFound` for an absent key, `KindMismatch` naming both kinds when the
/// entity is not of the requested kind.
pub open spec fn get_import_spec(
    s: Seq<EntryV>,
    ns: Seq<u8>,
    nm: Seq<u8>,
    tag: wasmer_import_export_kind,
) -> Result<RecordV, ImportError> {
    match lookup_spec(s, ns, nm) {
        Some(e) => if entity_kind(e) == tag {
            Ok(RecordV { module_name: ns, import_name: nm, tag, value: Some(e) })
        } else {
            Err(ImportError::KindMismatch { found: entity_kind(e), expected: tag })
        },
        None => Err(ImportError::NotFound),
    }
}

/// Looks (`namespace`, `name`) up in the registry and, when the entity's
/// kind is the expected one, writes a record owning a boxed clone of the
/// entity and copies of both names into `import`. On any failure the
/// output record is left untouched.
#[allow(non_snake_case)]
pub fn wasmer_import_object_get_import(
    import_object: &wasmer_import_object_t,
    namespace: &Vec<u8>,
    name: &Vec<u8>,
    import: &mut wasmer_import_t,
    tag: wasmer_import_export_kind,
) -> (r: Result<(), ImportError>)
    ensures
        match get_import_spec(import_object@, namespace@, name@, tag) {
            Ok(rec) => r == Ok::<(), ImportError>(()) && final(import)@ == rec,
            Err(e) => r == Err::<(), ImportError>(e) && *final(import) == *old(import),
        },
{
    match import_object.lookup(namespace, name) {
        Some(e) => {
            let found = entity_tag(e);
            if found == tag {
                let boxed = Box::new(clone_entity(e));
                *import = wasmer_import_t {
                    module_name: clone_bytes(namespace),
                    import_name: clone_bytes(name),
                    tag,
                    value: Some(boxed),
                };
                Ok(())
            } else {
                Err(ImportError::KindMismatch { found, expected: tag })
            }
        },
        None => Err(ImportError::NotFound),
    }
}

/// Writes one record per function-kind binding, in registry order, into
/// the front of the caller-supplied buffer, each record owning fresh
/// copies of its names and entity. Stops at the buffer's length: the
/// returned count is the number of function bindings or the buffer's
/// length, whichever is smaller, and entries past the count are left
/// untouched.
#[allow(non_snake_case)]
#[verifier::loop_isolation(false)]
pub fn wasmer_import_object_get_functions(
    import_object: &wasmer_import_object_t,
    imports: &mut Vec<wasmer_import_t>,
) -> (r: usize)
    ensures
        final(imports).len() == old(imports).len(),
        functions_of(import_object@).len() <= old(imports)@.len() ==> r == functions_of(
            import_object@,
        ).len(),
        functions_of(import_object@).len() > old(imports)@.len() ==> r == old(imports)@.len(),
        forall|k: int|
            0 <= k < r ==> #[trigger] final(imports)@[k]@ == record_of_entry(
                functions_of(import_object@)[k],
            ),
        forall|k: int| r <= k < final(imports)@.len() ==> final(imports)@[k] == old(imports)@[k],
{
    let ghost s = import_object@;
    let capacity = imports.len();
    let n = import_object.entries.len();
    let mut written: usize = 0;
    let mut i: usize = 0;
    proof {
        assert(s.take(0) =~= Seq::<EntryV>::empty());
        assert(functions_of(s).take(0) =~= Seq::<EntryV>::empty());
    }
    while i < n
        invariant
            i <= n,
            written <= capacity,
            n == s.len(),
            written == functions_of(s.take(i as int)).len(),
            functions_of(s.take(i as int)) == functions_of(s).take(written as int),
            imports@.len() == capacity,
            forall|k: int|
                0 <= k < written ==> #[trigger] imports@[k]@ == record_of_entry(
                    functions_of(s)[k],
                ),
            forall|k: int| written <= k < capacity ==> imports@[k] == old(imports)@[k],
        decreases n - i,
    {
        let entry = &import_object.entries[i];
        proof {
            assert(entry@ == s[i as int]);
            assert(s.take(i + 1) =~= s.take(i as int).push(s[i as int]));
            lemma_functions_of_push(s.take(i as int), s[i as int]);
            assert(s =~= s.take(i + 1) + s.skip(i + 1));
            lemma_functions_of_concat(s.take(i + 1), s.skip(i + 1));
        }
        match &entry.entity {
            Entity::Function(_) => {
                proof {
                    assert(functions_of(s.take(i + 1)) == functions_of(s.take(i as int))
                        + seq![s[i as int]]);
                    assert(functions_of(s).len() >= written + 1);
                    assert(functions_of(s)[written as int] == s[i as int]);
                }
                if written == capacity {
                    return written;
                }
                let record = wasmer_import_t {
                    module_name: clone_bytes(&entry.namespace),
                    import_name: clone_bytes(&entry.name),
                    tag: wasmer_import_export_kind::WASM_FUNCTION,
                    value: Some(Box::new(clone_entity(&entry.entity))),
                };
                proof {
                    assert(record@ == record_of_entry(s[i as int]));
                }
                imports.set(written, record);
                written = written + 1;
                proof {
                    assert(functions_of(s.take(i + 1)) =~= functions_of(s).take(written as int));
                }
            },
            _ => {
                proof {
                    assert(functions_of(s.take(i + 1)) =~= functions_of(s.take(i as int)));
                }
            },
        }
        i = i + 1;
    }
    proof {
        assert(s.take(n as int) =~= s);
    }
    written
}

/// Decodes each record's names as UTF-8 text and merges the batch into the
/// registry in order, the last record winning a duplicate key. The merge
/// is all-or-nothing: if any record's names are not valid text, the call
/// fails with `EncodingError` and the registry is left unmodified.
#[allow(non_snake_case)]
#[verifier::loop_isolation(false)]
pub fn wasmer_import_object_extend(
    import_object: &mut wasmer_import_object_t,
    imports: &Vec<wasmer_import_t>,
) -> (r: Result<(), ImportError>)
    requires
        old(import_object).wf(),
        forall|i: int| 0 <= i < imports@.len() ==> record_wf(#[trigger] imports@[i]@),
    ensures
        final(import_object).wf(),
        (r == Ok::<(), ImportError>(())) <==> (forall|i: int|
            0 <= i < imports@.len() ==> record_text_ok(#[trigger] imports@[i]@)),
        r == Ok::<(), ImportError>(()) ==> final(import_object)@ == merge_spec(
            old(import_object)@,
            entries_of_records(imports@),
        ),
        r is Err ==> final(import_object)@ == old(import_object)@ && r == Err::<
            (),
            ImportError,
        >(ImportError::EncodingError),
{
    let n = imports.len();
    let mut i: usize = 0;
    while i < n
        invariant
            i <= n,
            forall|j: int| 0 <= j < i ==> record_text_ok(#[trigger] imports@[j]@),
        decreases n - i,
    {
        let rec = &imports[i];
        if !check_utf8(&rec.module_name) || !check_utf8(&rec.import_name) {
            proof {
                assert(imports@[i as int] == *rec);
                assert(!record_text_ok(imports@[i as int]@));
            }
            return Err(ImportError::EncodingError);
        }
        proof {
            assert(imports@[i as int] == *rec);
            assert(record_text_ok(imports@[i as int]@));
        }
        i = i + 1;
    }
    let ghost s0 = import_object@;
    let ghost rs = entries_of_records(imports@);
    let mut k: usize = 0;
    proof {
        assert(rs.take(0) =~= Seq::<EntryV>::empty());
    }
    while k < n
        invariant
            k <= n,
            import_object.wf(),
            import_object@ == merge_spec(s0, rs.take(k as int)),
        decreases n - k,
    {
        let rec = &imports[k];
        let entity = match &rec.value {
            Some(b) => clone_entity(&**b),
            None => unreached(),
        };
        proof {
            assert(rs[k as int] == entry_of_record(rec@));
        }
        import_object.insert(clone_bytes(&rec.module_name), clone_bytes(&rec.import_name), entity);
        proof {
            assert(rs.take(k + 1).drop_last() =~= rs.take(k as int));
            assert(rs.take(k + 1).last() == rs[k as int]);
        }
        k = k + 1;
    }
    proof {
        assert(rs.take(n as int) =~= rs);
    }
    Ok(())
}

/// Releases a batch of records produced by the outbound transfer: every
/// record's namespace bytes, name bytes, and boxed entity. The batch is
/// taken by value, so it can be torn down exactly once.
#[allow(non_snake_case)]
pub fn wasmer_import_object_imports_destroy(imports: Vec<wasmer_import_t>) {
    let _ = imports;
}

/// Law: after a function entity is bound under a key, the single-entity
/// transfer for that key with the function kind tag succeeds, and the
/// record it yields carries exactly the parameter and return type
/// sequences the entity was constructed with.
pub proof fn lemma_function_round_trip(s: Seq<EntryV>, ns: Seq<u8>, nm: Seq<u8>, f: FuncV)
    ensures
        get_import_spec(
            insert_spec(s, ns, nm, EntityV::Function(f)),
            ns,
            nm,
            wasmer_import_export_kind::WASM_FUNCTION,
        ) == Ok::<RecordV, ImportError>(
            RecordV {
                module_name: ns,
                import_name: nm,
                tag: wasmer_import_export_kind::WASM_FUNCTION,
                value: Some(EntityV::Function(f)),
            },
        ),
{
    lemma_insert_lookup(s, ns, nm, EntityV::Function(f), ns, nm);
}

/// Law: requesting an entity under a kind tag other than its actual kind
/// always fails with `KindMismatch` naming the found and the expected
/// kind; by the transfer's contract the output record is then untouched.
pub proof fn lemma_kind_mismatch(
    s: Seq<EntryV>,
    ns: Seq<u8>,
    nm: Seq<u8>,
    e: EntityV,
    tag: wasmer_import_export_kind,
)
    requires
        lookup_spec(s, ns, nm) == Some(e),
        entity_kind(e) != tag,
    ensures
        get_import_spec(s, ns, nm, tag) == Err::<RecordV, ImportError>(
            ImportError::KindMismatch { found: entity_kind(e), expected: tag },
        ),
{
}

} // verus!
