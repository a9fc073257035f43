//! Registry behaviour: lookup after insertion, absent keys, bulk merge
//! order, and encoding failures.

use wasmer_import_api::bridge::{wasmer_import_object_extend, wasmer_import_t};
use wasmer_import_api::entity::Entity;
use wasmer_import_api::errors::ImportError;
use wasmer_import_api::kinds::{wasmer_import_export_kind, wasmer_value_tag};
use wasmer_import_api::registry::{wasmer_import_object_destroy, wasmer_import_object_new};

use wasmer_runtime_core::global::Global;
use wasmer_runtime_core::memory::Memory;
use wasmer_runtime_core::table::Table;
use wasmer_runtime_core::types::{ElementType, MemoryDescriptor, TableDescriptor, Value};
use wasmer_runtime_core::units::Pages;

fn test_memory() -> Memory {
    let desc = MemoryDescriptor::new(Pages(1), None, false).unwrap();
    Memory::new(desc).unwrap()
}

fn test_table() -> Table {
    Table::new(TableDescriptor { element: ElementType::Anyfunc, minimum: 0, maximum: Some(0) })
        .unwrap()
}

fn test_global() -> Global {
    Global::new(Value::I32(7))
}

fn func_entity(addr: usize, params: Vec<wasmer_value_tag>) -> Entity {
    *wasmer_import_api::entity::wasmer_import_func_new(addr, params, vec![])
}

fn func_record(ns: &str, name: &str, addr: usize, params: Vec<wasmer_value_tag>) -> wasmer_import_t {
    wasmer_import_t {
        module_name: ns.as_bytes().to_vec(),
        import_name: name.as_bytes().to_vec(),
        tag: wasmer_import_export_kind::WASM_FUNCTION,
        value: Some(Box::new(func_entity(addr, params))),
    }
}

#[test]
fn lookup_finds_inserted_kind() {
    let mut registry = wasmer_import_object_new();
    registry.insert(b"env".to_vec(), b"foo".to_vec(), Entity::Memory(test_memory()));

    let found = registry.lookup(&b"env".to_vec(), &b"foo".to_vec());
    assert!(matches!(found, Some(Entity::Memory(_))));

    assert!(registry.lookup(&b"env".to_vec(), &b"bar".to_vec()).is_none());
    assert!(registry.lookup(&b"den".to_vec(), &b"foo".to_vec()).is_none());
    assert!(registry.lookup(&b"".to_vec(), &b"".to_vec()).is_none());
    wasmer_import_object_destroy(registry);
}

#[test]
fn lookup_distinguishes_all_kinds() {
    let mut registry = wasmer_import_object_new();
    registry.insert(b"env".to_vec(), b"mem".to_vec(), Entity::Memory(test_memory()));
    registry.insert(b"env".to_vec(), b"tbl".to_vec(), Entity::Table(test_table()));
    registry.insert(b"env".to_vec(), b"glb".to_vec(), Entity::Global(test_global()));
    registry.insert(b"env".to_vec(), b"fun".to_vec(), func_entity(0x10, vec![]));

    assert!(matches!(
        registry.lookup(&b"env".to_vec(), &b"mem".to_vec()),
        Some(Entity::Memory(_))
    ));
    assert!(matches!(
        registry.lookup(&b"env".to_vec(), &b"tbl".to_vec()),
        Some(Entity::Table(_))
    ));
    assert!(matches!(
        registry.lookup(&b"env".to_vec(), &b"glb".to_vec()),
        Some(Entity::Global(_))
    ));
    assert!(matches!(
        registry.lookup(&b"env".to_vec(), &b"fun".to_vec()),
        Some(Entity::Function(_))
    ));
}

#[test]
fn insert_overwrites_same_key() {
    let mut registry = wasmer_import_object_new();
    registry.insert(b"env".to_vec(), b"x".to_vec(), Entity::Memory(test_memory()));
    registry.insert(b"env".to_vec(), b"x".to_vec(), Entity::Global(test_global()));

    assert!(matches!(
        registry.lookup(&b"env".to_vec(), &b"x".to_vec()),
        Some(Entity::Global(_))
    ));
    assert_eq!(registry.entries.len(), 1);
}

#[test]
fn merge_last_write_wins() {
    let mut registry = wasmer_import_object_new();
    let records = vec![
        func_record("env", "a", 0x1, vec![wasmer_value_tag::WASM_I32]),
        func_record("env", "a", 0x2, vec![wasmer_value_tag::WASM_I64, wasmer_value_tag::WASM_I32]),
    ];
    let r = wasmer_import_object_extend(&mut registry, &records);
    assert!(r.is_ok());

    match registry.lookup(&b"env".to_vec(), &b"a".to_vec()) {
        Some(Entity::Function(f)) => {
            assert_eq!(f.func, 0x2);
            assert_eq!(f.params, vec![wasmer_value_tag::WASM_I64, wasmer_value_tag::WASM_I32]);
        }
        other => panic!("expected the second function entity, got {:?}", other.is_some()),
    }
    assert_eq!(registry.entries.len(), 1);
}

#[test]
fn merge_applies_distinct_keys() {
    let mut registry = wasmer_import_object_new();
    let records = vec![
        func_record("env", "a", 0x1, vec![]),
        func_record("env", "b", 0x2, vec![]),
        func_record("host", "a", 0x3, vec![]),
    ];
    assert!(wasmer_import_object_extend(&mut registry, &records).is_ok());
    assert_eq!(registry.entries.len(), 3);
    assert!(registry.lookup(&b"env".to_vec(), &b"a".to_vec()).is_some());
    assert!(registry.lookup(&b"env".to_vec(), &b"b".to_vec()).is_some());
    assert!(registry.lookup(&b"host".to_vec(), &b"a".to_vec()).is_some());
    assert!(registry.lookup(&b"host".to_vec(), &b"b".to_vec()).is_none());
}

#[test]
fn merge_rejects_invalid_text_and_leaves_registry_unchanged() {
    let mut registry = wasmer_import_object_new();
    registry.insert(b"env".to_vec(), b"keep".to_vec(), Entity::Global(test_global()));

    let mut bad = func_record("env", "a", 0x1, vec![]);
    bad.import_name = vec![0xFF, 0xFE];
    let records = vec![func_record("env", "ok", 0x2, vec![]), bad];

    let r = wasmer_import_object_extend(&mut registry, &records);
    assert_eq!(r, Err(ImportError::EncodingError));
    assert!(!r.unwrap_err().describe().is_empty());

    assert_eq!(registry.entries.len(), 1);
    assert!(registry.lookup(&b"env".to_vec(), &b"ok".to_vec()).is_none());
    assert!(registry.lookup(&b"env".to_vec(), &b"keep".to_vec()).is_some());
}
