//! Descriptor resolution: table order, interned-name resolution, and the
//! list accessors.

use wasmer_import_api::descriptors::{
    wasmer_import_descriptor_kind, wasmer_import_descriptor_module_name,
    wasmer_import_descriptor_name, wasmer_import_descriptors, wasmer_import_descriptors_destroy,
    wasmer_import_descriptors_get, wasmer_import_descriptors_len, ImportName, ModuleImports,
};
use wasmer_import_api::kinds::wasmer_import_export_kind;

fn string_table(names: &[&str]) -> Vec<Vec<u8>> {
    names.iter().map(|n| n.as_bytes().to_vec()).collect()
}

#[test]
fn descriptor_order_is_functions_tables_globals_memories() {
    // 2 function imports, 1 table import, 0 global imports, 1 memory
    // import: four descriptors, kinds in exactly that table order.
    let module = ModuleImports {
        imported_functions: vec![
            ImportName { namespace_index: 0, name_index: 0 },
            ImportName { namespace_index: 0, name_index: 1 },
        ],
        imported_tables: vec![ImportName { namespace_index: 1, name_index: 2 }],
        imported_globals: vec![],
        imported_memories: vec![ImportName { namespace_index: 0, name_index: 3 }],
        namespace_table: string_table(&["env", "host"]),
        name_table: string_table(&["f_a", "f_b", "tab", "mem"]),
    };

    let descriptors = wasmer_import_descriptors(&module);
    assert_eq!(wasmer_import_descriptors_len(&descriptors), 4);

    let kinds: Vec<wasmer_import_export_kind> = (0..4)
        .map(|i| wasmer_import_descriptor_kind(wasmer_import_descriptors_get(&descriptors, i)))
        .collect();
    assert_eq!(
        kinds,
        vec![
            wasmer_import_export_kind::WASM_FUNCTION,
            wasmer_import_export_kind::WASM_FUNCTION,
            wasmer_import_export_kind::WASM_TABLE,
            wasmer_import_export_kind::WASM_MEMORY,
        ]
    );

    let d0 = wasmer_import_descriptors_get(&descriptors, 0);
    assert_eq!(wasmer_import_descriptor_module_name(d0), &b"env".to_vec());
    assert_eq!(wasmer_import_descriptor_name(d0), &b"f_a".to_vec());

    let d1 = wasmer_import_descriptors_get(&descriptors, 1);
    assert_eq!(wasmer_import_descriptor_name(d1), &b"f_b".to_vec());

    let d2 = wasmer_import_descriptors_get(&descriptors, 2);
    assert_eq!(wasmer_import_descriptor_module_name(d2), &b"host".to_vec());
    assert_eq!(wasmer_import_descriptor_name(d2), &b"tab".to_vec());

    let d3 = wasmer_import_descriptors_get(&descriptors, 3);
    assert_eq!(wasmer_import_descriptor_module_name(d3), &b"env".to_vec());
    assert_eq!(wasmer_import_descriptor_name(d3), &b"mem".to_vec());

    wasmer_import_descriptors_destroy(descriptors);
}

#[test]
fn descriptor_strings_are_independent_copies() {
    let mut module = ModuleImports {
        imported_functions: vec![ImportName { namespace_index: 0, name_index: 0 }],
        imported_tables: vec![],
        imported_globals: vec![],
        imported_memories: vec![],
        namespace_table: string_table(&["env"]),
        name_table: string_table(&["f"]),
    };

    let descriptors = wasmer_import_descriptors(&module);
    // Mutating the module's interned tables afterwards does not affect the
    // already-resolved descriptors.
    module.namespace_table[0] = b"changed".to_vec();
    module.name_table[0] = b"changed".to_vec();

    let d = wasmer_import_descriptors_get(&descriptors, 0);
    assert_eq!(wasmer_import_descriptor_module_name(d), &b"env".to_vec());
    assert_eq!(wasmer_import_descriptor_name(d), &b"f".to_vec());
}

#[test]
fn empty_module_yields_empty_descriptor_list() {
    let module = ModuleImports {
        imported_functions: vec![],
        imported_tables: vec![],
        imported_globals: vec![],
        imported_memories: vec![],
        namespace_table: vec![],
        name_table: vec![],
    };
    let descriptors = wasmer_import_descriptors(&module);
    assert_eq!(wasmer_import_descriptors_len(&descriptors), 0);
    wasmer_import_descriptors_destroy(descriptors);
}

#[test]
fn shared_interned_names_resolve_to_the_same_text() {
    // Two imports sharing one interned name entry resolve to equal,
    // separately owned strings.
    let module = ModuleImports {
        imported_functions: vec![
            ImportName { namespace_index: 0, name_index: 0 },
        ],
        imported_tables: vec![],
        imported_globals: vec![ImportName { namespace_index: 0, name_index: 0 }],
        imported_memories: vec![],
        namespace_table: string_table(&["env"]),
        name_table: string_table(&["shared"]),
    };
    let descriptors = wasmer_import_descriptors(&module);
    assert_eq!(wasmer_import_descriptors_len(&descriptors), 2);
    let a = wasmer_import_descriptor_name(wasmer_import_descriptors_get(&descriptors, 0)).clone();
    let b = wasmer_import_descriptor_name(wasmer_import_descriptors_get(&descriptors, 1)).clone();
    assert_eq!(a, b);
    assert_eq!(a, b"shared".to_vec());
    assert_eq!(
        wasmer_import_descriptor_kind(wasmer_import_descriptors_get(&descriptors, 1)),
        wasmer_import_export_kind::WASM_GLOBAL
    );
}
