//! The closed set of importable entity kinds and the scalar value-type
//! tags used in function signatures.

use vstd::prelude::*;

verus! {

/// The kind tag of an importable or exportable entity.
#[allow(non_camel_case_types)]
#[derive(Clone, Copy, Debug, PartialEq, Eq, Structural)]
pub enum wasmer_import_export_kind {
    WASM_FUNCTION,
    WASM_GLOBAL,
    WASM_MEMORY,
    WASM_TABLE,
}

/// The scalar value-type tag of one function parameter or return slot.
#[allow(non_camel_case_types)]
#[derive(Clone, Copy, Debug, PartialEq, Eq, Structural)]
pub enum wasmer_value_tag {
    WASM_I32,
    WASM_I64,
    WASM_F32,
    WASM_F64,
}

/// Decodes a kind tag from its numeric form at the boundary: the four
/// kinds are numbered in declaration order, every other number is refused.
pub fn kind_from_u32(tag: u32) -> (r: Option<wasmer_import_export_kind>)
    ensures
        r == spec_kind_from_u32(tag),
{
    match tag {
        0u32 => Some(wasmer_import_export_kind::WASM_FUNCTION),
        1u32 => Some(wasmer_import_export_kind::WASM_GLOBAL),
        2u32 => Some(wasmer_import_export_kind::WASM_MEMORY),
        3u32 => Some(wasmer_import_export_kind::WASM_TABLE),
        _ => None,
    }
}

pub open spec fn spec_kind_from_u32(tag: u32) -> Option<wasmer_import_export_kind> {
    if tag == 0 {
        Some(wasmer_import_export_kind::WASM_FUNCTION)
    } else if tag == 1 {
        Some(wasmer_import_export_kind::WASM_GLOBAL)
    } else if tag == 2 {
        Some(wasmer_import_export_kind::WASM_MEMORY)
    } else if tag == 3 {
        Some(wasmer_import_export_kind::WASM_TABLE)
    } else {
        None
    }
}

} // verus!
