//! The error kinds a boundary operation can report.
//!
//! Every fallible operation of this library returns one of these kinds;
//! a host-facing shim can turn the kind into a stored last-error message.

use vstd::prelude::*;

use crate::kinds::wasmer_import_export_kind;

verus! {

/// Why a boundary operation failed.
#[derive(Clone, Copy, Debug, PartialEq, Eq, Structural)]
pub enum ImportError {
    /// The (namespace, name) pair is absent from the registry.
    NotFound,
    /// The entity exists but is not of the expected kind.
    KindMismatch {
        found: wasmer_import_export_kind,
        expected: wasmer_import_export_kind,
    },
    /// Namespace or name bytes are not valid UTF-8 text.
    EncodingError,
    /// Signature introspection was requested on a non-function entity.
    TypeMismatch,
    /// A required input or output argument is absent.
    NullArgument,
}

impl ImportError {
    /// A non-empty human-readable message for the error kind, suitable as
    /// the stored last-error text of a host-facing shim.
    pub fn describe(&self) -> (m: &'static str)
        ensures
            m@.len() > 0,
    {
        match self {
            ImportError::NotFound => {
                proof {
                    reveal_strlit("export not found");
                }
                "export not found"
            },
            ImportError::KindMismatch { .. } => {
                proof {
                    reveal_strlit("entity found, but not of the expected kind");
                }
                "entity found, but not of the expected kind"
            },
            ImportError::EncodingError => {
                proof {
                    reveal_strlit("error converting bytes to a UTF-8 string");
                }
                "error converting bytes to a UTF-8 string"
            },
            ImportError::TypeMismatch => {
                proof {
                    reveal_strlit("entity is not a function");
                }
                "entity is not a function"
            },
            ImportError::NullArgument => {
                proof {
                    reveal_strlit("a required argument is absent");
                }
                "a required argument is absent"
            },
        }
    }
}

} // verus!
