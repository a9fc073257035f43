//! Text handling at the boundary: the UTF-8 checker against std's
//! decoder, byte-string equality, error messages, kind decoding, and the
//! directory-mapping entry.

use wasmer_import_api::bytes::{bytes_eq, check_utf8, clone_bytes};
use wasmer_import_api::errors::ImportError;
use wasmer_import_api::kinds::{kind_from_u32, wasmer_import_export_kind};
use wasmer_import_api::wasi::wasmer_wasi_map_dir_entry_t;

#[test]
fn check_utf8_agrees_with_std() {
    let samples: Vec<Vec<u8>> = vec![
        b"".to_vec(),
        b"hello".to_vec(),
        "héllo wörld".as_bytes().to_vec(),
        "\u{07FF}\u{0800}\u{FFFD}\u{10FFFF}".as_bytes().to_vec(),
        vec![0x7F],
        vec![0x80],                      // lone continuation byte
        vec![0xC0, 0xAF],                // overlong two-byte form
        vec![0xC2],                      // truncated two-byte form
        vec![0xC2, 0x80],
        vec![0xE0, 0x80, 0x80],          // overlong three-byte form
        vec![0xE0, 0xA0, 0x80],
        vec![0xED, 0xA0, 0x80],          // surrogate code point
        vec![0xED, 0x9F, 0xBF],
        vec![0xEF, 0xBF, 0xBF],
        vec![0xF0, 0x80, 0x80, 0x80],    // overlong four-byte form
        vec![0xF0, 0x90, 0x80, 0x80],
        vec![0xF4, 0x8F, 0xBF, 0xBF],    // U+10FFFF
        vec![0xF4, 0x90, 0x80, 0x80],    // above U+10FFFF
        vec![0xF5, 0x80, 0x80, 0x80],
        vec![0xF0, 0x90, 0x80],          // truncated four-byte form
        vec![b'a', 0xC2, 0x80, b'b', 0xE4, 0xB8, 0xAD],
        vec![b'a', 0xC2, 0xC2, b'b'],
    ];
    for sample in samples {
        assert_eq!(
            check_utf8(&sample),
            std::str::from_utf8(&sample).is_ok(),
            "disagreement on {:?}",
            sample
        );
    }
}

#[test]
fn bytes_eq_compares_contents() {
    assert!(bytes_eq(&vec![], &vec![]));
    assert!(bytes_eq(&b"abc".to_vec(), &b"abc".to_vec()));
    assert!(!bytes_eq(&b"abc".to_vec(), &b"abd".to_vec()));
    assert!(!bytes_eq(&b"abc".to_vec(), &b"ab".to_vec()));
    let copy = clone_bytes(&b"abc".to_vec());
    assert!(bytes_eq(&copy, &b"abc".to_vec()));
}

#[test]
fn every_error_kind_has_a_message() {
    let errors = vec![
        ImportError::NotFound,
        ImportError::KindMismatch {
            found: wasmer_import_export_kind::WASM_FUNCTION,
            expected: wasmer_import_export_kind::WASM_TABLE,
        },
        ImportError::EncodingError,
        ImportError::TypeMismatch,
        ImportError::NullArgument,
    ];
    for e in errors {
        assert!(!e.describe().is_empty());
    }
}

#[test]
fn kind_decoding_covers_the_four_kinds_only() {
    assert_eq!(kind_from_u32(0), Some(wasmer_import_export_kind::WASM_FUNCTION));
    assert_eq!(kind_from_u32(1), Some(wasmer_import_export_kind::WASM_GLOBAL));
    assert_eq!(kind_from_u32(2), Some(wasmer_import_export_kind::WASM_MEMORY));
    assert_eq!(kind_from_u32(3), Some(wasmer_import_export_kind::WASM_TABLE));
    assert_eq!(kind_from_u32(4), None);
    assert_eq!(kind_from_u32(u32::MAX), None);
}

#[test]
fn map_dir_entry_decodes_valid_text() {
    let entry = wasmer_wasi_map_dir_entry_t {
        alias: b"sandbox".to_vec(),
        host_file_path: b"/tmp/data".to_vec(),
    };
    let (alias, path) = entry.as_tuple().unwrap();
    assert_eq!(alias, b"sandbox".to_vec());
    assert_eq!(path, b"/tmp/data".to_vec());
}

#[test]
fn map_dir_entry_rejects_invalid_text() {
    let entry = wasmer_wasi_map_dir_entry_t {
        alias: vec![0xFF],
        host_file_path: b"/tmp/data".to_vec(),
    };
    assert_eq!(entry.as_tuple(), Err(ImportError::EncodingError));

    let entry = wasmer_wasi_map_dir_entry_t {
        alias: b"ok".to_vec(),
        host_file_path: vec![0xED, 0xA0, 0x80],
    };
    assert_eq!(entry.as_tuple(), Err(ImportError::EncodingError));
}
