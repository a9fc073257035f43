//! The host-directory mapping entry consumed by the POSIX-like
//! environment helper.
//!
//! Building the pre-populated import set itself is the helper's concern
//! and stays outside this library; what is validated here is the entry's
//! text: both names must be valid UTF-8 before they may become host-side
//! strings.

use vstd::prelude::*;

use crate::bytes::{check_utf8, clone_bytes, is_utf8};
use crate::errors::ImportError;

verus! {

/// Opens a directory that is visible to the guest module as `alias` but is
/// backed by the host file at `host_file_path`.
#[allow(non_camel_case_types)]
pub struct wasmer_wasi_map_dir_entry_t {
    /// What the guest module will see in its virtual root.
    pub alias: Vec<u8>,
    /// The backing host path the guest will interact with via the alias.
    pub host_file_path: Vec<u8>,
}

impl wasmer_wasi_map_dir_entry_t {
    /// Decodes the entry into owned (alias, host path) byte strings; fails
    /// with `EncodingError` exactly when either name is not valid UTF-8
    /// text.
    pub fn as_tuple(&self) -> (r: Result<(Vec<u8>, Vec<u8>), ImportError>)
        ensures
            (r is Ok) == (is_utf8(self.alias@) && is_utf8(self.host_file_path@)),
            r matches Ok(t) ==> t.0@ == self.alias@ && t.1@ == self.host_file_path@,
            r is Err ==> r == Err::<(Vec<u8>, Vec<u8>), ImportError>(ImportError::EncodingError),
    {
        if check_utf8(&self.alias) && check_utf8(&self.host_file_path) {
            Ok((clone_bytes(&self.alias), clone_bytes(&self.host_file_path)))
        } else {
            Err(ImportError::EncodingError)
        }
    }
}

} // verus!
