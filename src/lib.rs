//! Inspection of native audio-plugin binaries: executable-header checks, the
//! decoding of fixed foreign buffers, and the two probing protocols.
use vstd::prelude::*;

pub mod arch;
pub mod lib_loader;
pub mod scan;
pub mod types;
pub mod utils;
pub mod vst2;
pub mod vst3;

verus! {

/// Declared so that an I/O failure can travel inside the library's errors.
#[verifier::external_type_specification]
#[verifier::external_body]
pub struct ExIoError(std::io::Error);

} // verus!
