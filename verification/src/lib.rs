//! Host-side engine for personalizing a hardware device during factory
//! testing: it decodes the TLV blob of manufacturing objects the device
//! exports, drives endorsement of unendorsed certificates, accumulates an
//! integrity hash over every seed and final certificate, rebuilds the
//! response blob, and checks the device-reported hash before certificate
//! chain validation.

pub mod errors;
pub mod tlv;
pub mod hashing;
pub mod response;
pub mod session;

use vstd::prelude::*;

verus! {

/// Declares std::path::PathBuf, the path to a local key file, as an opaque
/// outside type.
#[verifier::external_type_specification]
#[verifier::external_body]
pub struct ExPathBuf(std::path::PathBuf);

/// The two interchangeable certificate-signing key sources: a path to a
/// local private-key file, or the identifier of a key held by a cloud
/// key-management service. Exactly one variant is active per run.
pub enum KeyWrapper {
    LocalKey(std::path::PathBuf),
    CkmsKey(String),
}

} // verus!

