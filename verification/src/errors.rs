//! Error taxonomy for a personalization run. Every error is fatal to the
//! current run: each step mutates shared run state (cursor, hash, output
//! buffer), so nothing is retried internally.

use vstd::prelude::*;

verus! {

#[derive(Clone, Copy, Debug, PartialEq, Eq, Structural)]
pub enum PersoError {
    /// Fewer bytes remain than a fixed-size header needs.
    TruncatedInput,
    /// A declared object or certificate size exceeds the bytes remaining.
    SizeOverflow,
    /// Two independently derived sizes disagree (for a certificate, its
    /// self-declared length against the TLV-derived body length).
    SizeMismatch,
    /// Bytes that must be text (or a known type code) are not.
    InvalidEncoding,
    /// A local private key could not be loaded or decoded.
    KeyLoadError,
    /// The remote key service failed at signing time.
    KeyServiceError,
    /// A certificate body does not parse as a to-be-signed structure.
    MalformedCertificate,
    /// The signing operation itself failed.
    SigningFailed,
    /// The response blob would exceed the fixed protocol limit.
    CapacityExceeded,
    /// The device-reported hash differs from the host-computed hash.
    IntegrityMismatch,
    /// An endorsed certificate failed to chain to the trusted root.
    ChainValidationFailed,
    /// A blocking exchange with the device timed out.
    Timeout,
}

} // verus!
